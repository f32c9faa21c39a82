//! Trust-region methods.

pub mod steihaug;
