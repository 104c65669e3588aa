//! The operations that the command line offers.

pub mod plant;
pub mod silo;
