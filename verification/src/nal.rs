//! NAL-unit payload structures: sequence and picture parameter sets.

pub mod pps;
pub mod sps;
