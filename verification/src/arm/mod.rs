//! ARM Debug Interface registers.

pub mod ap;
pub mod bits;
pub mod dp;
pub mod map;
pub mod register;
