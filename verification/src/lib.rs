//! Verified core of the airfrog wireless SWD co-processor.

pub mod arm;
pub mod bin;
pub mod device;
pub mod error;
pub mod firmware;
pub mod fmt;
pub mod handler;
pub mod http;
pub mod mcu;
pub mod net;
pub mod rtt;
pub mod swd;
