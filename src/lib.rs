//! Verified protocol layer for driving an AV1 encoder/decoder component:
//! status-code mapping, handle ownership, session lifecycle, the packet
//! exchange loop, typed configuration, ROI side data and IVF container
//! framing, plus an in-memory component that follows the same protocol.

pub mod config;
pub mod decoder;
pub mod encoder;
pub mod error;
pub mod handle;
pub mod ivf;
pub mod loopback;
pub mod roi;
pub mod session;

pub use error::{ok, Error, Result};
