//! Sans-I/O core of a depth-camera capture bridge: device selection, stream
//! configuration, the session protocol and frame decoding, with machine-checked
//! contracts.

pub mod capture;
pub mod decode;
pub mod device;
pub mod discipline;
pub mod error;
pub mod frame;
pub mod protocol;
pub mod session;
pub mod stream;
