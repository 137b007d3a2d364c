//! Client-side protocol layer for a remote object-storage node: request
//! encoding, response decoding, the error taxonomy and the resumable upload
//! session protocol.

pub mod text;
pub mod range;
pub mod headers;
pub mod error;
pub mod dto;
pub mod ids;
pub mod connector;
pub mod session;
