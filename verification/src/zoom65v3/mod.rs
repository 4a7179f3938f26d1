//! The Zoom65 v3 dialect: plain frames without a checksum, screens reached by
//! steps from the logo, and media uploads in checked chunks.

pub mod abi;
pub mod keyboard;
pub mod screen;
pub mod types;
pub mod upload;
