//! Command protocol for the screen modules of Zoom65 v3 and Zoom TKL Dyna
//! keyboards.
//!
//! The library builds the frames that the screens understand, decides what an
//! answer means, and lays out operations of several frames, such as the way to
//! a screen or the upload of a picture. It never touches a device: an operation
//! is handed out as a [`transport::Transfer`], which tells the holder of the
//! device which frame to write next and takes the answers.
//!
//! - [`checksum`]: the checksums that the firmware verifies.
//! - [`float`]: the 16-bit code of the download rate.
//! - [`transport`]: answers, and operations of one or more frames.
//! - [`device`]: finding the keyboard on the bus, and its firmware version.
//! - [`board`]: what a board says of itself.
//! - [`weather`]: from a weather code to an icon.
//! - [`media`]: the pixels of a picture.
//! - [`zoom65v3`] and [`zoomtkldyna`]: the two dialects.

pub mod board;
pub mod checksum;
pub mod device;
pub mod error;
pub mod float;
pub mod media;
pub mod transport;
pub mod weather;
pub mod zoom65v3;
pub mod zoomtkldyna;
