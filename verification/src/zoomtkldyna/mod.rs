//! The Zoom TKL Dyna dialect: its own frames carry a 16-bit checksum over their
//! body, and some carry a checksum byte over their payload as well. The screen
//! also takes a few plain frames, the same as the Zoom65 v3.

pub mod abi;
pub mod keyboard;
pub mod screen;
pub mod types;
