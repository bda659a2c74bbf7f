//! Client core for a length-delimited binary gateway protocol: the fixed
//! 44-byte frame header, frame encoding and decoding, reassembly of frames
//! from arbitrary reads, the outgoing sequence counter and the classification
//! of unsolicited push frames.

pub mod header;
pub mod frame;
pub mod buffer;
pub mod action;
pub mod serial;
pub mod push;
