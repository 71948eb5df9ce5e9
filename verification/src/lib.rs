//! Image file encoders: which format a file is written in, with what options,
//! and the order of steps by which the encoded bytes reach the disk.

pub mod codec;
pub mod durable;
pub mod encoder;
pub mod race;
pub mod resolve;

pub use encoder::CompressionLevel;
pub use encoder::FileEncoder;
