//! Streaming video-frame source adapter for raw, frame-sequential y4m video.
//!
//! The library holds the decisions the adapter makes: mapping a declared
//! colorspace tag to a chroma-subsampling family, resolving the color matrix
//! and value range, validating dimensions, estimating the total frame count
//! from the file size, retiming the frame sequence to a requested output
//! rate, and converting each retained frame's planar data to packed RGBA
//! pixels. Reading the container and feeding the frame sink stay with the
//! caller, which hands plain values in and takes plain values back.

pub mod error;
pub mod estimate;
pub mod format;
pub mod frame;
pub mod retime;
