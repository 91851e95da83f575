use vstd::prelude::*;
use crate::format::ColorTag;

verus! {

/// The fixed failure taxonomy of the adapter. Every error aborts the whole
/// decode operation; there is no retry and no partial-success mode. The
/// caller formats these for presentation, adding the raw header text where
/// the category calls for it.
#[derive(Debug, Clone)]
pub enum SourceError {
    /// The container ended while its header was being read, or the header
    /// is otherwise invalid.
    Truncated,
    /// The container header parsed but its metadata is invalid.
    InvalidMetadata,
    /// The container declares a color format outside the set the parser
    /// itself knows.
    UnknownColorspace,
    /// The parser's memory-exhaustion guard tripped, usually on bogus
    /// dimensions.
    OutOfMemory,
    /// The input is not a y4m stream at all.
    NotY4M,
    /// A generic parse failure, with the parser's own description.
    Parse(String),
    /// An I/O failure while reading the stream, with its description.
    Io(String),
    /// A recognized colorspace tag whose bit depth is above what the
    /// conversion paths support; names the rejected tag.
    UnsupportedDepth(ColorTag),
    /// A declared colorspace tag outside the known set.
    UnknownMode,
    /// Width or height outside the supported range.
    TooLarge,
    /// A frame that was read successfully but cannot be used: its luma
    /// plane is empty, or the repacked pixel count is wrong.
    BadFrame,
    /// The pixel converter rejected the frame, with its description.
    Conversion(String),
}

} // verus!
