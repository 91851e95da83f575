use vstd::prelude::*;
use crate::format::ColorTag;

verus! {

/// Per-frame overhead of the container's text frame marker, in bytes.
pub const FRAME_MARKER_OVERHEAD: u64 = 6;

/// The byte-weight of a declared colorspace tag, in quarters of a sample
/// per pixel: 4 for the monochrome tags, 6 for the 4:2:0 family, 8 for the
/// 4:2:2 family, 12 for the 4:4:4 family, and a conservative 12 for a tag
/// outside the known set.
pub open spec fn spec_sampling_weight(tag: Option<ColorTag>) -> int {
    match tag {
        Some(ColorTag::Cmono) => 4,
        Some(ColorTag::Cmono12) => 4,
        Some(ColorTag::C420) => 6,
        Some(ColorTag::C420p10) => 6,
        Some(ColorTag::C420p12) => 6,
        Some(ColorTag::C420jpeg) => 6,
        Some(ColorTag::C420paldv) => 6,
        Some(ColorTag::C420mpeg2) => 6,
        Some(ColorTag::C422) => 8,
        Some(ColorTag::C422p10) => 8,
        Some(ColorTag::C422p12) => 8,
        Some(ColorTag::C444) => 12,
        Some(ColorTag::C444p10) => 12,
        Some(ColorTag::C444p12) => 12,
        None => 12,
    }
}

/// The weight table as executable code.
pub fn sampling_weight(tag: Option<ColorTag>) -> (r: u64)
    ensures
        r == spec_sampling_weight(tag),
{
    match tag {
        Some(ColorTag::Cmono) => 4,
        Some(ColorTag::Cmono12) => 4,
        Some(ColorTag::C420) => 6,
        Some(ColorTag::C420p10) => 6,
        Some(ColorTag::C420p12) => 6,
        Some(ColorTag::C420jpeg) => 6,
        Some(ColorTag::C420paldv) => 6,
        Some(ColorTag::C420mpeg2) => 6,
        Some(ColorTag::C422) => 8,
        Some(ColorTag::C422p10) => 8,
        Some(ColorTag::C422p12) => 8,
        Some(ColorTag::C444) => 12,
        Some(ColorTag::C444p10) => 12,
        Some(ColorTag::C444p12) => 12,
        None => 12,
    }
}

/// The expected size of one encoded frame in bytes: the pixel payload under
/// the tag's subsampling weight, plus the frame marker overhead.
pub open spec fn spec_bytes_per_frame(
    width: int,
    height: int,
    bytes_per_sample: int,
    tag: Option<ColorTag>,
) -> int {
    width * height * bytes_per_sample * spec_sampling_weight(tag) / 4 + 6
}

/// The estimated total frame count: the bytes past the header, divided by
/// the expected bytes per frame, truncating down and never negative.
pub open spec fn spec_estimated_frames(
    file_size: int,
    header_len: int,
    width: int,
    height: int,
    bytes_per_sample: int,
    tag: Option<ColorTag>,
) -> int {
    (if file_size >= header_len {
        file_size - header_len
    } else {
        0
    }) / spec_bytes_per_frame(width, height, bytes_per_sample, tag)
}

/// Estimate how many frames the container holds, for progress display:
/// `None` when the file size is unknown, else the bytes past the header
/// divided by the expected per-frame byte count. A heuristic upper bound,
/// not an exact count; it reads no frame data.
pub fn estimate_total_frames(
    file_size: Option<u64>,
    header_len: u64,
    width: usize,
    height: usize,
    bytes_per_sample: usize,
    tag: Option<ColorTag>,
) -> (r: Option<u64>)
    requires
        1 <= width <= 0xFFFF,
        1 <= height <= 0xFFFF,
        1 <= bytes_per_sample <= 2,
    ensures
        r is Some <==> file_size is Some,
        file_size matches Some(size) ==> r == Some(
            spec_estimated_frames(
                size as int,
                header_len as int,
                width as int,
                height as int,
                bytes_per_sample as int,
                tag,
            ) as u64,
        ),
{
    match file_size {
        Some(size) => {
            let w = width as u64;
            let h = height as u64;
            let d = bytes_per_sample as u64;
            let s = sampling_weight(tag);
            proof {
                assert(w * h <= 0xFFFF * 0xFFFF && w * h * d <= 0xFFFF * 0xFFFF * 2 && w * h * d
                    * s <= 0xFFFF * 0xFFFF * 2 * 12) by (nonlinear_arith)
                    requires
                        1 <= w <= 0xFFFF,
                        1 <= h <= 0xFFFF,
                        1 <= d <= 2,
                        1 <= s <= 12,
                ;
                assert(w * h * d * s >= 1) by (nonlinear_arith)
                    requires
                        1 <= w,
                        1 <= h,
                        1 <= d,
                        1 <= s,
                ;
            }
            let per_frame = w * h * d * s / 4 + FRAME_MARKER_OVERHEAD;
            Some(size.saturating_sub(header_len) / per_frame)
        },
        None => None,
    }
}

} // verus!
