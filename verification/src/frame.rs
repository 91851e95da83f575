use vstd::prelude::*;
use crate::error::SourceError;
use crate::format::{dimensions_ok, Matrix, Range, Samp};

verus! {

/// One packed truecolor-with-alpha pixel, four bytes.
#[derive(Debug, Clone, Copy, PartialEq, Eq, Structural)]
pub struct Rgba {
    pub r: u8,
    pub g: u8,
    pub b: u8,
    pub a: u8,
}

/// Width of a chroma plane row under the family's stride formula: full
/// width at full chroma resolution, `ceil(width / 2)` when horizontally
/// subsampled, nothing for monochrome.
pub open spec fn chroma_width(samp: Samp, width: int) -> int {
    match samp {
        Samp::Mono => 0,
        Samp::S1x1 => width,
        Samp::S2x1 => (width + 1) / 2,
        Samp::S2x2 => (width + 1) / 2,
    }
}

/// Number of chroma plane rows: full height unless vertically subsampled.
pub open spec fn chroma_height(samp: Samp, height: int) -> int {
    match samp {
        Samp::Mono => 0,
        Samp::S1x1 => height,
        Samp::S2x1 => height,
        Samp::S2x2 => (height + 1) / 2,
    }
}

/// The planes are large enough for the converter to succeed: a full luma
/// plane and, where the family has chroma, full chroma planes.
pub open spec fn planes_fit(
    samp: Samp,
    y_len: int,
    u_len: int,
    v_len: int,
    width: int,
    height: int,
) -> bool {
    &&& y_len >= width * height
    &&& u_len >= chroma_width(samp, width) * chroma_height(samp, height)
    &&& v_len >= chroma_width(samp, width) * chroma_height(samp, height)
}

/// The packed view of interleaved RGBA bytes: each four consecutive bytes
/// form one pixel, in row-major order.
pub open spec fn packed_rgba(bytes: Seq<u8>) -> Seq<Rgba> {
    Seq::new(
        (bytes.len() / 4) as nat,
        |i: int|
            Rgba {
                r: bytes[4 * i],
                g: bytes[4 * i + 1],
                b: bytes[4 * i + 2],
                a: bytes[4 * i + 3],
            },
    )
}

/// Relies on yuv::yuv400_to_rgba: converts a grayscale plane, with stride
/// equal to the width, into the destination buffer. It validates sizes
/// before writing anything, so it succeeds exactly when the luma plane
/// covers the frame, and on failure the destination is untouched. On
/// success every pixel's alpha byte is 255; the color bytes are the
/// converter's approximation and are not specified here, as its kernels
/// may round differently from machine to machine.
#[verifier::external_body]
fn yuv400_rgba(
    y: &[u8],
    width: u32,
    height: u32,
    rgba: &mut Vec<u8>,
    rgba_stride: u32,
    full_range: bool,
    bt709: bool,
) -> (r: Result<(), String>)
    requires
        1 <= width <= 0xFFFF,
        1 <= height <= 0xFFFF,
        rgba_stride == width * 4,
        old(rgba)@.len() == width * height * 4,
    ensures
        final(rgba)@.len() == old(rgba)@.len(),
        r is Ok <==> y@.len() >= width * height,
        r is Ok ==> forall|j: int|
            0 <= j < width * height * 4 && j % 4 == 3 ==> final(rgba)@[j] == 255u8,
        r is Err ==> final(rgba)@ == old(rgba)@,
{
    let img = yuv::YuvGrayImage { y_plane: y, y_stride: width, width, height };
    let range = if full_range { yuv::YuvRange::Full } else { yuv::YuvRange::Limited };
    let matrix = if bt709 { yuv::YuvStandardMatrix::Bt709 } else { yuv::YuvStandardMatrix::Bt601 };
    yuv::yuv400_to_rgba(&img, rgba.as_mut_slice(), rgba_stride, range, matrix).map_err(
        |e| format!("{e}"),
    )
}

/// Relies on yuv::yuv444_to_rgba: converts full-resolution planes, every
/// stride equal to the width, into the destination buffer. It validates
/// sizes before writing anything, so it succeeds exactly when all three
/// planes cover the frame, and on failure the destination is untouched.
/// On success every pixel's alpha byte is 255; the color bytes are the
/// converter's approximation and are not specified here, as its kernels
/// may round differently from machine to machine.
#[verifier::external_body]
fn yuv444_rgba(
    y: &[u8],
    u: &[u8],
    v: &[u8],
    uv_stride: u32,
    width: u32,
    height: u32,
    rgba: &mut Vec<u8>,
    rgba_stride: u32,
    full_range: bool,
    bt709: bool,
) -> (r: Result<(), String>)
    requires
        1 <= width <= 0xFFFF,
        1 <= height <= 0xFFFF,
        uv_stride == width,
        rgba_stride == width * 4,
        old(rgba)@.len() == width * height * 4,
    ensures
        final(rgba)@.len() == old(rgba)@.len(),
        r is Ok <==> (y@.len() >= width * height && u@.len() >= width * height && v@.len()
            >= width * height),
        r is Ok ==> forall|j: int|
            0 <= j < width * height * 4 && j % 4 == 3 ==> final(rgba)@[j] == 255u8,
        r is Err ==> final(rgba)@ == old(rgba)@,
{
    let img = yuv::YuvPlanarImage {
        y_plane: y, y_stride: width,
        u_plane: u, u_stride: uv_stride,
        v_plane: v, v_stride: uv_stride,
        width, height,
    };
    let range = if full_range { yuv::YuvRange::Full } else { yuv::YuvRange::Limited };
    let matrix = if bt709 { yuv::YuvStandardMatrix::Bt709 } else { yuv::YuvStandardMatrix::Bt601 };
    yuv::yuv444_to_rgba(&img, rgba.as_mut_slice(), rgba_stride, range, matrix).map_err(
        |e| format!("{e}"),
    )
}

/// Relies on yuv::yuv422_to_rgba: converts planes whose chroma is halved
/// horizontally, chroma stride `ceil(width / 2)`, into the destination
/// buffer. It validates sizes before writing anything, so it succeeds
/// exactly when the planes cover the frame, and on failure the
/// destination is untouched. On success every pixel's alpha byte is 255;
/// the color bytes are the converter's approximation and are not
/// specified here, as its kernels may round differently from machine to
/// machine.
#[verifier::external_body]
fn yuv422_rgba(
    y: &[u8],
    u: &[u8],
    v: &[u8],
    uv_stride: u32,
    width: u32,
    height: u32,
    rgba: &mut Vec<u8>,
    rgba_stride: u32,
    full_range: bool,
    bt709: bool,
) -> (r: Result<(), String>)
    requires
        1 <= width <= 0xFFFF,
        1 <= height <= 0xFFFF,
        uv_stride == (width + 1) / 2,
        rgba_stride == width * 4,
        old(rgba)@.len() == width * height * 4,
    ensures
        final(rgba)@.len() == old(rgba)@.len(),
        r is Ok <==> (y@.len() >= width * height && u@.len() >= (width + 1) / 2 * height
            && v@.len() >= (width + 1) / 2 * height),
        r is Ok ==> forall|j: int|
            0 <= j < width * height * 4 && j % 4 == 3 ==> final(rgba)@[j] == 255u8,
        r is Err ==> final(rgba)@ == old(rgba)@,
{
    let img = yuv::YuvPlanarImage {
        y_plane: y, y_stride: width,
        u_plane: u, u_stride: uv_stride,
        v_plane: v, v_stride: uv_stride,
        width, height,
    };
    let range = if full_range { yuv::YuvRange::Full } else { yuv::YuvRange::Limited };
    let matrix = if bt709 { yuv::YuvStandardMatrix::Bt709 } else { yuv::YuvStandardMatrix::Bt601 };
    yuv::yuv422_to_rgba(&img, rgba.as_mut_slice(), rgba_stride, range, matrix).map_err(
        |e| format!("{e}"),
    )
}

/// Relies on yuv::yuv420_to_rgba: converts planes whose chroma is halved
/// on both axes, chroma stride `ceil(width / 2)`, into the destination
/// buffer. It validates sizes before writing anything, so it succeeds
/// exactly when the planes cover the frame, and on failure the
/// destination is untouched. On success every pixel's alpha byte is 255;
/// the color bytes are the converter's approximation and are not
/// specified here, as its kernels may round differently from machine to
/// machine.
#[verifier::external_body]
fn yuv420_rgba(
    y: &[u8],
    u: &[u8],
    v: &[u8],
    uv_stride: u32,
    width: u32,
    height: u32,
    rgba: &mut Vec<u8>,
    rgba_stride: u32,
    full_range: bool,
    bt709: bool,
) -> (r: Result<(), String>)
    requires
        1 <= width <= 0xFFFF,
        1 <= height <= 0xFFFF,
        uv_stride == (width + 1) / 2,
        rgba_stride == width * 4,
        old(rgba)@.len() == width * height * 4,
    ensures
        final(rgba)@.len() == old(rgba)@.len(),
        r is Ok <==> (y@.len() >= width * height && u@.len() >= (width + 1) / 2 * ((height + 1)
            / 2) && v@.len() >= (width + 1) / 2 * ((height + 1) / 2)),
        r is Ok ==> forall|j: int|
            0 <= j < width * height * 4 && j % 4 == 3 ==> final(rgba)@[j] == 255u8,
        r is Err ==> final(rgba)@ == old(rgba)@,
{
    let img = yuv::YuvPlanarImage {
        y_plane: y, y_stride: width,
        u_plane: u, u_stride: uv_stride,
        v_plane: v, v_stride: uv_stride,
        width, height,
    };
    let range = if full_range { yuv::YuvRange::Full } else { yuv::YuvRange::Limited };
    let matrix = if bt709 { yuv::YuvStandardMatrix::Bt709 } else { yuv::YuvStandardMatrix::Bt601 };
    yuv::yuv420_to_rgba(&img, rgba.as_mut_slice(), rgba_stride, range, matrix).map_err(
        |e| format!("{e}"),
    )
}

/// Repack interleaved RGBA bytes into pixels: every four consecutive
/// bytes become one pixel, in order. Exact for every byte buffer the
/// converter may hand back; a trailing fragment shorter than one pixel is
/// dropped, as the view says.
pub fn pack_pixels(bytes: &[u8]) -> (px: Vec<Rgba>)
    ensures
        px@ == packed_rgba(bytes@),
        px@.len() == bytes@.len() / 4,
{
    let count: usize = bytes.len() / 4;
    let mut out: Vec<Rgba> = Vec::new();
    let mut p: usize = 0;
    while p < count
        invariant
            count == bytes@.len() / 4,
            count * 4 <= bytes@.len() <= usize::MAX,
            out@.len() == p,
            p <= count,
            forall|q: int| 0 <= q < p ==> out@[q] == packed_rgba(bytes@)[q],
        decreases count - p,
    {
        let base: usize = p * 4;
        let px = Rgba {
            r: bytes[base],
            g: bytes[base + 1],
            b: bytes[base + 2],
            a: bytes[base + 3],
        };
        out.push(px);
        p += 1;
    }
    proof {
        assert(out@ =~= packed_rgba(bytes@));
    }
    out
}

/// Convert one source frame's planar data into packed RGBA pixels, width
/// by height, row-major. An empty luma plane after a successful read is
/// the malformed-frame failure; short planes surface the converter's own
/// rejection; otherwise the frame converts and repacks, the repacked
/// pixel count is verified to equal `width * height` exactly, and every
/// pixel is fully opaque.
pub fn convert_frame(
    y: &[u8],
    u: &[u8],
    v: &[u8],
    width: usize,
    height: usize,
    samp: Samp,
    range: Range,
    matrix: Matrix,
) -> (r: Result<Vec<Rgba>, SourceError>)
    requires
        dimensions_ok(width as int, height as int),
        width * height * 4 <= usize::MAX,
    ensures
        y@.len() == 0 ==> r == Err::<Vec<Rgba>, SourceError>(SourceError::BadFrame),
        y@.len() > 0 && planes_fit(
            samp,
            y@.len() as int,
            u@.len() as int,
            v@.len() as int,
            width as int,
            height as int,
        ) ==> {
            &&& r matches Ok(px)
            &&& px@.len() == width * height
            &&& forall|i: int| 0 <= i < px@.len() ==> px@[i].a == 255u8
        },
        y@.len() > 0 && !planes_fit(
            samp,
            y@.len() as int,
            u@.len() as int,
            v@.len() as int,
            width as int,
            height as int,
        ) ==> (r matches Err(e) && e is Conversion),
{
    if y.len() == 0 {
        return Err(SourceError::BadFrame);
    }
    let w = width as u32;
    let h = height as u32;
    let full = match range {
        Range::Full => true,
        Range::Limited => false,
    };
    let bt = match matrix {
        Matrix::Bt709 => true,
        Matrix::Bt601 => false,
    };
    let count: usize = width * height;
    let total: usize = count * 4;
    let mut rgba: Vec<u8> = Vec::new();
    let mut i: usize = 0;
    while i < total
        invariant
            rgba@.len() == i,
            i <= total,
        decreases total - i,
    {
        rgba.push(0);
        i += 1;
    }
    let rgba_stride: u32 = w * 4;
    let res = match samp {
        Samp::Mono => yuv400_rgba(y, w, h, &mut rgba, rgba_stride, full, bt),
        Samp::S1x1 => yuv444_rgba(y, u, v, w, w, h, &mut rgba, rgba_stride, full, bt),
        Samp::S2x1 => yuv422_rgba(y, u, v, (w + 1) / 2, w, h, &mut rgba, rgba_stride, full, bt),
        Samp::S2x2 => yuv420_rgba(y, u, v, (w + 1) / 2, w, h, &mut rgba, rgba_stride, full, bt),
    };
    match res {
        Ok(_) => {},
        Err(msg) => {
            return Err(SourceError::Conversion(msg));
        },
    }
    let out = pack_pixels(rgba.as_slice());
    proof {
        assert forall|i: int| 0 <= i < out@.len() implies out@[i].a == 255u8 by {
            assert(out@[i] == packed_rgba(rgba@)[i]);
            assert((4 * i + 3) % 4 == 3);
            assert(rgba@[4 * i + 3] == 255u8);
        }
    }
    Ok(out)
}

} // verus!
