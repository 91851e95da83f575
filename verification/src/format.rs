use vstd::prelude::*;
use crate::error::SourceError;

verus! {

/// The colorspace tags a y4m container can declare. The container format
/// models bit depth as distinct tags, so each depth variant is its own tag.
#[derive(Debug, Clone, Copy, PartialEq, Eq, Structural)]
pub enum ColorTag {
    /// Grayscale, 8-bit.
    Cmono,
    /// Grayscale, 12-bit.
    Cmono12,
    /// 4:2:0 with coincident chroma planes, 8-bit.
    C420,
    /// 4:2:0, 10-bit.
    C420p10,
    /// 4:2:0, 12-bit.
    C420p12,
    /// 4:2:0 with biaxially-displaced chroma planes, 8-bit.
    C420jpeg,
    /// 4:2:0 with vertically-displaced chroma planes, 8-bit.
    C420paldv,
    /// Same layout as C420, 8-bit.
    C420mpeg2,
    /// 4:2:2, 8-bit.
    C422,
    /// 4:2:2, 10-bit.
    C422p10,
    /// 4:2:2, 12-bit.
    C422p12,
    /// 4:4:4, 8-bit.
    C444,
    /// 4:4:4, 10-bit.
    C444p10,
    /// 4:4:4, 12-bit.
    C444p12,
}

/// Chroma-subsampling family of a frame, which fixes the chroma plane
/// stride formulas used when converting.
#[derive(Debug, Clone, Copy, PartialEq, Eq, Structural)]
pub enum Samp {
    /// Single luma plane, no chroma.
    Mono,
    /// Chroma at full resolution (4:4:4).
    S1x1,
    /// Chroma at half horizontal resolution (4:2:2).
    S2x1,
    /// Chroma at half resolution on both axes (4:2:0).
    S2x2,
}

/// Color matrix used for the luma/chroma to RGB transform.
#[derive(Debug, Clone, Copy, PartialEq, Eq, Structural)]
pub enum Matrix {
    /// The standard-definition broadcast matrix.
    Bt601,
    /// The high-definition broadcast matrix.
    Bt709,
}

/// Whether pixel component values occupy the full numeric range or the
/// studio-reserved limited sub-range.
#[derive(Debug, Clone, Copy, PartialEq, Eq, Structural)]
pub enum Range {
    Full,
    Limited,
}

/// The subsampling family of each supported 8-bit tag; `None` for the
/// higher-bit-depth tags, which are recognized but not supported.
pub open spec fn sampling_of(tag: ColorTag) -> Option<Samp> {
    match tag {
        ColorTag::Cmono => Some(Samp::Mono),
        ColorTag::Cmono12 => None,
        ColorTag::C420 => Some(Samp::S2x2),
        ColorTag::C420p10 => None,
        ColorTag::C420p12 => None,
        ColorTag::C420jpeg => Some(Samp::S2x2),
        ColorTag::C420paldv => Some(Samp::S2x2),
        ColorTag::C420mpeg2 => Some(Samp::S2x2),
        ColorTag::C422 => Some(Samp::S2x1),
        ColorTag::C422p10 => None,
        ColorTag::C422p12 => None,
        ColorTag::C444 => Some(Samp::S1x1),
        ColorTag::C444p10 => None,
        ColorTag::C444p12 => None,
    }
}

/// Map a declared colorspace tag to its subsampling family. The verdict is
/// a pure function of the tag alone: a supported 8-bit tag yields its
/// family, a recognized higher-depth tag fails naming that tag, and a tag
/// outside the known set (`None`) fails with the unknown-mode category.
pub fn resolve_sampling(tag: Option<ColorTag>) -> (r: Result<Samp, SourceError>)
    ensures
        match tag {
            Some(t) => match sampling_of(t) {
                Some(s) => r == Ok::<Samp, SourceError>(s),
                None => r == Err::<Samp, SourceError>(SourceError::UnsupportedDepth(t)),
            },
            None => r == Err::<Samp, SourceError>(SourceError::UnknownMode),
        },
{
    match tag {
        Some(t) => match t {
            ColorTag::Cmono => Ok(Samp::Mono),
            ColorTag::C420 => Ok(Samp::S2x2),
            ColorTag::C420jpeg => Ok(Samp::S2x2),
            ColorTag::C420paldv => Ok(Samp::S2x2),
            ColorTag::C420mpeg2 => Ok(Samp::S2x2),
            ColorTag::C422 => Ok(Samp::S2x1),
            ColorTag::C444 => Ok(Samp::S1x1),
            ColorTag::Cmono12 => Err(SourceError::UnsupportedDepth(t)),
            ColorTag::C420p10 => Err(SourceError::UnsupportedDepth(t)),
            ColorTag::C420p12 => Err(SourceError::UnsupportedDepth(t)),
            ColorTag::C422p10 => Err(SourceError::UnsupportedDepth(t)),
            ColorTag::C422p12 => Err(SourceError::UnsupportedDepth(t)),
            ColorTag::C444p10 => Err(SourceError::UnsupportedDepth(t)),
            ColorTag::C444p12 => Err(SourceError::UnsupportedDepth(t)),
        },
        None => Err(SourceError::UnknownMode),
    }
}

/// Both dimensions of a frame must lie in `[1, 65535]`; anything else is
/// rejected before any frame is read.
pub open spec fn dimensions_ok(width: int, height: int) -> bool {
    1 <= width <= 0xFFFF && 1 <= height <= 0xFFFF
}

/// Reject out-of-bounds dimensions with the fixed too-large category.
pub fn check_dimensions(width: usize, height: usize) -> (r: Result<(), SourceError>)
    ensures
        r is Ok <==> dimensions_ok(width as int, height as int),
        r is Err ==> r == Err::<(), SourceError>(SourceError::TooLarge),
{
    if width == 0 || width > 0xFFFF || height == 0 || height > 0xFFFF {
        Err(SourceError::TooLarge)
    } else {
        Ok(())
    }
}

/// Pick the color matrix: an explicit override always wins; otherwise the
/// standard-definition matrix for frames no larger than 720 by 480, and the
/// high-definition matrix above that.
pub fn resolve_matrix(explicit: Option<Matrix>, width: usize, height: usize) -> (r: Matrix)
    ensures
        explicit matches Some(m) ==> r == m,
        explicit is None && height <= 480 && width <= 720 ==> r == Matrix::Bt601,
        explicit is None && !(height <= 480 && width <= 720) ==> r == Matrix::Bt709,
{
    match explicit {
        Some(m) => m,
        None => {
            if height <= 480 && width <= 720 {
                Matrix::Bt601
            } else {
                Matrix::Bt709
            }
        },
    }
}

/// The bytes of the text token `COLORRANGE=` stand at position `i` of `h`.
pub open spec fn colorrange_at(h: Seq<u8>, i: int) -> bool {
    &&& 0 <= i
    &&& i + 11 <= h.len()
    &&& h[i] == 67u8
    &&& h[i + 1] == 79u8
    &&& h[i + 2] == 76u8
    &&& h[i + 3] == 79u8
    &&& h[i + 4] == 82u8
    &&& h[i + 5] == 82u8
    &&& h[i + 6] == 65u8
    &&& h[i + 7] == 78u8
    &&& h[i + 8] == 71u8
    &&& h[i + 9] == 69u8
    &&& h[i + 10] == 61u8
}

/// The bytes of the text token `FULL` stand at position `i` of `h`.
pub open spec fn full_at(h: Seq<u8>, i: int) -> bool {
    &&& 0 <= i
    &&& i + 4 <= h.len()
    &&& h[i] == 70u8
    &&& h[i + 1] == 85u8
    &&& h[i + 2] == 76u8
    &&& h[i + 3] == 76u8
}

/// The header declares full range: its first `COLORRANGE=` token is
/// immediately followed by `FULL`.
pub open spec fn full_range_declared(h: Seq<u8>) -> bool {
    exists|i: int|
        colorrange_at(h, i) && full_at(h, i + 11) && (forall|j: int|
            0 <= j < i ==> !colorrange_at(h, j))
}

/// Whether the `COLORRANGE=` token stands at byte `i` of the header.
fn is_colorrange_at(header: &[u8], i: usize) -> (r: bool)
    requires
        i + 11 <= header@.len(),
    ensures
        r == colorrange_at(header@, i as int),
{
    header[i] == 67u8 && header[i + 1] == 79u8 && header[i + 2] == 76u8 && header[i + 3] == 79u8
        && header[i + 4] == 82u8 && header[i + 5] == 82u8 && header[i + 6] == 65u8
        && header[i + 7] == 78u8 && header[i + 8] == 71u8 && header[i + 9] == 69u8
        && header[i + 10] == 61u8
}

/// Whether the `FULL` token stands at byte `i` of the header.
fn is_full_at(header: &[u8], i: usize) -> (r: bool)
    ensures
        r == full_at(header@, i as int),
{
    if header.len() >= 4 && i <= header.len() - 4 {
        header[i] == 70u8 && header[i + 1] == 85u8 && header[i + 2] == 76u8 && header[i + 3]
            == 76u8
    } else {
        false
    }
}

/// Scan the raw header bytes for a `COLORRANGE=` token: full range when the
/// first such token is followed by `FULL`, limited range otherwise,
/// including when no token is present.
pub fn resolve_range(header: &[u8]) -> (r: Range)
    ensures
        r == (if full_range_declared(header@) {
            Range::Full
        } else {
            Range::Limited
        }),
{
    let n = header.len();
    let mut i: usize = 0;
    while n >= 11 && i <= n - 11
        invariant
            n == header@.len(),
            i <= n,
            forall|j: int| 0 <= j < i ==> !colorrange_at(header@, j),
        decreases n - i,
    {
        if is_colorrange_at(header, i) {
            if is_full_at(header, i + 11) {
                proof {
                    assert(colorrange_at(header@, i as int) && full_at(header@, i as int + 11)
                        && (forall|j: int| 0 <= j < i as int ==> !colorrange_at(header@, j)));
                }
                return Range::Full;
            } else {
                proof {
                    assert forall|p: int|
                        !(colorrange_at(header@, p) && full_at(header@, p + 11) && (forall|j: int|
                            0 <= j < p ==> !colorrange_at(header@, j))) by {
                        if colorrange_at(header@, p) && (forall|j: int|
                            0 <= j < p ==> !colorrange_at(header@, j)) {
                            // the first token position is unique, so p == i
                            assert(!(p < i));
                            assert(!(i < p)) by {
                                if i < p {
                                    assert(!colorrange_at(header@, i as int));
                                }
                            }
                            assert(p == i as int);
                        }
                    }
                }
                return Range::Limited;
            }
        }
        i += 1;
    }
    proof {
        assert forall|p: int| !colorrange_at(header@, p) by {
            if 0 <= p < i as int {
                assert(!colorrange_at(header@, p));
            }
        }
    }
    Range::Limited
}

/// The per-stream conversion parameters, resolved once before the first
/// frame is read.
pub struct StreamFormat {
    pub samp: Samp,
    pub matrix: Matrix,
    pub range: Range,
}

/// Resolve everything the decode loop needs from the stream's declared
/// metadata: the subsampling family from the colorspace tag (checked
/// first, as an unsupported tag is reported even for out-of-bounds
/// frames), then the dimension bounds, with the matrix and range resolved
/// from the override, the dimensions and the raw header bytes.
pub fn resolve_format(
    tag: Option<ColorTag>,
    width: usize,
    height: usize,
    header: &[u8],
    explicit: Option<Matrix>,
) -> (r: Result<StreamFormat, SourceError>)
    ensures
        match tag {
            None => r == Err::<StreamFormat, SourceError>(SourceError::UnknownMode),
            Some(t) => match sampling_of(t) {
                None => r == Err::<StreamFormat, SourceError>(SourceError::UnsupportedDepth(t)),
                Some(s) => if dimensions_ok(width as int, height as int) {
                    {
                        &&& r matches Ok(f)
                        &&& f.samp == s
                        &&& f.matrix == (match explicit {
                            Some(m) => m,
                            None => if height <= 480 && width <= 720 {
                                Matrix::Bt601
                            } else {
                                Matrix::Bt709
                            },
                        })
                        &&& f.range == (if full_range_declared(header@) {
                            Range::Full
                        } else {
                            Range::Limited
                        })
                    }
                } else {
                    r == Err::<StreamFormat, SourceError>(SourceError::TooLarge)
                },
            },
        },
{
    let samp = match resolve_sampling(tag) {
        Ok(s) => s,
        Err(e) => {
            return Err(e);
        },
    };
    match check_dimensions(width, height) {
        Ok(_) => {},
        Err(e) => {
            return Err(e);
        },
    }
    let matrix = resolve_matrix(explicit, width, height);
    let range = resolve_range(header);
    Ok(StreamFormat { samp, matrix, range })
}

} // verus!
