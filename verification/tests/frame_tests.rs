use y4m_source::error::SourceError;
use y4m_source::format::{Matrix, Range, Samp};
use y4m_source::frame::{convert_frame, pack_pixels};

#[test]
fn pack_pixels_groups_every_four_bytes() {
    let px = pack_pixels(&[1, 2, 3, 4, 5, 6, 7, 8]);
    assert_eq!(px.len(), 2);
    assert_eq!((px[0].r, px[0].g, px[0].b, px[0].a), (1, 2, 3, 4));
    assert_eq!((px[1].r, px[1].g, px[1].b, px[1].a), (5, 6, 7, 8));
    // a trailing fragment shorter than one pixel is dropped
    let odd = pack_pixels(&[9, 9, 9]);
    assert_eq!(odd.len(), 0);
}

#[test]
fn empty_luma_plane_is_a_bad_frame() {
    let r = convert_frame(&[], &[], &[], 2, 2, Samp::S2x2, Range::Limited, Matrix::Bt601);
    assert!(matches!(r, Err(SourceError::BadFrame)));
}

#[test]
fn mono_full_range_is_identity() {
    // full-range grayscale: every channel equals the luma sample
    let y = [0u8, 255, 128, 64];
    let px = convert_frame(&y, &[], &[], 2, 2, Samp::Mono, Range::Full, Matrix::Bt601).unwrap();
    assert_eq!(px.len(), 4);
    for (p, want) in px.iter().zip(y.iter()) {
        assert_eq!(p.r, *want);
        assert_eq!(p.g, *want);
        assert_eq!(p.b, *want);
        assert_eq!(p.a, 255);
    }
}

#[test]
fn mono_limited_range_black_level() {
    // limited range: luma 16 is black
    let y = [16u8, 16, 16, 16];
    let px = convert_frame(&y, &[], &[], 2, 2, Samp::Mono, Range::Limited, Matrix::Bt601).unwrap();
    for p in px.iter() {
        assert_eq!(p.r, 0);
        assert_eq!(p.g, 0);
        assert_eq!(p.b, 0);
        assert_eq!(p.a, 255);
    }
}

#[test]
fn s2x2_neutral_chroma_black() {
    // 2x2 4:2:0 frame: one chroma sample; neutral chroma and luma 16 in
    // limited range give black
    let y = [16u8, 16, 16, 16];
    let u = [128u8];
    let v = [128u8];
    let px = convert_frame(&y, &u, &v, 2, 2, Samp::S2x2, Range::Limited, Matrix::Bt601).unwrap();
    assert_eq!(px.len(), 4);
    for p in px.iter() {
        assert_eq!(p.r, 0);
        assert_eq!(p.g, 0);
        assert_eq!(p.b, 0);
        assert_eq!(p.a, 255);
    }
}

#[test]
fn s1x1_full_range_neutral_chroma_white() {
    let y = [255u8];
    let u = [128u8];
    let v = [128u8];
    let px = convert_frame(&y, &u, &v, 1, 1, Samp::S1x1, Range::Full, Matrix::Bt709).unwrap();
    assert_eq!(px.len(), 1);
    assert_eq!(px[0].r, 255);
    assert_eq!(px[0].g, 255);
    assert_eq!(px[0].b, 255);
    assert_eq!(px[0].a, 255);
}

#[test]
fn s2x1_neutral_chroma_white_level() {
    // 2x2 4:2:2 frame: one chroma sample per row; neutral chroma and
    // luma 235 in limited range give white
    let y = [235u8, 235, 235, 235];
    let u = [128u8, 128];
    let v = [128u8, 128];
    let px = convert_frame(&y, &u, &v, 2, 2, Samp::S2x1, Range::Limited, Matrix::Bt601).unwrap();
    assert_eq!(px.len(), 4);
    for p in px.iter() {
        assert_eq!(p.r, 255);
        assert_eq!(p.g, 255);
        assert_eq!(p.b, 255);
        assert_eq!(p.a, 255);
    }
}

#[test]
fn s2x1_short_chroma_fails_as_conversion_error() {
    // 4:2:2 at 2x2 needs one chroma byte per row; an empty chroma plane
    // is the converter's own rejection, not a bad frame
    let y = [16u8, 16, 16, 16];
    let r = convert_frame(&y, &[], &[], 2, 2, Samp::S2x1, Range::Limited, Matrix::Bt601);
    assert!(matches!(r, Err(SourceError::Conversion(_))));
}

#[test]
fn short_luma_fails_as_conversion_error() {
    // a non-empty luma plane that does not cover the frame
    let y = [16u8, 16];
    let u = [128u8];
    let v = [128u8];
    let r = convert_frame(&y, &u, &v, 2, 2, Samp::S2x2, Range::Limited, Matrix::Bt601);
    assert!(matches!(r, Err(SourceError::Conversion(_))));
}

#[test]
fn oversized_planes_still_convert() {
    // the converter accepts planes larger than the frame needs
    let y = [16u8, 16, 16, 16, 99, 99];
    let u = [128u8, 7];
    let v = [128u8, 7];
    let px = convert_frame(&y, &u, &v, 2, 2, Samp::S2x2, Range::Limited, Matrix::Bt601).unwrap();
    assert_eq!(px.len(), 4);
}
