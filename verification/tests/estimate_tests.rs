use y4m_source::estimate::{estimate_total_frames, sampling_weight};
use y4m_source::format::ColorTag;

#[test]
fn weight_table() {
    assert_eq!(sampling_weight(Some(ColorTag::Cmono)), 4);
    assert_eq!(sampling_weight(Some(ColorTag::Cmono12)), 4);
    assert_eq!(sampling_weight(Some(ColorTag::C420)), 6);
    assert_eq!(sampling_weight(Some(ColorTag::C420jpeg)), 6);
    assert_eq!(sampling_weight(Some(ColorTag::C422)), 8);
    assert_eq!(sampling_weight(Some(ColorTag::C444)), 12);
    assert_eq!(sampling_weight(None), 12);
}

#[test]
fn estimate_unknown_file_size_gives_none() {
    assert_eq!(estimate_total_frames(None, 100, 640, 480, 1, Some(ColorTag::C420)), None);
}

#[test]
fn estimate_exact_formula() {
    // 2 x 2, one byte per sample, 4:2:0: 2*2*1*6/4 + 6 = 12 bytes per frame
    assert_eq!(
        estimate_total_frames(Some(80 + 120), 80, 2, 2, 1, Some(ColorTag::C420)),
        Some(10)
    );
    // truncating division
    assert_eq!(
        estimate_total_frames(Some(80 + 125), 80, 2, 2, 1, Some(ColorTag::C420)),
        Some(10)
    );
}

#[test]
fn estimate_matches_a_real_mono_stream() {
    // a 2x2 monochrome frame is 4 luma bytes plus the 6-byte frame marker;
    // 2*2*1*4/4 + 6 = 10 expected bytes per frame
    let header_len: u64 = 30;
    let frames: u64 = 7;
    let file_size = header_len + frames * 10;
    assert_eq!(
        estimate_total_frames(Some(file_size), header_len, 2, 2, 1, Some(ColorTag::Cmono)),
        Some(frames)
    );
}

#[test]
fn estimate_saturates_when_header_exceeds_file() {
    assert_eq!(estimate_total_frames(Some(5), 80, 2, 2, 1, Some(ColorTag::C420)), Some(0));
}

#[test]
fn estimate_unknown_tag_uses_conservative_weight() {
    // 2*2*1*12/4 + 6 = 18 bytes per frame
    assert_eq!(estimate_total_frames(Some(100 + 36), 100, 2, 2, 1, None), Some(2));
}
