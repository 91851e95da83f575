use y4m_source::retime::{FrameAction, Fps, Pts, Retimer, DEFAULT_FPS};

fn run(src_num: u32, src_den: u32, fps: Fps, frames: u64) -> Vec<(u64, Pts)> {
    let mut rt = Retimer::new(src_num, src_den, fps);
    let mut out = Vec::new();
    for _ in 0..frames {
        match rt.on_frame() {
            FrameAction::Skip => {},
            FrameAction::Emit { index, pts } => out.push((index, pts)),
        }
    }
    out
}

#[test]
fn default_rate_is_twenty() {
    assert_eq!(DEFAULT_FPS, 20);
}

#[test]
fn downsampling_count_within_one_of_duration_times_target() {
    // 30 fps source, 10 fps target, 30 frames = 1 second of source time:
    // floor(1 s * 10 fps) = 10, so 10 or 11 emissions are in bounds.
    let fps = Fps { fps: Some(10), speed_num: 1, speed_den: 1 };
    let emitted = run(30, 1, fps, 30);
    assert_eq!(emitted.len(), 11);
    // indices are exactly 0..N-1 with no gaps
    for (i, (index, _)) in emitted.iter().enumerate() {
        assert_eq!(*index, i as u64);
    }
}

#[test]
fn same_rate_keeps_every_frame() {
    let fps = Fps { fps: Some(10), speed_num: 1, speed_den: 1 };
    let emitted = run(10, 1, fps, 25);
    assert_eq!(emitted.len(), 25);
}

#[test]
fn timestamps_non_decreasing_and_exact() {
    let fps = Fps { fps: Some(10), speed_num: 1, speed_den: 1 };
    let emitted = run(30, 1, fps, 30);
    // the source positions of the kept frames: one kept whenever source
    // time catches up with the next desired output instant
    let kept_positions: Vec<u128> = vec![0, 2, 5, 8, 11, 14, 17, 20, 23, 26, 29];
    assert_eq!(emitted.len(), kept_positions.len());
    let mut prev: u128 = 0;
    for ((_, pts), k) in emitted.iter().zip(kept_positions.iter()) {
        // timestamp == accumulated source time at emission / speed:
        // k * src_den * speed_den over src_num * speed_num
        assert_eq!(pts.den, 30);
        assert_eq!(pts.num, *k);
        // non-decreasing: shared denominator, compare numerators
        assert!(pts.num >= prev);
        prev = pts.num;
    }
}

#[test]
fn double_speed_halves_every_timestamp() {
    let one = Fps { fps: Some(10), speed_num: 1, speed_den: 1 };
    let two = Fps { fps: Some(10), speed_num: 2, speed_den: 1 };
    let a = run(30, 1, one, 30);
    let b = run(30, 1, two, 30);
    assert_eq!(a.len(), b.len());
    for ((ia, pa), (ib, pb)) in a.iter().zip(b.iter()) {
        assert_eq!(ia, ib);
        // value at speed 2 is exactly half: 2 * (nb/db) == na/da,
        // cross-multiplied over the positive denominators
        assert_eq!(2 * pb.num * pa.den, pa.num * pb.den);
    }
}

#[test]
fn two_frames_at_matching_rates() {
    // 10 fps source, 10 fps target, speed 1: both frames kept,
    // indices 0 and 1, timestamps 0.0 and 0.1 seconds
    let fps = Fps { fps: Some(10), speed_num: 1, speed_den: 1 };
    let emitted = run(10, 1, fps, 2);
    assert_eq!(emitted.len(), 2);
    assert_eq!(emitted[0].0, 0);
    assert_eq!(emitted[1].0, 1);
    let t0 = emitted[0].1.num as f64 / emitted[0].1.den as f64;
    let t1 = emitted[1].1.num as f64 / emitted[1].1.den as f64;
    assert_eq!(t0, 0.0);
    assert_eq!(t1, 0.1);
}

#[test]
fn fractional_source_rate() {
    // NTSC-style 30000/1001 source down to 15 fps: half the frames stay
    let fps = Fps { fps: Some(15), speed_num: 1, speed_den: 1 };
    let emitted = run(30000, 1001, fps, 60);
    assert!(emitted.len() >= 30 && emitted.len() <= 31);
}
