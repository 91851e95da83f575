use vstd::prelude::*;

verus! {

/// Default target frame rate, in frames per second, when the caller
/// requests none.
pub const DEFAULT_FPS: u32 = 20;

/// Largest number of source frames the retimer will account for. The bound
/// keeps every timestamp product inside 128-bit arithmetic.
pub const MAX_FRAMES: u64 = 0x1000000000000000;

/// Requested output pacing, supplied once at construction: an optional
/// target frame rate (defaulting when absent) and a playback-speed
/// multiplier given as a positive rational `speed_num / speed_den`.
#[derive(Debug, Clone, Copy)]
pub struct Fps {
    pub fps: Option<u32>,
    pub speed_num: u32,
    pub speed_den: u32,
}

/// An emitted frame's presentation timestamp, in seconds, as an exact
/// positive rational `num / den`.
pub struct Pts {
    pub num: u128,
    pub den: u128,
}

/// The fate of a source frame just read.
pub enum FrameAction {
    /// Discard the frame's pixel data without conversion; no index is
    /// consumed and nothing is emitted.
    Skip,
    /// Convert the frame and hand it to the sink under `index` at
    /// timestamp `pts`.
    Emit { index: u64, pts: Pts },
}

/// The frame just read is kept when accumulated source time has caught up
/// with the next desired output instant: with `k` frames read before it
/// and `m` frames emitted so far, `(k + 1) / (src_num / src_den) >=
/// m / target`, cross-multiplied to stay in integers.
pub open spec fn keeps(k: int, m: int, src_num: int, src_den: int, target: int) -> bool {
    (k + 1) * src_den * target >= m * src_num
}

/// Numerator of the timestamp of a frame emitted after `k` source frames:
/// accumulated source time `k * src_den / src_num` seconds divided by the
/// speed `speed_num / speed_den`.
pub open spec fn pts_num_of(k: int, src_den: int, speed_den: int) -> int {
    k * src_den * speed_den
}

/// Denominator of every emitted timestamp of one stream.
pub open spec fn pts_den_of(src_num: int, speed_num: int) -> int {
    src_num * speed_num
}

/// The retiming state machine: decides, frame by frame, which source
/// frames to keep so that the output approximates the target frame rate,
/// and stamps each kept frame with its presentation timestamp.
pub struct Retimer {
    /// Source frame rate numerator.
    pub src_num: u32,
    /// Source frame rate denominator.
    pub src_den: u32,
    /// Target output frame rate, frames per second.
    pub target_fps: u32,
    /// Playback-speed numerator.
    pub speed_num: u32,
    /// Playback-speed denominator.
    pub speed_den: u32,
    /// Source frames accounted for so far.
    pub frames_read: u64,
    /// Frames emitted so far; also the index of the next emission.
    pub frames_emitted: u64,
}

impl Retimer {
    /// Well-formedness: positive rates and speed, no more emissions than
    /// source frames, and the emission count bracketed by elapsed source
    /// time times the target rate (the lower bracket holds whenever the
    /// target rate does not exceed the source rate).
    pub open spec fn wf(self) -> bool {
        &&& self.src_num >= 1
        &&& self.src_den >= 1
        &&& self.target_fps >= 1
        &&& self.speed_num >= 1
        &&& self.speed_den >= 1
        &&& self.frames_read <= MAX_FRAMES
        &&& self.frames_emitted <= self.frames_read
        &&& self.frames_emitted as int * self.src_num as int <= self.frames_read as int
            * self.src_den as int * self.target_fps as int + self.src_num as int
        &&& self.src_den as int * self.target_fps as int <= self.src_num as int
            ==> self.frames_read as int * self.src_den as int * self.target_fps as int
            <= self.frames_emitted as int * self.src_num as int
    }

    /// Start retiming a stream with source frame rate `src_num / src_den`
    /// under the caller's pacing request.
    pub fn new(src_num: u32, src_den: u32, fps: Fps) -> (r: Retimer)
        requires
            src_num >= 1,
            src_den >= 1,
            fps.speed_num >= 1,
            fps.speed_den >= 1,
            fps.fps matches Some(f) ==> f >= 1,
        ensures
            r.wf(),
            r.src_num == src_num,
            r.src_den == src_den,
            r.target_fps == (match fps.fps {
                Some(f) => f,
                None => DEFAULT_FPS,
            }),
            r.speed_num == fps.speed_num,
            r.speed_den == fps.speed_den,
            r.frames_read == 0,
            r.frames_emitted == 0,
    {
        let target: u32 = match fps.fps {
            Some(f) => f,
            None => DEFAULT_FPS,
        };
        let r = Retimer {
            src_num,
            src_den,
            target_fps: target,
            speed_num: fps.speed_num,
            speed_den: fps.speed_den,
            frames_read: 0,
            frames_emitted: 0,
        };
        proof {
            let num = src_num as int;
            let den = src_den as int;
            let t = target as int;
            assert(0 * num == 0 && 0 * den * t == 0) by (nonlinear_arith);
        }
        r
    }

    /// Account for one source frame just read and decide its fate. A kept
    /// frame is emitted under the next free index with a timestamp equal
    /// to the accumulated source time at its read, divided by the speed;
    /// a skipped frame leaves index and emission count untouched. The
    /// timestamp numerators grow with `frames_read` while the denominator
    /// is fixed, so emitted timestamps never decrease.
    pub fn on_frame(&mut self) -> (r: FrameAction)
        requires
            old(self).wf(),
            old(self).frames_read < MAX_FRAMES,
        ensures
            final(self).wf(),
            final(self).src_num == old(self).src_num,
            final(self).src_den == old(self).src_den,
            final(self).target_fps == old(self).target_fps,
            final(self).speed_num == old(self).speed_num,
            final(self).speed_den == old(self).speed_den,
            final(self).frames_read == old(self).frames_read + 1,
            keeps(
                old(self).frames_read as int,
                old(self).frames_emitted as int,
                old(self).src_num as int,
                old(self).src_den as int,
                old(self).target_fps as int,
            ) ==> {
                &&& r matches FrameAction::Emit { index, pts }
                &&& index == old(self).frames_emitted
                &&& pts.num == pts_num_of(
                    old(self).frames_read as int,
                    old(self).src_den as int,
                    old(self).speed_den as int,
                )
                &&& pts.den == pts_den_of(old(self).src_num as int, old(self).speed_num as int)
                &&& final(self).frames_emitted == old(self).frames_emitted + 1
            },
            !keeps(
                old(self).frames_read as int,
                old(self).frames_emitted as int,
                old(self).src_num as int,
                old(self).src_den as int,
                old(self).target_fps as int,
            ) ==> {
                &&& r is Skip
                &&& final(self).frames_emitted == old(self).frames_emitted
            },
    {
        let k = self.frames_read;
        let m = self.frames_emitted;
        proof {
            let kk = k as int;
            let mm = m as int;
            let num = self.src_num as int;
            let den = self.src_den as int;
            let t = self.target_fps as int;
            let sd = self.speed_den as int;
            // every 128-bit product below stays under 2^125
            assert(0 <= (kk + 1) * den < 0x20000000000000000000000000000000 && 0 <= (kk + 1)
                * den * t < 0x20000000000000000000000000000000) by (nonlinear_arith)
                requires
                    0 <= kk < 0x1000000000000000,
                    1 <= den < 0x100000000,
                    1 <= t < 0x100000000,
            ;
            assert(0 <= mm * num < 0x20000000000000000000000000000000) by (nonlinear_arith)
                requires
                    0 <= mm < 0x1000000000000000,
                    1 <= num < 0x100000000,
            ;
            let sn = self.speed_num as int;
            assert(0 <= num * sn < 0x20000000000000000000000000000000) by (nonlinear_arith)
                requires
                    1 <= num < 0x100000000,
                    1 <= sn < 0x100000000,
            ;
            assert(0 <= kk * den < 0x20000000000000000000000000000000 && 0 <= kk * den * sd
                < 0x20000000000000000000000000000000) by (nonlinear_arith)
                requires
                    0 <= kk < 0x1000000000000000,
                    1 <= den < 0x100000000,
                    1 <= sd < 0x100000000,
            ;
        }
        let lhs: u128 = (k as u128 + 1) * (self.src_den as u128) * (self.target_fps as u128);
        let rhs: u128 = (m as u128) * (self.src_num as u128);
        self.frames_read = k + 1;
        if lhs >= rhs {
            let pnum: u128 = (k as u128) * (self.src_den as u128) * (self.speed_den as u128);
            let pden: u128 = (self.src_num as u128) * (self.speed_num as u128);
            self.frames_emitted = m + 1;
            proof {
                let kk = k as int;
                let mm = m as int;
                let num = self.src_num as int;
                let den = self.src_den as int;
                let t = self.target_fps as int;
                assert((mm + 1) * num == mm * num + num) by (nonlinear_arith);
                assert((kk + 1) * den * t + num <= (kk + 1) * den * t + num);
                assert(den * t <= num ==> (kk + 1) * den * t <= (mm + 1) * num)
                    by (nonlinear_arith)
                    requires
                        kk * den * t <= mm * num || !(den * t <= num),
                        (kk + 1) * den * t >= 0,
                ;
                assert(den * t <= num ==> kk * den * t <= mm * num ==> (kk + 1) * den * t <= mm
                    * num + num) by (nonlinear_arith);
            }
            FrameAction::Emit { index: m, pts: Pts { num: pnum, den: pden } }
        } else {
            proof {
                let kk = k as int;
                let mm = m as int;
                let num = self.src_num as int;
                let den = self.src_den as int;
                let t = self.target_fps as int;
                assert(mm * num <= kk * den * t + num ==> mm * num <= (kk + 1) * den * t + num)
                    by (nonlinear_arith)
                    requires
                        den >= 1,
                        t >= 1,
                ;
            }
            FrameAction::Skip
        }
    }
}

/// Law: whenever the target rate does not exceed the source rate, the
/// number of emitted frames tracks elapsed source time times the target
/// rate to within one frame. Elapsed source time after `frames_read`
/// frames is `frames_read * src_den / src_num` seconds, so the two
/// products below bracket `frames_emitted * src_num` around
/// `elapsed_time * target_fps * src_num`, one frame wide.
pub proof fn lemma_emitted_count_within_one(r: Retimer)
    requires
        r.wf(),
        r.src_den as int * r.target_fps as int <= r.src_num as int,
    ensures
        r.frames_read as int * r.src_den as int * r.target_fps as int <= r.frames_emitted as int
            * r.src_num as int,
        r.frames_emitted as int * r.src_num as int <= r.frames_read as int * r.src_den as int
            * r.target_fps as int + r.src_num as int,
{
}

/// Law: emitted timestamps are non-decreasing. All timestamps of one
/// stream share the positive denominator `pts_den_of(src_num, speed_num)`,
/// so comparing numerators compares values; a frame emitted after more
/// source frames were read never gets the smaller numerator.
pub proof fn lemma_pts_non_decreasing(k1: int, k2: int, src_den: int, speed_den: int)
    requires
        0 <= k1 <= k2,
        src_den >= 1,
        speed_den >= 1,
    ensures
        pts_num_of(k1, src_den, speed_den) <= pts_num_of(k2, src_den, speed_den),
{
    assert(k1 * src_den * speed_den <= k2 * src_den * speed_den) by (nonlinear_arith)
        requires
            0 <= k1 <= k2,
            src_den >= 1,
            speed_den >= 1,
    ;
}

/// Law: doubling the speed halves every emitted timestamp. The timestamp
/// after `k` source frames at speed `speed_num / speed_den` is
/// `pts_num_of(k, src_den, speed_den) / pts_den_of(src_num, speed_num)`;
/// its numerator does not mention the speed numerator, while doubling the
/// speed numerator doubles the denominator, so twice the value at doubled
/// speed equals the value at the original speed — the second clause is
/// that equality cross-multiplied over the positive denominators.
pub proof fn lemma_double_speed_halves_pts(
    k: int,
    src_num: int,
    src_den: int,
    speed_num: int,
    speed_den: int,
)
    requires
        k >= 0,
        src_num >= 1,
        src_den >= 1,
        speed_num >= 1,
        speed_den >= 1,
    ensures
        pts_den_of(src_num, 2 * speed_num) == 2 * pts_den_of(src_num, speed_num),
        2 * pts_num_of(k, src_den, speed_den) * pts_den_of(src_num, speed_num) == pts_num_of(
            k,
            src_den,
            speed_den,
        ) * pts_den_of(src_num, 2 * speed_num),
{
    assert(src_num * (2 * speed_num) == 2 * (src_num * speed_num)) by (nonlinear_arith);
    assert(2 * (k * src_den * speed_den) * (src_num * speed_num) == (k * src_den * speed_den) * (2
        * (src_num * speed_num))) by (nonlinear_arith);
}

} // verus!
