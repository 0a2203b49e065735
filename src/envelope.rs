//! Amplitude envelope of a note: units, levels, and the control points that
//! make up the attack/decay and release schedules.
//!
//! Time is counted in ticks of one microsecond on the host's monotonic clock.
//! Amplitude is counted in parts per million of full scale.
use vstd::prelude::*;

verus! {

/// Time from note start to the attack peak.
pub const ATTACK_TICKS: u64 = 20_000;

/// Time from note start to the end of the decay, where the sustain level is reached.
pub const DECAY_END_TICKS: u64 = 200_000;

/// Length of the release ramp, and the delay before the source halts.
pub const RELEASE_TICKS: u64 = 200_000;

/// Latest clock reading at which a note can still be started or released
/// without its schedule running past the end of the clock.
pub const LATEST_TICK: u64 = u64::MAX - RELEASE_TICKS;

/// Amplitude at which every note begins.
pub const SILENT_LEVEL: u32 = 0;

/// Amplitude reached at the end of the attack (0.6 of full scale).
pub const PEAK_LEVEL: u32 = 600_000;

/// Amplitude held during the sustain (0.4 of full scale).
pub const SUSTAIN_LEVEL: u32 = 400_000;

/// Strictly positive floor of the exponential release (0.001 of full scale).
pub const RELEASE_FLOOR: u32 = 1_000;

/// How the host moves the amplitude towards a control point.
#[derive(Clone, Copy, Debug, PartialEq, Eq, Structural)]
pub enum Interp {
    /// Jump to the value at the point's time.
    Step,
    /// Ramp linearly from the previous point.
    Linear,
    /// Ramp exponentially from the previous point.
    Exponential,
}

/// One time-stamped target of the amplitude stage.
#[derive(Clone, Copy, Debug, PartialEq, Eq, Structural)]
pub struct ControlPoint {
    pub time: u64,
    pub level: u32,
    pub interp: Interp,
}

/// A frequency, given as the bit pattern of an IEEE-754 single, is playable
/// when it is strictly positive and finite: sign bit clear, not zero, and an
/// exponent below the all-ones pattern of infinities and NaNs.
pub open spec fn valid_frequency(bits: u32) -> bool {
    0 < bits && bits < 0x7F80_0000
}

/// The schedule programmed when a note starts at `t0`.
pub open spec fn attack_schedule(t0: u64) -> Seq<ControlPoint> {
    seq![
        ControlPoint { time: t0, level: SILENT_LEVEL, interp: Interp::Step },
        ControlPoint { time: (t0 + ATTACK_TICKS) as u64, level: PEAK_LEVEL, interp: Interp::Linear },
        ControlPoint { time: (t0 + DECAY_END_TICKS) as u64, level: SUSTAIN_LEVEL, interp: Interp::Linear },
    ]
}

/// The two points that a release at `ts` from level `v` adds.
pub open spec fn release_schedule(ts: u64, v: u32) -> Seq<ControlPoint> {
    seq![
        ControlPoint { time: ts, level: v, interp: Interp::Step },
        release_end(ts),
    ]
}

/// The final point of a release started at `ts`.
pub open spec fn release_end(ts: u64) -> ControlPoint {
    ControlPoint { time: (ts + RELEASE_TICKS) as u64, level: RELEASE_FLOOR, interp: Interp::Exponential }
}

/// What remains of schedule `s` once the points at or after `t` are cancelled.
pub open spec fn kept_before(s: Seq<ControlPoint>, t: u64) -> Seq<ControlPoint>
    decreases s.len(),
{
    if s.len() == 0 {
        s
    } else {
        let rest = kept_before(s.drop_last(), t);
        if s.last().time < t {
            rest.push(s.last())
        } else {
            rest
        }
    }
}

/// Every point that survives a cancellation at `t` lies strictly before `t`.
pub proof fn lemma_kept_before(s: Seq<ControlPoint>, t: u64)
    ensures
        forall|i: int| 0 <= i < kept_before(s, t).len() ==> kept_before(s, t)[i].time < t,
    decreases s.len(),
{
    if s.len() > 0 {
        lemma_kept_before(s.drop_last(), t);
    }
}

/// Whether `bits` encodes a playable frequency.
pub fn is_valid_frequency(bits: u32) -> (r: bool)
    ensures
        r == valid_frequency(bits),
{
    0 < bits && bits < 0x7F80_0000
}

/// The attack and decay points of a note started at `t0`.
pub fn attack_points(t0: u64) -> (r: Vec<ControlPoint>)
    requires
        t0 <= LATEST_TICK,
    ensures
        r@ == attack_schedule(t0),
{
    let r = vec![
        ControlPoint { time: t0, level: SILENT_LEVEL, interp: Interp::Step },
        ControlPoint { time: t0 + ATTACK_TICKS, level: PEAK_LEVEL, interp: Interp::Linear },
        ControlPoint { time: t0 + DECAY_END_TICKS, level: SUSTAIN_LEVEL, interp: Interp::Linear },
    ];
    assert(r@ =~= attack_schedule(t0));
    r
}

/// The points of a release started at `ts` from level `v`.
pub fn release_points(ts: u64, v: u32) -> (r: Vec<ControlPoint>)
    requires
        ts <= LATEST_TICK,
    ensures
        r@ == release_schedule(ts, v),
{
    let r = vec![
        ControlPoint { time: ts, level: v, interp: Interp::Step },
        ControlPoint { time: ts + RELEASE_TICKS, level: RELEASE_FLOOR, interp: Interp::Exponential },
    ];
    assert(r@ =~= release_schedule(ts, v));
    r
}

/// Schedule `s` with every point at or after `t` removed, the others kept in order.
pub fn cancel_from(s: &Vec<ControlPoint>, t: u64) -> (r: Vec<ControlPoint>)
    ensures
        r@ == kept_before(s@, t),
{
    let mut r: Vec<ControlPoint> = Vec::new();
    let mut i: usize = 0;
    while i < s.len()
        invariant
            i <= s@.len(),
            r@ == kept_before(s@.subrange(0, i as int), t),
        decreases s@.len() - i,
    {
        let p = s[i];
        assert(s@.subrange(0, i as int + 1).drop_last() =~= s@.subrange(0, i as int));
        if p.time < t {
            r.push(p);
        }
        i = i + 1;
    }
    assert(s@.subrange(0, s@.len() as int) =~= s@);
    r
}

} // verus!
