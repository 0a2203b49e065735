//! A sounding note: the envelope state machine of one voice.
//!
//! A note owns one source node and one amplitude stage on the host. It keeps
//! the schedule of control points the amplitude stage has been given, when the
//! source halts, and which of its two nodes are still linked into the output
//! graph. Each operation updates that model and queues the host instructions
//! that bring the host to it; the caller drains the queue with `take_commands`
//! and submits the instructions in order.
use vstd::prelude::*;
use crate::envelope::{
    attack_schedule, cancel_from, kept_before, lemma_kept_before, release_end,
    release_points, release_schedule, ControlPoint, Interp, DECAY_END_TICKS, LATEST_TICK,
    RELEASE_TICKS, SUSTAIN_LEVEL,
};

verus! {

/// One instruction for the host about a note's nodes.
#[derive(Clone, Copy, Debug, PartialEq, Eq, Structural)]
pub enum Command {
    /// Drop every pending control point at or after `time`.
    CancelFrom { time: u64 },
    /// Add a control point to the amplitude stage.
    Schedule { point: ControlPoint },
    /// Start the source now.
    StartSource,
    /// Halt the source at `time`.
    HaltSourceAt { time: u64 },
    /// Remove the amplitude stage's outgoing connections.
    DetachGain,
    /// Remove the source's outgoing connections.
    DetachSource,
}

/// What a refusal of a command by the host means for the operation that issued it.
#[derive(Clone, Copy, Debug, PartialEq, Eq, Structural)]
pub enum OnFailure {
    /// Nothing: the command only tidies up.
    Ignore,
    /// Go on with the remaining commands, then report the failure.
    Report,
    /// Stop submitting and report the failure.
    Abort,
}

/// Failures of note operations.
#[derive(Clone, Copy, Debug, PartialEq, Eq, Structural)]
pub enum NoteError {
    /// The host refused a scheduling or disconnection instruction.
    SchedulingFailure,
}

/// The abstract state of a note.
pub struct NoteView {
    /// Bit pattern of the source frequency.
    pub frequency: u32,
    /// Control points the amplitude stage holds, in submission order.
    pub schedule: Seq<ControlPoint>,
    /// When the source is due to halt, once a release was scheduled.
    pub halt_at: Option<u64>,
    /// Whether the amplitude stage is linked to the output.
    pub gain_linked: bool,
    /// Whether the source is linked to the amplitude stage.
    pub source_linked: bool,
    /// Whether `stop` has been called.
    pub released: bool,
    /// Instructions queued for the host and not yet taken.
    pub outbox: Seq<Command>,
}

pub struct Note {
    frequency: u32,
    schedule: Vec<ControlPoint>,
    halt_at: Option<u64>,
    gain_linked: bool,
    source_linked: bool,
    released: bool,
    outbox: Vec<Command>,
}

impl View for Note {
    type V = NoteView;

    closed spec fn view(&self) -> NoteView {
        NoteView {
            frequency: self.frequency,
            schedule: self.schedule@,
            halt_at: self.halt_at,
            gain_linked: self.gain_linked,
            source_linked: self.source_linked,
            released: self.released,
            outbox: self.outbox@,
        }
    }
}

/// The instructions that start a note at `t0`.
pub open spec fn attack_commands(t0: u64) -> Seq<Command> {
    let s = attack_schedule(t0);
    seq![
        Command::Schedule { point: s[0] },
        Command::Schedule { point: s[1] },
        Command::Schedule { point: s[2] },
        Command::StartSource,
    ]
}

/// A note just started at `t0` with frequency bits `frequency`.
pub open spec fn sounding(frequency: u32, t0: u64) -> NoteView {
    NoteView {
        frequency,
        schedule: attack_schedule(t0),
        halt_at: None,
        gain_linked: true,
        source_linked: true,
        released: false,
        outbox: attack_commands(t0),
    }
}

/// The instructions of a release at `ts` from level `v`.
pub open spec fn release_commands(ts: u64, v: u32) -> Seq<Command> {
    let s = release_schedule(ts, v);
    seq![
        Command::CancelFrom { time: ts },
        Command::Schedule { point: s[0] },
        Command::Schedule { point: s[1] },
        Command::HaltSourceAt { time: (ts + RELEASE_TICKS) as u64 },
    ]
}

/// Note `n` after a release at `ts` from level `v`: pending points at or after
/// `ts` are cancelled, the level is pinned at `ts`, and it falls exponentially
/// to the floor while the source halts at the end of the release.
pub open spec fn stopped(n: NoteView, ts: u64, v: u32) -> NoteView {
    NoteView {
        frequency: n.frequency,
        schedule: kept_before(n.schedule, ts) + release_schedule(ts, v),
        halt_at: Some((ts + RELEASE_TICKS) as u64),
        gain_linked: n.gain_linked,
        source_linked: n.source_linked,
        released: true,
        outbox: n.outbox + release_commands(ts, v),
    }
}

/// The disconnections still owed by note `n`: one for each node still linked,
/// the amplitude stage first.
pub open spec fn detach_commands(n: NoteView) -> Seq<Command> {
    (if n.gain_linked { seq![Command::DetachGain] } else { seq![] })
        + (if n.source_linked { seq![Command::DetachSource] } else { seq![] })
}

/// Note `n` after `disconnect`.
pub open spec fn disconnected(n: NoteView) -> NoteView {
    NoteView {
        frequency: n.frequency,
        schedule: n.schedule,
        halt_at: n.halt_at,
        gain_linked: false,
        source_linked: false,
        released: n.released,
        outbox: n.outbox + detach_commands(n),
    }
}

/// How a refusal of `c` is handled: disconnection is best effort, so a refused
/// disconnection of the source is ignored and one of the amplitude stage is
/// reported once the source's has still been attempted; every other refusal,
/// cancellations included, stops the operation and is reported.
pub open spec fn failure_policy(c: Command) -> OnFailure {
    match c {
        Command::DetachSource => OnFailure::Ignore,
        Command::DetachGain => OnFailure::Report,
        _ => OnFailure::Abort,
    }
}

/// How the caller handles the host's refusal of `c`.
pub fn on_failure(c: &Command) -> (r: OnFailure)
    ensures
        r == failure_policy(*c),
{
    match c {
        Command::DetachSource => OnFailure::Ignore,
        Command::DetachGain => OnFailure::Report,
        _ => OnFailure::Abort,
    }
}

/// Progress through a batch of commands submitted to the host.
#[derive(Clone, Copy, Debug, PartialEq, Eq, Structural)]
pub struct Submission {
    /// A refusal that the batch must report has happened.
    pub failed: bool,
    /// A refusal has stopped the batch: no further command is submitted.
    pub aborted: bool,
}

/// Submission `s` after the host answered `accepted` to command `c`.
pub open spec fn after_answer(s: Submission, c: Command, accepted: bool) -> Submission {
    if accepted {
        s
    } else {
        match failure_policy(c) {
            OnFailure::Ignore => s,
            OnFailure::Report => Submission { failed: true, aborted: s.aborted },
            OnFailure::Abort => Submission { failed: true, aborted: true },
        }
    }
}

impl Submission {
    /// A batch with nothing submitted yet.
    pub fn new() -> (r: Submission)
        ensures
            !r.failed && !r.aborted,
    {
        Submission { failed: false, aborted: false }
    }

    /// Whether the next command is to be submitted.
    pub fn proceeds(&self) -> (r: bool)
        ensures
            r == !self.aborted,
    {
        !self.aborted
    }

    /// Records the host's answer to command `c`.
    pub fn record(&mut self, c: &Command, accepted: bool)
        requires
            !old(self).aborted,
        ensures
            *final(self) == after_answer(*old(self), *c, accepted),
    {
        if !accepted {
            match on_failure(c) {
                OnFailure::Ignore => {},
                OnFailure::Report => {
                    self.failed = true;
                },
                OnFailure::Abort => {
                    self.failed = true;
                    self.aborted = true;
                },
            }
        }
    }

    /// What the operation that issued the batch reports.
    pub fn result(&self) -> (r: Result<(), NoteError>)
        ensures
            !self.failed ==> r == Ok::<(), NoteError>(()),
            self.failed ==> r == Err::<(), NoteError>(NoteError::SchedulingFailure),
    {
        if self.failed {
            Err(NoteError::SchedulingFailure)
        } else {
            Ok(())
        }
    }
}

/// Disconnecting a linked note is best effort: the source's disconnection is
/// submitted whatever the host answered for the amplitude stage, and the batch
/// fails exactly when the amplitude stage's disconnection was refused.
pub proof fn lemma_disconnect_best_effort(n: NoteView, gain_ok: bool, source_ok: bool)
    requires
        n.gain_linked,
        n.source_linked,
    ensures
        detach_commands(n) == seq![Command::DetachGain, Command::DetachSource],
        ({
            let first = after_answer(Submission { failed: false, aborted: false }, Command::DetachGain, gain_ok);
            let last = after_answer(first, Command::DetachSource, source_ok);
            !first.aborted && last.failed == !gain_ok && !last.aborted
        }),
{
    assert(detach_commands(n) =~= seq![Command::DetachGain, Command::DetachSource]);
}

impl Note {
    /// A note started at `t0` on the source frequency `frequency`, with its
    /// attack and decay programmed and the source start queued.
    pub(crate) fn sounding(frequency: u32, t0: u64) -> (r: Note)
        requires
            t0 <= LATEST_TICK,
        ensures
            r@ == sounding(frequency, t0),
    {
        let schedule = crate::envelope::attack_points(t0);
        let mut outbox: Vec<Command> = Vec::new();
        outbox.push(Command::Schedule { point: schedule[0] });
        outbox.push(Command::Schedule { point: schedule[1] });
        outbox.push(Command::Schedule { point: schedule[2] });
        outbox.push(Command::StartSource);
        let r = Note {
            frequency,
            schedule,
            halt_at: None,
            gain_linked: true,
            source_linked: true,
            released: false,
            outbox,
        };
        assert(r@.outbox =~= attack_commands(t0));
        r
    }

    /// Releases the note at `now`, when the amplitude stage reads `level`.
    ///
    /// Calling it again releases again from whatever level is read then.
    pub fn stop(&mut self, now: u64, level: u32)
        requires
            now <= LATEST_TICK,
        ensures
            final(self)@ == stopped(old(self)@, now, level),
            final(self)@.schedule == kept_before(old(self)@.schedule, now) + seq![
                ControlPoint { time: now, level, interp: Interp::Step },
                ControlPoint { time: (now + RELEASE_TICKS) as u64, level: crate::envelope::RELEASE_FLOOR, interp: Interp::Exponential },
            ],
            final(self)@.halt_at == Some((now + RELEASE_TICKS) as u64),
    {
        let kept = cancel_from(&self.schedule, now);
        let release = release_points(now, level);
        let mut schedule = kept;
        schedule.push(release[0]);
        schedule.push(release[1]);
        self.schedule = schedule;
        self.halt_at = Some(now + RELEASE_TICKS);
        self.released = true;
        self.outbox.push(Command::CancelFrom { time: now });
        self.outbox.push(Command::Schedule { point: release[0] });
        self.outbox.push(Command::Schedule { point: release[1] });
        self.outbox.push(Command::HaltSourceAt { time: now + RELEASE_TICKS });
        assert(self@.schedule =~= stopped(old(self)@, now, level).schedule);
        assert(self@.outbox =~= stopped(old(self)@, now, level).outbox);
    }

    /// Unlinks both nodes from the graph, queueing a disconnection for each
    /// node that is still linked.
    pub fn disconnect(&mut self)
        ensures
            final(self)@ == disconnected(old(self)@),
    {
        if self.gain_linked {
            self.outbox.push(Command::DetachGain);
        }
        if self.source_linked {
            self.outbox.push(Command::DetachSource);
        }
        self.gain_linked = false;
        self.source_linked = false;
        assert(self@.outbox =~= disconnected(old(self)@).outbox);
    }

    /// Bit pattern of the source frequency.
    pub fn frequency_bits(&self) -> (r: u32)
        ensures
            r == self@.frequency,
    {
        self.frequency
    }

    /// The control points the amplitude stage has been given, in order.
    pub fn schedule(&self) -> (r: Vec<ControlPoint>)
        ensures
            r@ == self@.schedule,
    {
        let mut r: Vec<ControlPoint> = Vec::new();
        let mut i: usize = 0;
        while i < self.schedule.len()
            invariant
                i <= self@.schedule.len(),
                r@ == self@.schedule.subrange(0, i as int),
            decreases self@.schedule.len() - i,
        {
            r.push(self.schedule[i]);
            i = i + 1;
            assert(r@ =~= self@.schedule.subrange(0, i as int));
        }
        assert(self@.schedule.subrange(0, i as int) =~= self@.schedule);
        r
    }

    /// When the source is due to halt, once the note was released.
    pub fn halt_at(&self) -> (r: Option<u64>)
        ensures
            r == self@.halt_at,
    {
        self.halt_at
    }

    /// Whether `stop` has been called on the note.
    pub fn is_released(&self) -> (r: bool)
        ensures
            r == self@.released,
    {
        self.released
    }

    /// Whether neither node of the note is linked into the graph any more.
    pub fn is_disconnected(&self) -> (r: bool)
        ensures
            r == (!self@.gain_linked && !self@.source_linked),
    {
        !self.gain_linked && !self.source_linked
    }

    /// Hands over the queued instructions, oldest first, and empties the queue.
    pub fn take_commands(&mut self) -> (r: Vec<Command>)
        ensures
            r@ == old(self)@.outbox,
            final(self)@.outbox == Seq::<Command>::empty(),
            final(self)@.schedule == old(self)@.schedule,
            final(self)@.frequency == old(self)@.frequency,
            final(self)@.halt_at == old(self)@.halt_at,
            final(self)@.gain_linked == old(self)@.gain_linked,
            final(self)@.source_linked == old(self)@.source_linked,
            final(self)@.released == old(self)@.released,
    {
        let mut taken: Vec<Command> = Vec::new();
        core::mem::swap(&mut self.outbox, &mut taken);
        taken
    }
}

/// Disconnecting twice leaves a note as disconnecting once does, and the
/// second call queues nothing for the host, so it has nothing that can fail.
pub proof fn lemma_disconnect_idempotent(n: NoteView)
    ensures
        disconnected(disconnected(n)) == disconnected(n),
        detach_commands(disconnected(n)) == Seq::<Command>::empty(),
{
    assert(detach_commands(disconnected(n)) =~= Seq::<Command>::empty());
    assert(disconnected(n).outbox + Seq::<Command>::empty() =~= disconnected(n).outbox);
}

/// After a release at `ts`, the only control point later than `ts` is the end
/// of the release ramp, whatever was scheduled before.
pub proof fn lemma_release_is_last(n: NoteView, ts: u64, v: u32)
    ensures
        forall|i: int|
            0 <= i < stopped(n, ts, v).schedule.len() && #[trigger] stopped(n, ts, v).schedule[i].time > ts
                ==> stopped(n, ts, v).schedule[i] == release_end(ts),
{
    lemma_kept_before(n.schedule, ts);
    let kept = kept_before(n.schedule, ts);
    let after = stopped(n, ts, v).schedule;
    assert forall|i: int| 0 <= i < after.len() && #[trigger] after[i].time > ts implies after[i] == release_end(ts) by {
        if i < kept.len() {
            assert(after[i] == kept[i]);
        } else {
            assert(after[i] == release_schedule(ts, v)[i - kept.len()]);
        }
    }
}

/// A note started at `t0` and released at `ts` during its decay keeps no
/// control point later than `ts` but the end of the release: the decay's
/// sustain target at `t0` plus the decay time is gone from its schedule.
pub proof fn lemma_stop_mid_decay(frequency: u32, t0: u64, ts: u64, v: u32)
    requires
        t0 <= LATEST_TICK,
        t0 < ts,
        ts < t0 + DECAY_END_TICKS,
    ensures
        forall|i: int|
            0 <= i < stopped(sounding(frequency, t0), ts, v).schedule.len()
                && #[trigger] stopped(sounding(frequency, t0), ts, v).schedule[i].time > ts
                ==> stopped(sounding(frequency, t0), ts, v).schedule[i] == release_end(ts),
        !stopped(sounding(frequency, t0), ts, v).schedule.contains(
            ControlPoint { time: (t0 + DECAY_END_TICKS) as u64, level: SUSTAIN_LEVEL, interp: Interp::Linear },
        ),
{
    let n = sounding(frequency, t0);
    let decay_end = ControlPoint { time: (t0 + DECAY_END_TICKS) as u64, level: SUSTAIN_LEVEL, interp: Interp::Linear };
    lemma_release_is_last(n, ts, v);
    let after = stopped(n, ts, v).schedule;
    if after.contains(decay_end) {
        let i = choose|i: int| 0 <= i < after.len() && after[i] == decay_end;
        assert(after[i].time > ts);
    }
}

/// Every instruction that starts or releases a note is one whose refusal by
/// the host stops the operation and is reported.
pub proof fn lemma_scheduling_refusals_abort(t0: u64, ts: u64, v: u32)
    ensures
        forall|i: int|
            0 <= i < attack_commands(t0).len() ==> failure_policy(#[trigger] attack_commands(t0)[i]) == OnFailure::Abort,
        forall|i: int|
            0 <= i < release_commands(ts, v).len() ==> failure_policy(#[trigger] release_commands(ts, v)[i]) == OnFailure::Abort,
{
    assert forall|i: int| 0 <= i < attack_commands(t0).len() implies failure_policy(#[trigger] attack_commands(t0)[i]) == OnFailure::Abort by {
        assert(0 <= i < 4);
    }
    assert forall|i: int| 0 <= i < release_commands(ts, v).len() implies failure_policy(#[trigger] release_commands(ts, v)[i]) == OnFailure::Abort by {
        assert(0 <= i < 4);
    }
}

/// A note started at `t0`, released at `ts` no earlier, and then disconnected
/// ends with neither node linked and the source halting at the end of the
/// release; the disconnection queues exactly one instruction for each node.
pub proof fn lemma_play_stop_disconnect(frequency: u32, t0: u64, ts: u64, v: u32)
    requires
        t0 <= ts,
        ts <= LATEST_TICK,
    ensures
        ({
            let released = stopped(sounding(frequency, t0), ts, v);
            let end = disconnected(released);
            &&& detach_commands(released) == seq![Command::DetachGain, Command::DetachSource]
            &&& !end.gain_linked && !end.source_linked
            &&& end.halt_at == Some((ts + RELEASE_TICKS) as u64)
            &&& end.frequency == frequency
            &&& end.released
        }),
{
    let released = stopped(sounding(frequency, t0), ts, v);
    assert(detach_commands(released) =~= seq![Command::DetachGain, Command::DetachSource]);
}

} // verus!
