//! The engine: the owner of the host's output context and the factory of notes.
//!
//! The context itself stays with the caller, who tells the engine what the host
//! answered (whether a context could be had, its transport state, whether a
//! transport request was accepted) and carries out what the engine decides.
use vstd::prelude::*;
use crate::envelope::{is_valid_frequency, valid_frequency, LATEST_TICK};
use crate::note::{sounding, Note};

verus! {

/// Failures of engine operations.
#[derive(Clone, Copy, Debug, PartialEq, Eq, Structural)]
pub enum EngineError {
    /// The host could not provide an output context.
    ContextUnavailable,
    /// The frequency was not strictly positive and finite.
    InvalidFrequency,
    /// The host refused a resume or close request.
    TransportFailure,
}

/// The transport state of the host's output context.
#[derive(Clone, Copy, Debug, PartialEq, Eq, Structural)]
pub enum TransportState {
    Suspended,
    Running,
    Closed,
}

/// A change of transport state to ask of the host.
#[derive(Clone, Copy, Debug, PartialEq, Eq, Structural)]
pub enum TransportRequest {
    Resume,
    Close,
}

/// The abstract state of an engine.
pub struct EngineView {
    /// Whether the host accepted a request to close the context.
    pub closed: bool,
}

pub struct PianoEngine {
    closed: bool,
}

impl View for PianoEngine {
    type V = EngineView;

    closed spec fn view(&self) -> EngineView {
        EngineView { closed: self.closed }
    }
}

impl PianoEngine {
    /// An engine over a freshly acquired context, or `ContextUnavailable` when
    /// the host could not provide one.
    pub fn new(context_acquired: bool) -> (r: Result<PianoEngine, EngineError>)
        ensures
            context_acquired ==> (r matches Ok(e) && !e@.closed),
            !context_acquired ==> r == Err::<PianoEngine, EngineError>(EngineError::ContextUnavailable),
    {
        if context_acquired {
            Ok(PianoEngine { closed: false })
        } else {
            Err(EngineError::ContextUnavailable)
        }
    }

    /// Master volume is fixed: every note carries its own envelope, and the
    /// level is ignored.
    pub fn set_volume(&self, _level: u32) {
    }

    /// Starts a note of frequency bits `frequency` at clock reading `now`.
    ///
    /// A strictly positive, finite frequency gives a note whose attack and
    /// decay are programmed from `now`; any other gives `InvalidFrequency` and
    /// no note.
    pub fn play(&self, frequency: u32, now: u64) -> (r: Result<Note, EngineError>)
        requires
            !self@.closed,
            now <= LATEST_TICK,
        ensures
            valid_frequency(frequency) ==> (r matches Ok(n) && n@ == sounding(frequency, now)),
            !valid_frequency(frequency) ==> r == Err::<Note, EngineError>(EngineError::InvalidFrequency),
    {
        if is_valid_frequency(frequency) {
            Ok(Note::sounding(frequency, now))
        } else {
            Err(EngineError::InvalidFrequency)
        }
    }

    /// The request that resumes a context found in `state`: a resume when it
    /// is suspended, none otherwise.
    pub fn resume(&self, state: TransportState) -> (r: Option<TransportRequest>)
        ensures
            state == TransportState::Suspended ==> r == Some(TransportRequest::Resume),
            state != TransportState::Suspended ==> r == None::<TransportRequest>,
    {
        match state {
            TransportState::Suspended => Some(TransportRequest::Resume),
            _ => None,
        }
    }

    /// The request that releases the context's resources.
    pub fn close(&self) -> (r: TransportRequest)
        ensures
            r == TransportRequest::Close,
    {
        TransportRequest::Close
    }

    /// Records the host's answer to `request`: `TransportFailure` when it was
    /// refused; the engine counts as closed once a close was accepted.
    pub fn complete(&mut self, request: TransportRequest, accepted: bool) -> (r: Result<(), EngineError>)
        ensures
            accepted ==> r == Ok::<(), EngineError>(()),
            !accepted ==> r == Err::<(), EngineError>(EngineError::TransportFailure),
            final(self)@.closed == (old(self)@.closed || (accepted && request == TransportRequest::Close)),
    {
        if !accepted {
            return Err(EngineError::TransportFailure);
        }
        if let TransportRequest::Close = request {
            self.closed = true;
        }
        Ok(())
    }

    /// Whether a close of the context was accepted.
    pub fn is_closed(&self) -> (r: bool)
        ensures
            r == self@.closed,
    {
        self.closed
    }
}

} // verus!
