use vstd::prelude::*;

use crate::outcome::Outcome;

verus! {

/// Why a file read failed: the path could not be opened at all, or it opened
/// but its content could not be fully read. Each variant carries the cause
/// as the platform reported it, unchanged.
#[derive(Debug)]
pub enum IoFailure {
    OpenFailed { message: String },
    ReadFailed { message: String },
}

/// The I/O action a driver must attempt next on behalf of the read.
#[derive(Debug, PartialEq, Eq, Structural)]
pub enum ReadAction {
    Open,
    Read,
}

/// What an attempted action reported back.
#[derive(Debug)]
pub enum ReadEvent {
    OpenOk,
    OpenErr { message: String },
    ReadOk { contents: String },
    ReadErr { message: String },
}

/// One whole-file read, as a state machine. A driver performs the I/O and
/// feeds each sub-step's report back in; the machine decides everything
/// else: the order of the sub-steps, the short-circuit on the first
/// failure, and the final outcome.
#[derive(Debug)]
pub enum ReadState {
    /// Nothing attempted yet; no handle is held.
    Start,
    /// The open succeeded; the handle is held and the content is unread.
    Opened,
    /// Terminal success: the full text of the file.
    Done { contents: String },
    /// Terminal failure: the first sub-step that failed, its cause intact.
    Failed { error: IoFailure },
}

impl ReadState {
    /// A terminal state: the read is over, successfully or not.
    pub open spec fn is_terminal(self) -> bool {
        self is Done || self is Failed
    }

    /// The handle is held in exactly one state: after a successful open,
    /// while the content is still unread.
    pub open spec fn holds_handle(self) -> bool {
        self is Opened
    }

    /// Which reports can answer which state: an open attempt answers the
    /// start, a read attempt answers the opened state, and nothing answers
    /// a terminal state.
    pub open spec fn expects(self, event: ReadEvent) -> bool {
        match self {
            ReadState::Start => event is OpenOk || event is OpenErr,
            ReadState::Opened => event is ReadOk || event is ReadErr,
            ReadState::Done { .. } => false,
            ReadState::Failed { .. } => false,
        }
    }

    /// The transition relation: a successful open advances to the opened
    /// state, a successful read finishes with the contents, and either
    /// failure finishes at once with its own cause.
    pub open spec fn spec_step(self, event: ReadEvent) -> ReadState
        recommends
            self.expects(event),
    {
        match (self, event) {
            (ReadState::Start, ReadEvent::OpenOk) => ReadState::Opened,
            (ReadState::Start, ReadEvent::OpenErr { message }) => ReadState::Failed {
                error: IoFailure::OpenFailed { message },
            },
            (ReadState::Opened, ReadEvent::ReadOk { contents }) => ReadState::Done { contents },
            (ReadState::Opened, ReadEvent::ReadErr { message }) => ReadState::Failed {
                error: IoFailure::ReadFailed { message },
            },
            _ => self,
        }
    }

    /// The outcome a terminal state denotes.
    pub open spec fn spec_outcome(self) -> Outcome<String, IoFailure>
        recommends
            self.is_terminal(),
    {
        match self {
            ReadState::Done { contents } => Outcome::Success(contents),
            ReadState::Failed { error } => Outcome::Failure(error),
            _ => arbitrary(),
        }
    }

    /// The I/O action to attempt next, or nothing once the read is over.
    pub fn next_action(&self) -> (a: Option<ReadAction>)
        ensures
            self is Start ==> a == Some(ReadAction::Open),
            self is Opened ==> a == Some(ReadAction::Read),
            self.is_terminal() ==> a is None,
    {
        match self {
            ReadState::Start => Some(ReadAction::Open),
            ReadState::Opened => Some(ReadAction::Read),
            ReadState::Done { .. } => None,
            ReadState::Failed { .. } => None,
        }
    }

    /// Advances by what the attempted action reported.
    pub fn step(self, event: ReadEvent) -> (next: ReadState)
        requires
            self.expects(event),
        ensures
            next == self.spec_step(event),
    {
        match (self, event) {
            (ReadState::Start, ReadEvent::OpenOk) => ReadState::Opened,
            (ReadState::Start, ReadEvent::OpenErr { message }) => ReadState::Failed {
                error: IoFailure::OpenFailed { message },
            },
            (ReadState::Opened, ReadEvent::ReadOk { contents }) => ReadState::Done { contents },
            (ReadState::Opened, ReadEvent::ReadErr { message }) => ReadState::Failed {
                error: IoFailure::ReadFailed { message },
            },
            _ => vstd::pervasive::unreached(),
        }
    }

    /// Reads off the outcome of a finished read: the full contents on
    /// success, the first failure otherwise, unchanged.
    pub fn into_outcome(self) -> (r: Outcome<String, IoFailure>)
        requires
            self.is_terminal(),
        ensures
            r == self.spec_outcome(),
    {
        match self {
            ReadState::Done { contents } => Outcome::Success(contents),
            ReadState::Failed { error } => Outcome::Failure(error),
            _ => vstd::pervasive::unreached(),
        }
    }
}

/// The outcome of one whole read, given what the open attempt reported and,
/// for the path on which the open succeeded, what the read attempt reported.
/// The read report is consulted only on that path: an open failure ends the
/// read before anything is read.
pub open spec fn read_result(open_event: ReadEvent, read_event: ReadEvent) -> Outcome<
    String,
    IoFailure,
>
    recommends
        ReadState::Start.expects(open_event),
        open_event is OpenOk ==> ReadState::Opened.expects(read_event),
{
    let after_open = ReadState::Start.spec_step(open_event);
    if after_open is Opened {
        after_open.spec_step(read_event).spec_outcome()
    } else {
        after_open.spec_outcome()
    }
}

/// A read in which both sub-steps succeed ends in success carrying exactly
/// the contents the read step produced, byte for byte.
pub proof fn lemma_read_success(contents: String)
    ensures
        read_result(ReadEvent::OpenOk, ReadEvent::ReadOk { contents }) == Outcome::<
            String,
            IoFailure,
        >::Success(contents),
{
}

/// An open failure short-circuits: whatever the read attempt would have
/// reported, the outcome is the open failure itself, its cause unchanged —
/// no wrapping, no continuation past the failure.
pub proof fn lemma_open_failure_short_circuits(message: String, read_event: ReadEvent)
    ensures
        read_result(ReadEvent::OpenErr { message }, read_event) == Outcome::<
            String,
            IoFailure,
        >::Failure(IoFailure::OpenFailed { message }),
{
}

/// A failure of the read step, after a successful open, ends the read with
/// that failure's own cause, unchanged; the partially read data is gone.
pub proof fn lemma_read_failure_propagates(message: String)
    ensures
        read_result(ReadEvent::OpenOk, ReadEvent::ReadErr { message }) == Outcome::<
            String,
            IoFailure,
        >::Failure(IoFailure::ReadFailed { message }),
{
}

/// Every step makes progress and none leads back: from the start the read
/// either reaches the opened state or fails, and from the opened state it
/// always finishes. A read therefore performs at most two sub-steps.
pub proof fn lemma_progress(state: ReadState, event: ReadEvent)
    requires
        state.expects(event),
    ensures
        state is Start ==> (state.spec_step(event) is Opened || state.spec_step(
            event,
        ).is_terminal()),
        state is Opened ==> state.spec_step(event).is_terminal(),
{
}

/// The handle is released on every exit path: whatever answers the one
/// state that holds the handle leads to a state that no longer holds it,
/// and no terminal state holds it — so by the time an outcome can be read
/// off, the handle is gone, on success and on either failure alike.
pub proof fn lemma_handle_released(state: ReadState, event: ReadEvent)
    ensures
        state.expects(event) && state.holds_handle() ==> !state.spec_step(event).holds_handle(),
        state.is_terminal() ==> !state.holds_handle(),
{
}

/// The read's decisions are a pure function of what the sub-steps reported:
/// two reads whose sub-steps report the same results end in the same
/// outcome. Whether an unmodified file reports the same results twice is
/// the filesystem's affair, not decided here.
pub proof fn lemma_outcome_deterministic(
    open_a: ReadEvent,
    read_a: ReadEvent,
    open_b: ReadEvent,
    read_b: ReadEvent,
)
    requires
        open_a == open_b,
        read_a == read_b,
    ensures
        read_result(open_a, read_a) == read_result(open_b, read_b),
{
}

} // verus!
