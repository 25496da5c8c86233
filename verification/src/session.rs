//! The modem session driver: a strict, linear state machine that owns the
//! decisions of one send operation. Each state prescribes one piece of
//! outside work — open the port, write a line and let the modem settle,
//! submit the body, await and read the response — and the worker's report
//! of that work moves the machine to the next state. The machine itself
//! performs no I/O and no waiting, so every move it can make is verified.

use vstd::pervasive::unreached;
use vstd::prelude::*;

use crate::protocol::body_bytes_of;
use crate::protocol::body_payload;
use crate::protocol::failure_text;
use crate::protocol::lossy_decoded;
use crate::protocol::notify_mode_line;
use crate::protocol::notify_mode_line_text;
use crate::protocol::open_failure_message;
use crate::protocol::open_failure_text;
use crate::protocol::probe_line;
use crate::protocol::probe_line_text;
use crate::protocol::read_outcome;
use crate::protocol::recipient_line;
use crate::protocol::recipient_line_text;
use crate::protocol::reports_error;
use crate::protocol::submit_failure_message;
use crate::protocol::submit_failure_text;
use crate::protocol::text_mode_line;
use crate::protocol::text_mode_line_text;
use crate::protocol::write_failure_message;
use crate::protocol::write_failure_text;

verus! {

/// The line speed used when the caller names none.
pub const DEFAULT_BAUD: u32 = 9600;

/// Absolute I/O timeout of the opened port, in seconds.
pub const OPEN_TIMEOUT_SECS: u64 = 30;

/// Settle delay after the probe and after each configuration line.
pub const CONFIG_DWELL_MS: u64 = 500;

/// Settle delay after addressing the recipient, covering the `>` prompt.
pub const RECIPIENT_DWELL_MS: u64 = 1000;

/// Fixed wait for the modem to transmit before the response is read.
pub const TRANSMIT_WAIT_MS: u64 = 5000;

/// Upper bound on the bytes read as the final response.
pub const READ_LIMIT: usize = 256;

/// The stage a send operation failed at.
#[derive(Clone, Copy, PartialEq, Eq, Structural, Debug)]
pub enum FailureStage {
    PortOpen,
    PortWrite,
    ModemReported,
    WorkerDispatch,
}

/// A descriptive failure: the failing stage and a display-ready diagnostic.
#[derive(Debug, PartialEq, Eq)]
pub struct SendError {
    pub stage: FailureStage,
    pub message: String,
}

/// The line speed a request resolves to.
pub open spec fn baud_of(requested: Option<u32>) -> u32 {
    match requested {
        Option::Some(b) => b,
        Option::None => DEFAULT_BAUD,
    }
}

/// Resolves the requested line speed, defaulting when none is named.
pub fn effective_baud(requested: Option<u32>) -> (r: u32)
    ensures
        r == baud_of(requested),
{
    match requested {
        Option::Some(b) => b,
        Option::None => DEFAULT_BAUD,
    }
}

/// The write steps of the handshake, in their fixed order.
#[derive(Clone, Copy, PartialEq, Eq, Structural, Debug)]
pub enum SessionPhase {
    Probe,
    TextMode,
    NotifyMode,
    Recipient,
    Body,
}

/// Where a session stands: about to open the port, about to perform one
/// write phase, about to await and read the response, or finished.
pub enum SessionState {
    Opening,
    Sending(SessionPhase),
    Reading,
    Finished(Result<bool, SendError>),
}

/// The spec-level image of a session state, with each diagnostic as text.
pub enum StateModel {
    Opening,
    Sending(SessionPhase),
    Reading,
    Done(Result<bool, (FailureStage, Seq<char>)>),
}

impl View for SessionState {
    type V = StateModel;

    open spec fn view(&self) -> StateModel {
        match self {
            SessionState::Opening => StateModel::Opening,
            SessionState::Sending(ph) => StateModel::Sending(*ph),
            SessionState::Reading => StateModel::Reading,
            SessionState::Finished(Result::Ok(b)) => StateModel::Done(Result::Ok(*b)),
            SessionState::Finished(Result::Err(e)) => StateModel::Done(
                Result::Err((e.stage, e.message@)),
            ),
        }
    }
}

/// What the worker reports back after performing an action.
pub enum StepOutcome {
    /// The open or the write succeeded.
    Completed,
    /// The open or the write failed; the detail is the OS error text.
    Failed(String),
    /// The bytes read after the transmission wait; empty when the read
    /// failed or returned nothing, which is not a failure.
    Response(Vec<u8>),
}

/// The spec-level image of a worker report.
pub enum EventModel {
    Completed,
    Failed(Seq<char>),
    Response(Seq<u8>),
}

impl View for StepOutcome {
    type V = EventModel;

    open spec fn view(&self) -> EventModel {
        match self {
            StepOutcome::Completed => EventModel::Completed,
            StepOutcome::Failed(d) => EventModel::Failed(d@),
            StepOutcome::Response(raw) => EventModel::Response(raw@),
        }
    }
}

/// The state that follows a completed write phase: the next phase in the
/// fixed order, or the read once the body went out.
pub open spec fn after_phase(ph: SessionPhase) -> StateModel {
    match ph {
        SessionPhase::Probe => StateModel::Sending(SessionPhase::TextMode),
        SessionPhase::TextMode => StateModel::Sending(SessionPhase::NotifyMode),
        SessionPhase::NotifyMode => StateModel::Sending(SessionPhase::Recipient),
        SessionPhase::Recipient => StateModel::Sending(SessionPhase::Body),
        SessionPhase::Body => StateModel::Reading,
    }
}

/// The command line a write phase sends; the body phase sends bytes, not a
/// line, and is not mapped here.
pub open spec fn phase_line(ph: SessionPhase, number: Seq<char>) -> Seq<char> {
    match ph {
        SessionPhase::Probe => probe_line_text(),
        SessionPhase::TextMode => text_mode_line_text(),
        SessionPhase::NotifyMode => notify_mode_line_text(),
        SessionPhase::Recipient => recipient_line_text(number),
        SessionPhase::Body => Seq::empty(),
    }
}

/// The settle delay after each command line.
pub open spec fn phase_dwell(ph: SessionPhase) -> u64 {
    if ph is Recipient {
        RECIPIENT_DWELL_MS
    } else {
        CONFIG_DWELL_MS
    }
}

/// The diagnostic of a failed write: the body submission reports its own
/// message, the four command lines share one.
pub open spec fn write_stage_text(ph: SessionPhase, detail: Seq<char>) -> Seq<char> {
    if ph is Body {
        submit_failure_text(detail)
    } else {
        write_failure_text(detail)
    }
}

/// How the response bytes decide the outcome: an explicit error token fails
/// with the trimmed response embedded in the diagnostic; anything else —
/// an acknowledgement, an empty read, or unrecognised text — is success.
pub open spec fn response_model(raw: Seq<u8>) -> Result<bool, (FailureStage, Seq<char>)> {
    if reports_error(lossy_decoded(raw)) {
        Result::Err((FailureStage::ModemReported, failure_text(lossy_decoded(raw))))
    } else {
        Result::Ok(true)
    }
}

/// Which report fits which state: the open and the writes either complete
/// or fail, the read hands back bytes, and a finished session takes no
/// further report.
pub open spec fn fits(s: StateModel, ev: EventModel) -> bool {
    match s {
        StateModel::Opening => ev is Completed || ev is Failed,
        StateModel::Sending(_) => ev is Completed || ev is Failed,
        StateModel::Reading => ev is Response,
        StateModel::Done(_) => false,
    }
}

/// The move the machine makes when the worker reports `ev` in state `s`,
/// for a session on the port named `path`.
pub open spec fn next_model(s: StateModel, ev: EventModel, path: Seq<char>) -> StateModel {
    match (s, ev) {
        (StateModel::Opening, EventModel::Completed) => StateModel::Sending(SessionPhase::Probe),
        (StateModel::Opening, EventModel::Failed(d)) => StateModel::Done(
            Result::Err((FailureStage::PortOpen, open_failure_text(path, d))),
        ),
        (StateModel::Sending(ph), EventModel::Completed) => after_phase(ph),
        (StateModel::Sending(ph), EventModel::Failed(d)) => StateModel::Done(
            Result::Err((FailureStage::PortWrite, write_stage_text(ph, d))),
        ),
        (StateModel::Reading, EventModel::Response(raw)) => StateModel::Done(response_model(raw)),
        _ => s,
    }
}

/// The outside work the driver asks for next. The worker performs exactly
/// this and reports back what happened.
pub enum SessionAction {
    /// Open the named port at the given line speed, with the absolute I/O
    /// timeout for any single read or write.
    OpenPort { baud: u32, timeout_secs: u64 },
    /// Write the line, then let the modem settle for the dwell time; the
    /// dwell alone is the synchronization, no echo is read.
    WriteLine { line: String, dwell_ms: u64 },
    /// Write the body bytes as they stand; no CRLF and no dwell follow.
    SubmitBody { payload: Vec<u8> },
    /// Wait the fixed time, then read up to `max_len` bytes best-effort.
    AwaitResponse { wait_ms: u64, max_len: usize },
    /// The session is over; its outcome stands in the state.
    Stop,
}

/// One send operation: the request values and where the handshake stands.
pub struct ModemSession {
    pub port_path: String,
    pub phone_number: String,
    pub message: String,
    pub baud: u32,
    pub state: SessionState,
}

/// The action a session's state prescribes.
pub open spec fn action_matches(s: ModemSession, a: SessionAction) -> bool {
    match s.state@ {
        StateModel::Opening => {
            &&& a matches SessionAction::OpenPort { baud, timeout_secs }
            &&& baud == s.baud
            &&& timeout_secs == OPEN_TIMEOUT_SECS
        },
        StateModel::Sending(SessionPhase::Body) => {
            &&& a matches SessionAction::SubmitBody { payload }
            &&& payload@ == body_bytes_of(s.message@)
        },
        StateModel::Sending(ph) => {
            &&& a matches SessionAction::WriteLine { line, dwell_ms }
            &&& line@ == phase_line(ph, s.phone_number@)
            &&& dwell_ms == phase_dwell(ph)
        },
        StateModel::Reading => {
            &&& a matches SessionAction::AwaitResponse { wait_ms, max_len }
            &&& wait_ms == TRANSMIT_WAIT_MS
            &&& max_len == READ_LIMIT
        },
        StateModel::Done(_) => a is Stop,
    }
}

/// The state that follows a completed write phase.
fn next_sending_state(ph: SessionPhase) -> (s: SessionState)
    ensures
        s@ == after_phase(ph),
{
    match ph {
        SessionPhase::Probe => SessionState::Sending(SessionPhase::TextMode),
        SessionPhase::TextMode => SessionState::Sending(SessionPhase::NotifyMode),
        SessionPhase::NotifyMode => SessionState::Sending(SessionPhase::Recipient),
        SessionPhase::Recipient => SessionState::Sending(SessionPhase::Body),
        SessionPhase::Body => SessionState::Reading,
    }
}

impl ModemSession {
    /// Starts a session for one request; the line speed defaults to 9600.
    /// Nothing has been opened or written yet.
    pub fn new(
        port_path: String,
        phone_number: String,
        message: String,
        baud_rate: Option<u32>,
    ) -> (s: Self)
        ensures
            s.port_path == port_path,
            s.phone_number == phone_number,
            s.message == message,
            s.baud == baud_of(baud_rate),
            s.state@ is Opening,
    {
        ModemSession {
            port_path,
            phone_number,
            message,
            baud: effective_baud(baud_rate),
            state: SessionState::Opening,
        }
    }

    /// The outside work to perform next.
    pub fn current_action(&self) -> (a: SessionAction)
        ensures
            action_matches(*self, a),
    {
        match &self.state {
            SessionState::Opening => SessionAction::OpenPort {
                baud: self.baud,
                timeout_secs: OPEN_TIMEOUT_SECS,
            },
            SessionState::Sending(SessionPhase::Probe) => SessionAction::WriteLine {
                line: probe_line(),
                dwell_ms: CONFIG_DWELL_MS,
            },
            SessionState::Sending(SessionPhase::TextMode) => SessionAction::WriteLine {
                line: text_mode_line(),
                dwell_ms: CONFIG_DWELL_MS,
            },
            SessionState::Sending(SessionPhase::NotifyMode) => SessionAction::WriteLine {
                line: notify_mode_line(),
                dwell_ms: CONFIG_DWELL_MS,
            },
            SessionState::Sending(SessionPhase::Recipient) => SessionAction::WriteLine {
                line: recipient_line(self.phone_number.as_str()),
                dwell_ms: RECIPIENT_DWELL_MS,
            },
            SessionState::Sending(SessionPhase::Body) => SessionAction::SubmitBody {
                payload: body_payload(self.message.as_str()),
            },
            SessionState::Reading => SessionAction::AwaitResponse {
                wait_ms: TRANSMIT_WAIT_MS,
                max_len: READ_LIMIT,
            },
            SessionState::Finished(_) => SessionAction::Stop,
        }
    }

    /// Moves the session on the worker's report. The request fields never
    /// change; the state moves exactly as `next_model` says.
    pub fn handle(&mut self, report: StepOutcome)
        requires
            fits(old(self).state@, report@),
        ensures
            final(self).port_path == old(self).port_path,
            final(self).phone_number == old(self).phone_number,
            final(self).message == old(self).message,
            final(self).baud == old(self).baud,
            final(self).state@ == next_model(old(self).state@, report@, old(self).port_path@),
    {
        match report {
            StepOutcome::Completed => {
                let next = match &self.state {
                    SessionState::Opening => SessionState::Sending(SessionPhase::Probe),
                    SessionState::Sending(ph) => next_sending_state(*ph),
                    _ => unreached(),
                };
                self.state = next;
            },
            StepOutcome::Failed(detail) => {
                let next = match &self.state {
                    SessionState::Opening => {
                        let msg = open_failure_message(self.port_path.as_str(), detail.as_str());
                        SessionState::Finished(
                            Err(SendError { stage: FailureStage::PortOpen, message: msg }),
                        )
                    },
                    SessionState::Sending(ph) => {
                        let msg = if matches!(ph, SessionPhase::Body) {
                            submit_failure_message(detail.as_str())
                        } else {
                            write_failure_message(detail.as_str())
                        };
                        SessionState::Finished(
                            Err(SendError { stage: FailureStage::PortWrite, message: msg }),
                        )
                    },
                    _ => unreached(),
                };
                self.state = next;
            },
            StepOutcome::Response(raw) => {
                let next = match &self.state {
                    SessionState::Reading => {
                        match read_outcome(raw.as_slice()) {
                            Ok(b) => SessionState::Finished(Ok(b)),
                            Err(m) => SessionState::Finished(
                                Err(SendError { stage: FailureStage::ModemReported, message: m }),
                            ),
                        }
                    },
                    _ => unreached(),
                };
                self.state = next;
            },
        }
    }

    /// The session's result once it is finished: success, or the failing
    /// stage with its diagnostic.
    pub fn outcome(self) -> (r: Result<bool, SendError>)
        requires
            self.state@ is Done,
        ensures
            match r {
                Ok(b) => self.state@ == StateModel::Done(
                    Result::Ok::<bool, (FailureStage, Seq<char>)>(b),
                ),
                Err(e) => self.state@ == StateModel::Done(
                    Result::Err::<bool, (FailureStage, Seq<char>)>((e.stage, e.message@)),
                ),
            },
    {
        match self.state {
            SessionState::Finished(r) => r,
            _ => unreached(),
        }
    }
}

/// A failed open ends the session at once with a port-open failure whose
/// diagnostic names the port, before any command bytes are written.
pub proof fn lemma_open_failure_is_terminal(path: Seq<char>, detail: Seq<char>)
    ensures
        next_model(StateModel::Opening, EventModel::Failed(detail), path) == StateModel::Done(
            Result::Err::<bool, (FailureStage, Seq<char>)>(
                (FailureStage::PortOpen, open_failure_text(path, detail)),
            ),
        ),
{
}

/// Write actions arise only in the sending states: a session that is not
/// past a completed open — or is finished, for any reason — never asks for
/// a line or a body to be written.
pub proof fn lemma_writes_only_while_sending(s: ModemSession, a: SessionAction)
    requires
        action_matches(s, a),
        a matches SessionAction::WriteLine { .. } || a matches SessionAction::SubmitBody { .. },
    ensures
        s.state@ is Sending,
{
}

/// The only report that moves the machine from the open into a sending
/// state is a completed open.
pub proof fn lemma_sending_needs_completed_open(ev: EventModel, path: Seq<char>)
    requires
        next_model(StateModel::Opening, ev, path) is Sending,
    ensures
        ev is Completed,
{
}

/// How many moves a session can still make before it is finished.
pub open spec fn steps_left(s: StateModel) -> nat {
    match s {
        StateModel::Opening => 7,
        StateModel::Sending(ph) => match ph {
            SessionPhase::Probe => 6,
            SessionPhase::TextMode => 5,
            SessionPhase::NotifyMode => 4,
            SessionPhase::Recipient => 3,
            SessionPhase::Body => 2,
        },
        StateModel::Reading => 1,
        StateModel::Done(_) => 0,
    }
}

/// The machine is linear, with no branching back-edges: every fitting
/// report moves it strictly toward the finished state, so a session ends
/// after at most seven reports.
pub proof fn lemma_session_terminates(s: StateModel, ev: EventModel, path: Seq<char>)
    requires
        fits(s, ev),
    ensures
        steps_left(next_model(s, ev, path)) < steps_left(s),
{
}

/// The happy path is linear and fixed: from the start, a completed open
/// and four completed writes walk the phases in the order probe, text
/// mode, notification mode, recipient, body; the completed body leads to
/// the read, and the reported response bytes alone decide the outcome.
pub proof fn lemma_happy_path(path: Seq<char>, raw: Seq<u8>)
    ensures
        ({
            let s1 = next_model(StateModel::Opening, EventModel::Completed, path);
            let s2 = next_model(s1, EventModel::Completed, path);
            let s3 = next_model(s2, EventModel::Completed, path);
            let s4 = next_model(s3, EventModel::Completed, path);
            let s5 = next_model(s4, EventModel::Completed, path);
            let s6 = next_model(s5, EventModel::Completed, path);
            &&& s1 == StateModel::Sending(SessionPhase::Probe)
            &&& s2 == StateModel::Sending(SessionPhase::TextMode)
            &&& s3 == StateModel::Sending(SessionPhase::NotifyMode)
            &&& s4 == StateModel::Sending(SessionPhase::Recipient)
            &&& s5 == StateModel::Sending(SessionPhase::Body)
            &&& s6 == StateModel::Reading
            &&& next_model(s6, EventModel::Response(raw), path) == StateModel::Done(
                response_model(raw),
            )
        }),
{
}

} // verus!
