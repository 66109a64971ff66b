//! The per-connection session: a single-use state machine that owns the
//! request/response discipline of one accepted connection. The surrounding
//! process performs the suspending reads and writes and reports their
//! outcomes as events; every decision between two events is made here.

use crate::command::{execute, reply_of, store_after, Operation, Response};
use crate::store::Store;
use crate::wire::decode_operation;
use vstd::prelude::*;

verus! {

/// Why a session ended. A clean close is the normal end of a connection, not
/// an error; the two failures are local to this one connection.
#[derive(Debug, Clone, Copy, PartialEq, Eq)]
pub enum TermReason {
    /// The peer closed the connection with no partial data pending.
    CleanEnd,
    /// Malformed framing, or a request unit outside the command grammar.
    DecodeFailure,
    /// The transport failed while a response was being written.
    SendFailure,
}

/// Where one session stands between events.
#[derive(Debug, Clone, Copy, PartialEq, Eq)]
pub enum SessionState {
    /// Waiting for the next request unit to be decoded.
    AwaitingRequest,
    /// A request has been decoded and is about to be executed.
    Executing,
    /// A response has been produced and is about to be sent.
    SendingResponse,
    /// Terminal: the session is over and is never retried.
    Closed(TermReason),
}

/// What one attempt to decode the next request unit reported.
pub enum ReadOutcome {
    /// One request unit arrived, not yet parsed against the command grammar.
    Frame(mini_redis::frame::Frame),
    /// The connection closed cleanly with no partial data.
    CleanClose,
    /// The framing was malformed; no request unit could be decoded.
    Failed,
}

/// One connection's session. Created on acceptance in `AwaitingRequest`;
/// single-use, never reopened after it closes.
pub struct Session {
    state: SessionState,
}

impl View for Session {
    type V = SessionState;

    closed spec fn view(&self) -> SessionState {
        self.state
    }
}

impl Session {
    /// A fresh session for one newly accepted connection.
    pub fn new() -> (s: Session)
        ensures
            s@ == SessionState::AwaitingRequest,
    {
        Session { state: SessionState::AwaitingRequest }
    }

    /// Whether the session reached its terminal state.
    pub fn is_closed(&self) -> (r: bool)
        ensures
            r == (self@ is Closed),
    {
        match self.state {
            SessionState::Closed(_) => true,
            _ => false,
        }
    }

    /// Whether the session is waiting for the next request unit.
    pub fn is_awaiting(&self) -> (r: bool)
        ensures
            r == (self@ is AwaitingRequest),
    {
        match self.state {
            SessionState::AwaitingRequest => true,
            _ => false,
        }
    }

    /// Takes the outcome of one decode attempt. A clean close ends the
    /// session normally; a framing failure or a request unit outside the
    /// command grammar closes it with a decode failure — no partial recovery
    /// is attempted. Only a decoded, well-formed operation keeps it going.
    /// The shared store is not touched, whatever the outcome.
    pub fn on_read(&mut self, outcome: ReadOutcome) -> (r: Option<Operation>)
        requires
            old(self)@ is AwaitingRequest,
        ensures
            outcome is CleanClose ==> r is None && final(self)@ == SessionState::Closed(
                TermReason::CleanEnd,
            ),
            outcome is Failed ==> r is None && final(self)@ == SessionState::Closed(
                TermReason::DecodeFailure,
            ),
            outcome is Frame && r is None ==> final(self)@ == SessionState::Closed(
                TermReason::DecodeFailure,
            ),
            r is Some ==> final(self)@ == SessionState::Executing,
    {
        match outcome {
            ReadOutcome::Frame(f) => {
                match decode_operation(f) {
                    Some(op) => {
                        self.state = SessionState::Executing;
                        Some(op)
                    },
                    None => {
                        self.state = SessionState::Closed(TermReason::DecodeFailure);
                        None
                    },
                }
            },
            ReadOutcome::CleanClose => {
                self.state = SessionState::Closed(TermReason::CleanEnd);
                None
            },
            ReadOutcome::Failed => {
                self.state = SessionState::Closed(TermReason::DecodeFailure);
                None
            },
        }
    }

    /// Executes the decoded operation against the shared store and produces
    /// the one response to send. The store changes exactly as the command
    /// executor's contract says; no other session state is read or written,
    /// so this never depends on, or interferes with, another connection.
    pub fn on_execute(&mut self, op: Operation, store: &mut Store) -> (r: Response)
        requires
            old(self)@ is Executing,
            old(store).wf(),
        ensures
            final(self)@ == SessionState::SendingResponse,
            final(store).wf(),
            final(store)@ == store_after(old(store)@, op@),
            r@ == reply_of(old(store)@, op@),
    {
        self.state = SessionState::SendingResponse;
        execute(op, store)
    }

    /// Takes the outcome of sending the response: on success the session
    /// awaits the next request; a transport failure closes it.
    pub fn on_sent(&mut self, delivered: bool)
        requires
            old(self)@ is SendingResponse,
        ensures
            delivered ==> final(self)@ == SessionState::AwaitingRequest,
            !delivered ==> final(self)@ == SessionState::Closed(TermReason::SendFailure),
    {
        if delivered {
            self.state = SessionState::AwaitingRequest;
        } else {
            self.state = SessionState::Closed(TermReason::SendFailure);
        }
    }
}

} // verus!
