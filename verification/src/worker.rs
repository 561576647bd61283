//! Connection Worker: the per-connection state machine.
//!
//! The worker owns one connection end to end: it sends the greeting,
//! loops read → parse → dispatch → reply, and closes the connection on a
//! close signal or on any transport failure.  The machine is expressed as
//! a step function from the current state and one I/O event to the next
//! state and the next I/O action; the unverified front end performs each
//! action against the socket and feeds the outcome back in.  Within one
//! connection exactly one command is in flight at a time: the machine asks
//! for the next read only after the previous reply was written.

use vstd::prelude::*;

use crate::dispatch::{dispatch, lemma_dispatch_reply_wf, spec_dispatch, Signal};
use crate::reply::{send_reply, spec_reply_line, Reply, ReplyV};
use crate::session::{Session, SessionV};

verus! {

/// The lifecycle states of a connection worker.
#[derive(Clone, Copy, PartialEq, Eq, Structural, Debug)]
pub enum WorkerState {
    /// The greeting has not been written yet.
    Greeting,
    /// Awaiting the next command.
    Ready,
    /// The close-triggering reply has been handed out; the connection is
    /// shutting down.
    Closing,
    /// Terminal: the connection is released.
    Closed,
}

/// One I/O outcome fed into the state machine.
#[derive(Debug)]
pub enum Event {
    /// The worker has just started; nothing has happened yet.
    Start,
    /// The last requested write succeeded and was flushed.
    WriteOk,
    /// The last requested write failed.
    WriteFailed,
    /// A command line arrived (terminator already stripped).
    Line(String),
    /// The peer closed the connection in an orderly way.
    ReadClosed,
    /// The read failed with a transport error.
    ReadFailed,
}

/// Mathematical model of an event.
pub enum EventV {
    Start,
    WriteOk,
    WriteFailed,
    Line(Seq<char>),
    ReadClosed,
    ReadFailed,
}

impl View for Event {
    type V = EventV;

    open spec fn view(&self) -> EventV {
        match self {
            Event::Start => EventV::Start,
            Event::WriteOk => EventV::WriteOk,
            Event::WriteFailed => EventV::WriteFailed,
            Event::Line(l) => EventV::Line(l@),
            Event::ReadClosed => EventV::ReadClosed,
            Event::ReadFailed => EventV::ReadFailed,
        }
    }
}

/// What the state machine asks its driver to do next.
#[derive(Debug)]
pub enum Action {
    /// Write this wire line and flush it, then report the outcome.
    Send(String),
    /// Read the next command line and report the outcome.
    Read,
    /// Close the connection; the worker is done.
    Close,
}

/// Mathematical model of an action.
pub enum ActionV {
    Send(Seq<char>),
    Read,
    Close,
}

impl View for Action {
    type V = ActionV;

    open spec fn view(&self) -> ActionV {
        match self {
            Action::Send(w) => ActionV::Send(w@),
            Action::Read => ActionV::Read,
            Action::Close => ActionV::Close,
        }
    }
}

/// The greeting sent when a connection is accepted.
pub open spec fn greeting_reply() -> ReplyV {
    ReplyV { code: 220, message: "Service ready for new user."@ }
}

/// One step of the connection worker: from the current state, the session,
/// and one event to the next state, the session afterwards, and the next
/// action.  Any event that its state does not expect — and any transport
/// failure — tears the connection down: the worker moves to `Closed` and
/// the connection is closed, never left open.
pub open spec fn spec_worker(state: WorkerState, s: SessionV, e: EventV) -> (
    WorkerState,
    SessionV,
    ActionV,
) {
    match (state, e) {
        (WorkerState::Greeting, EventV::Start) => (
            WorkerState::Greeting,
            s,
            ActionV::Send(spec_reply_line(greeting_reply())),
        ),
        (WorkerState::Greeting, EventV::WriteOk) => (WorkerState::Ready, s, ActionV::Read),
        (WorkerState::Ready, EventV::Line(l)) => {
            let (rep, sig, s2) = spec_dispatch(l, s);
            let next = if sig == Signal::Close {
                WorkerState::Closing
            } else {
                WorkerState::Ready
            };
            (next, s2, ActionV::Send(spec_reply_line(rep)))
        },
        (WorkerState::Ready, EventV::WriteOk) => (WorkerState::Ready, s, ActionV::Read),
        _ => (WorkerState::Closed, s, ActionV::Close),
    }
}

/// Connection Worker step function.  The unverified driver starts with
/// `WorkerState::Greeting` and `Event::Start`, performs each returned
/// action, feeds the outcome back in as the next event, and stops when
/// the action is `Close`.
pub fn worker(state: WorkerState, event: Event, session: &mut Session) -> (r: (
    WorkerState,
    Action,
))
    ensures
        ({
            let (next, s2, a) = spec_worker(state, old(session)@, event@);
            r.0 == next && final(session)@ == s2 && r.1@ == a
        }),
{
    match state {
        WorkerState::Greeting => match event {
            Event::Start => {
                let greeting = Reply {
                    code: 220,
                    message: String::from_str("Service ready for new user."),
                };
                let wire = send_reply(&greeting);
                (WorkerState::Greeting, Action::Send(wire))
            },
            Event::WriteOk => (WorkerState::Ready, Action::Read),
            _ => (WorkerState::Closed, Action::Close),
        },
        WorkerState::Ready => match event {
            Event::Line(l) => {
                let (reply, signal) = dispatch(session, l.as_str());
                proof {
                    lemma_dispatch_reply_wf(l@, old(session)@);
                }
                let wire = send_reply(&reply);
                match signal {
                    Signal::Close => (WorkerState::Closing, Action::Send(wire)),
                    Signal::Continue => (WorkerState::Ready, Action::Send(wire)),
                }
            },
            Event::WriteOk => (WorkerState::Ready, Action::Read),
            _ => (WorkerState::Closed, Action::Close),
        },
        WorkerState::Closing => (WorkerState::Closed, Action::Close),
        WorkerState::Closed => (WorkerState::Closed, Action::Close),
    }
}

} // verus!
