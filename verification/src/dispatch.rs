//! Dispatcher: map one command line to a handler, let the handler
//! validate its own parameter arity and read or mutate the session, and
//! return the reply together with an explicit continue/close signal.
//!
//! Action names are matched case-sensitively.  An action that is not in
//! the handler table yields code 500; a known action with the wrong
//! parameter count yields code 501 from its own handler.

use vstd::prelude::*;

use crate::parser::{command_iterator, spec_tokens};
use crate::reply::{Reply, ReplyV};
use crate::session::{Session, SessionV};

verus! {

/// Whether the connection stays open after the reply is written.
#[derive(Clone, Copy, PartialEq, Eq, Structural, Debug)]
pub enum Signal {
    Continue,
    Close,
}

/// What dispatching one command line does: the reply, the signal, and the
/// session as it is afterwards.
pub open spec fn spec_dispatch(line: Seq<char>, s: SessionV) -> (ReplyV, Signal, SessionV) {
    let ts = spec_tokens(line);
    if ts.len() > 0 && ts[0] == "USER"@ {
        if ts.len() == 2 {
            (
                ReplyV { code: 230, message: "User logged in, proceed."@ },
                Signal::Continue,
                SessionV { authenticated: true, username: Some(ts[1]), ..s },
            )
        } else {
            (
                ReplyV { code: 501, message: "Syntax error in parameters or arguments."@ },
                Signal::Continue,
                s,
            )
        }
    } else if ts.len() > 0 && ts[0] == "QUIT"@ {
        if ts.len() == 1 {
            (
                ReplyV { code: 221, message: "Service closing control connection."@ },
                Signal::Close,
                s,
            )
        } else {
            (
                ReplyV { code: 501, message: "Syntax error in parameters or arguments."@ },
                Signal::Continue,
                s,
            )
        }
    } else {
        (
            ReplyV { code: 500, message: "Syntax error, command unrecognized."@ },
            Signal::Continue,
            s,
        )
    }
}

/// Every reply the dispatcher produces carries a valid three-digit code.
pub proof fn lemma_dispatch_reply_wf(line: Seq<char>, s: SessionV)
    ensures
        spec_dispatch(line, s).0.wf(),
{
}

/// Handler for `USER <name>`: record the name and mark the session
/// authenticated.  Authentication is deliberately single-step: every user
/// is accepted without a password exchange, since credential checking is
/// an external collaborator.
pub fn user(session: &mut Session, username: &str) -> (reply: Reply)
    ensures
        final(session)@ == (SessionV {
            authenticated: true,
            username: Some(username@),
            ..old(session)@
        }),
        reply@ == (ReplyV { code: 230, message: "User logged in, proceed."@ }),
{
    session.authenticated = true;
    session.username = Some(String::from_str(username));
    Reply { code: 230, message: String::from_str("User logged in, proceed.") }
}

/// Dispatcher: parse one command line, run its handler against the
/// session, and return the reply and the continue/close signal.
pub fn dispatch(session: &mut Session, line: &str) -> (r: (Reply, Signal))
    ensures
        ({
            let (rep, sig, s2) = spec_dispatch(line@, old(session)@);
            r.0@ == rep && r.1 == sig && final(session)@ == s2
        }),
{
    let tokens = command_iterator(line);
    let user_name = String::from_str("USER");
    let quit_name = String::from_str("QUIT");
    if tokens.len() > 0 && tokens[0] == user_name {
        if tokens.len() == 2 {
            let reply = user(session, tokens[1].as_str());
            (reply, Signal::Continue)
        } else {
            (
                Reply {
                    code: 501,
                    message: String::from_str("Syntax error in parameters or arguments."),
                },
                Signal::Continue,
            )
        }
    } else if tokens.len() > 0 && tokens[0] == quit_name {
        if tokens.len() == 1 {
            (
                Reply {
                    code: 221,
                    message: String::from_str("Service closing control connection."),
                },
                Signal::Close,
            )
        } else {
            (
                Reply {
                    code: 501,
                    message: String::from_str("Syntax error in parameters or arguments."),
                },
                Signal::Continue,
            )
        }
    } else {
        (
            Reply { code: 500, message: String::from_str("Syntax error, command unrecognized.") },
            Signal::Continue,
        )
    }
}

} // verus!
