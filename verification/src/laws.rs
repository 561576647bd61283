//! The protocol's guarantees, stated and proved over the models that the
//! dispatcher and the worker state machine are specified with.

use vstd::prelude::*;

use crate::dispatch::{spec_dispatch, Signal};
use crate::parser::spec_tokens;
use crate::reply::spec_reply_line;
use crate::session::SessionV;
use crate::worker::{spec_worker, ActionV, EventV, WorkerState};

verus! {

/// Every well-formed `USER <name>` command replies with code 230, keeps
/// the connection open, and leaves a session that records `<name>` and is
/// authenticated, with all other session state unchanged.
pub proof fn lemma_user_wellformed(line: Seq<char>, s: SessionV)
    requires
        spec_tokens(line).len() == 2,
        spec_tokens(line)[0] == "USER"@,
    ensures
        ({
            let (rep, sig, s2) = spec_dispatch(line, s);
            &&& rep.code == 230
            &&& sig == Signal::Continue
            &&& s2.username == Some(spec_tokens(line)[1])
            &&& s2.authenticated
            &&& s2.transfer_mode == s.transfer_mode
            &&& s2.current_directory == s.current_directory
        }),
{
}

/// A `USER` command with zero or two or more parameters replies with code
/// 501 and leaves the session unchanged.
pub proof fn lemma_user_bad_arity(line: Seq<char>, s: SessionV)
    requires
        spec_tokens(line).len() >= 1,
        spec_tokens(line)[0] == "USER"@,
        spec_tokens(line).len() != 2,
    ensures
        ({
            let (rep, sig, s2) = spec_dispatch(line, s);
            &&& rep.code == 501
            &&& sig == Signal::Continue
            &&& s2 == s
        }),
{
}

/// `QUIT` with zero parameters replies with code 221 and closes the
/// connection: the worker leaves `Ready` for `Closing` while handing out
/// exactly that reply line, and from `Closing` every following step goes
/// to `Closed` without ever asking for another read — no further command
/// is read after the closing reply.
pub proof fn lemma_quit_closes(line: Seq<char>, s: SessionV, later: EventV)
    requires
        spec_tokens(line) =~= seq!["QUIT"@],
    ensures
        ({
            let (rep, sig, s2) = spec_dispatch(line, s);
            &&& rep.code == 221
            &&& sig == Signal::Close
            &&& s2 == s
            &&& spec_worker(WorkerState::Ready, s, EventV::Line(line)) == (
                WorkerState::Closing,
                s,
                ActionV::Send(spec_reply_line(rep)),
            )
        }),
        spec_worker(WorkerState::Closing, s, later).0 == WorkerState::Closed,
        !(spec_worker(WorkerState::Closing, s, later).2 is Read),
        !(spec_worker(WorkerState::Closed, s, later).2 is Read),
{
    reveal_strlit("USER");
    reveal_strlit("QUIT");
    assert("USER"@[0] == 'U' && "QUIT"@[0] == 'Q');
    assert("QUIT"@ != "USER"@);
}

/// Any action outside the handler table replies with code 500, whatever
/// its parameter count, keeps the connection open, and leaves the session
/// unchanged.
pub proof fn lemma_unknown_action(line: Seq<char>, s: SessionV)
    requires
        spec_tokens(line).len() == 0 || (spec_tokens(line)[0] != "USER"@ && spec_tokens(line)[0]
            != "QUIT"@),
    ensures
        ({
            let (rep, sig, s2) = spec_dispatch(line, s);
            &&& rep.code == 500
            &&& sig == Signal::Continue
            &&& s2 == s
        }),
{
}

/// When the peer has closed the connection (or the read failed), the
/// worker goes straight from `Ready` to `Closed` and only closes the
/// connection: it neither writes a reply nor reads again.
pub proof fn lemma_peer_gone_no_reply(s: SessionV)
    ensures
        spec_worker(WorkerState::Ready, s, EventV::ReadClosed) == (
            WorkerState::Closed,
            s,
            ActionV::Close,
        ),
        spec_worker(WorkerState::Ready, s, EventV::ReadFailed) == (
            WorkerState::Closed,
            s,
            ActionV::Close,
        ),
{
}

} // verus!
