//! Per-connection session state.
//!
//! One session is created when a connection worker starts, is mutated only
//! by that worker, and is destroyed when the worker exits.  Isolation
//! between connections rests on ownership: no session is ever shared.

use vstd::prelude::*;

verus! {

/// Vertical format control accompanying a textual transfer mode.
#[derive(Clone, Copy, PartialEq, Eq, Structural, Debug)]
pub enum FormatControl {
    NonPrint,
    Telnet,
    Carriage,
}

/// The negotiated representation type for data transfers.
#[derive(Clone, Copy, PartialEq, Eq, Structural, Debug)]
pub enum TransferMode {
    Ascii(FormatControl),
    Ebcdic(FormatControl),
    Image,
    Local,
}

/// An opaque handle to a working directory; the handle `DirHandle(0)`
/// stands for the root directory.  Path resolution is an external
/// collaborator, so the library only carries the handle.
#[derive(Clone, Copy, PartialEq, Eq, Structural, Debug)]
pub struct DirHandle(pub u64);

/// Session state owned by exactly one connection worker.
#[derive(Debug)]
pub struct Session {
    pub authenticated: bool,
    pub username: Option<String>,
    pub transfer_mode: TransferMode,
    pub current_directory: DirHandle,
}

/// Mathematical model of a session: the username as a character sequence.
pub struct SessionV {
    pub authenticated: bool,
    pub username: Option<Seq<char>>,
    pub transfer_mode: TransferMode,
    pub current_directory: DirHandle,
}

impl View for Session {
    type V = SessionV;

    open spec fn view(&self) -> SessionV {
        SessionV {
            authenticated: self.authenticated,
            username: match self.username {
                Some(u) => Some(u@),
                None => None,
            },
            transfer_mode: self.transfer_mode,
            current_directory: self.current_directory,
        }
    }
}

/// The state every session starts in: unauthenticated, no username,
/// ASCII non-print transfer mode, root working directory.
pub open spec fn initial_session() -> SessionV {
    SessionV {
        authenticated: false,
        username: None,
        transfer_mode: TransferMode::Ascii(FormatControl::NonPrint),
        current_directory: DirHandle(0),
    }
}

impl Session {
    /// Create the session for a freshly accepted connection.
    pub fn new() -> (s: Session)
        ensures
            s@ == initial_session(),
    {
        Session {
            authenticated: false,
            username: None,
            transfer_mode: TransferMode::Ascii(FormatControl::NonPrint),
            current_directory: DirHandle(0),
        }
    }
}

} // verus!
