//! Command Reader: classify the outcome of reading one line from the
//! control connection and strip the line terminator.
//!
//! The blocking read itself is I/O and stays outside the library; it hands
//! in whether the read succeeded and, when it did, how many bytes arrived
//! and the buffer they filled.  Zero bytes at end of stream mean the peer
//! closed the connection in an orderly way, which is the normal
//! termination path, distinct from a transport failure.

use vstd::prelude::*;

verus! {

/// Why no command line could be read.
#[derive(Clone, Copy, PartialEq, Eq, Structural, Debug)]
pub enum ReadError {
    /// The peer closed the connection gracefully (zero bytes at end of
    /// stream).
    ConnectionClosed,
    /// Any other read failure (reset, timeout).
    IoError,
}

/// A line with its trailing terminator removed: a final `"\r\n"` is
/// dropped, a final bare `'\n'` likewise; anything else is kept as is.
pub open spec fn strip_line_terminator(s: Seq<char>) -> Seq<char> {
    if s.len() >= 2 && s[s.len() - 2] == '\r' && s[s.len() - 1] == '\n' {
        s.subrange(0, s.len() - 2)
    } else if s.len() >= 1 && s[s.len() - 1] == '\n' {
        s.subrange(0, s.len() - 1)
    } else {
        s
    }
}

/// Command Reader: turn the raw outcome of one line read into either the
/// line content (terminator stripped) or the distinct failure.
///
/// `read_ok` says whether the read call itself succeeded; `bytes_read` is
/// the number of bytes it appended to `line`.
pub fn receive_command(read_ok: bool, bytes_read: usize, line: String) -> (r: Result<
    String,
    ReadError,
>)
    ensures
        !read_ok ==> r == Err::<String, ReadError>(ReadError::IoError),
        read_ok && bytes_read == 0 ==> r == Err::<String, ReadError>(ReadError::ConnectionClosed),
        read_ok && bytes_read > 0 ==> (r matches Ok(l) && l@ == strip_line_terminator(line@)),
{
    if !read_ok {
        return Err(ReadError::IoError);
    }
    if bytes_read == 0 {
        return Err(ReadError::ConnectionClosed);
    }
    let n = line.as_str().unicode_len();
    let end: usize = if n >= 1 && line.as_str().get_char(n - 1) == '\n' {
        if n >= 2 && line.as_str().get_char(n - 2) == '\r' {
            n - 2
        } else {
            n - 1
        }
    } else {
        n
    };
    let stripped = String::from_str(line.as_str().substring_char(0, end));
    proof {
        assert(stripped@ =~= strip_line_terminator(line@));
    }
    Ok(stripped)
}

} // verus!
