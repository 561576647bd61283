//! Reply encoding: a numeric status code and a message become one wire
//! line `"DDD message\r\n"`.

use vstd::prelude::*;

verus! {

/// A protocol reply: a three-digit status code and a human-readable
/// message.  A reply is transient; it is produced by a handler and
/// immediately encoded and written.
#[derive(Debug)]
pub struct Reply {
    pub code: u16,
    pub message: String,
}

/// Mathematical model of a reply.
pub struct ReplyV {
    pub code: int,
    pub message: Seq<char>,
}

impl View for Reply {
    type V = ReplyV;

    open spec fn view(&self) -> ReplyV {
        ReplyV { code: self.code as int, message: self.message@ }
    }
}

impl ReplyV {
    /// A reply is well formed when its code is a three-digit code in the
    /// classes 1xx through 5xx.
    pub open spec fn wf(self) -> bool {
        100 <= self.code <= 599
    }
}

/// The character for one decimal digit.
pub open spec fn digit_char(d: int) -> char {
    if d == 0 {
        '0'
    } else if d == 1 {
        '1'
    } else if d == 2 {
        '2'
    } else if d == 3 {
        '3'
    } else if d == 4 {
        '4'
    } else if d == 5 {
        '5'
    } else if d == 6 {
        '6'
    } else if d == 7 {
        '7'
    } else if d == 8 {
        '8'
    } else {
        '9'
    }
}

/// The wire form of a reply: the three code digits, one space, the
/// message, and the line terminator.
pub open spec fn spec_reply_line(r: ReplyV) -> Seq<char> {
    seq![
        digit_char(r.code / 100),
        digit_char((r.code / 10) % 10),
        digit_char(r.code % 10),
        ' ',
    ] + r.message + seq!['\r', '\n']
}

/// One decimal digit as a string slice.
fn digit_str(d: u16) -> (s: &'static str)
    requires
        d <= 9,
    ensures
        s@ == seq![digit_char(d as int)],
{
    proof {
        reveal_strlit("0");
        reveal_strlit("1");
        reveal_strlit("2");
        reveal_strlit("3");
        reveal_strlit("4");
        reveal_strlit("5");
        reveal_strlit("6");
        reveal_strlit("7");
        reveal_strlit("8");
        reveal_strlit("9");
    }
    let s: &'static str = if d == 0 {
        "0"
    } else if d == 1 {
        "1"
    } else if d == 2 {
        "2"
    } else if d == 3 {
        "3"
    } else if d == 4 {
        "4"
    } else if d == 5 {
        "5"
    } else if d == 6 {
        "6"
    } else if d == 7 {
        "7"
    } else if d == 8 {
        "8"
    } else {
        "9"
    };
    proof {
        assert(s@ =~= seq![digit_char(d as int)]);
    }
    s
}

/// Reply Encoder: format a reply as the one wire line that is to be
/// written and flushed for it.  Writing the line to the socket is the
/// caller's concern; this function is pure formatting.
pub fn send_reply(reply: &Reply) -> (wire: String)
    requires
        reply@.wf(),
    ensures
        wire@ == spec_reply_line(reply@),
{
    let code = reply.code;
    let mut wire = String::new();
    wire.append(digit_str(code / 100));
    wire.append(digit_str((code / 10) % 10));
    wire.append(digit_str(code % 10));
    wire.append(" ");
    wire.append(reply.message.as_str());
    wire.append("\r\n");
    proof {
        reveal_strlit(" ");
        reveal_strlit("\r\n");
        assert(wire@ =~= spec_reply_line(reply@));
    }
    wire
}

} // verus!
