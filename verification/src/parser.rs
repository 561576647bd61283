//! Command Parser: split a raw command line into whitespace-separated
//! tokens.  The first token is the action, the remaining tokens are its
//! positional parameters; splitting the token list that way is the
//! dispatcher's concern.  No quoting or escaping semantics exist at this
//! layer.

use vstd::prelude::*;

verus! {

/// The characters that separate tokens.
pub open spec fn is_ws(c: char) -> bool {
    c == ' ' || c == '\t' || c == '\r' || c == '\n'
}

/// The length of the leading run of non-whitespace characters.
pub open spec fn token_end(s: Seq<char>) -> int
    decreases s.len(),
{
    if s.len() == 0 {
        0
    } else if is_ws(s[0]) {
        0
    } else {
        1 + token_end(s.skip(1))
    }
}

/// `token_end(s)` is the index of the first whitespace character of `s`,
/// or `s.len()` when there is none.
pub proof fn lemma_token_end(s: Seq<char>)
    ensures
        0 <= token_end(s) <= s.len(),
        forall|k: int| 0 <= k < token_end(s) ==> !is_ws(s[k]),
        token_end(s) < s.len() ==> is_ws(s[token_end(s)]),
    decreases s.len(),
{
    if s.len() == 0 || is_ws(s[0]) {
    } else {
        lemma_token_end(s.skip(1));
        assert forall|k: int| 0 <= k < token_end(s) implies !is_ws(s[k]) by {
            if k >= 1 {
                assert(s[k] == s.skip(1)[k - 1]);
            }
        }
        if token_end(s) < s.len() {
            assert(s[token_end(s)] == s.skip(1)[token_end(s.skip(1))]);
        }
    }
}

/// The whitespace-separated tokens of a line, in order.  A run of
/// whitespace separates tokens; leading and trailing whitespace is
/// ignored; the empty line has no tokens.
pub open spec fn spec_tokens(s: Seq<char>) -> Seq<Seq<char>>
    decreases s.len(),
{
    if s.len() == 0 {
        Seq::empty()
    } else if is_ws(s[0]) {
        spec_tokens(s.skip(1))
    } else {
        let j = token_end(s);
        proof {
            lemma_token_end(s);
        }
        seq![s.subrange(0, j)] + spec_tokens(s.skip(j))
    }
}

/// Whether `c` separates tokens.
fn is_whitespace(c: char) -> (r: bool)
    ensures
        r == is_ws(c),
{
    c == ' ' || c == '\t' || c == '\r' || c == '\n'
}

/// Command Parser: the whitespace-separated tokens of one command line,
/// in order of appearance.
pub fn command_iterator(command: &str) -> (tokens: Vec<String>)
    ensures
        tokens.deep_view() == spec_tokens(command@),
{
    let n = command.unicode_len();
    let mut tokens: Vec<String> = Vec::new();
    let mut i: usize = 0;
    proof {
        assert(command@.skip(0) =~= command@);
        assert(tokens.deep_view() =~= Seq::<Seq<char>>::empty());
    }
    while i < n
        invariant
            n == command@.len(),
            i <= n,
            spec_tokens(command@) == tokens.deep_view() + spec_tokens(command@.skip(i as int)),
        decreases n - i,
    {
        let ghost prev = tokens.deep_view();
        let c = command.get_char(i);
        if is_whitespace(c) {
            proof {
                assert(command@.skip(i as int).skip(1) =~= command@.skip(i as int + 1));
            }
            i = i + 1;
        } else {
            let start = i;
            i = i + 1;
            while i < n && !is_whitespace(command.get_char(i))
                invariant
                    n == command@.len(),
                    start < i <= n,
                    !is_ws(command@[start as int]),
                    forall|k: int| start <= k < i ==> !is_ws(#[trigger] command@[k]),
                decreases n - i,
            {
                i = i + 1;
            }
            proof {
                let t = command@.skip(start as int);
                lemma_token_end(t);
                assert forall|k: int| start <= k < i implies !is_ws(#[trigger] t[k - start]) by {
                    assert(t[k - start] == command@[k]);
                }
                if token_end(t) < i - start {
                    assert(!is_ws(t[token_end(t)]));
                    assert(false);
                }
                if token_end(t) > i - start {
                    assert(!is_ws(t[i - start]));
                    if i < n {
                        assert(t[i - start] == command@[i as int]);
                        assert(false);
                    }
                }
                assert(token_end(t) == i - start);
            }
            let tok = String::from_str(command.substring_char(start, i));
            tokens.push(tok);
            proof {
                let t = command@.skip(start as int);
                let j = i - start;
                assert(tok@ =~= t.subrange(0, j as int));
                assert(t.skip(j as int) =~= command@.skip(i as int));
                assert(spec_tokens(t) == seq![t.subrange(0, j as int)] + spec_tokens(
                    command@.skip(i as int),
                ));
                assert(tokens.deep_view() =~= prev.push(tok@));
                assert(prev + spec_tokens(t) =~= tokens.deep_view() + spec_tokens(
                    command@.skip(i as int),
                ));
            }
        }
    }
    proof {
        assert(command@.skip(n as int) =~= Seq::<char>::empty());
        assert(tokens.deep_view() + spec_tokens(Seq::<char>::empty()) =~= tokens.deep_view());
    }
    tokens
}

} // verus!
