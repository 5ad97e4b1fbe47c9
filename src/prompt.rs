//! The confirmation prompt: which lines the operator may answer with.

use vstd::prelude::*;
use vstd::string::*;

verus! {

/// What `str::trim_end` leaves of a line: the line without its trailing
/// whitespace, as Unicode defines whitespace.
pub uninterp spec fn trim_end_of(s: Seq<char>) -> Seq<char>;

/// Relies on `str::trim_end`: the result is the line with its trailing
/// whitespace (the newline among it) removed, and depends on the line alone.
#[verifier::external_body]
fn trim_line_end<'a>(s: &'a str) -> (r: &'a str)
    ensures
        r@ == trim_end_of(s@),
{
    s.trim_end()
}

/// The texts of a list of tokens.
pub open spec fn token_texts(tokens: Seq<&str>) -> Seq<Seq<char>> {
    tokens.map_values(|t: &str| t@)
}

/// Whether two texts hold the same characters, in the same order.
pub fn same_text(a: &str, b: &str) -> (r: bool)
    ensures
        r == (a@ == b@),
{
    let n = a.unicode_len();
    if n != b.unicode_len() {
        return false;
    }
    let mut i: usize = 0;
    while i < n
        invariant
            n == a@.len(),
            n == b@.len(),
            i <= n,
            forall|j: int| 0 <= j < i ==> a@[j] == b@[j],
        decreases n - i,
    {
        if a.get_char(i) != b.get_char(i) {
            return false;
        }
        i += 1;
    }
    assert(a@ =~= b@);
    true
}

/// Whether an already trimmed answer is one of the accepted tokens: an exact,
/// case-sensitive match of the whole text.
pub fn is_accepted(answer: &str, tokens: &[&str]) -> (r: bool)
    ensures
        r == token_texts(tokens@).contains(answer@),
{
    let mut i: usize = 0;
    while i < tokens.len()
        invariant
            i <= tokens@.len(),
            forall|j: int| 0 <= j < i ==> tokens@[j]@ != answer@,
        decreases tokens@.len() - i,
    {
        if same_text(tokens[i], answer) {
            assert(token_texts(tokens@)[i as int] == answer@);
            return true;
        }
        i += 1;
    }
    assert(!token_texts(tokens@).contains(answer@)) by {
        if token_texts(tokens@).contains(answer@) {
            let k = choose|k: int| 0 <= k < token_texts(tokens@).len()
                && token_texts(tokens@)[k] == answer@;
            assert(tokens@[k]@ == answer@);
        }
    }
    false
}

/// Reads one line of the operator's input against the accepted tokens: the line
/// with its trailing whitespace removed is the answer if it is one of them,
/// and otherwise the line is rejected (`None`) and the caller asks again.
pub fn accept_line(line: &str, tokens: &[&str]) -> (r: Option<String>)
    ensures
        r is Some <==> token_texts(tokens@).contains(trim_end_of(line@)),
        r matches Some(t) ==> t@ == trim_end_of(line@),
{
    let answer = trim_line_end(line);
    if is_accepted(answer, tokens) {
        Some(answer.to_owned())
    } else {
        None
    }
}

} // verus!
