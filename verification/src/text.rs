//! Plain-text helpers: string equality and description normalization.

use vstd::prelude::*;
use vstd::string::StrSliceExecFns;

verus! {

/// Relies on std's `String::push`: appends the given character to the end of
/// the string.
#[verifier::external_body]
pub(crate) fn push_char(s: &mut String, c: char)
    ensures
        final(s)@ == old(s)@.push(c),
{
    s.push(c)
}

/// Character-by-character string equality.
pub fn str_eq(a: &str, b: &str) -> (r: bool)
    ensures
        r == (a@ == b@),
{
    let a_len = a.unicode_len();
    let b_len = b.unicode_len();
    if a_len != b_len {
        return false;
    }
    for i in 0..a_len
        invariant
            a_len == a@.len(),
            b_len == b@.len(),
            a_len == b_len,
            forall|j: int| 0 <= j < i ==> a@[j] == b@[j],
    {
        if a.get_char(i) != b.get_char(i) {
            return false;
        }
    }
    proof {
        assert(a@ =~= b@);
    }
    true
}

/// One character of the normalization: newlines and form feeds read as spaces.
pub open spec fn norm_char(c: char) -> char {
    if c == '\n' || c == '\x0C' {
        ' '
    } else {
        c
    }
}

/// A sequence of characters with newlines and form feeds read as spaces.
pub open spec fn norm_seq(s: Seq<char>) -> Seq<char> {
    s.map_values(|c: char| norm_char(c))
}

/// Runs of spaces collapsed to a single space. `prev_space` says whether the
/// character just before `s` was a space.
pub open spec fn collapse_spaces(s: Seq<char>, prev_space: bool) -> Seq<char>
    decreases s.len(),
{
    if s.len() == 0 {
        Seq::empty()
    } else if s[0] == ' ' && prev_space {
        collapse_spaces(s.drop_first(), true)
    } else {
        seq![s[0]] + collapse_spaces(s.drop_first(), s[0] == ' ')
    }
}

/// A normalized description: newlines and form feeds replaced with spaces and
/// internal runs of spaces collapsed to a single space.
pub open spec fn normalized(s: Seq<char>) -> Seq<char> {
    collapse_spaces(norm_seq(s), false)
}

/// Normalizes a description into single-line text: newlines and form feeds
/// become spaces, and runs of spaces collapse to one space.
pub fn normalize_description(s: &str) -> (r: String)
    ensures
        r@ == normalized(s@),
{
    let n = s.unicode_len();
    let mut out = String::new();
    let mut prev_space = false;
    proof {
        assert(norm_seq(s@).skip(0) =~= norm_seq(s@));
    }
    for i in 0..n
        invariant
            n == s@.len(),
            normalized(s@) == out@ + collapse_spaces(norm_seq(s@).skip(i as int), prev_space),
    {
        let c = s.get_char(i);
        let d = if c == '\n' || c == '\x0C' {
            ' '
        } else {
            c
        };
        proof {
            assert(norm_seq(s@).skip(i as int)[0] == d);
            assert(norm_seq(s@).skip(i as int).drop_first() =~= norm_seq(s@).skip(i + 1));
        }
        if d == ' ' && prev_space {
            // A space after a space: the run collapses, nothing is emitted.
        } else {
            let ghost old_out = out@;
            push_char(&mut out, d);
            proof {
                assert(out@ =~= old_out + seq![d]);
                assert(old_out + (seq![d] + collapse_spaces(
                    norm_seq(s@).skip(i + 1),
                    d == ' ',
                )) =~= out@ + collapse_spaces(norm_seq(s@).skip(i + 1), d == ' '));
            }
        }
        prev_space = d == ' ';
    }
    proof {
        assert(norm_seq(s@).skip(n as int) =~= Seq::<char>::empty());
        assert(out@ + collapse_spaces(norm_seq(s@).skip(n as int), prev_space) =~= out@);
    }
    out
}

} // verus!
