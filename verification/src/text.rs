//! Comparing and building text, one character at a time.

use vstd::prelude::*;
use vstd::std_specs::iter::IteratorSpec;

verus! {

/// How a text relates to a would-be prefix of it.
#[derive(Clone, Copy, Debug, PartialEq, Eq, Structural)]
pub enum PrefixMatch {
    /// The text does not begin with the prefix.
    Missing,
    /// The text is the prefix, character for character.
    Whole,
    /// The text begins with the prefix and goes on with this character.
    Proper(char),
}

/// How `text` relates to `prefix`.
pub open spec fn prefix_match(text: Seq<char>, prefix: Seq<char>) -> PrefixMatch {
    if !prefix.is_prefix_of(text) {
        PrefixMatch::Missing
    } else if prefix.len() == text.len() {
        PrefixMatch::Whole
    } else {
        PrefixMatch::Proper(text[prefix.len() as int])
    }
}

/// A prefix as long as the text is the text.
pub proof fn whole_prefix_is_equal(text: Seq<char>, prefix: Seq<char>)
    ensures
        prefix_match(text, prefix) == PrefixMatch::Whole <==> text == prefix,
{
    if prefix.is_prefix_of(text) && prefix.len() == text.len() {
        assert(text =~= prefix);
    }
}

/// Walks both texts in step and reports whether `prefix` begins `text`.
pub fn match_prefix(text: &str, prefix: &str) -> (out: PrefixMatch)
    ensures
        out == prefix_match(text@, prefix@),
{
    let mut rest = text.chars();
    let mut want = prefix.chars();
    let ghost mut seen: int = 0;
    loop
        invariant
            0 <= seen <= prefix@.len(),
            seen <= text@.len(),
            rest.remaining() == text@.skip(seen),
            want.remaining() == prefix@.skip(seen),
            text@.take(seen) == prefix@.take(seen),
            rest.decrease() is Some,
            want.decrease() is Some,
        decreases prefix@.len() - seen,
    {
        match want.next() {
            None => {
                assert(prefix@ == prefix@.take(seen));
                return match rest.next() {
                    None => PrefixMatch::Whole,
                    Some(next) => PrefixMatch::Proper(next),
                };
            },
            Some(wanted) => {
                match rest.next() {
                    None => {
                        return PrefixMatch::Missing;
                    },
                    Some(found) => {
                        if found != wanted {
                            return PrefixMatch::Missing;
                        }
                        proof {
                            seen = seen + 1;
                        }
                    },
                }
            },
        }
    }
}

/// Whether two texts are the same.
pub fn same_text(left: &str, right: &str) -> (out: bool)
    ensures
        out == (left@ == right@),
{
    proof {
        whole_prefix_is_equal(left@, right@);
    }
    match match_prefix(left, right) {
        PrefixMatch::Whole => true,
        _ => false,
    }
}

/// Whether the last character of a text is `c`.
pub fn ends_with(text: &str, c: char) -> (out: bool)
    ensures
        out == (text@.len() > 0 && text@.last() == c),
{
    let mut out = false;
    for found in it: text.chars()
        invariant
            it.seq() == text@,
            out == (it.index() > 0 && text@[it.index() - 1] == c),
    {
        out = found == c;
    }
    out
}

/// `String::push` of the standard library: the text grows by exactly the
/// character given, at its end.
#[verifier::external_body]
pub(crate) fn push_char(text: &mut String, c: char)
    ensures
        final(text)@ == old(text)@.push(c),
{
    text.push(c)
}

} // verus!
