//! Heuristic token estimator.
//!
//! A maximal run of alphanumeric characters or underscores counts as one
//! token; every other non-whitespace character counts as one token of its
//! own; whitespace contributes nothing.  This is a deliberately crude,
//! deterministic proxy for language-model subword tokenization, used only
//! to produce a comparative percentage in the statistics operation.

use crate::text::chars_of;
use vstd::prelude::*;

verus! {

/// Whether `char::is_alphanumeric` holds of `c`.
///
/// The Unicode alphanumeric classification is far too large to write out;
/// it depends on the character alone, so it is only named here.
pub uninterp spec fn is_alnum(c: char) -> bool;

/// Whether `char::is_whitespace` holds of `c`.
///
/// As with [`is_alnum`], the Unicode whitespace classification is named,
/// not written out.
pub uninterp spec fn is_white(c: char) -> bool;

/// Relies on `char::is_alphanumeric`: the Unicode alphanumeric
/// classification of a single character.
#[verifier::external_body]
fn char_is_alnum(c: char) -> (r: bool)
    ensures
        r == is_alnum(c),
{
    c.is_alphanumeric()
}

/// Relies on `char::is_whitespace`: the Unicode whitespace classification
/// of a single character.
#[verifier::external_body]
fn char_is_white(c: char) -> (r: bool)
    ensures
        r == is_white(c),
{
    c.is_whitespace()
}

/// A character that continues (or opens) a word-like token run.
pub open spec fn is_word_char(c: char) -> bool {
    is_alnum(c) || c == '_'
}

/// Token count of `s`, scanning from the front, given whether the scan
/// is currently inside a word-like run.
pub open spec fn token_count_from(s: Seq<char>, in_word: bool) -> nat
    decreases s.len(),
{
    if s.len() == 0 {
        0
    } else if is_word_char(s[0]) {
        (if in_word {
            0nat
        } else {
            1nat
        }) + token_count_from(s.drop_first(), true)
    } else if is_white(s[0]) {
        token_count_from(s.drop_first(), false)
    } else {
        1 + token_count_from(s.drop_first(), false)
    }
}

/// The estimated token count of a text.
pub open spec fn token_count(s: Seq<char>) -> nat {
    token_count_from(s, false)
}

/// Estimate the language-model token count of a text.
pub fn estimate_tokens(text: &str) -> (count: usize)
    ensures
        count == token_count(text@),
{
    let cs = chars_of(text);
    let n = cs.len();
    let mut count: usize = 0;
    let mut in_word = false;
    let mut i: usize = 0;
    proof {
        assert(cs@.skip(0) == text@);
    }
    while i < n
        invariant
            n == cs.len(),
            cs@ == text@,
            i <= n,
            count <= i,
            token_count(text@) == count + token_count_from(text@.skip(i as int), in_word),
        decreases n - i,
    {
        let c = cs[i];
        proof {
            assert(text@.skip(i as int)[0] == c);
            assert(text@.skip(i as int).drop_first() == text@.skip(i + 1));
        }
        if char_is_alnum(c) || c == '_' {
            if !in_word {
                count += 1;
                in_word = true;
            }
        } else {
            in_word = false;
            if !char_is_white(c) {
                count += 1;
            }
        }
        i += 1;
    }
    proof {
        assert(text@.skip(n as int) =~= Seq::<char>::empty());
    }
    count
}

} // verus!
