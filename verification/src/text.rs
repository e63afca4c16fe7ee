//! Comparing and normalising text.

use vstd::prelude::*;
use vstd::std_specs::iter::IteratorSpec;
use vstd::utf8::*;

verus! {

/// What `str::to_lowercase` returns for a text: its lower-case form by the
/// Unicode rules that the standard library implements.
pub uninterp spec fn lowercased(text: Seq<char>) -> Seq<char>;

/// Calls `str::to_lowercase`. Trusted: the result is the standard library's
/// lower-case form of the text, to which `lowercased` gives a name.
#[verifier::external_body]
pub(crate) fn to_lowercase(text: &str) -> (lower: String)
    ensures
        lower@ == lowercased(text@),
{
    text.to_lowercase()
}

/// The characters of an optional text.
pub open spec fn text_of(text: Option<String>) -> Option<Seq<char>> {
    match text {
        Some(t) => Some(t@),
        None => None,
    }
}

/// The characters of an optional borrowed text.
pub open spec fn str_of(text: Option<&str>) -> Option<Seq<char>> {
    match text {
        Some(t) => Some(t@),
        None => None,
    }
}

/// A copy of an optional text.
pub fn copy_text(text: &Option<String>) -> (copy: Option<String>)
    ensures
        copy == *text,
{
    match text {
        Some(t) => Some(t.clone()),
        None => None,
    }
}

/// An optional text, borrowed.
pub fn borrow_text(text: &Option<String>) -> (borrowed: Option<&str>)
    ensures
        str_of(borrowed) == text_of(*text),
{
    match text {
        Some(t) => Some(t.as_str()),
        None => None,
    }
}

/// Whether two texts hold the same characters.
pub fn same_text(a: &str, b: &str) -> (same: bool)
    ensures
        same == (a@ == b@),
{
    let x = a.as_bytes();
    let y = b.as_bytes();
    proof {
        encode_utf8_decode_utf8(a@);
        encode_utf8_decode_utf8(b@);
    }
    if x.len() != y.len() {
        return false;
    }
    let mut i: usize = 0;
    while i < x.len()
        invariant
            i <= x.len(),
            x.len() == y.len(),
            x@ == encode_utf8(a@),
            y@ == encode_utf8(b@),
            forall|k: int| 0 <= k < i ==> x@[k] == y@[k],
        decreases x.len() - i,
    {
        if x[i] != y[i] {
            return false;
        }
        i += 1;
    }
    assert(x@ =~= y@);
    true
}

/// Whether `a` comes before `b`, or equals it, when texts are ordered
/// character by character, a shorter text before its extensions.
pub open spec fn text_le(a: Seq<char>, b: Seq<char>) -> bool
    decreases a.len(),
{
    if a.len() == 0 {
        true
    } else if b.len() == 0 {
        false
    } else if a[0] != b[0] {
        (a[0] as u32) < (b[0] as u32)
    } else {
        text_le(a.drop_first(), b.drop_first())
    }
}

/// Of two texts one is ordered before or with the other.
pub proof fn lemma_text_le_total(a: Seq<char>, b: Seq<char>)
    ensures
        text_le(a, b) || text_le(b, a),
    decreases a.len(),
{
    if a.len() > 0 && b.len() > 0 {
        if a[0] == b[0] {
            lemma_text_le_total(a.drop_first(), b.drop_first());
        } else {
            char_u32_cast(a[0], a[0] as u32);
            char_u32_cast(b[0], b[0] as u32);
        }
    }
}

/// The order of texts carries over.
pub proof fn lemma_text_le_transitive(a: Seq<char>, b: Seq<char>, c: Seq<char>)
    requires
        text_le(a, b),
        text_le(b, c),
    ensures
        text_le(a, c),
    decreases a.len(),
{
    if a.len() > 0 && b.len() > 0 && c.len() > 0 && a[0] == b[0] && b[0] == c[0] {
        lemma_text_le_transitive(a.drop_first(), b.drop_first(), c.drop_first());
    }
}

/// Whether `a` is ordered before or with `b`.
pub fn precedes(a: &str, b: &str) -> (le: bool)
    ensures
        le == text_le(a@, b@),
{
    broadcast use vstd::string::axiom_spec_iter, vstd::string::next_postcondition;

    let mut left = a.chars();
    let mut right = b.chars();
    loop
        invariant
            text_le(a@, b@) == text_le(left.remaining(), right.remaining()),
            left.decrease() is Some,
        decreases left.decrease()->0,
    {
        let x = left.next();
        let y = right.next();
        match (x, y) {
            (None, _) => {
                return true;
            },
            (Some(_), None) => {
                return false;
            },
            (Some(p), Some(q)) => {
                if p != q {
                    return (p as u32) < (q as u32);
                }
            },
        }
    }
}

} // verus!
