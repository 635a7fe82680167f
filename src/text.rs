//! Character-level helpers over `str` and `String`, each tied to its
//! mathematical counterpart on `Seq<char>`.
use vstd::prelude::*;
use vstd::std_specs::iter::IteratorSpec;

verus! {

broadcast use vstd::string::group_string_axioms;

/// Relies on `String::push`: appends one character.
#[verifier::external_body]
pub(crate) fn push_char(s: &mut String, c: char)
    ensures
        final(s)@ == old(s)@.push(c),
{
    s.push(c)
}

/// The characters of `s`, in order.
pub fn chars_of(s: &str) -> (r: Vec<char>)
    ensures
        r@ == s@,
{
    let mut r: Vec<char> = Vec::new();
    let mut it = s.chars();
    loop
        invariant
            r@ + it.remaining() == s@,
            it.obeys_prophetic_iter_laws(),
            it.decrease() is Some,
        ensures
            r@ == s@,
        decreases it.decrease()->0,
    {
        match it.next() {
            Some(c) => {
                r.push(c);
            },
            None => {
                break ;
            },
        }
    }
    r
}

/// A `String` that holds exactly the characters of `v`.
pub fn string_of(v: &Vec<char>) -> (r: String)
    ensures
        r@ == v@,
{
    let mut r = String::new();
    let mut i: usize = 0;
    while i < v.len()
        invariant
            0 <= i <= v@.len(),
            r@ == v@.subrange(0, i as int),
        decreases v@.len() - i,
    {
        push_char(&mut r, v[i]);
        i = i + 1;
        assert(r@ =~= v@.subrange(0, i as int));
    }
    assert(r@ =~= v@);
    r
}

} // verus!

verus! {

/// What `str::to_lowercase` makes of a sequence of characters.
pub uninterp spec fn lower_of(s: Seq<char>) -> Seq<char>;

/// Relies on `str::to_lowercase`: the result depends on the characters
/// alone, and an empty string stays empty.
#[verifier::external_body]
pub(crate) fn lowercase(s: &str) -> (r: String)
    ensures
        r@ == lower_of(s@),
        s@.len() == 0 ==> r@.len() == 0,
{
    s.to_lowercase()
}

/// `w` occurs in `text` as a contiguous block.
pub open spec fn contains_seq(text: Seq<char>, w: Seq<char>) -> bool {
    exists|i: int| 0 <= i && i + w.len() <= text.len() && #[trigger] text.subrange(i, i + w.len()) == w
}

/// `text` begins with `w`.
pub open spec fn starts_with_seq(text: Seq<char>, w: Seq<char>) -> bool {
    w.len() <= text.len() && text.subrange(0, w.len() as int) == w
}

/// Whether `text[at..]` begins with `w`.
fn matches_at(text: &Vec<char>, w: &Vec<char>, at: usize) -> (r: bool)
    requires
        at <= text@.len(),
    ensures
        r == (at + w@.len() <= text@.len() && text@.subrange(at as int, at + w@.len()) == w@),
{
    if w.len() > text.len() - at {
        return false;
    }
    let n: usize = text.len();
    let mut j: usize = 0;
    while j < w.len()
        invariant
            n == text@.len(),
            at + w@.len() <= text@.len(),
            0 <= j <= w@.len(),
            forall|k: int| 0 <= k < j ==> text@[at + k] == w@[k],
        decreases w@.len() - j,
    {
        if text[at + j] != w[j] {
            assert(text@.subrange(at as int, at + w@.len())[j as int] != w@[j as int]);
            return false;
        }
        j = j + 1;
    }
    assert(text@.subrange(at as int, at + w@.len()) =~= w@);
    true
}

/// Whether `w` occurs in `text`.
pub fn contains_chars(text: &Vec<char>, w: &Vec<char>) -> (r: bool)
    ensures
        r == contains_seq(text@, w@),
{
    if w.len() > text.len() {
        return false;
    }
    let last: usize = text.len() - w.len();
    let mut i: usize = 0;
    while i <= last
        invariant
            last + w@.len() == text@.len(),
            0 <= i <= last + 1,
            forall|k: int| 0 <= k < i ==> #[trigger] text@.subrange(k, k + w@.len()) != w@,
        decreases last + 1 - i,
    {
        if matches_at(text, w, i) {
            return true;
        }
        if i == last {
            return false;
        }
        i = i + 1;
    }
    false
}

/// Whether `text` begins with `w`.
pub fn starts_with_chars(text: &Vec<char>, w: &Vec<char>) -> (r: bool)
    ensures
        r == starts_with_seq(text@, w@),
{
    matches_at(text, w, 0)
}

} // verus!
