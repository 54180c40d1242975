//! Text, character by character: equality, prefixes, and type expressions
//! without their spacing.

use vstd::prelude::*;
use vstd::string::*;

verus! {

/// The characters that count as spacing inside a type expression: space, tab,
/// line feed, form feed and carriage return.
pub open spec fn is_blank(c: char) -> bool {
    c == ' ' || c == '\t' || c == '\n' || c == '\u{c}' || c == '\r'
}

/// `text` with every blank taken out, the other characters in their order.
pub open spec fn without_blanks(text: Seq<char>) -> Seq<char> {
    text.filter(|c: char| !is_blank(c))
}

/// Taking the blanks out of a text that ends in `c` takes them out of what
/// stands before `c`, and keeps `c` unless it is a blank.
pub proof fn lemma_without_blanks_push(text: Seq<char>, c: char)
    ensures
        without_blanks(text.push(c)) == if is_blank(c) {
            without_blanks(text)
        } else {
            without_blanks(text).push(c)
        },
{
    text.lemma_filter_push(c, |c: char| !is_blank(c));
}

/// Whether `c` is a blank.
pub fn blank(c: char) -> (yes: bool)
    ensures
        yes == is_blank(c),
{
    c == ' ' || c == '\t' || c == '\n' || c == '\u{c}' || c == '\r'
}

/// The characters of `text`, in their order.
pub fn chars_of(text: &str) -> (chars: Vec<char>)
    ensures
        chars@ == text@,
{
    let mut chars: Vec<char> = Vec::new();
    for c in it: text.chars()
        invariant
            it.seq() == text@,
            chars@ == text@.take(it.index() as int),
    {
        assert(text@.take(it.index() + 1) =~= text@.take(it.index() as int).push(c));
        chars.push(c);
    }
    assert(text@.take(text@.len() as int) =~= text@);
    chars
}

/// Whether `chars` begins with the characters of `prefix`.
pub fn starts_with(chars: &Vec<char>, prefix: &Vec<char>) -> (yes: bool)
    ensures
        yes == prefix@.is_prefix_of(chars@),
{
    let n = prefix.len();
    if chars.len() < n {
        return false;
    }
    let mut i: usize = 0;
    while i < n
        invariant
            n == prefix@.len(),
            n <= chars@.len(),
            i <= n,
            forall|k: int| 0 <= k < i ==> chars@[k] == prefix@[k],
        decreases n - i,
    {
        if chars[i] != prefix[i] {
            assert(chars@.subrange(0, n as int)[i as int] != prefix@[i as int]);
            return false;
        }
        i += 1;
    }
    assert(chars@.subrange(0, n as int) =~= prefix@);
    true
}

/// Whether two vectors hold the same characters.
pub fn same_chars(left: &Vec<char>, right: &Vec<char>) -> (same: bool)
    ensures
        same == (left@ == right@),
{
    if left.len() != right.len() {
        return false;
    }
    assert(left@.subrange(0, left@.len() as int) =~= left@);
    starts_with(left, right)
}

/// Whether two pieces of text hold the same characters.
pub fn same_text(left: &str, right: &str) -> (same: bool)
    ensures
        same == (left@ == right@),
{
    let l = chars_of(left);
    let r = chars_of(right);
    same_chars(&l, &r)
}

/// The characters of `text` that are no blanks.
pub fn strip_blanks(text: &str) -> (bare: Vec<char>)
    ensures
        bare@ == without_blanks(text@),
{
    let mut bare: Vec<char> = Vec::new();
    proof {
        reveal(Seq::filter);
    }
    for c in it: text.chars()
        invariant
            it.seq() == text@,
            bare@ == without_blanks(text@.take(it.index() as int)),
    {
        proof {
            let before = text@.take(it.index() as int);
            assert(text@.take(it.index() + 1) =~= before.push(c));
            lemma_without_blanks_push(before, c);
        }
        if !blank(c) {
            bare.push(c);
        }
    }
    assert(text@.take(text@.len() as int) =~= text@);
    bare
}

} // verus!
