//! Small helpers over strings and lists of strings, stated over their views.

use vstd::prelude::*;
use vstd::string::*;

verus! {

/// The character sequences held by a list of owned strings.
pub open spec fn texts(v: Seq<String>) -> Seq<Seq<char>> {
    Seq::new(v.len(), |i: int| v[i]@)
}

/// The character sequences held by a list of string slices.
pub open spec fn names(v: Seq<&'static str>) -> Seq<Seq<char>> {
    Seq::new(v.len(), |i: int| v[i]@)
}

/// A path separator written the portable way: a backslash becomes a slash.
pub open spec fn portable_char(c: char) -> char {
    if c == '\\' { '/' } else { c }
}

/// The text with every backslash replaced by a forward slash.
pub open spec fn forward_slashes(s: Seq<char>) -> Seq<char> {
    Seq::new(s.len(), |i: int| portable_char(s[i]))
}

/// Appends one character to a string: `String::push` of the standard library,
/// which adds exactly the given character at the end and leaves the rest as it was.
#[verifier::external_body]
pub(crate) fn push_char(s: &mut String, c: char)
    ensures
        final(s)@ == old(s)@.push(c),
{
    s.push(c)
}

/// Returns `s` with every backslash replaced by a forward slash.
pub fn normalize_separators(s: &str) -> (r: String)
    ensures
        r@ == forward_slashes(s@),
{
    let n: usize = s.unicode_len();
    let mut out = String::new();
    let mut i: usize = 0;
    while i < n
        invariant
            n == s@.len(),
            i <= n,
            out@ == forward_slashes(s@.subrange(0, i as int)),
        decreases n - i,
    {
        let c = s.get_char(i);
        let d = if c == '\\' { '/' } else { c };
        push_char(&mut out, d);
        assert(out@ =~= forward_slashes(s@.subrange(0, i + 1)));
        i = i + 1;
    }
    assert(s@.subrange(0, n as int) =~= s@);
    out
}

/// An empty list of arguments.
pub fn empty_texts() -> (r: Vec<String>)
    ensures
        r@.len() == 0,
        texts(r@) == Seq::<Seq<char>>::empty(),
{
    let r: Vec<String> = Vec::new();
    assert(texts(r@) =~= Seq::<Seq<char>>::empty());
    r
}

/// Appends one argument to a list.
pub fn push_text(list: &mut Vec<String>, item: String)
    ensures
        texts(final(list)@) == texts(old(list)@).push(item@),
        final(list)@.len() == old(list)@.len() + 1,
{
    list.push(item);
    assert(texts(list@) =~= texts(old(list)@).push(item@));
}

/// Appends a copy of every argument of `more` to `list`, in order.
pub fn extend_texts(list: &mut Vec<String>, more: &Vec<String>)
    ensures
        texts(final(list)@) == texts(old(list)@) + texts(more@),
{
    let mut i: usize = 0;
    assert(texts(list@) =~= texts(old(list)@) + texts(more@.subrange(0, 0)));
    while i < more.len()
        invariant
            i <= more@.len(),
            texts(list@) == texts(old(list)@) + texts(more@.subrange(0, i as int)),
        decreases more@.len() - i,
    {
        let item = more[i].clone();
        push_text(list, item);
        assert(texts(list@) =~= texts(old(list)@) + texts(more@.subrange(0, i + 1)));
        i = i + 1;
    }
    assert(more@.subrange(0, more@.len() as int) =~= more@);
}

/// Copies a list of string slices into owned strings.
pub fn own_names(list: &Vec<&'static str>) -> (r: Vec<String>)
    ensures
        texts(r@) == names(list@),
{
    let mut out: Vec<String> = Vec::new();
    let mut i: usize = 0;
    while i < list.len()
        invariant
            i <= list@.len(),
            texts(out@) =~= names(list@.subrange(0, i as int)),
        decreases list@.len() - i,
    {
        let item = String::from_str(list[i]);
        push_text(&mut out, item);
        assert(texts(out@) =~= names(list@.subrange(0, i + 1)));
        i = i + 1;
    }
    assert(list@.subrange(0, list@.len() as int) =~= list@);
    out
}

/// The concatenation of three texts.
pub fn join3(a: &str, b: &str, c: &str) -> (r: String)
    ensures
        r@ == a@ + b@ + c@,
{
    let mut out = String::from_str(a);
    out.append(b);
    out.append(c);
    out
}

} // verus!
