//! Texts: cutting, splitting and comparing them by characters, and the views
//! of strings that the contracts of the other modules speak of.

use vstd::prelude::*;
use vstd::string::StringExecFns;
use vstd::string::StrSliceExecFns;

verus! {

/// What marks a text as cut.
pub open spec fn ellipsis() -> Seq<char> {
    seq!['.', '.', '.']
}

/// A text of more than `cap` characters is cut to its first `keep`
/// characters, followed by the ellipsis; a shorter one is left as it is.
pub open spec fn clipped(text: Seq<char>, keep: nat, cap: nat) -> Seq<char> {
    if text.len() > cap {
        text.take(keep as int) + ellipsis()
    } else {
        text
    }
}

/// Cuts `text` to `keep` characters and the ellipsis where it is longer than
/// `cap` characters.
pub fn clip(text: &str, keep: usize, cap: usize) -> (out: String)
    requires
        keep <= cap,
    ensures
        out@ == clipped(text@, keep as nat, cap as nat),
{
    let n = text.unicode_len();
    if n > cap {
        let mut out = text.substring_char(0, keep).to_owned();
        proof {
            reveal_strlit("...");
            assert("..."@ =~= ellipsis());
        }
        out.append("...");
        out
    } else {
        text.to_owned()
    }
}

/// The first `n` characters of `text`, or all of it where it is shorter.
pub open spec fn head_of(text: Seq<char>, n: nat) -> Seq<char> {
    if text.len() > n {
        text.take(n as int)
    } else {
        text
    }
}

/// The first `n` characters of `text`, or all of it where it is shorter.
pub fn head(text: &str, n: usize) -> (out: String)
    ensures
        out@ == head_of(text@, n as nat),
{
    if text.unicode_len() > n {
        text.substring_char(0, n).to_owned()
    } else {
        text.to_owned()
    }
}

/// Whether `text` begins with `prefix`.
pub fn starts_with(text: &str, prefix: &str) -> (found: bool)
    ensures
        found == prefix@.is_prefix_of(text@),
{
    let n = prefix.unicode_len();
    if n > text.unicode_len() {
        return false;
    }
    let mut i: usize = 0;
    while i < n
        invariant
            i <= n,
            n == prefix@.len(),
            n <= text@.len(),
            forall|j: int| 0 <= j < i ==> prefix@[j] == text@[j],
        decreases n - i,
    {
        if prefix.get_char(i) != text.get_char(i) {
            assert(text@.subrange(0, n as int)[i as int] != prefix@[i as int]);
            return false;
        }
        i += 1;
    }
    assert(prefix@ =~= text@.subrange(0, n as int));
    true
}

/// The pieces of `text` between occurrences of `sep`, in order. A text
/// without `sep` is one piece; a text with `k` occurrences has `k + 1`
/// pieces, some of which may be empty.
pub open spec fn pieces(text: Seq<char>, sep: char) -> Seq<Seq<char>>
    decreases text.len(),
{
    if text.len() == 0 {
        seq![Seq::<char>::empty()]
    } else {
        let front = pieces(text.drop_last(), sep);
        if text.last() == sep {
            front.push(Seq::<char>::empty())
        } else {
            front.drop_last().push(front.last().push(text.last()))
        }
    }
}

/// The texts of a list of strings, in order.
pub open spec fn texts(list: Seq<String>) -> Seq<Seq<char>> {
    list.map_values(|s: String| s@)
}

/// Splits `text` at every occurrence of `sep`.
pub fn split(text: &str, sep: char) -> (out: Vec<String>)
    ensures
        texts(out@) == pieces(text@, sep),
        out@.len() >= 1,
{
    let n = text.unicode_len();
    let mut out: Vec<String> = Vec::new();
    let mut start: usize = 0;
    let mut i: usize = 0;
    assert(text@.take(0) =~= Seq::<char>::empty());
    assert(texts(out@).push(text@.subrange(0, 0)) =~= seq![Seq::<char>::empty()]);
    while i < n
        invariant
            n == text@.len(),
            start <= i <= n,
            pieces(text@.take(i as int), sep) == texts(out@).push(
                text@.subrange(start as int, i as int),
            ),
        decreases n - i,
    {
        let ghost before = text@.take(i as int);
        let ghost next = text@.take(i + 1);
        assert(next.drop_last() =~= before);
        assert(next.last() == text@[i as int]);
        let ghost done = texts(out@);
        let ghost current = text@.subrange(start as int, i as int);
        if text.get_char(i) == sep {
            let piece = text.substring_char(start, i).to_owned();
            out.push(piece);
            start = i + 1;
            assert(texts(out@) =~= done.push(current));
            assert(text@.subrange(start as int, i + 1) =~= Seq::<char>::empty());
        } else {
            assert(done.push(current).drop_last() =~= done);
            assert(current.push(text@[i as int]) =~= text@.subrange(start as int, i + 1));
        }
        i += 1;
    }
    let ghost done = texts(out@);
    let last = text.substring_char(start, n).to_owned();
    out.push(last);
    assert(text@.take(n as int) =~= text@);
    assert(texts(out@) =~= done.push(text@.subrange(start as int, n as int)));
    out
}

/// The text of an optional string.
pub open spec fn opt_text(value: Option<String>) -> Option<Seq<char>> {
    match value {
        Some(s) => Some(s@),
        None => None,
    }
}

/// The text of an optional string slice.
pub open spec fn opt_str_text(value: Option<&str>) -> Option<Seq<char>> {
    match value {
        Some(s) => Some(s@),
        None => None,
    }
}

/// Copies a list of strings, element by element.
pub fn copy_strings(list: &Vec<String>) -> (out: Vec<String>)
    ensures
        out@ == list@,
{
    let mut out: Vec<String> = Vec::new();
    let mut i: usize = 0;
    while i < list.len()
        invariant
            i <= list.len(),
            out@ == list@.take(i as int),
        decreases list.len() - i,
    {
        out.push(list[i].clone());
        assert(out@ =~= list@.take(i + 1));
        i += 1;
    }
    assert(list@.take(list.len() as int) =~= list@);
    out
}

/// Copies an optional string.
pub fn copy_opt_string(value: &Option<String>) -> (out: Option<String>)
    ensures
        out == *value,
{
    match value {
        Some(s) => Some(s.clone()),
        None => None,
    }
}

/// An owned copy of an optional string slice.
pub fn own_opt(value: Option<&str>) -> (out: Option<String>)
    ensures
        opt_text(out) == opt_str_text(value),
{
    match value {
        Some(s) => Some(s.to_owned()),
        None => None,
    }
}

} // verus!
