//! Reading direct messages: whom a message was exchanged with, and whether
//! it is shown.

use vstd::prelude::*;
use vstd::string::StringExecFns;
use crate::text::opt_text;
use crate::tags::first_public_key;
use crate::tags::public_keys;
use crate::watch::Tag;

verus! {

/// Whom a message was exchanged with: for a message the operator wrote, the
/// first identity its tags refer to, if any; for any other, its author.
pub open spec fn counterpart(author: Seq<char>, own: Seq<char>, tags: Seq<Tag>) -> Option<
    Seq<char>,
> {
    if author == own {
        if public_keys(tags, tags.len() as int).len() > 0 {
            Some(public_keys(tags, tags.len() as int)[0])
        } else {
            None
        }
    } else {
        Some(author)
    }
}

/// Finds whom a message was exchanged with.
pub fn other_party(author: &String, own: &String, tags: &Vec<Tag>) -> (other: Option<String>)
    ensures
        opt_text(other) == counterpart(author@, own@, tags@),
{
    if *author == *own {
        first_public_key(tags)
    } else {
        Some(author.clone())
    }
}

/// Whether a message exchanged with `other` is shown under `filter`: always
/// without a filter, else only where the filter names `other`.
pub fn passes(other: &String, filter: Option<&str>) -> (shown: bool)
    ensures
        shown == (match filter {
            Some(wanted) => other@ == wanted@,
            None => true,
        }),
{
    match filter {
        Some(wanted) => *other == wanted.to_owned(),
        None => true,
    }
}

/// The heading of a message: to whom it went, or from whom it came.
pub fn direction(sent: bool, other: &str) -> (heading: String)
    ensures
        heading@ == (if sent {
            "To "@
        } else {
            "From "@
        }) + other@,
{
    let mut heading = if sent {
        "To ".to_owned()
    } else {
        "From ".to_owned()
    };
    heading.append(other);
    heading
}

} // verus!
