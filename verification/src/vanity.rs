//! The search for a key whose public form begins with a wanted prefix: what
//! is searched for, and how the search reports.

use vstd::prelude::*;
use vstd::string::StringExecFns;
use vstd::string::StrSliceExecFns;
use crate::text::starts_with;

verus! {

/// The characters that the public form of a key is written in.
pub open spec fn alphabet() -> Seq<char> {
    "qpzry9x8gf2tvdw0s3jn54khce6mua7l"@
}

/// Why a prefix cannot be searched for.
#[derive(Debug, Clone, Copy, PartialEq, Eq)]
pub enum PrefixError {
    /// The prefix is empty.
    Empty,
    /// The prefix holds this character, which no key is written with.
    InvalidChar(char),
}

/// The first character of `prefix`, from position `from` on, that is not of
/// the alphabet.
pub open spec fn first_invalid(prefix: Seq<char>, from: int) -> Option<char>
    decreases prefix.len() - from,
{
    if from < 0 || from >= prefix.len() {
        None
    } else if !alphabet().contains(prefix[from]) {
        Some(prefix[from])
    } else {
        first_invalid(prefix, from + 1)
    }
}

/// What the validation of `prefix` comes to.
pub open spec fn prefix_fault(prefix: Seq<char>) -> Option<PrefixError> {
    if prefix.len() == 0 {
        Some(PrefixError::Empty)
    } else {
        match first_invalid(prefix, 0) {
            Some(c) => Some(PrefixError::InvalidChar(c)),
            None => None,
        }
    }
}

/// From `from` on no character is invalid exactly when each character there
/// is of the alphabet.
pub proof fn valid_prefix_is_of_the_alphabet(prefix: Seq<char>, from: int)
    requires
        0 <= from <= prefix.len(),
    ensures
        first_invalid(prefix, from) is None <==> forall|i: int|
            from <= i < prefix.len() ==> alphabet().contains(#[trigger] prefix[i]),
    decreases prefix.len() - from,
{
    if from < prefix.len() {
        valid_prefix_is_of_the_alphabet(prefix, from + 1);
    }
}

/// Whether `c` is of the alphabet.
pub fn in_alphabet(c: char) -> (found: bool)
    ensures
        found == alphabet().contains(c),
{
    let letters = "qpzry9x8gf2tvdw0s3jn54khce6mua7l";
    let n = letters.unicode_len();
    let mut i: usize = 0;
    while i < n
        invariant
            i <= n,
            n == letters@.len(),
            letters@ == alphabet(),
            forall|j: int| 0 <= j < i ==> letters@[j] != c,
        decreases n - i,
    {
        if letters.get_char(i) == c {
            return true;
        }
        i += 1;
    }
    false
}

/// Checks that `prefix` can be searched for.
pub fn validate_prefix(prefix: &str) -> (checked: Result<(), PrefixError>)
    ensures
        match checked {
            Ok(_) => prefix_fault(prefix@) == None::<PrefixError>,
            Err(error) => prefix_fault(prefix@) == Some(error),
        },
        checked is Ok <==> prefix@.len() > 0 && forall|i: int|
            0 <= i < prefix@.len() ==> alphabet().contains(#[trigger] prefix@[i]),
{
    proof {
        valid_prefix_is_of_the_alphabet(prefix@, 0);
    }
    let n = prefix.unicode_len();
    if n == 0 {
        return Err(PrefixError::Empty);
    }
    let mut fault: Option<char> = None;
    let mut i: usize = n;
    while i > 0
        invariant
            i <= n,
            n == prefix@.len(),
            fault == first_invalid(prefix@, i as int),
        decreases i,
    {
        i -= 1;
        let c = prefix.get_char(i);
        if !in_alphabet(c) {
            fault = Some(c);
        }
    }
    match fault {
        Some(c) => Err(PrefixError::InvalidChar(c)),
        None => Ok(()),
    }
}

/// What the public form of a wanted key begins with.
pub fn search_target(prefix: &str) -> (target: String)
    ensures
        target@ == "npub1"@ + prefix@,
{
    let mut target = "npub1".to_owned();
    target.append(prefix);
    target
}

/// Whether the public form `npub` is a find for `target`.
pub fn is_find(npub: &str, target: &str) -> (found: bool)
    ensures
        found == target@.is_prefix_of(npub@),
{
    starts_with(npub, target)
}

/// Keys tried per second: the tries over the seconds elapsed, or the tries
/// themselves within the first second.
pub fn rate(tries: u64, elapsed_secs: u64) -> (per_second: u64)
    ensures
        per_second == (if elapsed_secs > 0 {
            tries / elapsed_secs
        } else {
            tries
        }),
{
    if elapsed_secs > 0 {
        tries / elapsed_secs
    } else {
        tries
    }
}

} // verus!
