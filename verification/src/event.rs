//! Tags given on the command line for an event of any kind.

use vstd::prelude::*;
use vstd::string::StringExecFns;
use crate::text::pieces;
use crate::text::split;
use crate::text::texts;

verus! {

/// A tag argument that does not name a key and a value.
#[derive(Debug)]
pub struct InvalidTag {
    pub input: String,
}

impl InvalidTag {
    /// The error in words.
    pub fn message(&self) -> (text: String)
        ensures
            text@ == "Invalid tag format: '"@ + self.input@
                + "'. Expected 'key,value[,value...]'"@,
    {
        let mut text = "Invalid tag format: '".to_owned();
        text.append(self.input.as_str());
        text.append("'. Expected 'key,value[,value...]'");
        text
    }
}

/// Whether `arg` is a tag: a key and at least one value, set apart by commas.
pub open spec fn is_tag_arg(arg: Seq<char>) -> bool {
    pieces(arg, ',').len() >= 2
}

/// Reads one tag argument: the key and the values between the commas.
pub fn parse_tag_arg(arg: &str) -> (parsed: Result<Vec<String>, InvalidTag>)
    ensures
        match parsed {
            Ok(parts) => is_tag_arg(arg@) && texts(parts@) == pieces(arg@, ','),
            Err(error) => !is_tag_arg(arg@) && error.input@ == arg@,
        },
{
    let parts = split(arg, ',');
    if parts.len() < 2 {
        Err(InvalidTag { input: arg.to_owned() })
    } else {
        Ok(parts)
    }
}

/// Reads the tag arguments in order. The first one that is no tag is the
/// error; without one, each argument gives its tag.
pub fn parse_tag_args(args: &Vec<String>) -> (parsed: Result<Vec<Vec<String>>, InvalidTag>)
    ensures
        match parsed {
            Ok(tags) => {
                &&& tags@.len() == args@.len()
                &&& forall|i: int|
                    0 <= i < args@.len() ==> is_tag_arg((#[trigger] args@[i])@) && texts(
                        tags@[i]@,
                    ) == pieces(args@[i]@, ',')
            },
            Err(error) => exists|i: int|
                {
                    &&& 0 <= i < args@.len()
                    &&& !is_tag_arg((#[trigger] args@[i])@)
                    &&& error.input@ == args@[i]@
                    &&& forall|j: int| 0 <= j < i ==> is_tag_arg((#[trigger] args@[j])@)
                },
        },
{
    let mut tags: Vec<Vec<String>> = Vec::new();
    let mut i: usize = 0;
    while i < args.len()
        invariant
            i <= args@.len(),
            tags@.len() == i,
            forall|j: int|
                0 <= j < i ==> is_tag_arg((#[trigger] args@[j])@) && texts(tags@[j]@) == pieces(
                    args@[j]@,
                    ',',
                ),
        decreases args@.len() - i,
    {
        match parse_tag_arg(args[i].as_str()) {
            Ok(parts) => {
                tags.push(parts);
            },
            Err(error) => {
                assert(!is_tag_arg(args@[i as int]@));
                return Err(error);
            },
        }
        i += 1;
    }
    Ok(tags)
}

} // verus!
