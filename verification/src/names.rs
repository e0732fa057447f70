//! How an author is shown: the name and avatar resolved from fetched profile
//! metadata, and the per-session memory of what was resolved.

use vstd::prelude::*;
use crate::cache::lookup;
use crate::text::opt_text;
use crate::text::copy_opt_string;

verus! {

/// The part of an author's published metadata that display reads.
#[derive(Debug)]
pub struct ProfileMetadata {
    pub name: Option<String>,
    pub display_name: Option<String>,
    pub picture: Option<String>,
}

/// The name an author is shown under, and the avatar if there is one.
#[derive(Debug)]
pub struct DisplayInfo {
    pub name: String,
    pub avatar: Option<String>,
}

/// What a `DisplayInfo` holds, as mathematical values.
pub struct DisplayView {
    pub name: Seq<char>,
    pub avatar: Option<Seq<char>>,
}

impl View for DisplayInfo {
    type V = DisplayView;

    open spec fn view(&self) -> DisplayView {
        DisplayView { name: self.name@, avatar: opt_text(self.avatar) }
    }
}

impl Clone for DisplayInfo {
    fn clone(&self) -> (out: Self)
        ensures
            out@ == self@,
    {
        DisplayInfo { name: self.name.clone(), avatar: copy_opt_string(&self.avatar) }
    }
}

/// The name shown for an author whose identifier is `npub`.
///
/// A display name that is not empty is shown. Under an empty display name
/// the name is shown as it is. Without a display name, a name that is not
/// empty is shown. In every other case, and when no metadata was fetched,
/// the identifier itself is shown.
pub open spec fn shown_name(npub: Seq<char>, fetched: Option<ProfileMetadata>) -> Seq<char> {
    match fetched {
        Some(metadata) => match metadata.display_name {
            Some(display_name) => if display_name@.len() > 0 {
                display_name@
            } else {
                match metadata.name {
                    Some(name) => name@,
                    None => npub,
                }
            },
            None => match metadata.name {
                Some(name) => if name@.len() > 0 {
                    name@
                } else {
                    npub
                },
                None => npub,
            },
        },
        None => npub,
    }
}

/// The avatar shown for an author: the picture of the fetched metadata,
/// unless it is empty.
pub open spec fn shown_avatar(fetched: Option<ProfileMetadata>) -> Option<Seq<char>> {
    match fetched {
        Some(metadata) => match metadata.picture {
            Some(picture) => if picture@.len() > 0 {
                Some(picture@)
            } else {
                None
            },
            None => None,
        },
        None => None,
    }
}

/// How an author is shown, given what a profile fetch brought.
pub open spec fn shown(npub: Seq<char>, fetched: Option<ProfileMetadata>) -> DisplayView {
    DisplayView { name: shown_name(npub, fetched), avatar: shown_avatar(fetched) }
}

/// Resolves how an author is shown from what a profile fetch brought; `None`
/// stands for a fetch that failed or found nothing.
pub fn resolve_display(npub: &str, fetched: &Option<ProfileMetadata>) -> (info: DisplayInfo)
    ensures
        info@ == shown(npub@, *fetched),
{
    match fetched {
        Some(metadata) => {
            let name = match &metadata.display_name {
                Some(display_name) => {
                    if !display_name.as_str().is_empty() {
                        display_name.clone()
                    } else {
                        match &metadata.name {
                            Some(name) => name.clone(),
                            None => npub.to_owned(),
                        }
                    }
                },
                None => match &metadata.name {
                    Some(name) => {
                        if !name.as_str().is_empty() {
                            name.clone()
                        } else {
                            npub.to_owned()
                        }
                    },
                    None => npub.to_owned(),
                },
            };
            let avatar = match &metadata.picture {
                Some(picture) => {
                    if !picture.as_str().is_empty() {
                        Some(picture.clone())
                    } else {
                        None
                    }
                },
                None => None,
            };
            DisplayInfo { name, avatar }
        },
        None => DisplayInfo { name: npub.to_owned(), avatar: None },
    }
}

/// The memory of a session after `author` was resolved to `info`: what was
/// remembered first stays.
pub open spec fn remembered(
    names: Map<Seq<char>, DisplayView>,
    author: Seq<char>,
    info: DisplayView,
) -> Map<Seq<char>, DisplayView> {
    if names.dom().contains(author) {
        names
    } else {
        names.insert(author, info)
    }
}

/// One remembered author.
struct NameEntry {
    author: String,
    info: DisplayInfo,
}

/// What one watch session has resolved so far, by author. An entry is made
/// at the first sighting of an author and is never changed or dropped.
pub struct ProfileDisplayCache {
    entries: Vec<NameEntry>,
    table: Ghost<Map<Seq<char>, DisplayView>>,
}

impl View for ProfileDisplayCache {
    type V = Map<Seq<char>, DisplayView>;

    closed spec fn view(&self) -> Map<Seq<char>, DisplayView> {
        self.table@
    }
}

impl ProfileDisplayCache {
    /// The invariant: the entries held are exactly those of the map.
    pub closed spec fn wf(&self) -> bool {
        &&& forall|i: int|
            0 <= i < self.entries@.len() ==> {
                &&& self.table@.dom().contains(#[trigger] self.entries@[i].author@)
                &&& self.table@[self.entries@[i].author@] == self.entries@[i].info@
            }
        &&& forall|author: Seq<char>| #[trigger]
            self.table@.dom().contains(author) ==> exists|i: int|
                0 <= i < self.entries@.len() && #[trigger] self.entries@[i].author@ == author
    }

    /// A memory that holds nothing.
    pub fn new() -> (names: ProfileDisplayCache)
        ensures
            names.wf(),
            names@ == Map::<Seq<char>, DisplayView>::empty(),
    {
        ProfileDisplayCache { entries: Vec::new(), table: Ghost(Map::empty()) }
    }

    /// How `author` was resolved, if it was seen before.
    pub fn get(&self, author: &str) -> (found: Option<DisplayInfo>)
        requires
            self.wf(),
        ensures
            match found {
                Some(info) => lookup(self@, author@) == Some(info@),
                None => lookup(self@, author@) == None::<DisplayView>,
            },
    {
        let key = author.to_owned();
        let mut i: usize = 0;
        while i < self.entries.len()
            invariant
                self.wf(),
                key@ == author@,
                i <= self.entries@.len(),
                forall|j: int| 0 <= j < i ==> self.entries@[j].author@ != key@,
            decreases self.entries@.len() - i,
        {
            if self.entries[i].author == key {
                assert(self.table@.dom().contains(self.entries@[i as int].author@));
                return Some(self.entries[i].info.clone());
            }
            i += 1;
        }
        None
    }

    /// Remembers how `author` was resolved, unless it was seen before.
    pub fn remember(&mut self, author: &str, info: DisplayInfo)
        requires
            old(self).wf(),
        ensures
            final(self).wf(),
            final(self)@ == remembered(old(self)@, author@, info@),
    {
        if self.get(author).is_none() {
            let ghost before = self.entries@;
            let entry = NameEntry { author: author.to_owned(), info };
            self.entries.push(entry);
            self.table = Ghost(self.table@.insert(author@, info@));
            assert forall|key: Seq<char>| #[trigger]
                self.table@.dom().contains(key) implies exists|j: int|
                0 <= j < self.entries@.len() && #[trigger] self.entries@[j].author@ == key by {
                if key == author@ {
                    assert(self.entries@[before.len() as int].author@ == key);
                } else {
                    let j = choose|j: int|
                        0 <= j < before.len() && #[trigger] before[j].author@ == key;
                    assert(self.entries@[j].author@ == key);
                }
            }
        }
    }
}

/// What was remembered of an author at the first sighting stays: a later
/// resolution of the same author changes nothing, and every other author
/// keeps what was remembered.
pub proof fn first_resolution_stays(
    names: Map<Seq<char>, DisplayView>,
    author: Seq<char>,
    first: DisplayView,
    later: DisplayView,
)
    ensures
        remembered(remembered(names, author, first), author, later) == remembered(
            names,
            author,
            first,
        ),
        forall|other: Seq<char>|
            names.dom().contains(other) ==> remembered(names, author, first).dom().contains(
                other,
            ) && #[trigger] remembered(names, author, first)[other] == names[other],
{
}

} // verus!
