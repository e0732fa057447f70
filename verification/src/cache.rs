//! The local cache: two keyed tables, one of events and one of profiles.
//!
//! A table holds at most one row per key. Storing under a key that is present
//! replaces the whole row. The tables are modelled as maps from the key's text
//! to the row, and every operation is stated over those maps.

use vstd::prelude::*;
use vstd::string::StringExecFns;
use crate::text::copy_opt_string;
use crate::text::opt_str_text;
use crate::text::opt_text;
use crate::config::NostaroConfig;

verus! {

/// A stored snapshot of one event.
#[derive(Debug)]
pub struct CachedEvent {
    pub id: String,
    pub pubkey: String,
    pub kind: u16,
    pub content: String,
    pub created_at: i64,
    pub tags_json: String,
    pub raw_json: String,
}

/// The last metadata stored for one author.
#[derive(Debug)]
pub struct CachedProfile {
    pub pubkey: String,
    pub name: Option<String>,
    pub display_name: Option<String>,
    pub about: Option<String>,
    pub picture: Option<String>,
    pub updated_at: i64,
}

/// What a `CachedEvent` holds, as mathematical values.
pub struct EventRow {
    pub id: Seq<char>,
    pub pubkey: Seq<char>,
    pub kind: u16,
    pub content: Seq<char>,
    pub created_at: i64,
    pub tags_json: Seq<char>,
    pub raw_json: Seq<char>,
}

/// What a `CachedProfile` holds, as mathematical values.
pub struct ProfileRow {
    pub pubkey: Seq<char>,
    pub name: Option<Seq<char>>,
    pub display_name: Option<Seq<char>>,
    pub about: Option<Seq<char>>,
    pub picture: Option<Seq<char>>,
    pub updated_at: i64,
}

impl View for CachedEvent {
    type V = EventRow;

    open spec fn view(&self) -> EventRow {
        EventRow {
            id: self.id@,
            pubkey: self.pubkey@,
            kind: self.kind,
            content: self.content@,
            created_at: self.created_at,
            tags_json: self.tags_json@,
            raw_json: self.raw_json@,
        }
    }
}

impl View for CachedProfile {
    type V = ProfileRow;

    open spec fn view(&self) -> ProfileRow {
        ProfileRow {
            pubkey: self.pubkey@,
            name: opt_text(self.name),
            display_name: opt_text(self.display_name),
            about: opt_text(self.about),
            picture: opt_text(self.picture),
            updated_at: self.updated_at,
        }
    }
}

impl Clone for CachedEvent {
    fn clone(&self) -> (out: Self)
        ensures
            out@ == self@,
    {
        CachedEvent {
            id: self.id.clone(),
            pubkey: self.pubkey.clone(),
            kind: self.kind,
            content: self.content.clone(),
            created_at: self.created_at,
            tags_json: self.tags_json.clone(),
            raw_json: self.raw_json.clone(),
        }
    }
}

impl Clone for CachedProfile {
    fn clone(&self) -> (out: Self)
        ensures
            out@ == self@,
    {
        CachedProfile {
            pubkey: self.pubkey.clone(),
            name: copy_opt_string(&self.name),
            display_name: copy_opt_string(&self.display_name),
            about: copy_opt_string(&self.about),
            picture: copy_opt_string(&self.picture),
            updated_at: self.updated_at,
        }
    }
}

/// The event table after `row` was stored: the row stands under its own id,
/// whatever stood there before, and every other key keeps its row.
pub open spec fn with_event(table: Map<Seq<char>, EventRow>, row: EventRow) -> Map<
    Seq<char>,
    EventRow,
> {
    table.insert(row.id, row)
}

/// The profile table after `row` was stored.
pub open spec fn with_profile(table: Map<Seq<char>, ProfileRow>, row: ProfileRow) -> Map<
    Seq<char>,
    ProfileRow,
> {
    table.insert(row.pubkey, row)
}

/// The row under `key`, if the table has one.
pub open spec fn lookup<R>(table: Map<Seq<char>, R>, key: Seq<char>) -> Option<R> {
    if table.dom().contains(key) {
        Some(table[key])
    } else {
        None
    }
}

/// The rows of a list of events, in order.
pub open spec fn rows(events: Seq<CachedEvent>) -> Seq<EventRow> {
    events.map_values(|e: CachedEvent| e@)
}

/// Whether `listing` is a most-recent-first listing of the events of `kind`
/// in `table`, cut at `limit` rows.
///
/// Every listed row is a row of the table of that kind, no row is listed
/// twice, and creation times never rise along the listing. A row of that kind
/// is left out only when the listing is full, and then no listed row is older
/// than it. Among rows with equal creation times any order, and any choice at
/// the cut, is a listing.
pub open spec fn is_recent_listing(
    table: Map<Seq<char>, EventRow>,
    kind: u16,
    limit: nat,
    listing: Seq<EventRow>,
) -> bool {
    &&& listing.len() <= limit
    &&& forall|k: int|
        0 <= k < listing.len() ==> {
            &&& table.dom().contains(#[trigger] listing[k].id)
            &&& table[listing[k].id] == listing[k]
            &&& listing[k].kind == kind
        }
    &&& forall|a: int, b: int|
        0 <= a < b < listing.len() ==> listing[a].id != listing[b].id
    &&& forall|a: int, b: int|
        0 <= a < b < listing.len() ==> listing[a].created_at >= listing[b].created_at
    &&& forall|id: Seq<char>| #[trigger]
        table.dom().contains(id) && table[id].kind == kind ==> {
            ||| exists|k: int| 0 <= k < listing.len() && #[trigger] listing[k].id == id
            ||| (listing.len() == limit && forall|k: int|
                0 <= k < listing.len() ==> (#[trigger] listing[k]).created_at
                    >= table[id].created_at)
        }
}

/// The cache store.
pub struct CacheDb {
    events: Vec<CachedEvent>,
    profiles: Vec<CachedProfile>,
    event_table: Ghost<Map<Seq<char>, EventRow>>,
    profile_table: Ghost<Map<Seq<char>, ProfileRow>>,
}

/// Reads the system clock through `chrono::Utc::now` and gives its
/// `timestamp`: whole seconds since the Unix epoch. Nothing is claimed of the
/// value. `chrono` refuses to go on where the clock stands before 1970.
#[verifier::external_body]
fn unix_seconds_now() -> (now: i64) {
    chrono::Utc::now().timestamp()
}

impl CacheDb {
    /// The event table: from an event's id to its row.
    pub closed spec fn events(&self) -> Map<Seq<char>, EventRow> {
        self.event_table@
    }

    /// The profile table: from an author's key to the row.
    pub closed spec fn profiles(&self) -> Map<Seq<char>, ProfileRow> {
        self.profile_table@
    }

    /// The store's invariant: each table holds one row per key, and the rows
    /// held are exactly those of the tables' maps.
    pub closed spec fn wf(&self) -> bool {
        &&& self.event_table@.dom().finite()
        &&& self.event_table@.dom().len() == self.events@.len()
        &&& forall|i: int|
            0 <= i < self.events@.len() ==> {
                &&& self.event_table@.dom().contains(#[trigger] self.events@[i].id@)
                &&& self.event_table@[self.events@[i].id@] == self.events@[i]@
            }
        &&& forall|i: int, j: int|
            0 <= i < j < self.events@.len() ==> self.events@[i].id@ != self.events@[j].id@
        &&& forall|id: Seq<char>| #[trigger]
            self.event_table@.dom().contains(id) ==> exists|i: int|
                0 <= i < self.events@.len() && #[trigger] self.events@[i].id@ == id
        &&& self.profile_table@.dom().finite()
        &&& self.profile_table@.dom().len() == self.profiles@.len()
        &&& forall|i: int|
            0 <= i < self.profiles@.len() ==> {
                &&& self.profile_table@.dom().contains(#[trigger] self.profiles@[i].pubkey@)
                &&& self.profile_table@[self.profiles@[i].pubkey@] == self.profiles@[i]@
            }
        &&& forall|i: int, j: int|
            0 <= i < j < self.profiles@.len() ==> self.profiles@[i].pubkey@
                != self.profiles@[j].pubkey@
        &&& forall|key: Seq<char>| #[trigger]
            self.profile_table@.dom().contains(key) ==> exists|i: int|
                0 <= i < self.profiles@.len() && #[trigger] self.profiles@[i].pubkey@ == key
    }

    /// The tables of a valid store hold finitely many rows, so that their
    /// rows can be counted.
    pub proof fn tables_are_finite(&self)
        requires
            self.wf(),
        ensures
            self.events().dom().finite(),
            self.profiles().dom().finite(),
    {
    }

    /// The file that keeps the cache, below `home`.
    pub fn db_path(home: &str) -> (path: String)
        ensures
            path@ == home@ + "/.nostaro"@ + "/cache.db"@,
    {
        let mut path = NostaroConfig::config_dir(home);
        path.append("/cache.db");
        path
    }

    /// A store with both tables created and empty.
    pub fn open() -> (db: CacheDb)
        ensures
            db.wf(),
            db.events() == Map::<Seq<char>, EventRow>::empty(),
            db.profiles() == Map::<Seq<char>, ProfileRow>::empty(),
    {
        CacheDb {
            events: Vec::new(),
            profiles: Vec::new(),
            event_table: Ghost(Map::empty()),
            profile_table: Ghost(Map::empty()),
        }
    }

    fn event_index(&self, id: &String) -> (found: Option<usize>)
        requires
            self.wf(),
        ensures
            match found {
                Some(i) => i < self.events@.len() && self.events@[i as int].id@ == id@,
                None => !self.events().dom().contains(id@),
            },
    {
        let mut i: usize = 0;
        while i < self.events.len()
            invariant
                i <= self.events@.len(),
                forall|j: int| 0 <= j < i ==> self.events@[j].id@ != id@,
            decreases self.events@.len() - i,
        {
            if self.events[i].id == *id {
                return Some(i);
            }
            i += 1;
        }
        None
    }

    fn profile_index(&self, pubkey: &String) -> (found: Option<usize>)
        requires
            self.wf(),
        ensures
            match found {
                Some(i) => i < self.profiles@.len() && self.profiles@[i as int].pubkey@
                    == pubkey@,
                None => !self.profiles().dom().contains(pubkey@),
            },
    {
        let mut i: usize = 0;
        while i < self.profiles.len()
            invariant
                i <= self.profiles@.len(),
                forall|j: int| 0 <= j < i ==> self.profiles@[j].pubkey@ != pubkey@,
            decreases self.profiles@.len() - i,
        {
            if self.profiles[i].pubkey == *pubkey {
                return Some(i);
            }
            i += 1;
        }
        None
    }

    /// Stores an event under its id, replacing the row that stood there.
    pub fn store_event(
        &mut self,
        id: &str,
        pubkey: &str,
        kind: u16,
        content: &str,
        created_at: i64,
        tags_json: &str,
        raw_json: &str,
    )
        requires
            old(self).wf(),
        ensures
            final(self).wf(),
            final(self).events() == with_event(
                old(self).events(),
                (EventRow {
                    id: id@,
                    pubkey: pubkey@,
                    kind,
                    content: content@,
                    created_at,
                    tags_json: tags_json@,
                    raw_json: raw_json@,
                }),
            ),
            final(self).profiles() == old(self).profiles(),
    {
        let event = CachedEvent {
            id: id.to_owned(),
            pubkey: pubkey.to_owned(),
            kind,
            content: content.to_owned(),
            created_at,
            tags_json: tags_json.to_owned(),
            raw_json: raw_json.to_owned(),
        };
        let ghost row = event@;
        let ghost before = self.events@;
        match self.event_index(&event.id) {
            Some(i) => {
                self.events.set(i, event);
                self.event_table = Ghost(self.event_table@.insert(row.id, row));
                assert(self.event_table@.dom() =~= old(self).event_table@.dom());
                assert forall|key: Seq<char>| #[trigger]
                    self.event_table@.dom().contains(key) implies exists|j: int|
                    0 <= j < self.events@.len() && #[trigger] self.events@[j].id@ == key by {
                    let j = choose|j: int|
                        0 <= j < before.len() && #[trigger] before[j].id@ == key;
                    assert(self.events@[j].id@ == key);
                }
            },
            None => {
                self.events.push(event);
                self.event_table = Ghost(self.event_table@.insert(row.id, row));
                assert forall|key: Seq<char>| #[trigger]
                    self.event_table@.dom().contains(key) implies exists|j: int|
                    0 <= j < self.events@.len() && #[trigger] self.events@[j].id@ == key by {
                    if key == row.id {
                        assert(self.events@[before.len() as int].id@ == key);
                    } else {
                        let j = choose|j: int|
                            0 <= j < before.len() && #[trigger] before[j].id@ == key;
                        assert(self.events@[j].id@ == key);
                    }
                }
            },
        }
    }

    /// The event stored under `id`, if there is one.
    pub fn get_event(&self, id: &str) -> (found: Option<CachedEvent>)
        requires
            self.wf(),
        ensures
            match found {
                Some(event) => lookup(self.events(), id@) == Some(event@),
                None => lookup(self.events(), id@) == None::<EventRow>,
            },
    {
        let key = id.to_owned();
        match self.event_index(&key) {
            Some(i) => Some(self.events[i].clone()),
            None => None,
        }
    }

    /// Stores a profile under the author's key with the given time of
    /// writing, replacing the row that stood there.
    pub fn store_profile_at(
        &mut self,
        pubkey: &str,
        name: Option<&str>,
        display_name: Option<&str>,
        about: Option<&str>,
        picture: Option<&str>,
        updated_at: i64,
    )
        requires
            old(self).wf(),
        ensures
            final(self).wf(),
            final(self).profiles() == with_profile(
                old(self).profiles(),
                (ProfileRow {
                    pubkey: pubkey@,
                    name: opt_str_text(name),
                    display_name: opt_str_text(display_name),
                    about: opt_str_text(about),
                    picture: opt_str_text(picture),
                    updated_at,
                }),
            ),
            final(self).events() == old(self).events(),
    {
        let profile = CachedProfile {
            pubkey: pubkey.to_owned(),
            name: crate::text::own_opt(name),
            display_name: crate::text::own_opt(display_name),
            about: crate::text::own_opt(about),
            picture: crate::text::own_opt(picture),
            updated_at,
        };
        let ghost row = profile@;
        let ghost before = self.profiles@;
        match self.profile_index(&profile.pubkey) {
            Some(i) => {
                self.profiles.set(i, profile);
                self.profile_table = Ghost(self.profile_table@.insert(row.pubkey, row));
                assert(self.profile_table@.dom() =~= old(self).profile_table@.dom());
                assert forall|key: Seq<char>| #[trigger]
                    self.profile_table@.dom().contains(key) implies exists|j: int|
                    0 <= j < self.profiles@.len() && #[trigger] self.profiles@[j].pubkey@
                        == key by {
                    let j = choose|j: int|
                        0 <= j < before.len() && #[trigger] before[j].pubkey@ == key;
                    assert(self.profiles@[j].pubkey@ == key);
                }
            },
            None => {
                self.profiles.push(profile);
                self.profile_table = Ghost(self.profile_table@.insert(row.pubkey, row));
                assert forall|key: Seq<char>| #[trigger]
                    self.profile_table@.dom().contains(key) implies exists|j: int|
                    0 <= j < self.profiles@.len() && #[trigger] self.profiles@[j].pubkey@
                        == key by {
                    if key == row.pubkey {
                        assert(self.profiles@[before.len() as int].pubkey@ == key);
                    } else {
                        let j = choose|j: int|
                            0 <= j < before.len() && #[trigger] before[j].pubkey@ == key;
                        assert(self.profiles@[j].pubkey@ == key);
                    }
                }
            },
        }
    }

    /// Stores a profile under the author's key, stamped with the time at
    /// which it is written, replacing the row that stood there.
    pub fn store_profile(
        &mut self,
        pubkey: &str,
        name: Option<&str>,
        display_name: Option<&str>,
        about: Option<&str>,
        picture: Option<&str>,
    )
        requires
            old(self).wf(),
        ensures
            final(self).wf(),
            final(self).profiles() == with_profile(
                old(self).profiles(),
                (ProfileRow {
                    pubkey: pubkey@,
                    name: opt_str_text(name),
                    display_name: opt_str_text(display_name),
                    about: opt_str_text(about),
                    picture: opt_str_text(picture),
                    updated_at: final(self).profiles()[pubkey@].updated_at,
                }),
            ),
            final(self).events() == old(self).events(),
    {
        let now = unix_seconds_now();
        self.store_profile_at(pubkey, name, display_name, about, picture, now);
    }

    /// The profile stored under `pubkey`, if there is one.
    pub fn get_profile(&self, pubkey: &str) -> (found: Option<CachedProfile>)
        requires
            self.wf(),
        ensures
            match found {
                Some(profile) => lookup(self.profiles(), pubkey@) == Some(profile@),
                None => lookup(self.profiles(), pubkey@) == None::<ProfileRow>,
            },
    {
        let key = pubkey.to_owned();
        match self.profile_index(&key) {
            Some(i) => Some(self.profiles[i].clone()),
            None => None,
        }
    }

    /// Up to `limit` events of `kind`, the most recent first.
    pub fn recent_events(&self, kind: u16, limit: usize) -> (listing: Vec<CachedEvent>)
        requires
            self.wf(),
        ensures
            is_recent_listing(self.events(), kind, limit as nat, rows(listing@)),
    {
        let n = self.events.len();
        let mut taken: Vec<bool> = Vec::new();
        while taken.len() < n
            invariant
                taken@.len() <= n,
                forall|i: int| 0 <= i < taken@.len() ==> !taken@[i],
            decreases n - taken@.len(),
        {
            taken.push(false);
        }
        let mut listing: Vec<CachedEvent> = Vec::new();
        let ghost mut picked: Seq<int> = Seq::empty();
        let mut exhausted = false;
        while listing.len() < limit && !exhausted
            invariant
                self.wf(),
                n == self.events@.len(),
                taken@.len() == n,
                picked.len() == listing@.len(),
                listing@.len() <= limit,
                forall|k: int|
                    0 <= k < picked.len() ==> {
                        &&& 0 <= #[trigger] picked[k] < n
                        &&& taken@[picked[k]]
                        &&& self.events@[picked[k]].kind == kind
                        &&& listing@[k]@ == self.events@[picked[k]]@
                    },
                forall|i: int|
                    0 <= i < n && #[trigger] taken@[i] ==> exists|k: int|
                        0 <= k < picked.len() && #[trigger] picked[k] == i,
                forall|a: int, b: int|
                    0 <= a < b < picked.len() ==> #[trigger] picked[a] != #[trigger] picked[b],
                forall|a: int, b: int|
                    0 <= a < b < picked.len() ==> self.events@[#[trigger] picked[a]].created_at
                        >= self.events@[#[trigger] picked[b]].created_at,
                forall|i: int, k: int|
                    0 <= i < n && !#[trigger] taken@[i] && self.events@[i].kind == kind && 0 <= k
                        < picked.len() ==> self.events@[#[trigger] picked[k]].created_at
                        >= self.events@[i].created_at,
                exhausted ==> forall|i: int|
                    0 <= i < n && self.events@[i].kind == kind ==> #[trigger] taken@[i],
            decreases (limit - listing@.len()) + (if exhausted { 0int } else { 1int }),
        {
            let mut best: Option<usize> = None;
            let mut j: usize = 0;
            while j < n
                invariant
                    j <= n,
                    n == self.events@.len(),
                    taken@.len() == n,
                    match best {
                        Some(b) => {
                            &&& b < j
                            &&& !taken@[b as int]
                            &&& self.events@[b as int].kind == kind
                            &&& forall|i: int|
                                0 <= i < j && !#[trigger] taken@[i] && self.events@[i].kind
                                    == kind ==> self.events@[b as int].created_at
                                    >= self.events@[i].created_at
                        },
                        None => forall|i: int|
                            0 <= i < j && self.events@[i].kind == kind ==> #[trigger] taken@[i],
                    },
                decreases n - j,
            {
                if !taken[j] && self.events[j].kind == kind {
                    match best {
                        None => {
                            best = Some(j);
                        },
                        Some(b) => {
                            if self.events[j].created_at > self.events[b].created_at {
                                best = Some(j);
                            }
                        },
                    }
                }
                j += 1;
            }
            match best {
                None => {
                    exhausted = true;
                },
                Some(b) => {
                    let ghost taken_before = taken@;
                    let ghost picked_before = picked;
                    taken.set(b, true);
                    listing.push(self.events[b].clone());
                    proof {
                        picked = picked.push(b as int);
                        assert forall|i: int| 0 <= i < n && #[trigger] taken@[i] implies exists|
                            k: int,
                        | 0 <= k < picked.len() && #[trigger] picked[k] == i by {
                            if i == b {
                                assert(picked[picked_before.len() as int] == i);
                            } else {
                                assert(taken_before[i]);
                                let k = choose|k: int|
                                    0 <= k < picked_before.len() && #[trigger] picked_before[k]
                                        == i;
                                assert(picked[k] == i);
                            }
                        }
                        assert forall|a: int, c: int| 0 <= a < c < picked.len() implies (
                        #[trigger] picked[a] != #[trigger] picked[c]) && self.events@[picked[a]].created_at
                            >= self.events@[picked[c]].created_at by {
                            if c == picked_before.len() {
                                assert(picked_before[a] == picked[a]);
                                assert(taken_before[picked_before[a]]);
                            } else {
                                assert(picked_before[a] == picked[a]);
                                assert(picked_before[c] == picked[c]);
                            }
                        }
                        assert forall|i: int, k: int|
                            0 <= i < n && !#[trigger] taken@[i] && self.events@[i].kind == kind
                                && 0 <= k < picked.len() implies self.events@[#[trigger] picked[k]].created_at
                            >= self.events@[i].created_at by {
                            assert(!taken_before[i]);
                            if k < picked_before.len() {
                                assert(picked_before[k] == picked[k]);
                            }
                        }
                        assert forall|k: int| 0 <= k < picked.len() implies {
                            &&& 0 <= #[trigger] picked[k] < n
                            &&& taken@[picked[k]]
                            &&& self.events@[picked[k]].kind == kind
                            &&& listing@[k]@ == self.events@[picked[k]]@
                        } by {
                            if k < picked_before.len() {
                                assert(picked_before[k] == picked[k]);
                            }
                        }
                    }
                },
            }
        }
        proof {
            let table = self.events();
            let listed = rows(listing@);
            assert forall|k: int| 0 <= k < listed.len() implies {
                &&& table.dom().contains(#[trigger] listed[k].id)
                &&& table[listed[k].id] == listed[k]
                &&& listed[k].kind == kind
            } by {
                assert(listed[k] == self.events@[picked[k]]@);
            }
            assert forall|a: int, b: int| 0 <= a < b < listed.len() implies listed[a].id
                != listed[b].id && listed[a].created_at >= listed[b].created_at by {
                assert(listed[a] == self.events@[picked[a]]@);
                assert(listed[b] == self.events@[picked[b]]@);
                assert(picked[a] != picked[b]);
            }
            assert forall|id: Seq<char>| #[trigger]
                table.dom().contains(id) && table[id].kind == kind implies {
                ||| exists|k: int| 0 <= k < listed.len() && #[trigger] listed[k].id == id
                ||| (listed.len() == limit && forall|k: int|
                    0 <= k < listed.len() ==> (#[trigger] listed[k]).created_at
                        >= table[id].created_at)
            } by {
                let i = choose|i: int|
                    0 <= i < self.events@.len() && #[trigger] self.events@[i].id@ == id;
                assert(table[id] == self.events@[i]@);
                if taken@[i] {
                    let k = choose|k: int| 0 <= k < picked.len() && #[trigger] picked[k] == i;
                    assert(listed[k] == self.events@[picked[k]]@);
                    assert(listed[k].id == id);
                } else {
                    assert forall|k: int| 0 <= k < listed.len() implies (
                    #[trigger] listed[k]).created_at >= table[id].created_at by {
                        assert(listed[k] == self.events@[picked[k]]@);
                    }
                }
            }
        }
        listing
    }

    /// Removes every row of both tables.
    pub fn clear(&mut self)
        ensures
            final(self).wf(),
            final(self).events() == Map::<Seq<char>, EventRow>::empty(),
            final(self).profiles() == Map::<Seq<char>, ProfileRow>::empty(),
    {
        self.events = Vec::new();
        self.profiles = Vec::new();
        self.event_table = Ghost(Map::empty());
        self.profile_table = Ghost(Map::empty());
    }

    /// The number of rows of the event table and of the profile table.
    pub fn stats(&self) -> (counts: (usize, usize))
        requires
            self.wf(),
        ensures
            counts.0 == self.events().len(),
            counts.1 == self.profiles().len(),
    {
        (self.events.len(), self.profiles.len())
    }
}

/// An event that was stored is found under its id with exactly the fields
/// that were stored.
pub proof fn stored_event_is_found(table: Map<Seq<char>, EventRow>, row: EventRow)
    ensures
        lookup(with_event(table, row), row.id) == Some(row),
{
}

/// Storing an event under an id that is present replaces the whole row:
/// nothing of the earlier row is left, the table is what it would be had only
/// the later row been stored, and the later row is what is found.
pub proof fn later_event_replaces_earlier(
    table: Map<Seq<char>, EventRow>,
    earlier: EventRow,
    later: EventRow,
)
    requires
        earlier.id == later.id,
    ensures
        with_event(with_event(table, earlier), later) == with_event(table, later),
        lookup(with_event(with_event(table, earlier), later), later.id) == Some(later),
{
    assert(with_event(with_event(table, earlier), later) =~= with_event(table, later));
}

/// A most-recent-first listing holds at most `limit` rows, all of the kind
/// asked for, with creation times that never rise; and while it holds fewer
/// than `limit` rows it holds every row of that kind.
pub proof fn recent_listing_is_bounded_and_ordered(
    table: Map<Seq<char>, EventRow>,
    kind: u16,
    limit: nat,
    listing: Seq<EventRow>,
)
    requires
        is_recent_listing(table, kind, limit, listing),
    ensures
        listing.len() <= limit,
        forall|k: int| 0 <= k < listing.len() ==> (#[trigger] listing[k]).kind == kind,
        forall|a: int, b: int|
            0 <= a < b < listing.len() ==> (#[trigger] listing[a]).created_at
                >= (#[trigger] listing[b]).created_at,
        listing.len() < limit ==> forall|id: Seq<char>| #[trigger]
            table.dom().contains(id) && table[id].kind == kind ==> exists|k: int|
                0 <= k < listing.len() && #[trigger] listing[k] == table[id],
{
    assert forall|k: int| 0 <= k < listing.len() implies (#[trigger] listing[k]).kind
        == kind by {
        assert(table.dom().contains(listing[k].id));
    }
    if listing.len() < limit {
        assert forall|id: Seq<char>| #[trigger]
            table.dom().contains(id) && table[id].kind == kind implies exists|k: int|
            0 <= k < listing.len() && #[trigger] listing[k] == table[id] by {
            let k = choose|k: int| 0 <= k < listing.len() && #[trigger] listing[k].id == id;
            assert(table.dom().contains(listing[k].id));
        }
    }
}

/// Looking up a key that a table does not hold finds nothing.
pub proof fn absent_key_is_not_found<R>(table: Map<Seq<char>, R>, key: Seq<char>)
    requires
        !table.dom().contains(key),
    ensures
        lookup(table, key) == None::<R>,
{
}

/// Tables that were cleared count no rows.
pub proof fn cleared_tables_are_empty()
    ensures
        Map::<Seq<char>, EventRow>::empty().len() == 0,
        Map::<Seq<char>, ProfileRow>::empty().len() == 0,
{
}

/// Storing a profile twice under one key leaves one row for that key, the
/// later one: the table is what it would be had only the later row been
/// stored, and it counts as many rows as after the first store.
pub proof fn later_profile_replaces_earlier(
    table: Map<Seq<char>, ProfileRow>,
    earlier: ProfileRow,
    later: ProfileRow,
)
    requires
        table.dom().finite(),
        earlier.pubkey == later.pubkey,
    ensures
        with_profile(with_profile(table, earlier), later) == with_profile(table, later),
        lookup(with_profile(with_profile(table, earlier), later), later.pubkey) == Some(later),
        with_profile(with_profile(table, earlier), later).len() == with_profile(
            table,
            earlier,
        ).len(),
{
    assert(with_profile(with_profile(table, earlier), later) =~= with_profile(table, later));
    assert(with_profile(table, later).dom() =~= with_profile(table, earlier).dom());
}

/// Storing a row raises the count of a table by one where the key is new,
/// and leaves it where the key was present.
pub proof fn store_counts_a_new_key_once(
    events: Map<Seq<char>, EventRow>,
    event: EventRow,
    profiles: Map<Seq<char>, ProfileRow>,
    profile: ProfileRow,
)
    requires
        events.dom().finite(),
        profiles.dom().finite(),
    ensures
        with_event(events, event).len() == events.len() + (if events.dom().contains(event.id) {
            0nat
        } else {
            1nat
        }),
        with_profile(profiles, profile).len() == profiles.len() + (if profiles.dom().contains(
            profile.pubkey,
        ) {
            0nat
        } else {
            1nat
        }),
{
    if events.dom().contains(event.id) {
        assert(with_event(events, event).dom() =~= events.dom());
    }
    if profiles.dom().contains(profile.pubkey) {
        assert(with_profile(profiles, profile).dom() =~= profiles.dom());
    }
}

} // verus!
