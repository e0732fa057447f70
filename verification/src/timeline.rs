//! Putting fetched events in the order in which they are shown, and telling
//! which of them are shown at all.

use vstd::prelude::*;
use crate::lists::contains;
use crate::lists::holds;

verus! {

/// What the order of an event depends on.
#[derive(Debug, Clone, Copy, PartialEq, Eq)]
pub struct Entry {
    /// Whether the author is followed, or is the operator.
    pub followed: bool,
    /// When the author says the event was made, in seconds.
    pub created_at: u64,
}

/// An order of events.
#[derive(Debug, Clone, Copy, PartialEq, Eq)]
pub enum Order {
    /// Later events first.
    NewestFirst,
    /// Earlier events first.
    OldestFirst,
    /// Events of followed authors first; within each group, later events
    /// first.
    FollowedThenNewest,
}

/// Whether `a` has its place before `b` by what the order looks at.
pub open spec fn precedes(order: Order, a: Entry, b: Entry) -> bool {
    match order {
        Order::NewestFirst => a.created_at > b.created_at,
        Order::OldestFirst => a.created_at < b.created_at,
        Order::FollowedThenNewest => (a.followed && !b.followed) || (a.followed == b.followed
            && a.created_at > b.created_at),
    }
}

/// Whether the entry at `a` is shown before the entry at `b`: it precedes
/// it, or neither precedes the other and it came in first.
pub open spec fn comes_first(order: Order, entries: Seq<Entry>, a: int, b: int) -> bool {
    precedes(order, entries[a], entries[b]) || (!precedes(order, entries[b], entries[a]) && a
        < b)
}

/// Whether `shown` lists the positions of `entries`, as many as there are
/// entries, each before every position that is shown after it.
pub open spec fn is_arrangement(order: Order, entries: Seq<Entry>, shown: Seq<usize>) -> bool {
    &&& shown.len() == entries.len()
    &&& forall|p: int| 0 <= p < shown.len() ==> (#[trigger] shown[p]) < entries.len()
    &&& forall|p: int, q: int|
        0 <= p < q < shown.len() ==> comes_first(
            order,
            entries,
            (#[trigger] shown[p]) as int,
            (#[trigger] shown[q]) as int,
        )
}

/// Decides whether the entry at `a` is shown before the entry at `b`.
pub fn shown_before(order: Order, entries: &Vec<Entry>, a: usize, b: usize) -> (first: bool)
    requires
        a < entries@.len(),
        b < entries@.len(),
    ensures
        first == comes_first(order, entries@, a as int, b as int),
{
    let x = entries[a];
    let y = entries[b];
    let (forth, back) = match order {
        Order::NewestFirst => (x.created_at > y.created_at, y.created_at > x.created_at),
        Order::OldestFirst => (x.created_at < y.created_at, y.created_at < x.created_at),
        Order::FollowedThenNewest => (
            (x.followed && !y.followed) || (x.followed == y.followed && x.created_at
                > y.created_at),
            (y.followed && !x.followed) || (y.followed == x.followed && y.created_at
                > x.created_at),
        ),
    };
    forth || (!back && a < b)
}

/// Lists the positions of all `entries` in the order in which they are
/// shown. Entries that the order does not tell apart stay as they came in.
pub fn arrange(entries: &Vec<Entry>, order: Order) -> (shown: Vec<usize>)
    ensures
        is_arrangement(order, entries@, shown@),
{
    let n = entries.len();
    let mut shown: Vec<usize> = Vec::new();
    while shown.len() < n
        invariant
            shown@.len() <= n,
            forall|p: int| 0 <= p < shown@.len() ==> shown@[p] == p,
        decreases n - shown@.len(),
    {
        shown.push(shown.len());
    }
    let mut k: usize = 0;
    while k < n
        invariant
            k <= n,
            n == entries@.len(),
            shown@.len() == n,
            forall|p: int| 0 <= p < n ==> (#[trigger] shown@[p]) < n,
            forall|p: int, q: int|
                0 <= p < q < n ==> (#[trigger] shown@[p]) != (#[trigger] shown@[q]),
            forall|p: int, q: int|
                0 <= p < k && p < q < n ==> comes_first(
                    order,
                    entries@,
                    (#[trigger] shown@[p]) as int,
                    (#[trigger] shown@[q]) as int,
                ),
        decreases n - k,
    {
        let mut m: usize = k;
        let mut q: usize = k + 1;
        while q < n
            invariant
                k <= m < q <= n,
                n == entries@.len(),
                shown@.len() == n,
                forall|p: int| 0 <= p < n ==> (#[trigger] shown@[p]) < n,
                forall|p: int, r: int|
                    0 <= p < r < n ==> (#[trigger] shown@[p]) != (#[trigger] shown@[r]),
                forall|r: int|
                    k <= r < q && r != m ==> comes_first(
                        order,
                        entries@,
                        shown@[m as int] as int,
                        (#[trigger] shown@[r]) as int,
                    ),
            decreases n - q,
        {
            if shown_before(order, entries, shown[q], shown[m]) {
                m = q;
            }
            q += 1;
        }
        let first = shown[m];
        let moved = shown[k];
        let ghost before = shown@;
        shown.set(m, moved);
        shown.set(k, first);
        assert forall|p: int, r: int| 0 <= p < r < n implies (#[trigger] shown@[p]) != (
        #[trigger] shown@[r]) by {
            let from_p = if p == k as int {
                m as int
            } else if p == m as int {
                k as int
            } else {
                p
            };
            let from_r = if r == k as int {
                m as int
            } else if r == m as int {
                k as int
            } else {
                r
            };
            assert(shown@[p] == before[from_p]);
            assert(shown@[r] == before[from_r]);
        }
        assert forall|p: int, r: int| 0 <= p < k + 1 && p < r < n implies comes_first(
            order,
            entries@,
            (#[trigger] shown@[p]) as int,
            (#[trigger] shown@[r]) as int,
        ) by {
            let from_r = if r == k as int {
                m as int
            } else if r == m as int {
                k as int
            } else {
                r
            };
            assert(shown@[r] == before[from_r]);
            if p < k {
                assert(shown@[p] == before[p]);
            } else {
                assert(shown@[p] == before[m as int]);
            }
        }
        k += 1;
    }
    shown
}

/// The positions below `n` that `keep` holds of, in rising order.
pub open spec fn picks(n: int, keep: spec_fn(int) -> bool) -> Seq<usize>
    decreases n,
{
    if n <= 0 {
        Seq::<usize>::empty()
    } else if keep(n - 1) {
        picks(n - 1, keep).push((n - 1) as usize)
    } else {
        picks(n - 1, keep)
    }
}

/// Holds of a position of `candidates` whose id is not among `seen`.
pub open spec fn is_fresh(seen: Seq<String>, candidates: Seq<String>) -> spec_fn(int) -> bool {
    |i: int| !holds(seen, candidates[i]@)
}

/// Holds of a position of `ids` that does not repeat the id just before it.
pub open spec fn starts_run(ids: Seq<String>) -> spec_fn(int) -> bool {
    |i: int| i == 0 || ids[i]@ != ids[i - 1]@
}

/// The positions of the `candidates` whose id is not among `seen`, in order.
pub fn fresh(seen: &Vec<String>, candidates: &Vec<String>) -> (kept: Vec<usize>)
    ensures
        kept@ == picks(candidates@.len() as int, is_fresh(seen@, candidates@)),
{
    let mut kept: Vec<usize> = Vec::new();
    let mut i: usize = 0;
    while i < candidates.len()
        invariant
            i <= candidates@.len(),
            kept@ == picks(i as int, is_fresh(seen@, candidates@)),
        decreases candidates@.len() - i,
    {
        if !contains(seen, candidates[i].as_str()) {
            kept.push(i);
        }
        i += 1;
    }
    kept
}

/// The positions of `ids` that are left when of each run of equal ids only
/// the first is kept.
pub fn run_starts(ids: &Vec<String>) -> (kept: Vec<usize>)
    ensures
        kept@ == picks(ids@.len() as int, starts_run(ids@)),
{
    let mut kept: Vec<usize> = Vec::new();
    let mut i: usize = 0;
    while i < ids.len()
        invariant
            i <= ids@.len(),
            kept@ == picks(i as int, starts_run(ids@)),
        decreases ids@.len() - i,
    {
        if i == 0 || ids[i] != ids[i - 1] {
            kept.push(i);
        }
        i += 1;
    }
    kept
}

/// Whether more events are fetched from everyone: when those of followed
/// authors do not fill the timeline.
pub fn wants_more(found: usize, limit: usize) -> (more: bool)
    ensures
        more == (found < limit),
{
    found < limit
}

/// How an author is marked in the timeline.
pub fn author_label(is_self: bool, is_following: bool) -> (label: String)
    ensures
        label@ == (if is_self {
            " [you]"@
        } else if is_following {
            " [following]"@
        } else {
            ""@
        }),
{
    if is_self {
        " [you]".to_owned()
    } else if is_following {
        " [following]".to_owned()
    } else {
        "".to_owned()
    }
}

} // verus!
