//! Lists of texts without repeats: the relays of a configuration, the
//! contacts of an operator.

use vstd::prelude::*;

verus! {

/// Whether `list` holds `item`.
pub open spec fn holds(list: Seq<String>, item: Seq<char>) -> bool {
    exists|i: int| 0 <= i < list.len() && (#[trigger] list[i])@ == item
}

/// `list` without every entry equal to `item`, the rest in order.
pub open spec fn without(list: Seq<String>, item: Seq<char>) -> Seq<String>
    decreases list.len(),
{
    if list.len() == 0 {
        Seq::<String>::empty()
    } else {
        let rest = without(list.drop_last(), item);
        if list.last()@ == item {
            rest
        } else {
            rest.push(list.last())
        }
    }
}

/// What is left after a removal holds the removed item no more, and is as
/// long as the list was exactly when the list did not hold the item.
pub proof fn without_drops_the_item(list: Seq<String>, item: Seq<char>)
    ensures
        !holds(without(list, item), item),
        without(list, item).len() <= list.len(),
        without(list, item).len() == list.len() <==> !holds(list, item),
        !holds(list, item) ==> without(list, item) == list,
        forall|other: Seq<char>|
            #![trigger holds(list, other)]
            other != item ==> (holds(without(list, item), other) <==> holds(list, other)),
    decreases list.len(),
{
    if list.len() > 0 {
        let front = list.drop_last();
        without_drops_the_item(front, item);
        let rest = without(front, item);
        let out = without(list, item);
        if holds(out, item) {
            let i = choose|i: int| 0 <= i < out.len() && (#[trigger] out[i])@ == item;
            if i < rest.len() {
                assert(rest[i]@ == item);
            }
            assert(false);
        }
        if holds(front, item) {
            let i = choose|i: int| 0 <= i < front.len() && (#[trigger] front[i])@ == item;
            assert(list[i]@ == item);
        }
        if list.last()@ == item {
            assert(list[list.len() - 1]@ == item);
        }
        if holds(list, item) && list.last()@ != item {
            let i = choose|i: int| 0 <= i < list.len() && (#[trigger] list[i])@ == item;
            assert(front[i]@ == item);
        }
        if !holds(list, item) {
            assert(out =~= list);
        }
        assert forall|other: Seq<char>| other != item implies (holds(out, other) <==> holds(
            list,
            other,
        )) by {
            if holds(out, other) {
                let i = choose|i: int| 0 <= i < out.len() && (#[trigger] out[i])@ == other;
                if i < rest.len() {
                    assert(rest[i]@ == other);
                    assert(holds(rest, other));
                    assert(holds(front, other));
                    let j = choose|j: int|
                        0 <= j < front.len() && (#[trigger] front[j])@ == other;
                    assert(list[j]@ == other);
                } else {
                    assert(list[list.len() - 1]@ == other);
                }
            }
            if holds(list, other) {
                let i = choose|i: int| 0 <= i < list.len() && (#[trigger] list[i])@ == other;
                if i < front.len() {
                    assert(front[i]@ == other);
                    assert(holds(front, other));
                    assert(holds(rest, other));
                    let j = choose|j: int| 0 <= j < rest.len() && (#[trigger] rest[j])@ == other;
                    assert(out[j]@ == other);
                } else {
                    assert(out[out.len() - 1]@ == other);
                }
            }
        }
    }
}

/// Whether `list` holds `item`.
pub fn contains(list: &Vec<String>, item: &str) -> (found: bool)
    ensures
        found == holds(list@, item@),
{
    let key = item.to_owned();
    let mut i: usize = 0;
    while i < list.len()
        invariant
            i <= list@.len(),
            key@ == item@,
            forall|j: int| 0 <= j < i ==> (#[trigger] list@[j])@ != item@,
        decreases list@.len() - i,
    {
        if list[i] == key {
            return true;
        }
        i += 1;
    }
    false
}

/// Appends `item` unless `list` holds it already; says whether it was added.
pub fn insert(list: &mut Vec<String>, item: &str) -> (added: bool)
    ensures
        added == !holds(old(list)@, item@),
        added ==> final(list)@.len() == old(list)@.len() + 1,
        added ==> final(list)@.drop_last() == old(list)@,
        added ==> final(list)@.last()@ == item@,
        !added ==> final(list)@ == old(list)@,
{
    if contains(list, item) {
        false
    } else {
        list.push(item.to_owned());
        assert(list@.drop_last() =~= old(list)@);
        true
    }
}

/// Removes every entry equal to `item`; says whether there was one.
pub fn remove(list: &mut Vec<String>, item: &str) -> (removed: bool)
    ensures
        removed == holds(old(list)@, item@),
        final(list)@ == without(old(list)@, item@),
{
    let key = item.to_owned();
    let mut kept: Vec<String> = Vec::new();
    let mut i: usize = 0;
    while i < list.len()
        invariant
            i <= list@.len(),
            key@ == item@,
            kept@ == without(list@.take(i as int), item@),
        decreases list@.len() - i,
    {
        assert(list@.take(i + 1).drop_last() =~= list@.take(i as int));
        if list[i] != key {
            kept.push(list[i].clone());
        }
        i += 1;
    }
    assert(list@.take(list@.len() as int) =~= list@);
    proof {
        without_drops_the_item(list@, item@);
    }
    let removed = kept.len() != list.len();
    *list = kept;
    removed
}

} // verus!
