//! Lists of identifiers that are kept as sets: nothing occurs twice, and
//! what came first stays first.

use crate::oid::ObjectId;
use vstd::prelude::*;

verus! {

/// The identifiers other than `id`.
pub open spec fn other_than(id: ObjectId) -> spec_fn(ObjectId) -> bool {
    |other: ObjectId| other != id
}

/// `list` without every occurrence of `id`.
pub open spec fn without(list: Seq<ObjectId>, id: ObjectId) -> Seq<ObjectId> {
    list.filter(other_than(id))
}

/// `list` with `id` at the end, unless it is in `list` already.
pub open spec fn with(list: Seq<ObjectId>, id: ObjectId) -> Seq<ObjectId> {
    if list.contains(id) {
        list
    } else {
        list.push(id)
    }
}

/// Adding to a set gives a set that holds the new item and the old ones.
pub proof fn lemma_with(list: Seq<ObjectId>, id: ObjectId)
    requires
        list.no_duplicates(),
    ensures
        with(list, id).no_duplicates(),
        forall|other: ObjectId|
            with(list, id).contains(other) <==> (other == id || list.contains(other)),
{
    let after = with(list, id);
    if !list.contains(id) {
        assert forall|i: int, j: int| 0 <= i < after.len() && 0 <= j < after.len() && i
            != j implies after[i] != after[j] by {
            if i < list.len() && j < list.len() {
                assert(list[i] != list[j]);
            } else if i < list.len() {
                assert(list.contains(list[i]));
            } else {
                assert(list.contains(list[j]));
            }
        }
        assert forall|other: ObjectId|
            after.contains(other) <==> (other == id || list.contains(other)) by {
            if other == id {
                assert(after[list.len() as int] == id);
            }
            if list.contains(other) {
                let k = choose|k: int| 0 <= k < list.len() && list[k] == other;
                assert(after[k] == other);
            }
            if after.contains(other) {
                let k = choose|k: int| 0 <= k < after.len() && after[k] == other;
                if k < list.len() {
                    assert(list[k] == other);
                }
            }
        }
    }
}

/// Removing from a set gives a set that holds the other items and not the
/// removed one.
pub proof fn lemma_without(list: Seq<ObjectId>, id: ObjectId)
    requires
        list.no_duplicates(),
    ensures
        without(list, id).no_duplicates(),
        forall|other: ObjectId|
            without(list, id).contains(other) <==> (other != id && list.contains(other)),
    decreases list.len(),
{
    reveal(Seq::filter);
    let after = without(list, id);
    if list.len() > 0 {
        let rest = list.drop_last();
        let last = list.last();
        let before = without(rest, id);
        lemma_without(rest, id);
        assert(!rest.contains(last)) by {
            if rest.contains(last) {
                let k = choose|k: int| 0 <= k < rest.len() && rest[k] == last;
                assert(list[k] == list[list.len() - 1]);
            }
        }
        assert(after == if last != id {
            before.push(last)
        } else {
            before
        });
        assert forall|other: ObjectId|
            after.contains(other) <==> (other != id && list.contains(other)) by {
            if list.contains(other) {
                let k = choose|k: int| 0 <= k < list.len() && list[k] == other;
                if k < rest.len() {
                    assert(rest[k] == other);
                }
            }
            if rest.contains(other) {
                let k = choose|k: int| 0 <= k < rest.len() && rest[k] == other;
                assert(list[k] == other);
            }
            if before.contains(other) {
                let k = choose|k: int| 0 <= k < before.len() && before[k] == other;
                if last != id {
                    assert(after[k] == other);
                }
            }
            if after.contains(other) && last != id {
                let k = choose|k: int| 0 <= k < after.len() && after[k] == other;
                if k < before.len() {
                    assert(before[k] == other);
                }
            }
            if last != id && other == last {
                assert(after[before.len() as int] == last);
                assert(list[list.len() - 1] == other);
            }
        }
        if last != id {
            assert forall|i: int, j: int| 0 <= i < after.len() && 0 <= j < after.len() && i
                != j implies after[i] != after[j] by {
                if i < before.len() && j < before.len() {
                    assert(before[i] != before[j]);
                } else if i < before.len() {
                    assert(before.contains(before[i]));
                } else {
                    assert(before.contains(before[j]));
                }
            }
        }
    }
}

/// Whether `id` is in `list`.
pub fn contains(list: &Vec<ObjectId>, id: ObjectId) -> (found: bool)
    ensures
        found == list@.contains(id),
{
    let mut i: usize = 0;
    while i < list.len()
        invariant
            i <= list@.len(),
            forall|k: int| 0 <= k < i ==> list@[k] != id,
        decreases list@.len() - i,
    {
        if list[i] == id {
            return true;
        }
        i = i + 1;
    }
    false
}

/// Whether nothing occurs twice in `list`.
pub fn is_set(list: &Vec<ObjectId>) -> (set: bool)
    ensures
        set == list@.no_duplicates(),
{
    let mut i: usize = 0;
    while i < list.len()
        invariant
            i <= list@.len(),
            list@.take(i as int).no_duplicates(),
        decreases list@.len() - i,
    {
        let ghost seen = list@.take(i as int);
        let mut k: usize = 0;
        while k < i
            invariant
                k <= i < list@.len(),
                forall|j: int| 0 <= j < k ==> list@[j] != list@[i as int],
            decreases i - k,
        {
            if list[k] == list[i] {
                return false;
            }
            k = k + 1;
        }
        proof {
            let more = list@.take(i + 1);
            assert forall|a: int, b: int| 0 <= a < more.len() && 0 <= b < more.len() && a
                != b implies more[a] != more[b] by {
                if a < i && b < i {
                    assert(seen[a] != seen[b]);
                }
            }
        }
        i = i + 1;
    }
    proof {
        assert(list@.take(i as int) =~= list@);
    }
    true
}

/// Puts `id` at the end of `list`, unless it is there already.
pub fn insert_once(list: &mut Vec<ObjectId>, id: ObjectId)
    ensures
        final(list)@ == with(old(list)@, id),
{
    if !contains(list, id) {
        list.push(id);
    }
}

/// Takes every occurrence of `id` out of `list`.
pub fn remove_each(list: &mut Vec<ObjectId>, id: ObjectId)
    ensures
        final(list)@ == without(old(list)@, id),
{
    let ghost before = list@;
    let ghost keep = other_than(id);
    let mut kept: Vec<ObjectId> = Vec::new();
    let mut i: usize = 0;
    proof {
        reveal(Seq::filter);
        assert(before.take(0) =~= Seq::<ObjectId>::empty());
    }
    while i < list.len()
        invariant
            i <= list@.len(),
            list@ == before,
            keep == other_than(id),
            kept@ == before.take(i as int).filter(keep),
        decreases list@.len() - i,
    {
        let item = list[i];
        proof {
            reveal(Seq::filter);
            assert(before.take(i + 1).drop_last() =~= before.take(i as int));
            assert(before.take(i + 1).last() == item);
        }
        if item != id {
            kept.push(item);
        }
        i = i + 1;
    }
    proof {
        assert(before.take(i as int) =~= before);
    }
    *list = kept;
}

} // verus!
