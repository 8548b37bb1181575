//! Entries of many projects in one table, grouped by the project that owns them.

use vstd::prelude::*;

use crate::model::ids::InfrastructureProjectId;

verus! {

/// The items of a project, in table order.
pub open spec fn items_of<T>(
    entries: Seq<(InfrastructureProjectId, T)>,
    id: InfrastructureProjectId,
) -> Seq<T>
    decreases entries.len(),
{
    if entries.len() == 0 {
        Seq::empty()
    } else if entries.last().0 == id {
        items_of(entries.drop_last(), id).push(entries.last().1)
    } else {
        items_of(entries.drop_last(), id)
    }
}

/// The entries of all other projects, in table order.
pub open spec fn others_of<T>(
    entries: Seq<(InfrastructureProjectId, T)>,
    id: InfrastructureProjectId,
) -> Seq<(InfrastructureProjectId, T)>
    decreases entries.len(),
{
    if entries.len() == 0 {
        Seq::empty()
    } else if entries.last().0 == id {
        others_of(entries.drop_last(), id)
    } else {
        others_of(entries.drop_last(), id).push(entries.last())
    }
}

/// Takes the items of one project out of a table.
pub fn take_items<T: Copy>(
    entries: &mut Vec<(InfrastructureProjectId, T)>,
    id: InfrastructureProjectId,
) -> (taken: Vec<T>)
    ensures
        taken@ == items_of(old(entries)@, id),
        final(entries)@ == others_of(old(entries)@, id),
{
    let mut taken: Vec<T> = Vec::new();
    let mut rest: Vec<(InfrastructureProjectId, T)> = Vec::new();
    let mut i: usize = 0;
    while i < entries.len()
        invariant
            i <= entries@.len(),
            entries@ == old(entries)@,
            taken@ == items_of(entries@.take(i as int), id),
            rest@ == others_of(entries@.take(i as int), id),
        decreases entries.len() - i,
    {
        let ghost next = entries@.take(i + 1);
        assert(next.drop_last() =~= entries@.take(i as int));
        assert(next.last() == entries@[i as int]);
        let (owner, item) = entries[i];
        if owner == id {
            taken.push(item);
        } else {
            rest.push((owner, item));
        }
        i += 1;
    }
    assert(entries@.take(entries@.len() as int) =~= entries@);
    *entries = rest;
    taken
}

/// Whether a table holds an entry of a project.
pub fn has_items<T: Copy>(
    entries: &Vec<(InfrastructureProjectId, T)>,
    id: InfrastructureProjectId,
) -> (result: bool)
    ensures
        result == (items_of(entries@, id).len() > 0),
{
    let mut i: usize = 0;
    while i < entries.len()
        invariant
            i <= entries@.len(),
            items_of(entries@.take(i as int), id).len() == 0,
        decreases entries.len() - i,
    {
        let ghost next = entries@.take(i + 1);
        assert(next.drop_last() =~= entries@.take(i as int));
        assert(next.last() == entries@[i as int]);
        if entries[i].0 == id {
            proof {
                lemma_items_grow(entries@, id, i + 1);
            }
            return true;
        }
        i += 1;
    }
    assert(entries@.take(entries@.len() as int) =~= entries@);
    false
}

proof fn lemma_items_grow<T>(
    entries: Seq<(InfrastructureProjectId, T)>,
    id: InfrastructureProjectId,
    count: int,
)
    requires
        0 <= count <= entries.len(),
    ensures
        items_of(entries.take(count), id).len() <= items_of(entries, id).len(),
    decreases entries.len(),
{
    if count == entries.len() {
        assert(entries.take(count) =~= entries);
    } else {
        assert(entries.take(count) =~= entries.drop_last().take(count));
        lemma_items_grow(entries.drop_last(), id, count);
    }
}

/// Taking one project's items leaves those of every other project.
pub proof fn lemma_items_of_others<T>(
    entries: Seq<(InfrastructureProjectId, T)>,
    taken: InfrastructureProjectId,
    id: InfrastructureProjectId,
)
    ensures
        items_of(others_of(entries, taken), id) == (if taken == id {
            Seq::empty()
        } else {
            items_of(entries, id)
        }),
    decreases entries.len(),
{
    if entries.len() > 0 {
        let shorter = entries.drop_last();
        lemma_items_of_others(shorter, taken, id);
        if entries.last().0 != taken {
            let rest = others_of(shorter, taken);
            assert(rest.push(entries.last()).drop_last() =~= rest);
        }
    }
}

/// A table in which no project has items is empty.
pub proof fn lemma_no_items<T>(entries: Seq<(InfrastructureProjectId, T)>)
    requires
        forall|id: InfrastructureProjectId| #[trigger] items_of(entries, id).len() == 0,
    ensures
        entries.len() == 0,
{
    if entries.len() > 0 {
        assert(items_of(entries, entries.last().0).len() > 0);
    }
}

/// The entries that a project's items make in a table, with their positions.
pub open spec fn spread<T>(id: InfrastructureProjectId, items: Seq<T>) -> Seq<
    (InfrastructureProjectId, int, T),
> {
    Seq::new(items.len(), |k: int| (id, k, items[k]))
}

/// The table of many projects' items, one project after the other.
pub open spec fn flat<T>(owned: Seq<(InfrastructureProjectId, Seq<T>)>) -> Seq<
    (InfrastructureProjectId, int, T),
>
    decreases owned.len(),
{
    if owned.len() == 0 {
        Seq::empty()
    } else {
        flat(owned.drop_last()) + spread(owned.last().0, owned.last().1)
    }
}

/// Entries without their positions.
pub open spec fn unplaced<T>(entries: Seq<(InfrastructureProjectId, int, T)>) -> Seq<
    (InfrastructureProjectId, T),
> {
    Seq::new(entries.len(), |i: int| (entries[i].0, entries[i].2))
}

proof fn lemma_items_of_sum<T>(
    first: Seq<(InfrastructureProjectId, T)>,
    second: Seq<(InfrastructureProjectId, T)>,
    id: InfrastructureProjectId,
)
    ensures
        items_of(first + second, id) == items_of(first, id) + items_of(second, id),
    decreases second.len(),
{
    if second.len() == 0 {
        assert(first + second =~= first);
        assert(items_of(first, id) + items_of(second, id) =~= items_of(first, id));
    } else {
        lemma_items_of_sum(first, second.drop_last(), id);
        assert((first + second).drop_last() =~= first + second.drop_last());
        assert((first + second).last() == second.last());
        assert(items_of(first + second, id) =~= items_of(first, id) + items_of(second, id));
    }
}

proof fn lemma_items_of_spread<T>(
    owner: InfrastructureProjectId,
    items: Seq<T>,
    id: InfrastructureProjectId,
)
    ensures
        items_of(unplaced(spread(owner, items)), id) == (if owner == id {
            items
        } else {
            Seq::empty()
        }),
    decreases items.len(),
{
    let entries = unplaced(spread(owner, items));
    if items.len() == 0 {
        assert(entries =~= Seq::empty());
        assert(items =~= Seq::empty());
    } else {
        let shorter = items.drop_last();
        lemma_items_of_spread(owner, shorter, id);
        assert(entries.drop_last() =~= unplaced(spread(owner, shorter)));
        assert(entries.last() == (owner, items.last()));
        if owner == id {
            assert(shorter.push(items.last()) =~= items);
        }
    }
}

/// In the table of projects with distinct identities, each project finds its own items.
pub proof fn lemma_items_of_flat<T>(
    owned: Seq<(InfrastructureProjectId, Seq<T>)>,
    id: InfrastructureProjectId,
)
    requires
        forall|i: int, j: int|
            0 <= i < j < owned.len() ==> (#[trigger] owned[i]).0 != (#[trigger] owned[j]).0,
    ensures
        forall|i: int|
            0 <= i < owned.len() && (#[trigger] owned[i]).0 == id ==> items_of(
                unplaced(flat(owned)),
                id,
            ) == owned[i].1,
        (forall|i: int| 0 <= i < owned.len() ==> (#[trigger] owned[i]).0 != id) ==> items_of(
            unplaced(flat(owned)),
            id,
        ) == Seq::<T>::empty(),
    decreases owned.len(),
{
    if owned.len() == 0 {
        assert(unplaced(flat(owned)) =~= Seq::empty());
    } else {
        let shorter = owned.drop_last();
        let last = owned.last();
        lemma_items_of_flat(shorter, id);
        lemma_items_of_spread(last.0, last.1, id);
        let front = unplaced(flat(shorter));
        let back = unplaced(spread(last.0, last.1));
        assert(unplaced(flat(owned)) =~= front + back);
        lemma_items_of_sum(front, back, id);
        let whole = items_of(unplaced(flat(owned)), id);
        assert(whole == items_of(front, id) + items_of(back, id));
        if last.0 == id {
            assert forall|i: int| 0 <= i < shorter.len() implies (#[trigger] shorter[i]).0
                != id by {
                assert(shorter[i] == owned[i]);
                assert(owned[i].0 != owned[owned.len() - 1].0);
            }
            assert(items_of(front, id) =~= Seq::empty());
            assert(whole =~= last.1);
        } else {
            assert(whole =~= items_of(front, id));
            assert forall|i: int| 0 <= i < owned.len() && (#[trigger] owned[i]).0
                == id implies whole == owned[i].1 by {
                assert(i < shorter.len());
                assert(shorter[i] == owned[i]);
            }
            if forall|i: int| 0 <= i < owned.len() ==> (#[trigger] owned[i]).0 != id {
                assert forall|i: int| 0 <= i < shorter.len() implies (#[trigger] shorter[i]).0
                    != id by {
                    assert(shorter[i] == owned[i]);
                }
            }
        }
    }
}

} // verus!
