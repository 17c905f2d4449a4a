//! Lists of named entries, as models of maps that keep the order of their names.

use vstd::prelude::*;

verus! {

/// The value of the first entry with this name.
pub open spec fn find<T>(entries: Seq<(Seq<char>, T)>, name: Seq<char>) -> Option<T>
    decreases entries.len(),
{
    if entries.len() == 0 {
        None
    } else if entries[0].0 == name {
        Some(entries[0].1)
    } else {
        find(entries.drop_first(), name)
    }
}

/// The entries with the first one of this name replaced, or with a new last one.
pub open spec fn put<T>(entries: Seq<(Seq<char>, T)>, name: Seq<char>, value: T) -> Seq<
    (Seq<char>, T),
>
    decreases entries.len(),
{
    if entries.len() == 0 {
        seq![(name, value)]
    } else if entries[0].0 == name {
        seq![(name, value)] + entries.drop_first()
    } else {
        seq![entries[0]] + put(entries.drop_first(), name, value)
    }
}

/// Whether no name occurs twice.
pub open spec fn distinct<T>(entries: Seq<(Seq<char>, T)>) -> bool {
    forall|i: int, j: int|
        0 <= i < j < entries.len() ==> (#[trigger] entries[i]).0 != (#[trigger] entries[j]).0
}

/// An entry is found exactly where its name occurs, and what is found is an entry.
pub proof fn find_finds_entries<T>(entries: Seq<(Seq<char>, T)>, name: Seq<char>)
    ensures
        find(entries, name) is Some <==> exists|i: int|
            0 <= i < entries.len() && (#[trigger] entries[i]).0 == name,
        find(entries, name) matches Some(value) ==> exists|i: int|
            0 <= i < entries.len() && #[trigger] entries[i] == (name, value),
    decreases entries.len(),
{
    if entries.len() > 0 {
        let rest = entries.drop_first();
        find_finds_entries(rest, name);
        assert forall|i: int| 0 <= i < rest.len() implies #[trigger] rest[i] == entries[i + 1] by {}
        if entries[0].0 == name {
            assert(entries[0] == (name, entries[0].1));
        } else {
            if find(entries, name) is Some {
                let i = choose|i: int|
                    0 <= i < rest.len() && #[trigger] rest[i] == (name, find(entries, name)->0);
                assert(entries[i + 1] == (name, find(entries, name)->0));
            }
            if exists|i: int| 0 <= i < entries.len() && (#[trigger] entries[i]).0 == name {
                let i = choose|i: int| 0 <= i < entries.len() && (#[trigger] entries[i]).0 == name;
                assert(rest[i - 1].0 == name);
            }
        }
    }
}

/// What was put is found, and every other name keeps what it had.
pub proof fn what_is_put_is_found<T>(
    entries: Seq<(Seq<char>, T)>,
    name: Seq<char>,
    value: T,
    other: Seq<char>,
)
    ensures
        find(put(entries, name, value), other) == (if other == name {
            Some(value)
        } else {
            find(entries, other)
        }),
    decreases entries.len(),
{
    let after = put(entries, name, value);
    if entries.len() == 0 {
        assert(after.drop_first() =~= Seq::<(Seq<char>, T)>::empty());
        assert(find(after.drop_first(), other) is None);
    } else if entries[0].0 == name {
        assert(after.drop_first() =~= entries.drop_first());
    } else {
        what_is_put_is_found(entries.drop_first(), name, value, other);
        assert(after.drop_first() =~= put(entries.drop_first(), name, value));
    }
}

/// Putting an entry keeps the names distinct.
pub proof fn putting_keeps_names_distinct<T>(
    entries: Seq<(Seq<char>, T)>,
    name: Seq<char>,
    value: T,
)
    requires
        distinct(entries),
    ensures
        distinct(put(entries, name, value)),
    decreases entries.len(),
{
    let after = put(entries, name, value);
    if entries.len() > 0 {
        let rest = entries.drop_first();
        assert(distinct(rest)) by {
            assert forall|i: int, j: int| 0 <= i < j < rest.len() implies (#[trigger] rest[i]).0
                != (#[trigger] rest[j]).0 by {
                assert(entries[i + 1].0 != entries[j + 1].0);
            }
        }
        if entries[0].0 == name {
            assert forall|i: int, j: int| 0 <= i < j < after.len() implies (#[trigger] after[i]).0
                != (#[trigger] after[j]).0 by {
                assert(after[j] == entries[j]);
                assert(after[i].0 == entries[i].0);
                assert(entries[i].0 != entries[j].0);
            }
        } else {
            putting_keeps_names_distinct(rest, name, value);
            let inner = put(rest, name, value);
            assert forall|i: int, j: int| 0 <= i < j < after.len() implies (#[trigger] after[i]).0
                != (#[trigger] after[j]).0 by {
                assert(after[j] == inner[j - 1]);
                if i > 0 {
                    assert(after[i] == inner[i - 1]);
                } else {
                    what_is_put_is_found(rest, name, value, entries[0].0);
                    find_finds_entries(inner, entries[0].0);
                    find_finds_entries(rest, entries[0].0);
                    if inner[j - 1].0 == entries[0].0 {
                        assert(find(inner, entries[0].0) is Some);
                        let k = choose|k: int|
                            0 <= k < rest.len() && (#[trigger] rest[k]).0 == entries[0].0;
                        assert(entries[0].0 != entries[k + 1].0);
                    }
                }
            }
        }
    }
}

/// Putting a value where one of that name stands replaces it in place; otherwise it is
/// appended.
pub proof fn put_replaces_or_appends<T>(
    entries: Seq<(Seq<char>, T)>,
    name: Seq<char>,
    value: T,
    at: int,
)
    requires
        0 <= at <= entries.len(),
        at < entries.len() ==> entries[at].0 == name,
        forall|i: int| 0 <= i < at ==> (#[trigger] entries[i]).0 != name,
    ensures
        at < entries.len() ==> put(entries, name, value) == entries.update(at, (name, value))
            && find(entries, name) == Some(entries[at].1),
        at == entries.len() ==> put(entries, name, value) == entries.push((name, value)) && find(
            entries,
            name,
        ) is None,
    decreases entries.len(),
{
    if entries.len() == 0 {
        assert(entries.push((name, value)) =~= seq![(name, value)]);
    } else if at == 0 {
        assert(entries.update(0, (name, value)) =~= seq![(name, value)] + entries.drop_first());
    } else {
        let rest = entries.drop_first();
        assert forall|i: int| 0 <= i < at - 1 implies (#[trigger] rest[i]).0 != name by {
            assert(entries[i + 1].0 != name);
        }
        assert(entries[0].0 != name);
        put_replaces_or_appends(rest, name, value, at - 1);
        if at < entries.len() {
            assert(entries.update(at, (name, value)) =~= seq![entries[0]] + rest.update(
                at - 1,
                (name, value),
            ));
        } else {
            assert(entries.push((name, value)) =~= seq![entries[0]] + rest.push((name, value)));
        }
    }
}

/// The entry that counts under a name is the first one of that name.
pub proof fn the_first_entry_counts<T>(entries: Seq<(Seq<char>, T)>, name: Seq<char>) -> (i: int)
    requires
        find(entries, name) is Some,
    ensures
        0 <= i < entries.len(),
        entries[i] == (name, find(entries, name)->0),
        forall|j: int| 0 <= j < i ==> (#[trigger] entries[j]).0 != name,
    decreases entries.len(),
{
    if entries[0].0 == name {
        0
    } else {
        let rest = entries.drop_first();
        let k = the_first_entry_counts(rest, name);
        assert(entries[k + 1] == rest[k]);
        assert forall|j: int| 0 <= j < k + 1 implies (#[trigger] entries[j]).0 != name by {
            if j > 0 {
                assert(rest[j - 1].0 != name);
            }
        }
        k + 1
    }
}

} // verus!
