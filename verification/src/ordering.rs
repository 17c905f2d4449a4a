//! The order of members: an object lists them in the order of their names, each name once.

use vstd::prelude::*;
use vstd::string::*;

#[allow(unused_imports)]
use crate::broker::DescriptorModel;
#[allow(unused_imports)]
use crate::json::{Num, Tree};
#[allow(unused_imports)]
use crate::kernel::MemoryModel;
#[allow(unused_imports)]
use crate::model::{MessageModel, RequestModel};
#[allow(unused_imports)]
use crate::protocol::{
    ArtifactModel, CapabilityFailure, ContextModel, ReportModel, TicketModel,
};
#[allow(unused_imports)]
use crate::work::ActiveModel;

verus! {

/// Whether the names of members are ascending, so that none occurs twice.
pub open spec fn names_ascend(members: Seq<(Seq<char>, Tree)>) -> bool {
    forall|i: int, j: int|
        0 <= i < j < members.len() ==> crate::text::text_before(
            (#[trigger] members[i]).0,
            (#[trigger] members[j]).0,
        )
}

/// Whether every object in a value lists its members in the order of their names, each
/// name once, as a sorted map does.
pub open spec fn ordered(t: Tree) -> bool
    decreases t,
{
    match t {
        Tree::Array(items) => forall|i: int| 0 <= i < items.len() ==> ordered(#[trigger] items[i]),
        Tree::Object(members) => names_ascend(members) && forall|i: int|
            0 <= i < members.len() ==> ordered((#[trigger] members[i]).1),
        _ => true,
    }
}

/// The map that members stand for.
pub open spec fn as_map(members: Seq<(Seq<char>, Tree)>) -> Map<Seq<char>, Tree> {
    Map::new(
        |name: Seq<char>| crate::keyed::find(members, name) is Some,
        |name: Seq<char>| crate::keyed::find(members, name)->0,
    )
}

// ---- equality -----------------------------------------------------------------------

/// The names of members.
pub open spec fn names_of(members: Seq<(Seq<char>, Tree)>) -> Seq<Seq<char>> {
    members.map_values(|member: (Seq<char>, Tree)| member.0)
}

pub(crate) proof fn a_member_is_found(members: Seq<(Seq<char>, Tree)>, i: int)
    requires
        names_ascend(members),
        0 <= i < members.len(),
    ensures
        crate::keyed::find(members, members[i].0) == Some(members[i].1),
{
    let name = members[i].0;
    crate::keyed::find_finds_entries(members, name);
    assert(members[i].0 == name);
    let value = crate::keyed::find(members, name)->0;
    let k = choose|k: int| 0 <= k < members.len() && #[trigger] members[k] == (name, value);
    crate::text::text_order_is_total(name, name);
    if k < i {
        assert(crate::text::text_before(members[k].0, members[i].0));
    }
    if i < k {
        assert(crate::text::text_before(members[i].0, members[k].0));
    }
}

proof fn equal_domains_mean_equal_names(x: Seq<(Seq<char>, Tree)>, y: Seq<(Seq<char>, Tree)>)
    requires
        names_ascend(x),
        names_ascend(y),
        as_map(x).dom() == as_map(y).dom(),
    ensures
        names_of(x) == names_of(y),
{
    let a = names_of(x);
    let b = names_of(y);
    assert forall|name: Seq<char>| a.contains(name) <==> as_map(x).contains_key(name) by {
        crate::keyed::find_finds_entries(x, name);
        if a.contains(name) {
            let i = choose|i: int| 0 <= i < a.len() && a[i] == name;
            assert(x[i].0 == name);
        }
        if as_map(x).contains_key(name) {
            let i = choose|i: int| 0 <= i < x.len() && (#[trigger] x[i]).0 == name;
            assert(a[i] == name);
        }
    }
    assert forall|name: Seq<char>| b.contains(name) <==> as_map(y).contains_key(name) by {
        crate::keyed::find_finds_entries(y, name);
        if b.contains(name) {
            let i = choose|i: int| 0 <= i < b.len() && b[i] == name;
            assert(y[i].0 == name);
        }
        if as_map(y).contains_key(name) {
            let i = choose|i: int| 0 <= i < y.len() && (#[trigger] y[i]).0 == name;
            assert(b[i] == name);
        }
    }
    assert(crate::capability_set::ascending(a)) by {
        assert forall|i: int, j: int| 0 <= i < j < a.len() implies crate::text::text_before(
            #[trigger] a[i],
            #[trigger] a[j],
        ) by {
            assert(crate::text::text_before(x[i].0, x[j].0));
        }
    }
    assert(crate::capability_set::ascending(b)) by {
        assert forall|i: int, j: int| 0 <= i < j < b.len() implies crate::text::text_before(
            #[trigger] b[i],
            #[trigger] b[j],
        ) by {
            assert(crate::text::text_before(y[i].0, y[j].0));
        }
    }
    assert forall|name: Seq<char>| a.contains(name) <==> b.contains(name) by {
        assert(as_map(x).dom().contains(name) == as_map(y).dom().contains(name));
    }
    crate::capability_set::a_listing_is_fixed_by_its_names(a, b);
}

/// Two objects are equal exactly if, as maps, they have the same names and equal values
/// under each of them.
pub proof fn equal_objects_are_equal_maps(x: Seq<(Seq<char>, Tree)>, y: Seq<(Seq<char>, Tree)>)
    ensures
        crate::json::same(Tree::Object(x), Tree::Object(y)) <==> {
            &&& as_map(x).dom() == as_map(y).dom()
            &&& forall|name: Seq<char>| #[trigger]
                as_map(x).contains_key(name) ==> crate::json::same(
                    as_map(x)[name],
                    as_map(y)[name],
                )
        },
{
    if crate::json::same(Tree::Object(x), Tree::Object(y)) {
        assert forall|name: Seq<char>| #[trigger] as_map(x).contains_key(name) implies as_map(
            y,
        ).contains_key(name) && crate::json::same(as_map(x)[name], as_map(y)[name]) by {
            let i = crate::keyed::the_first_entry_counts(x, name);
            assert(crate::json::counts(x, i));
            assert(x[i].0 == name);
        }
        assert forall|name: Seq<char>| #[trigger] as_map(y).contains_key(name) implies as_map(
            x,
        ).contains_key(name) by {
            let j = crate::keyed::the_first_entry_counts(y, name);
            assert(y[j].0 == name);
        }
        assert(as_map(x).dom() =~= as_map(y).dom());
    }
    if as_map(x).dom() == as_map(y).dom() && forall|name: Seq<char>| #[trigger]
        as_map(x).contains_key(name) ==> crate::json::same(as_map(x)[name], as_map(y)[name]) {
        assert forall|i: int| 0 <= i < x.len() && crate::json::counts(x, i) implies (
        crate::keyed::find(y, (#[trigger] x[i]).0) matches Some(value) && crate::json::same(
            x[i].1,
            value,
        )) by {
            crate::keyed::put_replaces_or_appends(x, x[i].0, x[i].1, i);
            assert(as_map(x).contains_key(x[i].0));
            assert(as_map(y).dom().contains(x[i].0));
        }
        assert forall|j: int| 0 <= j < y.len() implies crate::keyed::find(
            x,
            (#[trigger] y[j]).0,
        ) is Some by {
            crate::keyed::find_finds_entries(y, y[j].0);
            assert(as_map(y).dom().contains(y[j].0));
            assert(as_map(x).dom().contains(y[j].0));
        }
    }
}

/// Whether two listings have the same names and equal values, one by one.
pub open spec fn listed_alike(x: Seq<(Seq<char>, Tree)>, y: Seq<(Seq<char>, Tree)>) -> bool {
    x.len() == y.len() && forall|i: int|
        0 <= i < x.len() ==> (#[trigger] x[i]).0 == y[i].0 && crate::json::same(x[i].1, y[i].1)
}

/// Two objects whose members are in order are equal exactly if their listings are alike.
pub proof fn equal_objects_are_equal_listings(
    x: Seq<(Seq<char>, Tree)>,
    y: Seq<(Seq<char>, Tree)>,
)
    requires
        names_ascend(x),
        names_ascend(y),
    ensures
        crate::json::same(Tree::Object(x), Tree::Object(y)) <==> listed_alike(x, y),
{
    equal_objects_are_equal_maps(x, y);
    if listed_alike(x, y) {
        assert forall|name: Seq<char>| #[trigger] as_map(x).contains_key(name) implies as_map(
            y,
        ).contains_key(name) && crate::json::same(as_map(x)[name], as_map(y)[name]) by {
            let i = crate::keyed::the_first_entry_counts(x, name);
            a_member_is_found(x, i);
            a_member_is_found(y, i);
        }
        assert forall|name: Seq<char>| #[trigger] as_map(y).contains_key(name) implies as_map(
            x,
        ).contains_key(name) by {
            let i = crate::keyed::the_first_entry_counts(y, name);
            assert(x[i].0 == name);
            a_member_is_found(x, i);
        }
        assert(as_map(x).dom() =~= as_map(y).dom());
    }
    if crate::json::same(Tree::Object(x), Tree::Object(y)) {
        equal_domains_mean_equal_names(x, y);
        assert(names_of(x).len() == x.len() && names_of(y).len() == y.len());
        assert forall|i: int| 0 <= i < x.len() implies (#[trigger] x[i]).0 == y[i].0
            && crate::json::same(x[i].1, y[i].1) by {
            assert(names_of(x)[i] == x[i].0 && names_of(y)[i] == y[i].0);
            a_member_is_found(x, i);
            a_member_is_found(y, i);
            assert(as_map(x).contains_key(x[i].0));
        }
    }
}

// ---- listing in order ---------------------------------------------------------------

/// A new member goes in front of the first one whose name does not stand before its own,
/// or takes the place of that one where the names are the same.
pub(crate) proof fn a_member_has_its_place(
    members: Seq<(Seq<char>, Tree)>,
    name: Seq<char>,
    value: Tree,
    at: int,
)
    requires
        0 <= at <= members.len(),
        forall|j: int| 0 <= j < at ==> crate::text::text_before((#[trigger] members[j]).0, name),
        at < members.len() ==> !crate::text::text_before(members[at].0, name),
    ensures
        crate::json::inserted(members, name, value) == (if at < members.len() && members[at].0
            == name {
            members.update(at, (name, value))
        } else {
            members.insert(at, (name, value))
        }),
    decreases members.len(),
{
    let placed = crate::json::inserted(members, name, value);
    if members.len() == 0 {
        assert(members.insert(0, (name, value)) =~= placed);
    } else if at == 0 {
        crate::text::text_order_is_total(members[0].0, name);
        if members[0].0 == name {
            assert(members.update(0, (name, value)) =~= placed);
        } else {
            assert(members.insert(0, (name, value)) =~= placed);
        }
    } else {
        let rest = members.drop_first();
        assert(crate::text::text_before(members[0].0, name));
        crate::text::text_order_is_total(members[0].0, name);
        assert forall|j: int| 0 <= j < at - 1 implies crate::text::text_before(
            (#[trigger] rest[j]).0,
            name,
        ) by {
            assert(crate::text::text_before(members[j + 1].0, name));
        }
        a_member_has_its_place(rest, name, value, at - 1);
        if at < members.len() && members[at].0 == name {
            assert(members.update(at, (name, value)) =~= placed);
        } else {
            assert(members.insert(at, (name, value)) =~= placed);
        }
    }
}

proof fn an_insertion_keeps_the_order(
    members: Seq<(Seq<char>, Tree)>,
    name: Seq<char>,
    value: Tree,
)
    requires
        names_ascend(members),
    ensures
        names_ascend(crate::json::inserted(members, name, value)),
        forall|i: int|
            0 <= i < crate::json::inserted(members, name, value).len() ==> (
            #[trigger] crate::json::inserted(members, name, value)[i]).0 == name || exists|k: int|
                0 <= k < members.len() && (#[trigger] members[k]).0 == crate::json::inserted(
                    members,
                    name,
                    value,
                )[i].0,
    decreases members.len(),
{
    let placed = crate::json::inserted(members, name, value);
    if members.len() > 0 {
        let rest = members.drop_first();
        crate::text::text_order_is_total(members[0].0, name);
        if members[0].0 == name {
            assert forall|i: int| 0 <= i < placed.len() implies (#[trigger] placed[i]).0
                == members[i].0 by {}
            assert forall|i: int, j: int| 0 <= i < j < placed.len() implies
                crate::text::text_before((#[trigger] placed[i]).0, (#[trigger] placed[j]).0) by {
                assert(crate::text::text_before(members[i].0, members[j].0));
            }
        } else if crate::text::text_before(name, members[0].0) {
            assert forall|i: int| 1 <= i < placed.len() implies (#[trigger] placed[i]).0
                == members[i - 1].0 by {}
            assert forall|i: int, j: int| 0 <= i < j < placed.len() implies
                crate::text::text_before((#[trigger] placed[i]).0, (#[trigger] placed[j]).0) by {
                if i > 0 {
                    assert(crate::text::text_before(members[i - 1].0, members[j - 1].0));
                } else if j > 1 {
                    assert(crate::text::text_before(members[0].0, members[j - 1].0));
                    crate::text::text_order_is_transitive(name, members[0].0, members[j - 1].0);
                }
            }
        } else {
            assert(names_ascend(rest)) by {
                assert forall|i: int, j: int| 0 <= i < j < rest.len() implies
                    crate::text::text_before((#[trigger] rest[i]).0, (#[trigger] rest[j]).0) by {
                    assert(crate::text::text_before(members[i + 1].0, members[j + 1].0));
                }
            }
            an_insertion_keeps_the_order(rest, name, value);
            let inner = crate::json::inserted(rest, name, value);
            assert forall|i: int| 1 <= i < placed.len() implies (#[trigger] placed[i])
                == inner[i - 1] by {}
            assert forall|i: int| 1 <= i < placed.len() implies (#[trigger] placed[i]).0 == name
                || exists|k: int|
                1 <= k < members.len() && (#[trigger] members[k]).0 == placed[i].0 by {
                if inner[i - 1].0 != name {
                    let k = choose|k: int|
                        0 <= k < rest.len() && (#[trigger] rest[k]).0 == inner[i - 1].0;
                    assert(members[k + 1].0 == placed[i].0);
                }
            }
            assert forall|i: int, j: int| 0 <= i < j < placed.len() implies
                crate::text::text_before((#[trigger] placed[i]).0, (#[trigger] placed[j]).0) by {
                if i > 0 {
                    assert(crate::text::text_before(inner[i - 1].0, inner[j - 1].0));
                } else if placed[j].0 != name {
                    let k = choose|k: int|
                        1 <= k < members.len() && (#[trigger] members[k]).0 == placed[j].0;
                    assert(crate::text::text_before(members[0].0, members[k].0));
                }
            }
        }
    }
}

/// Whatever members are given, their listing is in order.
pub proof fn a_listing_is_in_order(members: Seq<(Seq<char>, Tree)>)
    ensures
        names_ascend(crate::json::listed(members)),
    decreases members.len(),
{
    if members.len() > 0 {
        a_listing_is_in_order(members.drop_last());
        an_insertion_keeps_the_order(
            crate::json::listed(members.drop_last()),
            members.last().0,
            members.last().1,
        );
    }
}

/// Members that are in order already are listed as they are given.
pub proof fn what_is_in_order_is_listed_so(members: Seq<(Seq<char>, Tree)>)
    requires
        names_ascend(members),
    ensures
        crate::json::listed(members) == members,
    decreases members.len(),
{
    if members.len() > 0 {
        let rest = members.drop_last();
        let n = rest.len() as int;
        assert forall|i: int, j: int| 0 <= i < j < rest.len() implies crate::text::text_before(
            (#[trigger] rest[i]).0,
            (#[trigger] rest[j]).0,
        ) by {
            assert(crate::text::text_before(members[i].0, members[j].0));
        }
        what_is_in_order_is_listed_so(rest);
        assert forall|j: int| 0 <= j < n implies crate::text::text_before(
            (#[trigger] rest[j]).0,
            members.last().0,
        ) by {
            assert(crate::text::text_before(members[j].0, members[n].0));
        }
        a_member_has_its_place(rest, members.last().0, members.last().1, n);
        assert(rest.insert(n, members.last()) =~= members);
    } else {
        assert(members =~= seq![]);
    }
}

proof fn an_insertion_is_found(
    members: Seq<(Seq<char>, Tree)>,
    name: Seq<char>,
    value: Tree,
    other: Seq<char>,
)
    requires
        names_ascend(members),
    ensures
        crate::keyed::find(crate::json::inserted(members, name, value), other) == (if other
            == name {
            Some(value)
        } else {
            crate::keyed::find(members, other)
        }),
    decreases members.len(),
{
    let placed = crate::json::inserted(members, name, value);
    if members.len() == 0 {
        assert(placed.drop_first() =~= Seq::<(Seq<char>, Tree)>::empty());
        assert(crate::keyed::find(placed.drop_first(), other) is None);
    } else {
        let rest = members.drop_first();
        assert forall|i: int, j: int| 0 <= i < j < rest.len() implies crate::text::text_before(
            (#[trigger] rest[i]).0,
            (#[trigger] rest[j]).0,
        ) by {
            assert(crate::text::text_before(members[i + 1].0, members[j + 1].0));
        }
        an_insertion_is_found(rest, name, value, other);
        if members[0].0 == name {
            assert(placed.drop_first() =~= rest);
        } else if crate::text::text_before(name, members[0].0) {
            assert(placed.drop_first() =~= members);
        } else {
            assert(placed.drop_first() =~= crate::json::inserted(rest, name, value));
        }
    }
}

/// A listing is the map of what was given: each name has the value that was given last.
pub proof fn a_listing_has_the_last_values(members: Seq<(Seq<char>, Tree)>, name: Seq<char>)
    ensures
        match crate::keyed::find(crate::json::listed(members), name) {
            Some(value) => exists|i: int|
                0 <= i < members.len() && #[trigger] members[i] == (name, value) && forall|j: int|
                    i < j < members.len() ==> (#[trigger] members[j]).0 != name,
            None => forall|i: int| 0 <= i < members.len() ==> (#[trigger] members[i]).0 != name,
        },
    decreases members.len(),
{
    if members.len() > 0 {
        let rest = members.drop_last();
        a_listing_is_in_order(rest);
        a_listing_has_the_last_values(rest, name);
        an_insertion_is_found(
            crate::json::listed(rest),
            members.last().0,
            members.last().1,
            name,
        );
        if members.last().0 == name {
            assert(members[members.len() - 1] == (name, members.last().1));
        } else if let Some(value) = crate::keyed::find(crate::json::listed(rest), name) {
            let i = choose|i: int|
                0 <= i < rest.len() && #[trigger] rest[i] == (name, value) && forall|j: int|
                    i < j < rest.len() ==> (#[trigger] rest[j]).0 != name;
            assert(members[i] == (name, value));
            assert forall|j: int| i < j < members.len() implies (#[trigger] members[j]).0 != name by {
                if j < rest.len() {
                    assert(rest[j].0 != name);
                }
            }
        } else {
            assert forall|i: int| 0 <= i < members.len() implies (#[trigger] members[i]).0
                != name by {
                if i < rest.len() {
                    assert(rest[i].0 != name);
                }
            }
        }
    }
}

// ---- building in order --------------------------------------------------------------

/// A text that differs first in a smaller character stands first.
pub(crate) proof fn smaller_at(a: Seq<char>, b: Seq<char>, k: int)
    requires
        0 <= k < a.len(),
        k < b.len(),
        forall|i: int| 0 <= i < k ==> a[i] == b[i],
        (a[k] as int) < (b[k] as int),
    ensures
        crate::text::text_before(a, b),
    decreases k,
{
    if k > 0 {
        smaller_at(a.drop_first(), b.drop_first(), k - 1);
    }
}

/// A text stands before every longer one that it begins.
pub(crate) proof fn shorter_first(a: Seq<char>, b: Seq<char>)
    requires
        a.len() < b.len(),
        forall|i: int| 0 <= i < a.len() ==> a[i] == b[i],
    ensures
        crate::text::text_before(a, b),
    decreases a.len(),
{
    if a.len() > 0 {
        shorter_first(a.drop_first(), b.drop_first());
    }
}

/// A member whose name stands behind the last one keeps an object in order.
proof fn one_more(members: Seq<(Seq<char>, Tree)>, name: Seq<char>, value: Tree)
    requires
        ordered(Tree::Object(members)),
        ordered(value),
        members.len() > 0 ==> crate::text::text_before(members.last().0, name),
    ensures
        ordered(Tree::Object(members.push((name, value)))),
{
    let longer = members.push((name, value));
    let n = members.len() as int;
    assert forall|i: int, j: int| 0 <= i < j < longer.len() implies crate::text::text_before(
        (#[trigger] longer[i]).0,
        (#[trigger] longer[j]).0,
    ) by {
        if j < n {
            assert(crate::text::text_before(members[i].0, members[j].0));
        } else if i < n - 1 {
            assert(crate::text::text_before(members[i].0, members[n - 1].0));
            crate::text::text_order_is_transitive(members[i].0, members[n - 1].0, name);
        }
    }
    assert forall|i: int| 0 <= i < longer.len() implies ordered((#[trigger] longer[i]).1) by {
        if i < n {
            assert(longer[i] == members[i]);
        }
    }
}

/// An object that is built of one member with an ordered value is ordered.
pub proof fn one_member_is_ordered(a: Seq<char>, first: Tree)
    requires
        ordered(first),
    ensures
        ordered(Tree::Object(seq![(a, first)])),
{
    let none: Seq<(Seq<char>, Tree)> = seq![];
    assert(ordered(Tree::Object(none)));
    one_more(none, a, first);
}

/// An object that is built of two members in the order of their names, with ordered values,
/// is ordered.
pub proof fn two_members_are_ordered(a: Seq<char>, first: Tree, b: Seq<char>, second: Tree)
    requires
        ordered(first),
        ordered(second),
        crate::text::text_before(a, b),
    ensures
        ordered(Tree::Object(seq![(a, first), (b, second)])),
{
    one_member_is_ordered(a, first);
    one_more(seq![(a, first)], b, second);
    assert(seq![(a, first)].push((b, second)) =~= seq![(a, first), (b, second)]);
}

/// An object that is built of three members in the order of their names, with ordered
/// values, is ordered.
pub proof fn three_members_are_ordered(
    a: Seq<char>,
    first: Tree,
    b: Seq<char>,
    second: Tree,
    c: Seq<char>,
    third: Tree,
)
    requires
        ordered(first),
        ordered(second),
        ordered(third),
        crate::text::text_before(a, b),
        crate::text::text_before(b, c),
    ensures
        ordered(Tree::Object(seq![(a, first), (b, second), (c, third)])),
{
    two_members_are_ordered(a, first, b, second);
    let two = seq![(a, first), (b, second)];
    one_more(two, c, third);
    assert(two.push((c, third)) =~= seq![(a, first), (b, second), (c, third)]);
}

/// An array of strings is ordered.
pub proof fn text_arrays_are_ordered(items: Seq<Seq<char>>)
    ensures
        ordered(crate::json::text_array(items)),
{
    let trees = crate::json::text_array(items)->Array_0;
    assert forall|i: int| 0 <= i < trees.len() implies ordered(#[trigger] trees[i]) by {
        assert(trees[i] == Tree::Text(items[i]));
    }
}

// ---- what the library builds --------------------------------------------------------

/// Local authority, an authority envelope and a ticket are ordered as JSON.
pub proof fn tickets_are_ordered(ticket: TicketModel)
    ensures
        ordered(ticket.authority.local.tree()),
        ordered(ticket.authority.tree()),
        ordered(crate::protocol::context_tree(ticket.context)),
        ordered(ticket.tree()),
{
    let local = ticket.authority.local;
    assert(ordered(local.tree())) by {
        reveal_strlit("execute_local");
        reveal_strlit("read_workspace");
        reveal_strlit("write_workspace");
        smaller_at("execute_local"@, "read_workspace"@, 0);
        smaller_at("read_workspace"@, "write_workspace"@, 0);
        three_members_are_ordered(
            "execute_local"@,
            Tree::Bool(local.execute_local),
            "read_workspace"@,
            Tree::Bool(local.read_workspace),
            "write_workspace"@,
            Tree::Bool(local.write_workspace),
        );
    }
    assert(ordered(ticket.authority.tree())) by {
        reveal_strlit("external_capabilities");
        reveal_strlit("local");
        smaller_at("external_capabilities"@, "local"@, 0);
        text_arrays_are_ordered(ticket.authority.external);
        two_members_are_ordered(
            "external_capabilities"@,
            crate::json::text_array(ticket.authority.external),
            "local"@,
            local.tree(),
        );
    }
    contexts_are_ordered(ticket.context);
    text_arrays_are_ordered(ticket.constraints);
    reveal_strlit("authority");
    reveal_strlit("constraints");
    reveal_strlit("context");
    reveal_strlit("conversation_id");
    reveal_strlit("deliverable");
    reveal_strlit("id");
    reveal_strlit("objective");
    smaller_at("authority"@, "constraints"@, 0);
    smaller_at("constraints"@, "context"@, 3);
    smaller_at("context"@, "conversation_id"@, 3);
    smaller_at("conversation_id"@, "deliverable"@, 0);
    smaller_at("deliverable"@, "id"@, 0);
    smaller_at("id"@, "objective"@, 0);
    three_members_are_ordered(
        "authority"@,
        ticket.authority.tree(),
        "constraints"@,
        crate::json::text_array(ticket.constraints),
        "context"@,
        crate::protocol::context_tree(ticket.context),
    );
    let m3 = seq![
        ("authority"@, ticket.authority.tree()),
        ("constraints"@, crate::json::text_array(ticket.constraints)),
        ("context"@, crate::protocol::context_tree(ticket.context)),
    ];
    let m4 = m3.push(("conversation_id"@, crate::json::id_tree(ticket.conversation_id)));
    let m5 = m4.push(("deliverable"@, Tree::Text(ticket.deliverable)));
    let m6 = m5.push(("id"@, crate::json::id_tree(ticket.id)));
    let m7 = m6.push(("objective"@, Tree::Text(ticket.objective)));
    one_more(m3, "conversation_id"@, crate::json::id_tree(ticket.conversation_id));
    one_more(m4, "deliverable"@, Tree::Text(ticket.deliverable));
    one_more(m5, "id"@, crate::json::id_tree(ticket.id));
    one_more(m6, "objective"@, Tree::Text(ticket.objective));
    assert(m7 =~= ticket.tree()->Object_0);
}

/// A list of context items is ordered as JSON.
pub proof fn contexts_are_ordered(items: Seq<ContextModel>)
    ensures
        ordered(crate::protocol::context_tree(items)),
{
    reveal_strlit("label");
    reveal_strlit("value");
    smaller_at("label"@, "value"@, 0);
    let trees = crate::protocol::context_tree(items)->Array_0;
    assert forall|i: int| 0 <= i < trees.len() implies ordered(#[trigger] trees[i]) by {
        two_members_are_ordered(
            "label"@,
            Tree::Text(items[i].0),
            "value"@,
            Tree::Text(items[i].1),
        );
    }
}

/// A list of artifacts is ordered as JSON.
pub proof fn artifacts_are_ordered(items: Seq<ArtifactModel>)
    ensures
        ordered(crate::protocol::artifacts_tree(items)),
{
    reveal_strlit("name");
    reveal_strlit("uri");
    smaller_at("name"@, "uri"@, 0);
    let trees = crate::protocol::artifacts_tree(items)->Array_0;
    assert forall|i: int| 0 <= i < trees.len() implies ordered(#[trigger] trees[i]) by {
        two_members_are_ordered(
            "name"@,
            Tree::Text(items[i].0),
            "uri"@,
            Tree::Text(items[i].1),
        );
    }
}

/// A worker's report, and what the orchestrator is told of it, are ordered as JSON.
pub proof fn reports_are_ordered(report: ReportModel)
    ensures
        ordered(report.tree()),
        ordered(Tree::Object(seq![("worker_result"@, report.tree())])),
{
    artifacts_are_ordered(report.artifacts);
    text_arrays_are_ordered(report.notes);
    reveal_strlit("artifacts");
    reveal_strlit("conversation_id");
    reveal_strlit("notes");
    reveal_strlit("status");
    reveal_strlit("summary");
    reveal_strlit("ticket_id");
    reveal_strlit("worker_id");
    smaller_at("artifacts"@, "conversation_id"@, 0);
    smaller_at("conversation_id"@, "notes"@, 0);
    smaller_at("notes"@, "status"@, 0);
    smaller_at("status"@, "summary"@, 1);
    smaller_at("summary"@, "ticket_id"@, 0);
    smaller_at("ticket_id"@, "worker_id"@, 0);
    three_members_are_ordered(
        "artifacts"@,
        crate::protocol::artifacts_tree(report.artifacts),
        "conversation_id"@,
        crate::json::id_tree(report.conversation_id),
        "notes"@,
        crate::json::text_array(report.notes),
    );
    let m3 = seq![
        ("artifacts"@, crate::protocol::artifacts_tree(report.artifacts)),
        ("conversation_id"@, crate::json::id_tree(report.conversation_id)),
        ("notes"@, crate::json::text_array(report.notes)),
    ];
    let m4 = m3.push(("status"@, Tree::Text(crate::protocol::status_name(report.status))));
    let m5 = m4.push(("summary"@, Tree::Text(report.summary)));
    let m6 = m5.push(("ticket_id"@, crate::json::id_tree(report.ticket_id)));
    let m7 = m6.push(("worker_id"@, crate::json::id_tree(report.worker_id)));
    one_more(m3, "status"@, Tree::Text(crate::protocol::status_name(report.status)));
    one_more(m4, "summary"@, Tree::Text(report.summary));
    one_more(m5, "ticket_id"@, crate::json::id_tree(report.ticket_id));
    one_more(m6, "worker_id"@, crate::json::id_tree(report.worker_id));
    assert(m7 =~= report.tree()->Object_0);
    one_member_is_ordered("worker_result"@, report.tree());
}

/// A capability's result is ordered as JSON where its data and metadata are.
pub proof fn results_are_ordered(capability: Seq<char>, data: Tree, metadata: Tree)
    requires
        ordered(data),
        ordered(metadata),
    ensures
        ordered(crate::protocol::result_tree(capability, data, metadata)),
{
    reveal_strlit("capability");
    reveal_strlit("data");
    reveal_strlit("metadata");
    smaller_at("capability"@, "data"@, 0);
    smaller_at("data"@, "metadata"@, 0);
    three_members_are_ordered(
        "capability"@,
        Tree::Text(capability),
        "data"@,
        data,
        "metadata"@,
        metadata,
    );
}

/// What the translating model is shown is ordered where the schemas in the shortlist are.
pub proof fn translation_prompts_are_ordered(request: Seq<char>, shortlist: Seq<DescriptorModel>)
    requires
        forall|i: int| 0 <= i < shortlist.len() ==> ordered((#[trigger] shortlist[i]).1.1),
    ensures
        ordered(crate::broker::translation_prompt(request, shortlist)),
{
    let catalog = crate::broker::catalog_tree(shortlist);
    assert(ordered(catalog)) by {
        catalogs_are_ordered(shortlist);
    }
    reveal_strlit("capabilities");
    reveal_strlit("request");
    smaller_at("capabilities"@, "request"@, 0);
    two_members_are_ordered("capabilities"@, catalog, "request"@, Tree::Text(request));
}

proof fn catalogs_are_ordered(items: Seq<DescriptorModel>)
    requires
        forall|i: int| 0 <= i < items.len() ==> ordered((#[trigger] items[i]).1.1),
    ensures
        ordered(crate::broker::catalog_tree(items)),
{
    reveal_strlit("argument_schema");
    reveal_strlit("description");
    reveal_strlit("name");
    smaller_at("argument_schema"@, "description"@, 0);
    smaller_at("description"@, "name"@, 0);
    let trees = crate::broker::catalog_tree(items)->Array_0;
    assert forall|i: int| 0 <= i < trees.len() implies ordered(#[trigger] trees[i]) by {
        three_members_are_ordered(
            "argument_schema"@,
            items[i].1.1,
            "description"@,
            Tree::Text(items[i].1.0),
            "name"@,
            Tree::Text(items[i].0),
        );
    }
}

/// The body that is sent to a model gateway is ordered.
pub proof fn payloads_are_ordered(request: RequestModel)
    ensures
        ordered(crate::chat_completions::payload_tree(request)),
{
    let messages = Tree::Array(
        request.messages.map_values(|m: MessageModel| crate::chat_completions::message_tree(m)),
    );
    messages_are_ordered(request.messages);
    let warmth = Tree::Number(Num::Float(request.temperature.0, request.temperature.1));
    let format = Tree::Object(seq![("type"@, Tree::Text("json_object"@))]);
    one_member_is_ordered("type"@, Tree::Text("json_object"@));
    reveal_strlit("max_tokens");
    reveal_strlit("messages");
    reveal_strlit("response_format");
    reveal_strlit("temperature");
    smaller_at("max_tokens"@, "messages"@, 1);
    smaller_at("messages"@, "response_format"@, 0);
    smaller_at("messages"@, "temperature"@, 0);
    smaller_at("response_format"@, "temperature"@, 0);
    let none: Seq<(Seq<char>, Tree)> = seq![];
    assert(ordered(Tree::Object(none)));
    let limited = match request.max_output_tokens {
        Some(n) => none.push(("max_tokens"@, Tree::Number(Num::Int(n as int)))),
        None => none,
    };
    if let Some(n) = request.max_output_tokens {
        one_more(none, "max_tokens"@, Tree::Number(Num::Int(n as int)));
    }
    one_more(limited, "messages"@, messages);
    let asked = limited.push(("messages"@, messages));
    let shaped = if request.output is JsonObject {
        asked.push(("response_format"@, format))
    } else {
        asked
    };
    if request.output is JsonObject {
        one_more(asked, "response_format"@, format);
    }
    one_more(shaped, "temperature"@, warmth);
    assert(shaped.push(("temperature"@, warmth)) =~= crate::chat_completions::payload_tree(
        request,
    )->Object_0);
}

proof fn messages_are_ordered(items: Seq<MessageModel>)
    ensures
        ordered(
            Tree::Array(
                items.map_values(|m: MessageModel| crate::chat_completions::message_tree(m)),
            ),
        ),
{
    reveal_strlit("content");
    reveal_strlit("role");
    smaller_at("content"@, "role"@, 0);
    let trees = items.map_values(|m: MessageModel| crate::chat_completions::message_tree(m));
    assert forall|i: int| 0 <= i < trees.len() implies ordered(#[trigger] trees[i]) by {
        two_members_are_ordered(
            "content"@,
            Tree::Text(items[i].1),
            "role"@,
            Tree::Text(crate::model::role_name(items[i].0)),
        );
    }
}

proof fn active_work_is_ordered(items: Seq<ActiveModel>)
    ensures
        ordered(crate::work::active_tree(items)),
{
    reveal_strlit("id");
    reveal_strlit("objective");
    reveal_strlit("state");
    smaller_at("id"@, "objective"@, 0);
    smaller_at("objective"@, "state"@, 0);
    let trees = crate::work::active_tree(items)->Array_0;
    assert forall|i: int| 0 <= i < trees.len() implies ordered(#[trigger] trees[i]) by {
        three_members_are_ordered(
            "id"@,
            crate::json::id_tree(items[i].0),
            "objective"@,
            Tree::Text(items[i].1),
            "state"@,
            Tree::Text(crate::protocol::state_name(items[i].2)),
        );
    }
}

/// The context that the orchestrator is shown is ordered where the relevance of its
/// memories is.
pub proof fn orchestrator_contexts_are_ordered(
    memories: Seq<MemoryModel>,
    active: Seq<ActiveModel>,
    report: Option<ReportModel>,
)
    requires
        forall|i: int| 0 <= i < memories.len() ==> ordered((#[trigger] memories[i]).1),
    ensures
        ordered(crate::kernel::orchestrator_context(memories, active, report)),
{
    let recalled = Tree::Array(
        memories.map_values(|item: MemoryModel| crate::kernel::memory_tree(item)),
    );
    assert(ordered(recalled)) by {
        reveal_strlit("relevance");
        reveal_strlit("text");
        smaller_at("relevance"@, "text"@, 0);
        let trees = recalled->Array_0;
        assert forall|i: int| 0 <= i < trees.len() implies ordered(#[trigger] trees[i]) by {
            two_members_are_ordered(
                "relevance"@,
                memories[i].1,
                "text"@,
                Tree::Text(memories[i].0),
            );
        }
    }
    active_work_is_ordered(active);
    let event = match report {
        Some(report) => Tree::Text(crate::kernel::report_event(report)),
        None => Tree::Null,
    };
    reveal_strlit("active_work");
    reveal_strlit("external_event");
    reveal_strlit("retrieved_memories");
    smaller_at("active_work"@, "external_event"@, 0);
    smaller_at("external_event"@, "retrieved_memories"@, 0);
    three_members_are_ordered(
        "active_work"@,
        crate::work::active_tree(active),
        "external_event"@,
        event,
        "retrieved_memories"@,
        recalled,
    );
}

/// The results of local operations are ordered.
pub proof fn operation_results_are_ordered(
    content: Seq<char>,
    offset: u64,
    limit: u64,
    status: Option<i32>,
    stdout: Seq<char>,
    stderr: Seq<char>,
    entries: Seq<Seq<char>>,
)
    ensures
        ordered(crate::workbench::read_result(content, offset, limit)),
        ordered(crate::workbench::exec_result(status, stdout, stderr)),
        ordered(Tree::Object(seq![("ok"@, Tree::Bool(true))])),
        ordered(Tree::Object(seq![("entries"@, crate::json::text_array(entries))])),
{
    reads_are_ordered(content, offset, limit);
    commands_are_ordered(status, stdout, stderr);
    one_member_is_ordered("ok"@, Tree::Bool(true));
    text_arrays_are_ordered(entries);
    one_member_is_ordered("entries"@, crate::json::text_array(entries));
}

pub(crate) proof fn reads_are_ordered(content: Seq<char>, offset: u64, limit: u64)
    ensures
        ordered(crate::workbench::read_result(content, offset, limit)),
{
    let part = crate::workbench::read_window(content, offset, limit);
    let returned = Tree::Number(Num::Int(crate::text::byte_len(part) as int));
    let total = Tree::Number(Num::Int(crate::text::byte_len(content) as int));
    let cut = Tree::Bool(crate::text::byte_len(part) < crate::text::byte_len(content));
    reveal_strlit("bytes_returned");
    reveal_strlit("content");
    reveal_strlit("total_bytes");
    reveal_strlit("truncated");
    smaller_at("bytes_returned"@, "content"@, 0);
    smaller_at("content"@, "total_bytes"@, 0);
    smaller_at("total_bytes"@, "truncated"@, 1);
    three_members_are_ordered(
        "bytes_returned"@,
        returned,
        "content"@,
        Tree::Text(part),
        "total_bytes"@,
        total,
    );
    let m3 = seq![
        ("bytes_returned"@, returned),
        ("content"@, Tree::Text(part)),
        ("total_bytes"@, total),
    ];
    let m4 = m3.push(("truncated"@, cut));
    one_more(m3, "truncated"@, cut);
    assert(m4 =~= crate::workbench::read_result(content, offset, limit)->Object_0);
}

pub(crate) proof fn commands_are_ordered(status: Option<i32>, stdout: Seq<char>, stderr: Seq<char>)
    ensures
        ordered(crate::workbench::exec_result(status, stdout, stderr)),
{
    let code = crate::workbench::status_tree(status);
    let err = Tree::Text(crate::workbench::capped(stderr));
    let err_cut = Tree::Bool(crate::workbench::over_the_cap(stderr));
    let out = Tree::Text(crate::workbench::capped(stdout));
    let out_cut = Tree::Bool(crate::workbench::over_the_cap(stdout));
    reveal_strlit("status");
    reveal_strlit("stderr");
    reveal_strlit("stderr_truncated");
    reveal_strlit("stdout");
    reveal_strlit("stdout_truncated");
    smaller_at("status"@, "stderr"@, 2);
    shorter_first("stderr"@, "stderr_truncated"@);
    smaller_at("stderr_truncated"@, "stdout"@, 3);
    shorter_first("stdout"@, "stdout_truncated"@);
    three_members_are_ordered("status"@, code, "stderr"@, err, "stderr_truncated"@, err_cut);
    let m3 = seq![
        ("status"@, code),
        ("stderr"@, err),
        ("stderr_truncated"@, err_cut),
    ];
    let m4 = m3.push(("stdout"@, out));
    let m5 = m4.push(("stdout_truncated"@, out_cut));
    one_more(m3, "stdout"@, out);
    one_more(m4, "stdout_truncated"@, out_cut);
    assert(m5 =~= crate::workbench::exec_result(status, stdout, stderr)->Object_0);
}

/// What a worker observes, and the context that its model is shown, are ordered; of a
/// result that came from outside, where that result is.
pub proof fn worker_contexts_are_ordered(
    ticket: TicketModel,
    observations: Seq<Seq<char>>,
    operation: Seq<char>,
    result: Tree,
    why: Seq<char>,
    failure: CapabilityFailure,
)
    requires
        ordered(result),
    ensures
        ordered(crate::worker::worker_context(ticket, observations)),
        ordered(crate::worker::local_observation(operation, result)),
        ordered(crate::worker::capability_observation(result)),
        ordered(crate::worker::denied_observation(operation, why)),
        ordered(crate::worker::failure_observation(failure)),
        ordered(crate::worker::correction_observation(why)),
{
    let shown = crate::json::text_array(crate::worker::window(observations));
    text_arrays_are_ordered(crate::worker::window(observations));
    tickets_are_ordered(ticket);
    reveal_strlit("recent_observations");
    reveal_strlit("ticket");
    smaller_at("recent_observations"@, "ticket"@, 0);
    two_members_are_ordered("recent_observations"@, shown, "ticket"@, ticket.tree());
    reveal_strlit("local_operation");
    reveal_strlit("result");
    smaller_at("local_operation"@, "result"@, 0);
    two_members_are_ordered("local_operation"@, Tree::Text(operation), "result"@, result);
    reveal_strlit("denied");
    smaller_at("denied"@, "local_operation"@, 0);
    two_members_are_ordered(
        "denied"@,
        Tree::Text(why),
        "local_operation"@,
        Tree::Text(operation),
    );
    one_member_is_ordered("capability_result"@, result);
    one_member_is_ordered(
        "capability_error"@,
        Tree::Text(crate::protocol::failure_code(failure)),
    );
    one_member_is_ordered("invalid_action"@, Tree::Text(why));
}

proof fn responses_are_ordered(text: Seq<char>)
    ensures
        ordered(crate::demo::script::respond_tree(text)),
{
    reveal_strlit("text");
    reveal_strlit("type");
    smaller_at("text"@, "type"@, 1);
    two_members_are_ordered("text"@, Tree::Text(text), "type"@, Tree::Text("respond"@));
}

proof fn the_greedy_authority_is_ordered()
    ensures
        ordered(crate::demo::script::greedy_authority()),
{
    let tree = crate::demo::script::greedy_authority();
    let names = tree->Object_0[0].1;
    let local = tree->Object_0[1].1;
    text_arrays_are_ordered(seq!["web.search"@, "communication.email.send"@]);
    assert(ordered(local)) by {
        reveal_strlit("execute_local");
        reveal_strlit("read_workspace");
        reveal_strlit("write_workspace");
        smaller_at("execute_local"@, "read_workspace"@, 0);
        smaller_at("read_workspace"@, "write_workspace"@, 0);
        three_members_are_ordered(
            "execute_local"@,
            Tree::Bool(true),
            "read_workspace"@,
            Tree::Bool(true),
            "write_workspace"@,
            Tree::Bool(true),
        );
    }
    reveal_strlit("external_capabilities");
    reveal_strlit("local");
    smaller_at("external_capabilities"@, "local"@, 0);
    two_members_are_ordered("external_capabilities"@, names, "local"@, local);
}

pub(crate) proof fn the_proposed_ticket_is_ordered()
    ensures
        ordered(crate::demo::script::proposed_ticket()),
{
    let tree = crate::demo::script::proposed_ticket();
    let constraints = tree->Object_0[1].1;
    let context = tree->Object_0[2].1;
    let deliverable = tree->Object_0[3].1;
    let objective = tree->Object_0[4].1;
    the_greedy_authority_is_ordered();
    text_arrays_are_ordered(seq!["Do not modify any files."@]);
    assert(ordered(context)) by {
        let item = context->Array_0[0];
        reveal_strlit("label");
        reveal_strlit("value");
        smaller_at("label"@, "value"@, 0);
        two_members_are_ordered("label"@, item->Object_0[0].1, "value"@, item->Object_0[1].1);
        assert(context->Array_0.len() == 1);
    }
    reveal_strlit("authority");
    reveal_strlit("constraints");
    reveal_strlit("context");
    reveal_strlit("deliverable");
    reveal_strlit("objective");
    smaller_at("authority"@, "constraints"@, 0);
    smaller_at("constraints"@, "context"@, 3);
    smaller_at("context"@, "deliverable"@, 0);
    smaller_at("deliverable"@, "objective"@, 0);
    three_members_are_ordered(
        "authority"@,
        crate::demo::script::greedy_authority(),
        "constraints"@,
        constraints,
        "context"@,
        context,
    );
    let m3 = seq![
        ("authority"@, crate::demo::script::greedy_authority()),
        ("constraints"@, constraints),
        ("context"@, context),
    ];
    let m4 = m3.push(("deliverable"@, deliverable));
    let m5 = m4.push(("objective"@, objective));
    one_more(m3, "deliverable"@, deliverable);
    one_more(m4, "objective"@, objective);
    assert(m5 =~= tree->Object_0);
}

proof fn the_orchestrator_script_is_ordered()
    ensures
        ordered(crate::demo::script::delegation()),
        ordered(crate::demo::script::synthesis()),
{
    reveal_strlit("actions");
    reveal_strlit("memory_proposals");
    smaller_at("actions"@, "memory_proposals"@, 0);
    let first = crate::demo::script::delegation()->Object_0;
    let second = crate::demo::script::synthesis()->Object_0;
    let actions = first[0].1->Array_0;
    responses_are_ordered(actions[0]->Object_0[0].1->Text_0);
    the_proposed_ticket_is_ordered();
    reveal_strlit("ticket");
    reveal_strlit("type");
    smaller_at("ticket"@, "type"@, 1);
    two_members_are_ordered(
        "ticket"@,
        crate::demo::script::proposed_ticket(),
        "type"@,
        Tree::Text("submit"@),
    );
    assert(actions.len() == 2);
    assert forall|i: int| 0 <= i < actions.len() implies ordered(#[trigger] actions[i]) by {
        assert(i == 0 || i == 1);
    }
    assert(ordered(first[0].1));
    text_arrays_are_ordered(seq![]);
    two_members_are_ordered("actions"@, first[0].1, "memory_proposals"@, first[1].1);
    let answers = second[0].1->Array_0;
    responses_are_ordered(answers[0]->Object_0[0].1->Text_0);
    assert(answers.len() == 1);
    assert(ordered(second[0].1));
    text_arrays_are_ordered(seq!["The Seam workspace targets the Rust 2024 edition."@]);
    two_members_are_ordered("actions"@, second[0].1, "memory_proposals"@, second[1].1);
}

proof fn local_actions_are_ordered(operation: Seq<char>, arguments: Tree)
    requires
        ordered(arguments),
    ensures
        ordered(crate::demo::script::local_tree(operation, arguments)),
{
    reveal_strlit("arguments");
    reveal_strlit("operation");
    reveal_strlit("type");
    smaller_at("arguments"@, "operation"@, 0);
    smaller_at("operation"@, "type"@, 0);
    three_members_are_ordered(
        "arguments"@,
        arguments,
        "operation"@,
        Tree::Text(operation),
        "type"@,
        Tree::Text("local"@),
    );
}

proof fn the_worker_script_is_ordered(k: int)
    requires
        0 <= k < crate::demo::script::worker_turns().len(),
    ensures
        ordered(crate::demo::script::worker_turns()[k]),
{
    let turns = crate::demo::script::worker_turns();
    one_member_is_ordered("path"@, Tree::Text("."@));
    local_actions_are_ordered("list_dir"@, turns[0]->Object_0[0].1);
    reveal_strlit("limit");
    reveal_strlit("path");
    smaller_at("limit"@, "path"@, 0);
    two_members_are_ordered(
        "limit"@,
        Tree::Number(Num::Int(400)),
        "path"@,
        Tree::Text("Cargo.toml"@),
    );
    local_actions_are_ordered("read_file"@, turns[1]->Object_0[0].1);
    reveal_strlit("content");
    smaller_at("content"@, "path"@, 0);
    two_members_are_ordered(
        "content"@,
        Tree::Text("scratch"@),
        "path"@,
        Tree::Text("notes.txt"@),
    );
    local_actions_are_ordered("write_file"@, turns[2]->Object_0[0].1);
    reveal_strlit("request");
    reveal_strlit("type");
    smaller_at("request"@, "type"@, 0);
    two_members_are_ordered(
        "request"@,
        turns[3]->Object_0[0].1,
        "type"@,
        Tree::Text("capability"@),
    );
    let finish = turns[4]->Object_0;
    reveal_strlit("artifacts");
    reveal_strlit("summary");
    reveal_strlit("type");
    smaller_at("artifacts"@, "summary"@, 0);
    smaller_at("summary"@, "type"@, 0);
    three_members_are_ordered(
        "artifacts"@,
        finish[0].1,
        "summary"@,
        finish[1].1,
        "type"@,
        finish[2].1,
    );
    assert(k == 0 || k == 1 || k == 2 || k == 3 || k == 4);
}

/// Every scripted reply is ordered, and so is what the search provider answers where its
/// arguments are.
pub proof fn the_scripts_are_ordered(k: int, arguments: Tree)
    requires
        0 <= k < crate::demo::script::worker_turns().len(),
        ordered(arguments),
    ensures
        ordered(crate::demo::script::delegation()),
        ordered(crate::demo::script::synthesis()),
        ordered(crate::demo::script::worker_turns()[k]),
        ordered(crate::demo::script::translation()),
        ordered(crate::demo::script::search_answer(arguments)),
{
    the_orchestrator_script_is_ordered();
    the_worker_script_is_ordered(k);
    let query = crate::demo::script::translation()->Object_0[0].1;
    one_member_is_ordered("query"@, Tree::Text("Rust 2024 edition changes"@));
    reveal_strlit("arguments");
    reveal_strlit("capability");
    smaller_at("arguments"@, "capability"@, 0);
    two_members_are_ordered("arguments"@, query, "capability"@, Tree::Text("web.search"@));
    let answer = crate::demo::script::search_answer(arguments)->Object_0;
    let found = answer[2].1->Array_0;
    reveal_strlit("snippet");
    reveal_strlit("title");
    smaller_at("snippet"@, "title"@, 0);
    two_members_are_ordered("snippet"@, found[0]->Object_0[0].1, "title"@, found[0]->Object_0[1].1);
    assert(found.len() == 1);
    assert(ordered(answer[2].1));
    reveal_strlit("echoed_arguments");
    reveal_strlit("note");
    reveal_strlit("results");
    smaller_at("echoed_arguments"@, "note"@, 0);
    smaller_at("note"@, "results"@, 0);
    three_members_are_ordered(
        "echoed_arguments"@,
        arguments,
        "note"@,
        answer[1].1,
        "results"@,
        answer[2].1,
    );
}

} // verus!
