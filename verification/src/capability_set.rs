//! Sets of capability names.

use vstd::prelude::*;
use vstd::string::*;

use crate::text::{comes_before, same_text};

verus! {

/// Whether each text stands before every later one.
pub open spec fn ascending(names: Seq<Seq<char>>) -> bool {
    forall|i: int, j: int|
        0 <= i < j < names.len() ==> crate::text::text_before(
            #[trigger] names[i],
            #[trigger] names[j],
        )
}

/// A set of capability names, held in ascending order and without repetition.
///
/// Its view is that ascending listing.
#[derive(Debug)]
pub struct CapabilitySet {
    names: Vec<String>,
}

impl View for CapabilitySet {
    type V = Seq<Seq<char>>;

    closed spec fn view(&self) -> Seq<Seq<char>> {
        crate::json::texts(self.names@)
    }
}

/// Two ascending listings of the same names are the same listing.
pub proof fn a_listing_is_fixed_by_its_names(a: Seq<Seq<char>>, b: Seq<Seq<char>>)
    requires
        ascending(a),
        ascending(b),
        forall|name: Seq<char>| a.contains(name) <==> b.contains(name),
    ensures
        a == b,
    decreases a.len(),
{
    if a.len() == 0 {
        if b.len() > 0 {
            assert(b.contains(b[0]));
            assert(a.contains(b[0]));
        }
        assert(a =~= b);
    } else {
        assert(a.contains(a[0]));
        assert(b.contains(a[0]));
        assert(b.len() > 0);
        assert(b.contains(b[0]));
        assert(a.contains(b[0]));
        let i = choose|i: int| 0 <= i < a.len() && a[i] == b[0];
        let j = choose|j: int| 0 <= j < b.len() && b[j] == a[0];
        crate::text::text_order_is_total(a[0], b[0]);
        if i > 0 && j > 0 {
            assert(crate::text::text_before(a[0], a[i]));
            assert(crate::text::text_before(b[0], b[j]));
        }
        assert(a[0] == b[0]);
        let x = a.drop_first();
        let y = b.drop_first();
        assert(ascending(x)) by {
            assert forall|p: int, q: int| 0 <= p < q < x.len() implies crate::text::text_before(
                #[trigger] x[p],
                #[trigger] x[q],
            ) by {
                assert(crate::text::text_before(a[p + 1], a[q + 1]));
            }
        }
        assert(ascending(y)) by {
            assert forall|p: int, q: int| 0 <= p < q < y.len() implies crate::text::text_before(
                #[trigger] y[p],
                #[trigger] y[q],
            ) by {
                assert(crate::text::text_before(b[p + 1], b[q + 1]));
            }
        }
        assert forall|name: Seq<char>| x.contains(name) <==> y.contains(name) by {
            crate::text::text_order_is_total(a[0], a[0]);
            if x.contains(name) {
                let p = choose|p: int| 0 <= p < x.len() && x[p] == name;
                assert(a[p + 1] == name);
                assert(crate::text::text_before(a[0], a[p + 1]));
                assert(a.contains(name));
                let q = choose|q: int| 0 <= q < b.len() && b[q] == name;
                assert(q != 0);
                assert(y[q - 1] == name);
            }
            if y.contains(name) {
                let p = choose|p: int| 0 <= p < y.len() && y[p] == name;
                assert(b[p + 1] == name);
                assert(crate::text::text_before(b[0], b[p + 1]));
                assert(b.contains(name));
                let q = choose|q: int| 0 <= q < a.len() && a[q] == name;
                assert(q != 0);
                assert(x[q - 1] == name);
            }
        }
        a_listing_is_fixed_by_its_names(x, y);
        assert(a =~= seq![a[0]] + x);
        assert(b =~= seq![b[0]] + y);
    }
}

impl CapabilitySet {
    #[verifier::type_invariant]
    closed spec fn ordered(self) -> bool {
        ascending(self@)
    }

    /// The set without names.
    pub fn new() -> (set: Self)
        ensures
            set@ == Seq::<Seq<char>>::empty(),
    {
        let set = CapabilitySet { names: Vec::new() };
        assert(set@ =~= Seq::<Seq<char>>::empty());
        set
    }

    /// Whether a name is in the set.
    pub fn contains(&self, name: &str) -> (found: bool)
        ensures
            found == self@.contains(name@),
    {
        let mut i: usize = 0;
        while i < self.names.len()
            invariant
                i <= self.names.len(),
                forall|j: int| 0 <= j < i ==> #[trigger] self@[j] != name@,
            decreases self.names.len() - i,
        {
            if same_text(self.names[i].as_str(), name) {
                assert(self@[i as int] == name@);
                return true;
            }
            i = i + 1;
        }
        false
    }

    /// Puts a name into the set.
    pub fn insert(&mut self, name: String)
        ensures
            ascending(final(self)@),
            forall|other: Seq<char>|
                final(self)@.contains(other) <==> old(self)@.contains(other) || other == name@,
    {
        proof {
            use_type_invariant(&*self);
        }
        let ghost before = self@;
        let mut at: usize = 0;
        while at < self.names.len() && comes_before(self.names[at].as_str(), name.as_str())
            invariant
                at <= self.names.len(),
                self@ == before,
                forall|j: int|
                    0 <= j < at ==> crate::text::text_before(#[trigger] before[j], name@),
            decreases self.names.len() - at,
        {
            at = at + 1;
        }
        if at < self.names.len() && same_text(self.names[at].as_str(), name.as_str()) {
            assert(before[at as int] == name@);
            return;
        }
        let mut names: Vec<String> = Vec::new();
        std::mem::swap(&mut names, &mut self.names);
        let ghost added = name@;
        names.insert(at, name);
        proof {
            let listed = crate::json::texts(names@);
            assert(listed =~= before.insert(at as int, added));
            if at < before.len() {
                crate::text::text_order_is_total(before[at as int], added);
            }
            assert forall|j: int| at <= j < before.len() implies crate::text::text_before(
                added,
                #[trigger] before[j],
            ) by {
                if j > at {
                    crate::text::text_order_is_transitive(added, before[at as int], before[j]);
                }
            }
            assert(ascending(listed)) by {
                assert forall|p: int, q: int|
                    0 <= p < q < listed.len() implies crate::text::text_before(
                    #[trigger] listed[p],
                    #[trigger] listed[q],
                ) by {
                    let pp = if p < at {
                        p
                    } else {
                        p - 1
                    };
                    let qq = if q < at {
                        q
                    } else {
                        q - 1
                    };
                    if p != at && q != at {
                        assert(listed[p] == before[pp] && listed[q] == before[qq]);
                    }
                }
            }
            assert forall|other: Seq<char>|
                listed.contains(other) <==> before.contains(other) || other == added by {
                assert(listed[at as int] == added);
                if before.contains(other) {
                    let j = choose|j: int| 0 <= j < before.len() && before[j] == other;
                    if j < at {
                        assert(listed[j] == other);
                    } else {
                        assert(listed[j + 1] == other);
                    }
                }
                if listed.contains(other) && other != added {
                    let j = choose|j: int| 0 <= j < listed.len() && listed[j] == other;
                    if j < at {
                        assert(before[j] == other);
                    } else {
                        assert(before[j - 1] == other);
                    }
                }
            }
        }
        self.names = names;
    }

    /// The set of these names.
    pub fn from_names(names: Vec<String>) -> (set: Self)
        ensures
            ascending(set@),
            forall|name: Seq<char>|
                set@.contains(name) <==> crate::json::texts(names@).contains(name),
    {
        let mut set = CapabilitySet::new();
        let ghost given = crate::json::texts(names@);
        let mut i: usize = 0;
        assert(given.take(0) =~= Seq::<Seq<char>>::empty());
        while i < names.len()
            invariant
                i <= names.len(),
                given == crate::json::texts(names@),
                ascending(set@),
                forall|name: Seq<char>|
                    #[trigger] set@.contains(name) <==> given.take(i as int).contains(name),
            decreases names.len() - i,
        {
            set.insert(names[i].clone());
            proof {
                let shorter = given.take(i as int);
                let longer = given.take(i + 1);
                assert(longer =~= shorter.push(given[i as int]));
                assert forall|name: Seq<char>|
                    longer.contains(name) <==> shorter.contains(name) || name == given[i as int] by {
                    assert(longer[i as int] == given[i as int]);
                    if shorter.contains(name) {
                        let j = choose|j: int| 0 <= j < shorter.len() && shorter[j] == name;
                        assert(longer[j] == name);
                    }
                }
            }
            i = i + 1;
        }
        assert(given.take(names.len() as int) =~= given);
        set
    }

    /// The names that are also in `other`.
    pub fn restricted_to(&self, other: &CapabilitySet) -> (set: Self)
        ensures
            set@ == self@.filter(|name: Seq<char>| other@.contains(name)),
    {
        proof {
            use_type_invariant(self);
        }
        let ghost keep = |name: Seq<char>| other@.contains(name);
        let mut names: Vec<String> = Vec::new();
        let mut i: usize = 0;
        assert(self@.take(0).filter(keep) =~= Seq::<Seq<char>>::empty()) by {
            reveal(Seq::filter);
        }
        while i < self.names.len()
            invariant
                i <= self.names.len(),
                keep == (|name: Seq<char>| other@.contains(name)),
                ascending(self@),
                crate::json::texts(names@) == self@.take(i as int).filter(keep),
                ascending(crate::json::texts(names@)),
                forall|j: int|
                    0 <= j < names@.len() ==> self@.take(i as int).contains(
                        #[trigger] crate::json::texts(names@)[j],
                    ),
            decreases self.names.len() - i,
        {
            let ghost listed = crate::json::texts(names@);
            proof {
                assert(self@.take(i + 1).drop_last() =~= self@.take(i as int));
                assert(self@.take(i + 1).last() == self@[i as int]);
                reveal(Seq::filter);
            }
            if other.contains(self.names[i].as_str()) {
                names.push(self.names[i].clone());
                proof {
                    assert(crate::json::texts(names@) =~= listed.push(self@[i as int]));
                    assert forall|p: int, q: int|
                        0 <= p < q < names@.len() implies crate::text::text_before(
                        #[trigger] crate::json::texts(names@)[p],
                        #[trigger] crate::json::texts(names@)[q],
                    ) by {
                        if q == listed.len() {
                            assert(self@.take(i as int).contains(listed[p]));
                            let k = choose|k: int| 0 <= k < i && self@.take(i as int)[k] == listed[p];
                            assert(crate::text::text_before(self@[k], self@[i as int]));
                        } else {
                            assert(crate::text::text_before(listed[p], listed[q]));
                        }
                    }
                }
            }
            proof {
                let longer = self@.take(i + 1);
                assert forall|j: int| 0 <= j < names@.len() implies longer.contains(
                    #[trigger] crate::json::texts(names@)[j],
                ) by {
                    if j == listed.len() {
                        assert(longer[i as int] == crate::json::texts(names@)[j]);
                    } else {
                        assert(crate::json::texts(names@)[j] == listed[j]);
                        let k = choose|k: int| 0 <= k < i && self@.take(i as int)[k] == listed[j];
                        assert(longer[k] == listed[j]);
                    }
                }
            }
            i = i + 1;
        }
        assert(self@.take(self.names.len() as int) =~= self@);
        CapabilitySet { names }
    }

    /// The names, in ascending order.
    pub fn names(&self) -> (names: &Vec<String>)
        ensures
            crate::json::texts(names@) == self@,
            ascending(self@),
    {
        proof {
            use_type_invariant(self);
        }
        &self.names
    }

    /// How many names are in the set.
    pub fn len(&self) -> (n: usize)
        ensures
            n == self@.len(),
    {
        self.names.len()
    }

    /// Whether no name is in the set.
    pub fn is_empty(&self) -> (empty: bool)
        ensures
            empty == (self@.len() == 0),
    {
        self.names.len() == 0
    }
}

impl Default for CapabilitySet {
    fn default() -> (set: Self)
        ensures
            set@ == Seq::<Seq<char>>::empty(),
    {
        CapabilitySet::new()
    }
}

impl Clone for CapabilitySet {
    fn clone(&self) -> (copy: Self)
        ensures
            copy@ == self@,
    {
        proof {
            use_type_invariant(self);
        }
        let names = copy_names(&self.names);
        CapabilitySet { names }
    }
}

/// A copy of a list of texts.
pub fn copy_names(names: &Vec<String>) -> (copy: Vec<String>)
    ensures
        crate::json::texts(copy@) == crate::json::texts(names@),
{
    let mut copy: Vec<String> = Vec::new();
    let mut i: usize = 0;
    while i < names.len()
        invariant
            i <= names.len(),
            copy.len() == i,
            forall|j: int| 0 <= j < i ==> (#[trigger] copy[j])@ == names[j]@,
        decreases names.len() - i,
    {
        copy.push(names[i].clone());
        i = i + 1;
    }
    assert(crate::json::texts(copy@) =~= crate::json::texts(names@));
    copy
}

} // verus!
