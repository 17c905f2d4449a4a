//! JSON values: their model, comparison, access and text.
//!
//! A [`Json`] value stands for a [`Tree`]. An object lists its members as a sorted map does:
//! in the order of their names, each name once. [`Members`] keeps that, and [`object`] lists
//! given members so.

use vstd::prelude::*;
use vstd::string::*;

use crate::ids::{id_text, ConversationId};
use crate::text::{comes_before, decimal_text, same_text};

verus! {

/// A number that is not an integer in its written form.
///
/// `bits` is its IEEE 754 double pattern, by which it is compared; `text` is its shortest
/// decimal form, by which it is written.
#[derive(Debug)]
pub struct Double {
    pub bits: u64,
    pub text: String,
}

#[derive(Debug)]
pub enum Number {
    PosInt(u64),
    NegInt(i64),
    Float(Double),
}

/// One member of an object.
#[derive(Debug)]
pub struct Member {
    pub name: String,
    pub value: Json,
}

/// The members of an object, listed as a sorted map does: in the order of their names, each
/// name once.
#[derive(Debug)]
pub struct Members {
    pub(crate) list: Vec<Member>,
}

/// A JSON value.
#[derive(Debug)]
pub enum Json {
    Null,
    Bool(bool),
    Number(Number),
    String(String),
    Array(Vec<Json>),
    Object(Members),
}

/// The model of a number: an integer, or the bits and text of a double.
pub enum Num {
    Int(int),
    Float(u64, Seq<char>),
}

/// The model of a JSON value.
pub enum Tree {
    Null,
    Bool(bool),
    Number(Num),
    Text(Seq<char>),
    Array(Seq<Tree>),
    Object(Seq<(Seq<char>, Tree)>),
}

impl View for Number {
    type V = Num;

    open spec fn view(&self) -> Num {
        match *self {
            Number::PosInt(n) => Num::Int(n as int),
            Number::NegInt(n) => Num::Int(n as int),
            Number::Float(d) => Num::Float(d.bits, d.text@),
        }
    }
}

impl Json {
    /// The tree that a value stands for.
    pub open(crate) spec fn tree(self) -> Tree
        decreases self,
    {
        match self {
            Json::Null => Tree::Null,
            Json::Bool(b) => Tree::Bool(b),
            Json::Number(n) => Tree::Number(n@),
            Json::String(s) => Tree::Text(s@),
            Json::Array(items) => Tree::Array(
                Seq::new(
                    items@.len(),
                    |i: int|
                        if 0 <= i < items@.len() {
                            items@[i].tree()
                        } else {
                            Tree::Null
                        },
                ),
            ),
            Json::Object(members) => Tree::Object(
                Seq::new(
                    members.list@.len(),
                    |i: int|
                        if 0 <= i < members.list@.len() {
                            (members.list@[i].name@, members.list@[i].value.tree())
                        } else {
                            (Seq::empty(), Tree::Null)
                        },
                ),
            ),
        }
    }
}

impl View for Json {
    type V = Tree;

    open spec fn view(&self) -> Tree {
        self.tree()
    }
}

/// What given members stand for, in the order in which they are given.
pub open spec fn given(members: Seq<Member>) -> Seq<(Seq<char>, Tree)> {
    members.map_values(|member: Member| (member.name@, member.value@))
}

/// What the members of an object stand for.
pub open spec fn members_of(members: Members) -> Seq<(Seq<char>, Tree)> {
    Json::Object(members)@->Object_0
}

impl Members {
    /// The names ascend, so that none occurs twice.
    #[verifier::type_invariant]
    pub(crate) open(crate) spec fn in_order(self) -> bool {
        crate::ordering::names_ascend(given(self.list@))
    }

    /// The members, in the order of their names.
    pub fn listing(&self) -> (list: &Vec<Member>)
        ensures
            given(list@) == members_of(*self),
            crate::ordering::names_ascend(members_of(*self)),
    {
        proof {
            use_type_invariant(self);
            assert(given(self.list@) =~= members_of(*self));
        }
        &self.list
    }
}

/// The items that a list of values stands for.
pub open spec fn items_of(items: Vec<Json>) -> Seq<Tree> {
    Json::Array(items)@->Array_0
}

// ---- access -------------------------------------------------------------------------

impl Tree {
    /// The member of an object with this name.
    pub open spec fn get(self, name: Seq<char>) -> Option<Tree> {
        match self {
            Tree::Object(members) => crate::keyed::find(members, name),
            _ => None,
        }
    }

    /// The text of a string.
    pub open spec fn as_text(self) -> Option<Seq<char>> {
        match self {
            Tree::Text(s) => Some(s),
            _ => None,
        }
    }

    /// The items of an array.
    pub open spec fn as_items(self) -> Option<Seq<Tree>> {
        match self {
            Tree::Array(items) => Some(items),
            _ => None,
        }
    }

    /// The value of an integer that fits 64 bits without a sign.
    pub open spec fn as_count(self) -> Option<u64> {
        match self {
            Tree::Number(Num::Int(n)) => if 0 <= n <= u64::MAX {
                Some(n as u64)
            } else {
                None
            },
            _ => None,
        }
    }

    /// The text of the member with this name, if it is a string.
    pub open spec fn text_at(self, name: Seq<char>) -> Option<Seq<char>> {
        match self.get(name) {
            Some(value) => value.as_text(),
            None => None,
        }
    }

    /// The count in the member with this name, if it is one.
    pub open spec fn count_at(self, name: Seq<char>) -> Option<u64> {
        match self.get(name) {
            Some(value) => value.as_count(),
            None => None,
        }
    }
}

/// The value of the first member with this name.
pub fn find_member<'a>(members: &'a Members, name: &str) -> (found: Option<&'a Json>)
    ensures
        match found {
            Some(value) => crate::keyed::find(members_of(*members), name@) == Some(value@),
            None => crate::keyed::find(members_of(*members), name@) is None,
        },
{
    let ghost all = members_of(*members);
    let mut i: usize = 0;
    assert(all.skip(0) =~= all);
    while i < members.list.len()
        invariant
            i <= members.list.len(),
            all == members_of(*members),
            crate::keyed::find(all, name@) == crate::keyed::find(all.skip(i as int), name@),
        decreases members.list.len() - i,
    {
        if same_text(members.list[i].name.as_str(), name) {
            return Some(&members.list[i].value);
        }
        assert(all.skip(i as int).drop_first() =~= all.skip(i + 1));
        i = i + 1;
    }
    None
}

impl Json {
    /// The member of an object with this name.
    pub fn get(&self, name: &str) -> (found: Option<&Json>)
        ensures
            match found {
                Some(value) => self@.get(name@) == Some(value@),
                None => self@.get(name@) is None,
            },
    {
        match self {
            Json::Object(members) => find_member(members, name),
            _ => None,
        }
    }

    /// The text of a string.
    pub fn as_str(&self) -> (found: Option<&str>)
        ensures
            match found {
                Some(text) => self@.as_text() == Some(text@),
                None => self@.as_text() is None,
            },
    {
        match self {
            Json::String(text) => Some(text.as_str()),
            _ => None,
        }
    }

    /// The items of an array.
    pub fn as_array(&self) -> (found: Option<&Vec<Json>>)
        ensures
            match found {
                Some(items) => self@.as_items() == Some(items_of(*items)),
                None => self@.as_items() is None,
            },
    {
        match self {
            Json::Array(items) => Some(items),
            _ => None,
        }
    }

    /// The value of an integer that fits 64 bits without a sign.
    pub fn as_u64(&self) -> (found: Option<u64>)
        ensures
            found == self@.as_count(),
    {
        match self {
            Json::Number(Number::PosInt(n)) => Some(*n),
            Json::Number(Number::NegInt(n)) => {
                if *n >= 0 {
                    Some(*n as u64)
                } else {
                    None
                }
            },
            _ => None,
        }
    }

    /// The value of a truth value.
    pub fn as_bool(&self) -> (found: Option<bool>)
        ensures
            found == (match self@ {
                Tree::Bool(b) => Some(b),
                _ => None,
            }),
    {
        match self {
            Json::Bool(b) => Some(*b),
            _ => None,
        }
    }

    /// The text of the member with this name, if it is a string.
    pub fn str_at(&self, name: &str) -> (found: Option<&str>)
        ensures
            match found {
                Some(text) => self@.text_at(name@) == Some(text@),
                None => self@.text_at(name@) is None,
            },
    {
        match self.get(name) {
            Some(value) => value.as_str(),
            None => None,
        }
    }

    /// The count in the member with this name, if it is one.
    pub fn u64_at(&self, name: &str) -> (found: Option<u64>)
        ensures
            found == self@.count_at(name@),
    {
        match self.get(name) {
            Some(value) => value.as_u64(),
            None => None,
        }
    }
}

// ---- comparison ---------------------------------------------------------------------

/// Whether a double is zero, of either sign.
pub open spec fn is_zero(bits: u64) -> bool {
    bits == 0 || bits == 0x8000_0000_0000_0000
}

/// Whether a double is not a number.
pub open spec fn is_nan(bits: u64) -> bool {
    (bits / 0x10_0000_0000_0000) % 0x800 == 0x7ff && bits % 0x10_0000_0000_0000 != 0
}

/// IEEE 754 equality: the two zeros are equal, and what is not a number equals nothing.
pub open spec fn same_double(a: u64, b: u64) -> bool {
    (a == b && !is_nan(a)) || (is_zero(a) && is_zero(b))
}

/// Whether two numbers are equal; an integer and a double never are.
pub open spec fn same_num(a: Num, b: Num) -> bool {
    match (a, b) {
        (Num::Int(x), Num::Int(y)) => x == y,
        (Num::Float(x, _), Num::Float(y, _)) => same_double(x, y),
        _ => false,
    }
}

/// Whether a member is the first one of its name: the one that counts.
pub open spec fn counts(members: Seq<(Seq<char>, Tree)>, i: int) -> bool {
    forall|j: int| 0 <= j < i ==> (#[trigger] members[j]).0 != members[i].0
}

/// Whether two values are equal. Objects are equal as maps: they have the same names, and
/// equal values under each of them.
pub open spec fn same(a: Tree, b: Tree) -> bool
    decreases a,
{
    match (a, b) {
        (Tree::Null, Tree::Null) => true,
        (Tree::Bool(x), Tree::Bool(y)) => x == y,
        (Tree::Number(x), Tree::Number(y)) => same_num(x, y),
        (Tree::Text(x), Tree::Text(y)) => x == y,
        (Tree::Array(x), Tree::Array(y)) => x.len() == y.len() && forall|i: int|
            0 <= i < x.len() ==> same(#[trigger] x[i], y[i]),
        (Tree::Object(x), Tree::Object(y)) => {
            &&& forall|i: int|
                0 <= i < x.len() && counts(x, i) ==> (crate::keyed::find(
                    y,
                    (#[trigger] x[i]).0,
                ) matches Some(value) && same(x[i].1, value))
            &&& forall|j: int|
                0 <= j < y.len() ==> crate::keyed::find(x, (#[trigger] y[j]).0) is Some
        },
        _ => false,
    }
}

/// Whether a value holds only doubles that are numbers.
pub open spec fn finite(t: Tree) -> bool
    decreases t,
{
    match t {
        Tree::Number(Num::Float(bits, _)) => !is_nan(bits),
        Tree::Array(items) => forall|i: int| 0 <= i < items.len() ==> finite(#[trigger] items[i]),
        Tree::Object(members) => forall|i: int|
            0 <= i < members.len() ==> finite((#[trigger] members[i]).1),
        _ => true,
    }
}

/// Every value without a not-a-number equals itself.
pub proof fn same_is_reflexive(t: Tree)
    requires
        finite(t),
    ensures
        same(t, t),
    decreases t,
{
    match t {
        Tree::Array(items) => {
            assert forall|i: int| 0 <= i < items.len() implies same(#[trigger] items[i], items[i]) by {
                same_is_reflexive(items[i]);
            }
        },
        Tree::Object(members) => {
            assert forall|i: int| 0 <= i < members.len() && counts(members, i) implies (
            crate::keyed::find(members, (#[trigger] members[i]).0) matches Some(value) && same(
                members[i].1,
                value,
            )) by {
                crate::keyed::put_replaces_or_appends(members, members[i].0, members[i].1, i);
                same_is_reflexive(members[i].1);
            }
            assert forall|j: int| 0 <= j < members.len() implies crate::keyed::find(
                members,
                (#[trigger] members[j]).0,
            ) is Some by {
                crate::keyed::find_finds_entries(members, members[j].0);
            }
        },
        _ => {},
    }
}

/// Equality goes both ways.
pub proof fn same_is_symmetric(a: Tree, b: Tree)
    requires
        same(a, b),
    ensures
        same(b, a),
    decreases a,
{
    match (a, b) {
        (Tree::Array(x), Tree::Array(y)) => {
            assert forall|i: int| 0 <= i < y.len() implies same(#[trigger] y[i], x[i]) by {
                assert(same(x[i], y[i]));
                same_is_symmetric(x[i], y[i]);
            }
        },
        (Tree::Object(x), Tree::Object(y)) => {
            assert forall|j: int| 0 <= j < y.len() && counts(y, j) implies (crate::keyed::find(
                x,
                (#[trigger] y[j]).0,
            ) matches Some(value) && same(y[j].1, value)) by {
                assert(crate::keyed::find(x, y[j].0) is Some);
                let i = crate::keyed::the_first_entry_counts(x, y[j].0);
                assert(counts(x, i));
                crate::keyed::put_replaces_or_appends(y, y[j].0, y[j].1, j);
                same_is_symmetric(x[i].1, y[j].1);
            }
            assert forall|i: int| 0 <= i < x.len() implies crate::keyed::find(
                y,
                (#[trigger] x[i]).0,
            ) is Some by {
                crate::keyed::find_finds_entries(x, x[i].0);
                let k = crate::keyed::the_first_entry_counts(x, x[i].0);
                assert(counts(x, k));
                assert(x[k].0 == x[i].0);
            }
        },
        _ => {},
    }
}

fn numbers_equal(a: &Number, b: &Number) -> (equal: bool)
    ensures
        equal == same_num(a@, b@),
{
    match (a, b) {
        (Number::PosInt(x), Number::PosInt(y)) => *x == *y,
        (Number::NegInt(x), Number::NegInt(y)) => *x == *y,
        (Number::PosInt(x), Number::NegInt(y)) => *x as i128 == *y as i128,
        (Number::NegInt(x), Number::PosInt(y)) => *x as i128 == *y as i128,
        (Number::Float(x), Number::Float(y)) => {
            let nan = (x.bits / 0x10_0000_0000_0000) % 0x800 == 0x7ff && x.bits
                % 0x10_0000_0000_0000 != 0;
            let zeros = (x.bits == 0 || x.bits == 0x8000_0000_0000_0000) && (y.bits == 0 || y.bits
                == 0x8000_0000_0000_0000);
            (x.bits == y.bits && !nan) || zeros
        },
        _ => false,
    }
}

/// Whether two values are equal.
pub fn equal(a: &Json, b: &Json) -> (same_value: bool)
    ensures
        same_value == same(a@, b@),
    decreases a,
{
    match (a, b) {
        (Json::Null, Json::Null) => true,
        (Json::Bool(x), Json::Bool(y)) => *x == *y,
        (Json::Number(x), Json::Number(y)) => numbers_equal(x, y),
        (Json::String(x), Json::String(y)) => same_text(x.as_str(), y.as_str()),
        (Json::Array(x), Json::Array(y)) => {
            if x.len() != y.len() {
                return false;
            }
            let ghost left = a@->Array_0;
            let ghost right = b@->Array_0;
            let mut i: usize = 0;
            while i < x.len()
                invariant
                    i <= x.len(),
                    x.len() == y.len(),
                    *a == Json::Array(*x),
                    *b == Json::Array(*y),
                    left == a@->Array_0,
                    right == b@->Array_0,
                    forall|j: int| 0 <= j < i ==> same(#[trigger] left[j], right[j]),
                decreases x.len() - i,
            {
                if !equal(&x[i], &y[i]) {
                    assert(!same(left[i as int], right[i as int]));
                    return false;
                }
                i = i + 1;
            }
            true
        },
        (Json::Object(x), Json::Object(y)) => {
            let ghost left = a@->Object_0;
            let ghost right = b@->Object_0;
            proof {
                use_type_invariant(x);
                use_type_invariant(y);
                assert(given(x.list@) =~= left);
                assert(given(y.list@) =~= right);
                crate::ordering::equal_objects_are_equal_listings(left, right);
            }
            if x.list.len() != y.list.len() {
                return false;
            }
            let mut i: usize = 0;
            while i < x.list.len()
                invariant
                    i <= x.list.len(),
                    x.list.len() == y.list.len(),
                    *a == Json::Object(*x),
                    *b == Json::Object(*y),
                    left == a@->Object_0,
                    right == b@->Object_0,
                    same(a@, b@) <==> crate::ordering::listed_alike(left, right),
                    forall|j: int|
                        0 <= j < i ==> (#[trigger] left[j]).0 == right[j].0 && same(
                            left[j].1,
                            right[j].1,
                        ),
                decreases x.list.len() - i,
            {
                assert(decreases_to!(*a => a->Object_0.list@[i as int]));
                if !same_text(x.list[i].name.as_str(), y.list[i].name.as_str()) || !equal(
                    &x.list[i].value,
                    &y.list[i].value,
                ) {
                    assert(!(left[i as int].0 == right[i as int].0 && same(
                        left[i as int].1,
                        right[i as int].1,
                    )));
                    return false;
                }
                i = i + 1;
            }
            true
        },
        _ => false,
    }
}

// ---- integral numbers ---------------------------------------------------------------

/// The exponent field of a double.
pub open spec fn exponent_field(bits: u64) -> int {
    (bits as int / 0x10_0000_0000_0000) % 0x800
}

/// The integer significand of a finite double.
pub open spec fn significand(bits: u64) -> nat {
    let fraction = bits as int % 0x10_0000_0000_0000;
    if exponent_field(bits) == 0 {
        fraction as nat
    } else {
        (fraction + 0x10_0000_0000_0000) as nat
    }
}

/// The power of two by which the significand of a finite double is scaled.
pub open spec fn scale(bits: u64) -> int {
    if exponent_field(bits) == 0 {
        -1074
    } else {
        exponent_field(bits) - 1075
    }
}

/// Whether a double is finite and has no fractional part: its magnitude is
/// `significand * 2^scale`.
pub open spec fn integral_double(bits: u64) -> bool {
    exponent_field(bits) != 0x7ff && (scale(bits) >= 0 || significand(bits)
        % vstd::arithmetic::power2::pow2((-scale(bits)) as nat) == 0)
}

/// Whether a number has no fractional part.
pub open spec fn integral(n: Num) -> bool {
    match n {
        Num::Int(_) => true,
        Num::Float(bits, _) => integral_double(bits),
    }
}

/// Whether `n` is a multiple of the `k`-th power of two.
fn multiple_of_power(n: u64, k: u64) -> (multiple: bool)
    ensures
        multiple == (n as nat % vstd::arithmetic::power2::pow2(k as nat) == 0),
    decreases k,
{
    if k == 0 {
        proof {
            vstd::arithmetic::power2::lemma2_to64();
        }
        return true;
    }
    proof {
        let p = vstd::arithmetic::power2::pow2((k - 1) as nat) as int;
        vstd::arithmetic::power2::lemma_pow2_unfold(k as nat);
        vstd::arithmetic::power2::lemma_pow2_pos((k - 1) as nat);
        vstd::arithmetic::div_mod::lemma_mod_breakdown(n as int, 2, p);
        assert(0 <= (n as int / 2) % p);
        assert(n as int % (2 * p) == 2 * ((n as int / 2) % p) + n as int % 2);
    }
    n % 2 == 0 && multiple_of_power(n / 2, k - 1)
}

impl Number {
    /// Whether a number has no fractional part.
    pub fn is_integral(&self) -> (whole: bool)
        ensures
            whole == integral(self@),
    {
        match self {
            Number::PosInt(_) => true,
            Number::NegInt(_) => true,
            Number::Float(d) => {
                let field: u64 = (d.bits / 0x10_0000_0000_0000) % 0x800;
                let fraction: u64 = d.bits % 0x10_0000_0000_0000;
                if field == 0x7ff {
                    false
                } else if field == 0 {
                    multiple_of_power(fraction, 1074)
                } else if field >= 1075 {
                    true
                } else {
                    multiple_of_power(fraction + 0x10_0000_0000_0000, 1075 - field)
                }
            },
        }
    }
}

// ---- text ---------------------------------------------------------------------------

/// How one character is written inside a JSON string.
pub open spec fn escaped_char(c: char) -> Seq<char> {
    let code = c as int;
    if c == '"' {
        seq!['\\', '"']
    } else if c == '\\' {
        seq!['\\', '\\']
    } else if code == 8 {
        seq!['\\', 'b']
    } else if code == 9 {
        seq!['\\', 't']
    } else if code == 10 {
        seq!['\\', 'n']
    } else if code == 12 {
        seq!['\\', 'f']
    } else if code == 13 {
        seq!['\\', 'r']
    } else if code < 32 {
        seq![
            '\\',
            'u',
            '0',
            '0',
            crate::ids::hex_digit(code / 16),
            crate::ids::hex_digit(code % 16),
        ]
    } else {
        seq![c]
    }
}

/// A text with every character written as inside a JSON string.
pub open spec fn escaped(s: Seq<char>) -> Seq<char>
    decreases s.len(),
{
    if s.len() == 0 {
        seq![]
    } else {
        escaped_char(s[0]) + escaped(s.drop_first())
    }
}

/// A text as a JSON string, quotation marks included.
pub open spec fn quoted(s: Seq<char>) -> Seq<char> {
    seq!['"'] + escaped(s) + seq!['"']
}

/// The JSON string of a text, by the `Display` of `serde_json::Value`.
///
/// Trusted: quotation marks, backslashes and the control characters below 32 are
/// escaped, the common ones by a letter and the others by four hexadecimal digits; every
/// other character stands for itself.
#[verifier::external_body]
pub(crate) fn quote(s: &str) -> (text: String)
    ensures
        text@ == quoted(s@),
{
    serde_json::Value::from(s).to_string()
}

/// The items one after the other, with commas between them.
pub open spec fn joined(items: Seq<Seq<char>>) -> Seq<char>
    decreases items.len(),
{
    if items.len() == 0 {
        seq![]
    } else if items.len() == 1 {
        items[0]
    } else {
        joined(items.drop_last()) + ","@ + items.last()
    }
}

/// An integer in decimal.
pub open spec fn int_text(n: int) -> Seq<char> {
    if n < 0 {
        "-"@ + crate::text::decimal((-n) as nat)
    } else {
        crate::text::decimal(n as nat)
    }
}

/// A truth value as JSON.
pub open spec fn bool_text(b: bool) -> Seq<char> {
    if b {
        "true"@
    } else {
        "false"@
    }
}

impl Tree {
    /// The compact JSON text of a value.
    pub open spec fn text(self) -> Seq<char>
        decreases self,
    {
        match self {
            Tree::Null => "null"@,
            Tree::Bool(b) => bool_text(b),
            Tree::Number(Num::Int(n)) => int_text(n),
            Tree::Number(Num::Float(_, text)) => text,
            Tree::Text(s) => quoted(s),
            Tree::Array(items) => "["@ + joined(item_texts(items)) + "]"@,
            Tree::Object(members) => "{"@ + joined(member_texts(members)) + "}"@,
        }
    }
}

/// The JSON texts of the items of an array.
pub open spec fn item_texts(items: Seq<Tree>) -> Seq<Seq<char>>
    decreases items,
{
    Seq::new(
        items.len(),
        |i: int|
            if 0 <= i < items.len() {
                items[i].text()
            } else {
                seq![]
            },
    )
}

/// The JSON texts of the members of an object.
pub open spec fn member_texts(members: Seq<(Seq<char>, Tree)>) -> Seq<Seq<char>>
    decreases members,
{
    Seq::new(
        members.len(),
        |i: int|
            if 0 <= i < members.len() {
                quoted(members[i].0) + ":"@ + members[i].1.text()
            } else {
                seq![]
            },
    )
}

fn join(items: &Vec<String>) -> (out: String)
    ensures
        out@ == joined(texts(items@)),
{
    let mut out = String::new();
    let mut i: usize = 0;
    let ghost all = texts(items@);
    assert(out@ =~= joined(all.take(0)));
    while i < items.len()
        invariant
            i <= items.len(),
            all == texts(items@),
            out@ == joined(all.take(i as int)),
        decreases items.len() - i,
    {
        if i > 0 {
            out.append(",");
        }
        out.append(items[i].as_str());
        proof {
            assert(all.take(i + 1).drop_last() =~= all.take(i as int));
            assert(all.take(i + 1).last() == items[i as int]@);
            if i == 0 {
                assert(out@ =~= items[0]@);
            }
        }
        i = i + 1;
    }
    assert(all.take(items.len() as int) =~= all);
    out
}

fn number_text(n: &Number) -> (out: String)
    ensures
        out@ == Tree::Number(n@).text(),
{
    match n {
        Number::PosInt(n) => decimal_text(*n as u128),
        Number::NegInt(n) => {
            if *n >= 0 {
                decimal_text(*n as u128)
            } else {
                let mut out = "-".to_owned();
                let digits = decimal_text((-(*n as i128)) as u128);
                out.append(digits.as_str());
                out
            }
        },
        Number::Float(d) => d.text.clone(),
    }
}

impl Json {
    /// The compact JSON text of a value.
    pub fn to_text(&self) -> (out: String)
        ensures
            out@ == self@.text(),
            crate::ordering::ordered(self@),
        decreases self,
    {
        match self {
            Json::Null => "null".to_owned(),
            Json::Bool(b) => if *b {
                "true".to_owned()
            } else {
                "false".to_owned()
            },
            Json::Number(n) => number_text(n),
            Json::String(s) => quote(s.as_str()),
            Json::Array(items) => {
                let mut parts: Vec<String> = Vec::new();
                let ghost trees = self@->Array_0;
                let mut i: usize = 0;
                while i < items.len()
                    invariant
                        i <= items.len(),
                        *self == Json::Array(*items),
                        trees == self@->Array_0,
                        parts.len() == i,
                        forall|j: int| 0 <= j < i ==> #[trigger] parts[j]@ == trees[j].text(),
                        forall|j: int|
                            0 <= j < i ==> crate::ordering::ordered(#[trigger] trees[j]),
                    decreases items.len() - i,
                {
                    let part = items[i].to_text();
                    parts.push(part);
                    i = i + 1;
                }
                assert(texts(parts@) =~= item_texts(trees));
                let mut out = "[".to_owned();
                let body = join(&parts);
                out.append(body.as_str());
                out.append("]");
                out
            },
            Json::Object(members) => {
                proof {
                    use_type_invariant(members);
                }
                let mut parts: Vec<String> = Vec::new();
                let ghost trees = self@->Object_0;
                assert(given(members.list@) =~= trees);
                let mut i: usize = 0;
                while i < members.list.len()
                    invariant
                        i <= members.list.len(),
                        *self == Json::Object(*members),
                        trees == self@->Object_0,
                        parts.len() == i,
                        forall|j: int|
                            0 <= j < i ==> #[trigger] parts[j]@ == quoted(trees[j].0) + ":"@
                                + trees[j].1.text(),
                        forall|j: int|
                            0 <= j < i ==> crate::ordering::ordered((#[trigger] trees[j]).1),
                    decreases members.list.len() - i,
                {
                    let mut part = quote(members.list[i].name.as_str());
                    part.append(":");
                    let value = members.list[i].value.to_text();
                    part.append(value.as_str());
                    parts.push(part);
                    i = i + 1;
                }
                assert(texts(parts@) =~= member_texts(trees));
                let mut out = "{".to_owned();
                let body = join(&parts);
                out.append(body.as_str());
                out.append("}");
                out
            },
        }
    }
}

// ---- building -----------------------------------------------------------------------

/// The texts of a sequence of strings.
pub open spec fn texts(items: Seq<String>) -> Seq<Seq<char>> {
    items.map_values(|s: String| s@)
}

/// An array of strings.
pub open spec fn text_array(items: Seq<Seq<char>>) -> Tree {
    Tree::Array(items.map_values(|s: Seq<char>| Tree::Text(s)))
}

/// An identifier as a string.
pub open spec fn id_tree(id: u128) -> Tree {
    Tree::Text(crate::ids::id_chars(id))
}

impl Clone for Number {
    fn clone(&self) -> (copy: Self)
        ensures
            copy@ == self@,
    {
        match self {
            Number::PosInt(n) => Number::PosInt(*n),
            Number::NegInt(n) => Number::NegInt(*n),
            Number::Float(d) => Number::Float(Double { bits: d.bits, text: d.text.clone() }),
        }
    }
}

impl Json {
    fn copy(&self) -> (copy: Self)
        ensures
            copy@ == self@,
        decreases self,
    {
        match self {
            Json::Null => Json::Null,
            Json::Bool(b) => Json::Bool(*b),
            Json::Number(n) => Json::Number(n.clone()),
            Json::String(s) => Json::String(s.clone()),
            Json::Array(items) => {
                let mut copied: Vec<Json> = Vec::new();
                let mut i: usize = 0;
                while i < items.len()
                    invariant
                        i <= items.len(),
                        *self == Json::Array(*items),
                        copied.len() == i,
                        forall|j: int| 0 <= j < i ==> (#[trigger] copied[j])@ == items[j]@,
                    decreases items.len() - i,
                {
                    assert(decreases_to!(*self => self->Array_0@[i as int]));
                    let item = items[i].copy();
                    copied.push(item);
                    i = i + 1;
                }
                let copy = Json::Array(copied);
                assert(copy@->Array_0 =~= self@->Array_0);
                copy
            },
            Json::Object(members) => {
                let mut copied: Vec<Member> = Vec::new();
                let mut i: usize = 0;
                while i < members.list.len()
                    invariant
                        i <= members.list.len(),
                        *self == Json::Object(*members),
                        copied.len() == i,
                        forall|j: int|
                            0 <= j < i ==> (#[trigger] copied[j]).name@ == members.list[j].name@
                                && copied[j].value@ == members.list[j].value@,
                    decreases members.list.len() - i,
                {
                    assert(decreases_to!(*self => self->Object_0.list@[i as int]));
                    let value = members.list[i].value.copy();
                    copied.push(Member { name: members.list[i].name.clone(), value });
                    i = i + 1;
                }
                proof {
                    use_type_invariant(members);
                    assert(given(copied@) =~= given(members.list@));
                }
                let copy = Json::Object(Members { list: copied });
                assert(copy@->Object_0 =~= self@->Object_0);
                copy
            },
        }
    }
}

impl Clone for Json {
    fn clone(&self) -> (copy: Self)
        ensures
            copy@ == self@,
    {
        self.copy()
    }
}

/// One member of an object.
pub fn member(name: &str, value: Json) -> (made: Member)
    ensures
        made.name@ == name@,
        made.value == value,
{
    Member { name: name.to_owned(), value }
}

/// Members with one more, at its place; where the name is there already, the new value
/// takes the place of the old one.
pub open spec fn inserted(
    members: Seq<(Seq<char>, Tree)>,
    name: Seq<char>,
    value: Tree,
) -> Seq<(Seq<char>, Tree)>
    decreases members.len(),
{
    if members.len() == 0 {
        seq![(name, value)]
    } else if members[0].0 == name {
        seq![(name, value)] + members.drop_first()
    } else if crate::text::text_before(name, members[0].0) {
        seq![(name, value)] + members
    } else {
        seq![members[0]] + inserted(members.drop_first(), name, value)
    }
}

/// Given members as a sorted map lists them: in the order of their names, and the last one
/// of each name.
pub open spec fn listed(members: Seq<(Seq<char>, Tree)>) -> Seq<(Seq<char>, Tree)>
    decreases members.len(),
{
    if members.len() == 0 {
        seq![]
    } else {
        inserted(listed(members.drop_last()), members.last().0, members.last().1)
    }
}

/// Puts a member at its place.
fn insert_member(list: &mut Vec<Member>, member: Member)
    requires
        crate::ordering::names_ascend(given(old(list)@)),
    ensures
        given(final(list)@) == inserted(given(old(list)@), member.name@, member.value@),
{
    let ghost all = given(list@);
    let ghost name = member.name@;
    let ghost value = member.value@;
    let mut at: usize = 0;
    while at < list.len() && comes_before(list[at].name.as_str(), member.name.as_str())
        invariant
            at <= list.len(),
            all == given(list@),
            name == member.name@,
            forall|j: int| 0 <= j < at ==> crate::text::text_before((#[trigger] all[j]).0, name),
        decreases list.len() - at,
    {
        assert(all[at as int].0 == list[at as int].name@);
        at = at + 1;
    }
    proof {
        if at < list.len() {
            assert(all[at as int].0 == list[at as int].name@);
        }
        crate::ordering::a_member_has_its_place(all, name, value, at as int);
    }
    if at < list.len() && same_text(list[at].name.as_str(), member.name.as_str()) {
        list.set(at, member);
        assert(given(list@) =~= all.update(at as int, (name, value)));
    } else {
        list.insert(at, member);
        assert(given(list@) =~= all.insert(at as int, (name, value)));
    }
}

/// An object of given members, listed as a sorted map does.
pub fn object(members: Vec<Member>) -> (made: Json)
    ensures
        made@ == Tree::Object(listed(given(members@))),
        crate::ordering::names_ascend(given(members@)) ==> made@ == Tree::Object(given(members@)),
{
    let ghost all = given(members@);
    let mut left = members;
    let mut list: Vec<Member> = Vec::new();
    let total = left.len();
    let mut done: usize = 0;
    proof {
        assert(given(list@) =~= listed(all.take(0)));
        assert(all.skip(0) =~= all);
        crate::ordering::a_listing_is_in_order(all.take(0));
    }
    while done < total
        invariant
            done <= total,
            total == all.len(),
            given(left@) == all.skip(done as int),
            given(list@) == listed(all.take(done as int)),
            crate::ordering::names_ascend(given(list@)),
        decreases total - done,
    {
        assert(given(left@).len() == left.len());
        let ghost before = given(left@);
        let member = left.remove(0);
        proof {
            assert((member.name@, member.value@) == before[0]);
            assert(given(left@) =~= before.drop_first());
            assert(before.drop_first() =~= all.skip(done + 1));
            assert(all.take(done + 1).drop_last() =~= all.take(done as int));
            assert(all.take(done + 1).last() == all[done as int]);
            crate::ordering::a_listing_is_in_order(all.take(done + 1));
        }
        insert_member(&mut list, member);
        done = done + 1;
    }
    proof {
        assert(all.take(total as int) =~= all);
        if crate::ordering::names_ascend(all) {
            crate::ordering::what_is_in_order_is_listed_so(all);
        }
    }
    let made = Json::Object(Members { list });
    assert(made@->Object_0 =~= given(list@));
    made
}

/// An object with one member.
pub fn object1(name: &str, value: Json) -> (made: Json)
    ensures
        made@ == Tree::Object(seq![(name@, value@)]),
{
    let members = vec![member(name, value)];
    assert(given(members@) =~= seq![(name@, value@)]);
    object(members)
}

/// An object with two members.
pub fn object2(a: &str, first: Json, b: &str, second: Json) -> (made: Json)
    ensures
        made@ == Tree::Object(listed(seq![(a@, first@), (b@, second@)])),
        crate::text::text_before(a@, b@) ==> made@ == Tree::Object(
            seq![(a@, first@), (b@, second@)],
        ),
{
    let members = vec![member(a, first), member(b, second)];
    assert(given(members@) =~= seq![(a@, first@), (b@, second@)]);
    object(members)
}

/// An object with three members.
pub fn object3(a: &str, first: Json, b: &str, second: Json, c: &str, third: Json) -> (made: Json)
    ensures
        made@ == Tree::Object(listed(seq![(a@, first@), (b@, second@), (c@, third@)])),
        crate::text::text_before(a@, b@) && crate::text::text_before(b@, c@) ==> made@
            == Tree::Object(seq![(a@, first@), (b@, second@), (c@, third@)]),
{
    proof {
        if crate::text::text_before(a@, b@) && crate::text::text_before(b@, c@) {
            crate::text::text_order_is_transitive(a@, b@, c@);
        }
    }
    let members = vec![member(a, first), member(b, second), member(c, third)];
    assert(given(members@) =~= seq![(a@, first@), (b@, second@), (c@, third@)]);
    object(members)
}

/// A string value.
pub fn string(text: &str) -> (made: Json)
    ensures
        made@ == Tree::Text(text@),
{
    Json::String(text.to_owned())
}

/// A truth value.
pub fn truth(b: bool) -> (made: Json)
    ensures
        made@ == Tree::Bool(b),
{
    Json::Bool(b)
}

/// A count as a number.
pub fn count(n: u64) -> (made: Json)
    ensures
        made@ == Tree::Number(Num::Int(n as int)),
{
    Json::Number(Number::PosInt(n))
}

/// An array of strings.
pub fn strings(items: &Vec<String>) -> (made: Json)
    ensures
        made@ == text_array(texts(items@)),
{
    let mut values: Vec<Json> = Vec::new();
    let mut i: usize = 0;
    while i < items.len()
        invariant
            i <= items.len(),
            values.len() == i,
            forall|j: int| 0 <= j < i ==> (#[trigger] values[j])@ == Tree::Text(items[j]@),
        decreases items.len() - i,
    {
        values.push(string(items[i].as_str()));
        i = i + 1;
    }
    let made = Json::Array(values);
    assert(made@->Array_0 =~= text_array(texts(items@))->Array_0);
    made
}

/// An identifier as a string.
pub fn identifier(id: ConversationId) -> (made: Json)
    ensures
        made@ == id_tree(id),
{
    Json::String(id_text(id))
}

// ---- laws ---------------------------------------------------------------------------

/// An object gives the value of the first member of a name, gives nothing under a name that
/// no member has, and nothing but an object has members.
pub proof fn members_are_read_by_name(members: Seq<(Seq<char>, Tree)>, i: int, name: Seq<char>)
    requires
        0 <= i < members.len(),
        forall|j: int| 0 <= j < i ==> (#[trigger] members[j]).0 != members[i].0,
    ensures
        Tree::Object(members).get(members[i].0) == Some(members[i].1),
        Tree::Object(members).get(name) is Some <==> exists|k: int|
            0 <= k < members.len() && (#[trigger] members[k]).0 == name,
{
    crate::keyed::put_replaces_or_appends(members, members[i].0, members[i].1, i);
    crate::keyed::find_finds_entries(members, name);
}

/// A text, a count or a list of items is read out of a value exactly if the value is one,
/// and then as it stands there; a count is an integer that is not negative and fits 64 bits.
pub proof fn values_are_read_as_what_they_are(
    value: Tree,
    name: Seq<char>,
    text: Seq<char>,
    n: u64,
    items: Seq<Tree>,
)
    ensures
        value.as_text() == Some(text) <==> value == Tree::Text(text),
        value.as_items() == Some(items) <==> value == Tree::Array(items),
        value.as_count() == Some(n) <==> value == Tree::Number(Num::Int(n as int)),
        value.text_at(name) == Some(text) <==> value.get(name) == Some(Tree::Text(text)),
        value.count_at(name) == Some(n) <==> value.get(name) == Some(
            Tree::Number(Num::Int(n as int)),
        ),
        !(value is Object) ==> value.get(name) is None,
        !(value is Text) ==> value.as_text() is None,
{
}

/// Scalars are equal exactly if they are of one kind and have one value; an integer never
/// equals a double, and values of two kinds are never equal. Of the doubles the two zeros
/// are equal, and what is not a number equals nothing.
pub proof fn scalars_are_equal_by_value(a: Tree, b: Tree)
    ensures
        a is Null ==> (same(a, b) <==> b is Null),
        a matches Tree::Bool(x) ==> (same(a, b) <==> b == Tree::Bool(x)),
        a matches Tree::Text(x) ==> (same(a, b) <==> b == Tree::Text(x)),
        a matches Tree::Number(Num::Int(x)) ==> (same(a, b) <==> b == Tree::Number(Num::Int(x))),
        a matches Tree::Number(Num::Float(x, _)) ==> (same(a, b) <==> (b matches Tree::Number(
            Num::Float(y, _),
        ) && ((x == y && !((x / 0x10_0000_0000_0000) % 0x800 == 0x7ff && x
            % 0x10_0000_0000_0000 > 0)) || (x % 0x8000_0000_0000_0000 == 0 && y
            % 0x8000_0000_0000_0000 == 0)))),
        a is Array && !(b is Array) ==> !same(a, b),
        a is Object && !(b is Object) ==> !same(a, b),
{
}

/// Arrays are equal exactly if they are equally long and equal item by item.
pub proof fn arrays_are_equal_by_item(x: Seq<Tree>, y: Seq<Tree>)
    ensures
        same(Tree::Array(x), Tree::Array(y)) <==> x.len() == y.len() && forall|i: int|
            0 <= i < x.len() ==> same(#[trigger] x[i], y[i]),
{
}

/// A finite double has no fractional part exactly if its magnitude, the significand scaled
/// by its power of two, is a whole number; every integer has none.
pub proof fn whole_numbers_have_no_fraction(n: Num)
    ensures
        n is Int ==> integral(n),
        n matches Num::Float(bits, _) ==> (integral(n) <==> {
            let field = (bits as int / 0x10_0000_0000_0000) % 0x800;
            let fraction = bits as int % 0x10_0000_0000_0000;
            let hidden = if field == 0 {
                0int
            } else {
                0x10_0000_0000_0000int
            };
            let power = if field == 0 {
                -1074int
            } else {
                field - 1075
            };
            &&& field != 0x7ff
            &&& power >= 0 || {
                let unit = vstd::arithmetic::power2::pow2((-power) as nat) as int;
                unit * ((fraction + hidden) / unit) == fraction + hidden
            }
        }),
{
    if let Num::Float(bits, _) = n {
        let s = significand(bits) as int;
        if scale(bits) < 0 {
            let p = vstd::arithmetic::power2::pow2((-scale(bits)) as nat) as int;
            vstd::arithmetic::power2::lemma_pow2_pos((-scale(bits)) as nat);
            vstd::arithmetic::div_mod::lemma_fundamental_div_mod(s, p);
        }
    }
}

/// Items are written one after the other, each behind a comma but the first.
pub proof fn items_are_joined_by_commas(items: Seq<Seq<char>>, next: Seq<char>)
    ensures
        joined(Seq::empty()) == Seq::<char>::empty(),
        joined(seq![next]) == next,
        items.len() > 0 ==> joined(items.push(next)) == joined(items) + seq![','] + next,
{
    reveal_strlit(",");
    assert(","@ =~= seq![',']);
    let longer = items.push(next);
    assert(longer.drop_last() =~= items);
    assert(longer.last() == next);
}

/// The text of an array or an object holds the texts of its items or members, in order,
/// between its brackets; a member is its quoted name, a colon and its value.
pub proof fn containers_are_written_out(
    items: Seq<Tree>,
    item: Tree,
    members: Seq<(Seq<char>, Tree)>,
    name: Seq<char>,
    value: Tree,
)
    ensures
        Tree::Array(items).text() == seq!['['] + joined(item_texts(items)) + seq![']'],
        Tree::Object(members).text() == seq!['{'] + joined(member_texts(members)) + seq!['}'],
        item_texts(items.push(item)) == item_texts(items).push(item.text()),
        member_texts(members.push((name, value))) == member_texts(members).push(
            quoted(name) + seq![':'] + value.text(),
        ),
        item_texts(Seq::empty()).len() == 0,
        member_texts(Seq::empty()).len() == 0,
{
    reveal_strlit("[");
    reveal_strlit("]");
    reveal_strlit("{");
    reveal_strlit("}");
    reveal_strlit(":");
    assert("["@ =~= seq!['[']);
    assert("]"@ =~= seq![']']);
    assert("{"@ =~= seq!['{']);
    assert("}"@ =~= seq!['}']);
    assert(":"@ =~= seq![':']);
    assert(item_texts(items.push(item)) =~= item_texts(items).push(item.text()));
    assert(member_texts(members.push((name, value))) =~= member_texts(members).push(
        quoted(name) + seq![':'] + value.text(),
    ));
}

/// The text of a scalar is its JSON word, its decimal form, or its quoted text.
pub proof fn scalars_are_written_out(n: nat, bits: u64, written: Seq<char>)
    ensures
        Tree::Null.text() == seq!['n', 'u', 'l', 'l'],
        Tree::Bool(true).text() == seq!['t', 'r', 'u', 'e'],
        Tree::Bool(false).text() == seq!['f', 'a', 'l', 's', 'e'],
        Tree::Number(Num::Int(n as int)).text() == crate::text::decimal(n),
        n > 0 ==> Tree::Number(Num::Int(-(n as int))).text() == seq!['-'] + crate::text::decimal(n),
        Tree::Number(Num::Float(bits, written)).text() == written,
        Tree::Text(written).text() == seq!['"'] + escaped(written) + seq!['"'],
{
    reveal_strlit("null");
    reveal_strlit("true");
    reveal_strlit("false");
    reveal_strlit("-");
    assert("null"@ =~= seq!['n', 'u', 'l', 'l']);
    assert("true"@ =~= seq!['t', 'r', 'u', 'e']);
    assert("false"@ =~= seq!['f', 'a', 'l', 's', 'e']);
    assert("-"@ =~= seq!['-']);
}

} // verus!
