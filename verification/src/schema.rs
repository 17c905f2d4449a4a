//! Deterministic validation of capability arguments.
//!
//! Arguments that a model produced are untrusted structured input, so they are checked
//! before a provider is ever invoked. The schemas are the subset of JSON Schema that
//! capability descriptors use: `type`, `required`, `properties`, `items`, `enum` and
//! `additionalProperties`.

use vstd::prelude::*;
use vstd::string::*;

use crate::json::{equal, find_member, Json, Members};
use crate::text::{decimal_text, same_text};

#[allow(unused_imports)]
use crate::json::{Num, Tree};

verus! {

// ---- what a schema demands ----------------------------------------------------------

/// Whether a value is of the named type; an unknown type name admits every value.
pub open spec fn matches_type(expected: Seq<char>, value: Tree) -> bool {
    if expected == "object"@ {
        value is Object
    } else if expected == "array"@ {
        value is Array
    } else if expected == "string"@ {
        value is Text
    } else if expected == "number"@ {
        value is Number
    } else if expected == "integer"@ {
        value matches Tree::Number(n) && crate::json::integral(n)
    } else if expected == "boolean"@ {
        value is Bool
    } else if expected == "null"@ {
        value is Null
    } else {
        true
    }
}

/// Whether a value is one of the options.
pub open spec fn is_option(allowed: Seq<Tree>, value: Tree) -> bool {
    exists|i: int| 0 <= i < allowed.len() && crate::json::same(#[trigger] allowed[i], value)
}

/// Whether an object has a member of this name.
pub open spec fn has(members: Seq<(Seq<char>, Tree)>, name: Seq<char>) -> bool {
    crate::keyed::find(members, name) is Some
}

/// The declared properties of a schema.
pub open spec fn properties_of(schema: Tree) -> Option<Seq<(Seq<char>, Tree)>> {
    match schema.get("properties"@) {
        Some(Tree::Object(properties)) => Some(properties),
        _ => None,
    }
}

/// Whether a schema admits no property that it does not declare.
pub open spec fn closed_to_others(schema: Tree) -> bool {
    schema.get("additionalProperties"@) == Some(Tree::Bool(false))
}

/// Whether a schema declares a property.
pub open spec fn declares(schema: Tree, name: Seq<char>) -> bool {
    match properties_of(schema) {
        Some(properties) => has(properties, name),
        None => false,
    }
}

/// Whether a value satisfies a schema. A schema that is no object demands nothing.
pub open spec fn conforms(schema: Tree, value: Tree) -> bool
    decreases value,
{
    schema is Object ==> {
        &&& schema.text_at("type"@) matches Some(expected) ==> matches_type(expected, value)
        &&& schema.get("enum"@) matches Some(Tree::Array(allowed)) ==> is_option(allowed, value)
        &&& value matches Tree::Object(members) ==> {
            &&& schema.get("required"@) matches Some(Tree::Array(names)) ==> forall|i: int|
                0 <= i < names.len() ==> ((#[trigger] names[i]).as_text() matches Some(name)
                    ==> has(members, name))
            &&& closed_to_others(schema) ==> forall|i: int|
                0 <= i < members.len() ==> declares(schema, (#[trigger] members[i]).0)
            &&& properties_of(schema) matches Some(properties) ==> forall|i: int|
                0 <= i < members.len() ==> (crate::keyed::find(
                    properties,
                    (#[trigger] members[i]).0,
                ) matches Some(child) ==> conforms(child, members[i].1))
        }
        &&& value matches Tree::Array(items) ==> (schema.get("items"@) matches Some(child)
            ==> forall|i: int| 0 <= i < items.len() ==> conforms(child, #[trigger] items[i]))
    }
}

// ---- the first fault ----------------------------------------------------------------

/// The name of a value's type.
pub open spec fn kind_of(value: Tree) -> Seq<char> {
    match value {
        Tree::Null => "null"@,
        Tree::Bool(_) => "boolean"@,
        Tree::Number(_) => "number"@,
        Tree::Text(_) => "string"@,
        Tree::Array(_) => "array"@,
        Tree::Object(_) => "object"@,
    }
}

pub open spec fn wrong_type(path: Seq<char>, expected: Seq<char>, value: Tree) -> Seq<char> {
    path + ": expected "@ + expected + ", found "@ + kind_of(value)
}

pub open spec fn not_permitted(path: Seq<char>) -> Seq<char> {
    path + ": value is not one of the permitted options"@
}

pub open spec fn missing(path: Seq<char>, name: Seq<char>) -> Seq<char> {
    path + ": missing required property `"@ + name + "`"@
}

pub open spec fn unexpected(path: Seq<char>, name: Seq<char>) -> Seq<char> {
    path + ": unexpected property `"@ + name + "`"@
}

/// The first required property, from position `from` on, that the object lacks.
pub open spec fn required_fault(
    path: Seq<char>,
    names: Seq<Tree>,
    members: Seq<(Seq<char>, Tree)>,
    from: int,
) -> Option<Seq<char>>
    decreases names.len() - from,
{
    if from < 0 || from >= names.len() {
        None
    } else {
        match names[from].as_text() {
            Some(name) => if has(members, name) {
                required_fault(path, names, members, from + 1)
            } else {
                Some(missing(path, name))
            },
            None => required_fault(path, names, members, from + 1),
        }
    }
}

/// The first member, from position `from` on, that the schema does not declare.
pub open spec fn extra_fault(
    path: Seq<char>,
    schema: Tree,
    members: Seq<(Seq<char>, Tree)>,
    from: int,
) -> Option<Seq<char>>
    decreases members.len() - from,
{
    if from < 0 || from >= members.len() {
        None
    } else if declares(schema, members[from].0) {
        extra_fault(path, schema, members, from + 1)
    } else {
        Some(unexpected(path, members[from].0))
    }
}

/// The first fault in a declared member, from position `from` on.
pub open spec fn children_fault(
    path: Seq<char>,
    properties: Seq<(Seq<char>, Tree)>,
    members: Seq<(Seq<char>, Tree)>,
    from: int,
) -> Option<Seq<char>>
    decreases members, members.len() - from,
{
    if from < 0 || from >= members.len() {
        None
    } else {
        let here = match crate::keyed::find(properties, members[from].0) {
            Some(child) => fault(path + "."@ + members[from].0, child, members[from].1),
            None => None,
        };
        if here is Some {
            here
        } else {
            children_fault(path, properties, members, from + 1)
        }
    }
}

/// The first fault in an item, from position `from` on.
pub open spec fn items_fault(
    path: Seq<char>,
    child: Tree,
    items: Seq<Tree>,
    from: int,
) -> Option<Seq<char>>
    decreases items, items.len() - from,
{
    if from < 0 || from >= items.len() {
        None
    } else {
        let here = fault(
            path + "["@ + crate::text::decimal(from as nat) + "]"@,
            child,
            items[from],
        );
        if here is Some {
            here
        } else {
            items_fault(path, child, items, from + 1)
        }
    }
}

/// The first fault in an object's members: a missing one, then one too many, then one
/// with a fault of its own.
pub open spec fn object_fault(
    path: Seq<char>,
    schema: Tree,
    members: Seq<(Seq<char>, Tree)>,
) -> Option<Seq<char>>
    decreases members, members.len() + 1,
{
    let lacking = match schema.get("required"@) {
        Some(Tree::Array(names)) => required_fault(path, names, members, 0),
        _ => None,
    };
    let extra = if closed_to_others(schema) {
        extra_fault(path, schema, members, 0)
    } else {
        None
    };
    if lacking is Some {
        lacking
    } else if extra is Some {
        extra
    } else {
        match properties_of(schema) {
            Some(properties) => children_fault(path, properties, members, 0),
            None => None,
        }
    }
}

/// The first fault of a value against a schema, with the path of where it lies: of its
/// type, then of its options, then of its members or items.
pub open spec fn fault(path: Seq<char>, schema: Tree, value: Tree) -> Option<Seq<char>>
    decreases value, 0int,
{
    if !(schema is Object) {
        None
    } else if schema.text_at("type"@) matches Some(expected) && !matches_type(expected, value) {
        Some(wrong_type(path, schema.text_at("type"@)->0, value))
    } else if schema.get("enum"@) matches Some(Tree::Array(allowed)) && !is_option(allowed, value) {
        Some(not_permitted(path))
    } else {
        match value {
            Tree::Object(members) => object_fault(path, schema, members),
            Tree::Array(items) => match schema.get("items"@) {
                Some(child) => items_fault(path, child, items, 0),
                None => None,
            },
            _ => None,
        }
    }
}

// ---- the two agree ------------------------------------------------------------------

proof fn required_fault_is_lack(
    path: Seq<char>,
    names: Seq<Tree>,
    members: Seq<(Seq<char>, Tree)>,
    from: int,
)
    requires
        0 <= from <= names.len(),
    ensures
        required_fault(path, names, members, from) is None <==> forall|i: int|
            from <= i < names.len() ==> ((#[trigger] names[i]).as_text() matches Some(name) ==> has(
                members,
                name,
            )),
    decreases names.len() - from,
{
    if from < names.len() {
        required_fault_is_lack(path, names, members, from + 1);
        assert(names[from].as_text() is None || names[from].as_text() is Some);
    }
}

proof fn extra_fault_is_excess(
    path: Seq<char>,
    schema: Tree,
    members: Seq<(Seq<char>, Tree)>,
    from: int,
)
    requires
        0 <= from <= members.len(),
    ensures
        extra_fault(path, schema, members, from) is None <==> forall|i: int|
            from <= i < members.len() ==> declares(schema, (#[trigger] members[i]).0),
    decreases members.len() - from,
{
    if from < members.len() {
        extra_fault_is_excess(path, schema, members, from + 1);
        assert(declares(schema, members[from].0) || !declares(schema, members[from].0));
    }
}

proof fn children_fault_is_misfit(
    path: Seq<char>,
    properties: Seq<(Seq<char>, Tree)>,
    members: Seq<(Seq<char>, Tree)>,
    from: int,
)
    requires
        0 <= from <= members.len(),
    ensures
        children_fault(path, properties, members, from) is None <==> forall|i: int|
            from <= i < members.len() ==> (crate::keyed::find(
                properties,
                (#[trigger] members[i]).0,
            ) matches Some(child) ==> conforms(child, members[i].1)),
    decreases members, members.len() - from,
{
    if from < members.len() {
        children_fault_is_misfit(path, properties, members, from + 1);
        match crate::keyed::find(properties, members[from].0) {
            Some(child) => {
                no_fault_means_conforming(path + "."@ + members[from].0, child, members[from].1);
            },
            None => {},
        }
    }
}

proof fn items_fault_is_misfit(path: Seq<char>, child: Tree, items: Seq<Tree>, from: int)
    requires
        0 <= from <= items.len(),
    ensures
        items_fault(path, child, items, from) is None <==> forall|i: int|
            from <= i < items.len() ==> conforms(child, #[trigger] items[i]),
    decreases items, items.len() - from,
{
    if from < items.len() {
        items_fault_is_misfit(path, child, items, from + 1);
        no_fault_means_conforming(
            path + "["@ + crate::text::decimal(from as nat) + "]"@,
            child,
            items[from],
        );
    }
}

/// A value has no fault against a schema exactly if it satisfies the schema, wherever it
/// stands.
pub proof fn no_fault_means_conforming(path: Seq<char>, schema: Tree, value: Tree)
    ensures
        fault(path, schema, value) is None <==> conforms(schema, value),
    decreases value, 0int,
{
    match value {
        Tree::Object(members) => {
            if let Some(Tree::Array(names)) = schema.get("required"@) {
                required_fault_is_lack(path, names, members, 0);
            }
            extra_fault_is_excess(path, schema, members, 0);
            if let Some(properties) = properties_of(schema) {
                children_fault_is_misfit(path, properties, members, 0);
            }
        },
        Tree::Array(items) => {
            if let Some(child) = schema.get("items"@) {
                items_fault_is_misfit(path, child, items, 0);
            }
        },
        _ => {},
    }
}

/// Every option of an enumeration is among its options, unless it holds a
/// not-a-number.
pub proof fn an_option_is_permitted(allowed: Seq<Tree>, i: int)
    requires
        0 <= i < allowed.len(),
        crate::json::finite(allowed[i]),
    ensures
        is_option(allowed, allowed[i]),
{
    crate::json::same_is_reflexive(allowed[i]);
}

// ---- the check ----------------------------------------------------------------------

fn has_type(expected: &str, value: &Json) -> (fits: bool)
    ensures
        fits == matches_type(expected@, value@),
{
    if same_text(expected, "object") {
        matches!(value, Json::Object(_))
    } else if same_text(expected, "array") {
        matches!(value, Json::Array(_))
    } else if same_text(expected, "string") {
        matches!(value, Json::String(_))
    } else if same_text(expected, "number") {
        matches!(value, Json::Number(_))
    } else if same_text(expected, "integer") {
        match value {
            Json::Number(n) => n.is_integral(),
            _ => false,
        }
    } else if same_text(expected, "boolean") {
        matches!(value, Json::Bool(_))
    } else if same_text(expected, "null") {
        matches!(value, Json::Null)
    } else {
        true
    }
}

fn kind_name(value: &Json) -> (name: &'static str)
    ensures
        name@ == kind_of(value@),
{
    match value {
        Json::Null => "null",
        Json::Bool(_) => "boolean",
        Json::Number(_) => "number",
        Json::String(_) => "string",
        Json::Array(_) => "array",
        Json::Object(_) => "object",
    }
}

fn among(allowed: &Vec<Json>, value: &Json) -> (found: bool)
    ensures
        found == is_option(crate::json::items_of(*allowed), value@),
{
    let ghost options = crate::json::items_of(*allowed);
    let mut i: usize = 0;
    while i < allowed.len()
        invariant
            i <= allowed.len(),
            options == crate::json::items_of(*allowed),
            forall|j: int| 0 <= j < i ==> !crate::json::same(#[trigger] options[j], value@),
        decreases allowed.len() - i,
    {
        if equal(&allowed[i], value) {
            assert(crate::json::same(options[i as int], value@));
            return true;
        }
        i = i + 1;
    }
    false
}

/// The message of a fault that names a property.
fn property_fault(path: &str, what: &str, name: &str) -> (text: String)
    ensures
        text@ == path@ + what@ + name@ + "`"@,
{
    let mut text = path.to_owned();
    text.append(what);
    text.append(name);
    text.append("`");
    text
}

fn check_required(path: &str, names: &Vec<Json>, members: &Members) -> (found: Result<
    (),
    String,
>)
    ensures
        match found {
            Ok(_) => required_fault(
                path@,
                crate::json::items_of(*names),
                crate::json::members_of(*members),
                0,
            ) is None,
            Err(text) => required_fault(
                path@,
                crate::json::items_of(*names),
                crate::json::members_of(*members),
                0,
            ) == Some(text@),
        },
{
    let ghost all = crate::json::items_of(*names);
    let ghost object = crate::json::members_of(*members);
    let mut i: usize = 0;
    while i < names.len()
        invariant
            i <= names.len(),
            all == crate::json::items_of(*names),
            object == crate::json::members_of(*members),
            required_fault(path@, all, object, 0) == required_fault(path@, all, object, i as int),
        decreases names.len() - i,
    {
        if let Some(name) = names[i].as_str() {
            if find_member(members, name).is_none() {
                return Err(property_fault(path, ": missing required property `", name));
            }
        }
        i = i + 1;
    }
    Ok(())
}

fn declared(properties: Option<&Members>, name: &str) -> (known: bool)
    ensures
        known == (properties matches Some(p) && has(crate::json::members_of(*p), name@)),
{
    match properties {
        Some(properties) => find_member(properties, name).is_some(),
        None => false,
    }
}

fn properties(schema: &Json) -> (found: Option<&Members>)
    ensures
        match found {
            Some(p) => properties_of(schema@) == Some(crate::json::members_of(*p)),
            None => properties_of(schema@) is None,
        },
{
    match schema.get("properties") {
        Some(Json::Object(p)) => Some(p),
        _ => None,
    }
}

fn check_extra(path: &str, schema: &Json, members: &Members) -> (found: Result<(), String>)
    ensures
        match found {
            Ok(_) => extra_fault(path@, schema@, crate::json::members_of(*members), 0) is None,
            Err(text) => extra_fault(path@, schema@, crate::json::members_of(*members), 0) == Some(
                text@,
            ),
        },
{
    let properties = properties(schema);
    let ghost object = crate::json::members_of(*members);
    let mut i: usize = 0;
    while i < members.list.len()
        invariant
            i <= members.list.len(),
            object == crate::json::members_of(*members),
            match properties {
                Some(p) => properties_of(schema@) == Some(crate::json::members_of(*p)),
                None => properties_of(schema@) is None,
            },
            extra_fault(path@, schema@, object, 0) == extra_fault(
                path@,
                schema@,
                object,
                i as int,
            ),
        decreases members.list.len() - i,
    {
        let name = members.list[i].name.as_str();
        if !declared(properties, name) {
            return Err(property_fault(path, ": unexpected property `", name));
        }
        i = i + 1;
    }
    Ok(())
}

fn check_children(
    path: &str,
    properties: &Members,
    value: &Json,
    members: &Members,
) -> (found: Result<(), String>)
    requires
        *value == Json::Object(*members),
    ensures
        match found {
            Ok(_) => children_fault(
                path@,
                crate::json::members_of(*properties),
                crate::json::members_of(*members),
                0,
            ) is None,
            Err(text) => children_fault(
                path@,
                crate::json::members_of(*properties),
                crate::json::members_of(*members),
                0,
            ) == Some(text@),
        },
    decreases value, 0int,
{
    let ghost declared = crate::json::members_of(*properties);
    let ghost object = crate::json::members_of(*members);
    let mut i: usize = 0;
    while i < members.list.len()
        invariant
            i <= members.list.len(),
            *value == Json::Object(*members),
            declared == crate::json::members_of(*properties),
            object == crate::json::members_of(*members),
            children_fault(path@, declared, object, 0) == children_fault(
                path@,
                declared,
                object,
                i as int,
            ),
        decreases members.list.len() - i,
    {
        let name = members.list[i].name.as_str();
        if let Some(child) = find_member(properties, name) {
            let mut child_path = path.to_owned();
            child_path.append(".");
            child_path.append(name);
            assert(decreases_to!(*value => value->Object_0.list@[i as int]));
            let inner = validate_at(child_path.as_str(), child, &members.list[i].value);
            if inner.is_err() {
                return inner;
            }
        }
        i = i + 1;
    }
    Ok(())
}

fn check_items(path: &str, child: &Json, value: &Json, items: &Vec<Json>) -> (found: Result<
    (),
    String,
>)
    requires
        *value == Json::Array(*items),
    ensures
        match found {
            Ok(_) => items_fault(path@, child@, crate::json::items_of(*items), 0) is None,
            Err(text) => items_fault(path@, child@, crate::json::items_of(*items), 0) == Some(
                text@,
            ),
        },
    decreases value, 0int,
{
    let ghost all = crate::json::items_of(*items);
    let mut i: usize = 0;
    while i < items.len()
        invariant
            i <= items.len(),
            *value == Json::Array(*items),
            all == crate::json::items_of(*items),
            items_fault(path@, child@, all, 0) == items_fault(path@, child@, all, i as int),
        decreases items.len() - i,
    {
        let mut child_path = path.to_owned();
        child_path.append("[");
        let index = decimal_text(i as u128);
        child_path.append(index.as_str());
        child_path.append("]");
        assert(decreases_to!(*value => value->Array_0@[i as int]));
        let inner = validate_at(child_path.as_str(), child, &items[i]);
        if inner.is_err() {
            return inner;
        }
        i = i + 1;
    }
    Ok(())
}

fn check_object(path: &str, schema: &Json, value: &Json, members: &Members) -> (found: Result<
    (),
    String,
>)
    requires
        *value == Json::Object(*members),
    ensures
        match found {
            Ok(_) => object_fault(path@, schema@, crate::json::members_of(*members)) is None,
            Err(text) => object_fault(path@, schema@, crate::json::members_of(*members)) == Some(
                text@,
            ),
        },
    decreases value, 1int,
{
    if let Some(Json::Array(names)) = schema.get("required") {
        let lacking = check_required(path, names, members);
        if lacking.is_err() {
            return lacking;
        }
    }
    if let Some(Json::Bool(false)) = schema.get("additionalProperties") {
        let extra = check_extra(path, schema, members);
        if extra.is_err() {
            return extra;
        }
    }
    match properties(schema) {
        Some(declared) => check_children(path, declared, value, members),
        None => Ok(()),
    }
}

/// Checks a value that stands at `path` against a schema.
pub fn validate_at(path: &str, schema: &Json, value: &Json) -> (found: Result<(), String>)
    ensures
        match found {
            Ok(_) => fault(path@, schema@, value@) is None,
            Err(text) => fault(path@, schema@, value@) == Some(text@),
        },
    decreases value, 2int,
{
    if !matches!(schema, Json::Object(_)) {
        return Ok(());
    }
    if let Some(expected) = schema.str_at("type") {
        if !has_type(expected, value) {
            let mut text = path.to_owned();
            text.append(": expected ");
            text.append(expected);
            text.append(", found ");
            text.append(kind_name(value));
            return Err(text);
        }
    }
    if let Some(Json::Array(allowed)) = schema.get("enum") {
        if !among(allowed, value) {
            let mut text = path.to_owned();
            text.append(": value is not one of the permitted options");
            return Err(text);
        }
    }
    match value {
        Json::Object(members) => check_object(path, schema, value, members),
        Json::Array(items) => match schema.get("items") {
            Some(child) => check_items(path, child, value, items),
            None => Ok(()),
        },
        _ => Ok(()),
    }
}

/// Check `arguments` against `schema`. `Err` carries a human-readable path and reason.
pub fn validate(schema: &Json, arguments: &Json) -> (found: Result<(), String>)
    ensures
        found is Ok <==> conforms(schema@, arguments@),
        match found {
            Ok(_) => fault("arguments"@, schema@, arguments@) is None,
            Err(text) => fault("arguments"@, schema@, arguments@) == Some(text@),
        },
{
    proof {
        no_fault_means_conforming("arguments"@, schema@, arguments@);
    }
    validate_at("arguments", schema, arguments)
}

// ---- laws ---------------------------------------------------------------------------

proof fn type_names_differ()
    ensures
        "object"@ != "array"@ && "object"@ != "string"@ && "object"@ != "number"@,
        "object"@ != "integer"@ && "object"@ != "boolean"@ && "object"@ != "null"@,
        "array"@ != "string"@ && "array"@ != "number"@ && "array"@ != "integer"@,
        "array"@ != "boolean"@ && "array"@ != "null"@,
        "string"@ != "number"@ && "string"@ != "integer"@ && "string"@ != "boolean"@,
        "string"@ != "null"@,
        "number"@ != "integer"@ && "number"@ != "boolean"@ && "number"@ != "null"@,
        "integer"@ != "boolean"@ && "integer"@ != "null"@,
        "boolean"@ != "null"@,
{
    reveal_strlit("object");
    reveal_strlit("array");
    reveal_strlit("string");
    reveal_strlit("number");
    reveal_strlit("integer");
    reveal_strlit("boolean");
    reveal_strlit("null");
    assert("object"@.len() == 6 && "object"@[0] == 'o');
    assert("array"@.len() == 5);
    assert("string"@.len() == 6 && "string"@[0] == 's');
    assert("number"@.len() == 6 && "number"@[0] == 'n');
    assert("integer"@.len() == 7 && "integer"@[0] == 'i');
    assert("boolean"@.len() == 7 && "boolean"@[0] == 'b');
    assert("null"@.len() == 4);
}

proof fn keywords_differ()
    ensures
        "type"@ != "enum"@ && "type"@ != "required"@ && "type"@ != "properties"@,
        "type"@ != "items"@ && "type"@ != "additionalProperties"@,
        "enum"@ != "required"@ && "enum"@ != "properties"@ && "enum"@ != "items"@,
        "enum"@ != "additionalProperties"@,
        "required"@ != "properties"@ && "required"@ != "items"@,
        "required"@ != "additionalProperties"@,
        "properties"@ != "items"@ && "properties"@ != "additionalProperties"@,
        "items"@ != "additionalProperties"@,
{
    reveal_strlit("type");
    reveal_strlit("enum");
    reveal_strlit("required");
    reveal_strlit("properties");
    reveal_strlit("items");
    reveal_strlit("additionalProperties");
    assert("type"@.len() == 4 && "type"@[0] == 't');
    assert("enum"@.len() == 4 && "enum"@[0] == 'e');
    assert("required"@.len() == 8);
    assert("properties"@.len() == 10);
    assert("items"@.len() == 5);
    assert("additionalProperties"@.len() == 20);
}

/// A schema of one keyword has that one alone.
proof fn one_keyword_stands_alone(keyword: Seq<char>, demand: Tree, other: Seq<char>)
    ensures
        Tree::Object(seq![(keyword, demand)]).get(other) == (if other == keyword {
            Some(demand)
        } else {
            None
        }),
{
    let members = seq![(keyword, demand)];
    crate::json::members_are_read_by_name(members, 0, other);
}

/// The schema that demands a type alone is satisfied exactly by the values of that kind, and
/// has no fault to find exactly in those: under each of the type names by no value of another
/// kind, under "integer" by the numbers without a fractional part, and under a name that is
/// none of these by every value.
pub proof fn a_type_is_satisfied_by_its_own_kind(path: Seq<char>, name: Seq<char>, value: Tree)
    ensures
        ({
            let schema = Tree::Object(seq![("type"@, Tree::Text(name))]);
            let known = name == "object"@ || name == "array"@ || name == "string"@ || name
                == "number"@ || name == "integer"@ || name == "boolean"@ || name == "null"@;
            &&& fault(path, schema, value) is None <==> conforms(schema, value)
            &&& name == "object"@ ==> (conforms(schema, value) <==> value is Object)
            &&& name == "array"@ ==> (conforms(schema, value) <==> value is Array)
            &&& name == "string"@ ==> (conforms(schema, value) <==> value is Text)
            &&& name == "number"@ ==> (conforms(schema, value) <==> value is Number)
            &&& name == "boolean"@ ==> (conforms(schema, value) <==> value is Bool)
            &&& name == "null"@ ==> (conforms(schema, value) <==> value is Null)
            &&& name == "integer"@ ==> (conforms(schema, value) <==> (value matches Tree::Number(n)
                && crate::json::integral(n)))
            &&& !known ==> conforms(schema, value)
        }),
{
    let schema = Tree::Object(seq![("type"@, Tree::Text(name))]);
    no_fault_means_conforming(path, schema, value);
    type_names_differ();
    keywords_differ();
    one_keyword_stands_alone("type"@, Tree::Text(name), "type"@);
    one_keyword_stands_alone("type"@, Tree::Text(name), "enum"@);
    one_keyword_stands_alone("type"@, Tree::Text(name), "required"@);
    one_keyword_stands_alone("type"@, Tree::Text(name), "properties"@);
    one_keyword_stands_alone("type"@, Tree::Text(name), "items"@);
    one_keyword_stands_alone("type"@, Tree::Text(name), "additionalProperties"@);
}

/// Whatever else a schema demands, a value that satisfies it is of its declared type, and one
/// of another kind has a fault.
pub proof fn a_declared_type_is_demanded(
    path: Seq<char>,
    schema: Tree,
    name: Seq<char>,
    value: Tree,
)
    requires
        schema.get("type"@) == Some(Tree::Text(name)),
    ensures
        name == "object"@ && !(value is Object) ==> !conforms(schema, value),
        name == "array"@ && !(value is Array) ==> !conforms(schema, value),
        name == "string"@ && !(value is Text) ==> !conforms(schema, value),
        name == "number"@ && !(value is Number) ==> !conforms(schema, value),
        name == "integer"@ && !(value matches Tree::Number(n) && crate::json::integral(n))
            ==> !conforms(schema, value),
        name == "boolean"@ && !(value is Bool) ==> !conforms(schema, value),
        name == "null"@ && !(value is Null) ==> !conforms(schema, value),
        !conforms(schema, value) <==> fault(path, schema, value) is Some,
{
    type_names_differ();
    no_fault_means_conforming(path, schema, value);
}

/// Options alone are satisfied exactly by the values that equal one of them.
pub proof fn options_are_satisfied_by_equals(allowed: Seq<Tree>, value: Tree)
    ensures
        conforms(Tree::Object(seq![("enum"@, Tree::Array(allowed))]), value) <==> exists|i: int|
            0 <= i < allowed.len() && crate::json::same(#[trigger] allowed[i], value),
{
    keywords_differ();
    let demand = Tree::Array(allowed);
    one_keyword_stands_alone("enum"@, demand, "type"@);
    one_keyword_stands_alone("enum"@, demand, "enum"@);
    one_keyword_stands_alone("enum"@, demand, "required"@);
    one_keyword_stands_alone("enum"@, demand, "properties"@);
    one_keyword_stands_alone("enum"@, demand, "items"@);
    one_keyword_stands_alone("enum"@, demand, "additionalProperties"@);
}

/// Required names alone are satisfied by every value that is no object, and by exactly those
/// objects that have a member under each of the names.
pub proof fn required_names_are_satisfied_by_members(names: Seq<Tree>, value: Tree)
    ensures
        conforms(Tree::Object(seq![("required"@, Tree::Array(names))]), value) <==> (value is Object
            ==> forall|i: int|
            0 <= i < names.len() ==> ((#[trigger] names[i]) matches Tree::Text(name) ==> value.get(
                name,
            ) is Some)),
{
    keywords_differ();
    let demand = Tree::Array(names);
    one_keyword_stands_alone("required"@, demand, "type"@);
    one_keyword_stands_alone("required"@, demand, "enum"@);
    one_keyword_stands_alone("required"@, demand, "required"@);
    one_keyword_stands_alone("required"@, demand, "properties"@);
    one_keyword_stands_alone("required"@, demand, "items"@);
    one_keyword_stands_alone("required"@, demand, "additionalProperties"@);
    if let Tree::Object(members) = value {
        assert forall|i: int| 0 <= i < names.len() implies ((#[trigger] names[i]).as_text() matches
            Some(name) ==> has(members, name)) == (names[i] matches Tree::Text(name) ==> value.get(
            name,
        ) is Some) by {}
    }
}

/// Declared properties alone are satisfied by every value that is no object, and by exactly
/// those objects whose members under a declared name satisfy what is declared of it.
pub proof fn properties_are_satisfied_by_their_members(
    properties: Seq<(Seq<char>, Tree)>,
    value: Tree,
)
    ensures
        conforms(Tree::Object(seq![("properties"@, Tree::Object(properties))]), value) <==> (
        value matches Tree::Object(members) ==> forall|i: int|
            0 <= i < members.len() ==> (Tree::Object(properties).get(
                (#[trigger] members[i]).0,
            ) matches Some(child) ==> conforms(child, members[i].1))),
{
    keywords_differ();
    let demand = Tree::Object(properties);
    one_keyword_stands_alone("properties"@, demand, "type"@);
    one_keyword_stands_alone("properties"@, demand, "enum"@);
    one_keyword_stands_alone("properties"@, demand, "required"@);
    one_keyword_stands_alone("properties"@, demand, "properties"@);
    one_keyword_stands_alone("properties"@, demand, "items"@);
    one_keyword_stands_alone("properties"@, demand, "additionalProperties"@);
    let schema = Tree::Object(seq![("properties"@, demand)]);
    assert(properties_of(schema) == Some(properties));
    if let Tree::Object(members) = value {
        assert forall|i: int| 0 <= i < members.len() implies crate::keyed::find(
            properties,
            (#[trigger] members[i]).0,
        ) == Tree::Object(properties).get(members[i].0) by {}
    }
}

/// An item schema alone is satisfied by every value that is no array, and by exactly those
/// arrays all of whose items satisfy it.
pub proof fn items_are_satisfied_one_by_one(child: Tree, value: Tree)
    ensures
        conforms(Tree::Object(seq![("items"@, child)]), value) <==> (value matches Tree::Array(items)
            ==> forall|i: int| 0 <= i < items.len() ==> conforms(child, #[trigger] items[i])),
{
    keywords_differ();
    one_keyword_stands_alone("items"@, child, "type"@);
    one_keyword_stands_alone("items"@, child, "enum"@);
    one_keyword_stands_alone("items"@, child, "required"@);
    one_keyword_stands_alone("items"@, child, "properties"@);
    one_keyword_stands_alone("items"@, child, "items"@);
    one_keyword_stands_alone("items"@, child, "additionalProperties"@);
}

/// A value satisfies a schema exactly if it satisfies each of its keywords. A schema that
/// admits no further properties is satisfied only by objects whose every name it declares;
/// any other word than `false` admits them. A schema that is no object demands nothing.
pub proof fn every_keyword_is_demanded(schema: Tree, value: Tree)
    ensures
        schema is Object ==> (conforms(schema, value) <==> {
            &&& schema.get("type"@) matches Some(Tree::Text(name)) ==> conforms(
                Tree::Object(seq![("type"@, Tree::Text(name))]),
                value,
            )
            &&& schema.get("enum"@) matches Some(Tree::Array(allowed)) ==> conforms(
                Tree::Object(seq![("enum"@, Tree::Array(allowed))]),
                value,
            )
            &&& schema.get("required"@) matches Some(Tree::Array(names)) ==> conforms(
                Tree::Object(seq![("required"@, Tree::Array(names))]),
                value,
            )
            &&& schema.get("properties"@) matches Some(Tree::Object(properties)) ==> conforms(
                Tree::Object(seq![("properties"@, Tree::Object(properties))]),
                value,
            )
            &&& schema.get("items"@) matches Some(child) ==> conforms(
                Tree::Object(seq![("items"@, child)]),
                value,
            )
            &&& schema.get("additionalProperties"@) == Some(Tree::Bool(false)) ==> (value matches
                Tree::Object(members) ==> forall|i: int|
                0 <= i < members.len() ==> (schema.get("properties"@) matches Some(declared)
                    && declared.get((#[trigger] members[i]).0) is Some))
        }),
        !(schema is Object) ==> conforms(schema, value),
{
    keywords_differ();
    if let Some(Tree::Text(name)) = schema.get("type"@) {
        let demand = Tree::Text(name);
        one_keyword_stands_alone("type"@, demand, "type"@);
        one_keyword_stands_alone("type"@, demand, "enum"@);
        one_keyword_stands_alone("type"@, demand, "required"@);
        one_keyword_stands_alone("type"@, demand, "properties"@);
        one_keyword_stands_alone("type"@, demand, "items"@);
        one_keyword_stands_alone("type"@, demand, "additionalProperties"@);
        assert(conforms(Tree::Object(seq![("type"@, demand)]), value) <==> matches_type(name, value));
    }
    if let Some(Tree::Array(allowed)) = schema.get("enum"@) {
        options_are_satisfied_by_equals(allowed, value);
    }
    if let Some(Tree::Array(names)) = schema.get("required"@) {
        required_names_are_satisfied_by_members(names, value);
        if let Tree::Object(members) = value {
            assert forall|i: int| 0 <= i < names.len() implies ((
            #[trigger] names[i]).as_text() matches Some(name) ==> has(members, name)) == (
            names[i] matches Tree::Text(name) ==> value.get(name) is Some) by {}
        }
    }
    if let Some(Tree::Object(properties)) = schema.get("properties"@) {
        properties_are_satisfied_by_their_members(properties, value);
        if let Tree::Object(members) = value {
            assert forall|i: int| 0 <= i < members.len() implies crate::keyed::find(
                properties,
                (#[trigger] members[i]).0,
            ) == Tree::Object(properties).get(members[i].0) by {}
        }
    }
    if let Some(child) = schema.get("items"@) {
        items_are_satisfied_one_by_one(child, value);
    }
    if let Tree::Object(members) = value {
        assert forall|i: int| 0 <= i < members.len() implies declares(
            schema,
            (#[trigger] members[i]).0,
        ) == (schema.get("properties"@) matches Some(declared) && declared.get(members[i].0)
            is Some) by {}
    }
}

/// The first fault of a value is told with its place and what is wrong, in this order: its
/// type, with the demanded and the found one; its options; a required property that it
/// lacks; a property that is not declared.
pub proof fn a_fault_tells_what_is_wrong(path: Seq<char>, schema: Tree, value: Tree, k: int)
    requires
        schema is Object,
    ensures
        ({
            let found = fault(path, schema, value);
            let typed = schema.get("type"@) matches Some(Tree::Text(name)) ==> conforms(
                Tree::Object(seq![("type"@, Tree::Text(name))]),
                value,
            );
            let chosen = schema.get("enum"@) matches Some(Tree::Array(allowed)) ==> conforms(
                Tree::Object(seq![("enum"@, Tree::Array(allowed))]),
                value,
            );
            &&& !typed ==> (schema.get("type"@) matches Some(Tree::Text(name)) && found == Some(
                path + ": expected "@ + name + ", found "@ + (match value {
                    Tree::Null => "null"@,
                    Tree::Bool(_) => "boolean"@,
                    Tree::Number(_) => "number"@,
                    Tree::Text(_) => "string"@,
                    Tree::Array(_) => "array"@,
                    Tree::Object(_) => "object"@,
                }),
            ))
            &&& typed && !chosen ==> found == Some(
                path + ": value is not one of the permitted options"@,
            )
            &&& typed && chosen && value is Object ==> (schema.get("required"@) matches Some(
                Tree::Array(names),
            ) ==> (0 <= k < names.len() && (forall|i: int|
                0 <= i < k ==> ((#[trigger] names[i]) matches Tree::Text(name) ==> value.get(name)
                    is Some)) ==> (names[k] matches Tree::Text(name) ==> value.get(name) is None
                ==> found == Some(path + ": missing required property `"@ + name + "`"@))))
        }),
{
    keywords_differ();
    if let Some(Tree::Text(name)) = schema.get("type"@) {
        let demand = Tree::Text(name);
        one_keyword_stands_alone("type"@, demand, "type"@);
        one_keyword_stands_alone("type"@, demand, "enum"@);
        one_keyword_stands_alone("type"@, demand, "required"@);
        one_keyword_stands_alone("type"@, demand, "properties"@);
        one_keyword_stands_alone("type"@, demand, "items"@);
        one_keyword_stands_alone("type"@, demand, "additionalProperties"@);
        assert(conforms(Tree::Object(seq![("type"@, demand)]), value) <==> matches_type(name, value));
    }
    if let Some(Tree::Array(allowed)) = schema.get("enum"@) {
        options_are_satisfied_by_equals(allowed, value);
    }
    if let Some(Tree::Array(names)) = schema.get("required"@) {
        if let Tree::Object(members) = value {
            if 0 <= k < names.len() && forall|i: int|
                0 <= i < k ==> ((#[trigger] names[i]) matches Tree::Text(name) ==> value.get(name)
                    is Some) {
                the_first_lack_counts(path, names, members, 0, k);
            }
        }
    }
}

proof fn the_first_lack_counts(
    path: Seq<char>,
    names: Seq<Tree>,
    members: Seq<(Seq<char>, Tree)>,
    from: int,
    k: int,
)
    requires
        0 <= from <= k < names.len(),
        forall|i: int|
            from <= i < k ==> ((#[trigger] names[i]) matches Tree::Text(name) ==> Tree::Object(
                members,
            ).get(name) is Some),
    ensures
        required_fault(path, names, members, from) == required_fault(path, names, members, k),
    decreases k - from,
{
    if from < k {
        assert(names[from].as_text() matches Some(name) ==> has(members, name));
        the_first_lack_counts(path, names, members, from + 1, k);
    }
}

/// An object that lacks nothing is checked for undeclared members next, where its schema
/// admits none, and the first of them is named.
pub proof fn an_undeclared_member_is_named(
    path: Seq<char>,
    schema: Tree,
    members: Seq<(Seq<char>, Tree)>,
    k: int,
)
    requires
        0 <= k < members.len(),
        schema.get("additionalProperties"@) == Some(Tree::Bool(false)),
        forall|i: int|
            0 <= i < k ==> (schema.get("properties"@) matches Some(declared) && declared.get(
                (#[trigger] members[i]).0,
            ) is Some),
        !(schema.get("properties"@) matches Some(declared) && declared.get(members[k].0) is Some),
        schema.get("type"@) matches Some(Tree::Text(name)) ==> conforms(
            Tree::Object(seq![("type"@, Tree::Text(name))]),
            Tree::Object(members),
        ),
        schema.get("enum"@) matches Some(Tree::Array(allowed)) ==> conforms(
            Tree::Object(seq![("enum"@, Tree::Array(allowed))]),
            Tree::Object(members),
        ),
        schema.get("required"@) matches Some(Tree::Array(names)) ==> conforms(
            Tree::Object(seq![("required"@, Tree::Array(names))]),
            Tree::Object(members),
        ),
    ensures
        fault(path, schema, Tree::Object(members)) == Some(
            path + ": unexpected property `"@ + members[k].0 + "`"@,
        ),
{
    let value = Tree::Object(members);
    keywords_differ();
    if let Some(Tree::Text(name)) = schema.get("type"@) {
        one_keyword_stands_alone("type"@, Tree::Text(name), "type"@);
    }
    if let Some(Tree::Array(allowed)) = schema.get("enum"@) {
        options_are_satisfied_by_equals(allowed, value);
    }
    if let Some(Tree::Array(names)) = schema.get("required"@) {
        required_names_are_satisfied_by_members(names, value);
        required_fault_is_lack(path, names, members, 0);
        assert forall|i: int| 0 <= i < names.len() implies ((#[trigger] names[i]).as_text() matches
            Some(name) ==> has(members, name)) by {
            if let Tree::Text(name) = names[i] {
                assert(value.get(name) is Some);
            }
        }
    }
    the_first_excess_counts(path, schema, members, 0, k);
}

proof fn the_first_excess_counts(
    path: Seq<char>,
    schema: Tree,
    members: Seq<(Seq<char>, Tree)>,
    from: int,
    k: int,
)
    requires
        0 <= from <= k < members.len(),
        forall|i: int|
            from <= i < k ==> (schema.get("properties"@) matches Some(declared) && declared.get(
                (#[trigger] members[i]).0,
            ) is Some),
    ensures
        extra_fault(path, schema, members, from) == extra_fault(path, schema, members, k),
    decreases k - from,
{
    if from < k {
        assert(schema.get("properties"@) matches Some(declared) && declared.get(members[from].0)
            is Some);
        the_first_excess_counts(path, schema, members, from + 1, k);
    }
}

/// A fault inside a value is told with its own place: a member's behind a dot and its name,
/// an item's behind its number in brackets, and of several the first.
pub proof fn an_inner_fault_is_told_at_its_place(
    path: Seq<char>,
    properties: Seq<(Seq<char>, Tree)>,
    members: Seq<(Seq<char>, Tree)>,
    child: Tree,
    items: Seq<Tree>,
    k: int,
)
    ensures
        0 <= k < members.len() && (forall|i: int|
            0 <= i < k ==> (Tree::Object(properties).get((#[trigger] members[i]).0) matches Some(
                inner,
            ) ==> conforms(inner, members[i].1))) ==> (Tree::Object(properties).get(
            members[k].0,
        ) matches Some(inner) ==> !conforms(inner, members[k].1) ==> fault(
            path,
            Tree::Object(seq![("properties"@, Tree::Object(properties))]),
            Tree::Object(members),
        ) == fault(path + "."@ + members[k].0, inner, members[k].1)),
        0 <= k < items.len() && (forall|i: int|
            0 <= i < k ==> conforms(child, #[trigger] items[i])) && !conforms(child, items[k])
            ==> fault(path, Tree::Object(seq![("items"@, child)]), Tree::Array(items)) == fault(
            path + "["@ + crate::text::decimal(k as nat) + "]"@,
            child,
            items[k],
        ),
{
    keywords_differ();
    let demand = Tree::Object(properties);
    one_keyword_stands_alone("properties"@, demand, "type"@);
    one_keyword_stands_alone("properties"@, demand, "enum"@);
    one_keyword_stands_alone("properties"@, demand, "required"@);
    one_keyword_stands_alone("properties"@, demand, "properties"@);
    one_keyword_stands_alone("properties"@, demand, "additionalProperties"@);
    one_keyword_stands_alone("items"@, child, "type"@);
    one_keyword_stands_alone("items"@, child, "enum"@);
    one_keyword_stands_alone("items"@, child, "items"@);
    if 0 <= k < members.len() && forall|i: int|
        0 <= i < k ==> (Tree::Object(properties).get((#[trigger] members[i]).0) matches Some(inner)
            ==> conforms(inner, members[i].1)) {
        the_first_bad_member_counts(path, properties, members, 0, k);
        if let Some(inner) = Tree::Object(properties).get(members[k].0) {
            no_fault_means_conforming(path + "."@ + members[k].0, inner, members[k].1);
        }
    }
    if 0 <= k < items.len() && forall|i: int| 0 <= i < k ==> conforms(child, #[trigger] items[i]) {
        the_first_bad_item_counts(path, child, items, 0, k);
        no_fault_means_conforming(
            path + "["@ + crate::text::decimal(k as nat) + "]"@,
            child,
            items[k],
        );
    }
}

proof fn the_first_bad_member_counts(
    path: Seq<char>,
    properties: Seq<(Seq<char>, Tree)>,
    members: Seq<(Seq<char>, Tree)>,
    from: int,
    k: int,
)
    requires
        0 <= from <= k < members.len(),
        forall|i: int|
            from <= i < k ==> (Tree::Object(properties).get((#[trigger] members[i]).0) matches Some(
                inner,
            ) ==> conforms(inner, members[i].1)),
    ensures
        children_fault(path, properties, members, from) == children_fault(
            path,
            properties,
            members,
            k,
        ),
    decreases k - from,
{
    if from < k {
        if let Some(inner) = crate::keyed::find(properties, members[from].0) {
            assert(Tree::Object(properties).get(members[from].0) == Some(inner));
            no_fault_means_conforming(path + "."@ + members[from].0, inner, members[from].1);
        }
        the_first_bad_member_counts(path, properties, members, from + 1, k);
    }
}

proof fn the_first_bad_item_counts(
    path: Seq<char>,
    child: Tree,
    items: Seq<Tree>,
    from: int,
    k: int,
)
    requires
        0 <= from <= k < items.len(),
        forall|i: int| from <= i < k ==> conforms(child, #[trigger] items[i]),
    ensures
        items_fault(path, child, items, from) == items_fault(path, child, items, k),
    decreases k - from,
{
    if from < k {
        assert(conforms(child, items[from]));
        no_fault_means_conforming(
            path + "["@ + crate::text::decimal(from as nat) + "]"@,
            child,
            items[from],
        );
        the_first_bad_item_counts(path, child, items, from + 1, k);
    }
}

/// What [`validate`] answers: under a schema that demands a type alone it accepts exactly the
/// arguments of that kind, and what it says against others names both kinds.
pub proof fn validation_accepts_the_demanded_kind(
    schema: Json,
    arguments: Json,
    name: Seq<char>,
    found: Result<(), String>,
)
    requires
        schema@ == Tree::Object(seq![("type"@, Tree::Text(name))]),
        call_ensures(validate, (&schema, &arguments), found),
    ensures
        name == "object"@ ==> (found is Ok <==> arguments@ is Object),
        name == "array"@ ==> (found is Ok <==> arguments@ is Array),
        name == "string"@ ==> (found is Ok <==> arguments@ is Text),
        name == "number"@ ==> (found is Ok <==> arguments@ is Number),
        name == "boolean"@ ==> (found is Ok <==> arguments@ is Bool),
        name == "null"@ ==> (found is Ok <==> arguments@ is Null),
        found matches Err(text) ==> text@ == "arguments"@ + ": expected "@ + name + ", found "@ + (
        match arguments@ {
            Tree::Null => "null"@,
            Tree::Bool(_) => "boolean"@,
            Tree::Number(_) => "number"@,
            Tree::Text(_) => "string"@,
            Tree::Array(_) => "array"@,
            Tree::Object(_) => "object"@,
        }),
{
    a_type_is_satisfied_by_its_own_kind("arguments"@, name, arguments@);
    a_fault_tells_what_is_wrong("arguments"@, schema@, arguments@, 0);
    keywords_differ();
    one_keyword_stands_alone("type"@, Tree::Text(name), "type"@);
    one_keyword_stands_alone("type"@, Tree::Text(name), "enum"@);
    one_keyword_stands_alone("type"@, Tree::Text(name), "required"@);
    one_keyword_stands_alone("type"@, Tree::Text(name), "properties"@);
    one_keyword_stands_alone("type"@, Tree::Text(name), "items"@);
    one_keyword_stands_alone("type"@, Tree::Text(name), "additionalProperties"@);
}

} // verus!
