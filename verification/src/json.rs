//! A JSON value model, its compact text rendering, and the field accessors
//! the tool-call conversion reads.

use vstd::prelude::*;

use crate::text::{decimal_i64, i64_of_decimal, push_char, spec_decimal, spec_i64_of_decimal, text_eq};

verus! {

/// A JSON value.
///
/// Numbers are kept as `Int` when they are integers that fit in an `i64`;
/// any other number keeps its JSON text in `OtherNumber`. Objects keep their
/// members in order.
#[derive(Debug, PartialEq)]
pub enum JsonValue {
    Null,
    Bool(bool),
    Int(i64),
    OtherNumber(String),
    Str(String),
    Array(Vec<JsonValue>),
    Object(Vec<(String, JsonValue)>),
}

/// Mathematical counterpart of [`JsonValue`].
pub enum SpecJson {
    Null,
    Bool(bool),
    Int(i64),
    OtherNumber(Seq<char>),
    Str(Seq<char>),
    Array(Seq<SpecJson>),
    Object(Seq<(Seq<char>, SpecJson)>),
}

/// The mathematical value of a [`JsonValue`].
pub open spec fn json_view(j: &JsonValue) -> SpecJson
    decreases j,
{
    match j {
        JsonValue::Null => SpecJson::Null,
        JsonValue::Bool(b) => SpecJson::Bool(*b),
        JsonValue::Int(i) => SpecJson::Int(*i),
        JsonValue::OtherNumber(t) => SpecJson::OtherNumber(t@),
        JsonValue::Str(s) => SpecJson::Str(s@),
        JsonValue::Array(v) => SpecJson::Array(
            Seq::new(
                v@.len(),
                |i: int|
                    if 0 <= i < v@.len() {
                        json_view(&v@[i])
                    } else {
                        SpecJson::Null
                    },
            ),
        ),
        JsonValue::Object(v) => SpecJson::Object(
            Seq::new(
                v@.len(),
                |i: int|
                    if 0 <= i < v@.len() {
                        (v@[i].0@, json_view(&v@[i].1))
                    } else {
                        (Seq::empty(), SpecJson::Null)
                    },
            ),
        ),
    }
}

impl DeepView for JsonValue {
    type V = SpecJson;

    open spec fn deep_view(&self) -> SpecJson {
        json_view(self)
    }
}

// ── Rendering ───────────────────────────────────────────────────────────────

/// Lower-case hexadecimal digit for `d` (`0 <= d < 16`).
pub open spec fn hex_digit_char(d: int) -> char {
    if d < 10 {
        crate::text::digit_char(d)
    } else if d == 10 {
        'a'
    } else if d == 11 {
        'b'
    } else if d == 12 {
        'c'
    } else if d == 13 {
        'd'
    } else if d == 14 {
        'e'
    } else {
        'f'
    }
}

/// How one character is written inside a JSON string literal.
pub open spec fn spec_escape_char(c: char) -> Seq<char> {
    let u = c as u32;
    if c == '"' {
        seq!['\\', '"']
    } else if c == '\\' {
        seq!['\\', '\\']
    } else if u == 0x08 {
        seq!['\\', 'b']
    } else if u == 0x09 {
        seq!['\\', 't']
    } else if u == 0x0a {
        seq!['\\', 'n']
    } else if u == 0x0c {
        seq!['\\', 'f']
    } else if u == 0x0d {
        seq!['\\', 'r']
    } else if u < 0x20 {
        seq!['\\', 'u', '0', '0', hex_digit_char((u / 16) as int), hex_digit_char((u % 16) as int)]
    } else {
        seq![c]
    }
}

/// A JSON string literal holding `s`.
pub open spec fn spec_json_string(s: Seq<char>) -> Seq<char> {
    seq!['"'] + s.flat_map(|c: char| spec_escape_char(c)) + seq!['"']
}

/// Compact JSON text of a value: no white space, members in order.
pub open spec fn spec_json_text(j: SpecJson) -> Seq<char>
    decreases j, 0nat,
{
    match j {
        SpecJson::Null => seq!['n', 'u', 'l', 'l'],
        SpecJson::Bool(b) => if b {
            seq!['t', 'r', 'u', 'e']
        } else {
            seq!['f', 'a', 'l', 's', 'e']
        },
        SpecJson::Int(i) => spec_decimal(i as int),
        SpecJson::OtherNumber(t) => t,
        SpecJson::Str(s) => spec_json_string(s),
        SpecJson::Array(items) => seq!['['] + spec_items_text(items, items.len()) + seq![']'],
        SpecJson::Object(members) => seq!['{'] + spec_members_text(members, members.len())
            + seq!['}'],
    }
}

/// The first `n` items of an array, comma separated.
pub open spec fn spec_items_text(items: Seq<SpecJson>, n: nat) -> Seq<char>
    decreases items, n,
{
    if n == 0 || n > items.len() {
        Seq::empty()
    } else if n == 1 {
        spec_json_text(items[0])
    } else {
        spec_items_text(items, (n - 1) as nat) + seq![','] + spec_json_text(items[n - 1])
    }
}

/// The first `n` members of an object, comma separated, each as `"key":value`.
pub open spec fn spec_members_text(members: Seq<(Seq<char>, SpecJson)>, n: nat) -> Seq<char>
    decreases members, n,
{
    if n == 0 || n > members.len() {
        Seq::empty()
    } else if n == 1 {
        spec_json_string(members[0].0) + seq![':'] + spec_json_text(members[0].1)
    } else {
        spec_members_text(members, (n - 1) as nat) + seq![','] + spec_json_string(
            members[n - 1].0,
        ) + seq![':'] + spec_json_text(members[n - 1].1)
    }
}

/// `serde_json::to_string` on a `str`: the string as a JSON literal, escaped
/// as the serializer's escape table does (quote, backslash, the named
/// control escapes, and `\u00XX` with lower-case hex for other control
/// characters; every other character unchanged).
#[verifier::external_body]
pub(crate) fn json_string_literal(s: &str) -> (r: String)
    ensures
        r@ == spec_json_string(s@),
{
    match serde_json::to_string(s) {
        Ok(t) => t,
        Err(_) => String::new(),
    }
}

impl JsonValue {
    /// The compact JSON text of this value.
    pub fn to_json_text(&self) -> (r: String)
        ensures
            r@ == spec_json_text(self.deep_view()),
        decreases self,
    {
        match self {
            JsonValue::Null => {
                let mut r = String::new();
                push_char(&mut r, 'n');
                push_char(&mut r, 'u');
                push_char(&mut r, 'l');
                push_char(&mut r, 'l');
                assert(r@ =~= seq!['n', 'u', 'l', 'l']);
                r
            },
            JsonValue::Bool(b) => {
                let mut r = String::new();
                if *b {
                    push_char(&mut r, 't');
                    push_char(&mut r, 'r');
                    push_char(&mut r, 'u');
                    push_char(&mut r, 'e');
                    assert(r@ =~= seq!['t', 'r', 'u', 'e']);
                } else {
                    push_char(&mut r, 'f');
                    push_char(&mut r, 'a');
                    push_char(&mut r, 'l');
                    push_char(&mut r, 's');
                    push_char(&mut r, 'e');
                    assert(r@ =~= seq!['f', 'a', 'l', 's', 'e']);
                }
                r
            },
            JsonValue::Int(i) => decimal_i64(*i),
            JsonValue::OtherNumber(t) => t.clone(),
            JsonValue::Str(s) => json_string_literal(s.as_str()),
            JsonValue::Array(items) => {
                let ghost sitems = self.deep_view()->Array_0;
                assert(sitems.len() == items@.len());
                let mut r = String::new();
                push_char(&mut r, '[');
                let mut i: usize = 0;
                while i < items.len()
                    invariant
                        i <= items@.len(),
                        sitems.len() == items@.len(),
                        forall|k: int| 0 <= k < items@.len() ==> sitems[k] == #[trigger] items@[k].deep_view(),
                        forall|k: int| 0 <= k < items@.len() ==> decreases_to!(self => #[trigger] items@[k]),
                        r@ == seq!['['] + spec_items_text(sitems, i as nat),
                    decreases items@.len() - i,
                {
                    if i != 0 {
                        push_char(&mut r, ',');
                    }
                    let t = items[i].to_json_text();
                    r.append(t.as_str());
                    proof {
                        if i == 0 {
                            assert(spec_items_text(sitems, 1) == spec_json_text(sitems[0]));
                        }
                        assert(r@ =~= seq!['['] + spec_items_text(sitems, (i + 1) as nat));
                    }
                    i = i + 1;
                }
                push_char(&mut r, ']');
                r
            },
            JsonValue::Object(members) => {
                let ghost smembers = self.deep_view()->Object_0;
                let mut r = String::new();
                push_char(&mut r, '{');
                let mut i: usize = 0;
                while i < members.len()
                    invariant
                        i <= members@.len(),
                        smembers.len() == members@.len(),
                        forall|k: int|
                            0 <= k < members@.len() ==> smembers[k].0 == (
                            #[trigger] members@[k]).0@ && smembers[k].1 == members@[k].1.deep_view(),
                        forall|k: int|
                            0 <= k < members@.len() ==> decreases_to!(self => (#[trigger] members@[k]).1),
                        r@ == seq!['{'] + spec_members_text(smembers, i as nat),
                    decreases members@.len() - i,
                {
                    if i != 0 {
                        push_char(&mut r, ',');
                    }
                    let key = json_string_literal(members[i].0.as_str());
                    r.append(key.as_str());
                    push_char(&mut r, ':');
                    let t = members[i].1.to_json_text();
                    r.append(t.as_str());
                    proof {
                        if i == 0 {
                            assert(spec_members_text(smembers, 1) == spec_json_string(
                                smembers[0].0,
                            ) + seq![':'] + spec_json_text(smembers[0].1));
                        }
                        assert(r@ =~= seq!['{'] + spec_members_text(smembers, (i + 1) as nat));
                    }
                    i = i + 1;
                }
                push_char(&mut r, '}');
                r
            },
        }
    }
}

// ── Field access ────────────────────────────────────────────────────────────

/// The mathematical values of a list of JSON values.
pub open spec fn json_items_view(items: Seq<JsonValue>) -> Seq<SpecJson> {
    Seq::new(items.len(), |i: int| json_view(&items[i]))
}

/// The value of the first member named `key`, if any.
pub open spec fn spec_lookup(members: Seq<(Seq<char>, SpecJson)>, key: Seq<char>) -> Option<SpecJson>
    decreases members.len(),
{
    if members.len() == 0 {
        None
    } else if members[0].0 == key {
        Some(members[0].1)
    } else {
        spec_lookup(members.drop_first(), key)
    }
}

/// The member `key` of an object; `None` when absent or when `j` is not an object.
pub open spec fn spec_field(j: SpecJson, key: Seq<char>) -> Option<SpecJson> {
    match j {
        SpecJson::Object(members) => spec_lookup(members, key),
        _ => None,
    }
}

/// The text of a string value.
pub open spec fn spec_str_of(j: SpecJson) -> Option<Seq<char>> {
    match j {
        SpecJson::Str(s) => Some(s),
        _ => None,
    }
}

/// The text of a string member.
pub open spec fn spec_str_field(j: SpecJson, key: Seq<char>) -> Option<Seq<char>> {
    match spec_field(j, key) {
        Some(v) => spec_str_of(v),
        None => None,
    }
}

/// The value of a boolean member.
pub open spec fn spec_bool_field(j: SpecJson, key: Seq<char>) -> Option<bool> {
    match spec_field(j, key) {
        Some(SpecJson::Bool(b)) => Some(b),
        _ => None,
    }
}

/// The value of an integer member that fits in an `i64`.
pub open spec fn spec_i64_field(j: SpecJson, key: Seq<char>) -> Option<i64> {
    match spec_field(j, key) {
        Some(SpecJson::Int(i)) => Some(i),
        _ => None,
    }
}

/// The items of an array member.
pub open spec fn spec_array_field(j: SpecJson, key: Seq<char>) -> Option<Seq<SpecJson>> {
    match spec_field(j, key) {
        Some(SpecJson::Array(items)) => Some(items),
        _ => None,
    }
}

/// The texts of the string items, in order, skipping the items that are not strings.
pub open spec fn spec_str_items(items: Seq<SpecJson>) -> Seq<Seq<char>> {
    items.filter_map(|j: SpecJson| spec_str_of(j))
}

impl JsonValue {
    /// The member `key` of this object (the first one with that name).
    pub fn field(&self, key: &str) -> (r: Option<&JsonValue>)
        ensures
            match r {
                Some(v) => spec_field(json_view(self), key@) == Some(json_view(v)),
                None => spec_field(json_view(self), key@) is None,
            },
    {
        match self {
            JsonValue::Object(members) => {
                let ghost sm = json_view(self)->Object_0;
                assert(sm.skip(0) =~= sm);
                let mut i: usize = 0;
                while i < members.len()
                    invariant
                        i <= members@.len(),
                        json_view(self) == SpecJson::Object(sm),
                        sm.len() == members@.len(),
                        forall|k: int|
                            0 <= k < members@.len() ==> sm[k].0 == (#[trigger] members@[k]).0@
                                && sm[k].1 == json_view(&members@[k].1),
                        spec_lookup(sm, key@) == spec_lookup(sm.skip(i as int), key@),
                    decreases members@.len() - i,
                {
                    assert(sm.skip(i as int)[0] == sm[i as int]);
                    if text_eq(members[i].0.as_str(), key) {
                        assert(spec_lookup(sm.skip(i as int), key@) == Some(sm[i as int].1));
                        assert(sm[i as int].1 == json_view(&members@[i as int].1));
                        return Some(&members[i].1);
                    }
                    assert(sm.skip(i as int).drop_first() =~= sm.skip(i + 1));
                    i = i + 1;
                }
                None
            },
            _ => None,
        }
    }

    /// The text of this value when it is a string.
    pub fn as_str(&self) -> (r: Option<String>)
        ensures
            r.deep_view() == spec_str_of(json_view(self)),
    {
        match self {
            JsonValue::Str(s) => Some(s.clone()),
            _ => None,
        }
    }

    /// The text of the string member `key`.
    pub fn str_field(&self, key: &str) -> (r: Option<String>)
        ensures
            r.deep_view() == spec_str_field(json_view(self), key@),
    {
        match self.field(key) {
            Some(v) => v.as_str(),
            None => None,
        }
    }

    /// The value of the boolean member `key`.
    pub fn bool_field(&self, key: &str) -> (r: Option<bool>)
        ensures
            r == spec_bool_field(json_view(self), key@),
    {
        match self.field(key) {
            Some(JsonValue::Bool(b)) => Some(*b),
            _ => None,
        }
    }

    /// The value of the integer member `key` when it fits in an `i64`.
    pub fn i64_field(&self, key: &str) -> (r: Option<i64>)
        ensures
            r == spec_i64_field(json_view(self), key@),
    {
        match self.field(key) {
            Some(JsonValue::Int(i)) => Some(*i),
            _ => None,
        }
    }

    /// The items of the array member `key`.
    pub fn array_field(&self, key: &str) -> (r: Option<&Vec<JsonValue>>)
        ensures
            match r {
                Some(v) => spec_array_field(json_view(self), key@) == Some(json_items_view(v@)),
                None => spec_array_field(json_view(self), key@) is None,
            },
    {
        match self.field(key) {
            Some(JsonValue::Array(items)) => {
                assert(json_view(&JsonValue::Array(*items))->Array_0 =~= json_items_view(items@));
                Some(items)
            },
            _ => None,
        }
    }
}

/// The texts of the string items, in order; items that are not strings are skipped.
pub fn str_items(items: &Vec<JsonValue>) -> (r: Vec<String>)
    ensures
        r.deep_view() == spec_str_items(json_items_view(items@)),
{
    let ghost sv = json_items_view(items@);
    let mut r: Vec<String> = Vec::new();
    let mut i: usize = 0;
    while i < items.len()
        invariant
            i <= items@.len(),
            sv == json_items_view(items@),
            r.deep_view() == spec_str_items(sv.take(i as int)),
        decreases items@.len() - i,
    {
        let s = items[i].as_str();
        proof {
            assert(sv.take(i + 1).drop_last() =~= sv.take(i as int));
            assert(sv.take(i + 1).last() == json_view(&items@[i as int]));
        }
        match s {
            Some(t) => {
                r.push(t);
                assert(r.deep_view() =~= spec_str_items(sv.take(i + 1)));
            },
            None => {
                assert(r.deep_view() =~= spec_str_items(sv.take(i + 1)));
            },
        }
        i = i + 1;
    }
    assert(sv.take(items@.len() as int) =~= sv);
    r
}

// ── Construction ────────────────────────────────────────────────────────────

/// The mathematical values of object members.
pub open spec fn members_view(members: Seq<(String, JsonValue)>) -> Seq<(Seq<char>, SpecJson)> {
    Seq::new(members.len(), |i: int| (members[i].0@, json_view(&members[i].1)))
}

/// A string value holding `s`.
pub fn json_string(s: &str) -> (r: JsonValue)
    ensures
        json_view(&r) == SpecJson::Str(s@),
{
    JsonValue::Str(String::from_str(s))
}

/// Append the member `key: value` to an object's member list.
pub fn push_member(members: &mut Vec<(String, JsonValue)>, key: &str, value: JsonValue)
    ensures
        members_view(final(members)@) == members_view(old(members)@).push(
            (key@, json_view(&value)),
        ),
{
    let ghost v = json_view(&value);
    members.push((String::from_str(key), value));
    assert(members_view(members@) =~= members_view(old(members)@).push((key@, v)));
}

/// Append an item to an array's item list.
pub fn push_item(items: &mut Vec<JsonValue>, value: JsonValue)
    ensures
        json_items_view(final(items)@) == json_items_view(old(items)@).push(json_view(&value)),
{
    let ghost v = json_view(&value);
    items.push(value);
    assert(json_items_view(items@) =~= json_items_view(old(items)@).push(v));
}

/// The object with these members, in order.
pub fn json_object(members: Vec<(String, JsonValue)>) -> (r: JsonValue)
    ensures
        json_view(&r) == SpecJson::Object(members_view(members@)),
{
    let r = JsonValue::Object(members);
    assert(json_view(&r)->Object_0 =~= members_view(members@));
    r
}

/// The array with these items, in order.
pub fn json_array(items: Vec<JsonValue>) -> (r: JsonValue)
    ensures
        json_view(&r) == SpecJson::Array(json_items_view(items@)),
{
    let r = JsonValue::Array(items);
    assert(json_view(&r)->Array_0 =~= json_items_view(items@));
    r
}


// ── Parsing ─────────────────────────────────────────────────────────────────

#[verifier::external_type_specification]
#[verifier::external_body]
pub struct ExSerdeJsonValue(serde_json::Value);

/// The value `serde_json::from_str::<serde_json::Value>` reads from `text`,
/// with every number kept as the text `serde_json` writes for it
/// (`OtherNumber`); `None` when the text is not JSON.
pub uninterp spec fn json_parse(text: Seq<char>) -> Option<SpecJson>;

/// Moves each variant of a parsed `serde_json::Value` into the same variant
/// of `JsonValue`; a number moves as the text `serde_json` writes for it,
/// and object members move in the map's order.
#[verifier::external_body]
fn json_from_value(v: serde_json::Value) -> JsonValue {
    match v {
        serde_json::Value::Null => JsonValue::Null,
        serde_json::Value::Bool(b) => JsonValue::Bool(b),
        serde_json::Value::Number(n) => JsonValue::OtherNumber(n.to_string()),
        serde_json::Value::String(s) => JsonValue::Str(s),
        serde_json::Value::Array(a) => JsonValue::Array(a.into_iter().map(json_from_value).collect()),
        serde_json::Value::Object(m) => {
            JsonValue::Object(m.into_iter().map(|(k, v)| (k, json_from_value(v))).collect())
        },
    }
}

/// `serde_json::from_str::<serde_json::Value>` on `text`: the value it
/// reads, or `None` when `text` is not JSON. What it reads is named
/// [`json_parse`].
#[verifier::external_body]
fn parse_json_value(text: &str) -> (r: Option<JsonValue>)
    ensures
        match r {
            Some(j) => json_parse(text@) == Some(json_view(&j)),
            None => json_parse(text@) is None,
        },
{
    match serde_json::from_str::<serde_json::Value>(text) {
        Ok(v) => Some(json_from_value(v)),
        Err(_) => None,
    }
}

/// The value with each number whose text is an integer in the `i64` range
/// held as `Int`.
pub open spec fn spec_with_int_numbers(j: SpecJson) -> SpecJson
    decreases j,
{
    match j {
        SpecJson::OtherNumber(t) => match spec_i64_of_decimal(t) {
            Some(i) => SpecJson::Int(i),
            None => SpecJson::OtherNumber(t),
        },
        SpecJson::Array(items) => SpecJson::Array(
            Seq::new(
                items.len(),
                |k: int|
                    if 0 <= k < items.len() {
                        spec_with_int_numbers(items[k])
                    } else {
                        SpecJson::Null
                    },
            ),
        ),
        SpecJson::Object(members) => SpecJson::Object(
            Seq::new(
                members.len(),
                |k: int|
                    if 0 <= k < members.len() {
                        (members[k].0, spec_with_int_numbers(members[k].1))
                    } else {
                        (Seq::empty(), SpecJson::Null)
                    },
            ),
        ),
        other => other,
    }
}

/// The JSON value a text denotes, numbers that are `i64` integers held as
/// `Int`; `None` when the text is not JSON.
pub open spec fn spec_parse_json_text(text: Seq<char>) -> Option<SpecJson> {
    match json_parse(text) {
        Some(j) => Some(spec_with_int_numbers(j)),
        None => None,
    }
}

/// A copy of `j` with each number whose text is an `i64` integer held as `Int`.
pub fn with_int_numbers(j: &JsonValue) -> (r: JsonValue)
    ensures
        json_view(&r) == spec_with_int_numbers(json_view(j)),
    decreases j,
{
    match j {
        JsonValue::Null => JsonValue::Null,
        JsonValue::Bool(b) => JsonValue::Bool(*b),
        JsonValue::Int(i) => JsonValue::Int(*i),
        JsonValue::OtherNumber(t) => match i64_of_decimal(t.as_str()) {
            Some(i) => JsonValue::Int(i),
            None => JsonValue::OtherNumber(t.clone()),
        },
        JsonValue::Str(s) => JsonValue::Str(s.clone()),
        JsonValue::Array(items) => {
            let ghost sitems = json_view(j)->Array_0;
            let ghost target = spec_with_int_numbers(json_view(j))->Array_0;
            let mut out: Vec<JsonValue> = Vec::new();
            let mut i: usize = 0;
            while i < items.len()
                invariant
                    i <= items@.len(),
                    sitems.len() == items@.len(),
                    target.len() == items@.len(),
                    forall|k: int| 0 <= k < items@.len() ==> sitems[k] == #[trigger] json_view(&items@[k]),
                    forall|k: int| 0 <= k < items@.len() ==> target[k] == spec_with_int_numbers(#[trigger] sitems[k]),
                    forall|k: int| 0 <= k < items@.len() ==> decreases_to!(j => #[trigger] items@[k]),
                    out@.len() == i,
                    forall|k: int| 0 <= k < i ==> json_view(#[trigger] &out@[k]) == target[k],
                decreases items@.len() - i,
            {
                let x = with_int_numbers(&items[i]);
                assert(json_view(&items@[i as int]) == sitems[i as int]);
                out.push(x);
                i = i + 1;
            }
            let r = JsonValue::Array(out);
            assert(json_view(&r)->Array_0 =~= target);
            r
        },
        JsonValue::Object(members) => {
            let ghost smembers = json_view(j)->Object_0;
            let ghost target = spec_with_int_numbers(json_view(j))->Object_0;
            let mut out: Vec<(String, JsonValue)> = Vec::new();
            let mut i: usize = 0;
            while i < members.len()
                invariant
                    i <= members@.len(),
                    smembers.len() == members@.len(),
                    target.len() == members@.len(),
                    forall|k: int|
                        0 <= k < members@.len() ==> smembers[k].0 == (#[trigger] members@[k]).0@
                            && smembers[k].1 == json_view(&members@[k].1),
                    forall|k: int|
                        0 <= k < members@.len() ==> target[k] == (
                        #[trigger] smembers[k].0, spec_with_int_numbers(smembers[k].1)),
                    forall|k: int|
                        0 <= k < members@.len() ==> decreases_to!(j => (#[trigger] members@[k]).1),
                    out@.len() == i,
                    forall|k: int|
                        0 <= k < i ==> (#[trigger] out@[k]).0@ == target[k].0 && json_view(
                            &out@[k].1,
                        ) == target[k].1,
                decreases members@.len() - i,
            {
                let x = with_int_numbers(&members[i].1);
                assert(smembers[i as int].0 == members@[i as int].0@);
                out.push((members[i].0.clone(), x));
                i = i + 1;
            }
            let r = JsonValue::Object(out);
            assert(json_view(&r)->Object_0 =~= target);
            r
        },
    }
}

/// Read a JSON text, holding as `Int` each number that is an `i64` integer;
/// `None` when the text is not JSON.
pub fn parse_json_text(text: &str) -> (r: Option<JsonValue>)
    ensures
        match r {
            Some(j) => spec_parse_json_text(text@) == Some(json_view(&j)),
            None => spec_parse_json_text(text@) is None,
        },
{
    match parse_json_value(text) {
        Some(v) => Some(with_int_numbers(&v)),
        None => None,
    }
}

} // verus!
