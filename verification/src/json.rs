//! JSON reports as a tree of plain values; the tool prints them with a JSON
//! serializer.

use vstd::prelude::*;

verus! {

/// A JSON value. Object members keep the order they were added in.
#[derive(Debug)]
pub enum JsonValue {
    Null,
    Bool(bool),
    Int(i64),
    UInt(u64),
    Str(String),
    Array(Vec<JsonValue>),
    Object(Vec<(String, JsonValue)>),
}

/// The value a [`JsonValue`] stands for.
pub enum Json {
    Null,
    Bool(bool),
    Int(int),
    Str(Seq<char>),
    Array(Seq<Json>),
    Object(Seq<(Seq<char>, Json)>),
}

impl View for JsonValue {
    type V = Json;

    open spec fn view(&self) -> Json {
        json_of(*self)
    }
}

/// The value a [`JsonValue`] stands for.
pub open spec fn json_of(v: JsonValue) -> Json
    decreases v,
{
    match v {
        JsonValue::Null => Json::Null,
        JsonValue::Bool(b) => Json::Bool(b),
        JsonValue::Int(i) => Json::Int(i as int),
        JsonValue::UInt(u) => Json::Int(u as int),
        JsonValue::Str(s) => Json::Str(s@),
        JsonValue::Array(items) => Json::Array(items_of(items@)),
        JsonValue::Object(members) => Json::Object(members_of(members@)),
    }
}

pub open spec fn items_of(items: Seq<JsonValue>) -> Seq<Json>
    decreases items,
{
    if items.len() == 0 {
        Seq::empty()
    } else {
        items_of(items.drop_last()).push(json_of(items.last()))
    }
}

pub open spec fn members_of(members: Seq<(String, JsonValue)>) -> Seq<(Seq<char>, Json)>
    decreases members,
{
    if members.len() == 0 {
        Seq::empty()
    } else {
        members_of(members.drop_last()).push((members.last().0@, json_of(members.last().1)))
    }
}

/// A JSON object under construction.
pub struct JsonObject {
    pub members: Vec<(String, JsonValue)>,
}

impl View for JsonObject {
    type V = Seq<(Seq<char>, Json)>;

    open spec fn view(&self) -> Seq<(Seq<char>, Json)> {
        members_of(self.members@)
    }
}

impl JsonObject {
    pub fn new() -> (r: JsonObject)
        ensures
            r@ == Seq::<(Seq<char>, Json)>::empty(),
    {
        JsonObject { members: Vec::new() }
    }

    /// Adds a member.
    pub fn insert(&mut self, key: &str, value: JsonValue)
        ensures
            final(self)@ == old(self)@.push((key@, value@)),
    {
        let ghost old_members = self.members@;
        self.members.push((String::from_str(key), value));
        assert(self.members@.drop_last() =~= old_members);
    }

    pub fn into_value(self) -> (r: JsonValue)
        ensures
            r@ == Json::Object(self@),
    {
        JsonValue::Object(self.members)
    }
}

/// A JSON array under construction.
pub struct JsonArray {
    pub items: Vec<JsonValue>,
}

impl View for JsonArray {
    type V = Seq<Json>;

    open spec fn view(&self) -> Seq<Json> {
        items_of(self.items@)
    }
}

impl JsonArray {
    pub fn new() -> (r: JsonArray)
        ensures
            r@ == Seq::<Json>::empty(),
    {
        JsonArray { items: Vec::new() }
    }

    /// Adds an item at the end.
    pub fn push(&mut self, value: JsonValue)
        ensures
            final(self)@ == old(self)@.push(value@),
    {
        let ghost old_items = self.items@;
        self.items.push(value);
        assert(self.items@.drop_last() =~= old_items);
    }

    pub fn into_value(self) -> (r: JsonValue)
        ensures
            r@ == Json::Array(self@),
    {
        JsonValue::Array(self.items)
    }
}

/// The JSON value of an optional string: the string, or `null`.
pub open spec fn opt_str_json(s: Option<Seq<char>>) -> Json {
    match s {
        Some(v) => Json::Str(v),
        None => Json::Null,
    }
}

pub fn json_str(s: &str) -> (r: JsonValue)
    ensures
        r@ == Json::Str(s@),
{
    JsonValue::Str(String::from_str(s))
}

pub fn json_opt_str(s: &Option<String>) -> (r: JsonValue)
    ensures
        r@ == match s {
            Some(v) => Json::Str(v@),
            None => Json::Null,
        },
{
    match s {
        Some(v) => JsonValue::Str(v.clone()),
        None => JsonValue::Null,
    }
}

} // verus!

verus! {

// ---------------------------------------------------------------------------
// Reading a member back
// ---------------------------------------------------------------------------

/// The value a member list gives `key`: that of the last member named
/// `key`, as a JSON map keeps the value written last.
pub open spec fn member_value(ms: Seq<(Seq<char>, Json)>, key: Seq<char>) -> Option<Json>
    decreases ms.len(),
{
    if ms.len() == 0 {
        None
    } else if ms.last().0 == key {
        Some(ms.last().1)
    } else {
        member_value(ms.drop_last(), key)
    }
}

/// The value of the member `key` of a JSON object; `None` when `j` is no
/// object or has no such member.
pub open spec fn json_get(j: Json, key: Seq<char>) -> Option<Json> {
    match j {
        Json::Object(ms) => member_value(ms, key),
        _ => None,
    }
}

/// A member added last is read back, and hides the members before it of
/// the same name only.
pub proof fn lemma_member_value_push(ms: Seq<(Seq<char>, Json)>, m: (Seq<char>, Json), key: Seq<
    char,
>)
    ensures
        member_value(ms.push(m), key) == if m.0 == key {
            Some(m.1)
        } else {
            member_value(ms, key)
        },
{
    assert(ms.push(m).drop_last() =~= ms);
}

/// Reading a key of two member lists one after the other: the second wins
/// when it has the key.
pub proof fn lemma_member_value_concat(
    a: Seq<(Seq<char>, Json)>,
    b: Seq<(Seq<char>, Json)>,
    key: Seq<char>,
)
    ensures
        member_value(a + b, key) == if member_value(b, key) is Some {
            member_value(b, key)
        } else {
            member_value(a, key)
        },
    decreases b.len(),
{
    if b.len() == 0 {
        assert(a + b =~= a);
    } else {
        assert((a + b).drop_last() =~= a + b.drop_last());
        lemma_member_value_concat(a, b.drop_last(), key);
    }
}

/// A key that no member has reads nothing.
pub proof fn lemma_member_value_absent(ms: Seq<(Seq<char>, Json)>, key: Seq<char>)
    requires
        forall|i: int| 0 <= i < ms.len() ==> #[trigger] ms[i].0 != key,
    ensures
        member_value(ms, key) is None,
    decreases ms.len(),
{
    if ms.len() > 0 {
        lemma_member_value_absent(ms.drop_last(), key);
    }
}

/// A key reads the value of the member at `i` when no later member has it.
pub proof fn lemma_member_value_at(ms: Seq<(Seq<char>, Json)>, key: Seq<char>, i: int)
    requires
        0 <= i < ms.len(),
        ms[i].0 == key,
        forall|j: int| i < j < ms.len() ==> #[trigger] ms[j].0 != key,
    ensures
        member_value(ms, key) == Some(ms[i].1),
    decreases ms.len(),
{
    if i < ms.len() - 1 {
        lemma_member_value_at(ms.drop_last(), key, i);
    }
}

} // verus!
