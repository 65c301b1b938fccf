use vstd::prelude::*;

verus! {

/// Mathematical model of a JSON document.
pub enum Json {
    Null,
    Bool(bool),
    Number(nat),
    Text(Seq<char>),
    Array(Seq<Json>),
    Object(Seq<(Seq<char>, Json)>),
}

/// A JSON document as sent in a request body.
///
/// Object members keep the order in which they were inserted; the request
/// builders of this crate never repeat a key.
#[derive(Debug)]
pub enum JsonValue {
    Null,
    Bool(bool),
    Number(u64),
    Text(String),
    Array(Vec<JsonValue>),
    Object(Vec<(String, JsonValue)>),
}

pub open spec fn json_of(v: JsonValue) -> Json
    decreases v, 0nat,
{
    match v {
        JsonValue::Null => Json::Null,
        JsonValue::Bool(b) => Json::Bool(b),
        JsonValue::Number(n) => Json::Number(n as nat),
        JsonValue::Text(s) => Json::Text(s@),
        JsonValue::Array(items) => Json::Array(json_items(items, items.len() as nat)),
        JsonValue::Object(members) => Json::Object(json_members(members, members.len() as nat)),
    }
}

pub open spec fn json_items(items: Vec<JsonValue>, n: nat) -> Seq<Json>
    decreases items, n,
{
    if n == 0 || n > items.len() {
        Seq::empty()
    } else {
        json_items(items, (n - 1) as nat).push(json_of(items[n - 1]))
    }
}

pub open spec fn json_members(members: Vec<(String, JsonValue)>, n: nat) -> Seq<(Seq<char>, Json)>
    decreases members, n,
{
    if n == 0 || n > members.len() {
        Seq::empty()
    } else {
        json_members(members, (n - 1) as nat).push((members[n - 1].0@, json_of(members[n - 1].1)))
    }
}

impl View for JsonValue {
    type V = Json;

    open spec fn view(&self) -> Json {
        json_of(*self)
    }
}

/// The members of an object, as a sequence of (key, value) pairs.
pub open spec fn members_view(members: Vec<(String, JsonValue)>) -> Seq<(Seq<char>, Json)> {
    json_members(members, members.len() as nat)
}

/// The elements of an array.
pub open spec fn items_view(items: Vec<JsonValue>) -> Seq<Json> {
    json_items(items, items.len() as nat)
}

/// The keys of an object's members, in order.
pub open spec fn keys(members: Seq<(Seq<char>, Json)>) -> Seq<Seq<char>> {
    members.map_values(|m: (Seq<char>, Json)| m.0)
}

/// A single member when the value is present, none otherwise.
pub open spec fn optional_member(key: Seq<char>, value: Option<Json>) -> Seq<(Seq<char>, Json)> {
    match value {
        Some(v) => seq![(key, v)],
        None => Seq::empty(),
    }
}

/// The keys of concatenated members are the concatenated keys.
pub proof fn lemma_keys_concat(a: Seq<(Seq<char>, Json)>, b: Seq<(Seq<char>, Json)>)
    ensures
        keys(a + b) == keys(a) + keys(b),
{
    assert(keys(a + b) =~= keys(a) + keys(b));
}

/// An optional member contributes its key exactly when its value is present.
pub proof fn lemma_optional_member_keys(key: Seq<char>, value: Option<Json>, k: Seq<char>)
    ensures
        keys(optional_member(key, value)).contains(k) <==> (value is Some && k == key),
{
    if value is Some {
        assert(keys(optional_member(key, value)) =~= seq![key]);
        assert(keys(optional_member(key, value))[0] == key);
    } else {
        assert(keys(optional_member(key, value)) =~= Seq::<Seq<char>>::empty());
    }
}

/// An element of a concatenation is an element of one of its parts.
pub proof fn lemma_concat_contains<A>(a: Seq<A>, b: Seq<A>, x: A)
    ensures
        (a + b).contains(x) <==> (a.contains(x) || b.contains(x)),
{
    if (a + b).contains(x) {
        let k = choose|k: int| 0 <= k < (a + b).len() && (a + b)[k] == x;
        if k < a.len() {
            assert(a[k] == x);
        } else {
            assert(b[k - a.len()] == x);
        }
    }
    if a.contains(x) {
        let k = choose|k: int| 0 <= k < a.len() && a[k] == x;
        assert((a + b)[k] == x);
    }
    if b.contains(x) {
        let k = choose|k: int| 0 <= k < b.len() && b[k] == x;
        assert((a + b)[a.len() + k] == x);
    }
}

proof fn lemma_json_items(items: Vec<JsonValue>, n: nat)
    requires
        n <= items.len(),
    ensures
        json_items(items, n).len() == n,
        forall|i: int| 0 <= i < n ==> #[trigger] json_items(items, n)[i] == json_of(items@[i]),
    decreases n,
{
    if n > 0 {
        lemma_json_items(items, (n - 1) as nat);
    }
}

proof fn lemma_json_members(members: Vec<(String, JsonValue)>, n: nat)
    requires
        n <= members.len(),
    ensures
        json_members(members, n).len() == n,
        forall|i: int|
            0 <= i < n ==> #[trigger] json_members(members, n)[i] == (
            members@[i].0@,
            json_of(members@[i].1),
        ),
    decreases n,
{
    if n > 0 {
        lemma_json_members(members, (n - 1) as nat);
    }
}

/// Appends an element to an array under construction.
pub fn push_item(items: &mut Vec<JsonValue>, value: JsonValue)
    ensures
        items_view(*final(items)) == items_view(*old(items)).push(value@),
{
    let ghost before = *items;
    items.push(value);
    proof {
        lemma_json_items(before, before.len() as nat);
        lemma_json_items(*items, items.len() as nat);
        assert(items_view(*items) =~= items_view(before).push(value@));
    }
}

/// Appends a member to an object under construction.
pub fn push_member(members: &mut Vec<(String, JsonValue)>, key: &str, value: JsonValue)
    ensures
        members_view(*final(members)) == members_view(*old(members)).push((key@, value@)),
{
    let ghost before = *members;
    members.push((key.to_owned(), value));
    proof {
        lemma_json_members(before, before.len() as nat);
        lemma_json_members(*members, members.len() as nat);
        assert(members_view(*members) =~= members_view(before).push((key@, value@)));
    }
}

/// The model of an optional value.
pub open spec fn optional_view(value: Option<JsonValue>) -> Option<Json> {
    match value {
        Some(v) => Some(v@),
        None => None,
    }
}

/// Appends a member to an object under construction when `value` is present.
pub fn push_optional_member(
    members: &mut Vec<(String, JsonValue)>,
    key: &str,
    value: Option<JsonValue>,
)
    ensures
        members_view(*final(members)) == members_view(*old(members)) + optional_member(
            key@,
            optional_view(value),
        ),
{
    let ghost before = members_view(*members);
    match value {
        Some(v) => {
            push_member(members, key, v);
            assert(members_view(*members) =~= before + optional_member(key@, optional_view(Some(v))));
        },
        None => {
            assert(members_view(*members) =~= before + optional_member(key@, None));
        },
    }
}

impl JsonValue {
    /// A JSON string holding `s`.
    pub fn text(s: &str) -> (r: JsonValue)
        ensures
            r@ == Json::Text(s@),
    {
        JsonValue::Text(s.to_owned())
    }
}

} // verus!
