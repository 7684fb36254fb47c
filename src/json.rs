use vstd::prelude::*;

verus! {

/// A JSON document, as the decoders of this library read it.
pub enum Json {
    Null,
    Bool(bool),
    /// A number, with its value where it is a non-negative integer that fits in 64 bits.
    Number(Option<u64>),
    Str(Seq<char>),
    Array(Seq<Json>),
    /// The members of an object, in document order.
    Object(Seq<(Seq<char>, Json)>),
}

/// The value of the first member named `key`.
pub open spec fn lookup(members: Seq<(Seq<char>, Json)>, key: Seq<char>) -> Option<Json>
    decreases members.len(),
{
    if members.len() == 0 {
        None
    } else if members[0].0 == key {
        Some(members[0].1)
    } else {
        lookup(members.drop_first(), key)
    }
}

/// The first member named `key` is the one at `i` where no member before it has that name.
pub proof fn lemma_lookup_at(members: Seq<(Seq<char>, Json)>, i: int)
    requires
        0 <= i < members.len(),
        forall|k: int| 0 <= k < i ==> (#[trigger] members[k]).0 != members[i].0,
    ensures
        lookup(members, members[i].0) == Some(members[i].1),
    decreases i,
{
    if i > 0 {
        let rest = members.drop_first();
        assert(rest[i - 1] == members[i]);
        assert forall|k: int| 0 <= k < i - 1 implies (#[trigger] rest[k]).0 != rest[i - 1].0 by {
            assert(rest[k] == members[k + 1]);
        }
        lemma_lookup_at(rest, i - 1);
    }
}

/// No two members share a name.
pub open spec fn names_distinct(members: Seq<(Seq<char>, Json)>) -> bool {
    forall|a: int, b: int| 0 <= a < b < members.len() ==> members[a].0 != members[b].0
}

/// Where names are distinct, every member is found under its name.
pub proof fn lemma_lookup_distinct(members: Seq<(Seq<char>, Json)>)
    requires
        names_distinct(members),
    ensures
        forall|i: int|
            0 <= i < members.len() ==> lookup(members, (#[trigger] members[i]).0) == Some(members[i].1),
{
    assert forall|i: int| 0 <= i < members.len() implies lookup(members, (#[trigger] members[i]).0)
        == Some(members[i].1) by {
        lemma_lookup_at(members, i);
    }
}

/// The member `key` of `j`; absent where `j` is not an object or has no such member.
pub open spec fn member(j: Json, key: Seq<char>) -> Option<Json> {
    match j {
        Json::Object(members) => lookup(members, key),
        _ => None,
    }
}

/// An owned JSON document.
pub enum JsonValue {
    Null,
    Bool(bool),
    /// A number, with its value where it is a non-negative integer that fits in 64 bits.
    Number(Option<u64>),
    Str(String),
    Array(Vec<JsonValue>),
    Object(Vec<(String, JsonValue)>),
}

impl View for JsonValue {
    type V = Json;

    open spec fn view(&self) -> Json
        decreases self,
    {
        match self {
            JsonValue::Null => Json::Null,
            JsonValue::Bool(b) => Json::Bool(*b),
            JsonValue::Number(n) => Json::Number(*n),
            JsonValue::Str(s) => Json::Str(s@),
            JsonValue::Array(items) => Json::Array(
                Seq::new(
                    items@.len(),
                    |i: int|
                        if 0 <= i < items@.len() {
                            items@[i]@
                        } else {
                            Json::Null
                        },
                ),
            ),
            JsonValue::Object(members) => Json::Object(
                Seq::new(
                    members@.len(),
                    |i: int|
                        if 0 <= i < members@.len() {
                            (members@[i].0@, members@[i].1@)
                        } else {
                            (Seq::empty(), Json::Null)
                        },
                ),
            ),
        }
    }
}

impl JsonValue {
    /// The member `key` of this value; `None` where it is not an object or has no such member.
    pub fn member(&self, key: &str) -> (r: Option<&JsonValue>)
        ensures
            r is Some <==> member(self@, key@) is Some,
            r is Some ==> r->0@ == member(self@, key@)->0,
    {
        match self {
            JsonValue::Object(members) => {
                let wanted = String::from_str(key);
                proof {
                    reveal_with_fuel(<JsonValue as View>::view, 2);
                }
                assert(self@ is Object);
                let ghost all = self@->Object_0;
                assert(all.len() == members@.len());
                assert(forall|k: int| 0 <= k < members@.len() ==> #[trigger] all[k] == (members@[k].0@, members@[k].1@));
                let mut i: usize = 0;
                assert(all.subrange(0, all.len() as int) =~= all);
                while i < members.len()
                    invariant
                        self@ == Json::Object(all),
                        all.len() == members@.len(),
                        forall|k: int| 0 <= k < members@.len() ==> #[trigger] all[k] == (members@[k].0@, members@[k].1@),
                        i <= members@.len(),
                        wanted@ == key@,
                        lookup(all, key@) == lookup(all.subrange(i as int, all.len() as int), key@),
                    decreases members.len() - i,
                {
                    let ghost rest = all.subrange(i as int, all.len() as int);
                    assert(rest[0] == all[i as int]);
                    if members[i].0 == wanted {
                        assert(rest[0].0 == key@);
                        assert(lookup(rest, key@) == Some(rest[0].1));
                        return Some(&members[i].1);
                    }
                    assert(rest.drop_first() =~= all.subrange(i + 1, all.len() as int));
                    i = i + 1;
                }
                assert(all.subrange(i as int, all.len() as int).len() == 0);
                None
            },
            _ => None,
        }
    }
}

/// The JSON tree that a `serde_json::Value` holds.
pub uninterp spec fn tree_of(v: serde_json::Value) -> Json;

/// The members that a `serde_json::Map` holds, in its iteration order.
pub uninterp spec fn members_of(m: serde_json::Map<String, serde_json::Value>) -> Seq<(Seq<char>, Json)>;

/// The document that serde_json reads from JSON text; `None` where it rejects the text.
pub uninterp spec fn document_of(text: Seq<u8>) -> Option<Json>;

#[verifier::external_type_specification]
#[verifier::external_body]
pub struct ExValue(serde_json::Value);

#[verifier::external_type_specification]
#[verifier::external_body]
#[verifier::reject_recursive_types(K)]
#[verifier::reject_recursive_types(V)]
pub struct ExMap<K, V>(serde_json::Map<K, V>);

/// serde_json's `Value::is_null`: true exactly on `null`.
pub assume_specification[ serde_json::Value::is_null ](v: &serde_json::Value) -> (r: bool)
    ensures
        r == tree_of(*v) is Null,
;

/// serde_json's `Value::as_bool`: the boolean that the value is, if it is one.
pub assume_specification[ serde_json::Value::as_bool ](v: &serde_json::Value) -> (r: Option<bool>)
    ensures
        r == (match tree_of(*v) {
            Json::Bool(b) => Some(b),
            _ => None,
        }),
;

/// serde_json's `Value::is_number`: true exactly on numbers.
pub assume_specification[ serde_json::Value::is_number ](v: &serde_json::Value) -> (r: bool)
    ensures
        r == tree_of(*v) is Number,
;

/// serde_json's `Value::as_u64`: the value of a number that is a non-negative integer.
pub assume_specification[ serde_json::Value::as_u64 ](v: &serde_json::Value) -> (r: Option<u64>)
    ensures
        r == (match tree_of(*v) {
            Json::Number(n) => n,
            _ => None,
        }),
;

/// serde_json's `Value::as_str`: the text of a string value.
pub assume_specification<'a>[ serde_json::Value::as_str ](v: &'a serde_json::Value) -> (r: Option<&'a str>)
    ensures
        r is Some <==> tree_of(*v) is Str,
        r is Some ==> r->0@ == tree_of(*v)->Str_0,
;

/// serde_json's `Value::as_array`: the elements of an array value.
pub assume_specification<'a>[ serde_json::Value::as_array ](v: &'a serde_json::Value) -> (r: Option<&'a Vec<serde_json::Value>>)
    ensures
        r is Some <==> tree_of(*v) is Array,
        r is Some ==> r->0@.len() == tree_of(*v)->Array_0.len(),
        r is Some ==> forall|i: int|
            0 <= i < r->0@.len() ==> tree_of(#[trigger] r->0@[i]) == tree_of(*v)->Array_0[i],
;

/// serde_json's `Value::as_object`: the map of an object value.
pub assume_specification<'a>[ serde_json::Value::as_object ](v: &'a serde_json::Value) -> (r: Option<&'a serde_json::Map<String, serde_json::Value>>)
    ensures
        r is Some <==> tree_of(*v) is Object,
        r is Some ==> members_of(*r->0) == tree_of(*v)->Object_0,
;

/// Relies on serde_json's `Map::iter`: each member once, in the map's order.
#[verifier::external_body]
fn map_members(m: &serde_json::Map<String, serde_json::Value>) -> (r: Vec<(String, serde_json::Value)>)
    ensures
        r@.len() == members_of(*m).len(),
        forall|i: int|
            0 <= i < r@.len() ==> (#[trigger] r@[i]).0@ == members_of(*m)[i].0 && tree_of(r@[i].1)
                == members_of(*m)[i].1,
{
    m.iter().map(|(k, v)| (k.clone(), v.clone())).collect()
}

/// Relies on serde_json's `from_slice`: reads JSON text into a `Value`, or rejects it.
#[verifier::external_body]
fn read_value(text: &[u8]) -> (r: Option<serde_json::Value>)
    ensures
        r is Some <==> document_of(text@) is Some,
        r is Some ==> tree_of(r->0) == document_of(text@)->0,
{
    serde_json::from_slice::<serde_json::Value>(text).ok()
}

/// Copies a `serde_json::Value` into a `JsonValue` holding the same tree.
fn from_serde(v: &serde_json::Value) -> (r: JsonValue)
    ensures
        r@ == tree_of(*v),
    decreases tree_of(*v),
{
    if v.is_null() {
        return JsonValue::Null;
    }
    if let Some(b) = v.as_bool() {
        return JsonValue::Bool(b);
    }
    if v.is_number() {
        return JsonValue::Number(v.as_u64());
    }
    if let Some(s) = v.as_str() {
        return JsonValue::Str(String::from_str(s));
    }
    if let Some(items) = v.as_array() {
        let ghost model = tree_of(*v)->Array_0;
        let mut out: Vec<JsonValue> = Vec::new();
        let mut i: usize = 0;
        while i < items.len()
            invariant
                tree_of(*v) == Json::Array(model),
                model.len() == items@.len(),
                forall|k: int| 0 <= k < items@.len() ==> tree_of(#[trigger] items@[k]) == model[k],
                i <= items@.len(),
                out@.len() == i,
                forall|k: int| 0 <= k < i ==> (#[trigger] out@[k])@ == model[k],
            decreases items.len() - i,
        {
            assert(decreases_to!(tree_of(*v) => tree_of(*v)->Array_0));
            assert(decreases_to!(model => model[i as int]));
            let child = from_serde(&items[i]);
            out.push(child);
            i = i + 1;
        }
        let r = JsonValue::Array(out);
        assert(r@->Array_0 =~= model);
        return r;
    }
    let m = v.as_object().unwrap();
    let members = map_members(m);
    let ghost model = tree_of(*v)->Object_0;
    let mut out: Vec<(String, JsonValue)> = Vec::new();
    let mut i: usize = 0;
    while i < members.len()
        invariant
            tree_of(*v) == Json::Object(model),
            model.len() == members@.len(),
            forall|k: int|
                0 <= k < members@.len() ==> (#[trigger] members@[k]).0@ == model[k].0 && tree_of(
                    members@[k].1,
                ) == model[k].1,
            i <= members@.len(),
            out@.len() == i,
            forall|k: int| 0 <= k < i ==> (#[trigger] out@[k]).0@ == model[k].0 && out@[k].1@ == model[k].1,
        decreases members.len() - i,
    {
        assert(decreases_to!(tree_of(*v) => tree_of(*v)->Object_0));
        assert(decreases_to!(model => model[i as int]));
        assert(decreases_to!(model[i as int] => model[i as int].1));
        let child = from_serde(&members[i].1);
        out.push((members[i].0.clone(), child));
        i = i + 1;
    }
    let r = JsonValue::Object(out);
    assert(r@->Object_0 =~= model);
    r
}

/// Reads JSON text; `None` where the text is not JSON.
pub fn parse_json(text: &[u8]) -> (r: Option<JsonValue>)
    ensures
        r is Some <==> document_of(text@) is Some,
        r is Some ==> r->0@ == document_of(text@)->0,
{
    match read_value(text) {
        Some(v) => Some(from_serde(&v)),
        None => None,
    }
}

} // verus!
