use vstd::prelude::*;

verus! {

/// A JSON document as the task service sends it, with plain values.
#[derive(Debug, PartialEq, Eq)]
pub enum Json {
    Null,
    Bool(bool),
    /// A number that is a non-negative integer within `u64`.
    UInt(u64),
    /// Any other number.
    OtherNumber,
    Str(String),
    Array(Vec<Json>),
    /// Members in document order, each key once.
    Object(Vec<(String, Json)>),
}

/// The value of the first member named `key` among `members`.
pub open spec fn lookup(members: Seq<(String, Json)>, key: Seq<char>) -> Option<Json>
    decreases members.len(),
{
    if members.len() == 0 {
        None
    } else if members[0].0@ == key {
        Some(members[0].1)
    } else {
        lookup(members.drop_first(), key)
    }
}

/// The member `key` of an object; nothing for a missing member or a value
/// that is not an object.
pub open spec fn member(j: Json, key: Seq<char>) -> Option<Json> {
    match j {
        Json::Object(members) => lookup(members@, key),
        _ => None,
    }
}

/// The member `key` of an optional value.
pub open spec fn at_key(o: Option<Json>, key: Seq<char>) -> Option<Json> {
    match o {
        Some(j) => member(j, key),
        None => None,
    }
}

/// Element `i` of an optional array.
pub open spec fn at_index(o: Option<Json>, i: int) -> Option<Json> {
    match o {
        Some(Json::Array(items)) => if 0 <= i < items@.len() {
            Some(items@[i])
        } else {
            None
        },
        _ => None,
    }
}

/// The text of an optional string value.
pub open spec fn text_of(o: Option<Json>) -> Option<Seq<char>> {
    match o {
        Some(Json::Str(s)) => Some(s@),
        _ => None,
    }
}

/// The text of an optional string value, empty for anything else.
pub open spec fn text_or_empty(o: Option<Json>) -> Seq<char> {
    match text_of(o) {
        Some(t) => t,
        None => Seq::empty(),
    }
}

/// The items of an optional array value.
pub open spec fn items_of(o: Option<Json>) -> Option<Seq<Json>> {
    match o {
        Some(Json::Array(items)) => Some(items@),
        _ => None,
    }
}

/// The integer of an optional number value.
pub open spec fn uint_of(o: Option<Json>) -> Option<u64> {
    match o {
        Some(Json::UInt(n)) => Some(n),
        _ => None,
    }
}

/// Whether an optional value is an object.
pub open spec fn is_object(o: Option<Json>) -> bool {
    o matches Some(Json::Object(_))
}

/// The value a reference points to.
pub open spec fn deref(o: Option<&Json>) -> Option<Json> {
    match o {
        Some(j) => Some(*j),
        None => None,
    }
}

/// The member `key` of an optional value.
pub fn get<'a>(o: Option<&'a Json>, key: &str) -> (r: Option<&'a Json>)
    ensures
        deref(r) == at_key(deref(o), key@),
{
    let members = match o {
        Some(Json::Object(members)) => members,
        _ => {
            return None;
        },
    };
    let target = key.to_owned();
    let mut i: usize = 0;
    assert(members@.skip(0) =~= members@);
    while i < members.len()
        invariant
            0 <= i <= members@.len(),
            deref(o) == Some(Json::Object(*members)),
            target@ == key@,
            lookup(members@, key@) == lookup(members@.skip(i as int), key@),
        decreases members@.len() - i,
    {
        let entry = &members[i];
        assert(members@.skip(i as int)[0] == entry);
        assert(members@.skip(i as int).drop_first() =~= members@.skip(i + 1));
        if entry.0 == target {
            return Some(&entry.1);
        }
        i = i + 1;
    }
    assert(members@.skip(i as int) =~= Seq::<(String, Json)>::empty());
    None
}

/// Element `i` of an optional array.
pub fn element<'a>(o: Option<&'a Json>, i: usize) -> (r: Option<&'a Json>)
    ensures
        deref(r) == at_index(deref(o), i as int),
{
    match o {
        Some(Json::Array(items)) => {
            if i < items.len() {
                Some(&items[i])
            } else {
                None
            }
        },
        _ => None,
    }
}

/// The text of an optional string value.
pub fn text(o: Option<&Json>) -> (r: Option<String>)
    ensures
        match r {
            Some(s) => text_of(deref(o)) == Some(s@),
            None => text_of(deref(o)) is None,
        },
{
    match o {
        Some(Json::Str(s)) => Some(s.clone()),
        _ => None,
    }
}

/// The text of an optional string value, empty for anything else.
pub fn text_or_new(o: Option<&Json>) -> (r: String)
    ensures
        r@ == text_or_empty(deref(o)),
{
    match o {
        Some(Json::Str(s)) => s.clone(),
        _ => String::new(),
    }
}

/// The integer of an optional number value.
pub fn uint(o: Option<&Json>) -> (r: Option<u64>)
    ensures
        r == uint_of(deref(o)),
{
    match o {
        Some(Json::UInt(n)) => Some(*n),
        _ => None,
    }
}


/// Keys of an object's members, in order; none for other values.
pub open spec fn keys_of(j: Json) -> Seq<Seq<char>> {
    match j {
        Json::Object(members) => members@.map_values(|m: (String, Json)| m.0@),
        _ => Seq::empty(),
    }
}

/// A member whose key occurs nowhere before it is the one found.
pub proof fn lemma_lookup_at(members: Seq<(String, Json)>, i: int)
    requires
        0 <= i < members.len(),
        forall|j: int| 0 <= j < i ==> #[trigger] members[j].0@ != members[i].0@,
    ensures
        lookup(members, members[i].0@) == Some(members[i].1),
    decreases i,
{
    if i > 0 {
        let rest = members.drop_first();
        assert forall|j: int| 0 <= j < i - 1 implies #[trigger] rest[j].0@ != rest[i - 1].0@ by {
            assert(rest[j] == members[j + 1]);
        }
        lemma_lookup_at(rest, i - 1);
        assert(members[0].0@ != members[i].0@);
    }
}

/// A string value.
pub fn str_value(s: &str) -> (r: Json)
    ensures
        text_of(Some(r)) == Some(s@),
{
    Json::Str(s.to_owned())
}

/// An optional string value: the string, or null.
pub fn opt_str_value(s: &Option<String>) -> (r: Json)
    ensures
        match s {
            Some(v) => text_of(Some(r)) == Some(v@),
            None => r == Json::Null,
        },
{
    match s {
        Some(v) => Json::Str(v.clone()),
        None => Json::Null,
    }
}

/// An object of one member.
pub fn object1(k: &str, v: Json) -> (r: Json)
    ensures
        member(r, k@) == Some(v),
        keys_of(r) == seq![k@],
{
    let mut members: Vec<(String, Json)> = Vec::new();
    members.push((k.to_owned(), v));
    let r = Json::Object(members);
    proof {
        lemma_lookup_at(members@, 0);
        assert(keys_of(r) =~= seq![k@]);
    }
    r
}

/// An object of two members with distinct keys.
pub fn object2(k0: &str, v0: Json, k1: &str, v1: Json) -> (r: Json)
    requires
        k0@ != k1@,
    ensures
        member(r, k0@) == Some(v0),
        member(r, k1@) == Some(v1),
        keys_of(r) == seq![k0@, k1@],
{
    let mut members: Vec<(String, Json)> = Vec::new();
    members.push((k0.to_owned(), v0));
    members.push((k1.to_owned(), v1));
    let r = Json::Object(members);
    proof {
        lemma_lookup_at(members@, 0);
        lemma_lookup_at(members@, 1);
        assert(keys_of(r) =~= seq![k0@, k1@]);
    }
    r
}

/// An object of three members with distinct keys.
pub fn object3(k0: &str, v0: Json, k1: &str, v1: Json, k2: &str, v2: Json) -> (r: Json)
    requires
        k0@ != k1@,
        k0@ != k2@,
        k1@ != k2@,
    ensures
        member(r, k0@) == Some(v0),
        member(r, k1@) == Some(v1),
        member(r, k2@) == Some(v2),
        keys_of(r) == seq![k0@, k1@, k2@],
{
    let mut members: Vec<(String, Json)> = Vec::new();
    members.push((k0.to_owned(), v0));
    members.push((k1.to_owned(), v1));
    members.push((k2.to_owned(), v2));
    let r = Json::Object(members);
    proof {
        lemma_lookup_at(members@, 0);
        lemma_lookup_at(members@, 1);
        lemma_lookup_at(members@, 2);
        assert(keys_of(r) =~= seq![k0@, k1@, k2@]);
    }
    r
}

} // verus!
