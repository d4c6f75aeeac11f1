//! A JSON value held as plain data, with a mathematical model used by the
//! contracts of the functions that read or build JSON.

use vstd::prelude::*;

verus! {

/// A JSON number: an integer that fits `i64` or `u64`, or the decimal text of
/// any other number.
#[derive(Debug, PartialEq, Eq)]
pub enum JsonNumber {
    Int(i64),
    UInt(u64),
    Decimal(String),
}

/// A JSON value. An object keeps its entries in order; a key is looked up by
/// its first entry.
#[derive(Debug, PartialEq, Eq)]
pub enum JsonValue {
    Null,
    Bool(bool),
    Number(JsonNumber),
    String(String),
    Array(Vec<JsonValue>),
    Object(Vec<(String, JsonValue)>),
}

/// Model of a JSON number.
#[verifier::ext_equal]
pub enum NumberModel {
    Int(int),
    Decimal(Seq<char>),
}

/// Model of a JSON value: strings are character sequences, arrays and objects
/// are sequences.
#[verifier::ext_equal]
pub enum Json {
    Null,
    Bool(bool),
    Number(NumberModel),
    Str(Seq<char>),
    Array(Seq<Json>),
    Object(Seq<(Seq<char>, Json)>),
}

impl JsonNumber {
    pub open spec fn model(&self) -> NumberModel {
        match self {
            JsonNumber::Int(i) => NumberModel::Int(*i as int),
            JsonNumber::UInt(u) => NumberModel::Int(*u as int),
            JsonNumber::Decimal(d) => NumberModel::Decimal(d@),
        }
    }
}

impl JsonValue {
    pub open spec fn model(&self) -> Json
        decreases self,
    {
        match self {
            JsonValue::Null => Json::Null,
            JsonValue::Bool(b) => Json::Bool(*b),
            JsonValue::Number(n) => Json::Number(n.model()),
            JsonValue::String(s) => Json::Str(s@),
            JsonValue::Array(items) => Json::Array(items_model(items@)),
            JsonValue::Object(entries) => Json::Object(entries_model(entries@)),
        }
    }
}

pub open spec fn items_model(items: Seq<JsonValue>) -> Seq<Json>
    decreases items,
{
    if items.len() == 0 {
        Seq::empty()
    } else {
        items_model(items.drop_last()).push(items.last().model())
    }
}

pub open spec fn entries_model(entries: Seq<(String, JsonValue)>) -> Seq<(Seq<char>, Json)>
    decreases entries,
{
    if entries.len() == 0 {
        Seq::empty()
    } else {
        entries_model(entries.drop_last()).push(
            (entries.last().0@, entries.last().1.model()),
        )
    }
}

impl View for JsonValue {
    type V = Json;

    open spec fn view(&self) -> Json {
        self.model()
    }
}

pub proof fn lemma_items_model(items: Seq<JsonValue>)
    ensures
        items_model(items).len() == items.len(),
        forall|i: int| 0 <= i < items.len() ==> #[trigger] items_model(items)[i] == items[i]@,
    decreases items.len(),
{
    if items.len() > 0 {
        lemma_items_model(items.drop_last());
    }
}

pub proof fn lemma_entries_model(entries: Seq<(String, JsonValue)>)
    ensures
        entries_model(entries).len() == entries.len(),
        forall|i: int|
            0 <= i < entries.len() ==> #[trigger] entries_model(entries)[i] == (
                entries[i].0@,
                entries[i].1@,
            ),
    decreases entries.len(),
{
    if entries.len() > 0 {
        lemma_entries_model(entries.drop_last());
    }
}

/// The value of the first entry of `entries` whose key is `key`.
pub open spec fn lookup(entries: Seq<(Seq<char>, Json)>, key: Seq<char>) -> Option<Json>
    decreases entries.len(),
{
    if entries.len() == 0 {
        None
    } else if entries[0].0 == key {
        Some(entries[0].1)
    } else {
        lookup(entries.subrange(1, entries.len() as int), key)
    }
}

/// The value under `key` when `j` is an object, or `None`.
pub open spec fn field_of(j: Json, key: Seq<char>) -> Option<Json> {
    match j {
        Json::Object(entries) => lookup(entries, key),
        _ => None,
    }
}

/// Model of an optional reference to a value.
pub open spec fn opt_model(v: Option<&JsonValue>) -> Option<Json> {
    match v {
        Some(x) => Some(x@),
        None => None,
    }
}

/// `Map::get` on an object's entries: the first entry with key `key`.
pub fn object_get<'a>(entries: &'a Vec<(String, JsonValue)>, key: &str) -> (r: Option<&'a JsonValue>)
    ensures
        opt_model(r) == lookup(entries_model(entries@), key@),
{
    let ghost m = entries_model(entries@);
    proof {
        lemma_entries_model(entries@);
        assert(m.subrange(0, m.len() as int) =~= m);
    }
    let n = entries.len();
    let mut i: usize = 0;
    while i < n
        invariant
            n == entries@.len(),
            m == entries_model(entries@),
            m.len() == n,
            i <= n,
            forall|k: int| 0 <= k < n ==> #[trigger] m[k] == (entries@[k].0@, entries@[k].1@),
            lookup(m, key@) == lookup(m.subrange(i as int, n as int), key@),
        decreases n - i,
    {
        let ghost rest = m.subrange(i as int, n as int);
        if crate::text::same_text(entries[i].0.as_str(), key) {
            assert(rest[0] == m[i as int]);
            return Some(&entries[i].1);
        }
        assert(rest.subrange(1, rest.len() as int) =~= m.subrange(i + 1, n as int));
        i = i + 1;
    }
    None
}

/// `Value::get` on any value: the entry under `key` when `v` is an object.
pub fn value_get<'a>(v: &'a JsonValue, key: &str) -> (r: Option<&'a JsonValue>)
    ensures
        opt_model(r) == field_of(v@, key@),
{
    match v {
        JsonValue::Object(entries) => object_get(entries, key),
        _ => None,
    }
}

/// Appends the entry `(key, value)` to an object's entries.
pub fn push_field(entries: &mut Vec<(String, JsonValue)>, key: &str, value: JsonValue)
    ensures
        entries_model(final(entries)@) == entries_model(old(entries)@).push((key@, value@)),
{
    let k = crate::text::to_owned(key);
    entries.push((k, value));
    proof {
        assert(final(entries)@.drop_last() =~= old(entries)@);
    }
}

/// A JSON string holding the characters of `s`.
pub fn str_value(s: &str) -> (r: JsonValue)
    ensures
        r@ == Json::Str(s@),
{
    JsonValue::String(crate::text::to_owned(s))
}

/// Model of an optional string as JSON: the string, or `null`.
pub open spec fn opt_str_model(s: Option<Seq<char>>) -> Json {
    match s {
        Some(t) => Json::Str(t),
        None => Json::Null,
    }
}

/// Model of an optional owned string as characters.
pub open spec fn opt_view(s: Option<String>) -> Option<Seq<char>> {
    match s {
        Some(t) => Some(t@),
        None => None,
    }
}

/// An optional string as JSON (how `serde_json` writes an `Option<String>`).
pub fn opt_str_value(s: &Option<String>) -> (r: JsonValue)
    ensures
        r@ == opt_str_model(opt_view(*s)),
{
    match s {
        Some(t) => str_value(t.as_str()),
        None => JsonValue::Null,
    }
}

/// A JSON integer.
pub fn int_value(i: i64) -> (r: JsonValue)
    ensures
        r@ == Json::Number(NumberModel::Int(i as int)),
{
    JsonValue::Number(JsonNumber::Int(i))
}

/// An object holding `entries`.
pub fn object(entries: Vec<(String, JsonValue)>) -> (r: JsonValue)
    ensures
        r@ == Json::Object(entries_model(entries@)),
{
    JsonValue::Object(entries)
}

/// Appends `value` to a list of values.
pub fn push_item(items: &mut Vec<JsonValue>, value: JsonValue)
    ensures
        items_model(final(items)@) == items_model(old(items)@).push(value@),
{
    items.push(value);
    proof {
        assert(final(items)@.drop_last() =~= old(items)@);
    }
}

/// Index of the first entry of `entries` whose key is `key`, or -1.
pub open spec fn key_index(entries: Seq<(Seq<char>, Json)>, key: Seq<char>) -> int
    decreases entries.len(),
{
    if entries.len() == 0 {
        -1
    } else if entries[0].0 == key {
        0
    } else {
        let r = key_index(entries.subrange(1, entries.len() as int), key);
        if r < 0 {
            -1
        } else {
            r + 1
        }
    }
}

/// `key_index` is the first index holding `key`, and `lookup` reads that entry.
pub proof fn lemma_key_index(entries: Seq<(Seq<char>, Json)>, key: Seq<char>)
    ensures
        -1 <= key_index(entries, key) < entries.len(),
        key_index(entries, key) >= 0 ==> entries[key_index(entries, key)].0 == key,
        forall|j: int|
            0 <= j < entries.len() && (key_index(entries, key) < 0 || j < key_index(
                entries,
                key,
            )) ==> #[trigger] entries[j].0 != key,
        lookup(entries, key) == (if key_index(entries, key) < 0 {
            None
        } else {
            Some(entries[key_index(entries, key)].1)
        }),
    decreases entries.len(),
{
    if entries.len() > 0 && entries[0].0 != key {
        let rest = entries.subrange(1, entries.len() as int);
        lemma_key_index(rest, key);
        assert forall|j: int|
            0 <= j < entries.len() && (key_index(entries, key) < 0 || j < key_index(
                entries,
                key,
            )) implies #[trigger] entries[j].0 != key by {
            if j > 0 {
                assert(entries[j] == rest[j - 1]);
            }
        }
    }
}

/// Two entry lists in which every key's first entry agrees give the same
/// lookups.
pub proof fn lemma_key_index_unique(entries: Seq<(Seq<char>, Json)>, key: Seq<char>, i: int)
    requires
        (0 <= i < entries.len() && entries[i].0 == key && forall|j: int|
            0 <= j < i ==> #[trigger] entries[j].0 != key) || (i == -1 && forall|j: int|
            0 <= j < entries.len() ==> #[trigger] entries[j].0 != key),
    ensures
        key_index(entries, key) == i,
{
    lemma_key_index(entries, key);
    let k = key_index(entries, key);
    if k >= 0 && k != i {
        if i >= 0 && i < k {
            assert(entries[i].0 != key);
        } else {
            assert(entries[k].0 != key);
        }
    }
    if k < 0 && i >= 0 {
        assert(entries[i].0 != key);
    }
}

/// The entries after writing `val` under `key`: the first entry with that key
/// is replaced, or a new entry is appended.
pub open spec fn set_entries(entries: Seq<(Seq<char>, Json)>, key: Seq<char>, val: Json) -> Seq<
    (Seq<char>, Json),
> {
    let i = key_index(entries, key);
    if i < 0 {
        entries.push((key, val))
    } else {
        entries.update(i, (key, val))
    }
}

/// `value[key] = val` on a JSON value: `null` becomes an object first.
pub open spec fn set_field(j: Json, key: Seq<char>, val: Json) -> Json {
    match j {
        Json::Object(entries) => Json::Object(set_entries(entries, key, val)),
        _ => Json::Object(seq![(key, val)]),
    }
}

/// Whether `value[key] = ..` is defined on `j` (an object or `null`).
pub open spec fn is_object_or_null(j: Json) -> bool {
    j is Object || j is Null
}

/// Reading back a written key gives the written value; other keys are untouched.
pub proof fn lemma_set_entries(entries: Seq<(Seq<char>, Json)>, key: Seq<char>, val: Json, other: Seq<char>)
    ensures
        lookup(set_entries(entries, key, val), key) == Some(val),
        other != key ==> lookup(set_entries(entries, key, val), other) == lookup(entries, other),
{
    let s = set_entries(entries, key, val);
    lemma_key_index(entries, key);
    lemma_key_index(entries, other);
    lemma_key_index(s, key);
    lemma_key_index(s, other);
    let i = key_index(entries, key);
    if i < 0 {
        lemma_key_index_unique(s, key, entries.len() as int);
        if other != key {
            let o = key_index(entries, other);
            if o < 0 {
                assert forall|j: int| 0 <= j < s.len() implies #[trigger] s[j].0 != other by {
                    if j < entries.len() {
                        assert(s[j] == entries[j]);
                    }
                }
                lemma_key_index_unique(s, other, -1);
            } else {
                assert forall|j: int| 0 <= j < o implies #[trigger] s[j].0 != other by {
                    assert(s[j] == entries[j]);
                }
                lemma_key_index_unique(s, other, o);
            }
        }
    } else {
        assert forall|j: int| 0 <= j < i implies #[trigger] s[j].0 != key by {
            assert(s[j] == entries[j]);
        }
        lemma_key_index_unique(s, key, i);
        if other != key {
            let o = key_index(entries, other);
            if o < 0 {
                assert forall|j: int| 0 <= j < s.len() implies #[trigger] s[j].0 != other by {
                    if j != i {
                        assert(s[j] == entries[j]);
                    }
                }
                lemma_key_index_unique(s, other, -1);
            } else {
                assert(o != i);
                assert forall|j: int| 0 <= j < o implies #[trigger] s[j].0 != other by {
                    if j != i {
                        assert(s[j] == entries[j]);
                    }
                }
                assert(s[o] == entries[o]);
                lemma_key_index_unique(s, other, o);
            }
        }
    }
}

/// Reading a key after appending an entry: an earlier entry under the key
/// wins; otherwise the new entry is read when it has the key.
pub broadcast proof fn lemma_lookup_push(
    entries: Seq<(Seq<char>, Json)>,
    p: (Seq<char>, Json),
    key: Seq<char>,
)
    ensures
        #[trigger] lookup(entries.push(p), key) == match lookup(entries, key) {
            Some(v) => Some(v),
            None => if p.0 == key {
                Some(p.1)
            } else {
                None
            },
        },
{
    let s = entries.push(p);
    lemma_key_index(entries, key);
    lemma_key_index(s, key);
    let i = key_index(entries, key);
    if i >= 0 {
        assert forall|j: int| 0 <= j < i implies #[trigger] s[j].0 != key by {
            assert(s[j] == entries[j]);
        }
        assert(s[i] == entries[i]);
        lemma_key_index_unique(s, key, i);
    } else if p.0 == key {
        assert forall|j: int| 0 <= j < entries.len() implies #[trigger] s[j].0 != key by {
            assert(s[j] == entries[j]);
        }
        lemma_key_index_unique(s, key, entries.len() as int);
    } else {
        assert forall|j: int| 0 <= j < s.len() implies #[trigger] s[j].0 != key by {
            if j < entries.len() {
                assert(s[j] == entries[j]);
            }
        }
        lemma_key_index_unique(s, key, -1);
    }
}

/// No key is found among no entries.
pub broadcast proof fn lemma_lookup_empty(key: Seq<char>)
    ensures
        #[trigger] lookup(Seq::<(Seq<char>, Json)>::empty(), key) is None,
{
}

/// Index of the first entry whose key is `key`.
pub fn find_key(entries: &Vec<(String, JsonValue)>, key: &str) -> (r: Option<usize>)
    ensures
        match r {
            Some(i) => key_index(entries_model(entries@), key@) == i as int,
            None => key_index(entries_model(entries@), key@) == -1,
        },
{
    let ghost m = entries_model(entries@);
    proof {
        lemma_entries_model(entries@);
    }
    let n = entries.len();
    let mut i: usize = 0;
    while i < n
        invariant
            n == entries@.len(),
            m == entries_model(entries@),
            m.len() == n,
            i <= n,
            forall|k: int| 0 <= k < n ==> #[trigger] m[k] == (entries@[k].0@, entries@[k].1@),
            forall|k: int| 0 <= k < i ==> #[trigger] m[k].0 != key@,
        decreases n - i,
    {
        if crate::text::same_text(entries[i].0.as_str(), key) {
            proof {
                lemma_key_index_unique(m, key@, i as int);
            }
            return Some(i);
        }
        i = i + 1;
    }
    proof {
        lemma_key_index_unique(m, key@, -1);
    }
    None
}

/// `value[key] = val`: replaces the first entry under `key` or appends one;
/// a `null` value becomes an object first.
pub fn set_value_field(v: &mut JsonValue, key: &str, val: JsonValue)
    requires
        is_object_or_null(old(v)@),
    ensures
        final(v)@ == set_field(old(v)@, key@, val@),
{
    let ghost val_model = val@;
    match v {
        JsonValue::Object(entries) => {
            let ghost m = entries_model(entries@);
            proof {
                lemma_entries_model(entries@);
            }
            match find_key(entries, key) {
                Some(i) => {
                    proof {
                        lemma_key_index(m, key@);
                    }
                    let k = crate::text::to_owned(key);
                    entries.set(i, (k, val));
                    proof {
                        lemma_entries_model(entries@);
                        assert(entries_model(entries@) =~= m.update(i as int, (key@, val_model)));
                    }
                },
                None => {
                    push_field(entries, key, val);
                },
            }
        },
        _ => {
            let mut entries: Vec<(String, JsonValue)> = Vec::new();
            push_field(&mut entries, key, val);
            *v = JsonValue::Object(entries);
        },
    }
}

} // verus!
