//! A JSON value type owned by the library, with a mathematical view.
//!
//! Tool arguments and tool results travel through the server as JSON. The
//! routing, rewriting and extraction logic reads them through this type, so
//! that every step it takes on a value can be stated and proved.

use vstd::prelude::*;

verus! {

/// A JSON value as the tool layer reads and writes it.
///
/// Numbers keep the three shapes a JSON number can take on the wire: a signed
/// integer (every integer that fits in `i64`), an unsigned integer above
/// `i64::MAX`, and a floating-point number, which is carried as its IEEE-754
/// bit pattern so that it passes through the library unchanged.
/// An object is a list of entries; lookups see the first entry with a key.
#[derive(Debug)]
pub enum Json {
    Null,
    Bool(bool),
    Int(i64),
    UInt(u64),
    FloatBits(u64),
    Str(String),
    Array(Vec<Json>),
    Object(Vec<(String, Json)>),
}

/// The mathematical model of a [`Json`] value.
pub enum JsonV {
    Null,
    Bool(bool),
    Int(int),
    UInt(int),
    FloatBits(int),
    Str(Seq<char>),
    Array(Seq<JsonV>),
    Object(Seq<(Seq<char>, JsonV)>),
}

impl Json {
    /// The model of a value, defined structurally.
    pub open spec fn model(self) -> JsonV
        decreases self,
    {
        match self {
            Json::Null => JsonV::Null,
            Json::Bool(b) => JsonV::Bool(b),
            Json::Int(i) => JsonV::Int(i as int),
            Json::UInt(u) => JsonV::UInt(u as int),
            Json::FloatBits(u) => JsonV::FloatBits(u as int),
            Json::Str(s) => JsonV::Str(s@),
            Json::Array(v) => JsonV::Array(
                Seq::new(
                    v@.len(),
                    |i: int|
                        if 0 <= i < v@.len() {
                            v@[i].model()
                        } else {
                            JsonV::Null
                        },
                ),
            ),
            Json::Object(v) => JsonV::Object(
                Seq::new(
                    v@.len(),
                    |i: int|
                        if 0 <= i < v@.len() {
                            (v@[i].0@, v@[i].1.model())
                        } else {
                            (Seq::empty(), JsonV::Null)
                        },
                ),
            ),
        }
    }
}

impl View for Json {
    type V = JsonV;

    open spec fn view(&self) -> JsonV {
        self.model()
    }
}

/// Index of the first entry whose key is `key`, if any.
pub open spec fn entry_index(entries: Seq<(Seq<char>, JsonV)>, key: Seq<char>) -> Option<int>
    decreases entries.len(),
{
    if entries.len() == 0 {
        None
    } else if entries[0].0 == key {
        Some(0)
    } else {
        match entry_index(entries.drop_first(), key) {
            Some(i) => Some(i + 1),
            None => None,
        }
    }
}

/// The value of `key` in an object: the first entry with that key.
/// `None` for a missing key and for a value that is not an object.
pub open spec fn get_field(j: JsonV, key: Seq<char>) -> Option<JsonV> {
    match j {
        JsonV::Object(entries) => match entry_index(entries, key) {
            Some(i) => Some(entries[i].1),
            None => None,
        },
        _ => None,
    }
}

/// `serde_json::Value::as_bool`.
pub open spec fn bool_of(j: Option<JsonV>) -> Option<bool> {
    match j {
        Some(JsonV::Bool(b)) => Some(b),
        _ => None,
    }
}

/// `serde_json::Value::as_str`.
pub open spec fn str_of(j: Option<JsonV>) -> Option<Seq<char>> {
    match j {
        Some(JsonV::Str(s)) => Some(s),
        _ => None,
    }
}

/// `serde_json::Value::as_u64`.
pub open spec fn u64_of(j: Option<JsonV>) -> Option<int> {
    match j {
        Some(JsonV::Int(i)) => if i >= 0 {
            Some(i)
        } else {
            None
        },
        Some(JsonV::UInt(u)) => Some(u),
        _ => None,
    }
}

/// `serde_json::Value::as_i64`.
pub open spec fn i64_of(j: Option<JsonV>) -> Option<int> {
    match j {
        Some(JsonV::Int(i)) => Some(i),
        _ => None,
    }
}

/// `serde_json::Value::as_array`.
pub open spec fn array_of(j: Option<JsonV>) -> Option<Seq<JsonV>> {
    match j {
        Some(JsonV::Array(a)) => Some(a),
        _ => None,
    }
}

/// Keys of an object's entries, in order.
pub open spec fn keys_of(entries: Seq<(Seq<char>, JsonV)>) -> Seq<Seq<char>> {
    entries.map_values(|e: (Seq<char>, JsonV)| e.0)
}

/// `get_field` after writing `key := value` into an object: the written key
/// reads back the new value and every other key reads back what it read before.
pub open spec fn inserted(j: JsonV, key: Seq<char>, value: JsonV) -> JsonV {
    match j {
        JsonV::Object(entries) => match entry_index(entries, key) {
            Some(i) => JsonV::Object(entries.update(i, (key, value))),
            None => JsonV::Object(entries.push((key, value))),
        },
        _ => j,
    }
}

/// The entries whose key is not `key`, in order.
pub open spec fn without_key(entries: Seq<(Seq<char>, JsonV)>, key: Seq<char>) -> Seq<
    (Seq<char>, JsonV),
>
    decreases entries.len(),
{
    if entries.len() == 0 {
        entries
    } else if entries.last().0 == key {
        without_key(entries.drop_last(), key)
    } else {
        without_key(entries.drop_last(), key).push(entries.last())
    }
}

/// The model of a list of object entries.
pub open spec fn entries_model(v: Seq<(String, Json)>) -> Seq<(Seq<char>, JsonV)> {
    Seq::new(
        v.len(),
        |k: int|
            if 0 <= k < v.len() {
                (v[k].0@, v[k].1@)
            } else {
                (Seq::empty(), JsonV::Null)
            },
    )
}

/// An object with every entry whose key is `key` taken out.
pub open spec fn removed(j: JsonV, key: Seq<char>) -> JsonV {
    match j {
        JsonV::Object(entries) => JsonV::Object(without_key(entries, key)),
        _ => j,
    }
}

pub proof fn lemma_entry_index_found(entries: Seq<(Seq<char>, JsonV)>, key: Seq<char>)
    ensures
        entry_index(entries, key) matches Some(i) ==> 0 <= i < entries.len() && entries[i].0
            == key && forall|k: int| 0 <= k < i ==> entries[k].0 != key,
        entry_index(entries, key) is None ==> forall|k: int|
            0 <= k < entries.len() ==> entries[k].0 != key,
    decreases entries.len(),
{
    if entries.len() > 0 {
        lemma_entry_index_found(entries.drop_first(), key);
        if entries[0].0 != key {
            assert forall|k: int| 1 <= k < entries.len() implies entries[k] == entries.drop_first()[k
                - 1] by {}
        }
    }
}

/// `entry_index` is characterised by "first position with that key".
pub proof fn lemma_entry_index_is(entries: Seq<(Seq<char>, JsonV)>, key: Seq<char>, i: int)
    requires
        0 <= i < entries.len(),
        entries[i].0 == key,
        forall|k: int| 0 <= k < i ==> entries[k].0 != key,
    ensures
        entry_index(entries, key) == Some(i),
{
    lemma_entry_index_found(entries, key);
}

pub proof fn lemma_entry_index_absent(entries: Seq<(Seq<char>, JsonV)>, key: Seq<char>)
    requires
        forall|k: int| 0 <= k < entries.len() ==> entries[k].0 != key,
    ensures
        entry_index(entries, key) is None,
{
    lemma_entry_index_found(entries, key);
}

/// Reading a key back after writing it gives the written value; other keys
/// are not affected.
pub proof fn lemma_get_inserted(j: JsonV, key: Seq<char>, value: JsonV, other: Seq<char>)
    requires
        j is Object,
    ensures
        get_field(inserted(j, key, value), key) == Some(value),
        other != key ==> get_field(inserted(j, key, value), other) == get_field(j, other),
{
    let entries = j->Object_0;
    lemma_entry_index_found(entries, key);
    lemma_entry_index_found(entries, other);
    let ne = inserted(j, key, value)->Object_0;
    lemma_entry_index_found(ne, key);
    lemma_entry_index_found(ne, other);
    match entry_index(entries, key) {
        Some(i) => {
            lemma_entry_index_is(ne, key, i);
            if other != key {
                match entry_index(entries, other) {
                    Some(k) => {
                        lemma_entry_index_is(ne, other, k);
                    },
                    None => {
                        lemma_entry_index_absent(ne, other);
                    },
                }
            }
        },
        None => {
            lemma_entry_index_is(ne, key, entries.len() as int);
            if other != key {
                match entry_index(entries, other) {
                    Some(k) => {
                        lemma_entry_index_is(ne, other, k);
                    },
                    None => {
                        lemma_entry_index_absent(ne, other);
                    },
                }
            }
        },
    }
}

/// Whether a `String` and a `str` hold the same characters, in order.
pub(crate) fn string_eq_str(a: &String, b: &str) -> (r: bool)
    ensures
        r == (a@ == b@),
{
    let c = crate::text::chars_of(a.as_str());
    crate::text::chars_eq_str(&c, b)
}

impl Json {
    /// A string value.
    pub fn from_str(s: &str) -> (r: Json)
        ensures
            r@ == JsonV::Str(s@),
    {
        Json::Str(s.to_owned())
    }

    /// An object with no entries.
    pub fn empty_object() -> (r: Json)
        ensures
            r@ == JsonV::Object(Seq::empty()),
    {
        let v: Vec<(String, Json)> = Vec::new();
        let r = Json::Object(v);
        assert(r@->Object_0 =~= Seq::<(Seq<char>, JsonV)>::empty());
        r
    }

    pub fn is_object(&self) -> (r: bool)
        ensures
            r == (self@ is Object),
    {
        match self {
            Json::Object(_) => true,
            _ => false,
        }
    }

    pub fn is_null(&self) -> (r: bool)
        ensures
            r == (self@ is Null),
    {
        match self {
            Json::Null => true,
            _ => false,
        }
    }

    /// `serde_json::Value::get` with a string key.
    pub fn get(&self, key: &str) -> (r: Option<&Json>)
        ensures
            match r {
                Some(v) => get_field(self@, key@) == Some(v@),
                None => get_field(self@, key@) is None,
            },
    {
        match self {
            Json::Object(entries) => {
                proof {
                    lemma_object_model(*entries);
                }
                let mut i: usize = 0;
                while i < entries.len()
                    invariant
                        0 <= i <= entries.len(),
                        self@ == JsonV::Object(entries_model(entries@)),
                        forall|k: int| 0 <= k < i ==> (#[trigger] entries@[k]).0@ != key@,
                    decreases entries.len() - i,
                {
                    if string_eq_str(&entries[i].0, key) {
                        proof {
                            lemma_entry_index_is(self@->Object_0, key@, i as int);
                        }
                        return Some(&entries[i].1);
                    }
                    i = i + 1;
                }
                proof {
                    lemma_entry_index_absent(self@->Object_0, key@);
                }
                None
            },
            _ => None,
        }
    }

    /// `serde_json::Value::as_bool`.
    pub fn as_bool(&self) -> (r: Option<bool>)
        ensures
            r == bool_of(Some(self@)),
    {
        match self {
            Json::Bool(b) => Some(*b),
            _ => None,
        }
    }

    /// `serde_json::Value::as_str`.
    pub fn as_str(&self) -> (r: Option<&str>)
        ensures
            match r {
                Some(s) => str_of(Some(self@)) == Some(s@),
                None => str_of(Some(self@)) is None,
            },
    {
        match self {
            Json::Str(s) => Some(s.as_str()),
            _ => None,
        }
    }

    /// `serde_json::Value::as_u64`.
    pub fn as_u64(&self) -> (r: Option<u64>)
        ensures
            match r {
                Some(n) => u64_of(Some(self@)) == Some(n as int),
                None => u64_of(Some(self@)) is None,
            },
    {
        match self {
            Json::Int(i) => if *i >= 0 {
                Some(*i as u64)
            } else {
                None
            },
            Json::UInt(u) => Some(*u),
            _ => None,
        }
    }

    /// `serde_json::Value::as_i64`.
    pub fn as_i64(&self) -> (r: Option<i64>)
        ensures
            match r {
                Some(n) => i64_of(Some(self@)) == Some(n as int),
                None => i64_of(Some(self@)) is None,
            },
    {
        match self {
            Json::Int(i) => Some(*i),
            _ => None,
        }
    }

    /// `serde_json::Value::as_array`.
    pub fn as_array(&self) -> (r: Option<&Vec<Json>>)
        ensures
            match r {
                Some(a) => array_of(Some(self@)) == Some(items_model(a@)),
                None => array_of(Some(self@)) is None,
            },
    {
        match self {
            Json::Array(a) => {
                assert(self@->Array_0 =~= items_model(a@));
                Some(a)
            },
            _ => None,
        }
    }

    /// A copy of the value.
    pub fn deep_clone(&self) -> (r: Json)
        ensures
            r@ == self@,
        decreases self,
    {
        match self {
            Json::Null => Json::Null,
            Json::Bool(b) => Json::Bool(*b),
            Json::Int(i) => Json::Int(*i),
            Json::UInt(u) => Json::UInt(*u),
            Json::FloatBits(u) => Json::FloatBits(*u),
            Json::Str(s) => Json::Str(s.clone()),
            Json::Array(a) => {
                let mut out: Vec<Json> = Vec::new();
                let mut i: usize = 0;
                while i < a.len()
                    invariant
                        0 <= i <= a.len(),
                        out@.len() == i,
                        *self == Json::Array(*a),
                        forall|k: int| 0 <= k < i ==> (#[trigger] out@[k])@ == a@[k]@,
                    decreases a.len() - i,
                {
                    proof {
                        assert(decreases_to!(*self => (*self)->Array_0));
                        assert(decreases_to!(*a => a@));
                        assert(decreases_to!(a@ => a@[i as int]));
                        assert(decreases_to!(*self => a@[i as int]));
                    }
                    let c = a[i].deep_clone();
                    out.push(c);
                    i = i + 1;
                }
                let r = Json::Array(out);
                assert(r@->Array_0 =~= self@->Array_0);
                r
            },
            Json::Object(entries) => {
                let mut out: Vec<(String, Json)> = Vec::new();
                let mut i: usize = 0;
                while i < entries.len()
                    invariant
                        0 <= i <= entries.len(),
                        out@.len() == i,
                        *self == Json::Object(*entries),
                        forall|k: int|
                            0 <= k < i ==> (#[trigger] out@[k]).0@ == entries@[k].0@ && out@[k].1@
                                == entries@[k].1@,
                    decreases entries.len() - i,
                {
                    let k = entries[i].0.clone();
                    proof {
                        assert(decreases_to!(*self => (*self)->Object_0));
                        assert(decreases_to!(*entries => entries@));
                        assert(decreases_to!(entries@ => entries@[i as int]));
                        assert(decreases_to!(entries@[i as int] => entries@[i as int].1));
                        assert(decreases_to!(*self => entries@[i as int].1));
                    }
                    let v = entries[i].1.deep_clone();
                    out.push((k, v));
                    i = i + 1;
                }
                let r = Json::Object(out);
                assert(r@->Object_0 =~= self@->Object_0);
                r
            },
        }
    }

    /// `serde_json::Map::insert` on an object: the key reads back `value`,
    /// every other key keeps its value. A value that is not an object is left
    /// unchanged.
    pub fn insert(&mut self, key: &str, value: Json)
        ensures
            final(self)@ == inserted(old(self)@, key@, value@),
    {
        let mut taken = Json::Null;
        std::mem::swap(self, &mut taken);
        match taken {
            Json::Object(mut entries) => {
                let ghost src = entries_model(entries@);
                proof {
                    lemma_object_model(entries);
                }
                let mut i: usize = 0;
                let n = entries.len();
                while i < n
                    invariant
                        0 <= i <= n,
                        n == entries.len(),
                        src == entries_model(entries@),
                        old(self)@ == JsonV::Object(src),
                        forall|k: int| 0 <= k < i ==> (#[trigger] entries@[k]).0@ != key@,
                    decreases n - i,
                {
                    if string_eq_str(&entries[i].0, key) {
                        proof {
                            lemma_entry_index_is(src, key@, i as int);
                        }
                        entries.set(i, (key.to_owned(), value));
                        proof {
                            assert(entries_model(entries@) =~= src.update(i as int, (key@, value@)));
                            lemma_object_model(entries);
                        }
                        *self = Json::Object(entries);
                        return ;
                    }
                    i = i + 1;
                }
                proof {
                    lemma_entry_index_absent(src, key@);
                }
                entries.push((key.to_owned(), value));
                proof {
                    assert(entries_model(entries@) =~= src.push((key@, value@)));
                    lemma_object_model(entries);
                }
                *self = Json::Object(entries);
            },
            other => {
                *self = other;
            },
        }
    }

    /// `serde_json::Map::remove` on an object: afterwards no entry has `key`;
    /// the others stay in order. A value that is not an object is unchanged.
    pub fn remove(&mut self, key: &str)
        ensures
            final(self)@ == removed(old(self)@, key@),
    {
        let mut taken = Json::Null;
        std::mem::swap(self, &mut taken);
        match taken {
            Json::Object(mut rest) => {
                let ghost src = entries_model(rest@);
                proof {
                    lemma_object_model(rest);
                }
                let mut kept: Vec<(String, Json)> = Vec::new();
                let ghost mut consumed: int = 0;
                while rest.len() > 0
                    invariant
                        0 <= consumed <= src.len(),
                        rest@.len() == src.len() - consumed,
                        forall|k: int|
                            0 <= k < rest@.len() ==> ((#[trigger] rest@[k]).0@, rest@[k].1@)
                                == src[consumed + k],
                        entries_model(kept@) == without_key(src.take(consumed), key@),
                    decreases rest.len(),
                {
                    let ghost r0 = rest@;
                    let e = rest.remove(0);
                    proof {
                        assert(src.take(consumed + 1).drop_last() =~= src.take(consumed));
                        assert(src.take(consumed + 1).last() == src[consumed]);
                        assert((e.0@, e.1@) == src[consumed]);
                        assert forall|k: int| 0 <= k < rest@.len() implies ((#[trigger] rest@[k]).0@, rest@[k].1@)
                                == src[consumed + 1 + k] by {
                            assert(rest@[k] == r0[k + 1]);
                        }
                    }
                    if !string_eq_str(&e.0, key) {
                        let ghost before = kept@;
                        kept.push(e);
                        proof {
                            assert(entries_model(kept@) =~= entries_model(before).push(
                                src[consumed],
                            ));
                        }
                    }
                    proof {
                        consumed = consumed + 1;
                    }
                }
                proof {
                    assert(src.take(consumed) =~= src);
                    lemma_object_model(kept);
                }
                *self = Json::Object(kept);
            },
            other => {
                *self = other;
            },
        }
    }
}

/// An empty entry list, to be filled with [`push_entry`].
pub fn new_entries() -> (r: Vec<(String, Json)>)
    ensures
        entries_model(r@) == Seq::<(Seq<char>, JsonV)>::empty(),
{
    let r: Vec<(String, Json)> = Vec::new();
    proof {
        assert(entries_model(r@) =~= Seq::<(Seq<char>, JsonV)>::empty());
    }
    r
}

/// Append an entry to an object's entry list.
pub fn push_entry(entries: &mut Vec<(String, Json)>, key: &str, value: Json)
    ensures
        entries_model(final(entries)@) == entries_model(old(entries)@).push((key@, value@)),
{
    entries.push((key.to_owned(), value));
    proof {
        assert(entries_model(entries@) =~= entries_model(old(entries)@).push((key@, value@)));
    }
}

/// An object with the given entries, in order.
pub fn object(entries: Vec<(String, Json)>) -> (r: Json)
    ensures
        r@ == JsonV::Object(entries_model(entries@)),
{
    proof {
        lemma_object_model(entries);
    }
    Json::Object(entries)
}

/// The model of a list of values.
pub open spec fn items_model(v: Seq<Json>) -> Seq<JsonV> {
    Seq::new(v.len(), |k: int| v[k]@)
}

/// An array of the given values, in order.
pub fn array(items: Vec<Json>) -> (r: Json)
    ensures
        r@ == JsonV::Array(items_model(items@)),
{
    let r = Json::Array(items);
    proof {
        assert(r@->Array_0 =~= items_model(items@));
    }
    r
}

/// The model of a list of strings as JSON strings.
pub open spec fn strs_model(v: Seq<String>) -> Seq<JsonV> {
    Seq::new(v.len(), |k: int| JsonV::Str(v[k]@))
}

/// An array of strings.
pub fn str_array(items: &Vec<String>) -> (r: Json)
    ensures
        r@ == JsonV::Array(strs_model(items@)),
{
    let mut out: Vec<Json> = Vec::new();
    let mut i: usize = 0;
    while i < items.len()
        invariant
            0 <= i <= items@.len(),
            items_model(out@) == strs_model(items@.take(i as int)),
        decreases items.len() - i,
    {
        let ghost before = out@;
        let item = Json::from_str(items[i].as_str());
        assert(item@ == JsonV::Str(items@[i as int]@));
        out.push(item);
        proof {
            assert(items_model(out@) =~= items_model(before).push(JsonV::Str(items@[i as int]@)));
            assert(items_model(out@) =~= strs_model(items@.take(i + 1)));
        }
        i = i + 1;
    }
    proof {
        assert(items@.take(items@.len() as int) =~= items@);
    }
    array(out)
}

/// A count as a JSON number (an unsigned integer on the wire).
pub open spec fn count_v(n: nat) -> JsonV {
    if n <= i64::MAX {
        JsonV::Int(n as int)
    } else {
        JsonV::UInt(n as int)
    }
}

/// An unsigned integer as a JSON number.
pub fn uint(n: u64) -> (r: Json)
    ensures
        r@ == count_v(n as nat),
{
    if n <= 9223372036854775807u64 {
        Json::Int(n as i64)
    } else {
        Json::UInt(n)
    }
}

/// A count as a JSON number.
pub fn count(n: usize) -> (r: Json)
    ensures
        r@ == count_v(n as nat),
{
    uint(n as u64)
}

/// An optional text as JSON: the string, or `null`.
pub open spec fn opt_str_v(o: Option<Seq<char>>) -> JsonV {
    match o {
        Some(s) => JsonV::Str(s),
        None => JsonV::Null,
    }
}

/// An optional text as JSON: the string, or `null`.
pub fn opt_str_json(o: Option<&str>) -> (r: Json)
    ensures
        r@ == opt_str_v(
            match o {
                Some(s) => Some(s@),
                None => None,
            },
        ),
{
    match o {
        Some(s) => Json::from_str(s),
        None => Json::Null,
    }
}

/// The model of an object is the model of its entry list.
pub proof fn lemma_object_model(v: Vec<(String, Json)>)
    ensures
        Json::Object(v)@ == JsonV::Object(entries_model(v@)),
{
    assert(Json::Object(v)@->Object_0 =~= entries_model(v@));
}

} // verus!
