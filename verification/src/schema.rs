//! The argument schema a tool publishes in `tools/list`.
//!
//! A [`ToolSchema`] is a JSON-Schema object: `type` is `object`, `properties`
//! declares each argument, `required` (present only when something is
//! required) names arguments that `properties` declares, and any further
//! keywords (`allOf`, a `description`) follow.

use vstd::prelude::*;
use crate::json::{
    array, entries_model, get_field, keys_of, new_entries, object, push_entry, str_array,
    strs_model, Json, JsonV,
};

verus! {

/// An object schema: its declared properties, the names it requires, and
/// any further top-level keywords.
pub struct ToolSchema {
    pub properties: Vec<(String, Json)>,
    pub required: Vec<String>,
    pub extra: Vec<(String, Json)>,
}

/// The names of a list of strings.
pub open spec fn names_of(v: Seq<String>) -> Seq<Seq<char>> {
    Seq::new(v.len(), |k: int| v[k]@)
}

impl ToolSchema {
    /// The declared property names, in order.
    pub open spec fn prop_names(&self) -> Seq<Seq<char>> {
        keys_of(entries_model(self.properties@))
    }

    /// Every required name is declared, and no further keyword is named
    /// `type`, `properties` or `required`.
    pub open spec fn wf(&self) -> bool {
        &&& forall|k: int|
            0 <= k < self.required@.len() ==> self.prop_names().contains(
                #[trigger] self.required@[k]@,
            )
        &&& forall|k: int|
            0 <= k < self.extra@.len() ==> (#[trigger] self.extra@[k]).0@ != "required"@
    }

    /// The JSON form of the schema.
    pub open spec fn json_v(&self) -> JsonV {
        let head = seq![
            ("type"@, JsonV::Str("object"@)),
            ("properties"@, JsonV::Object(entries_model(self.properties@))),
        ];
        let req = if self.required@.len() == 0 {
            Seq::empty()
        } else {
            seq![("required"@, JsonV::Array(strs_model(self.required@)))]
        };
        JsonV::Object(head + req + entries_model(self.extra@))
    }

    /// The JSON form of the schema.
    pub fn to_json(&self) -> (r: Json)
        ensures
            r@ == self.json_v(),
    {
        let mut e = new_entries();
        push_entry(&mut e, "type", Json::from_str("object"));
        let props = object(clone_entries(&self.properties));
        push_entry(&mut e, "properties", props);
        if self.required.len() > 0 {
            push_entry(&mut e, "required", str_array(&self.required));
        }
        let mut i: usize = 0;
        let ghost start = entries_model(e@);
        while i < self.extra.len()
            invariant
                0 <= i <= self.extra@.len(),
                entries_model(e@) == start + entries_model(self.extra@.take(i as int)),
            decreases self.extra.len() - i,
        {
            let v = self.extra[i].1.deep_clone();
            push_entry(&mut e, self.extra[i].0.as_str(), v);
            proof {
                assert(entries_model(self.extra@.take(i + 1)) =~= entries_model(
                    self.extra@.take(i as int),
                ).push((self.extra@[i as int].0@, self.extra@[i as int].1@)));
            }
            i = i + 1;
        }
        proof {
            assert(self.extra@.take(self.extra@.len() as int) =~= self.extra@);
            let head = seq![
                ("type"@, JsonV::Str("object"@)),
                ("properties"@, JsonV::Object(entries_model(self.properties@))),
            ];
            if self.required@.len() == 0 {
                assert(start =~= head);
            } else {
                assert(start =~= head + seq![
                    ("required"@, JsonV::Array(strs_model(self.required@))),
                ]);
            }
            assert(entries_model(e@) =~= self.json_v()->Object_0);
        }
        object(e)
    }
}

impl ToolSchema {
    /// The schema as published: a JSON object of the shape clients rely on,
    /// declaring and requiring exactly the names of this schema.
    pub fn publish(&self) -> (r: Json)
        requires
            self.wf(),
        ensures
            r@ == self.json_v(),
            schema_shape(r@),
            declared_args(r@) == self.prop_names(),
            required_args(r@) == names_of(self.required@),
    {
        proof {
            lemma_schema_shape(self);
        }
        self.to_json()
    }
}

/// A copy of an entry list.
pub fn clone_entries(v: &Vec<(String, Json)>) -> (r: Vec<(String, Json)>)
    ensures
        entries_model(r@) == entries_model(v@),
{
    let mut r = new_entries();
    let mut i: usize = 0;
    while i < v.len()
        invariant
            0 <= i <= v@.len(),
            entries_model(r@) == entries_model(v@.take(i as int)),
        decreases v.len() - i,
    {
        let val = v[i].1.deep_clone();
        push_entry(&mut r, v[i].0.as_str(), val);
        proof {
            assert(entries_model(v@.take(i + 1)) =~= entries_model(v@.take(i as int)).push(
                (v@[i as int].0@, v@[i as int].1@),
            ));
        }
        i = i + 1;
    }
    proof {
        assert(v@.take(v@.len() as int) =~= v@);
    }
    r
}

/// What every client relies on in a published schema: `type` is `object`,
/// `properties` is an object, and `required`, where present, is an array of
/// strings each naming a declared property.
pub open spec fn schema_shape(j: JsonV) -> bool {
    &&& get_field(j, "type"@) == Some(JsonV::Str("object"@))
    &&& match get_field(j, "properties"@) {
        Some(JsonV::Object(props)) => match get_field(j, "required"@) {
            None => true,
            Some(JsonV::Array(req)) => required_declared(req, props),
            Some(_) => false,
        },
        _ => false,
    }
}

/// Each entry of `req` is a string naming a key of `props`.
pub open spec fn required_declared(req: Seq<JsonV>, props: Seq<(Seq<char>, JsonV)>) -> bool {
    forall|k: int| 0 <= k < req.len() ==> str_declared(#[trigger] req[k], props)
}

pub open spec fn str_declared(v: JsonV, props: Seq<(Seq<char>, JsonV)>) -> bool {
    match v {
        JsonV::Str(name) => keys_of(props).contains(name),
        _ => false,
    }
}

proof fn lemma_key_literals_differ()
    ensures
        "type"@ != "properties"@,
        "type"@ != "required"@,
        "properties"@ != "required"@,
{
    reveal_strlit("type");
    reveal_strlit("properties");
    reveal_strlit("required");
    assert("type"@.len() != "properties"@.len());
    assert("type"@.len() != "required"@.len());
    assert("properties"@.len() != "required"@.len());
}

proof fn lemma_no_key_in(entries: Seq<(Seq<char>, JsonV)>, key: Seq<char>)
    requires
        forall|k: int| 0 <= k < entries.len() ==> (#[trigger] entries[k]).0 != key,
    ensures
        crate::json::entry_index(entries, key) is None,
    decreases entries.len(),
{
    if entries.len() > 0 {
        assert(entries[0].0 != key);
        assert forall|k: int| 0 <= k < entries.drop_first().len() implies (
        #[trigger] entries.drop_first()[k]).0 != key by {
            assert(entries.drop_first()[k] == entries[k + 1]);
        }
        lemma_no_key_in(entries.drop_first(), key);
    }
}

/// The argument names a published schema declares.
pub open spec fn declared_args(j: JsonV) -> Seq<Seq<char>> {
    match get_field(j, "properties"@) {
        Some(JsonV::Object(p)) => keys_of(p),
        _ => Seq::empty(),
    }
}

/// The argument names a published schema requires (none when it has no
/// `required` list).
pub open spec fn required_args(j: JsonV) -> Seq<Seq<char>> {
    match get_field(j, "required"@) {
        Some(JsonV::Array(a)) => a.map_values(
            |v: JsonV|
                match v {
                    JsonV::Str(n) => n,
                    _ => Seq::empty(),
                },
        ),
        _ => Seq::empty(),
    }
}

/// A well-formed schema publishes a JSON object of the shape clients rely on.
pub proof fn lemma_schema_shape(s: &ToolSchema)
    requires
        s.wf(),
    ensures
        schema_shape(s.json_v()),
        declared_args(s.json_v()) == s.prop_names(),
        required_args(s.json_v()) == names_of(s.required@),
{
    lemma_key_literals_differ();
    let j = s.json_v();
    let entries = j->Object_0;
    let props = entries_model(s.properties@);
    assert(entries[0].0 == "type"@);
    assert(crate::json::entry_index(entries, "type"@) == Some(0int));
    assert(entries.drop_first()[0].0 == "properties"@);
    assert(crate::json::entry_index(entries.drop_first(), "properties"@) == Some(0int));
    assert(crate::json::entry_index(entries, "properties"@) == Some(1int));
    if s.required@.len() == 0 {
        let rest = entries.drop_first().drop_first();
        assert(rest =~= entries_model(s.extra@));
        lemma_no_key_in(rest, "required"@);
        assert(crate::json::entry_index(entries.drop_first(), "required"@) is None);
        assert(crate::json::entry_index(entries, "required"@) is None);
    } else {
        assert(entries.drop_first().drop_first()[0].0 == "required"@);
        assert(crate::json::entry_index(entries.drop_first().drop_first(), "required"@) == Some(
            0int,
        ));
        assert(crate::json::entry_index(entries.drop_first(), "required"@) == Some(1int));
        assert(crate::json::entry_index(entries, "required"@) == Some(2int));
        let req = strs_model(s.required@);
        assert forall|k: int| 0 <= k < req.len() implies str_declared(#[trigger] req[k], props) by {
            assert(s.prop_names().contains(s.required@[k]@));
        }
        assert(required_args(s.json_v()) =~= names_of(s.required@));
    }
    assert(required_args(s.json_v()) =~= names_of(s.required@));
}

/// An object schema with no declared arguments.
pub fn empty_schema() -> (r: ToolSchema)
    ensures
        r.wf(),
        r.prop_names() == Seq::<Seq<char>>::empty(),
        r.properties@.len() == 0,
        r.required@.len() == 0,
        r.extra@.len() == 0,
{
    let r = ToolSchema { properties: new_entries(), required: Vec::new(), extra: new_entries() };
    proof {
        assert(r.prop_names() =~= Seq::<Seq<char>>::empty());
    }
    r
}

} // verus!
