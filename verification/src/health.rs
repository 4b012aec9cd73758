//! `memory_health`: its argument schema, its recommendation, and its
//! retention distribution. The retention figures are floating-point and
//! read by the caller; the rules that act on them are here.

use vstd::prelude::*;
use crate::json::{array, entries_model, keys_of, new_entries, object, push_entry, Json};
use crate::schema::{declared_args, names_of, required_args, schema_shape, ToolSchema};
use crate::json::JsonV;
use crate::text::owned;

verus! {

broadcast use vstd::string::group_string_axioms;

/// The argument schema of `health`, as published.
pub open spec fn schema_spec() -> JsonV {
    JsonV::Object(seq![
        ("type"@, JsonV::Str("object"@)),
        ("properties"@, JsonV::Object(Seq::<(Seq<char>, JsonV)>::empty())),
    ])
}

/// The arguments of `memory_health`: it takes none.
pub fn schema() -> (r: Json)
    ensures
        r@ == schema_spec(),
        schema_shape(r@),
        declared_args(r@) == Seq::<Seq<char>>::empty(),
        required_args(r@) == Seq::<Seq<char>>::empty(),
{
    let mut props = new_entries();
    let mut required: Vec<String> = Vec::new();
    let extra = new_entries();
    proof {
        assert(keys_of(entries_model(props@)) =~= Seq::<Seq<char>>::empty());
        assert(names_of(required@) =~= Seq::<Seq<char>>::empty());
    }
    let s = ToolSchema { properties: props, required, extra };
    proof {
        assert(crate::json::entries_model(s.properties@) =~= Seq::<(Seq<char>, JsonV)>::empty());
        assert(s.json_v()->Object_0 =~= schema_spec()->Object_0);
    }
    s.publish()
}


/// Where the average retention stands against the bands the recommendation
/// reads (compared by the caller).
#[derive(PartialEq, Eq, Structural, Clone, Copy, Debug)]
pub enum RetentionBand {
    /// At least 0.8.
    Excellent,
    /// At least 0.6.
    Good,
    /// At least 0.4.
    Fair,
    /// Below 0.4.
    Poor,
}

/// The recommendation for a retention band.
pub open spec fn recommendation_s(b: RetentionBand) -> Seq<char> {
    match b {
        RetentionBand::Excellent => "Excellent memory health. Retention is strong across the board."@,
        RetentionBand::Good => "Good memory health. Consider reviewing memories in the 0-40% range."@,
        RetentionBand::Fair => "Fair memory health. Many memories are decaying. Run consolidation and consider GC."@,
        RetentionBand::Poor => "Poor memory health. Urgent: run consolidation, then GC stale memories below 0.3."@,
    }
}

/// The recommendation of a health report.
pub fn recommendation(b: RetentionBand) -> (r: &'static str)
    ensures
        r@ == recommendation_s(b),
{
    match b {
        RetentionBand::Excellent => "Excellent memory health. Retention is strong across the board.",
        RetentionBand::Good => "Good memory health. Consider reviewing memories in the 0-40% range.",
        RetentionBand::Fair => "Fair memory health. Many memories are decaying. Run consolidation and consider GC.",
        RetentionBand::Poor => "Poor memory health. Urgent: run consolidation, then GC stale memories below 0.3.",
    }
}

/// The band for the outcome of the three comparisons, from the top down.
pub fn band_of(at_least_0_8: bool, at_least_0_6: bool, at_least_0_4: bool) -> (r: RetentionBand)
    ensures
        r == (if at_least_0_8 {
            RetentionBand::Excellent
        } else if at_least_0_6 {
            RetentionBand::Good
        } else if at_least_0_4 {
            RetentionBand::Fair
        } else {
            RetentionBand::Poor
        }),
{
    if at_least_0_8 {
        RetentionBand::Excellent
    } else if at_least_0_6 {
        RetentionBand::Good
    } else if at_least_0_4 {
        RetentionBand::Fair
    } else {
        RetentionBand::Poor
    }
}

pub open spec fn bucket_v(b: (String, i64)) -> JsonV {
    JsonV::Object(seq![("bucket"@, JsonV::Str(b.0@)), ("count"@, JsonV::Int(b.1 as int))])
}

/// The retention distribution as `[{bucket, count}, ...]`, in the store's order.
pub fn distribution_json(buckets: &Vec<(String, i64)>) -> (r: Json)
    ensures
        r@ == JsonV::Array(Seq::new(buckets@.len(), |i: int| bucket_v(buckets@[i]))),
{
    let mut items: Vec<Json> = Vec::new();
    let mut i: usize = 0;
    while i < buckets.len()
        invariant
            0 <= i <= buckets@.len(),
            crate::json::items_model(items@) == Seq::new(i as nat, |k: int| bucket_v(buckets@[k])),
        decreases buckets.len() - i,
    {
        let mut e = new_entries();
        push_entry(&mut e, "bucket", Json::from_str(buckets[i].0.as_str()));
        push_entry(&mut e, "count", Json::Int(buckets[i].1));
        proof {
            assert(entries_model(e@) =~= bucket_v(buckets@[i as int])->Object_0);
        }
        let ghost before = crate::json::items_model(items@);
        let o = object(e);
        assert(o@ == bucket_v(buckets@[i as int]));
        items.push(o);
        proof {
            assert(crate::json::items_model(items@) =~= before.push(bucket_v(buckets@[i as int])));
            assert(crate::json::items_model(items@) =~= Seq::new((i + 1) as nat, |k: int| bucket_v(buckets@[k])));
        }
        i = i + 1;
    }
    array(items)
}

} // verus!
