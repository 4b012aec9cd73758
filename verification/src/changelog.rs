//! `memory_changelog`: its argument schema, the checks on its arguments, and
//! the merge of the system-wide event list (newest first). The store reads
//! the transitions, consolidations and dreams.

use vstd::prelude::*;
use crate::json::{array, entries_model, keys_of, new_entries, object, push_entry, Json};
use crate::schema::{declared_args, names_of, required_args, schema_shape, ToolSchema};
use crate::json::JsonV;
use crate::memory::{is_uuid, uuid_accepts};
use crate::text::{chars_of, push_str, string_of, owned};

verus! {

broadcast use vstd::string::group_string_axioms;

/// The argument schema of `changelog`, as published.
pub open spec fn schema_spec() -> JsonV {
    JsonV::Object(seq![
        ("type"@, JsonV::Str("object"@)),
        ("properties"@, JsonV::Object(seq![
            ("memory_id"@, JsonV::Object(seq![
                ("type"@, JsonV::Str("string"@)),
                ("description"@, JsonV::Str("Scope to a single memory's audit trail. If omitted, returns system-wide changelog. Per-memory mode also returns `revisions`: the content timeline (oldest step first) with each step's kind, record time, previous and new content, reason and actor — so 'what did this memory say on date X, and why did it change' is answerable from the output. Each revision's content is capped at `contentLimitChars` characters and marked with `oldContentTruncated`/`newContentTruncated`; `revisionsOmitted` counts older steps this page left out."@)),
            ])),
            ("start"@, JsonV::Object(seq![
                ("type"@, JsonV::Str("string"@)),
                ("description"@, JsonV::Str("Start of time range (ISO 8601). Only used in system-wide mode."@)),
            ])),
            ("end"@, JsonV::Object(seq![
                ("type"@, JsonV::Str("string"@)),
                ("description"@, JsonV::Str("End of time range (ISO 8601). Only used in system-wide mode."@)),
            ])),
            ("limit"@, JsonV::Object(seq![
                ("type"@, JsonV::Str("integer"@)),
                ("description"@, JsonV::Str("Maximum number of entries (default: 20, max: 100)"@)),
                ("default"@, JsonV::Int(20)),
                ("minimum"@, JsonV::Int(1)),
                ("maximum"@, JsonV::Int(100)),
            ])),
        ])),
    ])
}

/// The arguments of `memory_changelog`; none is required.
pub fn schema() -> (r: Json)
    ensures
        r@ == schema_spec(),
        schema_shape(r@),
        declared_args(r@) == seq!["memory_id"@, "start"@, "end"@, "limit"@],
        required_args(r@) == Seq::<Seq<char>>::empty(),
{
    let mut props = new_entries();
    push_entry(&mut props, "memory_id", {
        let mut e = new_entries();
        push_entry(&mut e, "type", Json::from_str("string"));
        push_entry(&mut e, "description", Json::from_str("Scope to a single memory's audit trail. If omitted, returns system-wide changelog. Per-memory mode also returns `revisions`: the content timeline (oldest step first) with each step's kind, record time, previous and new content, reason and actor — so 'what did this memory say on date X, and why did it change' is answerable from the output. Each revision's content is capped at `contentLimitChars` characters and marked with `oldContentTruncated`/`newContentTruncated`; `revisionsOmitted` counts older steps this page left out."));
        proof {
            assert(crate::json::entries_model(e@) =~= seq![
                ("type"@, JsonV::Str("string"@)),
                ("description"@, JsonV::Str("Scope to a single memory's audit trail. If omitted, returns system-wide changelog. Per-memory mode also returns `revisions`: the content timeline (oldest step first) with each step's kind, record time, previous and new content, reason and actor — so 'what did this memory say on date X, and why did it change' is answerable from the output. Each revision's content is capped at `contentLimitChars` characters and marked with `oldContentTruncated`/`newContentTruncated`; `revisionsOmitted` counts older steps this page left out."@)),
            ]);
        }
        object(e)
    });
    push_entry(&mut props, "start", {
        let mut e = new_entries();
        push_entry(&mut e, "type", Json::from_str("string"));
        push_entry(&mut e, "description", Json::from_str("Start of time range (ISO 8601). Only used in system-wide mode."));
        proof {
            assert(crate::json::entries_model(e@) =~= seq![
                ("type"@, JsonV::Str("string"@)),
                ("description"@, JsonV::Str("Start of time range (ISO 8601). Only used in system-wide mode."@)),
            ]);
        }
        object(e)
    });
    push_entry(&mut props, "end", {
        let mut e = new_entries();
        push_entry(&mut e, "type", Json::from_str("string"));
        push_entry(&mut e, "description", Json::from_str("End of time range (ISO 8601). Only used in system-wide mode."));
        proof {
            assert(crate::json::entries_model(e@) =~= seq![
                ("type"@, JsonV::Str("string"@)),
                ("description"@, JsonV::Str("End of time range (ISO 8601). Only used in system-wide mode."@)),
            ]);
        }
        object(e)
    });
    push_entry(&mut props, "limit", {
        let mut e = new_entries();
        push_entry(&mut e, "type", Json::from_str("integer"));
        push_entry(&mut e, "description", Json::from_str("Maximum number of entries (default: 20, max: 100)"));
        push_entry(&mut e, "default", Json::Int(20));
        push_entry(&mut e, "minimum", Json::Int(1));
        push_entry(&mut e, "maximum", Json::Int(100));
        proof {
            assert(crate::json::entries_model(e@) =~= seq![
                ("type"@, JsonV::Str("integer"@)),
                ("description"@, JsonV::Str("Maximum number of entries (default: 20, max: 100)"@)),
                ("default"@, JsonV::Int(20)),
                ("minimum"@, JsonV::Int(1)),
                ("maximum"@, JsonV::Int(100)),
            ]);
        }
        object(e)
    });
    let mut required: Vec<String> = Vec::new();
    let extra = new_entries();
    proof {
        assert(keys_of(entries_model(props@)) =~= seq!["memory_id"@, "start"@, "end"@, "limit"@]);
        assert(names_of(required@) =~= Seq::<Seq<char>>::empty());
    }
    let s = ToolSchema { properties: props, required, extra };
    proof {
        assert(crate::json::entries_model(s.properties@) =~= seq![
            ("memory_id"@, JsonV::Object(seq![
                ("type"@, JsonV::Str("string"@)),
                ("description"@, JsonV::Str("Scope to a single memory's audit trail. If omitted, returns system-wide changelog. Per-memory mode also returns `revisions`: the content timeline (oldest step first) with each step's kind, record time, previous and new content, reason and actor — so 'what did this memory say on date X, and why did it change' is answerable from the output. Each revision's content is capped at `contentLimitChars` characters and marked with `oldContentTruncated`/`newContentTruncated`; `revisionsOmitted` counts older steps this page left out."@)),
            ])),
            ("start"@, JsonV::Object(seq![
                ("type"@, JsonV::Str("string"@)),
                ("description"@, JsonV::Str("Start of time range (ISO 8601). Only used in system-wide mode."@)),
            ])),
            ("end"@, JsonV::Object(seq![
                ("type"@, JsonV::Str("string"@)),
                ("description"@, JsonV::Str("End of time range (ISO 8601). Only used in system-wide mode."@)),
            ])),
            ("limit"@, JsonV::Object(seq![
                ("type"@, JsonV::Str("integer"@)),
                ("description"@, JsonV::Str("Maximum number of entries (default: 20, max: 100)"@)),
                ("default"@, JsonV::Int(20)),
                ("minimum"@, JsonV::Int(1)),
                ("maximum"@, JsonV::Int(100)),
            ])),
        ]);
        assert(s.json_v()->Object_0 =~= schema_spec()->Object_0);
    }
    s.publish()
}


/// Entries per page: `limit` (20 by default) clamped into `1..=100`.
pub fn changelog_limit(limit: Option<i32>) -> (r: i32)
    ensures
        r == (match limit {
            Some(l) => if l < 1 {
                1
            } else if l > 100 {
                100
            } else {
                l
            },
            None => 20,
        }),
        1 <= r <= 100,
{
    match limit {
        Some(l) => if l < 1 {
            1
        } else if l > 100 {
            100
        } else {
            l
        },
        None => 20,
    }
}

/// Checks the memory id of a per-memory changelog: it must be a UUID.
pub fn check_memory_id(memory_id: &str) -> (r: Result<(), String>)
    ensures
        r is Ok <==> uuid_accepts(memory_id@),
        r matches Err(e) ==> e@ == "Invalid memory_id '"@ + memory_id@ + "'. Must be a valid UUID."@,
{
    if is_uuid(memory_id) {
        Ok(())
    } else {
        let mut m: Vec<char> = chars_of("Invalid memory_id '");
        push_str(&mut m, memory_id);
        push_str(&mut m, "'. Must be a valid UUID.");
        Err(string_of(m.as_slice()))
    }
}

/// The error for a memory the store does not hold.
pub fn memory_not_found(memory_id: &str) -> (r: String)
    ensures
        r@ == "Memory '"@ + memory_id@ + "' not found."@,
{
    let mut m: Vec<char> = chars_of("Memory '");
    push_str(&mut m, memory_id);
    push_str(&mut m, "' not found.");
    string_of(m.as_slice())
}

/// How many older revisions a page left out: never negative.
pub fn revisions_omitted(total: i64, returned: i64) -> (r: i64)
    requires
        i64::MIN <= total - returned <= i64::MAX,
    ensures
        r == (if total - returned > 0 { total - returned } else { 0 }),
{
    let d = total - returned;
    if d > 0 {
        d
    } else {
        0
    }
}

// ---------------------------------------------------------------------------
// The system-wide event list
// ---------------------------------------------------------------------------

/// `x` placed into a list that is newest first: after every entry at least
/// as new, so that entries of equal time keep the order they came in.
pub open spec fn insert_desc(s: Seq<(i64, JsonV)>, x: (i64, JsonV)) -> Seq<(i64, JsonV)>
    decreases s.len(),
{
    if s.len() == 0 {
        seq![x]
    } else if s.last().0 >= x.0 {
        s.push(x)
    } else {
        insert_desc(s.drop_last(), x).push(s.last())
    }
}

/// The entries newest first, equal times in the order they came in.
pub open spec fn newest_first(s: Seq<(i64, JsonV)>) -> Seq<(i64, JsonV)>
    decreases s.len(),
{
    if s.len() == 0 {
        s
    } else {
        insert_desc(newest_first(s.drop_last()), s.last())
    }
}

pub open spec fn sorted_desc(s: Seq<(i64, JsonV)>) -> bool {
    forall|i: int, j: int| 0 <= i < j < s.len() ==> s[i].0 >= s[j].0
}

proof fn lemma_insert_desc(s: Seq<(i64, JsonV)>, x: (i64, JsonV))
    requires
        sorted_desc(s),
    ensures
        sorted_desc(insert_desc(s, x)),
        insert_desc(s, x).len() == s.len() + 1,
        insert_desc(s, x).to_multiset() == s.to_multiset().insert(x),
    decreases s.len(),
{
    broadcast use vstd::seq_lib::group_to_multiset_ensures, vstd::multiset::group_multiset_axioms;

    if s.len() == 0 {
        assert(seq![x] =~= s.push(x));
    } else if s.last().0 >= x.0 {
        assert forall|i: int, j: int| 0 <= i < j < s.push(x).len() implies s.push(x)[i].0 >= s.push(
            x,
        )[j].0 by {
            if j == s.len() {
                assert(s[i].0 >= s[s.len() - 1].0);
            }
        }
    } else {
        let t = s.drop_last();
        let l = s.last();
        assert(sorted_desc(t));
        lemma_insert_desc(t, x);
        let u = insert_desc(t, x);
        assert(s =~= t.push(l));
        assert forall|i: int, j: int| 0 <= i < j < u.push(l).len() implies u.push(l)[i].0 >= u.push(
            l,
        )[j].0 by {
            if j == u.len() {
                assert(u.contains(u[i]));
                assert(u.to_multiset().count(u[i]) > 0);
                if u[i] != x {
                    assert(t.to_multiset().count(u[i]) > 0);
                    assert(t.contains(u[i]));
                    let m = choose|m: int| 0 <= m < t.len() && t[m] == u[i];
                    assert(s[m].0 >= s[s.len() - 1].0);
                }
            }
        }
        assert(u.push(l).to_multiset() =~= s.to_multiset().insert(x));
    }
}

/// Newest first is ordered by time and holds exactly the entries given.
pub proof fn law_newest_first_is_an_ordering(s: Seq<(i64, JsonV)>)
    ensures
        sorted_desc(newest_first(s)),
        newest_first(s).len() == s.len(),
        newest_first(s).to_multiset() == s.to_multiset(),
    decreases s.len(),
{
    broadcast use vstd::seq_lib::group_to_multiset_ensures, vstd::multiset::group_multiset_axioms;

    if s.len() == 0 {
    } else {
        law_newest_first_is_an_ordering(s.drop_last());
        lemma_insert_desc(newest_first(s.drop_last()), s.last());
        assert(s =~= s.drop_last().push(s.last()));
    }
}

pub open spec fn events_view(v: Seq<(i64, Json)>) -> Seq<(i64, JsonV)> {
    Seq::new(v.len(), |i: int| (v[i].0, v[i].1@))
}

fn insert_event(out: &mut Vec<(i64, Json)>, x: (i64, Json))
    ensures
        events_view(final(out)@) == insert_desc(events_view(old(out)@), (x.0, x.1@)),
    decreases old(out)@.len(),
{
    let ghost xv = (x.0, x.1@);
    let n = out.len();
    if n == 0 {
        out.push(x);
        proof {
            assert(events_view(out@) =~= seq![xv]);
        }
    } else if out[n - 1].0 >= x.0 {
        let ghost before = events_view(out@);
        out.push(x);
        proof {
            assert(events_view(out@) =~= before.push(xv));
        }
    } else {
        let ghost before = events_view(out@);
        let last = out.pop().unwrap();
        proof {
            assert(events_view(out@) =~= before.drop_last());
        }
        let ghost lv = (last.0, last.1@);
        insert_event(out, x);
        let ghost mid = events_view(out@);
        out.push(last);
        proof {
            assert(before.last() == lv);
            assert(events_view(out@) =~= mid.push(lv));
        }
    }
}

/// The system-wide events newest first, cut to `limit` entries; each entry
/// carries its time (as a number that orders like the time) for the sort.
pub fn merge_events(events: Vec<(i64, Json)>, limit: usize) -> (r: Vec<Json>)
    ensures
        r@.len() == (if limit < events@.len() { limit as int } else { events@.len() as int }),
        forall|i: int| 0 <= i < r@.len() ==> r@[i]@ == (#[trigger] newest_first(events_view(events@))[i]).1,
{
    let ghost ev = events_view(events@);
    let mut sorted: Vec<(i64, Json)> = Vec::new();
    let mut rest = events;
    let mut taken: Vec<(i64, Json)> = Vec::new();
    let ghost mut consumed: int = 0;
    proof {
        assert(events_view(sorted@) =~= newest_first(ev.take(0)));
    }
    while rest.len() > 0
        invariant
            0 <= consumed <= ev.len(),
            rest@.len() == ev.len() - consumed,
            events_view(rest@) == ev.subrange(consumed, ev.len() as int),
            events_view(sorted@) == newest_first(ev.take(consumed)),
        decreases rest.len(),
    {
        let ghost r0 = events_view(rest@);
        let ghost raw0 = rest@;
        let x = rest.remove(0);
        proof {
            assert(rest@ =~= raw0.subrange(1, raw0.len() as int));
            assert(r0[0] == (x.0, x.1@));
            assert(ev.take(consumed + 1).drop_last() =~= ev.take(consumed));
            assert(ev.take(consumed + 1).last() == ev[consumed]);
            assert(ev[consumed] == r0[0]);
            assert forall|k: int| 0 <= k < rest@.len() implies #[trigger] events_view(rest@)[k]
                == ev[consumed + 1 + k] by {
                assert(rest@[k] == raw0[k + 1]);
                assert(r0[k + 1] == ev[consumed + 1 + k]);
            }
            assert(events_view(rest@) =~= ev.subrange(consumed + 1, ev.len() as int));
        }
        insert_event(&mut sorted, x);
        proof {
            consumed = consumed + 1;
        }
    }
    proof {
        assert(ev.take(consumed) =~= ev);
        law_newest_first_is_an_ordering(ev);
    }
    let ghost sv = events_view(sorted@);
    assert(sv == newest_first(ev));
    assert(sv.len() == ev.len());
    let mut out: Vec<Json> = Vec::new();
    let mut i: usize = 0;
    let n = sorted.len();
    let mut src = sorted;
    while i < n && i < limit && src.len() > 0
        invariant
            0 <= i <= n,
            i <= limit,
            n == sv.len(),
            n == ev.len(),
            ev.len() == events@.len(),
            sv == newest_first(ev),
            src@.len() == n - i,
            forall|k: int| 0 <= k < src@.len() ==> (#[trigger] events_view(src@)[k]) == sv[i + k],
            out@.len() == i,
            forall|k: int| 0 <= k < i ==> out@[k]@ == (#[trigger] sv[k]).1,
        decreases n - i,
    {
        let ghost s0 = events_view(src@);
        let e = src.remove(0);
        proof {
            assert(s0[0] == sv[i as int]);
            assert forall|k: int| 0 <= k < src@.len() implies (#[trigger] events_view(src@)[k]) == sv[i + 1 + k] by {
                assert(events_view(src@)[k] == s0[k + 1]);
            }
        }
        out.push(e.1);
        i = i + 1;
    }
    out
}

/// The system-wide changelog reply.
pub fn system_wide_reply(events: Vec<Json>) -> (r: Json)
    ensures
        r@ == JsonV::Object(
            seq![
                ("tool"@, JsonV::Str("memory_changelog"@)),
                ("mode"@, JsonV::Str("system_wide"@)),
                ("totalEvents"@, crate::json::count_v(events@.len())),
                ("events"@, JsonV::Array(crate::json::items_model(events@))),
            ],
        ),
{
    let n = events.len();
    let ghost m = crate::json::items_model(events@);
    let mut e = new_entries();
    push_entry(&mut e, "tool", Json::from_str("memory_changelog"));
    push_entry(&mut e, "mode", Json::from_str("system_wide"));
    push_entry(&mut e, "totalEvents", crate::json::count(n));
    push_entry(&mut e, "events", array(events));
    proof {
        assert(entries_model(e@) =~= seq![
            ("tool"@, JsonV::Str("memory_changelog"@)),
            ("mode"@, JsonV::Str("system_wide"@)),
            ("totalEvents"@, crate::json::count_v(n as nat)),
            ("events"@, JsonV::Array(m)),
        ]);
    }
    object(e)
}

} // verus!
