//! Deprecated tool names and how their calls are rewritten onto the current
//! tools.
//!
//! Older releases exposed many fine-grained tools (`promote_memory`,
//! `recall`, `set_intention`, ...) that have since been folded into a few
//! tools with an `action` discriminator. A call under an old name is
//! rewritten to the current name and argument shape before dispatch.

use vstd::prelude::*;
use crate::json::{get_field, inserted, removed, Json, JsonV};
use crate::text::{chars_eq_str, chars_of};

verus! {

broadcast use vstd::string::group_string_axioms;

/// The outcome of a deprecation lookup: the current tool and its rewritten
/// arguments, or `None` when the name is not a deprecated alias.
pub type Rewrite = Option<(&'static str, Option<Json>)>;

/// Arguments with `action` set, as the action-injecting aliases build them:
/// an object gets the key written, another value is passed on unchanged, and
/// no arguments become `{"action": action}`.
pub open spec fn inject_action_s(args: Option<JsonV>, action: Seq<char>) -> Option<JsonV> {
    match args {
        Some(a) => Some(inserted(a, "action"@, JsonV::Str(action))),
        None => Some(JsonV::Object(seq![("action"@, JsonV::Str(action))])),
    }
}

/// The value of `field` in the arguments, or `null`.
pub open spec fn field_or_null(args: Option<JsonV>, field: Seq<char>) -> JsonV {
    match args {
        Some(a) => match get_field(a, field) {
            Some(v) => v,
            None => JsonV::Null,
        },
        None => JsonV::Null,
    }
}

/// `{"action": action, "id": <args[id_field] or null>}`.
pub open spec fn action_with_id_s(args: Option<JsonV>, action: Seq<char>, field: Seq<char>) -> Option<
    JsonV,
> {
    Some(
        JsonV::Object(
            seq![("action"@, JsonV::Str(action)), ("id"@, field_or_null(args, field))],
        ),
    )
}

/// The `list_intentions` rewrite: `action` set to `list`, and a `status`
/// entry moved to `filter_status`.
pub open spec fn list_intentions_s(args: Option<JsonV>) -> Option<JsonV> {
    match args {
        Some(a) => {
            let a1 = inserted(a, "action"@, JsonV::Str("list"@));
            match get_field(a1, "status"@) {
                Some(st) => Some(inserted(removed(a1, "status"@), "filter_status"@, st)),
                None => Some(a1),
            }
        },
        None => Some(JsonV::Object(seq![("action"@, JsonV::Str("list"@))])),
    }
}

/// `args["minutes"]`, or 30.
pub open spec fn minutes_or_default(args: Option<JsonV>) -> JsonV {
    match args {
        Some(a) => match get_field(a, "minutes"@) {
            Some(m) => m,
            None => JsonV::Int(30),
        },
        None => JsonV::Int(30),
    }
}

/// The deprecated alias table: the current tool and arguments a call under
/// `name` is dispatched to, or `None` for a name that is not an alias.
pub open spec fn rewrite_s(name: Seq<char>, args: Option<JsonV>) -> Option<
    (Seq<char>, Option<JsonV>),
> {
    if name == "ingest"@ || name == "session_checkpoint"@ {
        Some(("smart_ingest"@, args))
    } else if name == "recall"@ || name == "semantic_search"@ || name == "hybrid_search"@ {
        Some(("search"@, args))
    } else if name == "health_check"@ || name == "stats"@ {
        Some(("system_status"@, args))
    } else if name == "promote_memory"@ {
        Some(("memory"@, inject_action_s(args, "promote"@)))
    } else if name == "demote_memory"@ {
        Some(("memory"@, inject_action_s(args, "demote"@)))
    } else if name == "remember_pattern"@ {
        Some(("codebase"@, inject_action_s(args, "remember_pattern"@)))
    } else if name == "remember_decision"@ {
        Some(("codebase"@, inject_action_s(args, "remember_decision"@)))
    } else if name == "get_codebase_context"@ {
        Some(("codebase"@, inject_action_s(args, "get_context"@)))
    } else if name == "set_intention"@ {
        Some(("intention"@, inject_action_s(args, "set"@)))
    } else if name == "check_intentions"@ {
        Some(("intention"@, inject_action_s(args, "check"@)))
    } else if name == "get_knowledge"@ {
        Some(("memory"@, action_with_id_s(args, "get"@, "id"@)))
    } else if name == "delete_knowledge"@ {
        Some(("memory"@, action_with_id_s(args, "delete"@, "id"@)))
    } else if name == "get_memory_state"@ {
        Some(("memory"@, action_with_id_s(args, "state"@, "memory_id"@)))
    } else if name == "mark_reviewed"@ {
        Some(("memory"@, inject_action_s(args, "review"@)))
    } else if name == "complete_intention"@ {
        Some(
            (
                "intention"@,
                Some(
                    JsonV::Object(
                        seq![
                            ("action"@, JsonV::Str("update"@)),
                            ("id"@, field_or_null(args, "intentionId"@)),
                            ("status"@, JsonV::Str("complete"@)),
                        ],
                    ),
                ),
            ),
        )
    } else if name == "snooze_intention"@ {
        Some(
            (
                "intention"@,
                Some(
                    JsonV::Object(
                        seq![
                            ("action"@, JsonV::Str("update"@)),
                            ("id"@, field_or_null(args, "intentionId"@)),
                            ("status"@, JsonV::Str("snooze"@)),
                            ("snooze_minutes"@, minutes_or_default(args)),
                        ],
                    ),
                ),
            ),
        )
    } else if name == "list_intentions"@ {
        Some(("intention"@, list_intentions_s(args)))
    } else {
        None
    }
}

pub open spec fn rewrite_view(r: Rewrite) -> Option<(Seq<char>, Option<JsonV>)> {
    match r {
        Some((n, a)) => Some(
            (
                n@,
                match a {
                    Some(j) => Some(j@),
                    None => None,
                },
            ),
        ),
        None => None,
    }
}

pub open spec fn opt_view(a: Option<Json>) -> Option<JsonV> {
    match a {
        Some(j) => Some(j@),
        None => None,
    }
}

fn single_entry(key: &str, value: Json) -> (r: Json)
    ensures
        r@ == JsonV::Object(seq![(key@, value@)]),
{
    let mut o = Json::empty_object();
    o.insert(key, value);
    proof {
        crate::json::lemma_entry_index_absent(Seq::empty(), key@);
        assert(Seq::<(Seq<char>, JsonV)>::empty().push((key@, value@)) =~= seq![(key@, value@)]);
    }
    o
}

fn push_entry(o: &mut Vec<(String, Json)>, key: &str, value: Json)
    ensures
        final(o)@.len() == old(o)@.len() + 1,
        forall|k: int| 0 <= k < old(o)@.len() ==> final(o)@[k] == old(o)@[k],
        final(o)@[old(o)@.len() as int].0@ == key@,
        final(o)@[old(o)@.len() as int].1 == value,
{
    o.push((key.to_owned(), value));
}

/// Add `action` to the arguments (see [`inject_action_s`]).
fn inject_action(args: Option<Json>, action: &str) -> (r: Option<Json>)
    ensures
        opt_view(r) == inject_action_s(opt_view(args), action@),
{
    match args {
        Some(mut a) => {
            a.insert("action", Json::from_str(action));
            Some(a)
        },
        None => Some(single_entry("action", Json::from_str(action))),
    }
}

/// `args[field]`, copied, or `null`.
fn field_copy_or_null(args: &Option<Json>, field: &str) -> (r: Json)
    ensures
        r@ == field_or_null(opt_view(*args), field@),
{
    match args {
        Some(a) => match a.get(field) {
            Some(v) => v.deep_clone(),
            None => Json::Null,
        },
        None => Json::Null,
    }
}

fn minutes_copy(args: &Option<Json>) -> (r: Json)
    ensures
        r@ == minutes_or_default(opt_view(*args)),
{
    match args {
        Some(a) => match a.get("minutes") {
            Some(m) => m.deep_clone(),
            None => Json::Int(30),
        },
        None => Json::Int(30),
    }
}

fn object_of(entries: Vec<(String, Json)>) -> (r: Json)
    ensures
        r@ == JsonV::Object(crate::json::entries_model(entries@)),
{
    proof {
        crate::json::lemma_object_model(entries);
    }
    Json::Object(entries)
}

/// Build `{"action": action, "id": <args[id_field] or null>}`.
fn action_with_id(args: &Option<Json>, action: &str, id_field: &str) -> (r: Option<Json>)
    ensures
        opt_view(r) == action_with_id_s(opt_view(*args), action@, id_field@),
{
    let id = field_copy_or_null(args, id_field);
    let mut e: Vec<(String, Json)> = Vec::new();
    push_entry(&mut e, "action", Json::from_str(action));
    push_entry(&mut e, "id", id);
    let o = object_of(e);
    proof {
        assert(crate::json::entries_model(e@) =~= seq![
            ("action"@, JsonV::Str(action@)),
            ("id"@, field_or_null(opt_view(*args), id_field@)),
        ]);
    }
    Some(o)
}

/// If `name` is a deprecated tool alias, the current tool name and the
/// rewritten arguments to dispatch instead; `None` for any other name.
pub fn rewrite_deprecated(name: &str, args: Option<Json>) -> (r: Rewrite)
    ensures
        rewrite_view(r) == rewrite_s(name@, opt_view(args)),
{
    let n = chars_of(name);
    if chars_eq_str(&n, "ingest") || chars_eq_str(&n, "session_checkpoint") {
        return Some(("smart_ingest", args));
    }
    if chars_eq_str(&n, "recall") || chars_eq_str(&n, "semantic_search") || chars_eq_str(
        &n,
        "hybrid_search",
    ) {
        return Some(("search", args));
    }
    if chars_eq_str(&n, "health_check") || chars_eq_str(&n, "stats") {
        return Some(("system_status", args));
    }
    if chars_eq_str(&n, "promote_memory") {
        return Some(("memory", inject_action(args, "promote")));
    }
    if chars_eq_str(&n, "demote_memory") {
        return Some(("memory", inject_action(args, "demote")));
    }
    if chars_eq_str(&n, "remember_pattern") {
        return Some(("codebase", inject_action(args, "remember_pattern")));
    }
    if chars_eq_str(&n, "remember_decision") {
        return Some(("codebase", inject_action(args, "remember_decision")));
    }
    if chars_eq_str(&n, "get_codebase_context") {
        return Some(("codebase", inject_action(args, "get_context")));
    }
    if chars_eq_str(&n, "set_intention") {
        return Some(("intention", inject_action(args, "set")));
    }
    if chars_eq_str(&n, "check_intentions") {
        return Some(("intention", inject_action(args, "check")));
    }
    if chars_eq_str(&n, "get_knowledge") {
        return Some(("memory", action_with_id(&args, "get", "id")));
    }
    if chars_eq_str(&n, "delete_knowledge") {
        return Some(("memory", action_with_id(&args, "delete", "id")));
    }
    if chars_eq_str(&n, "get_memory_state") {
        return Some(("memory", action_with_id(&args, "state", "memory_id")));
    }
    if chars_eq_str(&n, "mark_reviewed") {
        return Some(("memory", inject_action(args, "review")));
    }
    if chars_eq_str(&n, "complete_intention") {
        let id = field_copy_or_null(&args, "intentionId");
        let mut e: Vec<(String, Json)> = Vec::new();
        push_entry(&mut e, "action", Json::from_str("update"));
        push_entry(&mut e, "id", id);
        push_entry(&mut e, "status", Json::from_str("complete"));
        let o = object_of(e);
        proof {
            assert(crate::json::entries_model(e@) =~= seq![
                ("action"@, JsonV::Str("update"@)),
                ("id"@, field_or_null(opt_view(args), "intentionId"@)),
                ("status"@, JsonV::Str("complete"@)),
            ]);
        }
        return Some(("intention", Some(o)));
    }
    if chars_eq_str(&n, "snooze_intention") {
        let id = field_copy_or_null(&args, "intentionId");
        let minutes = minutes_copy(&args);
        let mut e: Vec<(String, Json)> = Vec::new();
        push_entry(&mut e, "action", Json::from_str("update"));
        push_entry(&mut e, "id", id);
        push_entry(&mut e, "status", Json::from_str("snooze"));
        push_entry(&mut e, "snooze_minutes", minutes);
        let o = object_of(e);
        proof {
            assert(crate::json::entries_model(e@) =~= seq![
                ("action"@, JsonV::Str("update"@)),
                ("id"@, field_or_null(opt_view(args), "intentionId"@)),
                ("status"@, JsonV::Str("snooze"@)),
                ("snooze_minutes"@, minutes_or_default(opt_view(args))),
            ]);
        }
        return Some(("intention", Some(o)));
    }
    if chars_eq_str(&n, "list_intentions") {
        let new_args = match args {
            Some(mut a) => {
                a.insert("action", Json::from_str("list"));
                let status = match a.get("status") {
                    Some(st) => Some(st.deep_clone()),
                    None => None,
                };
                match status {
                    Some(st) => {
                        a.remove("status");
                        a.insert("filter_status", st);
                    },
                    None => {},
                }
                Some(a)
            },
            None => Some(single_entry("action", Json::from_str("list"))),
        };
        return Some(("intention", new_args));
    }
    None
}


proof fn lemma_smart_ingest_is_not_an_alias(a: Option<JsonV>)
    ensures
        rewrite_s("smart_ingest"@, a) is None,
{
    assert("smart_ingest"@ != "ingest"@) by {
        reveal_strlit("smart_ingest");
        reveal_strlit("ingest");
        assert("smart_ingest"@.len() != "ingest"@.len());
    }
    assert("smart_ingest"@ != "session_checkpoint"@) by {
        reveal_strlit("smart_ingest");
        reveal_strlit("session_checkpoint");
        assert("smart_ingest"@.len() != "session_checkpoint"@.len());
    }
    assert("smart_ingest"@ != "recall"@) by {
        reveal_strlit("smart_ingest");
        reveal_strlit("recall");
        assert("smart_ingest"@.len() != "recall"@.len());
    }
    assert("smart_ingest"@ != "semantic_search"@) by {
        reveal_strlit("smart_ingest");
        reveal_strlit("semantic_search");
        assert("smart_ingest"@.len() != "semantic_search"@.len());
    }
    assert("smart_ingest"@ != "hybrid_search"@) by {
        reveal_strlit("smart_ingest");
        reveal_strlit("hybrid_search");
        assert("smart_ingest"@.len() != "hybrid_search"@.len());
    }
    assert("smart_ingest"@ != "health_check"@) by {
        reveal_strlit("smart_ingest");
        reveal_strlit("health_check");
        assert("smart_ingest"@[0] != "health_check"@[0]);
    }
    assert("smart_ingest"@ != "stats"@) by {
        reveal_strlit("smart_ingest");
        reveal_strlit("stats");
        assert("smart_ingest"@.len() != "stats"@.len());
    }
    assert("smart_ingest"@ != "promote_memory"@) by {
        reveal_strlit("smart_ingest");
        reveal_strlit("promote_memory");
        assert("smart_ingest"@.len() != "promote_memory"@.len());
    }
    assert("smart_ingest"@ != "demote_memory"@) by {
        reveal_strlit("smart_ingest");
        reveal_strlit("demote_memory");
        assert("smart_ingest"@.len() != "demote_memory"@.len());
    }
    assert("smart_ingest"@ != "remember_pattern"@) by {
        reveal_strlit("smart_ingest");
        reveal_strlit("remember_pattern");
        assert("smart_ingest"@.len() != "remember_pattern"@.len());
    }
    assert("smart_ingest"@ != "remember_decision"@) by {
        reveal_strlit("smart_ingest");
        reveal_strlit("remember_decision");
        assert("smart_ingest"@.len() != "remember_decision"@.len());
    }
    assert("smart_ingest"@ != "get_codebase_context"@) by {
        reveal_strlit("smart_ingest");
        reveal_strlit("get_codebase_context");
        assert("smart_ingest"@.len() != "get_codebase_context"@.len());
    }
    assert("smart_ingest"@ != "set_intention"@) by {
        reveal_strlit("smart_ingest");
        reveal_strlit("set_intention");
        assert("smart_ingest"@.len() != "set_intention"@.len());
    }
    assert("smart_ingest"@ != "check_intentions"@) by {
        reveal_strlit("smart_ingest");
        reveal_strlit("check_intentions");
        assert("smart_ingest"@.len() != "check_intentions"@.len());
    }
    assert("smart_ingest"@ != "get_knowledge"@) by {
        reveal_strlit("smart_ingest");
        reveal_strlit("get_knowledge");
        assert("smart_ingest"@.len() != "get_knowledge"@.len());
    }
    assert("smart_ingest"@ != "delete_knowledge"@) by {
        reveal_strlit("smart_ingest");
        reveal_strlit("delete_knowledge");
        assert("smart_ingest"@.len() != "delete_knowledge"@.len());
    }
    assert("smart_ingest"@ != "get_memory_state"@) by {
        reveal_strlit("smart_ingest");
        reveal_strlit("get_memory_state");
        assert("smart_ingest"@.len() != "get_memory_state"@.len());
    }
    assert("smart_ingest"@ != "mark_reviewed"@) by {
        reveal_strlit("smart_ingest");
        reveal_strlit("mark_reviewed");
        assert("smart_ingest"@.len() != "mark_reviewed"@.len());
    }
    assert("smart_ingest"@ != "complete_intention"@) by {
        reveal_strlit("smart_ingest");
        reveal_strlit("complete_intention");
        assert("smart_ingest"@.len() != "complete_intention"@.len());
    }
    assert("smart_ingest"@ != "snooze_intention"@) by {
        reveal_strlit("smart_ingest");
        reveal_strlit("snooze_intention");
        assert("smart_ingest"@.len() != "snooze_intention"@.len());
    }
    assert("smart_ingest"@ != "list_intentions"@) by {
        reveal_strlit("smart_ingest");
        reveal_strlit("list_intentions");
        assert("smart_ingest"@.len() != "list_intentions"@.len());
    }
}

proof fn lemma_search_is_not_an_alias(a: Option<JsonV>)
    ensures
        rewrite_s("search"@, a) is None,
{
    assert("search"@ != "ingest"@) by {
        reveal_strlit("search");
        reveal_strlit("ingest");
        assert("search"@[0] != "ingest"@[0]);
    }
    assert("search"@ != "session_checkpoint"@) by {
        reveal_strlit("search");
        reveal_strlit("session_checkpoint");
        assert("search"@.len() != "session_checkpoint"@.len());
    }
    assert("search"@ != "recall"@) by {
        reveal_strlit("search");
        reveal_strlit("recall");
        assert("search"@[0] != "recall"@[0]);
    }
    assert("search"@ != "semantic_search"@) by {
        reveal_strlit("search");
        reveal_strlit("semantic_search");
        assert("search"@.len() != "semantic_search"@.len());
    }
    assert("search"@ != "hybrid_search"@) by {
        reveal_strlit("search");
        reveal_strlit("hybrid_search");
        assert("search"@.len() != "hybrid_search"@.len());
    }
    assert("search"@ != "health_check"@) by {
        reveal_strlit("search");
        reveal_strlit("health_check");
        assert("search"@.len() != "health_check"@.len());
    }
    assert("search"@ != "stats"@) by {
        reveal_strlit("search");
        reveal_strlit("stats");
        assert("search"@.len() != "stats"@.len());
    }
    assert("search"@ != "promote_memory"@) by {
        reveal_strlit("search");
        reveal_strlit("promote_memory");
        assert("search"@.len() != "promote_memory"@.len());
    }
    assert("search"@ != "demote_memory"@) by {
        reveal_strlit("search");
        reveal_strlit("demote_memory");
        assert("search"@.len() != "demote_memory"@.len());
    }
    assert("search"@ != "remember_pattern"@) by {
        reveal_strlit("search");
        reveal_strlit("remember_pattern");
        assert("search"@.len() != "remember_pattern"@.len());
    }
    assert("search"@ != "remember_decision"@) by {
        reveal_strlit("search");
        reveal_strlit("remember_decision");
        assert("search"@.len() != "remember_decision"@.len());
    }
    assert("search"@ != "get_codebase_context"@) by {
        reveal_strlit("search");
        reveal_strlit("get_codebase_context");
        assert("search"@.len() != "get_codebase_context"@.len());
    }
    assert("search"@ != "set_intention"@) by {
        reveal_strlit("search");
        reveal_strlit("set_intention");
        assert("search"@.len() != "set_intention"@.len());
    }
    assert("search"@ != "check_intentions"@) by {
        reveal_strlit("search");
        reveal_strlit("check_intentions");
        assert("search"@.len() != "check_intentions"@.len());
    }
    assert("search"@ != "get_knowledge"@) by {
        reveal_strlit("search");
        reveal_strlit("get_knowledge");
        assert("search"@.len() != "get_knowledge"@.len());
    }
    assert("search"@ != "delete_knowledge"@) by {
        reveal_strlit("search");
        reveal_strlit("delete_knowledge");
        assert("search"@.len() != "delete_knowledge"@.len());
    }
    assert("search"@ != "get_memory_state"@) by {
        reveal_strlit("search");
        reveal_strlit("get_memory_state");
        assert("search"@.len() != "get_memory_state"@.len());
    }
    assert("search"@ != "mark_reviewed"@) by {
        reveal_strlit("search");
        reveal_strlit("mark_reviewed");
        assert("search"@.len() != "mark_reviewed"@.len());
    }
    assert("search"@ != "complete_intention"@) by {
        reveal_strlit("search");
        reveal_strlit("complete_intention");
        assert("search"@.len() != "complete_intention"@.len());
    }
    assert("search"@ != "snooze_intention"@) by {
        reveal_strlit("search");
        reveal_strlit("snooze_intention");
        assert("search"@.len() != "snooze_intention"@.len());
    }
    assert("search"@ != "list_intentions"@) by {
        reveal_strlit("search");
        reveal_strlit("list_intentions");
        assert("search"@.len() != "list_intentions"@.len());
    }
}

proof fn lemma_system_status_is_not_an_alias(a: Option<JsonV>)
    ensures
        rewrite_s("system_status"@, a) is None,
{
    assert("system_status"@ != "ingest"@) by {
        reveal_strlit("system_status");
        reveal_strlit("ingest");
        assert("system_status"@.len() != "ingest"@.len());
    }
    assert("system_status"@ != "session_checkpoint"@) by {
        reveal_strlit("system_status");
        reveal_strlit("session_checkpoint");
        assert("system_status"@.len() != "session_checkpoint"@.len());
    }
    assert("system_status"@ != "recall"@) by {
        reveal_strlit("system_status");
        reveal_strlit("recall");
        assert("system_status"@.len() != "recall"@.len());
    }
    assert("system_status"@ != "semantic_search"@) by {
        reveal_strlit("system_status");
        reveal_strlit("semantic_search");
        assert("system_status"@.len() != "semantic_search"@.len());
    }
    assert("system_status"@ != "hybrid_search"@) by {
        reveal_strlit("system_status");
        reveal_strlit("hybrid_search");
        assert("system_status"@[0] != "hybrid_search"@[0]);
    }
    assert("system_status"@ != "health_check"@) by {
        reveal_strlit("system_status");
        reveal_strlit("health_check");
        assert("system_status"@.len() != "health_check"@.len());
    }
    assert("system_status"@ != "stats"@) by {
        reveal_strlit("system_status");
        reveal_strlit("stats");
        assert("system_status"@.len() != "stats"@.len());
    }
    assert("system_status"@ != "promote_memory"@) by {
        reveal_strlit("system_status");
        reveal_strlit("promote_memory");
        assert("system_status"@.len() != "promote_memory"@.len());
    }
    assert("system_status"@ != "demote_memory"@) by {
        reveal_strlit("system_status");
        reveal_strlit("demote_memory");
        assert("system_status"@[0] != "demote_memory"@[0]);
    }
    assert("system_status"@ != "remember_pattern"@) by {
        reveal_strlit("system_status");
        reveal_strlit("remember_pattern");
        assert("system_status"@.len() != "remember_pattern"@.len());
    }
    assert("system_status"@ != "remember_decision"@) by {
        reveal_strlit("system_status");
        reveal_strlit("remember_decision");
        assert("system_status"@.len() != "remember_decision"@.len());
    }
    assert("system_status"@ != "get_codebase_context"@) by {
        reveal_strlit("system_status");
        reveal_strlit("get_codebase_context");
        assert("system_status"@.len() != "get_codebase_context"@.len());
    }
    assert("system_status"@ != "set_intention"@) by {
        reveal_strlit("system_status");
        reveal_strlit("set_intention");
        assert("system_status"@[1] != "set_intention"@[1]);
    }
    assert("system_status"@ != "check_intentions"@) by {
        reveal_strlit("system_status");
        reveal_strlit("check_intentions");
        assert("system_status"@.len() != "check_intentions"@.len());
    }
    assert("system_status"@ != "get_knowledge"@) by {
        reveal_strlit("system_status");
        reveal_strlit("get_knowledge");
        assert("system_status"@[0] != "get_knowledge"@[0]);
    }
    assert("system_status"@ != "delete_knowledge"@) by {
        reveal_strlit("system_status");
        reveal_strlit("delete_knowledge");
        assert("system_status"@.len() != "delete_knowledge"@.len());
    }
    assert("system_status"@ != "get_memory_state"@) by {
        reveal_strlit("system_status");
        reveal_strlit("get_memory_state");
        assert("system_status"@.len() != "get_memory_state"@.len());
    }
    assert("system_status"@ != "mark_reviewed"@) by {
        reveal_strlit("system_status");
        reveal_strlit("mark_reviewed");
        assert("system_status"@[0] != "mark_reviewed"@[0]);
    }
    assert("system_status"@ != "complete_intention"@) by {
        reveal_strlit("system_status");
        reveal_strlit("complete_intention");
        assert("system_status"@.len() != "complete_intention"@.len());
    }
    assert("system_status"@ != "snooze_intention"@) by {
        reveal_strlit("system_status");
        reveal_strlit("snooze_intention");
        assert("system_status"@.len() != "snooze_intention"@.len());
    }
    assert("system_status"@ != "list_intentions"@) by {
        reveal_strlit("system_status");
        reveal_strlit("list_intentions");
        assert("system_status"@.len() != "list_intentions"@.len());
    }
}

proof fn lemma_memory_is_not_an_alias(a: Option<JsonV>)
    ensures
        rewrite_s("memory"@, a) is None,
{
    assert("memory"@ != "ingest"@) by {
        reveal_strlit("memory");
        reveal_strlit("ingest");
        assert("memory"@[0] != "ingest"@[0]);
    }
    assert("memory"@ != "session_checkpoint"@) by {
        reveal_strlit("memory");
        reveal_strlit("session_checkpoint");
        assert("memory"@.len() != "session_checkpoint"@.len());
    }
    assert("memory"@ != "recall"@) by {
        reveal_strlit("memory");
        reveal_strlit("recall");
        assert("memory"@[0] != "recall"@[0]);
    }
    assert("memory"@ != "semantic_search"@) by {
        reveal_strlit("memory");
        reveal_strlit("semantic_search");
        assert("memory"@.len() != "semantic_search"@.len());
    }
    assert("memory"@ != "hybrid_search"@) by {
        reveal_strlit("memory");
        reveal_strlit("hybrid_search");
        assert("memory"@.len() != "hybrid_search"@.len());
    }
    assert("memory"@ != "health_check"@) by {
        reveal_strlit("memory");
        reveal_strlit("health_check");
        assert("memory"@.len() != "health_check"@.len());
    }
    assert("memory"@ != "stats"@) by {
        reveal_strlit("memory");
        reveal_strlit("stats");
        assert("memory"@.len() != "stats"@.len());
    }
    assert("memory"@ != "promote_memory"@) by {
        reveal_strlit("memory");
        reveal_strlit("promote_memory");
        assert("memory"@.len() != "promote_memory"@.len());
    }
    assert("memory"@ != "demote_memory"@) by {
        reveal_strlit("memory");
        reveal_strlit("demote_memory");
        assert("memory"@.len() != "demote_memory"@.len());
    }
    assert("memory"@ != "remember_pattern"@) by {
        reveal_strlit("memory");
        reveal_strlit("remember_pattern");
        assert("memory"@.len() != "remember_pattern"@.len());
    }
    assert("memory"@ != "remember_decision"@) by {
        reveal_strlit("memory");
        reveal_strlit("remember_decision");
        assert("memory"@.len() != "remember_decision"@.len());
    }
    assert("memory"@ != "get_codebase_context"@) by {
        reveal_strlit("memory");
        reveal_strlit("get_codebase_context");
        assert("memory"@.len() != "get_codebase_context"@.len());
    }
    assert("memory"@ != "set_intention"@) by {
        reveal_strlit("memory");
        reveal_strlit("set_intention");
        assert("memory"@.len() != "set_intention"@.len());
    }
    assert("memory"@ != "check_intentions"@) by {
        reveal_strlit("memory");
        reveal_strlit("check_intentions");
        assert("memory"@.len() != "check_intentions"@.len());
    }
    assert("memory"@ != "get_knowledge"@) by {
        reveal_strlit("memory");
        reveal_strlit("get_knowledge");
        assert("memory"@.len() != "get_knowledge"@.len());
    }
    assert("memory"@ != "delete_knowledge"@) by {
        reveal_strlit("memory");
        reveal_strlit("delete_knowledge");
        assert("memory"@.len() != "delete_knowledge"@.len());
    }
    assert("memory"@ != "get_memory_state"@) by {
        reveal_strlit("memory");
        reveal_strlit("get_memory_state");
        assert("memory"@.len() != "get_memory_state"@.len());
    }
    assert("memory"@ != "mark_reviewed"@) by {
        reveal_strlit("memory");
        reveal_strlit("mark_reviewed");
        assert("memory"@.len() != "mark_reviewed"@.len());
    }
    assert("memory"@ != "complete_intention"@) by {
        reveal_strlit("memory");
        reveal_strlit("complete_intention");
        assert("memory"@.len() != "complete_intention"@.len());
    }
    assert("memory"@ != "snooze_intention"@) by {
        reveal_strlit("memory");
        reveal_strlit("snooze_intention");
        assert("memory"@.len() != "snooze_intention"@.len());
    }
    assert("memory"@ != "list_intentions"@) by {
        reveal_strlit("memory");
        reveal_strlit("list_intentions");
        assert("memory"@.len() != "list_intentions"@.len());
    }
}

proof fn lemma_codebase_is_not_an_alias(a: Option<JsonV>)
    ensures
        rewrite_s("codebase"@, a) is None,
{
    assert("codebase"@ != "ingest"@) by {
        reveal_strlit("codebase");
        reveal_strlit("ingest");
        assert("codebase"@.len() != "ingest"@.len());
    }
    assert("codebase"@ != "session_checkpoint"@) by {
        reveal_strlit("codebase");
        reveal_strlit("session_checkpoint");
        assert("codebase"@.len() != "session_checkpoint"@.len());
    }
    assert("codebase"@ != "recall"@) by {
        reveal_strlit("codebase");
        reveal_strlit("recall");
        assert("codebase"@.len() != "recall"@.len());
    }
    assert("codebase"@ != "semantic_search"@) by {
        reveal_strlit("codebase");
        reveal_strlit("semantic_search");
        assert("codebase"@.len() != "semantic_search"@.len());
    }
    assert("codebase"@ != "hybrid_search"@) by {
        reveal_strlit("codebase");
        reveal_strlit("hybrid_search");
        assert("codebase"@.len() != "hybrid_search"@.len());
    }
    assert("codebase"@ != "health_check"@) by {
        reveal_strlit("codebase");
        reveal_strlit("health_check");
        assert("codebase"@.len() != "health_check"@.len());
    }
    assert("codebase"@ != "stats"@) by {
        reveal_strlit("codebase");
        reveal_strlit("stats");
        assert("codebase"@.len() != "stats"@.len());
    }
    assert("codebase"@ != "promote_memory"@) by {
        reveal_strlit("codebase");
        reveal_strlit("promote_memory");
        assert("codebase"@.len() != "promote_memory"@.len());
    }
    assert("codebase"@ != "demote_memory"@) by {
        reveal_strlit("codebase");
        reveal_strlit("demote_memory");
        assert("codebase"@.len() != "demote_memory"@.len());
    }
    assert("codebase"@ != "remember_pattern"@) by {
        reveal_strlit("codebase");
        reveal_strlit("remember_pattern");
        assert("codebase"@.len() != "remember_pattern"@.len());
    }
    assert("codebase"@ != "remember_decision"@) by {
        reveal_strlit("codebase");
        reveal_strlit("remember_decision");
        assert("codebase"@.len() != "remember_decision"@.len());
    }
    assert("codebase"@ != "get_codebase_context"@) by {
        reveal_strlit("codebase");
        reveal_strlit("get_codebase_context");
        assert("codebase"@.len() != "get_codebase_context"@.len());
    }
    assert("codebase"@ != "set_intention"@) by {
        reveal_strlit("codebase");
        reveal_strlit("set_intention");
        assert("codebase"@.len() != "set_intention"@.len());
    }
    assert("codebase"@ != "check_intentions"@) by {
        reveal_strlit("codebase");
        reveal_strlit("check_intentions");
        assert("codebase"@.len() != "check_intentions"@.len());
    }
    assert("codebase"@ != "get_knowledge"@) by {
        reveal_strlit("codebase");
        reveal_strlit("get_knowledge");
        assert("codebase"@.len() != "get_knowledge"@.len());
    }
    assert("codebase"@ != "delete_knowledge"@) by {
        reveal_strlit("codebase");
        reveal_strlit("delete_knowledge");
        assert("codebase"@.len() != "delete_knowledge"@.len());
    }
    assert("codebase"@ != "get_memory_state"@) by {
        reveal_strlit("codebase");
        reveal_strlit("get_memory_state");
        assert("codebase"@.len() != "get_memory_state"@.len());
    }
    assert("codebase"@ != "mark_reviewed"@) by {
        reveal_strlit("codebase");
        reveal_strlit("mark_reviewed");
        assert("codebase"@.len() != "mark_reviewed"@.len());
    }
    assert("codebase"@ != "complete_intention"@) by {
        reveal_strlit("codebase");
        reveal_strlit("complete_intention");
        assert("codebase"@.len() != "complete_intention"@.len());
    }
    assert("codebase"@ != "snooze_intention"@) by {
        reveal_strlit("codebase");
        reveal_strlit("snooze_intention");
        assert("codebase"@.len() != "snooze_intention"@.len());
    }
    assert("codebase"@ != "list_intentions"@) by {
        reveal_strlit("codebase");
        reveal_strlit("list_intentions");
        assert("codebase"@.len() != "list_intentions"@.len());
    }
}

proof fn lemma_intention_is_not_an_alias(a: Option<JsonV>)
    ensures
        rewrite_s("intention"@, a) is None,
{
    assert("intention"@ != "ingest"@) by {
        reveal_strlit("intention");
        reveal_strlit("ingest");
        assert("intention"@.len() != "ingest"@.len());
    }
    assert("intention"@ != "session_checkpoint"@) by {
        reveal_strlit("intention");
        reveal_strlit("session_checkpoint");
        assert("intention"@.len() != "session_checkpoint"@.len());
    }
    assert("intention"@ != "recall"@) by {
        reveal_strlit("intention");
        reveal_strlit("recall");
        assert("intention"@.len() != "recall"@.len());
    }
    assert("intention"@ != "semantic_search"@) by {
        reveal_strlit("intention");
        reveal_strlit("semantic_search");
        assert("intention"@.len() != "semantic_search"@.len());
    }
    assert("intention"@ != "hybrid_search"@) by {
        reveal_strlit("intention");
        reveal_strlit("hybrid_search");
        assert("intention"@.len() != "hybrid_search"@.len());
    }
    assert("intention"@ != "health_check"@) by {
        reveal_strlit("intention");
        reveal_strlit("health_check");
        assert("intention"@.len() != "health_check"@.len());
    }
    assert("intention"@ != "stats"@) by {
        reveal_strlit("intention");
        reveal_strlit("stats");
        assert("intention"@.len() != "stats"@.len());
    }
    assert("intention"@ != "promote_memory"@) by {
        reveal_strlit("intention");
        reveal_strlit("promote_memory");
        assert("intention"@.len() != "promote_memory"@.len());
    }
    assert("intention"@ != "demote_memory"@) by {
        reveal_strlit("intention");
        reveal_strlit("demote_memory");
        assert("intention"@.len() != "demote_memory"@.len());
    }
    assert("intention"@ != "remember_pattern"@) by {
        reveal_strlit("intention");
        reveal_strlit("remember_pattern");
        assert("intention"@.len() != "remember_pattern"@.len());
    }
    assert("intention"@ != "remember_decision"@) by {
        reveal_strlit("intention");
        reveal_strlit("remember_decision");
        assert("intention"@.len() != "remember_decision"@.len());
    }
    assert("intention"@ != "get_codebase_context"@) by {
        reveal_strlit("intention");
        reveal_strlit("get_codebase_context");
        assert("intention"@.len() != "get_codebase_context"@.len());
    }
    assert("intention"@ != "set_intention"@) by {
        reveal_strlit("intention");
        reveal_strlit("set_intention");
        assert("intention"@.len() != "set_intention"@.len());
    }
    assert("intention"@ != "check_intentions"@) by {
        reveal_strlit("intention");
        reveal_strlit("check_intentions");
        assert("intention"@.len() != "check_intentions"@.len());
    }
    assert("intention"@ != "get_knowledge"@) by {
        reveal_strlit("intention");
        reveal_strlit("get_knowledge");
        assert("intention"@.len() != "get_knowledge"@.len());
    }
    assert("intention"@ != "delete_knowledge"@) by {
        reveal_strlit("intention");
        reveal_strlit("delete_knowledge");
        assert("intention"@.len() != "delete_knowledge"@.len());
    }
    assert("intention"@ != "get_memory_state"@) by {
        reveal_strlit("intention");
        reveal_strlit("get_memory_state");
        assert("intention"@.len() != "get_memory_state"@.len());
    }
    assert("intention"@ != "mark_reviewed"@) by {
        reveal_strlit("intention");
        reveal_strlit("mark_reviewed");
        assert("intention"@.len() != "mark_reviewed"@.len());
    }
    assert("intention"@ != "complete_intention"@) by {
        reveal_strlit("intention");
        reveal_strlit("complete_intention");
        assert("intention"@.len() != "complete_intention"@.len());
    }
    assert("intention"@ != "snooze_intention"@) by {
        reveal_strlit("intention");
        reveal_strlit("snooze_intention");
        assert("intention"@.len() != "snooze_intention"@.len());
    }
    assert("intention"@ != "list_intentions"@) by {
        reveal_strlit("intention");
        reveal_strlit("list_intentions");
        assert("intention"@.len() != "list_intentions"@.len());
    }
}

/// None of the current tool names is a deprecated alias.
pub proof fn lemma_current_names_are_not_aliases(a: Option<JsonV>)
    ensures
        rewrite_s("smart_ingest"@, a) is None,
        rewrite_s("search"@, a) is None,
        rewrite_s("system_status"@, a) is None,
        rewrite_s("memory"@, a) is None,
        rewrite_s("codebase"@, a) is None,
        rewrite_s("intention"@, a) is None,
{
    lemma_smart_ingest_is_not_an_alias(a);
    lemma_search_is_not_an_alias(a);
    lemma_system_status_is_not_an_alias(a);
    lemma_memory_is_not_an_alias(a);
    lemma_codebase_is_not_an_alias(a);
    lemma_intention_is_not_an_alias(a);
}

/// Law: a rewrite is final. The tool a deprecated name is rewritten to is
/// never itself a deprecated name, so one lookup always reaches a current tool.
pub proof fn law_rewrite_reaches_a_current_tool(
    name: Seq<char>,
    args: Option<JsonV>,
    other_args: Option<JsonV>,
)
    ensures
        rewrite_s(name, args) matches Some((target, _)) ==> rewrite_s(target, other_args) is None,
{
    lemma_current_names_are_not_aliases(other_args);
}

/// Law: an action-injecting alias sets `action` and leaves every other
/// argument of an object as it was.
pub proof fn law_inject_action_keeps_other_arguments(
    args: JsonV,
    action: Seq<char>,
    other: Seq<char>,
)
    requires
        args is Object,
    ensures
        get_field(inject_action_s(Some(args), action)->0, "action"@) == Some(JsonV::Str(action)),
        other != "action"@ ==> get_field(inject_action_s(Some(args), action)->0, other)
            == get_field(args, other),
{
    crate::json::lemma_get_inserted(args, "action"@, JsonV::Str(action), other);
}

/// Law: `list_intentions` moves `status` to `filter_status`: afterwards the
/// action is `list`, `filter_status` holds the old status, and no `status`
/// entry is left.
pub proof fn law_list_intentions_moves_status(args: JsonV)
    requires
        args is Object,
    ensures
        ({
            let out = list_intentions_s(Some(args))->0;
            &&& get_field(out, "action"@) == Some(JsonV::Str("list"@))
            &&& get_field(out, "filter_status"@) == get_field(args, "status"@) || (get_field(
                args,
                "status"@,
            ) is None && get_field(out, "filter_status"@) == get_field(args, "filter_status"@))
            &&& get_field(args, "status"@) is Some ==> get_field(out, "status"@) is None
        }),
{
    reveal_strlit("action");
    reveal_strlit("status");
    reveal_strlit("filter_status");
    assert("status"@[0] != "action"@[0]);
    let a1 = inserted(args, "action"@, JsonV::Str("list"@));
    crate::json::lemma_get_inserted(args, "action"@, JsonV::Str("list"@), "status"@);
    crate::json::lemma_get_inserted(args, "action"@, JsonV::Str("list"@), "filter_status"@);
    match get_field(a1, "status"@) {
        Some(st) => {
            let r = removed(a1, "status"@);
            lemma_removed_get(a1, "status"@, "action"@);
            lemma_removed_get(a1, "status"@, "status"@);
            crate::json::lemma_get_inserted(r, "filter_status"@, st, "action"@);
            crate::json::lemma_get_inserted(r, "filter_status"@, st, "status"@);
        },
        None => {},
    }
}

/// Reading a key after removing a key: the removed key is absent, other keys
/// read as before.
pub proof fn lemma_removed_get(j: JsonV, key: Seq<char>, other: Seq<char>)
    requires
        j is Object,
    ensures
        get_field(removed(j, key), key) is None,
        other != key ==> get_field(removed(j, key), other) == get_field(j, other),
{
    lemma_without_key(j->Object_0, key, other);
}

pub open spec fn value_of(entries: Seq<(Seq<char>, JsonV)>, k: Seq<char>) -> Option<JsonV> {
    match crate::json::entry_index(entries, k) {
        Some(i) => Some(entries[i].1),
        None => None,
    }
}

proof fn lemma_value_of_push(s: Seq<(Seq<char>, JsonV)>, x: (Seq<char>, JsonV), k: Seq<char>)
    ensures
        value_of(s.push(x), k) == match value_of(s, k) {
            Some(v) => Some(v),
            None => if x.0 == k {
                Some(x.1)
            } else {
                None
            },
        },
{
    let t = s.push(x);
    crate::json::lemma_entry_index_found(s, k);
    match crate::json::entry_index(s, k) {
        Some(i) => {
            crate::json::lemma_entry_index_is(t, k, i);
        },
        None => {
            if x.0 == k {
                crate::json::lemma_entry_index_is(t, k, s.len() as int);
            } else {
                crate::json::lemma_entry_index_absent(t, k);
            }
        },
    }
}

proof fn lemma_without_key(entries: Seq<(Seq<char>, JsonV)>, key: Seq<char>, other: Seq<char>)
    ensures
        value_of(crate::json::without_key(entries, key), key) is None,
        other != key ==> value_of(crate::json::without_key(entries, key), other) == value_of(
            entries,
            other,
        ),
    decreases entries.len(),
{
    let wk = crate::json::without_key(entries, key);
    if entries.len() == 0 {
        crate::json::lemma_entry_index_absent(wk, key);
        crate::json::lemma_entry_index_absent(wk, other);
        crate::json::lemma_entry_index_absent(entries, other);
    } else {
        let e1 = entries.drop_last();
        let last = entries.last();
        assert(entries =~= e1.push(last));
        lemma_without_key(e1, key, other);
        lemma_value_of_push(e1, last, other);
        if last.0 == key {
        } else {
            lemma_value_of_push(crate::json::without_key(e1, key), last, key);
            lemma_value_of_push(crate::json::without_key(e1, key), last, other);
        }
    }
}

/// A `<verb>_memory` alias is a `memory` call whose injected action is the
/// verb its name says: `promote_memory` promotes and `demote_memory` demotes,
/// whatever the other arguments are.
pub proof fn law_memory_aliases_inject_their_verb(verb: Seq<char>, args: Option<JsonV>)
    ensures
        rewrite_s(verb + "_memory"@, args) is Some ==> rewrite_s(verb + "_memory"@, args) == Some(
            ("memory"@, inject_action_s(args, verb)),
        ),
        rewrite_s("promote"@ + "_memory"@, args) is Some,
        rewrite_s("demote"@ + "_memory"@, args) is Some,
{
    reveal_strlit("check_intentions");
    reveal_strlit("complete_intention");
    reveal_strlit("delete_knowledge");
    reveal_strlit("demote_memory");
    reveal_strlit("get_codebase_context");
    reveal_strlit("get_knowledge");
    reveal_strlit("get_memory_state");
    reveal_strlit("health_check");
    reveal_strlit("hybrid_search");
    reveal_strlit("ingest");
    reveal_strlit("list_intentions");
    reveal_strlit("mark_reviewed");
    reveal_strlit("promote_memory");
    reveal_strlit("recall");
    reveal_strlit("remember_decision");
    reveal_strlit("remember_pattern");
    reveal_strlit("semantic_search");
    reveal_strlit("session_checkpoint");
    reveal_strlit("set_intention");
    reveal_strlit("snooze_intention");
    reveal_strlit("stats");
    reveal_strlit("_memory");
    reveal_strlit("promote");
    reveal_strlit("demote");
    assert("promote"@ + "_memory"@ =~= "promote_memory"@);
    assert("demote"@ + "_memory"@ =~= "demote_memory"@);
    let x = verb + "_memory"@;
    assert(x.last() == 'y');
    if x == "promote_memory"@ {
        assert(verb.len() == 7);
        assert(verb =~= x.subrange(0, 7));
        assert(verb =~= "promote"@);
    }
    if x == "demote_memory"@ {
        assert(verb.len() == 6);
        assert(verb =~= x.subrange(0, 6));
        assert(verb =~= "demote"@);
    }
}

/// A `<verb>_knowledge` alias is a `memory` call with that verb as its
/// action and the `id` argument carried over; a `remember_<what>` alias is a
/// `codebase` call whose action is its own name.
pub proof fn law_knowledge_and_remember_aliases(verb: Seq<char>, what: Seq<char>, args: Option<JsonV>)
    ensures
        rewrite_s(verb + "_knowledge"@, args) is Some ==> rewrite_s(verb + "_knowledge"@, args) == Some(
            ("memory"@, action_with_id_s(args, verb, "id"@)),
        ),
        rewrite_s("remember_"@ + what, args) is Some ==> rewrite_s("remember_"@ + what, args) == Some(
            ("codebase"@, inject_action_s(args, "remember_"@ + what)),
        ),
{
    reveal_strlit("check_intentions");
    reveal_strlit("complete_intention");
    reveal_strlit("delete_knowledge");
    reveal_strlit("demote_memory");
    reveal_strlit("get_codebase_context");
    reveal_strlit("get_knowledge");
    reveal_strlit("get_memory_state");
    reveal_strlit("health_check");
    reveal_strlit("hybrid_search");
    reveal_strlit("ingest");
    reveal_strlit("list_intentions");
    reveal_strlit("mark_reviewed");
    reveal_strlit("promote_memory");
    reveal_strlit("recall");
    reveal_strlit("remember_decision");
    reveal_strlit("remember_pattern");
    reveal_strlit("semantic_search");
    reveal_strlit("session_checkpoint");
    reveal_strlit("set_intention");
    reveal_strlit("snooze_intention");
    reveal_strlit("stats");
    reveal_strlit("_knowledge");
    reveal_strlit("remember_");
    reveal_strlit("get");
    reveal_strlit("delete");
    let x = verb + "_knowledge"@;
    assert(x.last() == 'e' && x[x.len() - 2] == 'g');
    if x == "get_knowledge"@ {
        assert(verb =~= x.subrange(0, 3));
        assert(verb =~= "get"@);
    }
    if x == "delete_knowledge"@ {
        assert(verb =~= x.subrange(0, 6));
        assert(verb =~= "delete"@);
    }
    let y = "remember_"@ + what;
    assert(y[0] == 'r' && y[1] == 'e' && y[2] == 'm');
}

} // verus!
