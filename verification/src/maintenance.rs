//! The maintenance tools (`system_status`, `consolidate`, `backup`, `export`,
//! `gc`, `regenerate_embeddings`, `split_memories`): their argument schemas,
//! the confirmation they ask of a destructive run, the filters they apply,
//! and the reports they write.
//!
//! The store, the clock and the file system belong to the caller; so do the
//! retention strengths, which are floating-point: where a rule compares one,
//! the caller hands in the outcome of the comparison.

use vstd::prelude::*;
use crate::json::{array, entries_model, keys_of, new_entries, object, push_entry, Json};
use crate::schema::{declared_args, names_of, required_args, schema_shape, ToolSchema};
use crate::confirm::{confirmed_s, is_confirmed, missing_confirmation_error, refusal_text};
use crate::json::{count_v, strs_model, JsonV};
use crate::compound::compound_reason_s;
use crate::text::{
    chars_eq_str, chars_of, contains_s, contains_text, copy_range, decimal, decimal_s, owned,
    push_chars, push_str, string_of, utf8_len,
};

verus! {

broadcast use vstd::string::group_string_axioms;

/// The argument schema of `system_status`, as published.
pub open spec fn system_status_schema_spec() -> JsonV {
    JsonV::Object(seq![
        ("type"@, JsonV::Str("object"@)),
        ("properties"@, JsonV::Object(Seq::<(Seq<char>, JsonV)>::empty())),
    ])
}

/// The arguments of `system_status`: it takes none.
pub fn system_status_schema() -> (r: Json)
    ensures
        r@ == system_status_schema_spec(),
        schema_shape(r@),
        declared_args(r@) == Seq::<Seq<char>>::empty(),
        required_args(r@) == Seq::<Seq<char>>::empty(),
{
    let mut props = new_entries();
    let mut required: Vec<String> = Vec::new();
    let extra = new_entries();
    proof {
        assert(keys_of(entries_model(props@)) =~= Seq::<Seq<char>>::empty());
        assert(names_of(required@) =~= Seq::<Seq<char>>::empty());
    }
    let s = ToolSchema { properties: props, required, extra };
    proof {
        assert(crate::json::entries_model(s.properties@) =~= Seq::<(Seq<char>, JsonV)>::empty());
        assert(s.json_v()->Object_0 =~= system_status_schema_spec()->Object_0);
    }
    s.publish()
}


/// The argument schema of `consolidate`, as published.
pub open spec fn consolidate_schema_spec() -> JsonV {
    JsonV::Object(seq![
        ("type"@, JsonV::Str("object"@)),
        ("properties"@, JsonV::Object(Seq::<(Seq<char>, JsonV)>::empty())),
    ])
}

/// The arguments of `consolidate`: it takes none.
pub fn consolidate_schema() -> (r: Json)
    ensures
        r@ == consolidate_schema_spec(),
        schema_shape(r@),
        declared_args(r@) == Seq::<Seq<char>>::empty(),
        required_args(r@) == Seq::<Seq<char>>::empty(),
{
    let mut props = new_entries();
    let mut required: Vec<String> = Vec::new();
    let extra = new_entries();
    proof {
        assert(keys_of(entries_model(props@)) =~= Seq::<Seq<char>>::empty());
        assert(names_of(required@) =~= Seq::<Seq<char>>::empty());
    }
    let s = ToolSchema { properties: props, required, extra };
    proof {
        assert(crate::json::entries_model(s.properties@) =~= Seq::<(Seq<char>, JsonV)>::empty());
        assert(s.json_v()->Object_0 =~= consolidate_schema_spec()->Object_0);
    }
    s.publish()
}


/// The argument schema of `backup`, as published.
pub open spec fn backup_schema_spec() -> JsonV {
    JsonV::Object(seq![
        ("type"@, JsonV::Str("object"@)),
        ("properties"@, JsonV::Object(Seq::<(Seq<char>, JsonV)>::empty())),
    ])
}

/// The arguments of `backup`: it takes none.
pub fn backup_schema() -> (r: Json)
    ensures
        r@ == backup_schema_spec(),
        schema_shape(r@),
        declared_args(r@) == Seq::<Seq<char>>::empty(),
        required_args(r@) == Seq::<Seq<char>>::empty(),
{
    let mut props = new_entries();
    let mut required: Vec<String> = Vec::new();
    let extra = new_entries();
    proof {
        assert(keys_of(entries_model(props@)) =~= Seq::<Seq<char>>::empty());
        assert(names_of(required@) =~= Seq::<Seq<char>>::empty());
    }
    let s = ToolSchema { properties: props, required, extra };
    proof {
        assert(crate::json::entries_model(s.properties@) =~= Seq::<(Seq<char>, JsonV)>::empty());
        assert(s.json_v()->Object_0 =~= backup_schema_spec()->Object_0);
    }
    s.publish()
}


/// The argument schema of `export`, as published.
pub open spec fn export_schema_spec() -> JsonV {
    JsonV::Object(seq![
        ("type"@, JsonV::Str("object"@)),
        ("properties"@, JsonV::Object(seq![
            ("format"@, JsonV::Object(seq![
                ("type"@, JsonV::Str("string"@)),
                ("description"@, JsonV::Str("Export format: 'json' (default) or 'jsonl'"@)),
                ("enum"@, JsonV::Array(seq![
                    JsonV::Str("json"@),
                    JsonV::Str("jsonl"@),
                ])),
                ("default"@, JsonV::Str("json"@)),
            ])),
            ("tags"@, JsonV::Object(seq![
                ("type"@, JsonV::Str("array"@)),
                ("items"@, JsonV::Object(seq![
                    ("type"@, JsonV::Str("string"@)),
                ])),
                ("description"@, JsonV::Str("Filter by tags (ALL must match)"@)),
            ])),
            ("since"@, JsonV::Object(seq![
                ("type"@, JsonV::Str("string"@)),
                ("description"@, JsonV::Str("Only export memories created after this date (YYYY-MM-DD)"@)),
            ])),
            ("path"@, JsonV::Object(seq![
                ("type"@, JsonV::Str("string"@)),
                ("description"@, JsonV::Str("Custom filename (not path). File is saved in ~/.vestige/exports/. Default: memories-{timestamp}.{format}"@)),
            ])),
        ])),
    ])
}

/// The arguments of `export`; none is required.
pub fn export_schema() -> (r: Json)
    ensures
        r@ == export_schema_spec(),
        schema_shape(r@),
        declared_args(r@) == seq!["format"@, "tags"@, "since"@, "path"@],
        required_args(r@) == Seq::<Seq<char>>::empty(),
{
    let mut props = new_entries();
    push_entry(&mut props, "format", {
        let mut e = new_entries();
        push_entry(&mut e, "type", Json::from_str("string"));
        push_entry(&mut e, "description", Json::from_str("Export format: 'json' (default) or 'jsonl'"));
        push_entry(&mut e, "enum", {
            let mut a: Vec<Json> = Vec::new();
            a.push(Json::from_str("json"));
            a.push(Json::from_str("jsonl"));
            proof {
                assert(crate::json::items_model(a@) =~= seq![
                    JsonV::Str("json"@),
                    JsonV::Str("jsonl"@),
                ]);
            }
            array(a)
        });
        push_entry(&mut e, "default", Json::from_str("json"));
        proof {
            assert(crate::json::entries_model(e@) =~= seq![
                ("type"@, JsonV::Str("string"@)),
                ("description"@, JsonV::Str("Export format: 'json' (default) or 'jsonl'"@)),
                ("enum"@, JsonV::Array(seq![
                    JsonV::Str("json"@),
                    JsonV::Str("jsonl"@),
                ])),
                ("default"@, JsonV::Str("json"@)),
            ]);
        }
        object(e)
    });
    push_entry(&mut props, "tags", {
        let mut e = new_entries();
        push_entry(&mut e, "type", Json::from_str("array"));
        push_entry(&mut e, "items", {
            let mut e = new_entries();
            push_entry(&mut e, "type", Json::from_str("string"));
            proof {
                assert(crate::json::entries_model(e@) =~= seq![
                    ("type"@, JsonV::Str("string"@)),
                ]);
            }
            object(e)
        });
        push_entry(&mut e, "description", Json::from_str("Filter by tags (ALL must match)"));
        proof {
            assert(crate::json::entries_model(e@) =~= seq![
                ("type"@, JsonV::Str("array"@)),
                ("items"@, JsonV::Object(seq![
                    ("type"@, JsonV::Str("string"@)),
                ])),
                ("description"@, JsonV::Str("Filter by tags (ALL must match)"@)),
            ]);
        }
        object(e)
    });
    push_entry(&mut props, "since", {
        let mut e = new_entries();
        push_entry(&mut e, "type", Json::from_str("string"));
        push_entry(&mut e, "description", Json::from_str("Only export memories created after this date (YYYY-MM-DD)"));
        proof {
            assert(crate::json::entries_model(e@) =~= seq![
                ("type"@, JsonV::Str("string"@)),
                ("description"@, JsonV::Str("Only export memories created after this date (YYYY-MM-DD)"@)),
            ]);
        }
        object(e)
    });
    push_entry(&mut props, "path", {
        let mut e = new_entries();
        push_entry(&mut e, "type", Json::from_str("string"));
        push_entry(&mut e, "description", Json::from_str("Custom filename (not path). File is saved in ~/.vestige/exports/. Default: memories-{timestamp}.{format}"));
        proof {
            assert(crate::json::entries_model(e@) =~= seq![
                ("type"@, JsonV::Str("string"@)),
                ("description"@, JsonV::Str("Custom filename (not path). File is saved in ~/.vestige/exports/. Default: memories-{timestamp}.{format}"@)),
            ]);
        }
        object(e)
    });
    let mut required: Vec<String> = Vec::new();
    let extra = new_entries();
    proof {
        assert(keys_of(entries_model(props@)) =~= seq!["format"@, "tags"@, "since"@, "path"@]);
        assert(names_of(required@) =~= Seq::<Seq<char>>::empty());
    }
    let s = ToolSchema { properties: props, required, extra };
    proof {
        assert(crate::json::entries_model(s.properties@) =~= seq![
            ("format"@, JsonV::Object(seq![
                ("type"@, JsonV::Str("string"@)),
                ("description"@, JsonV::Str("Export format: 'json' (default) or 'jsonl'"@)),
                ("enum"@, JsonV::Array(seq![
                    JsonV::Str("json"@),
                    JsonV::Str("jsonl"@),
                ])),
                ("default"@, JsonV::Str("json"@)),
            ])),
            ("tags"@, JsonV::Object(seq![
                ("type"@, JsonV::Str("array"@)),
                ("items"@, JsonV::Object(seq![
                    ("type"@, JsonV::Str("string"@)),
                ])),
                ("description"@, JsonV::Str("Filter by tags (ALL must match)"@)),
            ])),
            ("since"@, JsonV::Object(seq![
                ("type"@, JsonV::Str("string"@)),
                ("description"@, JsonV::Str("Only export memories created after this date (YYYY-MM-DD)"@)),
            ])),
            ("path"@, JsonV::Object(seq![
                ("type"@, JsonV::Str("string"@)),
                ("description"@, JsonV::Str("Custom filename (not path). File is saved in ~/.vestige/exports/. Default: memories-{timestamp}.{format}"@)),
            ])),
        ]);
        assert(s.json_v()->Object_0 =~= export_schema_spec()->Object_0);
    }
    s.publish()
}


/// The argument schema of `gc`, as published.
pub open spec fn gc_schema_spec() -> JsonV {
    JsonV::Object(seq![
        ("type"@, JsonV::Str("object"@)),
        ("properties"@, JsonV::Object(seq![
            ("min_retention"@, JsonV::Object(seq![
                ("type"@, JsonV::Str("number"@)),
                ("description"@, JsonV::Str("Delete memories with retention below this threshold (default: 0.1)"@)),
                ("default"@, JsonV::FloatBits(0x3fb999999999999a)),
                ("minimum"@, JsonV::FloatBits(0x0000000000000000)),
                ("maximum"@, JsonV::FloatBits(0x3ff0000000000000)),
            ])),
            ("max_age_days"@, JsonV::Object(seq![
                ("type"@, JsonV::Str("integer"@)),
                ("description"@, JsonV::Str("Only delete memories older than this many days (optional additional filter)"@)),
                ("minimum"@, JsonV::Int(1)),
            ])),
            ("dry_run"@, JsonV::Object(seq![
                ("type"@, JsonV::Str("boolean"@)),
                ("description"@, JsonV::Str("If true (default), only report what would be deleted without actually deleting"@)),
                ("default"@, JsonV::Bool(true)),
            ])),
            ("confirmed"@, JsonV::Object(seq![
                ("type"@, JsonV::Str("boolean"@)),
                ("description"@, JsonV::Str("Required to be `true` when `dry_run` is `false`. Deletion is irreversible, so every destructive call has to be explicit."@)),
                ("default"@, JsonV::Bool(false)),
            ])),
        ])),
    ])
}

/// The arguments of `gc`; none is required. `confirmed` authorises a destructive run.
pub fn gc_schema() -> (r: Json)
    ensures
        r@ == gc_schema_spec(),
        schema_shape(r@),
        declared_args(r@) == seq!["min_retention"@, "max_age_days"@, "dry_run"@, "confirmed"@],
        required_args(r@) == Seq::<Seq<char>>::empty(),
{
    let mut props = new_entries();
    push_entry(&mut props, "min_retention", {
        let mut e = new_entries();
        push_entry(&mut e, "type", Json::from_str("number"));
        push_entry(&mut e, "description", Json::from_str("Delete memories with retention below this threshold (default: 0.1)"));
        push_entry(&mut e, "default", Json::FloatBits(0x3fb999999999999a));
        push_entry(&mut e, "minimum", Json::FloatBits(0x0000000000000000));
        push_entry(&mut e, "maximum", Json::FloatBits(0x3ff0000000000000));
        proof {
            assert(crate::json::entries_model(e@) =~= seq![
                ("type"@, JsonV::Str("number"@)),
                ("description"@, JsonV::Str("Delete memories with retention below this threshold (default: 0.1)"@)),
                ("default"@, JsonV::FloatBits(0x3fb999999999999a)),
                ("minimum"@, JsonV::FloatBits(0x0000000000000000)),
                ("maximum"@, JsonV::FloatBits(0x3ff0000000000000)),
            ]);
        }
        object(e)
    });
    push_entry(&mut props, "max_age_days", {
        let mut e = new_entries();
        push_entry(&mut e, "type", Json::from_str("integer"));
        push_entry(&mut e, "description", Json::from_str("Only delete memories older than this many days (optional additional filter)"));
        push_entry(&mut e, "minimum", Json::Int(1));
        proof {
            assert(crate::json::entries_model(e@) =~= seq![
                ("type"@, JsonV::Str("integer"@)),
                ("description"@, JsonV::Str("Only delete memories older than this many days (optional additional filter)"@)),
                ("minimum"@, JsonV::Int(1)),
            ]);
        }
        object(e)
    });
    push_entry(&mut props, "dry_run", {
        let mut e = new_entries();
        push_entry(&mut e, "type", Json::from_str("boolean"));
        push_entry(&mut e, "description", Json::from_str("If true (default), only report what would be deleted without actually deleting"));
        push_entry(&mut e, "default", Json::Bool(true));
        proof {
            assert(crate::json::entries_model(e@) =~= seq![
                ("type"@, JsonV::Str("boolean"@)),
                ("description"@, JsonV::Str("If true (default), only report what would be deleted without actually deleting"@)),
                ("default"@, JsonV::Bool(true)),
            ]);
        }
        object(e)
    });
    push_entry(&mut props, "confirmed", {
        let mut e = new_entries();
        push_entry(&mut e, "type", Json::from_str("boolean"));
        push_entry(&mut e, "description", Json::from_str("Required to be `true` when `dry_run` is `false`. Deletion is irreversible, so every destructive call has to be explicit."));
        push_entry(&mut e, "default", Json::Bool(false));
        proof {
            assert(crate::json::entries_model(e@) =~= seq![
                ("type"@, JsonV::Str("boolean"@)),
                ("description"@, JsonV::Str("Required to be `true` when `dry_run` is `false`. Deletion is irreversible, so every destructive call has to be explicit."@)),
                ("default"@, JsonV::Bool(false)),
            ]);
        }
        object(e)
    });
    let mut required: Vec<String> = Vec::new();
    let extra = new_entries();
    proof {
        assert(keys_of(entries_model(props@)) =~= seq!["min_retention"@, "max_age_days"@, "dry_run"@, "confirmed"@]);
        assert(names_of(required@) =~= Seq::<Seq<char>>::empty());
    }
    let s = ToolSchema { properties: props, required, extra };
    proof {
        assert(crate::json::entries_model(s.properties@) =~= seq![
            ("min_retention"@, JsonV::Object(seq![
                ("type"@, JsonV::Str("number"@)),
                ("description"@, JsonV::Str("Delete memories with retention below this threshold (default: 0.1)"@)),
                ("default"@, JsonV::FloatBits(0x3fb999999999999a)),
                ("minimum"@, JsonV::FloatBits(0x0000000000000000)),
                ("maximum"@, JsonV::FloatBits(0x3ff0000000000000)),
            ])),
            ("max_age_days"@, JsonV::Object(seq![
                ("type"@, JsonV::Str("integer"@)),
                ("description"@, JsonV::Str("Only delete memories older than this many days (optional additional filter)"@)),
                ("minimum"@, JsonV::Int(1)),
            ])),
            ("dry_run"@, JsonV::Object(seq![
                ("type"@, JsonV::Str("boolean"@)),
                ("description"@, JsonV::Str("If true (default), only report what would be deleted without actually deleting"@)),
                ("default"@, JsonV::Bool(true)),
            ])),
            ("confirmed"@, JsonV::Object(seq![
                ("type"@, JsonV::Str("boolean"@)),
                ("description"@, JsonV::Str("Required to be `true` when `dry_run` is `false`. Deletion is irreversible, so every destructive call has to be explicit."@)),
                ("default"@, JsonV::Bool(false)),
            ])),
        ]);
        assert(s.json_v()->Object_0 =~= gc_schema_spec()->Object_0);
    }
    s.publish()
}



/// The argument schema of `regenerate_embeddings`, as published.
pub open spec fn regenerate_embeddings_schema_spec() -> JsonV {
    JsonV::Object(seq![
        ("type"@, JsonV::Str("object"@)),
        ("properties"@, JsonV::Object(seq![
            ("force"@, JsonV::Object(seq![
                ("type"@, JsonV::Str("boolean"@)),
                ("description"@, JsonV::Str("If true, regenerate embeddings for ALL memories (overwrites existing). If false (default), only backfill memories where has_embedding = 0 or NULL."@)),
                ("default"@, JsonV::Bool(false)),
            ])),
            ("node_ids"@, JsonV::Object(seq![
                ("type"@, JsonV::Str("array"@)),
                ("items"@, JsonV::Object(seq![
                    ("type"@, JsonV::Str("string"@)),
                ])),
                ("description"@, JsonV::Str("Optional list of memory IDs to regenerate. If omitted, applies to all candidates per `force` flag."@)),
            ])),
        ])),
    ])
}

/// The arguments of `regenerate_embeddings`; none is required.
pub fn regenerate_embeddings_schema() -> (r: Json)
    ensures
        r@ == regenerate_embeddings_schema_spec(),
        schema_shape(r@),
        declared_args(r@) == seq!["force"@, "node_ids"@],
        required_args(r@) == Seq::<Seq<char>>::empty(),
{
    let mut props = new_entries();
    push_entry(&mut props, "force", {
        let mut e = new_entries();
        push_entry(&mut e, "type", Json::from_str("boolean"));
        push_entry(&mut e, "description", Json::from_str("If true, regenerate embeddings for ALL memories (overwrites existing). If false (default), only backfill memories where has_embedding = 0 or NULL."));
        push_entry(&mut e, "default", Json::Bool(false));
        proof {
            assert(crate::json::entries_model(e@) =~= seq![
                ("type"@, JsonV::Str("boolean"@)),
                ("description"@, JsonV::Str("If true, regenerate embeddings for ALL memories (overwrites existing). If false (default), only backfill memories where has_embedding = 0 or NULL."@)),
                ("default"@, JsonV::Bool(false)),
            ]);
        }
        object(e)
    });
    push_entry(&mut props, "node_ids", {
        let mut e = new_entries();
        push_entry(&mut e, "type", Json::from_str("array"));
        push_entry(&mut e, "items", {
            let mut e = new_entries();
            push_entry(&mut e, "type", Json::from_str("string"));
            proof {
                assert(crate::json::entries_model(e@) =~= seq![
                    ("type"@, JsonV::Str("string"@)),
                ]);
            }
            object(e)
        });
        push_entry(&mut e, "description", Json::from_str("Optional list of memory IDs to regenerate. If omitted, applies to all candidates per `force` flag."));
        proof {
            assert(crate::json::entries_model(e@) =~= seq![
                ("type"@, JsonV::Str("array"@)),
                ("items"@, JsonV::Object(seq![
                    ("type"@, JsonV::Str("string"@)),
                ])),
                ("description"@, JsonV::Str("Optional list of memory IDs to regenerate. If omitted, applies to all candidates per `force` flag."@)),
            ]);
        }
        object(e)
    });
    let mut required: Vec<String> = Vec::new();
    let extra = new_entries();
    proof {
        assert(keys_of(entries_model(props@)) =~= seq!["force"@, "node_ids"@]);
        assert(names_of(required@) =~= Seq::<Seq<char>>::empty());
    }
    let s = ToolSchema { properties: props, required, extra };
    proof {
        assert(crate::json::entries_model(s.properties@) =~= seq![
            ("force"@, JsonV::Object(seq![
                ("type"@, JsonV::Str("boolean"@)),
                ("description"@, JsonV::Str("If true, regenerate embeddings for ALL memories (overwrites existing). If false (default), only backfill memories where has_embedding = 0 or NULL."@)),
                ("default"@, JsonV::Bool(false)),
            ])),
            ("node_ids"@, JsonV::Object(seq![
                ("type"@, JsonV::Str("array"@)),
                ("items"@, JsonV::Object(seq![
                    ("type"@, JsonV::Str("string"@)),
                ])),
                ("description"@, JsonV::Str("Optional list of memory IDs to regenerate. If omitted, applies to all candidates per `force` flag."@)),
            ])),
        ]);
        assert(s.json_v()->Object_0 =~= regenerate_embeddings_schema_spec()->Object_0);
    }
    s.publish()
}

/// The summary line of a `regenerate_embeddings` run.
pub open spec fn regenerate_message_s(successful: nat, skipped: nat, failed: nat, ms: nat) -> Seq<char> {
    "Regenerated "@ + decimal_s(successful) + " embeddings ("@ + decimal_s(skipped) + " skipped, "@
        + decimal_s(failed) + " failed) in "@ + decimal_s(ms) + "ms"@
}

/// The summary line of a `regenerate_embeddings` run.
pub fn regenerate_message(successful: u64, skipped: u64, failed: u64, ms: u64) -> (r: String)
    ensures
        r@ == regenerate_message_s(successful as nat, skipped as nat, failed as nat, ms as nat),
{
    let mut m: Vec<char> = Vec::new();
    push_str(&mut m, "Regenerated ");
    push_chars(&mut m, &decimal(successful));
    push_str(&mut m, " embeddings (");
    push_chars(&mut m, &decimal(skipped));
    push_str(&mut m, " skipped, ");
    push_chars(&mut m, &decimal(failed));
    push_str(&mut m, " failed) in ");
    push_chars(&mut m, &decimal(ms));
    push_str(&mut m, "ms");
    string_of(m.as_slice())
}

/// The report of a `regenerate_embeddings` run: the counts the store gave
/// back, its error messages, and the time it took.
pub fn regenerate_reply(
    force: bool,
    successful: u64,
    failed: u64,
    skipped: u64,
    errors: &Vec<String>,
    duration_ms: u64,
) -> (r: Json)
    ensures
        r@ == JsonV::Object(
            seq![
                ("tool"@, JsonV::Str("regenerate_embeddings"@)),
                ("force"@, JsonV::Bool(force)),
                ("successful"@, count_v(successful as nat)),
                ("failed"@, count_v(failed as nat)),
                ("skipped"@, count_v(skipped as nat)),
                ("errors"@, JsonV::Array(strs_model(errors@))),
                ("durationMs"@, count_v(duration_ms as nat)),
                (
                    "message"@,
                    JsonV::Str(
                        regenerate_message_s(successful as nat, skipped as nat, failed as nat, duration_ms as nat),
                    ),
                ),
            ],
        ),
{
    let message = regenerate_message(successful, skipped, failed, duration_ms);
    let mut e = new_entries();
    push_entry(&mut e, "tool", Json::from_str("regenerate_embeddings"));
    push_entry(&mut e, "force", Json::Bool(force));
    push_entry(&mut e, "successful", crate::json::uint(successful));
    push_entry(&mut e, "failed", crate::json::uint(failed));
    push_entry(&mut e, "skipped", crate::json::uint(skipped));
    push_entry(&mut e, "errors", crate::json::str_array(errors));
    push_entry(&mut e, "durationMs", crate::json::uint(duration_ms));
    push_entry(&mut e, "message", Json::Str(message));
    proof {
        assert(entries_model(e@) =~= seq![
            ("tool"@, JsonV::Str("regenerate_embeddings"@)),
            ("force"@, JsonV::Bool(force)),
            ("successful"@, count_v(successful as nat)),
            ("failed"@, count_v(failed as nat)),
            ("skipped"@, count_v(skipped as nat)),
            ("errors"@, JsonV::Array(strs_model(errors@))),
            ("durationMs"@, count_v(duration_ms as nat)),
            (
                "message"@,
                JsonV::Str(regenerate_message_s(successful as nat, skipped as nat, failed as nat, duration_ms as nat)),
            ),
        ]);
    }
    object(e)
}


/// The argument schema of `split_memories`, as published.
pub open spec fn split_memories_schema_spec() -> JsonV {
    JsonV::Object(seq![
        ("type"@, JsonV::Str("object"@)),
        ("properties"@, JsonV::Object(seq![
            ("min_length"@, JsonV::Object(seq![
                ("type"@, JsonV::Str("integer"@)),
                ("description"@, JsonV::Str("Minimum content length to consider (default: 300). Shorter memories are always atomic."@)),
                ("default"@, JsonV::Int(300)),
                ("minimum"@, JsonV::Int(100)),
            ])),
            ("limit"@, JsonV::Object(seq![
                ("type"@, JsonV::Str("integer"@)),
                ("description"@, JsonV::Str("Max number of compound memories to return (default: 20)"@)),
                ("default"@, JsonV::Int(20)),
                ("minimum"@, JsonV::Int(1)),
                ("maximum"@, JsonV::Int(100)),
            ])),
            ("dry_run"@, JsonV::Object(seq![
                ("type"@, JsonV::Str("boolean"@)),
                ("description"@, JsonV::Str("If true (default), only report compound memories without deleting. If false, delete compound memories after reporting (you must re-ingest as atomic items) — and `confirmed: true` is then required."@)),
                ("default"@, JsonV::Bool(true)),
            ])),
            ("confirmed"@, JsonV::Object(seq![
                ("type"@, JsonV::Str("boolean"@)),
                ("description"@, JsonV::Str("Required to be `true` when `dry_run` is `false`. Deletion is irreversible: the compound memory is dropped and its atomic replacements do not exist yet, so every destructive call has to be explicit. The same confirmation `gc` and `restore` ask for."@)),
                ("default"@, JsonV::Bool(false)),
            ])),
        ])),
    ])
}

/// The arguments of `split_memories`; none is required.
pub fn split_memories_schema() -> (r: Json)
    ensures
        r@ == split_memories_schema_spec(),
        schema_shape(r@),
        declared_args(r@) == seq!["min_length"@, "limit"@, "dry_run"@, "confirmed"@],
        required_args(r@) == Seq::<Seq<char>>::empty(),
{
    let mut props = new_entries();
    push_entry(&mut props, "min_length", {
        let mut e = new_entries();
        push_entry(&mut e, "type", Json::from_str("integer"));
        push_entry(&mut e, "description", Json::from_str("Minimum content length to consider (default: 300). Shorter memories are always atomic."));
        push_entry(&mut e, "default", Json::Int(300));
        push_entry(&mut e, "minimum", Json::Int(100));
        proof {
            assert(crate::json::entries_model(e@) =~= seq![
                ("type"@, JsonV::Str("integer"@)),
                ("description"@, JsonV::Str("Minimum content length to consider (default: 300). Shorter memories are always atomic."@)),
                ("default"@, JsonV::Int(300)),
                ("minimum"@, JsonV::Int(100)),
            ]);
        }
        object(e)
    });
    push_entry(&mut props, "limit", {
        let mut e = new_entries();
        push_entry(&mut e, "type", Json::from_str("integer"));
        push_entry(&mut e, "description", Json::from_str("Max number of compound memories to return (default: 20)"));
        push_entry(&mut e, "default", Json::Int(20));
        push_entry(&mut e, "minimum", Json::Int(1));
        push_entry(&mut e, "maximum", Json::Int(100));
        proof {
            assert(crate::json::entries_model(e@) =~= seq![
                ("type"@, JsonV::Str("integer"@)),
                ("description"@, JsonV::Str("Max number of compound memories to return (default: 20)"@)),
                ("default"@, JsonV::Int(20)),
                ("minimum"@, JsonV::Int(1)),
                ("maximum"@, JsonV::Int(100)),
            ]);
        }
        object(e)
    });
    push_entry(&mut props, "dry_run", {
        let mut e = new_entries();
        push_entry(&mut e, "type", Json::from_str("boolean"));
        push_entry(&mut e, "description", Json::from_str("If true (default), only report compound memories without deleting. If false, delete compound memories after reporting (you must re-ingest as atomic items) — and `confirmed: true` is then required."));
        push_entry(&mut e, "default", Json::Bool(true));
        proof {
            assert(crate::json::entries_model(e@) =~= seq![
                ("type"@, JsonV::Str("boolean"@)),
                ("description"@, JsonV::Str("If true (default), only report compound memories without deleting. If false, delete compound memories after reporting (you must re-ingest as atomic items) — and `confirmed: true` is then required."@)),
                ("default"@, JsonV::Bool(true)),
            ]);
        }
        object(e)
    });
    push_entry(&mut props, "confirmed", {
        let mut e = new_entries();
        push_entry(&mut e, "type", Json::from_str("boolean"));
        push_entry(&mut e, "description", Json::from_str("Required to be `true` when `dry_run` is `false`. Deletion is irreversible: the compound memory is dropped and its atomic replacements do not exist yet, so every destructive call has to be explicit. The same confirmation `gc` and `restore` ask for."));
        push_entry(&mut e, "default", Json::Bool(false));
        proof {
            assert(crate::json::entries_model(e@) =~= seq![
                ("type"@, JsonV::Str("boolean"@)),
                ("description"@, JsonV::Str("Required to be `true` when `dry_run` is `false`. Deletion is irreversible: the compound memory is dropped and its atomic replacements do not exist yet, so every destructive call has to be explicit. The same confirmation `gc` and `restore` ask for."@)),
                ("default"@, JsonV::Bool(false)),
            ]);
        }
        object(e)
    });
    let mut required: Vec<String> = Vec::new();
    let extra = new_entries();
    proof {
        assert(keys_of(entries_model(props@)) =~= seq!["min_length"@, "limit"@, "dry_run"@, "confirmed"@]);
        assert(names_of(required@) =~= Seq::<Seq<char>>::empty());
    }
    let s = ToolSchema { properties: props, required, extra };
    proof {
        assert(crate::json::entries_model(s.properties@) =~= seq![
            ("min_length"@, JsonV::Object(seq![
                ("type"@, JsonV::Str("integer"@)),
                ("description"@, JsonV::Str("Minimum content length to consider (default: 300). Shorter memories are always atomic."@)),
                ("default"@, JsonV::Int(300)),
                ("minimum"@, JsonV::Int(100)),
            ])),
            ("limit"@, JsonV::Object(seq![
                ("type"@, JsonV::Str("integer"@)),
                ("description"@, JsonV::Str("Max number of compound memories to return (default: 20)"@)),
                ("default"@, JsonV::Int(20)),
                ("minimum"@, JsonV::Int(1)),
                ("maximum"@, JsonV::Int(100)),
            ])),
            ("dry_run"@, JsonV::Object(seq![
                ("type"@, JsonV::Str("boolean"@)),
                ("description"@, JsonV::Str("If true (default), only report compound memories without deleting. If false, delete compound memories after reporting (you must re-ingest as atomic items) — and `confirmed: true` is then required."@)),
                ("default"@, JsonV::Bool(true)),
            ])),
            ("confirmed"@, JsonV::Object(seq![
                ("type"@, JsonV::Str("boolean"@)),
                ("description"@, JsonV::Str("Required to be `true` when `dry_run` is `false`. Deletion is irreversible: the compound memory is dropped and its atomic replacements do not exist yet, so every destructive call has to be explicit. The same confirmation `gc` and `restore` ask for."@)),
                ("default"@, JsonV::Bool(false)),
            ])),
        ]);
        assert(s.json_v()->Object_0 =~= split_memories_schema_spec()->Object_0);
    }
    s.publish()
}


// ---------------------------------------------------------------------------
// The confirmation of destructive runs
// ---------------------------------------------------------------------------

/// The impact stated when a destructive `gc` is refused.
pub open spec fn gc_impact() -> Seq<char> {
    "gc with dry_run:false permanently deletes every memory below the retention threshold."@
}

/// The impact stated when a destructive `split_memories` is refused.
pub open spec fn split_impact() -> Seq<char> {
    "split_memories with dry_run:false deletes every compound memory it reports,              and the atomic replacements have to be re-ingested afterwards."@
}

/// Whether a run is a dry run: `dry_run`, true by default.
pub open spec fn dry_run_s(dry_run: Option<bool>) -> bool {
    match dry_run {
        Some(b) => b,
        None => true,
    }
}

/// The confirmation check before `gc` runs: a dry run (the default) passes; a destructive
/// run passes only with an explicit confirmation in `raw`. The result is
/// whether the run is a dry run.
pub fn gc_gate(dry_run: Option<bool>, raw: &Json) -> (r: Result<bool, String>)
    ensures
        match r {
            Ok(d) => d == dry_run_s(dry_run) && (!d ==> confirmed_s(raw@)),
            Err(e) => !dry_run_s(dry_run) && !confirmed_s(raw@) && e@ == refusal_text("gc"@, gc_impact()),
        },
{
    let dry = match dry_run {
        Some(b) => b,
        None => true,
    };
    if !dry && !is_confirmed(raw) {
        return Err(
            missing_confirmation_error(
                "gc",
                "gc with dry_run:false permanently deletes every memory below the retention threshold.",
            ),
        );
    }
    Ok(dry)
}

/// The confirmation check before `split_memories` runs, as for `gc`.
pub fn split_gate(dry_run: Option<bool>, raw: &Json) -> (r: Result<bool, String>)
    ensures
        match r {
            Ok(d) => d == dry_run_s(dry_run) && (!d ==> confirmed_s(raw@)),
            Err(e) => !dry_run_s(dry_run) && !confirmed_s(raw@) && e@ == refusal_text(
                "split_memories"@,
                split_impact(),
            ),
        },
{
    let dry = match dry_run {
        Some(b) => b,
        None => true,
    };
    if !dry && !is_confirmed(raw) {
        return Err(
            missing_confirmation_error(
                "split_memories",
                "split_memories with dry_run:false deletes every compound memory it reports,              and the atomic replacements have to be re-ingested afterwards.",
            ),
        );
    }
    Ok(dry)
}

/// No destructive maintenance run goes ahead without a confirmation.
pub proof fn law_destructive_maintenance_needs_confirmation(
    dry_run: Option<bool>,
    raw: JsonV,
    run_is_dry: bool,
)
    requires
        run_is_dry == dry_run_s(dry_run),
    ensures
        !run_is_dry && !confirmed_s(raw) ==> dry_run is Some,
        dry_run is None ==> run_is_dry,
{
}

// ---------------------------------------------------------------------------
// gc
// ---------------------------------------------------------------------------

/// The age filter of `gc`: with `max_age_days`, a memory is a candidate only
/// when its age in days is known to be at least that many (a negative age,
/// from a clock that moved back, never is).
pub open spec fn old_enough_s(age_days: i64, max_age_days: Option<u64>) -> bool {
    match max_age_days {
        Some(max) => age_days >= 0 && age_days >= max,
        None => true,
    }
}

/// Whether a memory of the given age passes the age filter of `gc`.
pub fn old_enough(age_days: i64, max_age_days: Option<u64>) -> (r: bool)
    ensures
        r == old_enough_s(age_days, max_age_days),
{
    match max_age_days {
        Some(max) => {
            if age_days < 0 {
                false
            } else {
                (age_days as u64) >= max
            }
        },
        None => true,
    }
}

/// A `gc` candidate: its retention is below the threshold (compared by the
/// caller) and it passes the age filter.
pub fn is_gc_candidate(below_threshold: bool, age_days: i64, max_age_days: Option<u64>) -> (r: bool)
    ensures
        r == (below_threshold && old_enough_s(age_days, max_age_days)),
{
    below_threshold && old_enough(age_days, max_age_days)
}

/// At most 60 characters of a memory, with `...` after a cut.
pub open spec fn gc_preview_s(content: Seq<char>) -> Seq<char> {
    if content.len() > 60 {
        content.take(60) + "..."@
    } else {
        content
    }
}

/// The content preview of a `gc` sample entry.
pub fn gc_preview(content: &str) -> (r: String)
    ensures
        r@ == gc_preview_s(content@),
{
    let cs = chars_of(content);
    if cs.len() > 60 {
        let mut head = copy_range(&cs, 0, 60);
        push_str(&mut head, "...");
        proof {
            assert(cs@.subrange(0, 60) =~= content@.take(60));
        }
        string_of(head.as_slice())
    } else {
        owned(content)
    }
}

/// The first eight bytes of an id: the whole id when it is shorter.
pub open spec fn short_id_s(id: Seq<char>) -> Seq<char> {
    id.take(crate::text::fit_len(id, 8) as int)
}

/// The id shown in a `gc` sample entry: its first eight bytes. The cut must
/// fall on a character boundary, as it does for the store's ids.
pub fn short_id(id: &str) -> (r: String)
    requires
        utf8_len(id@) <= 8 || utf8_len(short_id_s(id@)) == 8,
    ensures
        r@ == short_id_s(id@),
        utf8_len(r@) <= 8,
{
    let cs = chars_of(id);
    let m = crate::text::fit_prefix_len(&cs, 8);
    let head = copy_range(&cs, 0, m);
    proof {
        assert(cs@.subrange(0, m as int) =~= id@.take(m as int));
        lemma_fit_prefix_bytes(id@, 8);
    }
    string_of(head.as_slice())
}

proof fn lemma_fit_prefix_bytes(t: Seq<char>, b: int)
    requires
        b >= 0,
    ensures
        crate::text::fit_len(t, b) <= t.len(),
        utf8_len(t.take(crate::text::fit_len(t, b) as int)) <= b,
    decreases t.len(),
{
    let n = crate::text::fit_len(t, b);
    assert(utf8_len(Seq::<char>::empty()) == 0);
    if t.len() == 0 || crate::text::char_width(t[0]) > b {
        assert(t.take(0) =~= Seq::<char>::empty());
    } else {
        let w = crate::text::char_width(t[0]);
        assert(n == 1 + crate::text::fit_len(t.drop_first(), b - w));
        lemma_fit_prefix_bytes(t.drop_first(), b - w);
        assert(n <= t.len());
        let rest = t.drop_first().take(crate::text::fit_len(t.drop_first(), b - w) as int);
        assert(t.take(n as int) =~= seq![t[0]] + rest);
        crate::text::lemma_utf8_len_concat(seq![t[0]], rest);
        assert(seq![t[0]].drop_last() =~= Seq::<char>::empty());
        assert(seq![t[0]].last() == t[0]);
    }
}

/// The message of a `gc` dry run.
pub fn gc_dry_run_message(candidates: usize) -> (r: String)
    ensures
        r@ == decimal_s(candidates as nat) + " memories would be deleted. Set dry_run=false to delete."@,
{
    let mut m = decimal(candidates as u64);
    push_str(&mut m, " memories would be deleted. Set dry_run=false to delete.");
    string_of(m.as_slice())
}

/// The memories left after a `gc` run that deleted `deleted` of `total`.
pub fn remaining_after_gc(total: usize, deleted: usize) -> (r: usize)
    requires
        deleted <= total,
    ensures
        r == total - deleted,
{
    total - deleted
}

/// Tallies a deletion the store answered: `Some(true)` deleted, anything
/// else (not found, or an error) an error.
pub fn tally_deletion(outcome: Option<bool>, deleted: &mut u64, errors: &mut u64)
    requires
        *old(deleted) < u64::MAX,
        *old(errors) < u64::MAX,
    ensures
        outcome == Some(true) ==> *final(deleted) == *old(deleted) + 1 && *final(errors) == *old(errors),
        outcome != Some(true) ==> *final(errors) == *old(errors) + 1 && *final(deleted) == *old(deleted),
{
    match outcome {
        Some(true) => {
            *deleted = *deleted + 1;
        },
        _ => {
            *errors = *errors + 1;
        },
    }
}

// ---------------------------------------------------------------------------
// split_memories
// ---------------------------------------------------------------------------

/// The arguments of `split_memories`, as read from the request.
pub struct SplitArgs {
    pub min_length: Option<usize>,
    pub limit: Option<usize>,
    pub dry_run: Option<bool>,
}

/// The shortest content `split_memories` considers (300 bytes by default).
pub fn split_min_length(args: &SplitArgs) -> (r: usize)
    ensures
        r == match args.min_length {
            Some(n) => n,
            None => 300usize,
        },
{
    match args.min_length {
        Some(n) => n,
        None => 300,
    }
}

/// How many compound memories `split_memories` reports (20 by default).
pub fn split_limit(args: &SplitArgs) -> (r: usize)
    ensures
        r == match args.limit {
            Some(n) => n,
            None => 20usize,
        },
{
    match args.limit {
        Some(n) => n,
        None => 20,
    }
}

/// The number of leading characters that start before byte `limit`.
pub open spec fn starts_before(s: Seq<char>, limit: int) -> nat
    decreases s.len(),
{
    if s.len() == 0 || limit <= 0 {
        0
    } else {
        1 + starts_before(s.drop_first(), limit - crate::text::char_width(s[0]))
    }
}

/// The content shown for a compound memory: when longer than 500 bytes,
/// every character that starts before byte 500, then `...`.
pub open spec fn split_preview_s(content: Seq<char>) -> Seq<char> {
    if utf8_len(content) > 500 {
        content.take(starts_before(content, 500) as int) + "..."@
    } else {
        content
    }
}

fn count_starting_before(s: &Vec<char>, limit: usize) -> (r: usize)
    requires
        limit <= 1_000_000,
    ensures
        r == starts_before(s@, limit as int),
        r <= s@.len(),
{
    let n = s.len();
    let mut m: usize = 0;
    let mut used: usize = 0;
    proof {
        assert(s@.subrange(0, n as int) =~= s@);
    }
    while m < n && used < limit
        invariant
            0 <= m <= n,
            n == s@.len(),
            used <= limit + 4,
            limit <= 1_000_000,
            starts_before(s@, limit as int) == m + starts_before(
                s@.subrange(m as int, n as int),
                limit - used,
            ),
        decreases n - m,
    {
        proof {
            assert(s@.subrange(m as int, n as int).drop_first() =~= s@.subrange(m + 1, n as int));
        }
        let w = crate::text::char_len_utf8(s[m]);
        used = used + w;
        m = m + 1;
    }
    proof {
        if m < n {
            assert(starts_before(s@.subrange(m as int, n as int), limit - used) == 0);
        }
    }
    m
}

/// The content shown for a compound memory.
pub fn split_preview(content: &str) -> (r: String)
    ensures
        r@ == split_preview_s(content@),
{
    let cs = chars_of(content);
    let fit = crate::text::fit_prefix_len(&cs, 500);
    proof {
        crate::confidence::lemma_fit_all(cs@, 500);
    }
    if fit == cs.len() {
        owned(content)
    } else {
        let m = count_starting_before(&cs, 500);
        let mut head = copy_range(&cs, 0, m);
        push_str(&mut head, "...");
        proof {
            assert(cs@.subrange(0, m as int) =~= content@.take(m as int));
        }
        string_of(head.as_slice())
    }
}

/// What `split_memories` tells the caller to do next.
pub open spec fn split_instruction_s(found: nat, dry_run: bool, deleted: nat) -> Seq<char> {
    if found == 0 {
        "All memories are atomic. No splitting needed."@
    } else if dry_run {
        "Found "@ + decimal_s(found)
            + " compound memories. To fix: for each memory above, read the full content with memory(action='get'), split into atomic facts, then smart_ingest as batch items, and finally memory(action='delete') the original. Or re-run with dry_run=false to auto-delete originals."@
    } else {
        "Deleted "@ + decimal_s(deleted)
            + " compound memories. Now re-ingest each as atomic items using smart_ingest batch mode. Each original memory's content is shown above — split each into separate facts/decisions/events."@
    }
}

/// The instruction of a `split_memories` report.
pub fn split_instruction(found: usize, dry_run: bool, deleted: usize) -> (r: String)
    ensures
        r@ == split_instruction_s(found as nat, dry_run, deleted as nat),
{
    if found == 0 {
        owned("All memories are atomic. No splitting needed.")
    } else if dry_run {
        let mut m: Vec<char> = chars_of("Found ");
        let n = decimal(found as u64);
        push_chars(&mut m, &n);
        push_str(
            &mut m,
            " compound memories. To fix: for each memory above, read the full content with memory(action='get'), split into atomic facts, then smart_ingest as batch items, and finally memory(action='delete') the original. Or re-run with dry_run=false to auto-delete originals.",
        );
        string_of(m.as_slice())
    } else {
        let mut m: Vec<char> = chars_of("Deleted ");
        let n = decimal(deleted as u64);
        push_chars(&mut m, &n);
        push_str(
            &mut m,
            " compound memories. Now re-ingest each as atomic items using smart_ingest batch mode. Each original memory's content is shown above — split each into separate facts/decisions/events.",
        );
        string_of(m.as_slice())
    }
}


/// Whether a memory is long enough for `split_memories` to consider:
/// at least `min_length` bytes.
pub fn long_enough(content: &str, min_length: usize) -> (r: bool)
    ensures
        r == (utf8_len(content@) >= min_length),
{
    let cs = chars_of(content);
    if min_length == 0 {
        return true;
    }
    let fit = crate::text::fit_prefix_len(&cs, min_length - 1);
    proof {
        crate::confidence::lemma_fit_all(cs@, min_length - 1);
    }
    fit < cs.len()
}

/// One compound memory as `split_memories` reports it.
pub open spec fn compound_entry_s(
    id: Seq<char>,
    content: Seq<char>,
    node_type: Seq<char>,
    created_at: Seq<char>,
    reason: Seq<char>,
) -> JsonV {
    JsonV::Object(
        seq![
            ("id"@, JsonV::Str(id)),
            ("content"@, JsonV::Str(split_preview_s(content))),
            ("content_length"@, count_v(utf8_len(content))),
            ("node_type"@, JsonV::Str(node_type)),
            ("created_at"@, JsonV::Str(created_at)),
            ("reason"@, JsonV::Str(reason)),
            ("action"@, JsonV::Str("Split this memory into separate atomic memories using smart_ingest batch mode, then delete the original."@)),
        ],
    )
}

/// One compound memory as `split_memories` reports it.
pub fn compound_entry(
    id: &str,
    content: &str,
    node_type: &str,
    created_at: &str,
    reason: &str,
) -> (r: Json)
    requires
        utf8_len(content@) <= usize::MAX,
    ensures
        r@ == compound_entry_s(id@, content@, node_type@, created_at@, reason@),
{
    let cs = chars_of(content);
    let bytes = byte_len(&cs);
    let mut e = new_entries();
    push_entry(&mut e, "id", Json::from_str(id));
    push_entry(&mut e, "content", Json::Str(split_preview(content)));
    push_entry(&mut e, "content_length", crate::json::count(bytes));
    push_entry(&mut e, "node_type", Json::from_str(node_type));
    push_entry(&mut e, "created_at", Json::from_str(created_at));
    push_entry(&mut e, "reason", Json::from_str(reason));
    push_entry(
        &mut e,
        "action",
        Json::from_str(
            "Split this memory into separate atomic memories using smart_ingest batch mode, then delete the original.",
        ),
    );
    proof {
        assert(entries_model(e@) =~= compound_entry_s(id@, content@, node_type@, created_at@, reason@)->Object_0);
    }
    object(e)
}

/// A stored memory as `split_memories` reads it: its id, content, type and
/// creation time (already rendered as RFC 3339).
pub struct NodeFacts {
    pub id: String,
    pub content: String,
    pub node_type: String,
    pub created_at: String,
}

/// Whether `split_memories` reports this memory: long enough, and compound.
pub open spec fn is_split_candidate(n: NodeFacts, min_length: nat) -> bool {
    utf8_len(n.content@) >= min_length && compound_reason_s(n.content@) is Some
}

/// The report entries of every candidate among `nodes`, in their order.
pub open spec fn compounds_s(nodes: Seq<NodeFacts>, min_length: nat) -> Seq<JsonV>
    decreases nodes.len(),
{
    if nodes.len() == 0 {
        Seq::empty()
    } else {
        let rest = compounds_s(nodes.drop_last(), min_length);
        let n = nodes.last();
        if is_split_candidate(n, min_length) {
            rest.push(
                compound_entry_s(
                    n.id@,
                    n.content@,
                    n.node_type@,
                    n.created_at@,
                    compound_reason_s(n.content@)->Some_0,
                ),
            )
        } else {
            rest
        }
    }
}

/// How many entries `split_memories` keeps: the scan stops once `limit`
/// entries are found, and never before the first.
pub open spec fn split_cap(limit: nat) -> nat {
    if limit == 0 { 1 } else { limit }
}

/// What `split_memories` reports of `nodes`: the first candidates, at most
/// `split_cap(limit)` of them.
pub open spec fn select_compounds_s(nodes: Seq<NodeFacts>, min_length: nat, limit: nat) -> Seq<JsonV> {
    let all = compounds_s(nodes, min_length);
    if all.len() <= split_cap(limit) {
        all
    } else {
        all.take(split_cap(limit) as int)
    }
}

proof fn lemma_compounds_prefix(nodes: Seq<NodeFacts>, min_length: nat, i: int, j: int)
    requires
        0 <= i <= j <= nodes.len(),
    ensures
        compounds_s(nodes.take(i), min_length).len() <= compounds_s(nodes.take(j), min_length).len(),
        compounds_s(nodes.take(i), min_length) =~= compounds_s(nodes.take(j), min_length).take(
            compounds_s(nodes.take(i), min_length).len() as int,
        ),
    decreases j - i,
{
    if i < j {
        lemma_compounds_prefix(nodes, min_length, i, j - 1);
        assert(nodes.take(j).drop_last() =~= nodes.take(j - 1));
    }
}

/// The compound memories among `nodes` that `split_memories` reports: in
/// order, those of at least `min_length` bytes whose content looks compound,
/// stopping once `limit` are found (after the first when `limit` is 0).
pub fn select_compounds(nodes: &Vec<NodeFacts>, min_length: usize, limit: usize) -> (r: Vec<Json>)
    requires
        forall|k: int| 0 <= k < nodes@.len() ==> utf8_len(#[trigger] nodes@[k].content@) <= usize::MAX,
    ensures
        crate::json::items_model(r@) == select_compounds_s(nodes@, min_length as nat, limit as nat),
{
    let mut out: Vec<Json> = Vec::new();
    let mut i: usize = 0;
    while i < nodes.len() && (out.len() == 0 || out.len() < limit)
        invariant
            0 <= i <= nodes@.len(),
            forall|k: int| 0 <= k < nodes@.len() ==> utf8_len(#[trigger] nodes@[k].content@) <= usize::MAX,
            crate::json::items_model(out@) == compounds_s(nodes@.take(i as int), min_length as nat),
            out@.len() <= split_cap(limit as nat),
        decreases nodes.len() - i,
    {
        let n = &nodes[i];
        let ghost before = out@;
        proof {
            assert(nodes@.take(i + 1).drop_last() =~= nodes@.take(i as int));
            assert(nodes@.take(i + 1).last() == nodes@[i as int]);
        }
        if long_enough(n.content.as_str(), min_length) {
            match crate::compound::detect_compound_content_reason(n.content.as_str()) {
                Some(reason) => {
                    let entry = compound_entry(
                        n.id.as_str(),
                        n.content.as_str(),
                        n.node_type.as_str(),
                        n.created_at.as_str(),
                        reason.as_str(),
                    );
                    out.push(entry);
                    proof {
                        assert(crate::json::items_model(out@) =~= crate::json::items_model(before).push(
                            out@[before.len() as int]@,
                        ));
                    }
                },
                None => {},
            }
        }
        i = i + 1;
    }
    proof {
        let all = compounds_s(nodes@, min_length as nat);
        assert(nodes@.take(nodes@.len() as int) =~= nodes@);
        lemma_compounds_prefix(nodes@, min_length as nat, i as int, nodes@.len() as int);
        if i < nodes@.len() {
            assert(out@.len() == split_cap(limit as nat));
        }
    }
    out
}

fn byte_len(s: &Vec<char>) -> (r: usize)
    requires
        utf8_len(s@) <= usize::MAX,
    ensures
        r == utf8_len(s@),
{
    let mut n: usize = 0;
    let mut i: usize = 0;
    while i < s.len()
        invariant
            0 <= i <= s@.len(),
            n == utf8_len(s@.take(i as int)),
            utf8_len(s@) <= usize::MAX,
        decreases s.len() - i,
    {
        proof {
            assert(s@.take(i + 1).drop_last() =~= s@.take(i as int));
            crate::text::lemma_utf8_len_concat(s@.take(i + 1), s@.skip(i + 1));
            assert(s@.take(i + 1) + s@.skip(i + 1) =~= s@);
        }
        n = n + crate::text::char_len_utf8(s[i]);
        i = i + 1;
    }
    proof {
        assert(s@.take(s@.len() as int) =~= s@);
    }
    n
}

/// The report of `split_memories`.
pub fn split_reply(total_scanned: usize, memories: Vec<Json>, dry_run: bool, deleted_ids: &Vec<String>) -> (r: Json)
    ensures
        r@ == JsonV::Object(
            seq![
                ("total_scanned"@, count_v(total_scanned as nat)),
                ("compound_found"@, count_v(memories@.len())),
                ("dry_run"@, JsonV::Bool(dry_run)),
                ("deleted"@, count_v(deleted_ids@.len())),
                ("deleted_ids"@, JsonV::Array(strs_model(deleted_ids@))),
                ("memories"@, JsonV::Array(crate::json::items_model(memories@))),
                (
                    "instruction"@,
                    JsonV::Str(split_instruction_s(memories@.len(), dry_run, deleted_ids@.len())),
                ),
            ],
        ),
{
    let found = memories.len();
    let ghost m = crate::json::items_model(memories@);
    let instruction = split_instruction(found, dry_run, deleted_ids.len());
    let mut e = new_entries();
    push_entry(&mut e, "total_scanned", crate::json::count(total_scanned));
    push_entry(&mut e, "compound_found", crate::json::count(found));
    push_entry(&mut e, "dry_run", Json::Bool(dry_run));
    push_entry(&mut e, "deleted", crate::json::count(deleted_ids.len()));
    push_entry(&mut e, "deleted_ids", crate::json::str_array(deleted_ids));
    push_entry(&mut e, "memories", array(memories));
    push_entry(&mut e, "instruction", Json::Str(instruction));
    proof {
        assert(entries_model(e@) =~= seq![
            ("total_scanned"@, count_v(total_scanned as nat)),
            ("compound_found"@, count_v(found as nat)),
            ("dry_run"@, JsonV::Bool(dry_run)),
            ("deleted"@, count_v(deleted_ids@.len())),
            ("deleted_ids"@, JsonV::Array(strs_model(deleted_ids@))),
            ("memories"@, JsonV::Array(m)),
            ("instruction"@, JsonV::Str(split_instruction_s(found as nat, dry_run, deleted_ids@.len()))),
        ]);
    }
    object(e)
}

// ---------------------------------------------------------------------------
// export
// ---------------------------------------------------------------------------

/// The export format: `format`, `json` by default; only `json` and `jsonl`
/// are accepted.
pub open spec fn export_format_s(format: Option<Seq<char>>) -> Result<Seq<char>, Seq<char>> {
    let f = match format {
        Some(f) => f,
        None => "json"@,
    };
    if f == "json"@ || f == "jsonl"@ {
        Ok(f)
    } else {
        Err("Invalid format '"@ + f + "'. Must be 'json' or 'jsonl'."@)
    }
}

/// The export format, or the refusal of an unknown one.
pub fn export_format(format: Option<&str>) -> (r: Result<String, String>)
    ensures
        match r {
            Ok(f) => export_format_s(
                match format {
                    Some(s) => Some(s@),
                    None => None,
                },
            ) == Ok::<Seq<char>, Seq<char>>(f@),
            Err(e) => export_format_s(
                match format {
                    Some(s) => Some(s@),
                    None => None,
                },
            ) == Err::<Seq<char>, Seq<char>>(e@),
        },
{
    let f: &str = match format {
        Some(s) => s,
        None => "json",
    };
    let c = chars_of(f);
    if chars_eq_str(&c, "json") || chars_eq_str(&c, "jsonl") {
        Ok(owned(f))
    } else {
        let mut m: Vec<char> = chars_of("Invalid format '");
        push_str(&mut m, f);
        push_str(&mut m, "'. Must be 'json' or 'jsonl'.");
        Err(string_of(m.as_slice()))
    }
}

pub open spec fn names_of_strings(v: Seq<String>) -> Seq<Seq<char>> {
    Seq::new(v.len(), |i: int| v[i]@)
}

/// A memory passes the tag filter when it carries every tag of the filter
/// (an empty filter passes everything).
pub open spec fn has_all_tags_s(tags: Seq<Seq<char>>, filter: Seq<Seq<char>>) -> bool {
    forall|i: int| 0 <= i < filter.len() ==> tags.contains(#[trigger] filter[i])
}

/// Whether a memory with `tags` passes the export's tag filter.
pub fn has_all_tags(tags: &Vec<String>, filter: &Vec<String>) -> (r: bool)
    ensures
        r == has_all_tags_s(names_of_strings(tags@), names_of_strings(filter@)),
{
    let ghost t = names_of_strings(tags@);
    let ghost f = names_of_strings(filter@);
    let mut i: usize = 0;
    while i < filter.len()
        invariant
            0 <= i <= filter@.len(),
            t == names_of_strings(tags@),
            f == names_of_strings(filter@),
            forall|k: int| 0 <= k < i ==> t.contains(#[trigger] f[k]),
        decreases filter.len() - i,
    {
        let mut found = false;
        let mut j: usize = 0;
        while j < tags.len()
            invariant
                0 <= j <= tags@.len(),
                0 <= i < filter@.len(),
                t == names_of_strings(tags@),
                f == names_of_strings(filter@),
                found ==> t.contains(f[i as int]),
                !found ==> forall|k: int| 0 <= k < j ==> t[k] != f[i as int],
            decreases tags.len() - j,
        {
            if !found && crate::json::string_eq_str(&tags[j], filter[i].as_str()) {
                found = true;
                proof {
                    assert(t[j as int] == f[i as int]);
                }
            }
            j = j + 1;
        }
        if !found {
            proof {
                assert(!t.contains(f[i as int]));
            }
            return false;
        }
        i = i + 1;
    }
    true
}

/// The last component of a path, as `std::path::Path::file_name` reads it
/// (`None` for a path that ends in `..` or names no file).
pub uninterp spec fn path_file_name(p: Seq<char>) -> Option<Seq<char>>;

/// `Path::new(p).file_name()`, as text. The contract ties the result to
/// [`path_file_name`]; a component of a `&str` path is always valid UTF-8.
#[verifier::external_body]
fn file_name_of(p: &str) -> (r: Option<String>)
    ensures
        match r {
            Some(n) => path_file_name(p@) == Some(n@),
            None => path_file_name(p@) is None,
        },
{
    std::path::Path::new(p).file_name().map(|n| n.to_string_lossy().into_owned())
}

/// The file name an export is written under, from its `path` argument:
/// only a file name is kept (so that no path leaves the exports directory),
/// and one holding `..` is refused. `None` when no path was given.
pub open spec fn export_name_s(path: Option<Seq<char>>) -> Result<Option<Seq<char>>, Seq<char>> {
    match path {
        None => Ok(None),
        Some(p) => match path_file_name(p) {
            None => Err("Invalid export filename: must be a simple filename, not a path"@),
            Some(n) => if contains_s(n, ".."@) {
                Err("Invalid export filename: '..' not allowed"@)
            } else {
                Ok(Some(n))
            },
        },
    }
}

/// The file name an export is written under.
pub fn export_file_name(path: Option<&str>) -> (r: Result<Option<String>, String>)
    ensures
        match r {
            Ok(Some(n)) => export_name_s(
                match path {
                    Some(s) => Some(s@),
                    None => None,
                },
            ) == Ok::<Option<Seq<char>>, Seq<char>>(Some(n@)),
            Ok(None) => export_name_s(
                match path {
                    Some(s) => Some(s@),
                    None => None,
                },
            ) == Ok::<Option<Seq<char>>, Seq<char>>(None),
            Err(e) => export_name_s(
                match path {
                    Some(s) => Some(s@),
                    None => None,
                },
            ) == Err::<Option<Seq<char>>, Seq<char>>(e@),
        },
{
    match path {
        None => Ok(None),
        Some(p) => match file_name_of(p) {
            None => Err(owned("Invalid export filename: must be a simple filename, not a path")),
            Some(n) => {
                if contains_text(n.as_str(), "..") {
                    Err(owned("Invalid export filename: '..' not allowed"))
                } else {
                    Ok(Some(n))
                }
            },
        },
    }
}

/// The default export file name: `memories-<timestamp>.<format>`.
pub fn default_export_name(timestamp: &str, format: &str) -> (r: String)
    ensures
        r@ == "memories-"@ + timestamp@ + "."@ + format@,
{
    let mut m: Vec<char> = chars_of("memories-");
    push_str(&mut m, timestamp);
    push_str(&mut m, ".");
    push_str(&mut m, format);
    string_of(m.as_slice())
}

/// The error for a `since` date the calendar parser refused.
pub fn invalid_date_message(date: &str, reason: &str) -> (r: String)
    ensures
        r@ == "Invalid date '"@ + date@ + "': "@ + reason@ + ". Use YYYY-MM-DD."@,
{
    let mut m: Vec<char> = chars_of("Invalid date '");
    push_str(&mut m, date);
    push_str(&mut m, "': ");
    push_str(&mut m, reason);
    push_str(&mut m, ". Use YYYY-MM-DD.");
    string_of(m.as_slice())
}

/// What `chrono::NaiveDate::parse_from_str(s, "%Y-%m-%d")` gives for `s`:
/// the date's midnight (UTC) in seconds since the epoch, or the text of the
/// parser's error.
pub uninterp spec fn ymd_midnight(s: Seq<char>) -> Result<int, Seq<char>>;

/// `NaiveDate::parse_from_str(s, "%Y-%m-%d")`, taken to midnight UTC as a
/// Unix timestamp; an error becomes its display text. The contract ties the
/// result to [`ymd_midnight`] and states nothing more of the date grammar.
#[verifier::external_body]
fn parse_ymd_midnight(s: &str) -> (r: Result<i64, String>)
    ensures
        match r {
            Ok(t) => ymd_midnight(s@) == Ok::<int, Seq<char>>(t as int),
            Err(e) => ymd_midnight(s@) == Err::<int, Seq<char>>(e@),
        },
{
    match chrono::NaiveDate::parse_from_str(s, "%Y-%m-%d") {
        Ok(d) => Ok(d.and_time(chrono::NaiveTime::MIN).and_utc().timestamp()),
        Err(e) => Err(e.to_string()),
    }
}

/// The `since` bound of an export: none when no date is given, the date's
/// midnight (UTC, in seconds since the epoch) for a `YYYY-MM-DD` date, and
/// the invalid-date error otherwise.
pub fn export_since(since: Option<&str>) -> (r: Result<Option<i64>, String>)
    ensures
        match since {
            None => r == Ok::<Option<i64>, String>(None),
            Some(s) => match ymd_midnight(s@) {
                Ok(t) => r matches Ok(Some(x)) && x == t,
                Err(reason) => r matches Err(m) && m@ == "Invalid date '"@ + s@ + "': "@ + reason
                    + ". Use YYYY-MM-DD."@,
            },
        },
{
    match since {
        None => Ok(None),
        Some(s) => match parse_ymd_midnight(s) {
            Ok(t) => Ok(Some(t)),
            Err(reason) => Err(invalid_date_message(s, reason.as_str())),
        },
    }
}

/// Whether a memory created at `created_at` (seconds since the epoch) passes
/// the export's `since` bound: it is not created before it.
pub fn passes_since(created_at: i64, since: Option<i64>) -> (r: bool)
    ensures
        r == (since is None || created_at >= since->0),
{
    match since {
        Some(t) => created_at >= t,
        None => true,
    }
}

/// The report of an export.
pub fn export_reply(path: &str, format: &str, exported: usize, total: usize, size_bytes: u64) -> (r: Json)
    ensures
        r@ == JsonV::Object(
            seq![
                ("tool"@, JsonV::Str("export"@)),
                ("path"@, JsonV::Str(path@)),
                ("format"@, JsonV::Str(format@)),
                ("memoriesExported"@, count_v(exported as nat)),
                ("totalMemories"@, count_v(total as nat)),
                ("sizeBytes"@, count_v(size_bytes as nat)),
            ],
        ),
{
    let mut e = new_entries();
    push_entry(&mut e, "tool", Json::from_str("export"));
    push_entry(&mut e, "path", Json::from_str(path));
    push_entry(&mut e, "format", Json::from_str(format));
    push_entry(&mut e, "memoriesExported", crate::json::count(exported));
    push_entry(&mut e, "totalMemories", crate::json::count(total));
    push_entry(&mut e, "sizeBytes", crate::json::uint(size_bytes));
    proof {
        assert(entries_model(e@) =~= seq![
            ("tool"@, JsonV::Str("export"@)),
            ("path"@, JsonV::Str(path@)),
            ("format"@, JsonV::Str(format@)),
            ("memoriesExported"@, count_v(exported as nat)),
            ("totalMemories"@, count_v(total as nat)),
            ("sizeBytes"@, count_v(size_bytes as nat)),
        ]);
    }
    object(e)
}

// ---------------------------------------------------------------------------
// system_status
// ---------------------------------------------------------------------------

/// The store's counts, and the outcome of the comparisons on its average
/// retention and embedding coverage (floating-point, compared by the caller).
pub struct StatusFacts {
    pub total_nodes: u64,
    pub nodes_with_embeddings: u64,
    pub nodes_due_for_review: u64,
    /// Average retention below 0.3.
    pub retention_below_0_3: bool,
    /// Average retention below 0.5.
    pub retention_below_0_5: bool,
    /// Average retention below 0.7.
    pub retention_below_0_7: bool,
    /// Embedding coverage below 50%.
    pub coverage_below_half: bool,
}

/// The overall status: `empty`, `critical`, `degraded` or `healthy`.
pub open spec fn status_s(f: StatusFacts) -> Seq<char> {
    if f.total_nodes == 0 {
        "empty"@
    } else if f.retention_below_0_3 {
        "critical"@
    } else if f.retention_below_0_5 {
        "degraded"@
    } else {
        "healthy"@
    }
}

/// The overall status of the memory system.
pub fn health_status(f: &StatusFacts) -> (r: &'static str)
    ensures
        r@ == status_s(*f),
{
    if f.total_nodes == 0 {
        "empty"
    } else if f.retention_below_0_3 {
        "critical"
    } else if f.retention_below_0_5 {
        "degraded"
    } else {
        "healthy"
    }
}

/// The warnings of a status report, in order.
pub open spec fn warnings_s(f: StatusFacts) -> Seq<Seq<char>> {
    let w1: Seq<Seq<char>> = if f.retention_below_0_5 && f.total_nodes > 0 {
        seq!["Low average retention - consider running consolidation"@]
    } else {
        seq![]
    };
    let w2: Seq<Seq<char>> = if f.nodes_due_for_review > 10 {
        seq!["Many memories are due for review"@]
    } else {
        seq![]
    };
    let w3: Seq<Seq<char>> = if f.total_nodes > 0 && f.nodes_with_embeddings == 0 {
        seq!["No embeddings generated - semantic search unavailable"@]
    } else {
        seq![]
    };
    let w4: Seq<Seq<char>> = if f.coverage_below_half && f.total_nodes > 10 {
        seq!["Low embedding coverage - run consolidate to improve semantic search"@]
    } else {
        seq![]
    };
    w1 + w2 + w3 + w4
}

/// The recommendations of a status report, in order.
pub open spec fn recommendations_s(f: StatusFacts) -> Seq<Seq<char>> {
    let r1: Seq<Seq<char>> = if status_s(f) == "critical"@ {
        seq!["CRITICAL: Many memories have very low retention. Review important memories."@]
    } else {
        seq![]
    };
    let r2: Seq<Seq<char>> = if f.nodes_due_for_review > 5 {
        seq!["Review due memories to strengthen retention."@]
    } else {
        seq![]
    };
    let r3: Seq<Seq<char>> = if f.nodes_with_embeddings < f.total_nodes {
        seq!["Run 'consolidate' to generate missing embeddings."@]
    } else {
        seq![]
    };
    let r4: Seq<Seq<char>> = if f.total_nodes > 100 && f.retention_below_0_7 {
        seq!["Consider running periodic consolidation."@]
    } else {
        seq![]
    };
    let r = r1 + r2 + r3 + r4;
    if status_s(f) == "healthy"@ && r.len() == 0 {
        seq!["Memory system is healthy!"@]
    } else {
        r
    }
}

pub open spec fn strs_view(v: Seq<&'static str>) -> Seq<Seq<char>> {
    Seq::new(v.len(), |i: int| v[i]@)
}

/// The warnings of a status report.
pub fn status_warnings(f: &StatusFacts) -> (r: Vec<&'static str>)
    ensures
        strs_view(r@) == warnings_s(*f),
{
    let mut r: Vec<&'static str> = Vec::new();
    if f.retention_below_0_5 && f.total_nodes > 0 {
        r.push("Low average retention - consider running consolidation");
    }
    if f.nodes_due_for_review > 10 {
        r.push("Many memories are due for review");
    }
    if f.total_nodes > 0 && f.nodes_with_embeddings == 0 {
        r.push("No embeddings generated - semantic search unavailable");
    }
    if f.coverage_below_half && f.total_nodes > 10 {
        r.push("Low embedding coverage - run consolidate to improve semantic search");
    }
    proof {
        assert(strs_view(r@) =~= warnings_s(*f));
    }
    r
}

/// The recommendations of a status report.
pub fn status_recommendations(f: &StatusFacts) -> (r: Vec<&'static str>)
    ensures
        strs_view(r@) == recommendations_s(*f),
{
    let status = health_status(f);
    let critical = f.total_nodes != 0 && f.retention_below_0_3;
    let healthy = f.total_nodes != 0 && !f.retention_below_0_3 && !f.retention_below_0_5;
    proof {
        reveal_strlit("empty");
        reveal_strlit("critical");
        reveal_strlit("degraded");
        reveal_strlit("healthy");
        assert(critical == (status_s(*f) == "critical"@)) by {
            assert("empty"@[0] != "critical"@[0]);
            assert("degraded"@[0] != "critical"@[0]);
            assert("healthy"@[0] != "critical"@[0]);
        }
        assert(healthy == (status_s(*f) == "healthy"@)) by {
            assert("empty"@[0] != "healthy"@[0]);
            assert("degraded"@[0] != "healthy"@[0]);
            assert("critical"@[0] != "healthy"@[0]);
        }
    }
    let mut r: Vec<&'static str> = Vec::new();
    if critical {
        r.push("CRITICAL: Many memories have very low retention. Review important memories.");
    }
    if f.nodes_due_for_review > 5 {
        r.push("Review due memories to strengthen retention.");
    }
    if f.nodes_with_embeddings < f.total_nodes {
        r.push("Run 'consolidate' to generate missing embeddings.");
    }
    if f.total_nodes > 100 && f.retention_below_0_7 {
        r.push("Consider running periodic consolidation.");
    }
    if healthy && r.len() == 0 {
        r.push("Memory system is healthy!");
    }
    proof {
        let s = status_s(*f);
        assert(strs_view(r@) =~= recommendations_s(*f));
    }
    r
}

/// A report never leaves the caller without advice: there is always at
/// least one recommendation for a healthy store.
pub proof fn law_a_healthy_store_gets_a_recommendation(f: StatusFacts)
    requires
        status_s(f) == "healthy"@,
    ensures
        recommendations_s(f).len() >= 1,
{
}

} // verus!
