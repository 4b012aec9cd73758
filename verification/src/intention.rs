//! The `intention` tool (prospective memory): its argument schema, the
//! checks on each action, the priorities and triggers it decides, and the
//! replies it writes. The store keeps the intentions; the clock and the
//! natural-language parser are the caller's.

use vstd::prelude::*;
use crate::json::{array, entries_model, keys_of, new_entries, object, push_entry, Json};
use crate::schema::{declared_args, names_of, required_args, schema_shape, ToolSchema};
use crate::json::{count_v, opt_str_json, strs_model, JsonV};
use crate::text::{
    chars_of, contains_ignoring_case, contains_s, contains_text, copy_range, fit_len,
    fit_prefix_len, lowercase, owned, push_chars, push_str, signed_decimal, signed_decimal_s,
    string_of, trim_range, trim_s, utf8_len,
};

verus! {

broadcast use vstd::string::group_string_axioms;

/// The argument schema of `intention`, as published.
pub open spec fn schema_spec() -> JsonV {
    JsonV::Object(seq![
        ("type"@, JsonV::Str("object"@)),
        ("properties"@, JsonV::Object(seq![
            ("action"@, JsonV::Object(seq![
                ("type"@, JsonV::Str("string"@)),
                ("enum"@, JsonV::Array(seq![
                    JsonV::Str("set"@),
                    JsonV::Str("check"@),
                    JsonV::Str("update"@),
                    JsonV::Str("list"@),
                ])),
                ("description"@, JsonV::Str("The action to perform: 'set' creates a new intention, 'check' finds triggered intentions, 'update' modifies status (complete/snooze/cancel), 'list' shows intentions"@)),
            ])),
            ("description"@, JsonV::Object(seq![
                ("type"@, JsonV::Str("string"@)),
                ("description"@, JsonV::Str("[set] What to remember to do"@)),
            ])),
            ("trigger"@, JsonV::Object(seq![
                ("type"@, JsonV::Str("object"@)),
                ("description"@, JsonV::Str("[set] When to trigger this intention"@)),
                ("properties"@, JsonV::Object(seq![
                    ("type"@, JsonV::Object(seq![
                        ("type"@, JsonV::Str("string"@)),
                        ("enum"@, JsonV::Array(seq![
                            JsonV::Str("time"@),
                            JsonV::Str("context"@),
                            JsonV::Str("event"@),
                        ])),
                        ("description"@, JsonV::Str("Trigger type: time-based, context-based, or event-based"@)),
                    ])),
                    ("at"@, JsonV::Object(seq![
                        ("type"@, JsonV::Str("string"@)),
                        ("description"@, JsonV::Str("ISO timestamp for time-based triggers"@)),
                    ])),
                    ("in_minutes"@, JsonV::Object(seq![
                        ("type"@, JsonV::Str("integer"@)),
                        ("description"@, JsonV::Str("Minutes from now for duration-based triggers"@)),
                    ])),
                    ("codebase"@, JsonV::Object(seq![
                        ("type"@, JsonV::Str("string"@)),
                        ("description"@, JsonV::Str("Trigger when working in this codebase"@)),
                    ])),
                    ("file_pattern"@, JsonV::Object(seq![
                        ("type"@, JsonV::Str("string"@)),
                        ("description"@, JsonV::Str("Trigger when editing files matching this pattern"@)),
                    ])),
                    ("topic"@, JsonV::Object(seq![
                        ("type"@, JsonV::Str("string"@)),
                        ("description"@, JsonV::Str("Trigger when discussing this topic"@)),
                    ])),
                    ("condition"@, JsonV::Object(seq![
                        ("type"@, JsonV::Str("string"@)),
                        ("description"@, JsonV::Str("Natural language condition for event triggers"@)),
                    ])),
                ])),
            ])),
            ("priority"@, JsonV::Object(seq![
                ("type"@, JsonV::Str("string"@)),
                ("enum"@, JsonV::Array(seq![
                    JsonV::Str("low"@),
                    JsonV::Str("normal"@),
                    JsonV::Str("high"@),
                    JsonV::Str("critical"@),
                ])),
                ("default"@, JsonV::Str("normal"@)),
                ("description"@, JsonV::Str("[set] Priority level"@)),
            ])),
            ("deadline"@, JsonV::Object(seq![
                ("type"@, JsonV::Str("string"@)),
                ("description"@, JsonV::Str("[set] Optional deadline (ISO timestamp)"@)),
            ])),
            ("id"@, JsonV::Object(seq![
                ("type"@, JsonV::Str("string"@)),
                ("description"@, JsonV::Str("[update] ID of the intention to update"@)),
            ])),
            ("status"@, JsonV::Object(seq![
                ("type"@, JsonV::Str("string"@)),
                ("enum"@, JsonV::Array(seq![
                    JsonV::Str("complete"@),
                    JsonV::Str("snooze"@),
                    JsonV::Str("cancel"@),
                ])),
                ("description"@, JsonV::Str("[update] New status: 'complete' marks as fulfilled, 'snooze' delays, 'cancel' cancels"@)),
            ])),
            ("snooze_minutes"@, JsonV::Object(seq![
                ("type"@, JsonV::Str("integer"@)),
                ("default"@, JsonV::Int(30)),
                ("description"@, JsonV::Str("[update] Minutes to snooze for (when status is 'snooze')"@)),
            ])),
            ("context"@, JsonV::Object(seq![
                ("type"@, JsonV::Str("object"@)),
                ("description"@, JsonV::Str("[check] Current context for matching intentions"@)),
                ("properties"@, JsonV::Object(seq![
                    ("current_time"@, JsonV::Object(seq![
                        ("type"@, JsonV::Str("string"@)),
                        ("description"@, JsonV::Str("Current ISO timestamp (defaults to now)"@)),
                    ])),
                    ("codebase"@, JsonV::Object(seq![
                        ("type"@, JsonV::Str("string"@)),
                        ("description"@, JsonV::Str("Current codebase/project name"@)),
                    ])),
                    ("file"@, JsonV::Object(seq![
                        ("type"@, JsonV::Str("string"@)),
                        ("description"@, JsonV::Str("Current file path"@)),
                    ])),
                    ("topics"@, JsonV::Object(seq![
                        ("type"@, JsonV::Str("array"@)),
                        ("items"@, JsonV::Object(seq![
                            ("type"@, JsonV::Str("string"@)),
                        ])),
                        ("description"@, JsonV::Str("Current discussion topics"@)),
                    ])),
                ])),
            ])),
            ("include_snoozed"@, JsonV::Object(seq![
                ("type"@, JsonV::Str("boolean"@)),
                ("default"@, JsonV::Bool(false)),
                ("description"@, JsonV::Str("[check] Include snoozed intentions"@)),
            ])),
            ("filter_status"@, JsonV::Object(seq![
                ("type"@, JsonV::Str("string"@)),
                ("enum"@, JsonV::Array(seq![
                    JsonV::Str("active"@),
                    JsonV::Str("fulfilled"@),
                    JsonV::Str("cancelled"@),
                    JsonV::Str("snoozed"@),
                    JsonV::Str("all"@),
                ])),
                ("default"@, JsonV::Str("active"@)),
                ("description"@, JsonV::Str("[list] Filter by status"@)),
            ])),
            ("limit"@, JsonV::Object(seq![
                ("type"@, JsonV::Str("integer"@)),
                ("minimum"@, JsonV::Int(1)),
                ("maximum"@, JsonV::Int(100)),
                ("default"@, JsonV::Int(20)),
                ("description"@, JsonV::Str("[list] Maximum number to return (1-100; values outside the range are clamped)"@)),
            ])),
        ])),
        ("required"@, JsonV::Array(seq![
            JsonV::Str("action"@),
        ])),
        ("description"@, JsonV::Str("Unified intention management tool. Supports setting, checking, updating (complete/snooze/cancel), and listing intentions."@)),
    ])
}

/// The arguments of `intention`: `action` is required.
#[verifier::spinoff_prover]
#[verifier::rlimit(60)]
pub fn schema() -> (r: Json)
    ensures
        r@ == schema_spec(),
        schema_shape(r@),
        declared_args(r@) == seq!["action"@, "description"@, "trigger"@, "priority"@, "deadline"@, "id"@, "status"@, "snooze_minutes"@, "context"@, "include_snoozed"@, "filter_status"@, "limit"@],
        required_args(r@) == seq!["action"@],
{
    let mut props = new_entries();
    push_entry(&mut props, "action", {
        let mut e = new_entries();
        push_entry(&mut e, "type", Json::from_str("string"));
        push_entry(&mut e, "enum", {
            let mut a: Vec<Json> = Vec::new();
            a.push(Json::from_str("set"));
            a.push(Json::from_str("check"));
            a.push(Json::from_str("update"));
            a.push(Json::from_str("list"));
            proof {
                assert(crate::json::items_model(a@) =~= seq![
                    JsonV::Str("set"@),
                    JsonV::Str("check"@),
                    JsonV::Str("update"@),
                    JsonV::Str("list"@),
                ]);
            }
            array(a)
        });
        push_entry(&mut e, "description", Json::from_str("The action to perform: 'set' creates a new intention, 'check' finds triggered intentions, 'update' modifies status (complete/snooze/cancel), 'list' shows intentions"));
        proof {
            assert(crate::json::entries_model(e@) =~= seq![
                ("type"@, JsonV::Str("string"@)),
                ("enum"@, JsonV::Array(seq![
                    JsonV::Str("set"@),
                    JsonV::Str("check"@),
                    JsonV::Str("update"@),
                    JsonV::Str("list"@),
                ])),
                ("description"@, JsonV::Str("The action to perform: 'set' creates a new intention, 'check' finds triggered intentions, 'update' modifies status (complete/snooze/cancel), 'list' shows intentions"@)),
            ]);
        }
        object(e)
    });
    push_entry(&mut props, "description", {
        let mut e = new_entries();
        push_entry(&mut e, "type", Json::from_str("string"));
        push_entry(&mut e, "description", Json::from_str("[set] What to remember to do"));
        proof {
            assert(crate::json::entries_model(e@) =~= seq![
                ("type"@, JsonV::Str("string"@)),
                ("description"@, JsonV::Str("[set] What to remember to do"@)),
            ]);
        }
        object(e)
    });
    push_entry(&mut props, "trigger", {
        let mut e = new_entries();
        push_entry(&mut e, "type", Json::from_str("object"));
        push_entry(&mut e, "description", Json::from_str("[set] When to trigger this intention"));
        push_entry(&mut e, "properties", {
            let mut e = new_entries();
            push_entry(&mut e, "type", {
                let mut e = new_entries();
                push_entry(&mut e, "type", Json::from_str("string"));
                push_entry(&mut e, "enum", {
                    let mut a: Vec<Json> = Vec::new();
                    a.push(Json::from_str("time"));
                    a.push(Json::from_str("context"));
                    a.push(Json::from_str("event"));
                    proof {
                        assert(crate::json::items_model(a@) =~= seq![
                            JsonV::Str("time"@),
                            JsonV::Str("context"@),
                            JsonV::Str("event"@),
                        ]);
                    }
                    array(a)
                });
                push_entry(&mut e, "description", Json::from_str("Trigger type: time-based, context-based, or event-based"));
                proof {
                    assert(crate::json::entries_model(e@) =~= seq![
                        ("type"@, JsonV::Str("string"@)),
                        ("enum"@, JsonV::Array(seq![
                            JsonV::Str("time"@),
                            JsonV::Str("context"@),
                            JsonV::Str("event"@),
                        ])),
                        ("description"@, JsonV::Str("Trigger type: time-based, context-based, or event-based"@)),
                    ]);
                }
                object(e)
            });
            push_entry(&mut e, "at", {
                let mut e = new_entries();
                push_entry(&mut e, "type", Json::from_str("string"));
                push_entry(&mut e, "description", Json::from_str("ISO timestamp for time-based triggers"));
                proof {
                    assert(crate::json::entries_model(e@) =~= seq![
                        ("type"@, JsonV::Str("string"@)),
                        ("description"@, JsonV::Str("ISO timestamp for time-based triggers"@)),
                    ]);
                }
                object(e)
            });
            push_entry(&mut e, "in_minutes", {
                let mut e = new_entries();
                push_entry(&mut e, "type", Json::from_str("integer"));
                push_entry(&mut e, "description", Json::from_str("Minutes from now for duration-based triggers"));
                proof {
                    assert(crate::json::entries_model(e@) =~= seq![
                        ("type"@, JsonV::Str("integer"@)),
                        ("description"@, JsonV::Str("Minutes from now for duration-based triggers"@)),
                    ]);
                }
                object(e)
            });
            push_entry(&mut e, "codebase", {
                let mut e = new_entries();
                push_entry(&mut e, "type", Json::from_str("string"));
                push_entry(&mut e, "description", Json::from_str("Trigger when working in this codebase"));
                proof {
                    assert(crate::json::entries_model(e@) =~= seq![
                        ("type"@, JsonV::Str("string"@)),
                        ("description"@, JsonV::Str("Trigger when working in this codebase"@)),
                    ]);
                }
                object(e)
            });
            push_entry(&mut e, "file_pattern", {
                let mut e = new_entries();
                push_entry(&mut e, "type", Json::from_str("string"));
                push_entry(&mut e, "description", Json::from_str("Trigger when editing files matching this pattern"));
                proof {
                    assert(crate::json::entries_model(e@) =~= seq![
                        ("type"@, JsonV::Str("string"@)),
                        ("description"@, JsonV::Str("Trigger when editing files matching this pattern"@)),
                    ]);
                }
                object(e)
            });
            push_entry(&mut e, "topic", {
                let mut e = new_entries();
                push_entry(&mut e, "type", Json::from_str("string"));
                push_entry(&mut e, "description", Json::from_str("Trigger when discussing this topic"));
                proof {
                    assert(crate::json::entries_model(e@) =~= seq![
                        ("type"@, JsonV::Str("string"@)),
                        ("description"@, JsonV::Str("Trigger when discussing this topic"@)),
                    ]);
                }
                object(e)
            });
            push_entry(&mut e, "condition", {
                let mut e = new_entries();
                push_entry(&mut e, "type", Json::from_str("string"));
                push_entry(&mut e, "description", Json::from_str("Natural language condition for event triggers"));
                proof {
                    assert(crate::json::entries_model(e@) =~= seq![
                        ("type"@, JsonV::Str("string"@)),
                        ("description"@, JsonV::Str("Natural language condition for event triggers"@)),
                    ]);
                }
                object(e)
            });
            proof {
                assert(crate::json::entries_model(e@) =~= seq![
                    ("type"@, JsonV::Object(seq![
                        ("type"@, JsonV::Str("string"@)),
                        ("enum"@, JsonV::Array(seq![
                            JsonV::Str("time"@),
                            JsonV::Str("context"@),
                            JsonV::Str("event"@),
                        ])),
                        ("description"@, JsonV::Str("Trigger type: time-based, context-based, or event-based"@)),
                    ])),
                    ("at"@, JsonV::Object(seq![
                        ("type"@, JsonV::Str("string"@)),
                        ("description"@, JsonV::Str("ISO timestamp for time-based triggers"@)),
                    ])),
                    ("in_minutes"@, JsonV::Object(seq![
                        ("type"@, JsonV::Str("integer"@)),
                        ("description"@, JsonV::Str("Minutes from now for duration-based triggers"@)),
                    ])),
                    ("codebase"@, JsonV::Object(seq![
                        ("type"@, JsonV::Str("string"@)),
                        ("description"@, JsonV::Str("Trigger when working in this codebase"@)),
                    ])),
                    ("file_pattern"@, JsonV::Object(seq![
                        ("type"@, JsonV::Str("string"@)),
                        ("description"@, JsonV::Str("Trigger when editing files matching this pattern"@)),
                    ])),
                    ("topic"@, JsonV::Object(seq![
                        ("type"@, JsonV::Str("string"@)),
                        ("description"@, JsonV::Str("Trigger when discussing this topic"@)),
                    ])),
                    ("condition"@, JsonV::Object(seq![
                        ("type"@, JsonV::Str("string"@)),
                        ("description"@, JsonV::Str("Natural language condition for event triggers"@)),
                    ])),
                ]);
            }
            object(e)
        });
        proof {
            assert(crate::json::entries_model(e@) =~= seq![
                ("type"@, JsonV::Str("object"@)),
                ("description"@, JsonV::Str("[set] When to trigger this intention"@)),
                ("properties"@, JsonV::Object(seq![
                    ("type"@, JsonV::Object(seq![
                        ("type"@, JsonV::Str("string"@)),
                        ("enum"@, JsonV::Array(seq![
                            JsonV::Str("time"@),
                            JsonV::Str("context"@),
                            JsonV::Str("event"@),
                        ])),
                        ("description"@, JsonV::Str("Trigger type: time-based, context-based, or event-based"@)),
                    ])),
                    ("at"@, JsonV::Object(seq![
                        ("type"@, JsonV::Str("string"@)),
                        ("description"@, JsonV::Str("ISO timestamp for time-based triggers"@)),
                    ])),
                    ("in_minutes"@, JsonV::Object(seq![
                        ("type"@, JsonV::Str("integer"@)),
                        ("description"@, JsonV::Str("Minutes from now for duration-based triggers"@)),
                    ])),
                    ("codebase"@, JsonV::Object(seq![
                        ("type"@, JsonV::Str("string"@)),
                        ("description"@, JsonV::Str("Trigger when working in this codebase"@)),
                    ])),
                    ("file_pattern"@, JsonV::Object(seq![
                        ("type"@, JsonV::Str("string"@)),
                        ("description"@, JsonV::Str("Trigger when editing files matching this pattern"@)),
                    ])),
                    ("topic"@, JsonV::Object(seq![
                        ("type"@, JsonV::Str("string"@)),
                        ("description"@, JsonV::Str("Trigger when discussing this topic"@)),
                    ])),
                    ("condition"@, JsonV::Object(seq![
                        ("type"@, JsonV::Str("string"@)),
                        ("description"@, JsonV::Str("Natural language condition for event triggers"@)),
                    ])),
                ])),
            ]);
        }
        object(e)
    });
    push_entry(&mut props, "priority", {
        let mut e = new_entries();
        push_entry(&mut e, "type", Json::from_str("string"));
        push_entry(&mut e, "enum", {
            let mut a: Vec<Json> = Vec::new();
            a.push(Json::from_str("low"));
            a.push(Json::from_str("normal"));
            a.push(Json::from_str("high"));
            a.push(Json::from_str("critical"));
            proof {
                assert(crate::json::items_model(a@) =~= seq![
                    JsonV::Str("low"@),
                    JsonV::Str("normal"@),
                    JsonV::Str("high"@),
                    JsonV::Str("critical"@),
                ]);
            }
            array(a)
        });
        push_entry(&mut e, "default", Json::from_str("normal"));
        push_entry(&mut e, "description", Json::from_str("[set] Priority level"));
        proof {
            assert(crate::json::entries_model(e@) =~= seq![
                ("type"@, JsonV::Str("string"@)),
                ("enum"@, JsonV::Array(seq![
                    JsonV::Str("low"@),
                    JsonV::Str("normal"@),
                    JsonV::Str("high"@),
                    JsonV::Str("critical"@),
                ])),
                ("default"@, JsonV::Str("normal"@)),
                ("description"@, JsonV::Str("[set] Priority level"@)),
            ]);
        }
        object(e)
    });
    push_entry(&mut props, "deadline", {
        let mut e = new_entries();
        push_entry(&mut e, "type", Json::from_str("string"));
        push_entry(&mut e, "description", Json::from_str("[set] Optional deadline (ISO timestamp)"));
        proof {
            assert(crate::json::entries_model(e@) =~= seq![
                ("type"@, JsonV::Str("string"@)),
                ("description"@, JsonV::Str("[set] Optional deadline (ISO timestamp)"@)),
            ]);
        }
        object(e)
    });
    push_entry(&mut props, "id", {
        let mut e = new_entries();
        push_entry(&mut e, "type", Json::from_str("string"));
        push_entry(&mut e, "description", Json::from_str("[update] ID of the intention to update"));
        proof {
            assert(crate::json::entries_model(e@) =~= seq![
                ("type"@, JsonV::Str("string"@)),
                ("description"@, JsonV::Str("[update] ID of the intention to update"@)),
            ]);
        }
        object(e)
    });
    push_entry(&mut props, "status", {
        let mut e = new_entries();
        push_entry(&mut e, "type", Json::from_str("string"));
        push_entry(&mut e, "enum", {
            let mut a: Vec<Json> = Vec::new();
            a.push(Json::from_str("complete"));
            a.push(Json::from_str("snooze"));
            a.push(Json::from_str("cancel"));
            proof {
                assert(crate::json::items_model(a@) =~= seq![
                    JsonV::Str("complete"@),
                    JsonV::Str("snooze"@),
                    JsonV::Str("cancel"@),
                ]);
            }
            array(a)
        });
        push_entry(&mut e, "description", Json::from_str("[update] New status: 'complete' marks as fulfilled, 'snooze' delays, 'cancel' cancels"));
        proof {
            assert(crate::json::entries_model(e@) =~= seq![
                ("type"@, JsonV::Str("string"@)),
                ("enum"@, JsonV::Array(seq![
                    JsonV::Str("complete"@),
                    JsonV::Str("snooze"@),
                    JsonV::Str("cancel"@),
                ])),
                ("description"@, JsonV::Str("[update] New status: 'complete' marks as fulfilled, 'snooze' delays, 'cancel' cancels"@)),
            ]);
        }
        object(e)
    });
    push_entry(&mut props, "snooze_minutes", {
        let mut e = new_entries();
        push_entry(&mut e, "type", Json::from_str("integer"));
        push_entry(&mut e, "default", Json::Int(30));
        push_entry(&mut e, "description", Json::from_str("[update] Minutes to snooze for (when status is 'snooze')"));
        proof {
            assert(crate::json::entries_model(e@) =~= seq![
                ("type"@, JsonV::Str("integer"@)),
                ("default"@, JsonV::Int(30)),
                ("description"@, JsonV::Str("[update] Minutes to snooze for (when status is 'snooze')"@)),
            ]);
        }
        object(e)
    });
    push_entry(&mut props, "context", {
        let mut e = new_entries();
        push_entry(&mut e, "type", Json::from_str("object"));
        push_entry(&mut e, "description", Json::from_str("[check] Current context for matching intentions"));
        push_entry(&mut e, "properties", {
            let mut e = new_entries();
            push_entry(&mut e, "current_time", {
                let mut e = new_entries();
                push_entry(&mut e, "type", Json::from_str("string"));
                push_entry(&mut e, "description", Json::from_str("Current ISO timestamp (defaults to now)"));
                proof {
                    assert(crate::json::entries_model(e@) =~= seq![
                        ("type"@, JsonV::Str("string"@)),
                        ("description"@, JsonV::Str("Current ISO timestamp (defaults to now)"@)),
                    ]);
                }
                object(e)
            });
            push_entry(&mut e, "codebase", {
                let mut e = new_entries();
                push_entry(&mut e, "type", Json::from_str("string"));
                push_entry(&mut e, "description", Json::from_str("Current codebase/project name"));
                proof {
                    assert(crate::json::entries_model(e@) =~= seq![
                        ("type"@, JsonV::Str("string"@)),
                        ("description"@, JsonV::Str("Current codebase/project name"@)),
                    ]);
                }
                object(e)
            });
            push_entry(&mut e, "file", {
                let mut e = new_entries();
                push_entry(&mut e, "type", Json::from_str("string"));
                push_entry(&mut e, "description", Json::from_str("Current file path"));
                proof {
                    assert(crate::json::entries_model(e@) =~= seq![
                        ("type"@, JsonV::Str("string"@)),
                        ("description"@, JsonV::Str("Current file path"@)),
                    ]);
                }
                object(e)
            });
            push_entry(&mut e, "topics", {
                let mut e = new_entries();
                push_entry(&mut e, "type", Json::from_str("array"));
                push_entry(&mut e, "items", {
                    let mut e = new_entries();
                    push_entry(&mut e, "type", Json::from_str("string"));
                    proof {
                        assert(crate::json::entries_model(e@) =~= seq![
                            ("type"@, JsonV::Str("string"@)),
                        ]);
                    }
                    object(e)
                });
                push_entry(&mut e, "description", Json::from_str("Current discussion topics"));
                proof {
                    assert(crate::json::entries_model(e@) =~= seq![
                        ("type"@, JsonV::Str("array"@)),
                        ("items"@, JsonV::Object(seq![
                            ("type"@, JsonV::Str("string"@)),
                        ])),
                        ("description"@, JsonV::Str("Current discussion topics"@)),
                    ]);
                }
                object(e)
            });
            proof {
                assert(crate::json::entries_model(e@) =~= seq![
                    ("current_time"@, JsonV::Object(seq![
                        ("type"@, JsonV::Str("string"@)),
                        ("description"@, JsonV::Str("Current ISO timestamp (defaults to now)"@)),
                    ])),
                    ("codebase"@, JsonV::Object(seq![
                        ("type"@, JsonV::Str("string"@)),
                        ("description"@, JsonV::Str("Current codebase/project name"@)),
                    ])),
                    ("file"@, JsonV::Object(seq![
                        ("type"@, JsonV::Str("string"@)),
                        ("description"@, JsonV::Str("Current file path"@)),
                    ])),
                    ("topics"@, JsonV::Object(seq![
                        ("type"@, JsonV::Str("array"@)),
                        ("items"@, JsonV::Object(seq![
                            ("type"@, JsonV::Str("string"@)),
                        ])),
                        ("description"@, JsonV::Str("Current discussion topics"@)),
                    ])),
                ]);
            }
            object(e)
        });
        proof {
            assert(crate::json::entries_model(e@) =~= seq![
                ("type"@, JsonV::Str("object"@)),
                ("description"@, JsonV::Str("[check] Current context for matching intentions"@)),
                ("properties"@, JsonV::Object(seq![
                    ("current_time"@, JsonV::Object(seq![
                        ("type"@, JsonV::Str("string"@)),
                        ("description"@, JsonV::Str("Current ISO timestamp (defaults to now)"@)),
                    ])),
                    ("codebase"@, JsonV::Object(seq![
                        ("type"@, JsonV::Str("string"@)),
                        ("description"@, JsonV::Str("Current codebase/project name"@)),
                    ])),
                    ("file"@, JsonV::Object(seq![
                        ("type"@, JsonV::Str("string"@)),
                        ("description"@, JsonV::Str("Current file path"@)),
                    ])),
                    ("topics"@, JsonV::Object(seq![
                        ("type"@, JsonV::Str("array"@)),
                        ("items"@, JsonV::Object(seq![
                            ("type"@, JsonV::Str("string"@)),
                        ])),
                        ("description"@, JsonV::Str("Current discussion topics"@)),
                    ])),
                ])),
            ]);
        }
        object(e)
    });
    push_entry(&mut props, "include_snoozed", {
        let mut e = new_entries();
        push_entry(&mut e, "type", Json::from_str("boolean"));
        push_entry(&mut e, "default", Json::Bool(false));
        push_entry(&mut e, "description", Json::from_str("[check] Include snoozed intentions"));
        proof {
            assert(crate::json::entries_model(e@) =~= seq![
                ("type"@, JsonV::Str("boolean"@)),
                ("default"@, JsonV::Bool(false)),
                ("description"@, JsonV::Str("[check] Include snoozed intentions"@)),
            ]);
        }
        object(e)
    });
    push_entry(&mut props, "filter_status", {
        let mut e = new_entries();
        push_entry(&mut e, "type", Json::from_str("string"));
        push_entry(&mut e, "enum", {
            let mut a: Vec<Json> = Vec::new();
            a.push(Json::from_str("active"));
            a.push(Json::from_str("fulfilled"));
            a.push(Json::from_str("cancelled"));
            a.push(Json::from_str("snoozed"));
            a.push(Json::from_str("all"));
            proof {
                assert(crate::json::items_model(a@) =~= seq![
                    JsonV::Str("active"@),
                    JsonV::Str("fulfilled"@),
                    JsonV::Str("cancelled"@),
                    JsonV::Str("snoozed"@),
                    JsonV::Str("all"@),
                ]);
            }
            array(a)
        });
        push_entry(&mut e, "default", Json::from_str("active"));
        push_entry(&mut e, "description", Json::from_str("[list] Filter by status"));
        proof {
            assert(crate::json::entries_model(e@) =~= seq![
                ("type"@, JsonV::Str("string"@)),
                ("enum"@, JsonV::Array(seq![
                    JsonV::Str("active"@),
                    JsonV::Str("fulfilled"@),
                    JsonV::Str("cancelled"@),
                    JsonV::Str("snoozed"@),
                    JsonV::Str("all"@),
                ])),
                ("default"@, JsonV::Str("active"@)),
                ("description"@, JsonV::Str("[list] Filter by status"@)),
            ]);
        }
        object(e)
    });
    push_entry(&mut props, "limit", {
        let mut e = new_entries();
        push_entry(&mut e, "type", Json::from_str("integer"));
        push_entry(&mut e, "minimum", Json::Int(1));
        push_entry(&mut e, "maximum", Json::Int(100));
        push_entry(&mut e, "default", Json::Int(20));
        push_entry(&mut e, "description", Json::from_str("[list] Maximum number to return (1-100; values outside the range are clamped)"));
        proof {
            assert(crate::json::entries_model(e@) =~= seq![
                ("type"@, JsonV::Str("integer"@)),
                ("minimum"@, JsonV::Int(1)),
                ("maximum"@, JsonV::Int(100)),
                ("default"@, JsonV::Int(20)),
                ("description"@, JsonV::Str("[list] Maximum number to return (1-100; values outside the range are clamped)"@)),
            ]);
        }
        object(e)
    });
    let mut required: Vec<String> = Vec::new();
    required.push(owned("action"));
    let mut extra = new_entries();
    push_entry(&mut extra, "description", Json::from_str("Unified intention management tool. Supports setting, checking, updating (complete/snooze/cancel), and listing intentions."));
    proof {
        assert(keys_of(entries_model(props@)) =~= seq!["action"@, "description"@, "trigger"@, "priority"@, "deadline"@, "id"@, "status"@, "snooze_minutes"@, "context"@, "include_snoozed"@, "filter_status"@, "limit"@]);
        assert(names_of(required@) =~= seq!["action"@]);
        assert(keys_of(entries_model(props@))[0] == "action"@);
        reveal_strlit("required");
        reveal_strlit("description");
        assert("description"@[0] != "required"@[0]);
        assert(keys_of(entries_model(extra@)) =~= seq!["description"@]);
        assert(forall|k: int| 0 <= k < extra@.len() ==> (#[trigger] extra@[k]).0@ == keys_of(entries_model(extra@))[k]);
    }
    let s = ToolSchema { properties: props, required, extra };
    proof {
        assert(crate::json::entries_model(s.properties@) =~= seq![
            ("action"@, JsonV::Object(seq![
                ("type"@, JsonV::Str("string"@)),
                ("enum"@, JsonV::Array(seq![
                    JsonV::Str("set"@),
                    JsonV::Str("check"@),
                    JsonV::Str("update"@),
                    JsonV::Str("list"@),
                ])),
                ("description"@, JsonV::Str("The action to perform: 'set' creates a new intention, 'check' finds triggered intentions, 'update' modifies status (complete/snooze/cancel), 'list' shows intentions"@)),
            ])),
            ("description"@, JsonV::Object(seq![
                ("type"@, JsonV::Str("string"@)),
                ("description"@, JsonV::Str("[set] What to remember to do"@)),
            ])),
            ("trigger"@, JsonV::Object(seq![
                ("type"@, JsonV::Str("object"@)),
                ("description"@, JsonV::Str("[set] When to trigger this intention"@)),
                ("properties"@, JsonV::Object(seq![
                    ("type"@, JsonV::Object(seq![
                        ("type"@, JsonV::Str("string"@)),
                        ("enum"@, JsonV::Array(seq![
                            JsonV::Str("time"@),
                            JsonV::Str("context"@),
                            JsonV::Str("event"@),
                        ])),
                        ("description"@, JsonV::Str("Trigger type: time-based, context-based, or event-based"@)),
                    ])),
                    ("at"@, JsonV::Object(seq![
                        ("type"@, JsonV::Str("string"@)),
                        ("description"@, JsonV::Str("ISO timestamp for time-based triggers"@)),
                    ])),
                    ("in_minutes"@, JsonV::Object(seq![
                        ("type"@, JsonV::Str("integer"@)),
                        ("description"@, JsonV::Str("Minutes from now for duration-based triggers"@)),
                    ])),
                    ("codebase"@, JsonV::Object(seq![
                        ("type"@, JsonV::Str("string"@)),
                        ("description"@, JsonV::Str("Trigger when working in this codebase"@)),
                    ])),
                    ("file_pattern"@, JsonV::Object(seq![
                        ("type"@, JsonV::Str("string"@)),
                        ("description"@, JsonV::Str("Trigger when editing files matching this pattern"@)),
                    ])),
                    ("topic"@, JsonV::Object(seq![
                        ("type"@, JsonV::Str("string"@)),
                        ("description"@, JsonV::Str("Trigger when discussing this topic"@)),
                    ])),
                    ("condition"@, JsonV::Object(seq![
                        ("type"@, JsonV::Str("string"@)),
                        ("description"@, JsonV::Str("Natural language condition for event triggers"@)),
                    ])),
                ])),
            ])),
            ("priority"@, JsonV::Object(seq![
                ("type"@, JsonV::Str("string"@)),
                ("enum"@, JsonV::Array(seq![
                    JsonV::Str("low"@),
                    JsonV::Str("normal"@),
                    JsonV::Str("high"@),
                    JsonV::Str("critical"@),
                ])),
                ("default"@, JsonV::Str("normal"@)),
                ("description"@, JsonV::Str("[set] Priority level"@)),
            ])),
            ("deadline"@, JsonV::Object(seq![
                ("type"@, JsonV::Str("string"@)),
                ("description"@, JsonV::Str("[set] Optional deadline (ISO timestamp)"@)),
            ])),
            ("id"@, JsonV::Object(seq![
                ("type"@, JsonV::Str("string"@)),
                ("description"@, JsonV::Str("[update] ID of the intention to update"@)),
            ])),
            ("status"@, JsonV::Object(seq![
                ("type"@, JsonV::Str("string"@)),
                ("enum"@, JsonV::Array(seq![
                    JsonV::Str("complete"@),
                    JsonV::Str("snooze"@),
                    JsonV::Str("cancel"@),
                ])),
                ("description"@, JsonV::Str("[update] New status: 'complete' marks as fulfilled, 'snooze' delays, 'cancel' cancels"@)),
            ])),
            ("snooze_minutes"@, JsonV::Object(seq![
                ("type"@, JsonV::Str("integer"@)),
                ("default"@, JsonV::Int(30)),
                ("description"@, JsonV::Str("[update] Minutes to snooze for (when status is 'snooze')"@)),
            ])),
            ("context"@, JsonV::Object(seq![
                ("type"@, JsonV::Str("object"@)),
                ("description"@, JsonV::Str("[check] Current context for matching intentions"@)),
                ("properties"@, JsonV::Object(seq![
                    ("current_time"@, JsonV::Object(seq![
                        ("type"@, JsonV::Str("string"@)),
                        ("description"@, JsonV::Str("Current ISO timestamp (defaults to now)"@)),
                    ])),
                    ("codebase"@, JsonV::Object(seq![
                        ("type"@, JsonV::Str("string"@)),
                        ("description"@, JsonV::Str("Current codebase/project name"@)),
                    ])),
                    ("file"@, JsonV::Object(seq![
                        ("type"@, JsonV::Str("string"@)),
                        ("description"@, JsonV::Str("Current file path"@)),
                    ])),
                    ("topics"@, JsonV::Object(seq![
                        ("type"@, JsonV::Str("array"@)),
                        ("items"@, JsonV::Object(seq![
                            ("type"@, JsonV::Str("string"@)),
                        ])),
                        ("description"@, JsonV::Str("Current discussion topics"@)),
                    ])),
                ])),
            ])),
            ("include_snoozed"@, JsonV::Object(seq![
                ("type"@, JsonV::Str("boolean"@)),
                ("default"@, JsonV::Bool(false)),
                ("description"@, JsonV::Str("[check] Include snoozed intentions"@)),
            ])),
            ("filter_status"@, JsonV::Object(seq![
                ("type"@, JsonV::Str("string"@)),
                ("enum"@, JsonV::Array(seq![
                    JsonV::Str("active"@),
                    JsonV::Str("fulfilled"@),
                    JsonV::Str("cancelled"@),
                    JsonV::Str("snoozed"@),
                    JsonV::Str("all"@),
                ])),
                ("default"@, JsonV::Str("active"@)),
                ("description"@, JsonV::Str("[list] Filter by status"@)),
            ])),
            ("limit"@, JsonV::Object(seq![
                ("type"@, JsonV::Str("integer"@)),
                ("minimum"@, JsonV::Int(1)),
                ("maximum"@, JsonV::Int(100)),
                ("default"@, JsonV::Int(20)),
                ("description"@, JsonV::Str("[list] Maximum number to return (1-100; values outside the range are clamped)"@)),
            ])),
        ]);
        assert(crate::json::entries_model(s.extra@) =~= seq![
            ("description"@, JsonV::Str("Unified intention management tool. Supports setting, checking, updating (complete/snooze/cancel), and listing intentions."@)),
        ]);
        assert(crate::json::strs_model(s.required@) =~= seq![
            JsonV::Str("action"@),
        ]);
        assert(s.json_v()->Object_0 =~= schema_spec()->Object_0);
    }
    s.publish()
}


// ---------------------------------------------------------------------------
// Arguments
// ---------------------------------------------------------------------------

/// When an intention fires, as the caller gave it.
pub struct TriggerSpec {
    pub trigger_type: Option<String>,
    pub at: Option<String>,
    pub in_minutes: Option<i64>,
    pub codebase: Option<String>,
    pub file_pattern: Option<String>,
    pub topic: Option<String>,
    pub condition: Option<String>,
}

/// The situation an intention check runs in.
pub struct ContextSpec {
    pub current_time: Option<String>,
    pub codebase: Option<String>,
    pub file: Option<String>,
    pub topics: Option<Vec<String>>,
}

/// The four actions of the tool.
#[derive(PartialEq, Eq, Structural, Clone, Copy, Debug)]
pub enum IntentionAction {
    /// `set`: create an intention.
    Create,
    Check,
    Update,
    List,
}

/// The action named by `action`, or the refusal text of an unknown one.
pub open spec fn action_s(action: Seq<char>) -> Result<IntentionAction, Seq<char>> {
    if action == "set"@ {
        Ok(IntentionAction::Create)
    } else if action == "check"@ {
        Ok(IntentionAction::Check)
    } else if action == "update"@ {
        Ok(IntentionAction::Update)
    } else if action == "list"@ {
        Ok(IntentionAction::List)
    } else {
        Err("Unknown action: '"@ + action + "'. Valid actions are: set, check, update, list"@)
    }
}

/// The action named by `action`, or the refusal of an unknown one.
pub fn parse_action(action: &str) -> (r: Result<IntentionAction, String>)
    ensures
        match r {
            Ok(a) => action_s(action@) == Ok::<IntentionAction, Seq<char>>(a),
            Err(e) => action_s(action@) == Err::<IntentionAction, Seq<char>>(e@),
        },
{
    let a = chars_of(action);
    if crate::text::chars_eq_str(&a, "set") {
        Ok(IntentionAction::Create)
    } else if crate::text::chars_eq_str(&a, "check") {
        Ok(IntentionAction::Check)
    } else if crate::text::chars_eq_str(&a, "update") {
        Ok(IntentionAction::Update)
    } else if crate::text::chars_eq_str(&a, "list") {
        Ok(IntentionAction::List)
    } else {
        let mut m: Vec<char> = chars_of("Unknown action: '");
        push_str(&mut m, action);
        push_str(&mut m, "'. Valid actions are: set, check, update, list");
        Err(string_of(m.as_slice()))
    }
}

// ---------------------------------------------------------------------------
// set
// ---------------------------------------------------------------------------

/// The largest description, in bytes.
pub const MAX_DESCRIPTION_BYTES: usize = 100_000;

/// The refusal a description meets, if any.
pub open spec fn description_error(d: Option<Seq<char>>) -> Option<Seq<char>> {
    match d {
        None => Some("Missing 'description' for set action"@),
        Some(t) => if trim_s(t).len() == 0 {
            Some("Description cannot be empty"@)
        } else if utf8_len(t) > MAX_DESCRIPTION_BYTES {
            Some("Description too large (max 100KB)"@)
        } else {
            None
        },
    }
}

pub open spec fn opt_str_view(o: Option<&str>) -> Option<Seq<char>> {
    match o {
        Some(s) => Some(s@),
        None => None,
    }
}

/// Checks the description of a new intention: present, not blank, at most
/// 100 000 bytes.
pub fn check_description(d: Option<&str>) -> (r: Result<(), String>)
    ensures
        match r {
            Ok(()) => description_error(opt_str_view(d)) is None,
            Err(e) => description_error(opt_str_view(d)) == Some(e@),
        },
{
    let d = match d {
        Some(t) => t,
        None => {
            return Err(owned("Missing 'description' for set action"));
        },
    };
    let cs = chars_of(d);
    let (a, b) = trim_range(&cs, 0, cs.len());
    proof {
        assert(cs@.subrange(0, cs@.len() as int) =~= d@);
    }
    if a == b {
        return Err(owned("Description cannot be empty"));
    }
    let fit = fit_prefix_len(&cs, MAX_DESCRIPTION_BYTES);
    proof {
        crate::confidence::lemma_fit_all(cs@, MAX_DESCRIPTION_BYTES as int);
    }
    if fit < cs.len() {
        return Err(owned("Description too large (max 100KB)"));
    }
    Ok(())
}

/// The stored priority: `low` 1, `normal` 2, `high` 3, `critical` 4, any
/// other word 2; without one, the priority the parser detected, else 2.
pub open spec fn priority_s(priority: Option<Seq<char>>, detected: Option<i32>) -> i32 {
    match priority {
        Some(p) => if p == "low"@ {
            1
        } else if p == "high"@ {
            3
        } else if p == "critical"@ {
            4
        } else {
            2
        },
        None => match detected {
            Some(d) => d,
            None => 2,
        },
    }
}

/// The priority of a new intention.
pub fn priority_level(priority: Option<&str>, detected: Option<i32>) -> (r: i32)
    ensures
        r == priority_s(opt_str_view(priority), detected),
{
    match priority {
        Some(p) => {
            let c = chars_of(p);
            if crate::text::chars_eq_str(&c, "low") {
                1
            } else if crate::text::chars_eq_str(&c, "high") {
                3
            } else if crate::text::chars_eq_str(&c, "critical") {
                4
            } else {
                2
            }
        },
        None => match detected {
            Some(d) => d,
            None => 2,
        },
    }
}

/// The name of a stored priority.
pub open spec fn priority_name_s(p: i32) -> Seq<char> {
    if p == 1 {
        "low"@
    } else if p == 3 {
        "high"@
    } else if p == 4 {
        "critical"@
    } else {
        "normal"@
    }
}

/// The name of a stored priority.
pub fn priority_name(p: i32) -> (r: &'static str)
    ensures
        r@ == priority_name_s(p),
{
    if p == 1 {
        "low"
    } else if p == 3 {
        "high"
    } else if p == 4 {
        "critical"
    } else {
        "normal"
    }
}

/// Priority names and levels agree: each of the four names maps to the
/// level whose name it is.
pub proof fn law_priority_names_round_trip(detected: Option<i32>)
    ensures
        priority_name_s(priority_s(Some("low"@), detected)) == "low"@,
        priority_name_s(priority_s(Some("high"@), detected)) == "high"@,
        priority_name_s(priority_s(Some("critical"@), detected)) == "critical"@,
        priority_name_s(priority_s(Some("normal"@), detected)) == "normal"@,
{
    reveal_strlit("low");
    reveal_strlit("high");
    reveal_strlit("critical");
    reveal_strlit("normal");
    assert("normal"@[0] != "low"@[0]);
    assert("normal"@[0] != "high"@[0]);
    assert("normal"@[0] != "critical"@[0]);
    assert("high"@[0] != "low"@[0]);
    assert("critical"@[0] != "low"@[0]);
    assert("critical"@[0] != "high"@[0]);
}

/// An intent tag of at most 50 bytes: a longer one keeps its first 47 bytes
/// (cut at a character boundary) and ends in `...`.
pub open spec fn intent_tag_s(raw: Seq<char>) -> Seq<char> {
    if utf8_len(raw) > 50 {
        raw.take(fit_len(raw, 47) as int) + "..."@
    } else {
        raw
    }
}

/// The tag recording the detected intent.
pub fn intent_tag(raw: &str) -> (r: String)
    ensures
        r@ == intent_tag_s(raw@),
{
    let cs = chars_of(raw);
    let all = fit_prefix_len(&cs, 50);
    proof {
        crate::confidence::lemma_fit_all(cs@, 50);
    }
    if all == cs.len() {
        owned(raw)
    } else {
        let m = fit_prefix_len(&cs, 47);
        let mut head = copy_range(&cs, 0, m);
        push_str(&mut head, "...");
        proof {
            assert(cs@.subrange(0, m as int) =~= raw@.take(m as int));
        }
        string_of(head.as_slice())
    }
}

/// How a new intention fires and the data stored with it: an explicit
/// trigger (its type, `time` by default, and its serialized form), else what
/// the parser read, else `manual` with `{}`.
pub fn trigger_choice(
    explicit: Option<(Option<String>, String)>,
    parsed: Option<(String, String)>,
) -> (r: (String, String))
    ensures
        match explicit {
            Some((t, data)) => r.0@ == (match t {
                Some(s) => s@,
                None => "time"@,
            }) && r.1@ == data@,
            None => match parsed {
                Some((t, data)) => r.0@ == t@ && r.1@ == data@,
                None => r.0@ == "manual"@ && r.1@ == "{}"@,
            },
        },
{
    match explicit {
        Some((t, data)) => {
            let kind = match t {
                Some(s) => s,
                None => owned("time"),
            };
            (kind, data)
        },
        None => match parsed {
            Some((t, data)) => (t, data),
            None => (owned("manual"), owned("{}")),
        },
    }
}

/// Where a new intention came from: the parser or the call.
pub fn source_type(parsed: bool) -> (r: &'static str)
    ensures
        r@ == (if parsed { "nlp"@ } else { "mcp"@ }),
{
    if parsed {
        "nlp"
    } else {
        "mcp"
    }
}

/// The reply to `set`.
pub open spec fn set_reply_s(
    id: Seq<char>,
    description: Seq<char>,
    priority: i32,
    trigger_at: Option<Seq<char>>,
    deadline: Option<Seq<char>>,
    parsed: bool,
) -> JsonV {
    JsonV::Object(
        seq![
            ("success"@, JsonV::Bool(true)),
            ("action"@, JsonV::Str("set"@)),
            ("intentionId"@, JsonV::Str(id)),
            ("message"@, JsonV::Str("Intention created: "@ + description)),
            ("priority"@, JsonV::Int(priority as int)),
            ("triggerAt"@, crate::json::opt_str_v(trigger_at)),
            ("deadline"@, crate::json::opt_str_v(deadline)),
            ("nlpParsed"@, JsonV::Bool(parsed)),
        ],
    )
}

/// What `chrono::DateTime::parse_from_rfc3339(s)` gives for `s`, converted
/// to UTC and written back as RFC 3339 (`to_rfc3339`); none when the text
/// does not parse.
pub uninterp spec fn rfc3339_utc(s: Seq<char>) -> Option<Seq<char>>;

/// `DateTime::parse_from_rfc3339`, in UTC, as RFC 3339 text. The contract
/// ties the result to [`rfc3339_utc`] and states nothing more of the grammar.
#[verifier::external_body]
fn parse_rfc3339_utc(s: &str) -> (r: Option<String>)
    ensures
        opt_string_view(r) == rfc3339_utc(s@),
{
    chrono::DateTime::parse_from_rfc3339(s).ok().map(|d| d.with_timezone(&chrono::Utc).to_rfc3339())
}

/// An intention's deadline: the `deadline` argument read as an RFC 3339
/// time, in UTC; none when it is absent or does not parse.
pub fn set_deadline(deadline: Option<&str>) -> (r: Option<String>)
    ensures
        opt_string_view(r) == match deadline {
            Some(d) => rfc3339_utc(d@),
            None => None,
        },
{
    match deadline {
        Some(d) => parse_rfc3339_utc(d),
        None => None,
    }
}

/// When an intention fires, as the `set` reply reports it: no trigger gives
/// none; a trigger with `at` gives that time read as RFC 3339, in UTC (none
/// when it does not parse); otherwise `in_minutes` gives `from_minutes`, the
/// caller's rendering of now plus those minutes.
pub fn set_trigger_at(trigger: Option<&TriggerSpec>, from_minutes: Option<String>) -> (r: Option<String>)
    ensures
        opt_string_view(r) == match trigger {
            None => None,
            Some(t) => match t.at {
                Some(a) => rfc3339_utc(a@),
                None => if t.in_minutes is Some {
                    opt_string_view(from_minutes)
                } else {
                    None
                },
            },
        },
{
    match trigger {
        None => None,
        Some(t) => match &t.at {
            Some(a) => parse_rfc3339_utc(a.as_str()),
            None => if t.in_minutes.is_some() {
                from_minutes
            } else {
                None
            },
        },
    }
}

/// The reply to `set`: times are RFC 3339 texts, absent ones `null`.
pub fn set_reply(
    id: &str,
    description: &str,
    priority: i32,
    trigger_at: Option<&str>,
    deadline: Option<&str>,
    parsed: bool,
) -> (r: Json)
    ensures
        r@ == set_reply_s(id@, description@, priority, opt_str_view(trigger_at), opt_str_view(deadline), parsed),
{
    let mut msg: Vec<char> = chars_of("Intention created: ");
    push_str(&mut msg, description);
    let mut e = new_entries();
    push_entry(&mut e, "success", Json::Bool(true));
    push_entry(&mut e, "action", Json::from_str("set"));
    push_entry(&mut e, "intentionId", Json::from_str(id));
    push_entry(&mut e, "message", Json::Str(string_of(msg.as_slice())));
    push_entry(&mut e, "priority", Json::Int(priority as i64));
    push_entry(&mut e, "triggerAt", opt_str_json(trigger_at));
    push_entry(&mut e, "deadline", opt_str_json(deadline));
    push_entry(&mut e, "nlpParsed", Json::Bool(parsed));
    proof {
        assert(entries_model(e@) =~= set_reply_s(id@, description@, priority, opt_str_view(trigger_at), opt_str_view(deadline), parsed)->Object_0);
    }
    object(e)
}

// ---------------------------------------------------------------------------
// check
// ---------------------------------------------------------------------------

pub open spec fn opt_string_view(o: Option<String>) -> Option<Seq<char>> {
    match o {
        Some(s) => Some(s@),
        None => None,
    }
}

pub open spec fn strings_view(v: Seq<String>) -> Seq<Seq<char>> {
    Seq::new(v.len(), |i: int| v[i]@)
}

/// A context trigger fires on the first rule whose two sides are present: the
/// current codebase contains the trigger's (ignoring case); else the current
/// file contains the trigger's file pattern; else some current topic
/// contains the trigger's topic (ignoring case).
pub open spec fn context_fires(
    codebase: Option<Seq<char>>,
    file_pattern: Option<Seq<char>>,
    topic: Option<Seq<char>>,
    cur_codebase: Option<Seq<char>>,
    cur_file: Option<Seq<char>>,
    cur_topics: Option<Seq<Seq<char>>>,
) -> bool {
    if codebase is Some && cur_codebase is Some {
        contains_s(lowercase(cur_codebase.unwrap()), lowercase(codebase.unwrap()))
    } else if file_pattern is Some && cur_file is Some {
        contains_s(cur_file.unwrap(), file_pattern.unwrap())
    } else if topic is Some && cur_topics is Some {
        exists|i: int|
            0 <= i < cur_topics.unwrap().len() && contains_s(
                lowercase(#[trigger] cur_topics.unwrap()[i]),
                lowercase(topic.unwrap()),
            )
    } else {
        false
    }
}

/// The file rule of a context trigger: when the codebase rule does not
/// apply and both a file pattern and a current file are given, the trigger
/// fires exactly when the pattern occurs somewhere in the current file's
/// path; so a path that extends the pattern (`src/auth` in
/// `src/auth/login.rs`) fires, whatever comes before or after it.
pub proof fn law_file_pattern_fires_inside_the_current_file(
    codebase: Option<Seq<char>>,
    pattern: Seq<char>,
    topic: Option<Seq<char>>,
    cur_codebase: Option<Seq<char>>,
    file: Seq<char>,
    cur_topics: Option<Seq<Seq<char>>>,
    before: Seq<char>,
    after: Seq<char>,
)
    requires
        !(codebase is Some && cur_codebase is Some),
    ensures
        context_fires(codebase, Some(pattern), topic, cur_codebase, Some(file), cur_topics) == exists|i: int|
            0 <= i && i + pattern.len() <= file.len() && #[trigger] file.subrange(i, i + pattern.len())
                == pattern,
        context_fires(codebase, Some(pattern), topic, cur_codebase, Some(before + pattern + after), cur_topics),
{
    let f2 = before + pattern + after;
    assert(f2.subrange(before.len() as int, before.len() + pattern.len() as int) =~= pattern);
    assert(crate::text::occurs_at(f2, pattern, before.len() as int));
    if exists|i: int| 0 <= i && i + pattern.len() <= file.len() && #[trigger] file.subrange(i, i + pattern.len()) == pattern {
        let i = choose|i: int| 0 <= i && i + pattern.len() <= file.len() && #[trigger] file.subrange(i, i + pattern.len()) == pattern;
        assert(crate::text::occurs_at(file, pattern, i));
    }
}

/// The other rules of a context trigger, in order: with both a trigger
/// codebase and a current codebase, it fires when the current one (ignoring
/// case) contains the trigger's, and no other rule is consulted; failing
/// that and the file rule, it fires when some current topic (ignoring case)
/// contains the trigger's topic.
pub proof fn law_codebase_and_topic_rules(
    codebase: Seq<char>,
    cur_codebase: Seq<char>,
    file_pattern: Option<Seq<char>>,
    topic: Seq<char>,
    cur_file: Option<Seq<char>>,
    cur_topics: Seq<Seq<char>>,
    before: Seq<char>,
    after: Seq<char>,
    n: int,
)
    ensures
        lowercase(cur_codebase) == before + lowercase(codebase) + after ==> context_fires(
            Some(codebase),
            file_pattern,
            Some(topic),
            Some(cur_codebase),
            cur_file,
            Some(cur_topics),
        ),
        !contains_s(lowercase(cur_codebase), lowercase(codebase)) ==> !context_fires(
            Some(codebase),
            file_pattern,
            Some(topic),
            Some(cur_codebase),
            cur_file,
            Some(cur_topics),
        ),
        !(file_pattern is Some && cur_file is Some) && 0 <= n < cur_topics.len() && lowercase(cur_topics[n])
            == before + lowercase(topic) + after ==> context_fires(
            None,
            file_pattern,
            Some(topic),
            None,
            cur_file,
            Some(cur_topics),
        ),
{
    let t = lowercase(codebase);
    let f = before + t + after;
    assert(f.subrange(before.len() as int, before.len() + t.len() as int) =~= t);
    assert(crate::text::occurs_at(f, t, before.len() as int));
    let tt = lowercase(topic);
    let g = before + tt + after;
    assert(g.subrange(before.len() as int, before.len() + tt.len() as int) =~= tt);
    assert(crate::text::occurs_at(g, tt, before.len() as int));
    if !(file_pattern is Some && cur_file is Some) && 0 <= n < cur_topics.len() && lowercase(cur_topics[n]) == g {
        let ct = Some(cur_topics);
        assert(ct.unwrap()[n] == cur_topics[n]);
        assert(contains_s(lowercase(ct.unwrap()[n]), tt));
    }
}

pub open spec fn topics_view(o: Option<Vec<String>>) -> Option<Seq<Seq<char>>> {
    match o {
        Some(v) => Some(strings_view(v@)),
        None => None,
    }
}

/// Whether a context trigger fires in a context.
pub fn context_triggered(t: &TriggerSpec, ctx: &ContextSpec) -> (r: bool)
    ensures
        r == context_fires(
            opt_string_view(t.codebase),
            opt_string_view(t.file_pattern),
            opt_string_view(t.topic),
            opt_string_view(ctx.codebase),
            opt_string_view(ctx.file),
            topics_view(ctx.topics),
        ),
{
    if t.codebase.is_some() && ctx.codebase.is_some() {
        let tc = t.codebase.as_ref().unwrap();
        let cc = ctx.codebase.as_ref().unwrap();
        contains_ignoring_case(cc.as_str(), tc.as_str())
    } else if t.file_pattern.is_some() && ctx.file.is_some() {
        let p = t.file_pattern.as_ref().unwrap();
        let f = ctx.file.as_ref().unwrap();
        contains_text(f.as_str(), p.as_str())
    } else if t.topic.is_some() && ctx.topics.is_some() {
        let topic = t.topic.as_ref().unwrap();
        let topics = ctx.topics.as_ref().unwrap();
        let mut i: usize = 0;
        while i < topics.len()
            invariant
                0 <= i <= topics@.len(),
                opt_string_view(t.topic) == Some(topic@),
                topics_view(ctx.topics) == Some(strings_view(topics@)),
                !(t.codebase is Some && ctx.codebase is Some),
                !(t.file_pattern is Some && ctx.file is Some),
                forall|k: int|
                    0 <= k < i ==> !contains_s(
                        lowercase(#[trigger] strings_view(topics@)[k]),
                        lowercase(topic@),
                    ),
            decreases topics.len() - i,
        {
            if contains_ignoring_case(topics[i].as_str(), topic.as_str()) {
                proof {
                    assert(strings_view(topics@)[i as int] == topics@[i as int]@);
                    assert(contains_s(
                        lowercase(strings_view(topics@)[i as int]),
                        lowercase(topic@),
                    ));
                    let ct = topics_view(ctx.topics);
                    assert(ct.unwrap() == strings_view(topics@));
                    assert(0 <= i < ct.unwrap().len());
                    assert(opt_string_view(t.codebase) is None || opt_string_view(ctx.codebase) is None);
                    assert(opt_string_view(t.file_pattern) is None || opt_string_view(ctx.file) is None);
                }
                return true;
            }
            i = i + 1;
        }
        false
    } else {
        false
    }
}

/// Whether an intention fires: a `time` trigger when its time has come
/// (`time_due`, read from the clock by the caller), a `context` trigger when
/// a context is given and matches, nothing else.
pub open spec fn triggered_s(
    kind: Option<Option<Seq<char>>>,
    time_due: bool,
    context_match: Option<bool>,
) -> bool {
    match kind {
        Some(Some(k)) => if k == "time"@ {
            time_due
        } else if k == "context"@ {
            match context_match {
                Some(b) => b,
                None => false,
            }
        } else {
            false
        },
        _ => false,
    }
}

/// Whether an intention with trigger `t` fires in `ctx`.
pub fn is_triggered(t: Option<&TriggerSpec>, ctx: Option<&ContextSpec>, time_due: bool) -> (r: bool)
    ensures
        r == triggered_s(
            match t {
                Some(t) => Some(opt_string_view(t.trigger_type)),
                None => None,
            },
            time_due,
            match (t, ctx) {
                (Some(t), Some(c)) => Some(
                    context_fires(
                        opt_string_view(t.codebase),
                        opt_string_view(t.file_pattern),
                        opt_string_view(t.topic),
                        opt_string_view(c.codebase),
                        opt_string_view(c.file),
                        topics_view(c.topics),
                    ),
                ),
                _ => None,
            },
        ),
{
    match t {
        Some(t) => match &t.trigger_type {
            Some(k) => {
                let kc = chars_of(k.as_str());
                if crate::text::chars_eq_str(&kc, "time") {
                    time_due
                } else if crate::text::chars_eq_str(&kc, "context") {
                    match ctx {
                        Some(c) => context_triggered(t, c),
                        None => false,
                    }
                } else {
                    false
                }
            },
            None => false,
        },
        None => false,
    }
}

/// One intention as `check` reports it.
pub open spec fn check_item_s(
    id: Seq<char>,
    description: Seq<char>,
    priority: i32,
    created_at: Seq<char>,
    deadline: Option<Seq<char>>,
    overdue: bool,
) -> JsonV {
    JsonV::Object(
        seq![
            ("id"@, JsonV::Str(id)),
            ("description"@, JsonV::Str(description)),
            ("priority"@, JsonV::Str(priority_name_s(priority))),
            ("createdAt"@, JsonV::Str(created_at)),
            ("deadline"@, crate::json::opt_str_v(deadline)),
            ("isOverdue"@, JsonV::Bool(overdue)),
        ],
    )
}

/// One intention as `check` reports it.
pub fn check_item(
    id: &str,
    description: &str,
    priority: i32,
    created_at: &str,
    deadline: Option<&str>,
    overdue: bool,
) -> (r: Json)
    ensures
        r@ == check_item_s(id@, description@, priority, created_at@, opt_str_view(deadline), overdue),
{
    let mut e = new_entries();
    push_entry(&mut e, "id", Json::from_str(id));
    push_entry(&mut e, "description", Json::from_str(description));
    push_entry(&mut e, "priority", Json::from_str(priority_name(priority)));
    push_entry(&mut e, "createdAt", Json::from_str(created_at));
    push_entry(&mut e, "deadline", opt_str_json(deadline));
    push_entry(&mut e, "isOverdue", Json::Bool(overdue));
    proof {
        assert(entries_model(e@) =~= check_item_s(id@, description@, priority, created_at@, opt_str_view(deadline), overdue)->Object_0);
    }
    object(e)
}

/// Sorts a checked intention: a fired or overdue one is reported as
/// triggered, any other as pending.
pub fn file_check_item(item: Json, fired: bool, overdue: bool, triggered: &mut Vec<Json>, pending: &mut Vec<Json>)
    ensures
        (fired || overdue) ==> final(triggered)@ == old(triggered)@.push(item) && final(pending)@ == old(pending)@,
        !(fired || overdue) ==> final(pending)@ == old(pending)@.push(item) && final(triggered)@ == old(triggered)@,
{
    if fired || overdue {
        triggered.push(item);
    } else {
        pending.push(item);
    }
}

/// The reply to `check`.
pub fn check_reply(triggered: Vec<Json>, pending: Vec<Json>, checked_at: &str) -> (r: Json)
    ensures
        r@ == JsonV::Object(
            seq![
                ("action"@, JsonV::Str("check"@)),
                ("triggered"@, JsonV::Array(crate::json::items_model(triggered@))),
                ("pending"@, JsonV::Array(crate::json::items_model(pending@))),
                ("checkedAt"@, JsonV::Str(checked_at@)),
            ],
        ),
{
    let ghost t = crate::json::items_model(triggered@);
    let ghost p = crate::json::items_model(pending@);
    let mut e = new_entries();
    push_entry(&mut e, "action", Json::from_str("check"));
    push_entry(&mut e, "triggered", array(triggered));
    push_entry(&mut e, "pending", array(pending));
    push_entry(&mut e, "checkedAt", Json::from_str(checked_at));
    proof {
        assert(entries_model(e@) =~= seq![
            ("action"@, JsonV::Str("check"@)),
            ("triggered"@, JsonV::Array(t)),
            ("pending"@, JsonV::Array(p)),
            ("checkedAt"@, JsonV::Str(checked_at@)),
        ]);
    }
    object(e)
}

// ---------------------------------------------------------------------------
// update
// ---------------------------------------------------------------------------

/// The three updates an intention takes.
#[derive(PartialEq, Eq, Structural, Clone, Copy, Debug)]
pub enum UpdateKind {
    Complete,
    Snooze,
    Cancel,
}

/// What an update call comes to: the update, or the error text.
pub open spec fn update_s(id: Option<Seq<char>>, status: Option<Seq<char>>) -> Result<UpdateKind, Seq<char>> {
    match id {
        None => Err("Missing 'id' for update action"@),
        Some(_) => match status {
            None => Err("Missing 'status' for update action"@),
            Some(s) => if s == "complete"@ {
                Ok(UpdateKind::Complete)
            } else if s == "snooze"@ {
                Ok(UpdateKind::Snooze)
            } else if s == "cancel"@ {
                Ok(UpdateKind::Cancel)
            } else {
                Err("Unknown status: '"@ + s + "'. Valid statuses are: complete, snooze, cancel"@)
            },
        },
    }
}

/// Validates an update call.
pub fn parse_update(id: Option<&str>, status: Option<&str>) -> (r: Result<UpdateKind, String>)
    ensures
        match r {
            Ok(k) => update_s(opt_str_view(id), opt_str_view(status)) == Ok::<UpdateKind, Seq<char>>(k),
            Err(e) => update_s(opt_str_view(id), opt_str_view(status)) == Err::<UpdateKind, Seq<char>>(e@),
        },
{
    if id.is_none() {
        return Err(owned("Missing 'id' for update action"));
    }
    match status {
        None => Err(owned("Missing 'status' for update action")),
        Some(s) => {
            let c = chars_of(s);
            if crate::text::chars_eq_str(&c, "complete") {
                Ok(UpdateKind::Complete)
            } else if crate::text::chars_eq_str(&c, "snooze") {
                Ok(UpdateKind::Snooze)
            } else if crate::text::chars_eq_str(&c, "cancel") {
                Ok(UpdateKind::Cancel)
            } else {
                let mut m: Vec<char> = chars_of("Unknown status: '");
                push_str(&mut m, s);
                push_str(&mut m, "'. Valid statuses are: complete, snooze, cancel");
                Err(string_of(m.as_slice()))
            }
        },
    }
}

/// The status an update writes to the store.
pub fn stored_status(k: UpdateKind) -> (r: &'static str)
    ensures
        k == UpdateKind::Complete ==> r@ == "fulfilled"@,
        k == UpdateKind::Cancel ==> r@ == "cancelled"@,
        k == UpdateKind::Snooze ==> r@ == "snoozed"@,
{
    match k {
        UpdateKind::Complete => "fulfilled",
        UpdateKind::Cancel => "cancelled",
        UpdateKind::Snooze => "snoozed",
    }
}

/// How long a snooze lasts: `snooze_minutes`, or 30.
pub fn snooze_minutes(m: Option<i64>) -> (r: i64)
    ensures
        r == match m {
            Some(v) => v,
            None => 30,
        },
{
    match m {
        Some(v) => v,
        None => 30,
    }
}

/// The error for an intention the store does not hold.
pub fn not_found(id: &str) -> (r: String)
    ensures
        r@ == "Intention not found: "@ + id@,
{
    let mut m: Vec<char> = chars_of("Intention not found: ");
    push_str(&mut m, id);
    string_of(m.as_slice())
}

/// The reply to a successful update; `snoozed_until` is read for a snooze only.
pub open spec fn update_reply_s(k: UpdateKind, id: Seq<char>, minutes: i64, snoozed_until: Seq<char>) -> JsonV {
    match k {
        UpdateKind::Complete => JsonV::Object(
            seq![
                ("success"@, JsonV::Bool(true)),
                ("action"@, JsonV::Str("update"@)),
                ("status"@, JsonV::Str("complete"@)),
                ("message"@, JsonV::Str("Intention marked as complete"@)),
                ("intentionId"@, JsonV::Str(id)),
            ],
        ),
        UpdateKind::Snooze => JsonV::Object(
            seq![
                ("success"@, JsonV::Bool(true)),
                ("action"@, JsonV::Str("update"@)),
                ("status"@, JsonV::Str("snooze"@)),
                (
                    "message"@,
                    JsonV::Str("Intention snoozed for "@ + signed_decimal_s(minutes as int) + " minutes"@),
                ),
                ("intentionId"@, JsonV::Str(id)),
                ("snoozedUntil"@, JsonV::Str(snoozed_until)),
            ],
        ),
        UpdateKind::Cancel => JsonV::Object(
            seq![
                ("success"@, JsonV::Bool(true)),
                ("action"@, JsonV::Str("update"@)),
                ("status"@, JsonV::Str("cancel"@)),
                ("message"@, JsonV::Str("Intention cancelled"@)),
                ("intentionId"@, JsonV::Str(id)),
            ],
        ),
    }
}

/// The reply to a successful update.
pub fn update_reply(k: UpdateKind, id: &str, minutes: i64, snoozed_until: &str) -> (r: Json)
    ensures
        r@ == update_reply_s(k, id@, minutes, snoozed_until@),
{
    let mut e = new_entries();
    push_entry(&mut e, "success", Json::Bool(true));
    push_entry(&mut e, "action", Json::from_str("update"));
    match k {
        UpdateKind::Complete => {
            push_entry(&mut e, "status", Json::from_str("complete"));
            push_entry(&mut e, "message", Json::from_str("Intention marked as complete"));
            push_entry(&mut e, "intentionId", Json::from_str(id));
        },
        UpdateKind::Snooze => {
            push_entry(&mut e, "status", Json::from_str("snooze"));
            let mut m: Vec<char> = chars_of("Intention snoozed for ");
            let n = signed_decimal(minutes);
            push_chars(&mut m, &n);
            push_str(&mut m, " minutes");
            push_entry(&mut e, "message", Json::Str(string_of(m.as_slice())));
            push_entry(&mut e, "intentionId", Json::from_str(id));
            push_entry(&mut e, "snoozedUntil", Json::from_str(snoozed_until));
        },
        UpdateKind::Cancel => {
            push_entry(&mut e, "status", Json::from_str("cancel"));
            push_entry(&mut e, "message", Json::from_str("Intention cancelled"));
            push_entry(&mut e, "intentionId", Json::from_str(id));
        },
    }
    proof {
        assert(entries_model(e@) =~= update_reply_s(k, id@, minutes, snoozed_until@)->Object_0);
    }
    object(e)
}

// ---------------------------------------------------------------------------
// list
// ---------------------------------------------------------------------------

/// Which intentions a listing reads.
pub enum ListQuery {
    /// Active, fulfilled, cancelled and snoozed, in that order.
    All,
    /// The active ones.
    Active,
    /// Those with the given status.
    Status(String),
}

/// The filter of a listing: `filter_status`, `active` by default.
pub open spec fn filter_s(filter: Option<Seq<char>>) -> Seq<char> {
    match filter {
        Some(f) => f,
        None => "active"@,
    }
}

/// The query a listing runs for its filter: `all`, `active`, or by status.
pub open spec fn query_s(f: Seq<char>) -> Option<Seq<char>> {
    if f == "all"@ || f == "active"@ {
        None
    } else {
        Some(f)
    }
}

/// The query a listing runs for its filter.
pub fn list_query(filter: Option<&str>) -> (r: ListQuery)
    ensures
        match r {
            ListQuery::All => filter_s(opt_str_view(filter)) == "all"@,
            ListQuery::Active => filter_s(opt_str_view(filter)) == "active"@ && filter_s(
                opt_str_view(filter),
            ) != "all"@,
            ListQuery::Status(s) => query_s(filter_s(opt_str_view(filter))) == Some(s@),
        },
{
    let f: &str = match filter {
        Some(f) => f,
        None => "active",
    };
    let c = chars_of(f);
    if crate::text::chars_eq_str(&c, "all") {
        ListQuery::All
    } else if crate::text::chars_eq_str(&c, "active") {
        ListQuery::Active
    } else {
        ListQuery::Status(owned(f))
    }
}

/// The statuses an `all` listing reads after the active intentions.
pub fn other_statuses() -> (r: [&'static str; 3])
    ensures
        r@ == seq!["fulfilled", "cancelled", "snoozed"],
{
    let r: [&'static str; 3] = ["fulfilled", "cancelled", "snoozed"];
    proof {
        assert(r@ =~= seq!["fulfilled", "cancelled", "snoozed"]);
    }
    r
}

/// How many intentions a listing reports: `limit` (20 by default), read as
/// an unsigned size, so that a negative limit reports them all.
pub fn list_limit(limit: Option<i32>) -> (r: usize)
    ensures
        r == match limit {
            Some(l) => l as usize,
            None => 20usize,
        },
{
    match limit {
        Some(l) => {
            #[verifier::truncate]
            let n = l as usize;
            n
        },
        None => 20,
    }
}

/// One intention as a listing reports it.
pub open spec fn list_item_s(
    id: Seq<char>,
    description: Seq<char>,
    status: Seq<char>,
    priority: i32,
    created_at: Seq<char>,
    deadline: Option<Seq<char>>,
    overdue: bool,
    snoozed_until: Option<Seq<char>>,
) -> JsonV {
    JsonV::Object(
        seq![
            ("id"@, JsonV::Str(id)),
            ("description"@, JsonV::Str(description)),
            ("status"@, JsonV::Str(status)),
            ("priority"@, JsonV::Str(priority_name_s(priority))),
            ("createdAt"@, JsonV::Str(created_at)),
            ("deadline"@, crate::json::opt_str_v(deadline)),
            ("isOverdue"@, JsonV::Bool(overdue)),
            ("snoozedUntil"@, crate::json::opt_str_v(snoozed_until)),
        ],
    )
}

/// One intention as a listing reports it.
pub fn list_item(
    id: &str,
    description: &str,
    status: &str,
    priority: i32,
    created_at: &str,
    deadline: Option<&str>,
    overdue: bool,
    snoozed_until: Option<&str>,
) -> (r: Json)
    ensures
        r@ == list_item_s(
            id@,
            description@,
            status@,
            priority,
            created_at@,
            opt_str_view(deadline),
            overdue,
            opt_str_view(snoozed_until),
        ),
{
    let mut e = new_entries();
    push_entry(&mut e, "id", Json::from_str(id));
    push_entry(&mut e, "description", Json::from_str(description));
    push_entry(&mut e, "status", Json::from_str(status));
    push_entry(&mut e, "priority", Json::from_str(priority_name(priority)));
    push_entry(&mut e, "createdAt", Json::from_str(created_at));
    push_entry(&mut e, "deadline", opt_str_json(deadline));
    push_entry(&mut e, "isOverdue", Json::Bool(overdue));
    push_entry(&mut e, "snoozedUntil", opt_str_json(snoozed_until));
    proof {
        assert(entries_model(e@) =~= list_item_s(
            id@,
            description@,
            status@,
            priority,
            created_at@,
            opt_str_view(deadline),
            overdue,
            opt_str_view(snoozed_until),
        )->Object_0);
    }
    object(e)
}

/// The reply to `list`.
pub fn list_reply(items: Vec<Json>, status: &str) -> (r: Json)
    ensures
        r@ == JsonV::Object(
            seq![
                ("action"@, JsonV::Str("list"@)),
                ("intentions"@, JsonV::Array(crate::json::items_model(items@))),
                ("total"@, count_v(items@.len())),
                ("status"@, JsonV::Str(status@)),
            ],
        ),
{
    let ghost m = crate::json::items_model(items@);
    let n = items.len();
    let mut e = new_entries();
    push_entry(&mut e, "action", Json::from_str("list"));
    push_entry(&mut e, "intentions", array(items));
    push_entry(&mut e, "total", crate::json::count(n));
    push_entry(&mut e, "status", Json::from_str(status));
    proof {
        assert(entries_model(e@) =~= seq![
            ("action"@, JsonV::Str("list"@)),
            ("intentions"@, JsonV::Array(m)),
            ("total"@, count_v(n as nat)),
            ("status"@, JsonV::Str(status@)),
        ]);
    }
    object(e)
}

} // verus!
