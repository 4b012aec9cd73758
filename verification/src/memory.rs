//! The `memory` tool: its argument schema, the checks on each action, and
//! the replies whose content does not come from floating-point strengths.
//! The store reads and writes the memories.

use vstd::prelude::*;
use crate::json::{array, entries_model, keys_of, new_entries, object, push_entry, Json};
use crate::schema::{declared_args, names_of, required_args, schema_shape, ToolSchema};
use crate::json::{count_v, entries_model as entries_of, strs_model, JsonV};
use crate::text::{chars_of, copy_range, owned, push_str, string_of, trim_range, trim_s};

verus! {

broadcast use vstd::string::group_string_axioms;

/// The argument schema of `memory`, as published.
pub open spec fn schema_spec() -> JsonV {
    JsonV::Object(seq![
        ("type"@, JsonV::Str("object"@)),
        ("properties"@, JsonV::Object(seq![
            ("action"@, JsonV::Object(seq![
                ("type"@, JsonV::Str("string"@)),
                ("enum"@, JsonV::Array(seq![
                    JsonV::Str("get"@),
                    JsonV::Str("get_batch"@),
                    JsonV::Str("delete"@),
                    JsonV::Str("state"@),
                    JsonV::Str("promote"@),
                    JsonV::Str("demote"@),
                    JsonV::Str("edit"@),
                    JsonV::Str("review"@),
                ])),
                ("description"@, JsonV::Str("Action to perform: 'get' retrieves full memory node, 'get_batch' retrieves multiple memories by IDs (use 'ids' array), 'delete' removes memory (requires confirmed: true), 'state' returns accessibility state, 'promote' increases retrieval strength (thumbs up), 'demote' decreases retrieval strength (thumbs down), 'edit' updates content in-place (preserves FSRS state), 'review' records a spaced-repetition review of a due memory (use 'rating')"@)),
            ])),
            ("id"@, JsonV::Object(seq![
                ("type"@, JsonV::Str("string"@)),
                ("description"@, JsonV::Str("The ID of the memory node (required for every action except get_batch)"@)),
            ])),
            ("ids"@, JsonV::Object(seq![
                ("type"@, JsonV::Str("array"@)),
                ("items"@, JsonV::Object(seq![
                    ("type"@, JsonV::Str("string"@)),
                ])),
                ("maxItems"@, JsonV::Int(20)),
                ("description"@, JsonV::Str("Array of memory IDs (for get_batch action). Max 20 IDs per call."@)),
            ])),
            ("reason"@, JsonV::Object(seq![
                ("type"@, JsonV::Str("string"@)),
                ("description"@, JsonV::Str("Why this memory is being promoted/demoted (optional, for logging). Only used with promote/demote actions."@)),
            ])),
            ("content"@, JsonV::Object(seq![
                ("type"@, JsonV::Str("string"@)),
                ("description"@, JsonV::Str("New content for edit action. Replaces existing content, regenerates embedding, preserves FSRS state."@)),
            ])),
            ("rating"@, JsonV::Object(seq![
                ("type"@, JsonV::Str("integer"@)),
                ("minimum"@, JsonV::Int(1)),
                ("maximum"@, JsonV::Int(4)),
                ("description"@, JsonV::Str("FSRS rating for the review action: 1=Again (forgot), 2=Hard, 3=Good (default), 4=Easy"@)),
            ])),
            ("confirmed"@, JsonV::Object(seq![
                ("type"@, JsonV::Str("boolean"@)),
                ("description"@, JsonV::Str("Set to true to authorise the destructive 'delete' action. Without it, delete is refused and nothing is removed."@)),
            ])),
        ])),
        ("required"@, JsonV::Array(seq![
            JsonV::Str("action"@),
        ])),
        ("allOf"@, JsonV::Array(seq![
            JsonV::Object(seq![
                ("if"@, JsonV::Object(seq![
                    ("properties"@, JsonV::Object(seq![
                        ("action"@, JsonV::Object(seq![
                            ("const"@, JsonV::Str("get_batch"@)),
                        ])),
                    ])),
                    ("required"@, JsonV::Array(seq![
                        JsonV::Str("action"@),
                    ])),
                ])),
                ("then"@, JsonV::Object(seq![
                    ("required"@, JsonV::Array(seq![
                        JsonV::Str("ids"@),
                    ])),
                ])),
                ("else"@, JsonV::Object(seq![
                    ("required"@, JsonV::Array(seq![
                        JsonV::Str("id"@),
                    ])),
                ])),
            ]),
            JsonV::Object(seq![
                ("if"@, JsonV::Object(seq![
                    ("properties"@, JsonV::Object(seq![
                        ("action"@, JsonV::Object(seq![
                            ("const"@, JsonV::Str("edit"@)),
                        ])),
                    ])),
                    ("required"@, JsonV::Array(seq![
                        JsonV::Str("action"@),
                    ])),
                ])),
                ("then"@, JsonV::Object(seq![
                    ("required"@, JsonV::Array(seq![
                        JsonV::Str("content"@),
                    ])),
                ])),
            ]),
        ])),
    ])
}

/// The arguments of `memory`: `action` is required; the per-action requirements stand under `allOf`.
pub fn schema() -> (r: Json)
    ensures
        r@ == schema_spec(),
        schema_shape(r@),
        declared_args(r@) == seq!["action"@, "id"@, "ids"@, "reason"@, "content"@, "rating"@, "confirmed"@],
        required_args(r@) == seq!["action"@],
{
    let mut props = new_entries();
    push_entry(&mut props, "action", {
        let mut e = new_entries();
        push_entry(&mut e, "type", Json::from_str("string"));
        push_entry(&mut e, "enum", {
            let mut a: Vec<Json> = Vec::new();
            a.push(Json::from_str("get"));
            a.push(Json::from_str("get_batch"));
            a.push(Json::from_str("delete"));
            a.push(Json::from_str("state"));
            a.push(Json::from_str("promote"));
            a.push(Json::from_str("demote"));
            a.push(Json::from_str("edit"));
            a.push(Json::from_str("review"));
            proof {
                assert(crate::json::items_model(a@) =~= seq![
                    JsonV::Str("get"@),
                    JsonV::Str("get_batch"@),
                    JsonV::Str("delete"@),
                    JsonV::Str("state"@),
                    JsonV::Str("promote"@),
                    JsonV::Str("demote"@),
                    JsonV::Str("edit"@),
                    JsonV::Str("review"@),
                ]);
            }
            array(a)
        });
        push_entry(&mut e, "description", Json::from_str("Action to perform: 'get' retrieves full memory node, 'get_batch' retrieves multiple memories by IDs (use 'ids' array), 'delete' removes memory (requires confirmed: true), 'state' returns accessibility state, 'promote' increases retrieval strength (thumbs up), 'demote' decreases retrieval strength (thumbs down), 'edit' updates content in-place (preserves FSRS state), 'review' records a spaced-repetition review of a due memory (use 'rating')"));
        proof {
            assert(crate::json::entries_model(e@) =~= seq![
                ("type"@, JsonV::Str("string"@)),
                ("enum"@, JsonV::Array(seq![
                    JsonV::Str("get"@),
                    JsonV::Str("get_batch"@),
                    JsonV::Str("delete"@),
                    JsonV::Str("state"@),
                    JsonV::Str("promote"@),
                    JsonV::Str("demote"@),
                    JsonV::Str("edit"@),
                    JsonV::Str("review"@),
                ])),
                ("description"@, JsonV::Str("Action to perform: 'get' retrieves full memory node, 'get_batch' retrieves multiple memories by IDs (use 'ids' array), 'delete' removes memory (requires confirmed: true), 'state' returns accessibility state, 'promote' increases retrieval strength (thumbs up), 'demote' decreases retrieval strength (thumbs down), 'edit' updates content in-place (preserves FSRS state), 'review' records a spaced-repetition review of a due memory (use 'rating')"@)),
            ]);
        }
        object(e)
    });
    push_entry(&mut props, "id", {
        let mut e = new_entries();
        push_entry(&mut e, "type", Json::from_str("string"));
        push_entry(&mut e, "description", Json::from_str("The ID of the memory node (required for every action except get_batch)"));
        proof {
            assert(crate::json::entries_model(e@) =~= seq![
                ("type"@, JsonV::Str("string"@)),
                ("description"@, JsonV::Str("The ID of the memory node (required for every action except get_batch)"@)),
            ]);
        }
        object(e)
    });
    push_entry(&mut props, "ids", {
        let mut e = new_entries();
        push_entry(&mut e, "type", Json::from_str("array"));
        push_entry(&mut e, "items", {
            let mut e = new_entries();
            push_entry(&mut e, "type", Json::from_str("string"));
            proof {
                assert(crate::json::entries_model(e@) =~= seq![
                    ("type"@, JsonV::Str("string"@)),
                ]);
            }
            object(e)
        });
        push_entry(&mut e, "maxItems", Json::Int(20));
        push_entry(&mut e, "description", Json::from_str("Array of memory IDs (for get_batch action). Max 20 IDs per call."));
        proof {
            assert(crate::json::entries_model(e@) =~= seq![
                ("type"@, JsonV::Str("array"@)),
                ("items"@, JsonV::Object(seq![
                    ("type"@, JsonV::Str("string"@)),
                ])),
                ("maxItems"@, JsonV::Int(20)),
                ("description"@, JsonV::Str("Array of memory IDs (for get_batch action). Max 20 IDs per call."@)),
            ]);
        }
        object(e)
    });
    push_entry(&mut props, "reason", {
        let mut e = new_entries();
        push_entry(&mut e, "type", Json::from_str("string"));
        push_entry(&mut e, "description", Json::from_str("Why this memory is being promoted/demoted (optional, for logging). Only used with promote/demote actions."));
        proof {
            assert(crate::json::entries_model(e@) =~= seq![
                ("type"@, JsonV::Str("string"@)),
                ("description"@, JsonV::Str("Why this memory is being promoted/demoted (optional, for logging). Only used with promote/demote actions."@)),
            ]);
        }
        object(e)
    });
    push_entry(&mut props, "content", {
        let mut e = new_entries();
        push_entry(&mut e, "type", Json::from_str("string"));
        push_entry(&mut e, "description", Json::from_str("New content for edit action. Replaces existing content, regenerates embedding, preserves FSRS state."));
        proof {
            assert(crate::json::entries_model(e@) =~= seq![
                ("type"@, JsonV::Str("string"@)),
                ("description"@, JsonV::Str("New content for edit action. Replaces existing content, regenerates embedding, preserves FSRS state."@)),
            ]);
        }
        object(e)
    });
    push_entry(&mut props, "rating", {
        let mut e = new_entries();
        push_entry(&mut e, "type", Json::from_str("integer"));
        push_entry(&mut e, "minimum", Json::Int(1));
        push_entry(&mut e, "maximum", Json::Int(4));
        push_entry(&mut e, "description", Json::from_str("FSRS rating for the review action: 1=Again (forgot), 2=Hard, 3=Good (default), 4=Easy"));
        proof {
            assert(crate::json::entries_model(e@) =~= seq![
                ("type"@, JsonV::Str("integer"@)),
                ("minimum"@, JsonV::Int(1)),
                ("maximum"@, JsonV::Int(4)),
                ("description"@, JsonV::Str("FSRS rating for the review action: 1=Again (forgot), 2=Hard, 3=Good (default), 4=Easy"@)),
            ]);
        }
        object(e)
    });
    push_entry(&mut props, "confirmed", {
        let mut e = new_entries();
        push_entry(&mut e, "type", Json::from_str("boolean"));
        push_entry(&mut e, "description", Json::from_str("Set to true to authorise the destructive 'delete' action. Without it, delete is refused and nothing is removed."));
        proof {
            assert(crate::json::entries_model(e@) =~= seq![
                ("type"@, JsonV::Str("boolean"@)),
                ("description"@, JsonV::Str("Set to true to authorise the destructive 'delete' action. Without it, delete is refused and nothing is removed."@)),
            ]);
        }
        object(e)
    });
    let mut required: Vec<String> = Vec::new();
    required.push(owned("action"));
    let mut extra = new_entries();
    push_entry(&mut extra, "allOf", {
        let mut a: Vec<Json> = Vec::new();
        a.push({
            let mut e = new_entries();
            push_entry(&mut e, "if", {
                let mut e = new_entries();
                push_entry(&mut e, "properties", {
                    let mut e = new_entries();
                    push_entry(&mut e, "action", {
                        let mut e = new_entries();
                        push_entry(&mut e, "const", Json::from_str("get_batch"));
                        proof {
                            assert(crate::json::entries_model(e@) =~= seq![
                                ("const"@, JsonV::Str("get_batch"@)),
                            ]);
                        }
                        object(e)
                    });
                    proof {
                        assert(crate::json::entries_model(e@) =~= seq![
                            ("action"@, JsonV::Object(seq![
                                ("const"@, JsonV::Str("get_batch"@)),
                            ])),
                        ]);
                    }
                    object(e)
                });
                push_entry(&mut e, "required", {
                    let mut a: Vec<Json> = Vec::new();
                    a.push(Json::from_str("action"));
                    proof {
                        assert(crate::json::items_model(a@) =~= seq![
                            JsonV::Str("action"@),
                        ]);
                    }
                    array(a)
                });
                proof {
                    assert(crate::json::entries_model(e@) =~= seq![
                        ("properties"@, JsonV::Object(seq![
                            ("action"@, JsonV::Object(seq![
                                ("const"@, JsonV::Str("get_batch"@)),
                            ])),
                        ])),
                        ("required"@, JsonV::Array(seq![
                            JsonV::Str("action"@),
                        ])),
                    ]);
                }
                object(e)
            });
            push_entry(&mut e, "then", {
                let mut e = new_entries();
                push_entry(&mut e, "required", {
                    let mut a: Vec<Json> = Vec::new();
                    a.push(Json::from_str("ids"));
                    proof {
                        assert(crate::json::items_model(a@) =~= seq![
                            JsonV::Str("ids"@),
                        ]);
                    }
                    array(a)
                });
                proof {
                    assert(crate::json::entries_model(e@) =~= seq![
                        ("required"@, JsonV::Array(seq![
                            JsonV::Str("ids"@),
                        ])),
                    ]);
                }
                object(e)
            });
            push_entry(&mut e, "else", {
                let mut e = new_entries();
                push_entry(&mut e, "required", {
                    let mut a: Vec<Json> = Vec::new();
                    a.push(Json::from_str("id"));
                    proof {
                        assert(crate::json::items_model(a@) =~= seq![
                            JsonV::Str("id"@),
                        ]);
                    }
                    array(a)
                });
                proof {
                    assert(crate::json::entries_model(e@) =~= seq![
                        ("required"@, JsonV::Array(seq![
                            JsonV::Str("id"@),
                        ])),
                    ]);
                }
                object(e)
            });
            proof {
                assert(crate::json::entries_model(e@) =~= seq![
                    ("if"@, JsonV::Object(seq![
                        ("properties"@, JsonV::Object(seq![
                            ("action"@, JsonV::Object(seq![
                                ("const"@, JsonV::Str("get_batch"@)),
                            ])),
                        ])),
                        ("required"@, JsonV::Array(seq![
                            JsonV::Str("action"@),
                        ])),
                    ])),
                    ("then"@, JsonV::Object(seq![
                        ("required"@, JsonV::Array(seq![
                            JsonV::Str("ids"@),
                        ])),
                    ])),
                    ("else"@, JsonV::Object(seq![
                        ("required"@, JsonV::Array(seq![
                            JsonV::Str("id"@),
                        ])),
                    ])),
                ]);
            }
            object(e)
        });
        a.push({
            let mut e = new_entries();
            push_entry(&mut e, "if", {
                let mut e = new_entries();
                push_entry(&mut e, "properties", {
                    let mut e = new_entries();
                    push_entry(&mut e, "action", {
                        let mut e = new_entries();
                        push_entry(&mut e, "const", Json::from_str("edit"));
                        proof {
                            assert(crate::json::entries_model(e@) =~= seq![
                                ("const"@, JsonV::Str("edit"@)),
                            ]);
                        }
                        object(e)
                    });
                    proof {
                        assert(crate::json::entries_model(e@) =~= seq![
                            ("action"@, JsonV::Object(seq![
                                ("const"@, JsonV::Str("edit"@)),
                            ])),
                        ]);
                    }
                    object(e)
                });
                push_entry(&mut e, "required", {
                    let mut a: Vec<Json> = Vec::new();
                    a.push(Json::from_str("action"));
                    proof {
                        assert(crate::json::items_model(a@) =~= seq![
                            JsonV::Str("action"@),
                        ]);
                    }
                    array(a)
                });
                proof {
                    assert(crate::json::entries_model(e@) =~= seq![
                        ("properties"@, JsonV::Object(seq![
                            ("action"@, JsonV::Object(seq![
                                ("const"@, JsonV::Str("edit"@)),
                            ])),
                        ])),
                        ("required"@, JsonV::Array(seq![
                            JsonV::Str("action"@),
                        ])),
                    ]);
                }
                object(e)
            });
            push_entry(&mut e, "then", {
                let mut e = new_entries();
                push_entry(&mut e, "required", {
                    let mut a: Vec<Json> = Vec::new();
                    a.push(Json::from_str("content"));
                    proof {
                        assert(crate::json::items_model(a@) =~= seq![
                            JsonV::Str("content"@),
                        ]);
                    }
                    array(a)
                });
                proof {
                    assert(crate::json::entries_model(e@) =~= seq![
                        ("required"@, JsonV::Array(seq![
                            JsonV::Str("content"@),
                        ])),
                    ]);
                }
                object(e)
            });
            proof {
                assert(crate::json::entries_model(e@) =~= seq![
                    ("if"@, JsonV::Object(seq![
                        ("properties"@, JsonV::Object(seq![
                            ("action"@, JsonV::Object(seq![
                                ("const"@, JsonV::Str("edit"@)),
                            ])),
                        ])),
                        ("required"@, JsonV::Array(seq![
                            JsonV::Str("action"@),
                        ])),
                    ])),
                    ("then"@, JsonV::Object(seq![
                        ("required"@, JsonV::Array(seq![
                            JsonV::Str("content"@),
                        ])),
                    ])),
                ]);
            }
            object(e)
        });
        proof {
            assert(crate::json::items_model(a@) =~= seq![
                JsonV::Object(seq![
                    ("if"@, JsonV::Object(seq![
                        ("properties"@, JsonV::Object(seq![
                            ("action"@, JsonV::Object(seq![
                                ("const"@, JsonV::Str("get_batch"@)),
                            ])),
                        ])),
                        ("required"@, JsonV::Array(seq![
                            JsonV::Str("action"@),
                        ])),
                    ])),
                    ("then"@, JsonV::Object(seq![
                        ("required"@, JsonV::Array(seq![
                            JsonV::Str("ids"@),
                        ])),
                    ])),
                    ("else"@, JsonV::Object(seq![
                        ("required"@, JsonV::Array(seq![
                            JsonV::Str("id"@),
                        ])),
                    ])),
                ]),
                JsonV::Object(seq![
                    ("if"@, JsonV::Object(seq![
                        ("properties"@, JsonV::Object(seq![
                            ("action"@, JsonV::Object(seq![
                                ("const"@, JsonV::Str("edit"@)),
                            ])),
                        ])),
                        ("required"@, JsonV::Array(seq![
                            JsonV::Str("action"@),
                        ])),
                    ])),
                    ("then"@, JsonV::Object(seq![
                        ("required"@, JsonV::Array(seq![
                            JsonV::Str("content"@),
                        ])),
                    ])),
                ]),
            ]);
        }
        array(a)
    });
    proof {
        assert(keys_of(entries_model(props@)) =~= seq!["action"@, "id"@, "ids"@, "reason"@, "content"@, "rating"@, "confirmed"@]);
        assert(names_of(required@) =~= seq!["action"@]);
        assert(keys_of(entries_model(props@))[0] == "action"@);
        reveal_strlit("required");
        reveal_strlit("allOf");
        assert("allOf"@[0] != "required"@[0]);
        assert(keys_of(entries_model(extra@)) =~= seq!["allOf"@]);
        assert(forall|k: int| 0 <= k < extra@.len() ==> (#[trigger] extra@[k]).0@ == keys_of(entries_model(extra@))[k]);
    }
    let s = ToolSchema { properties: props, required, extra };
    proof {
        assert(crate::json::entries_model(s.properties@) =~= seq![
            ("action"@, JsonV::Object(seq![
                ("type"@, JsonV::Str("string"@)),
                ("enum"@, JsonV::Array(seq![
                    JsonV::Str("get"@),
                    JsonV::Str("get_batch"@),
                    JsonV::Str("delete"@),
                    JsonV::Str("state"@),
                    JsonV::Str("promote"@),
                    JsonV::Str("demote"@),
                    JsonV::Str("edit"@),
                    JsonV::Str("review"@),
                ])),
                ("description"@, JsonV::Str("Action to perform: 'get' retrieves full memory node, 'get_batch' retrieves multiple memories by IDs (use 'ids' array), 'delete' removes memory (requires confirmed: true), 'state' returns accessibility state, 'promote' increases retrieval strength (thumbs up), 'demote' decreases retrieval strength (thumbs down), 'edit' updates content in-place (preserves FSRS state), 'review' records a spaced-repetition review of a due memory (use 'rating')"@)),
            ])),
            ("id"@, JsonV::Object(seq![
                ("type"@, JsonV::Str("string"@)),
                ("description"@, JsonV::Str("The ID of the memory node (required for every action except get_batch)"@)),
            ])),
            ("ids"@, JsonV::Object(seq![
                ("type"@, JsonV::Str("array"@)),
                ("items"@, JsonV::Object(seq![
                    ("type"@, JsonV::Str("string"@)),
                ])),
                ("maxItems"@, JsonV::Int(20)),
                ("description"@, JsonV::Str("Array of memory IDs (for get_batch action). Max 20 IDs per call."@)),
            ])),
            ("reason"@, JsonV::Object(seq![
                ("type"@, JsonV::Str("string"@)),
                ("description"@, JsonV::Str("Why this memory is being promoted/demoted (optional, for logging). Only used with promote/demote actions."@)),
            ])),
            ("content"@, JsonV::Object(seq![
                ("type"@, JsonV::Str("string"@)),
                ("description"@, JsonV::Str("New content for edit action. Replaces existing content, regenerates embedding, preserves FSRS state."@)),
            ])),
            ("rating"@, JsonV::Object(seq![
                ("type"@, JsonV::Str("integer"@)),
                ("minimum"@, JsonV::Int(1)),
                ("maximum"@, JsonV::Int(4)),
                ("description"@, JsonV::Str("FSRS rating for the review action: 1=Again (forgot), 2=Hard, 3=Good (default), 4=Easy"@)),
            ])),
            ("confirmed"@, JsonV::Object(seq![
                ("type"@, JsonV::Str("boolean"@)),
                ("description"@, JsonV::Str("Set to true to authorise the destructive 'delete' action. Without it, delete is refused and nothing is removed."@)),
            ])),
        ]);
        assert(crate::json::entries_model(s.extra@) =~= seq![
            ("allOf"@, JsonV::Array(seq![
                JsonV::Object(seq![
                    ("if"@, JsonV::Object(seq![
                        ("properties"@, JsonV::Object(seq![
                            ("action"@, JsonV::Object(seq![
                                ("const"@, JsonV::Str("get_batch"@)),
                            ])),
                        ])),
                        ("required"@, JsonV::Array(seq![
                            JsonV::Str("action"@),
                        ])),
                    ])),
                    ("then"@, JsonV::Object(seq![
                        ("required"@, JsonV::Array(seq![
                            JsonV::Str("ids"@),
                        ])),
                    ])),
                    ("else"@, JsonV::Object(seq![
                        ("required"@, JsonV::Array(seq![
                            JsonV::Str("id"@),
                        ])),
                    ])),
                ]),
                JsonV::Object(seq![
                    ("if"@, JsonV::Object(seq![
                        ("properties"@, JsonV::Object(seq![
                            ("action"@, JsonV::Object(seq![
                                ("const"@, JsonV::Str("edit"@)),
                            ])),
                        ])),
                        ("required"@, JsonV::Array(seq![
                            JsonV::Str("action"@),
                        ])),
                    ])),
                    ("then"@, JsonV::Object(seq![
                        ("required"@, JsonV::Array(seq![
                            JsonV::Str("content"@),
                        ])),
                    ])),
                ]),
            ])),
        ]);
        assert(crate::json::strs_model(s.required@) =~= seq![
            JsonV::Str("action"@),
        ]);
        assert(s.json_v()->Object_0 =~= schema_spec()->Object_0);
    }
    s.publish()
}


// ---------------------------------------------------------------------------
// Requests
// ---------------------------------------------------------------------------

/// Every action the tool accepts, as the refusal of an unknown one lists them.
pub const ACTIONS: &'static str = "get, get_batch, delete, state, promote, demote, edit, review";

/// The most ids a batch read takes.
pub const MAX_BATCH_IDS: usize = 20;

/// Whether `uuid::Uuid::parse_str` accepts a text (any of the forms the
/// `uuid` crate parses).
pub uninterp spec fn uuid_accepts(s: Seq<char>) -> bool;

/// `uuid::Uuid::parse_str(s).is_ok()`: the contract ties the answer to
/// [`uuid_accepts`] and states nothing more of the accepted forms.
#[verifier::external_body]
pub(crate) fn is_uuid(s: &str) -> (r: bool)
    ensures
        r == uuid_accepts(s@),
{
    uuid::Uuid::parse_str(s).is_ok()
}

/// The arguments of a memory call, as read from the request.
pub struct MemoryArgs {
    pub action: String,
    pub id: Option<String>,
    pub ids: Option<Vec<String>>,
    pub reason: Option<String>,
    pub content: Option<String>,
    pub rating: Option<i32>,
}

/// What a memory call asks for.
#[derive(PartialEq, Eq, Structural, Clone, Copy, Debug)]
pub enum MemoryAction {
    Get,
    GetBatch,
    Delete,
    State,
    Promote,
    Demote,
    Edit,
    Review,
}

/// The single-memory action named by `action`, if any.
pub open spec fn action_s(action: Seq<char>) -> Option<MemoryAction> {
    if action == "get"@ {
        Some(MemoryAction::Get)
    } else if action == "delete"@ {
        Some(MemoryAction::Delete)
    } else if action == "state"@ {
        Some(MemoryAction::State)
    } else if action == "promote"@ {
        Some(MemoryAction::Promote)
    } else if action == "demote"@ {
        Some(MemoryAction::Demote)
    } else if action == "edit"@ {
        Some(MemoryAction::Edit)
    } else if action == "review"@ {
        Some(MemoryAction::Review)
    } else {
        None
    }
}

/// The first id of a batch that is not a UUID, if any.
pub open spec fn first_bad_id(ids: Seq<Seq<char>>) -> Option<int> {
    if exists|i: int| 0 <= i < ids.len() && !uuid_accepts(#[trigger] ids[i]) {
        Some(choose|i: int| 0 <= i < ids.len() && !uuid_accepts(#[trigger] ids[i]) && forall|k: int| 0 <= k < i ==> uuid_accepts(#[trigger] ids[k]))
    } else {
        None
    }
}

/// What a memory call comes to: the action with the ids it reads (one for a
/// single-memory action), or the refusal text.
pub open spec fn request_s(
    action: Seq<char>,
    id: Option<Seq<char>>,
    ids: Option<Seq<Seq<char>>>,
) -> Result<(MemoryAction, Seq<Seq<char>>), Seq<char>> {
    if action == "get_batch"@ {
        match ids {
            None => Err("get_batch requires 'ids' array"@),
            Some(ids) => if ids.len() == 0 {
                Err("ids array cannot be empty"@)
            } else if ids.len() > MAX_BATCH_IDS {
                Err("get_batch supports max 20 IDs per call"@)
            } else {
                match first_bad_id(ids) {
                    Some(i) => Err("Invalid memory ID format: "@ + ids[i]),
                    None => Ok((MemoryAction::GetBatch, ids)),
                }
            },
        }
    } else {
        match id {
            None => Err("This action requires 'id' parameter"@),
            Some(id) => if !uuid_accepts(id) {
                Err("Invalid memory ID format"@)
            } else {
                match action_s(action) {
                    Some(a) => Ok((a, seq![id])),
                    None => Err("Invalid action '"@ + action + "'. Must be one of: "@ + ACTIONS@),
                }
            },
        }
    }
}

/// A validated memory call.
pub struct MemoryRequest {
    pub action: MemoryAction,
    /// The ids read: one for a single-memory action.
    pub ids: Vec<String>,
}

pub open spec fn opt_names(o: Option<Vec<String>>) -> Option<Seq<Seq<char>>> {
    match o {
        Some(v) => Some(names_of(v@)),
        None => None,
    }
}

pub open spec fn opt_name(o: Option<String>) -> Option<Seq<char>> {
    match o {
        Some(s) => Some(s@),
        None => None,
    }
}

fn single_action(action: &str) -> (r: Option<MemoryAction>)
    ensures
        r == action_s(action@),
{
    let a = chars_of(action);
    if crate::text::chars_eq_str(&a, "get") {
        Some(MemoryAction::Get)
    } else if crate::text::chars_eq_str(&a, "delete") {
        Some(MemoryAction::Delete)
    } else if crate::text::chars_eq_str(&a, "state") {
        Some(MemoryAction::State)
    } else if crate::text::chars_eq_str(&a, "promote") {
        Some(MemoryAction::Promote)
    } else if crate::text::chars_eq_str(&a, "demote") {
        Some(MemoryAction::Demote)
    } else if crate::text::chars_eq_str(&a, "edit") {
        Some(MemoryAction::Edit)
    } else if crate::text::chars_eq_str(&a, "review") {
        Some(MemoryAction::Review)
    } else {
        None
    }
}

fn copy_names(v: &Vec<String>) -> (r: Vec<String>)
    ensures
        names_of(r@) == names_of(v@),
{
    let mut r: Vec<String> = Vec::new();
    let mut i: usize = 0;
    while i < v.len()
        invariant
            0 <= i <= v@.len(),
            names_of(r@) == names_of(v@.take(i as int)),
        decreases v.len() - i,
    {
        let ghost before = r@;
        let item = owned(v[i].as_str());
        assert(item@ == v@[i as int]@);
        r.push(item);
        proof {
            assert(names_of(r@) =~= names_of(before).push(v@[i as int]@));
            assert(names_of(r@) =~= names_of(v@.take(i + 1)));
        }
        i = i + 1;
    }
    proof {
        assert(v@.take(v@.len() as int) =~= v@);
    }
    r
}

/// Validates a memory call: a batch read takes 1 to 20 ids, every one a
/// UUID; any other action takes one UUID `id` and must be a known action.
pub fn memory_request(args: &MemoryArgs) -> (r: Result<MemoryRequest, String>)
    ensures
        match r {
            Ok(q) => request_s(args.action@, opt_name(args.id), opt_names(args.ids)) == Ok::<
                (MemoryAction, Seq<Seq<char>>),
                Seq<char>,
            >((q.action, names_of(q.ids@))),
            Err(e) => request_s(args.action@, opt_name(args.id), opt_names(args.ids)) == Err::<
                (MemoryAction, Seq<Seq<char>>),
                Seq<char>,
            >(e@),
        },
{
    let a = chars_of(args.action.as_str());
    if crate::text::chars_eq_str(&a, "get_batch") {
        let ids = match &args.ids {
            Some(v) => v,
            None => {
                return Err(owned("get_batch requires 'ids' array"));
            },
        };
        if ids.len() == 0 {
            return Err(owned("ids array cannot be empty"));
        }
        if ids.len() > MAX_BATCH_IDS {
            return Err(owned("get_batch supports max 20 IDs per call"));
        }
        let ghost names = names_of(ids@);
        proof {
            assert(opt_names(args.ids) == Some(names));
        }
        let mut i: usize = 0;
        while i < ids.len()
            invariant
                0 <= i <= ids@.len(),
                names == names_of(ids@),
                opt_names(args.ids) == Some(names),
                a@ == args.action@,
                a@ == "get_batch"@,
                1 <= ids@.len() <= MAX_BATCH_IDS,
                forall|k: int| 0 <= k < i ==> uuid_accepts(#[trigger] names[k]),
            decreases ids.len() - i,
        {
            if !is_uuid(ids[i].as_str()) {
                proof {
                    assert(!uuid_accepts(names[i as int]));
                    let w = choose|j: int| 0 <= j < names.len() && !uuid_accepts(#[trigger] names[j]) && forall|k: int| 0 <= k < j ==> uuid_accepts(#[trigger] names[k]);
                    assert(0 <= (i as int) < names.len() && !uuid_accepts(names[i as int]) && forall|k: int| 0 <= k < i ==> uuid_accepts(#[trigger] names[k]));
                    if w < i {
                        assert(uuid_accepts(names[w]));
                    }
                    if w > i {
                        assert(uuid_accepts(names[i as int]));
                    }
                }
                let mut m: Vec<char> = chars_of("Invalid memory ID format: ");
                push_str(&mut m, ids[i].as_str());
                proof {
                    assert(names[i as int] == ids@[i as int]@);
                    assert(first_bad_id(names) == Some(i as int));
                    assert(opt_names(args.ids) == Some(names));
                }
                return Err(string_of(m.as_slice()));
            }
            i = i + 1;
        }
        let copy = copy_names(ids);
        return Ok(MemoryRequest { action: MemoryAction::GetBatch, ids: copy });
    }
    let id = match &args.id {
        Some(id) => id,
        None => {
            return Err(owned("This action requires 'id' parameter"));
        },
    };
    if !is_uuid(id.as_str()) {
        return Err(owned("Invalid memory ID format"));
    }
    match single_action(args.action.as_str()) {
        Some(act) => {
            let mut ids: Vec<String> = Vec::new();
            ids.push(owned(id.as_str()));
            proof {
                assert(names_of(ids@) =~= seq![id@]);
            }
            Ok(MemoryRequest { action: act, ids })
        },
        None => {
            let mut m: Vec<char> = chars_of("Invalid action '");
            push_str(&mut m, args.action.as_str());
            push_str(&mut m, "'. Must be one of: ");
            push_str(&mut m, ACTIONS);
            Err(string_of(m.as_slice()))
        },
    }
}

// ---------------------------------------------------------------------------
// Edit
// ---------------------------------------------------------------------------

/// The refusal new content meets, if any.
pub open spec fn edit_error(content: Option<Seq<char>>) -> Option<Seq<char>> {
    match content {
        None => Some("Missing 'content' field. Required for edit action."@),
        Some(c) => if trim_s(c).len() == 0 {
            Some("Content cannot be empty"@)
        } else {
            None
        },
    }
}

/// Checks the new content of an edit: present and not blank.
pub fn check_edit_content(content: Option<&str>) -> (r: Result<(), String>)
    ensures
        match r {
            Ok(()) => edit_error(
                match content {
                    Some(c) => Some(c@),
                    None => None,
                },
            ) is None,
            Err(e) => edit_error(
                match content {
                    Some(c) => Some(c@),
                    None => None,
                },
            ) == Some(e@),
        },
{
    match content {
        None => Err(owned("Missing 'content' field. Required for edit action.")),
        Some(c) => {
            let cs = chars_of(c);
            let (a, b) = trim_range(&cs, 0, cs.len());
            proof {
                assert(cs@.subrange(0, cs@.len() as int) =~= c@);
            }
            if a == b {
                Err(owned("Content cannot be empty"))
            } else {
                Ok(())
            }
        },
    }
}

/// A preview of at most 200 characters: a longer text keeps 197 and ends in `...`.
pub open spec fn preview_s(s: Seq<char>) -> Seq<char> {
    if s.len() > 200 {
        s.take(197) + "..."@
    } else {
        s
    }
}

/// The preview of a memory's content in an edit reply.
pub fn content_preview(s: &str) -> (r: String)
    ensures
        r@ == preview_s(s@),
{
    let cs = chars_of(s);
    if cs.len() > 200 {
        let mut head = copy_range(&cs, 0, 197);
        push_str(&mut head, "...");
        proof {
            assert(cs@.subrange(0, 197) =~= s@.take(197));
        }
        string_of(head.as_slice())
    } else {
        owned(s)
    }
}

/// The reply to an edit.
pub open spec fn edit_reply_s(id: Seq<char>, old: Seq<char>, new: Seq<char>) -> JsonV {
    JsonV::Object(
        seq![
            ("success"@, JsonV::Bool(true)),
            ("action"@, JsonV::Str("edit"@)),
            ("nodeId"@, JsonV::Str(id)),
            ("oldContentPreview"@, JsonV::Str(preview_s(old))),
            ("newContentPreview"@, JsonV::Str(preview_s(new))),
            ("note"@, JsonV::Str("FSRS state preserved (stability, difficulty, reps, lapses unchanged). Embedding regenerated for new content."@)),
        ],
    )
}

/// The reply to an edit of memory `id` from `old` to `new` content.
pub fn edit_reply(id: &str, old: &str, new: &str) -> (r: Json)
    ensures
        r@ == edit_reply_s(id@, old@, new@),
{
    let mut e = new_entries();
    push_entry(&mut e, "success", Json::Bool(true));
    push_entry(&mut e, "action", Json::from_str("edit"));
    push_entry(&mut e, "nodeId", Json::from_str(id));
    push_entry(&mut e, "oldContentPreview", Json::Str(content_preview(old)));
    push_entry(&mut e, "newContentPreview", Json::Str(content_preview(new)));
    push_entry(
        &mut e,
        "note",
        Json::from_str(
            "FSRS state preserved (stability, difficulty, reps, lapses unchanged). Embedding regenerated for new content.",
        ),
    );
    proof {
        assert(entries_model(e@) =~= edit_reply_s(id@, old@, new@)->Object_0);
    }
    object(e)
}

/// The reply to a delete: whether the store held the memory.
pub fn delete_reply(id: &str, deleted: bool) -> (r: Json)
    ensures
        r@ == JsonV::Object(
            seq![
                ("action"@, JsonV::Str("delete"@)),
                ("success"@, JsonV::Bool(deleted)),
                ("nodeId"@, JsonV::Str(id@)),
                (
                    "message"@,
                    JsonV::Str(
                        if deleted {
                            "Memory deleted successfully"@
                        } else {
                            "Memory not found"@
                        },
                    ),
                ),
            ],
        ),
{
    let mut e = new_entries();
    push_entry(&mut e, "action", Json::from_str("delete"));
    push_entry(&mut e, "success", Json::Bool(deleted));
    push_entry(&mut e, "nodeId", Json::from_str(id));
    let msg = if deleted {
        "Memory deleted successfully"
    } else {
        "Memory not found"
    };
    push_entry(&mut e, "message", Json::from_str(msg));
    proof {
        assert(entries_model(e@) =~= seq![
            ("action"@, JsonV::Str("delete"@)),
            ("success"@, JsonV::Bool(deleted)),
            ("nodeId"@, JsonV::Str(id@)),
            ("message"@, JsonV::Str(msg@)),
        ]);
    }
    object(e)
}

/// The reply to a read of a memory the store does not hold.
pub fn not_found_reply(id: &str) -> (r: Json)
    ensures
        r@ == JsonV::Object(
            seq![
                ("action"@, JsonV::Str("get"@)),
                ("found"@, JsonV::Bool(false)),
                ("nodeId"@, JsonV::Str(id@)),
                ("message"@, JsonV::Str("Memory not found"@)),
            ],
        ),
{
    let mut e = new_entries();
    push_entry(&mut e, "action", Json::from_str("get"));
    push_entry(&mut e, "found", Json::Bool(false));
    push_entry(&mut e, "nodeId", Json::from_str(id));
    push_entry(&mut e, "message", Json::from_str("Memory not found"));
    proof {
        assert(entries_model(e@) =~= seq![
            ("action"@, JsonV::Str("get"@)),
            ("found"@, JsonV::Bool(false)),
            ("nodeId"@, JsonV::Str(id@)),
            ("message"@, JsonV::Str("Memory not found"@)),
        ]);
    }
    object(e)
}

/// The reply to a batch read: the nodes found, their count, and the ids not found.
pub fn batch_reply(nodes: Vec<Json>, not_found: &Vec<String>) -> (r: Json)
    ensures
        r@ == JsonV::Object(
            seq![
                ("action"@, JsonV::Str("get_batch"@)),
                ("nodes"@, JsonV::Array(crate::json::items_model(nodes@))),
                ("found"@, count_v(nodes@.len())),
                ("notFound"@, JsonV::Array(strs_model(not_found@))),
            ],
        ),
{
    let ghost m = crate::json::items_model(nodes@);
    let n = nodes.len();
    let mut e = new_entries();
    push_entry(&mut e, "action", Json::from_str("get_batch"));
    push_entry(&mut e, "nodes", array(nodes));
    push_entry(&mut e, "found", crate::json::count(n));
    push_entry(&mut e, "notFound", crate::json::str_array(not_found));
    proof {
        assert(entries_model(e@) =~= seq![
            ("action"@, JsonV::Str("get_batch"@)),
            ("nodes"@, JsonV::Array(m)),
            ("found"@, count_v(n as nat)),
            ("notFound"@, JsonV::Array(strs_model(not_found@))),
        ]);
    }
    object(e)
}

/// The four tiers of a memory's accessibility.
#[derive(PartialEq, Eq, Structural, Clone, Copy, Debug)]
pub enum MemoryState {
    Active,
    Dormant,
    Silent,
    Unavailable,
}

/// The tier for the outcome of the three threshold comparisons on the
/// accessibility score (at least 0.7, at least 0.4, at least 0.1), read
/// from the top down.
pub open spec fn state_of_s(at_least_active: bool, at_least_dormant: bool, at_least_silent: bool) -> MemoryState {
    if at_least_active {
        MemoryState::Active
    } else if at_least_dormant {
        MemoryState::Dormant
    } else if at_least_silent {
        MemoryState::Silent
    } else {
        MemoryState::Unavailable
    }
}

/// The tier of a memory, from the threshold comparisons on its score.
pub fn state_of(at_least_active: bool, at_least_dormant: bool, at_least_silent: bool) -> (r: MemoryState)
    ensures
        r == state_of_s(at_least_active, at_least_dormant, at_least_silent),
{
    if at_least_active {
        MemoryState::Active
    } else if at_least_dormant {
        MemoryState::Dormant
    } else if at_least_silent {
        MemoryState::Silent
    } else {
        MemoryState::Unavailable
    }
}

/// The name of a tier, as the `state` reply shows it.
pub open spec fn state_name_s(s: MemoryState) -> Seq<char> {
    match s {
        MemoryState::Active => "Active"@,
        MemoryState::Dormant => "Dormant"@,
        MemoryState::Silent => "Silent"@,
        MemoryState::Unavailable => "Unavailable"@,
    }
}

/// The name of a tier.
pub fn state_name(s: MemoryState) -> (r: &'static str)
    ensures
        r@ == state_name_s(s),
{
    match s {
        MemoryState::Active => "Active",
        MemoryState::Dormant => "Dormant",
        MemoryState::Silent => "Silent",
        MemoryState::Unavailable => "Unavailable",
    }
}

/// What a tier means for recall.
pub open spec fn state_description_s(s: MemoryState) -> Seq<char> {
    match s {
        MemoryState::Active => "Easily retrievable - this memory is fresh and accessible"@,
        MemoryState::Dormant => "Retrievable with effort - may need cues to recall"@,
        MemoryState::Silent => "Difficult to retrieve - exists but hard to access"@,
        MemoryState::Unavailable => "Cannot be retrieved - needs significant reinforcement"@,
    }
}

/// What a tier means for recall.
pub fn state_description(s: MemoryState) -> (r: &'static str)
    ensures
        r@ == state_description_s(s),
{
    match s {
        MemoryState::Active => "Easily retrievable - this memory is fresh and accessible",
        MemoryState::Dormant => "Retrievable with effort - may need cues to recall",
        MemoryState::Silent => "Difficult to retrieve - exists but hard to access",
        MemoryState::Unavailable => "Cannot be retrieved - needs significant reinforcement",
    }
}

/// Every action the schema advertises is one the tool accepts.
pub proof fn law_advertised_actions_are_accepted()
    ensures
        forall|a: Seq<char>|
            a == "get"@ || a == "delete"@ || a == "state"@ || a == "promote"@ || a == "demote"@ || a
                == "edit"@ || a == "review"@ ==> #[trigger] action_s(a) is Some,
{
}

} // verus!
