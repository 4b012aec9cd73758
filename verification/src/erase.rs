//! `erase`: hard deletion of one memory or of every memory carrying a tag.
//!
//! Erasure is irreversible, so the request is safe by default: `dry_run`
//! defaults to `true`, and the destructive variant runs only with an explicit
//! confirmation. The planning, the tag canonicalization and the report are
//! computed here; the store performs the reads and the erasure.

use vstd::prelude::*;
use crate::confirm::{confirmed_s, is_confirmed, missing_confirmation_error, refusal_text};
use crate::json::{
    array, count_v, entries_model, keys_of, new_entries, object, push_entry, str_array,
    string_eq_str, strs_model, uint, Json, JsonV,
};
use crate::schema::{declared_args, required_args, schema_shape, names_of, ToolSchema};
use crate::text::{
    chars_of, copy_range, decimal_s, is_ws, lowercase, owned, push_chars, push_str,
    signed_decimal, signed_decimal_s, string_of, to_lowercase, trim_range, trim_s,
};

verus! {

broadcast use vstd::string::group_string_axioms;

/// How many memory ids a report carries; the count stays exact beyond it.
pub const MAX_REPORTED_IDS: usize = 100;

/// The argument schema of `erase`, as published.
pub open spec fn schema_spec() -> JsonV {
    JsonV::Object(seq![
        ("type"@, JsonV::Str("object"@)),
        ("properties"@, JsonV::Object(seq![
            ("action"@, JsonV::Object(seq![
                ("type"@, JsonV::Str("string"@)),
                ("enum"@, JsonV::Array(seq![
                    JsonV::Str("memory"@),
                    JsonV::Str("tag"@),
                ])),
                ("description"@, JsonV::Str("Erasure scope: 'memory' hard-deletes one memory by id, 'tag' hard-deletes every memory carrying that exact tag."@)),
            ])),
            ("id"@, JsonV::Object(seq![
                ("type"@, JsonV::Str("string"@)),
                ("minLength"@, JsonV::Int(1)),
                ("maxLength"@, JsonV::Int(64)),
                ("description"@, JsonV::Str("Memory id to erase. Required when action='memory'."@)),
            ])),
            ("tag"@, JsonV::Object(seq![
                ("type"@, JsonV::Str("string"@)),
                ("minLength"@, JsonV::Int(1)),
                ("maxLength"@, JsonV::Int(128)),
                ("description"@, JsonV::Str("Tag to erase. Required when action='tag'. Matched as an exact tag element after the same canonicalization the writers apply (trim, lowercase, spaces/underscores to '-'), so 'code' never matches 'codebase'."@)),
            ])),
            ("dry_run"@, JsonV::Object(seq![
                ("type"@, JsonV::Str("boolean"@)),
                ("default"@, JsonV::Bool(true)),
                ("description"@, JsonV::Str("If true (default), report the count and ids that WOULD be erased and delete nothing."@)),
            ])),
            ("confirmed"@, JsonV::Object(seq![
                ("type"@, JsonV::Str("boolean"@)),
                ("default"@, JsonV::Bool(false)),
                ("description"@, JsonV::Str("Required to be `true` when `dry_run` is `false`. Acts as an explicit acknowledgement that the irreversible erasure has been authorised. Mirrors the MCP `elicitation/create` flow for transports that cannot prompt mid-call."@)),
            ])),
        ])),
        ("required"@, JsonV::Array(seq![
            JsonV::Str("action"@),
        ])),
        ("allOf"@, JsonV::Array(seq![
            JsonV::Object(seq![
                ("if"@, JsonV::Object(seq![
                    ("properties"@, JsonV::Object(seq![
                        ("action"@, JsonV::Object(seq![
                            ("const"@, JsonV::Str("memory"@)),
                        ])),
                    ])),
                    ("required"@, JsonV::Array(seq![
                        JsonV::Str("action"@),
                    ])),
                ])),
                ("then"@, JsonV::Object(seq![
                    ("required"@, JsonV::Array(seq![
                        JsonV::Str("id"@),
                    ])),
                ])),
            ]),
            JsonV::Object(seq![
                ("if"@, JsonV::Object(seq![
                    ("properties"@, JsonV::Object(seq![
                        ("action"@, JsonV::Object(seq![
                            ("const"@, JsonV::Str("tag"@)),
                        ])),
                    ])),
                    ("required"@, JsonV::Array(seq![
                        JsonV::Str("action"@),
                    ])),
                ])),
                ("then"@, JsonV::Object(seq![
                    ("required"@, JsonV::Array(seq![
                        JsonV::Str("tag"@),
                    ])),
                ])),
            ]),
        ])),
    ])
}

/// The arguments of `erase`: `action` is required, with `id` or `tag` by action.
pub fn schema() -> (r: Json)
    ensures
        r@ == schema_spec(),
        schema_shape(r@),
        declared_args(r@) == seq!["action"@, "id"@, "tag"@, "dry_run"@, "confirmed"@],
        required_args(r@) == seq!["action"@],
{
    let mut props = new_entries();
    push_entry(&mut props, "action", {
        let mut e = new_entries();
        push_entry(&mut e, "type", Json::from_str("string"));
        push_entry(&mut e, "enum", {
            let mut a: Vec<Json> = Vec::new();
            a.push(Json::from_str("memory"));
            a.push(Json::from_str("tag"));
            proof {
                assert(crate::json::items_model(a@) =~= seq![
                    JsonV::Str("memory"@),
                    JsonV::Str("tag"@),
                ]);
            }
            array(a)
        });
        push_entry(&mut e, "description", Json::from_str("Erasure scope: 'memory' hard-deletes one memory by id, 'tag' hard-deletes every memory carrying that exact tag."));
        proof {
            assert(crate::json::entries_model(e@) =~= seq![
                ("type"@, JsonV::Str("string"@)),
                ("enum"@, JsonV::Array(seq![
                    JsonV::Str("memory"@),
                    JsonV::Str("tag"@),
                ])),
                ("description"@, JsonV::Str("Erasure scope: 'memory' hard-deletes one memory by id, 'tag' hard-deletes every memory carrying that exact tag."@)),
            ]);
        }
        object(e)
    });
    push_entry(&mut props, "id", {
        let mut e = new_entries();
        push_entry(&mut e, "type", Json::from_str("string"));
        push_entry(&mut e, "minLength", Json::Int(1));
        push_entry(&mut e, "maxLength", Json::Int(64));
        push_entry(&mut e, "description", Json::from_str("Memory id to erase. Required when action='memory'."));
        proof {
            assert(crate::json::entries_model(e@) =~= seq![
                ("type"@, JsonV::Str("string"@)),
                ("minLength"@, JsonV::Int(1)),
                ("maxLength"@, JsonV::Int(64)),
                ("description"@, JsonV::Str("Memory id to erase. Required when action='memory'."@)),
            ]);
        }
        object(e)
    });
    push_entry(&mut props, "tag", {
        let mut e = new_entries();
        push_entry(&mut e, "type", Json::from_str("string"));
        push_entry(&mut e, "minLength", Json::Int(1));
        push_entry(&mut e, "maxLength", Json::Int(128));
        push_entry(&mut e, "description", Json::from_str("Tag to erase. Required when action='tag'. Matched as an exact tag element after the same canonicalization the writers apply (trim, lowercase, spaces/underscores to '-'), so 'code' never matches 'codebase'."));
        proof {
            assert(crate::json::entries_model(e@) =~= seq![
                ("type"@, JsonV::Str("string"@)),
                ("minLength"@, JsonV::Int(1)),
                ("maxLength"@, JsonV::Int(128)),
                ("description"@, JsonV::Str("Tag to erase. Required when action='tag'. Matched as an exact tag element after the same canonicalization the writers apply (trim, lowercase, spaces/underscores to '-'), so 'code' never matches 'codebase'."@)),
            ]);
        }
        object(e)
    });
    push_entry(&mut props, "dry_run", {
        let mut e = new_entries();
        push_entry(&mut e, "type", Json::from_str("boolean"));
        push_entry(&mut e, "default", Json::Bool(true));
        push_entry(&mut e, "description", Json::from_str("If true (default), report the count and ids that WOULD be erased and delete nothing."));
        proof {
            assert(crate::json::entries_model(e@) =~= seq![
                ("type"@, JsonV::Str("boolean"@)),
                ("default"@, JsonV::Bool(true)),
                ("description"@, JsonV::Str("If true (default), report the count and ids that WOULD be erased and delete nothing."@)),
            ]);
        }
        object(e)
    });
    push_entry(&mut props, "confirmed", {
        let mut e = new_entries();
        push_entry(&mut e, "type", Json::from_str("boolean"));
        push_entry(&mut e, "default", Json::Bool(false));
        push_entry(&mut e, "description", Json::from_str("Required to be `true` when `dry_run` is `false`. Acts as an explicit acknowledgement that the irreversible erasure has been authorised. Mirrors the MCP `elicitation/create` flow for transports that cannot prompt mid-call."));
        proof {
            assert(crate::json::entries_model(e@) =~= seq![
                ("type"@, JsonV::Str("boolean"@)),
                ("default"@, JsonV::Bool(false)),
                ("description"@, JsonV::Str("Required to be `true` when `dry_run` is `false`. Acts as an explicit acknowledgement that the irreversible erasure has been authorised. Mirrors the MCP `elicitation/create` flow for transports that cannot prompt mid-call."@)),
            ]);
        }
        object(e)
    });
    let mut required: Vec<String> = Vec::new();
    required.push(owned("action"));
    let mut extra = new_entries();
    push_entry(&mut extra, "allOf", {
        let mut a: Vec<Json> = Vec::new();
        a.push({
            let mut e = new_entries();
            push_entry(&mut e, "if", {
                let mut e = new_entries();
                push_entry(&mut e, "properties", {
                    let mut e = new_entries();
                    push_entry(&mut e, "action", {
                        let mut e = new_entries();
                        push_entry(&mut e, "const", Json::from_str("memory"));
                        proof {
                            assert(crate::json::entries_model(e@) =~= seq![
                                ("const"@, JsonV::Str("memory"@)),
                            ]);
                        }
                        object(e)
                    });
                    proof {
                        assert(crate::json::entries_model(e@) =~= seq![
                            ("action"@, JsonV::Object(seq![
                                ("const"@, JsonV::Str("memory"@)),
                            ])),
                        ]);
                    }
                    object(e)
                });
                push_entry(&mut e, "required", {
                    let mut a: Vec<Json> = Vec::new();
                    a.push(Json::from_str("action"));
                    proof {
                        assert(crate::json::items_model(a@) =~= seq![
                            JsonV::Str("action"@),
                        ]);
                    }
                    array(a)
                });
                proof {
                    assert(crate::json::entries_model(e@) =~= seq![
                        ("properties"@, JsonV::Object(seq![
                            ("action"@, JsonV::Object(seq![
                                ("const"@, JsonV::Str("memory"@)),
                            ])),
                        ])),
                        ("required"@, JsonV::Array(seq![
                            JsonV::Str("action"@),
                        ])),
                    ]);
                }
                object(e)
            });
            push_entry(&mut e, "then", {
                let mut e = new_entries();
                push_entry(&mut e, "required", {
                    let mut a: Vec<Json> = Vec::new();
                    a.push(Json::from_str("id"));
                    proof {
                        assert(crate::json::items_model(a@) =~= seq![
                            JsonV::Str("id"@),
                        ]);
                    }
                    array(a)
                });
                proof {
                    assert(crate::json::entries_model(e@) =~= seq![
                        ("required"@, JsonV::Array(seq![
                            JsonV::Str("id"@),
                        ])),
                    ]);
                }
                object(e)
            });
            proof {
                assert(crate::json::entries_model(e@) =~= seq![
                    ("if"@, JsonV::Object(seq![
                        ("properties"@, JsonV::Object(seq![
                            ("action"@, JsonV::Object(seq![
                                ("const"@, JsonV::Str("memory"@)),
                            ])),
                        ])),
                        ("required"@, JsonV::Array(seq![
                            JsonV::Str("action"@),
                        ])),
                    ])),
                    ("then"@, JsonV::Object(seq![
                        ("required"@, JsonV::Array(seq![
                            JsonV::Str("id"@),
                        ])),
                    ])),
                ]);
            }
            object(e)
        });
        a.push({
            let mut e = new_entries();
            push_entry(&mut e, "if", {
                let mut e = new_entries();
                push_entry(&mut e, "properties", {
                    let mut e = new_entries();
                    push_entry(&mut e, "action", {
                        let mut e = new_entries();
                        push_entry(&mut e, "const", Json::from_str("tag"));
                        proof {
                            assert(crate::json::entries_model(e@) =~= seq![
                                ("const"@, JsonV::Str("tag"@)),
                            ]);
                        }
                        object(e)
                    });
                    proof {
                        assert(crate::json::entries_model(e@) =~= seq![
                            ("action"@, JsonV::Object(seq![
                                ("const"@, JsonV::Str("tag"@)),
                            ])),
                        ]);
                    }
                    object(e)
                });
                push_entry(&mut e, "required", {
                    let mut a: Vec<Json> = Vec::new();
                    a.push(Json::from_str("action"));
                    proof {
                        assert(crate::json::items_model(a@) =~= seq![
                            JsonV::Str("action"@),
                        ]);
                    }
                    array(a)
                });
                proof {
                    assert(crate::json::entries_model(e@) =~= seq![
                        ("properties"@, JsonV::Object(seq![
                            ("action"@, JsonV::Object(seq![
                                ("const"@, JsonV::Str("tag"@)),
                            ])),
                        ])),
                        ("required"@, JsonV::Array(seq![
                            JsonV::Str("action"@),
                        ])),
                    ]);
                }
                object(e)
            });
            push_entry(&mut e, "then", {
                let mut e = new_entries();
                push_entry(&mut e, "required", {
                    let mut a: Vec<Json> = Vec::new();
                    a.push(Json::from_str("tag"));
                    proof {
                        assert(crate::json::items_model(a@) =~= seq![
                            JsonV::Str("tag"@),
                        ]);
                    }
                    array(a)
                });
                proof {
                    assert(crate::json::entries_model(e@) =~= seq![
                        ("required"@, JsonV::Array(seq![
                            JsonV::Str("tag"@),
                        ])),
                    ]);
                }
                object(e)
            });
            proof {
                assert(crate::json::entries_model(e@) =~= seq![
                    ("if"@, JsonV::Object(seq![
                        ("properties"@, JsonV::Object(seq![
                            ("action"@, JsonV::Object(seq![
                                ("const"@, JsonV::Str("tag"@)),
                            ])),
                        ])),
                        ("required"@, JsonV::Array(seq![
                            JsonV::Str("action"@),
                        ])),
                    ])),
                    ("then"@, JsonV::Object(seq![
                        ("required"@, JsonV::Array(seq![
                            JsonV::Str("tag"@),
                        ])),
                    ])),
                ]);
            }
            object(e)
        });
        proof {
            assert(crate::json::items_model(a@) =~= seq![
                JsonV::Object(seq![
                    ("if"@, JsonV::Object(seq![
                        ("properties"@, JsonV::Object(seq![
                            ("action"@, JsonV::Object(seq![
                                ("const"@, JsonV::Str("memory"@)),
                            ])),
                        ])),
                        ("required"@, JsonV::Array(seq![
                            JsonV::Str("action"@),
                        ])),
                    ])),
                    ("then"@, JsonV::Object(seq![
                        ("required"@, JsonV::Array(seq![
                            JsonV::Str("id"@),
                        ])),
                    ])),
                ]),
                JsonV::Object(seq![
                    ("if"@, JsonV::Object(seq![
                        ("properties"@, JsonV::Object(seq![
                            ("action"@, JsonV::Object(seq![
                                ("const"@, JsonV::Str("tag"@)),
                            ])),
                        ])),
                        ("required"@, JsonV::Array(seq![
                            JsonV::Str("action"@),
                        ])),
                    ])),
                    ("then"@, JsonV::Object(seq![
                        ("required"@, JsonV::Array(seq![
                            JsonV::Str("tag"@),
                        ])),
                    ])),
                ]),
            ]);
        }
        array(a)
    });
    proof {
        assert(keys_of(entries_model(props@)) =~= seq!["action"@, "id"@, "tag"@, "dry_run"@, "confirmed"@]);
        assert(names_of(required@) =~= seq!["action"@]);
        assert(keys_of(entries_model(props@))[0] == "action"@);
        reveal_strlit("required");
        reveal_strlit("allOf");
        assert("allOf"@[0] != "required"@[0]);
        assert(keys_of(entries_model(extra@)) =~= seq!["allOf"@]);
        assert(forall|k: int| 0 <= k < extra@.len() ==> (#[trigger] extra@[k]).0@ == keys_of(entries_model(extra@))[k]);
    }
    let s = ToolSchema { properties: props, required, extra };
    proof {
        assert(crate::json::entries_model(s.properties@) =~= seq![
            ("action"@, JsonV::Object(seq![
                ("type"@, JsonV::Str("string"@)),
                ("enum"@, JsonV::Array(seq![
                    JsonV::Str("memory"@),
                    JsonV::Str("tag"@),
                ])),
                ("description"@, JsonV::Str("Erasure scope: 'memory' hard-deletes one memory by id, 'tag' hard-deletes every memory carrying that exact tag."@)),
            ])),
            ("id"@, JsonV::Object(seq![
                ("type"@, JsonV::Str("string"@)),
                ("minLength"@, JsonV::Int(1)),
                ("maxLength"@, JsonV::Int(64)),
                ("description"@, JsonV::Str("Memory id to erase. Required when action='memory'."@)),
            ])),
            ("tag"@, JsonV::Object(seq![
                ("type"@, JsonV::Str("string"@)),
                ("minLength"@, JsonV::Int(1)),
                ("maxLength"@, JsonV::Int(128)),
                ("description"@, JsonV::Str("Tag to erase. Required when action='tag'. Matched as an exact tag element after the same canonicalization the writers apply (trim, lowercase, spaces/underscores to '-'), so 'code' never matches 'codebase'."@)),
            ])),
            ("dry_run"@, JsonV::Object(seq![
                ("type"@, JsonV::Str("boolean"@)),
                ("default"@, JsonV::Bool(true)),
                ("description"@, JsonV::Str("If true (default), report the count and ids that WOULD be erased and delete nothing."@)),
            ])),
            ("confirmed"@, JsonV::Object(seq![
                ("type"@, JsonV::Str("boolean"@)),
                ("default"@, JsonV::Bool(false)),
                ("description"@, JsonV::Str("Required to be `true` when `dry_run` is `false`. Acts as an explicit acknowledgement that the irreversible erasure has been authorised. Mirrors the MCP `elicitation/create` flow for transports that cannot prompt mid-call."@)),
            ])),
        ]);
        assert(crate::json::entries_model(s.extra@) =~= seq![
            ("allOf"@, JsonV::Array(seq![
                JsonV::Object(seq![
                    ("if"@, JsonV::Object(seq![
                        ("properties"@, JsonV::Object(seq![
                            ("action"@, JsonV::Object(seq![
                                ("const"@, JsonV::Str("memory"@)),
                            ])),
                        ])),
                        ("required"@, JsonV::Array(seq![
                            JsonV::Str("action"@),
                        ])),
                    ])),
                    ("then"@, JsonV::Object(seq![
                        ("required"@, JsonV::Array(seq![
                            JsonV::Str("id"@),
                        ])),
                    ])),
                ]),
                JsonV::Object(seq![
                    ("if"@, JsonV::Object(seq![
                        ("properties"@, JsonV::Object(seq![
                            ("action"@, JsonV::Object(seq![
                                ("const"@, JsonV::Str("tag"@)),
                            ])),
                        ])),
                        ("required"@, JsonV::Array(seq![
                            JsonV::Str("action"@),
                        ])),
                    ])),
                    ("then"@, JsonV::Object(seq![
                        ("required"@, JsonV::Array(seq![
                            JsonV::Str("tag"@),
                        ])),
                    ])),
                ]),
            ])),
        ]);
        assert(crate::json::strs_model(s.required@) =~= seq![
            JsonV::Str("action"@),
        ]);
        assert(s.json_v()->Object_0 =~= schema_spec()->Object_0);
    }
    s.publish()
}



/// Why an erase request did not run.
#[derive(Debug, Clone, PartialEq, Eq)]
pub enum EraseError {
    /// `confirmed: true` was not supplied for the destructive variant.
    Refused(String),
    /// The arguments are unusable: unknown action, missing or blank id or tag.
    Invalid(String),
    /// The store failed; nothing was erased.
    Storage(String),
}

/// The three kinds of [`EraseError`].
pub enum EraseErrorKind {
    Refused,
    Invalid,
    Storage,
}

impl EraseError {
    pub open spec fn kind(&self) -> EraseErrorKind {
        match self {
            EraseError::Refused(_) => EraseErrorKind::Refused,
            EraseError::Invalid(_) => EraseErrorKind::Invalid,
            EraseError::Storage(_) => EraseErrorKind::Storage,
        }
    }

    pub open spec fn text(&self) -> Seq<char> {
        match self {
            EraseError::Refused(m) => m@,
            EraseError::Invalid(m) => m@,
            EraseError::Storage(m) => m@,
        }
    }

    /// The message of the error, as it is shown to the caller.
    pub fn to_string(&self) -> (r: String)
        ensures
            r@ == self.text(),
    {
        match self {
            EraseError::Refused(m) => owned(m.as_str()),
            EraseError::Invalid(m) => owned(m.as_str()),
            EraseError::Storage(m) => owned(m.as_str()),
        }
    }
}

/// The arguments of an erase call, as read from the request.
pub struct EraseArgs {
    pub action: String,
    pub id: Option<String>,
    pub tag: Option<String>,
    /// `dryRun`, or its snake_case alias `dry_run`.
    pub dry_run: Option<bool>,
}

/// What a request asks the store to do.
pub enum ErasePlan {
    /// Erase one memory, by its trimmed id.
    Memory { id: String },
    /// Erase every memory carrying a tag: the trimmed tag as given, and its
    /// canonical form used for the reads.
    Tag { tag: String, canonical: String },
}

/// A request that passed validation and the confirmation gate.
pub struct EraseRequest {
    pub plan: ErasePlan,
    pub dry_run: bool,
}

/// The model of a plan.
pub enum ErasePlanV {
    Memory(Seq<char>),
    Tag(Seq<char>, Seq<char>),
}

impl ErasePlan {
    pub open spec fn view_plan(&self) -> ErasePlanV {
        match self {
            ErasePlan::Memory { id } => ErasePlanV::Memory(id@),
            ErasePlan::Tag { tag, canonical } => ErasePlanV::Tag(tag@, canonical@),
        }
    }
}

/// Spaces and underscores become dashes.
pub open spec fn seps_to_dash(s: Seq<char>) -> Seq<char> {
    Seq::new(s.len(), |i: int| if s[i] == ' ' || s[i] == '_' { '-' } else { s[i] })
}

/// The canonical form of a tag: trimmed, lowercased, spaces and underscores
/// turned into dashes.
pub open spec fn canonical_tag_s(tag: Seq<char>) -> Seq<char> {
    seps_to_dash(lowercase(trim_s(tag)))
}

/// The canonical form of a tag, as the store's writers record it.
pub fn canonical_tag(tag: &str) -> (r: String)
    ensures
        r@ == canonical_tag_s(tag@),
{
    let cs = chars_of(tag);
    let (a, b) = trim_range(&cs, 0, cs.len());
    proof {
        assert(cs@.subrange(0, cs@.len() as int) =~= tag@);
    }
    let trimmed = copy_range(&cs, a, b);
    let lower = to_lowercase(trimmed.as_slice());
    let mut out: Vec<char> = Vec::new();
    let mut i: usize = 0;
    while i < lower.len()
        invariant
            0 <= i <= lower@.len(),
            out@ == seps_to_dash(lower@.take(i as int)),
        decreases lower.len() - i,
    {
        let c = lower[i];
        if c == ' ' || c == '_' {
            out.push('-');
        } else {
            out.push(c);
        }
        proof {
            assert(out@ =~= seps_to_dash(lower@.take(i + 1)));
        }
        i = i + 1;
    }
    proof {
        assert(lower@.take(lower@.len() as int) =~= lower@);
    }
    string_of(out.as_slice())
}

pub open spec fn dry_run_s(args: &EraseArgs) -> bool {
    match args.dry_run {
        Some(b) => b,
        None => true,
    }
}

/// The trimmed text, when anything is left of it.
pub open spec fn nonblank(o: Option<String>) -> Option<Seq<char>> {
    match o {
        Some(s) => if trim_s(s@).len() > 0 {
            Some(trim_s(s@))
        } else {
            None
        },
        None => None,
    }
}

/// The impact stated in an erase refusal.
pub open spec fn erase_impact() -> Seq<char> {
    "Erasing is irreversible: right_to_erasure hard-deletes the memory, its connections, embeddings, access log, state history and every insight derived from it."@
}

/// What a request comes to: the plan, or the error it is refused with.
pub open spec fn plan_s(args: &EraseArgs, confirmed: bool) -> Result<ErasePlanV, (EraseErrorKind, Seq<char>)> {
    if !dry_run_s(args) && !confirmed {
        Err((EraseErrorKind::Refused, refusal_text("erase"@, erase_impact())))
    } else if args.action@ == "memory"@ {
        match nonblank(args.id) {
            Some(id) => Ok(ErasePlanV::Memory(id)),
            None => Err((EraseErrorKind::Invalid, "action='memory' requires a non-empty `id`"@)),
        }
    } else if args.action@ == "tag"@ {
        match nonblank(args.tag) {
            Some(tag) => if canonical_tag_s(tag).len() > 0 {
                Ok(ErasePlanV::Tag(tag, canonical_tag_s(tag)))
            } else {
                Err((EraseErrorKind::Invalid, "action='tag' requires a tag that is non-empty after canonicalization"@))
            },
            None => Err((EraseErrorKind::Invalid, "action='tag' requires a non-empty `tag`"@)),
        }
    } else {
        Err((EraseErrorKind::Invalid, "Unknown action '"@ + args.action@ + "': expected 'memory' or 'tag'"@))
    }
}

/// The trimmed text of an optional argument, when anything is left of it.
fn nonblank_arg(o: &Option<String>) -> (r: Option<String>)
    ensures
        match r {
            Some(s) => nonblank(*o) == Some(s@),
            None => nonblank(*o) is None,
        },
{
    match o {
        Some(s) => {
            let cs = chars_of(s.as_str());
            let (a, b) = trim_range(&cs, 0, cs.len());
            proof {
                assert(cs@.subrange(0, cs@.len() as int) =~= s@);
            }
            if a < b {
                let t = copy_range(&cs, a, b);
                Some(string_of(t.as_slice()))
            } else {
                None
            }
        },
        None => None,
    }
}

/// Validates an erase request and applies the confirmation gate: the
/// destructive variant (`dry_run` false) is refused unless `raw` carries an
/// explicit confirmation.
pub fn plan(args: &EraseArgs, raw: &Json) -> (r: Result<EraseRequest, EraseError>)
    ensures
        match r {
            Ok(q) => plan_s(args, confirmed_s(raw@)) == Ok::<ErasePlanV, (EraseErrorKind, Seq<char>)>(q.plan.view_plan())
                && q.dry_run == dry_run_s(args),
            Err(e) => plan_s(args, confirmed_s(raw@)) == Err::<ErasePlanV, (EraseErrorKind, Seq<char>)>((e.kind(), e.text())),
        },
{
    let dry_run = match args.dry_run {
        Some(b) => b,
        None => true,
    };
    if !dry_run && !is_confirmed(raw) {
        let msg = missing_confirmation_error(
            "erase",
            "Erasing is irreversible: right_to_erasure hard-deletes the memory, its connections, embeddings, access log, state history and every insight derived from it.",
        );
        return Err(EraseError::Refused(msg));
    }
    if string_eq_str(&args.action, "memory") {
        match nonblank_arg(&args.id) {
            Some(id) => Ok(EraseRequest { plan: ErasePlan::Memory { id }, dry_run }),
            None => Err(EraseError::Invalid(owned("action='memory' requires a non-empty `id`"))),
        }
    } else if string_eq_str(&args.action, "tag") {
        match nonblank_arg(&args.tag) {
            Some(tag) => {
                let canonical = canonical_tag(tag.as_str());
                proof {
                    assert(trim_s(tag@) == tag@) by {
                        lemma_trim_idempotent(args.tag.unwrap()@);
                    }
                }
                if canonical.as_str().unicode_len() == 0 {
                    Err(
                        EraseError::Invalid(
                            owned(
                                "action='tag' requires a tag that is non-empty after canonicalization",
                            ),
                        ),
                    )
                } else {
                    Ok(EraseRequest { plan: ErasePlan::Tag { tag, canonical }, dry_run })
                }
            },
            None => Err(EraseError::Invalid(owned("action='tag' requires a non-empty `tag`"))),
        }
    } else {
        let mut m: Vec<char> = chars_of("Unknown action '");
        push_str(&mut m, args.action.as_str());
        push_str(&mut m, "': expected 'memory' or 'tag'");
        Err(EraseError::Invalid(string_of(m.as_slice())))
    }
}

proof fn lemma_trim_start_keeps_end(s: Seq<char>)
    requires
        s.len() == 0 || !is_ws(s.last()),
    ensures
        crate::text::trim_start_s(s).len() == 0 || !is_ws(crate::text::trim_start_s(s).last()),
        crate::text::trim_end_s(crate::text::trim_start_s(s)) == crate::text::trim_start_s(s),
    decreases s.len(),
{
    if s.len() > 0 && is_ws(s[0]) {
        lemma_trim_start_keeps_end(s.drop_first());
    }
}

proof fn lemma_trim_start_idempotent(s: Seq<char>)
    ensures
        crate::text::trim_start_s(crate::text::trim_start_s(s)) == crate::text::trim_start_s(s),
    decreases s.len(),
{
    if s.len() > 0 && is_ws(s[0]) {
        lemma_trim_start_idempotent(s.drop_first());
    }
}

proof fn lemma_trim_end_no_ws(s: Seq<char>)
    ensures
        crate::text::trim_end_s(s).len() == 0 || !is_ws(crate::text::trim_end_s(s).last()),
    decreases s.len(),
{
    if s.len() > 0 && is_ws(s.last()) {
        lemma_trim_end_no_ws(s.drop_last());
    }
}

/// Trimming twice is trimming once.
pub proof fn lemma_trim_idempotent(s: Seq<char>)
    ensures
        trim_s(trim_s(s)) == trim_s(s),
{
    let e = crate::text::trim_end_s(s);
    lemma_trim_end_no_ws(s);
    lemma_trim_start_keeps_end(e);
    lemma_trim_start_idempotent(e);
}

/// A destructive erasure is planned only for a confirmed request, and a
/// request that leaves `dry_run` out is a dry run.
pub proof fn law_destructive_erase_needs_confirmation(args: &EraseArgs, confirmed: bool)
    ensures
        plan_s(args, confirmed) is Ok && !dry_run_s(args) ==> confirmed,
        args.dry_run is None ==> dry_run_s(args),
        !dry_run_s(args) && !confirmed ==> plan_s(args, confirmed) matches Err(
            (EraseErrorKind::Refused, _),
        ),
{
}

/// A dry run plans exactly the erasure the confirmed call would carry out:
/// the same memory id, or the same tag with the same canonical form, and it
/// is refused for the same invalid arguments.
pub proof fn law_dry_run_previews_the_erasure(
    action: String,
    id: Option<String>,
    tag: Option<String>,
    confirmed: bool,
)
    ensures
        ({
            let preview = EraseArgs { action: action, id: id, tag: tag, dry_run: Some(true) };
            let erase = EraseArgs { action: action, id: id, tag: tag, dry_run: Some(false) };
            plan_s(&preview, confirmed) == plan_s(&erase, true)
        }),
{
}

/// What an erase call did, or on a dry run what it would have done.
#[derive(Debug, Clone, PartialEq, Eq)]
pub struct EraseOutcome {
    /// `"memory"` or `"tag"`.
    pub action: String,
    pub dry_run: bool,
    /// Memories erased (or matching, on a dry run); exact even when `ids`
    /// is cut short.
    pub matched: u64,
    /// The memory ids, capped at [`MAX_REPORTED_IDS`] by the store's read.
    pub ids: Vec<String>,
    /// True when `ids` is shorter than `matched`.
    pub ids_truncated: bool,
    /// Rows removed across every table; zero on a dry run.
    pub artifacts_erased: i64,
}

/// The report for `action = "memory"`: `existed` is whether the store held
/// the id; `artifacts` is what the erasure removed (not consulted on a dry run).
pub fn memory_outcome(id: &str, dry_run: bool, existed: bool, artifacts: i64) -> (r: EraseOutcome)
    ensures
        r.action@ == "memory"@,
        r.dry_run == dry_run,
        r.matched == (if existed { 1u64 } else { 0u64 }),
        r.ids@.len() == (if existed { 1int } else { 0int }),
        existed ==> r.ids@[0]@ == id@,
        !r.ids_truncated,
        r.artifacts_erased == (if dry_run { 0 } else { artifacts }),
{
    let mut ids: Vec<String> = Vec::new();
    if existed {
        ids.push(owned(id));
    }
    EraseOutcome {
        action: owned("memory"),
        dry_run,
        matched: if existed { 1 } else { 0 },
        ids,
        ids_truncated: false,
        artifacts_erased: if dry_run { 0 } else { artifacts },
    }
}

/// The report of a tag dry run: `ids` as read (capped), `matched` the exact count.
pub fn tag_preview_outcome(ids: Vec<String>, matched: u64) -> (r: EraseOutcome)
    ensures
        r.action@ == "tag"@,
        r.dry_run,
        r.matched == matched,
        r.ids@ == ids@,
        r.ids_truncated == (matched > ids@.len()),
        r.artifacts_erased == 0,
{
    let truncated = (matched as u128) > (ids.len() as u128);
    EraseOutcome {
        action: owned("tag"),
        dry_run: true,
        matched,
        ids,
        ids_truncated: truncated,
        artifacts_erased: 0,
    }
}

/// The report of a tag erasure: `removed` is the store's own count of erased
/// memories (a negative count reads as zero), `ids` the ids read before.
pub fn tag_erased_outcome(ids: Vec<String>, removed: i64, artifacts: i64) -> (r: EraseOutcome)
    ensures
        r.action@ == "tag"@,
        !r.dry_run,
        r.matched == (if removed < 0 { 0 } else { removed }),
        r.ids@ == ids@,
        r.ids_truncated == ((if removed < 0 { 0 } else { removed }) > ids@.len()),
        r.artifacts_erased == artifacts,
{
    let n: u64 = if removed < 0 { 0 } else { removed as u64 };
    let truncated = (n as u128) > (ids.len() as u128);
    EraseOutcome {
        action: owned("tag"),
        dry_run: false,
        matched: n,
        ids,
        ids_truncated: truncated,
        artifacts_erased: artifacts,
    }
}

impl EraseOutcome {
    /// The one-line summary of an outcome.
    pub open spec fn message_s(&self) -> Seq<char> {
        if self.dry_run {
            decimal_s(self.matched as nat)
                + " memories would be erased. Re-issue with dry_run=false and confirmed=true to erase them."@
        } else {
            "Erased "@ + decimal_s(self.matched as nat) + " memories and "@ + signed_decimal_s(
                self.artifacts_erased as int,
            ) + " related artifacts."@
        }
    }

    /// One-line human summary of what happened (or would happen).
    pub fn message(&self) -> (r: String)
        ensures
            r@ == self.message_s(),
    {
        let mut out: Vec<char> = Vec::new();
        if self.dry_run {
            let n = crate::text::decimal(self.matched);
            push_chars(&mut out, &n);
            push_str(
                &mut out,
                " memories would be erased. Re-issue with dry_run=false and confirmed=true to erase them.",
            );
        } else {
            push_str(&mut out, "Erased ");
            let n = crate::text::decimal(self.matched);
            push_chars(&mut out, &n);
            push_str(&mut out, " memories and ");
            let a = signed_decimal(self.artifacts_erased);
            push_chars(&mut out, &a);
            push_str(&mut out, " related artifacts.");
        }
        string_of(out.as_slice())
    }

    /// The tool-result payload.
    pub open spec fn json_s(&self) -> JsonV {
        JsonV::Object(
            seq![
                ("tool"@, JsonV::Str("erase"@)),
                ("action"@, JsonV::Str(self.action@)),
                ("dryRun"@, JsonV::Bool(self.dry_run)),
                ("matched"@, count_v(self.matched as nat)),
                ("ids"@, JsonV::Array(strs_model(self.ids@))),
                ("idsTruncated"@, JsonV::Bool(self.ids_truncated)),
                ("artifactsErased"@, JsonV::Int(self.artifacts_erased as int)),
                ("message"@, JsonV::Str(self.message_s())),
            ],
        )
    }

    /// The tool-result payload.
    pub fn to_json(&self) -> (r: Json)
        ensures
            r@ == self.json_s(),
    {
        let mut e = new_entries();
        push_entry(&mut e, "tool", Json::from_str("erase"));
        push_entry(&mut e, "action", Json::from_str(self.action.as_str()));
        push_entry(&mut e, "dryRun", Json::Bool(self.dry_run));
        push_entry(&mut e, "matched", uint(self.matched));
        push_entry(&mut e, "ids", str_array(&self.ids));
        push_entry(&mut e, "idsTruncated", Json::Bool(self.ids_truncated));
        push_entry(&mut e, "artifactsErased", Json::Int(self.artifacts_erased));
        push_entry(&mut e, "message", Json::Str(self.message()));
        proof {
            assert(entries_model(e@) =~= self.json_s()->Object_0);
        }
        object(e)
    }
}

} // verus!
