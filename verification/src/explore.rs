//! `explore_connections`: its argument schema, the checks on its arguments,
//! and the causal walk: a breadth-first walk of the memory graph along
//! outgoing `causal` edges, bounded in depth and in size. The store answers
//! the walk's queries; the walk decides what to ask and what to keep.

use vstd::prelude::*;
use crate::json::{array, entries_model, keys_of, new_entries, object, push_entry, Json};
use crate::schema::{declared_args, names_of, required_args, schema_shape, ToolSchema};
use crate::json::{get_field, str_of, u64_of, JsonV};
use crate::text::{chars_of, owned, push_str, string_of};

verus! {

broadcast use vstd::string::group_string_axioms;

/// The argument schema of `explore`, as published.
pub open spec fn schema_spec() -> JsonV {
    JsonV::Object(seq![
        ("type"@, JsonV::Str("object"@)),
        ("properties"@, JsonV::Object(seq![
            ("action"@, JsonV::Object(seq![
                ("type"@, JsonV::Str("string"@)),
                ("enum"@, JsonV::Array(seq![
                    JsonV::Str("chain"@),
                    JsonV::Str("associations"@),
                    JsonV::Str("bridges"@),
                    JsonV::Str("causal_chain"@),
                ])),
                ("description"@, JsonV::Str("Type of exploration: 'chain' builds a reasoning path, 'associations' finds related memories, 'bridges' finds connecting memories, 'causal_chain' walks ONLY causal edges (`X causes Y` style) from `from` outward — useful for `why?` and root-cause questions"@)),
            ])),
            ("from"@, JsonV::Object(seq![
                ("type"@, JsonV::Str("string"@)),
                ("description"@, JsonV::Str("Source memory ID"@)),
            ])),
            ("to"@, JsonV::Object(seq![
                ("type"@, JsonV::Str("string"@)),
                ("description"@, JsonV::Str("Target memory ID (required for 'chain' and 'bridges')"@)),
            ])),
            ("limit"@, JsonV::Object(seq![
                ("type"@, JsonV::Str("integer"@)),
                ("description"@, JsonV::Str("Maximum results (default: 10)"@)),
                ("default"@, JsonV::Int(10)),
            ])),
            ("depth"@, JsonV::Object(seq![
                ("type"@, JsonV::Str("integer"@)),
                ("description"@, JsonV::Str("Max BFS depth for 'causal_chain' (default: 3, max: 6). Higher values may surface noisier links."@)),
                ("default"@, JsonV::Int(3)),
            ])),
        ])),
        ("required"@, JsonV::Array(seq![
            JsonV::Str("action"@),
            JsonV::Str("from"@),
        ])),
    ])
}

/// The arguments of `explore_connections`: `action` and `from` are required.
pub fn schema() -> (r: Json)
    ensures
        r@ == schema_spec(),
        schema_shape(r@),
        declared_args(r@) == seq!["action"@, "from"@, "to"@, "limit"@, "depth"@],
        required_args(r@) == seq!["action"@, "from"@],
{
    let mut props = new_entries();
    push_entry(&mut props, "action", {
        let mut e = new_entries();
        push_entry(&mut e, "type", Json::from_str("string"));
        push_entry(&mut e, "enum", {
            let mut a: Vec<Json> = Vec::new();
            a.push(Json::from_str("chain"));
            a.push(Json::from_str("associations"));
            a.push(Json::from_str("bridges"));
            a.push(Json::from_str("causal_chain"));
            proof {
                assert(crate::json::items_model(a@) =~= seq![
                    JsonV::Str("chain"@),
                    JsonV::Str("associations"@),
                    JsonV::Str("bridges"@),
                    JsonV::Str("causal_chain"@),
                ]);
            }
            array(a)
        });
        push_entry(&mut e, "description", Json::from_str("Type of exploration: 'chain' builds a reasoning path, 'associations' finds related memories, 'bridges' finds connecting memories, 'causal_chain' walks ONLY causal edges (`X causes Y` style) from `from` outward — useful for `why?` and root-cause questions"));
        proof {
            assert(crate::json::entries_model(e@) =~= seq![
                ("type"@, JsonV::Str("string"@)),
                ("enum"@, JsonV::Array(seq![
                    JsonV::Str("chain"@),
                    JsonV::Str("associations"@),
                    JsonV::Str("bridges"@),
                    JsonV::Str("causal_chain"@),
                ])),
                ("description"@, JsonV::Str("Type of exploration: 'chain' builds a reasoning path, 'associations' finds related memories, 'bridges' finds connecting memories, 'causal_chain' walks ONLY causal edges (`X causes Y` style) from `from` outward — useful for `why?` and root-cause questions"@)),
            ]);
        }
        object(e)
    });
    push_entry(&mut props, "from", {
        let mut e = new_entries();
        push_entry(&mut e, "type", Json::from_str("string"));
        push_entry(&mut e, "description", Json::from_str("Source memory ID"));
        proof {
            assert(crate::json::entries_model(e@) =~= seq![
                ("type"@, JsonV::Str("string"@)),
                ("description"@, JsonV::Str("Source memory ID"@)),
            ]);
        }
        object(e)
    });
    push_entry(&mut props, "to", {
        let mut e = new_entries();
        push_entry(&mut e, "type", Json::from_str("string"));
        push_entry(&mut e, "description", Json::from_str("Target memory ID (required for 'chain' and 'bridges')"));
        proof {
            assert(crate::json::entries_model(e@) =~= seq![
                ("type"@, JsonV::Str("string"@)),
                ("description"@, JsonV::Str("Target memory ID (required for 'chain' and 'bridges')"@)),
            ]);
        }
        object(e)
    });
    push_entry(&mut props, "limit", {
        let mut e = new_entries();
        push_entry(&mut e, "type", Json::from_str("integer"));
        push_entry(&mut e, "description", Json::from_str("Maximum results (default: 10)"));
        push_entry(&mut e, "default", Json::Int(10));
        proof {
            assert(crate::json::entries_model(e@) =~= seq![
                ("type"@, JsonV::Str("integer"@)),
                ("description"@, JsonV::Str("Maximum results (default: 10)"@)),
                ("default"@, JsonV::Int(10)),
            ]);
        }
        object(e)
    });
    push_entry(&mut props, "depth", {
        let mut e = new_entries();
        push_entry(&mut e, "type", Json::from_str("integer"));
        push_entry(&mut e, "description", Json::from_str("Max BFS depth for 'causal_chain' (default: 3, max: 6). Higher values may surface noisier links."));
        push_entry(&mut e, "default", Json::Int(3));
        proof {
            assert(crate::json::entries_model(e@) =~= seq![
                ("type"@, JsonV::Str("integer"@)),
                ("description"@, JsonV::Str("Max BFS depth for 'causal_chain' (default: 3, max: 6). Higher values may surface noisier links."@)),
                ("default"@, JsonV::Int(3)),
            ]);
        }
        object(e)
    });
    let mut required: Vec<String> = Vec::new();
    required.push(owned("action"));
    required.push(owned("from"));
    let extra = new_entries();
    proof {
        assert(keys_of(entries_model(props@)) =~= seq!["action"@, "from"@, "to"@, "limit"@, "depth"@]);
        assert(names_of(required@) =~= seq!["action"@, "from"@]);
        assert(keys_of(entries_model(props@))[0] == "action"@);
        assert(keys_of(entries_model(props@))[1] == "from"@);
    }
    let s = ToolSchema { properties: props, required, extra };
    proof {
        assert(crate::json::entries_model(s.properties@) =~= seq![
            ("action"@, JsonV::Object(seq![
                ("type"@, JsonV::Str("string"@)),
                ("enum"@, JsonV::Array(seq![
                    JsonV::Str("chain"@),
                    JsonV::Str("associations"@),
                    JsonV::Str("bridges"@),
                    JsonV::Str("causal_chain"@),
                ])),
                ("description"@, JsonV::Str("Type of exploration: 'chain' builds a reasoning path, 'associations' finds related memories, 'bridges' finds connecting memories, 'causal_chain' walks ONLY causal edges (`X causes Y` style) from `from` outward — useful for `why?` and root-cause questions"@)),
            ])),
            ("from"@, JsonV::Object(seq![
                ("type"@, JsonV::Str("string"@)),
                ("description"@, JsonV::Str("Source memory ID"@)),
            ])),
            ("to"@, JsonV::Object(seq![
                ("type"@, JsonV::Str("string"@)),
                ("description"@, JsonV::Str("Target memory ID (required for 'chain' and 'bridges')"@)),
            ])),
            ("limit"@, JsonV::Object(seq![
                ("type"@, JsonV::Str("integer"@)),
                ("description"@, JsonV::Str("Maximum results (default: 10)"@)),
                ("default"@, JsonV::Int(10)),
            ])),
            ("depth"@, JsonV::Object(seq![
                ("type"@, JsonV::Str("integer"@)),
                ("description"@, JsonV::Str("Max BFS depth for 'causal_chain' (default: 3, max: 6). Higher values may surface noisier links."@)),
                ("default"@, JsonV::Int(3)),
            ])),
        ]);
        assert(crate::json::strs_model(s.required@) =~= seq![
            JsonV::Str("action"@),
            JsonV::Str("from"@),
        ]);
        assert(s.json_v()->Object_0 =~= schema_spec()->Object_0);
    }
    s.publish()
}


// ---------------------------------------------------------------------------
// Arguments
// ---------------------------------------------------------------------------

/// The deepest causal walk, in hops.
pub const MAX_CAUSAL_DEPTH: u64 = 6;

/// The arguments every action reads.
pub struct ExploreArgs {
    pub action: String,
    pub from: String,
    pub to: Option<String>,
    pub limit: usize,
}

/// What an explore call comes to before any action runs: the action, `from`,
/// `to` and `limit` (10 by default; a 64-bit value taken as a size, cut to
/// the platform's width as a cast does), or the
/// refusal text.
pub open spec fn explore_args_s(args: Option<JsonV>) -> Result<(Seq<char>, Seq<char>, Option<Seq<char>>, int), Seq<char>> {
    match args {
        None => Err("Missing arguments"@),
        Some(a) => match str_of(get_field(a, "action"@)) {
            None => Err("Missing 'action'"@),
            Some(action) => match str_of(get_field(a, "from"@)) {
                None => Err("Missing 'from'"@),
                Some(from) => Ok(
                    (
                        action,
                        from,
                        str_of(get_field(a, "to"@)),
                        match u64_of(get_field(a, "limit"@)) {
                            Some(n) => (n as usize) as int,
                            None => 10,
                        },
                    ),
                ),
            },
        },
    }
}

pub open spec fn opt_string(o: Option<String>) -> Option<Seq<char>> {
    match o {
        Some(s) => Some(s@),
        None => None,
    }
}

/// Reads the arguments of an explore call.
pub fn explore_args(args: Option<&Json>) -> (r: Result<ExploreArgs, String>)
    ensures
        match r {
            Ok(x) => explore_args_s(
                match args {
                    Some(a) => Some(a@),
                    None => None,
                },
            ) == Ok::<(Seq<char>, Seq<char>, Option<Seq<char>>, int), Seq<char>>(
                (x.action@, x.from@, opt_string(x.to), x.limit as int),
            ),
            Err(e) => explore_args_s(
                match args {
                    Some(a) => Some(a@),
                    None => None,
                },
            ) == Err::<(Seq<char>, Seq<char>, Option<Seq<char>>, int), Seq<char>>(e@),
        },
{
    let a = match args {
        Some(a) => a,
        None => {
            return Err(owned("Missing arguments"));
        },
    };
    let action = match a.get("action") {
        Some(v) => match v.as_str() {
            Some(s) => s,
            None => {
                return Err(owned("Missing 'action'"));
            },
        },
        None => {
            return Err(owned("Missing 'action'"));
        },
    };
    let from = match a.get("from") {
        Some(v) => match v.as_str() {
            Some(s) => s,
            None => {
                return Err(owned("Missing 'from'"));
            },
        },
        None => {
            return Err(owned("Missing 'from'"));
        },
    };
    let to = match a.get("to") {
        Some(v) => match v.as_str() {
            Some(s) => Some(owned(s)),
            None => None,
        },
        None => None,
    };
    let limit: usize = match a.get("limit") {
        Some(v) => match v.as_u64() {
            Some(n) => {
                #[verifier::truncate]
                let l = n as usize;
                l
            },
            None => 10,
        },
        None => 10,
    };
    Ok(ExploreArgs { action: owned(action), from: owned(from), to, limit })
}

/// The refusal of an unknown action.
pub fn unknown_action(action: &str) -> (r: String)
    ensures
        r@ == "Unknown action: '"@ + action@ + "'. Expected: chain, associations, bridges, causal_chain"@,
{
    let mut m: Vec<char> = chars_of("Unknown action: '");
    push_str(&mut m, action);
    push_str(&mut m, "'. Expected: chain, associations, bridges, causal_chain");
    string_of(m.as_slice())
}

/// The depth of a causal walk: `depth` (3 by default), at most six.
pub fn causal_depth(depth: Option<u64>) -> (r: u64)
    ensures
        r == (match depth {
            Some(d) => if d < MAX_CAUSAL_DEPTH {
                d
            } else {
                MAX_CAUSAL_DEPTH
            },
            None => 3,
        }),
        r <= MAX_CAUSAL_DEPTH,
{
    match depth {
        Some(d) => if d < MAX_CAUSAL_DEPTH {
            d
        } else {
            MAX_CAUSAL_DEPTH
        },
        None => 3,
    }
}

// ---------------------------------------------------------------------------
// The causal walk
// ---------------------------------------------------------------------------

/// An edge of the memory graph, as the store returns it.
pub struct Connection {
    pub source_id: String,
    pub target_id: String,
    pub link_type: String,
    /// The edge's strength, a JSON number handed through.
    pub strength: Json,
}

/// A memory reached by the walk: the edge that reached it and its hop count.
pub struct CausalStep {
    pub target_id: String,
    pub parent_id: String,
    pub hop: u64,
    pub strength: Json,
}

/// The state of a causal walk.
pub struct CausalWalk {
    from: String,
    depth: u64,
    limit: usize,
    visited: Vec<String>,
    frontier: Vec<(String, u64)>,
    head: usize,
    out: Vec<CausalStep>,
}

pub open spec fn texts(v: Seq<String>) -> Seq<Seq<char>> {
    Seq::new(v.len(), |i: int| v[i]@)
}

pub open spec fn targets(v: Seq<CausalStep>) -> Seq<Seq<char>> {
    Seq::new(v.len(), |i: int| v[i].target_id@)
}

pub open spec fn distinct(s: Seq<Seq<char>>) -> bool {
    forall|i: int, j: int| 0 <= i < j < s.len() ==> s[i] != s[j]
}

/// A reached memory as a client reads it: target, parent, hop and strength.
pub open spec fn step_v(s: CausalStep) -> (Seq<char>, Seq<char>, u64, JsonV) {
    (s.target_id@, s.parent_id@, s.hop, s.strength@)
}

pub open spec fn steps_v(v: Seq<CausalStep>) -> Seq<(Seq<char>, Seq<char>, u64, JsonV)> {
    Seq::new(v.len(), |i: int| step_v(v[i]))
}

/// An edge as the walk reads it: source, target, link type and strength.
pub open spec fn edge_v(e: Connection) -> (Seq<char>, Seq<char>, Seq<char>, JsonV) {
    (e.source_id@, e.target_id@, e.link_type@, e.strength@)
}

pub open spec fn edges_v(v: Seq<Connection>) -> Seq<(Seq<char>, Seq<char>, Seq<char>, JsonV)> {
    Seq::new(v.len(), |i: int| edge_v(v[i]))
}

/// The queue with its leading entries at `depth` hops or more dropped.
pub open spec fn shallow_tail(p: Seq<(Seq<char>, u64)>, depth: u64) -> Seq<(Seq<char>, u64)>
    decreases p.len(),
{
    if p.len() == 0 {
        p
    } else if p[0].1 < depth {
        p
    } else {
        shallow_tail(p.drop_first(), depth)
    }
}

/// What asking for the next query gives, and the queue left after it: once
/// `full` (the limit is reached) nothing, and the queue is emptied;
/// otherwise the first queued memory under `depth` hops, and the queue after it.
pub open spec fn next_s(pending: Seq<(Seq<char>, u64)>, depth: u64, full: bool) -> (
    Option<(Seq<char>, u64)>,
    Seq<(Seq<char>, u64)>,
) {
    let t = shallow_tail(pending, depth);
    if full || t.len() == 0 {
        (None, Seq::empty())
    } else {
        (Some(t[0]), t.drop_first())
    }
}

/// The steps and queue after one edge seen from `current`, reached at
/// `hop`: an outgoing `causal` edge to a memory that is neither the start
/// nor already reached adds a step, while fewer than `limit` are reached;
/// the new memory is queued unless that step reached the limit.
pub open spec fn absorb_edge(
    start: Seq<char>,
    limit: nat,
    current: Seq<char>,
    hop: u64,
    st: (Seq<(Seq<char>, Seq<char>, u64, JsonV)>, Seq<(Seq<char>, u64)>),
    e: (Seq<char>, Seq<char>, Seq<char>, JsonV),
) -> (Seq<(Seq<char>, Seq<char>, u64, JsonV)>, Seq<(Seq<char>, u64)>) {
    let (steps, pending) = st;
    let reached = seq![start] + steps.map_values(|x: (Seq<char>, Seq<char>, u64, JsonV)| x.0);
    if e.2 == "causal"@ && e.0 == current && !reached.contains(e.1) && steps.len() < limit {
        let steps2 = steps.push((e.1, e.0, (hop + 1) as u64, e.3));
        (steps2, if steps2.len() < limit { pending.push((e.1, (hop + 1) as u64)) } else { pending })
    } else {
        st
    }
}

/// The steps and queue after the edges, taken in order.
pub open spec fn absorb_all(
    start: Seq<char>,
    limit: nat,
    current: Seq<char>,
    hop: u64,
    st: (Seq<(Seq<char>, Seq<char>, u64, JsonV)>, Seq<(Seq<char>, u64)>),
    edges: Seq<(Seq<char>, Seq<char>, Seq<char>, JsonV)>,
) -> (Seq<(Seq<char>, Seq<char>, u64, JsonV)>, Seq<(Seq<char>, u64)>)
    decreases edges.len(),
{
    if edges.len() == 0 {
        st
    } else {
        absorb_edge(
            start,
            limit,
            current,
            hop,
            absorb_all(start, limit, current, hop, st, edges.drop_last()),
            edges.last(),
        )
    }
}

/// A queued memory is the start at hop 0, or a memory the walk reached,
/// with the hop it was reached at.
pub open spec fn queued_ok(from: Seq<char>, out: Seq<CausalStep>, e: (String, u64)) -> bool {
    ||| e.0@ == from && e.1 == 0
    ||| exists|j: int| 0 <= j < out.len() && (#[trigger] out[j]).target_id@ == e.0@ && out[j].hop == e.1
}

impl CausalWalk {
    pub closed spec fn start(&self) -> Seq<char> {
        self.from@
    }

    pub closed spec fn max_depth(&self) -> u64 {
        self.depth
    }

    pub closed spec fn max_steps(&self) -> usize {
        self.limit
    }

    /// The memories reached so far, in the order they were reached.
    pub closed spec fn steps_view(&self) -> Seq<CausalStep> {
        self.out@
    }

    /// The memories queued for a query, with their hop counts, in order.
    pub closed spec fn pending(&self) -> Seq<(Seq<char>, u64)> {
        Seq::new(
            (self.frontier@.len() - self.head) as nat,
            |i: int| (self.frontier@[self.head + i].0@, self.frontier@[self.head + i].1),
        )
    }

    /// The walk's invariant: the memories visited are the start and the
    /// memories reached, with none twice; no more than `limit` are reached;
    /// every step is one to `depth` hops out; every queued memory lies
    /// within `depth` hops.
    pub closed spec fn wf(&self) -> bool {
        &&& texts(self.visited@) == seq![self.from@] + targets(self.out@)
        &&& distinct(texts(self.visited@))
        &&& self.out@.len() <= self.limit
        &&& forall|i: int| 0 <= i < self.out@.len() ==> 1 <= (#[trigger] self.out@[i]).hop <= self.depth
        &&& self.head <= self.frontier@.len()
        &&& forall|k: int| 0 <= k < self.frontier@.len() ==> (#[trigger] self.frontier@[k]).1 <= self.depth
        &&& forall|k: int| 0 <= k < self.frontier@.len() ==> queued_ok(self.from@, self.out@, #[trigger] self.frontier@[k])
        &&& self.depth <= MAX_CAUSAL_DEPTH
    }

    /// A walk from `from`, at most `depth` hops deep and `limit` memories large.
    pub fn new(from: &str, depth: u64, limit: usize) -> (r: CausalWalk)
        requires
            depth <= MAX_CAUSAL_DEPTH,
        ensures
            r.wf(),
            r.start() == from@,
            r.max_depth() == depth,
            r.max_steps() == limit,
            r.steps_view().len() == 0,
            r.pending() == seq![(from@, 0u64)],
    {
        let mut visited: Vec<String> = Vec::new();
        visited.push(owned(from));
        let mut frontier: Vec<(String, u64)> = Vec::new();
        frontier.push((owned(from), 0));
        let r = CausalWalk {
            from: owned(from),
            depth,
            limit,
            visited,
            frontier,
            head: 0,
            out: Vec::new(),
        };
        proof {
            assert(texts(r.visited@) =~= seq![r.from@] + targets(r.out@));
            assert(r.pending() =~= seq![(from@, 0u64)]);
        }
        r
    }

    /// The next memory to ask the store about, with its hop count: the next
    /// queued memory that lies under `depth` hops, while fewer than `limit`
    /// memories are reached. `None` once the walk is over.
    pub fn next_query(&mut self) -> (r: Option<(String, u64)>)
        requires
            old(self).wf(),
        ensures
            final(self).wf(),
            final(self).start() == old(self).start(),
            final(self).max_depth() == old(self).max_depth(),
            final(self).max_steps() == old(self).max_steps(),
            final(self).steps_view() == old(self).steps_view(),
            (
                match r {
                    Some((id, hop)) => Some((id@, hop)),
                    None => None,
                },
                final(self).pending(),
            ) == next_s(
                old(self).pending(),
                old(self).max_depth(),
                old(self).steps_view().len() >= old(self).max_steps(),
            ),
            r matches Some((_, hop)) ==> hop < final(self).max_depth(),
    {
        let ghost full = self.out@.len() >= self.limit;
        let ghost goal = shallow_tail(self.pending(), self.depth);
        while self.head < self.frontier.len()
            invariant
                self.wf(),
                self.from == old(self).from,
                self.depth == old(self).depth,
                self.limit == old(self).limit,
                self.out@ == old(self).out@,
                full == (self.out@.len() >= self.limit),
                goal == shallow_tail(old(self).pending(), old(self).depth),
                !full ==> shallow_tail(self.pending(), self.depth) == goal,
            decreases self.frontier@.len() - self.head,
        {
            let ghost p0 = self.pending();
            let k = self.head;
            self.head = self.head + 1;
            proof {
                assert(self.pending() =~= p0.drop_first());
                assert(p0[0] == (self.frontier@[k as int].0@, self.frontier@[k as int].1));
            }
            let hop = self.frontier[k].1;
            if hop < self.depth && self.out.len() < self.limit {
                let id = owned(self.frontier[k].0.as_str());
                return Some((id, hop));
            }
        }
        proof {
            assert(self.pending() =~= Seq::<(Seq<char>, u64)>::empty());
        }
        None
    }

    fn is_visited(&self, id: &str) -> (r: bool)
        ensures
            r == texts(self.visited@).contains(id@),
    {
        let mut i: usize = 0;
        while i < self.visited.len()
            invariant
                0 <= i <= self.visited@.len(),
                forall|k: int| 0 <= k < i ==> texts(self.visited@)[k] != id@,
            decreases self.visited.len() - i,
        {
            if crate::json::string_eq_str(&self.visited[i], id) {
                proof {
                    assert(texts(self.visited@)[i as int] == id@);
                }
                return true;
            }
            i = i + 1;
        }
        false
    }

    /// Takes in the edges the store returned for `current`, reached at
    /// `hop`: each outgoing `causal` edge to a memory not yet visited adds a
    /// step one hop further, until `limit` memories are reached; each such
    /// memory is queued for a later query unless it reached the limit.
    pub fn absorb(&mut self, current: &str, hop: u64, edges: &Vec<Connection>)
        requires
            old(self).wf(),
            hop < old(self).max_depth(),
        ensures
            final(self).wf(),
            final(self).start() == old(self).start(),
            final(self).max_depth() == old(self).max_depth(),
            final(self).max_steps() == old(self).max_steps(),
            (steps_v(final(self).steps_view()), final(self).pending()) == absorb_all(
                old(self).start(),
                old(self).max_steps() as nat,
                current@,
                hop,
                (steps_v(old(self).steps_view()), old(self).pending()),
                edges_v(edges@),
            ),
            final(self).steps_view().len() >= old(self).steps_view().len(),
            forall|i: int| 0 <= i < old(self).steps_view().len()
                ==> #[trigger] final(self).steps_view()[i] == old(self).steps_view()[i],
            forall|i: int| old(self).steps_view().len() <= i < final(self).steps_view().len()
                ==> (#[trigger] final(self).steps_view()[i]).parent_id@ == current@
                && final(self).steps_view()[i].hop == hop + 1,
    {
        let ghost out0 = self.out@;
        let ghost st0 = (steps_v(self.out@), self.pending());
        let mut i: usize = 0;
        while i < edges.len()
            invariant
                0 <= i <= edges@.len(),
                self.wf(),
                self.from == old(self).from,
                self.depth == old(self).depth,
                self.limit == old(self).limit,
                hop < self.depth,
                out0 == old(self).out@,
                st0 == (steps_v(old(self).out@), old(self).pending()),
                (steps_v(self.out@), self.pending()) == absorb_all(
                    self.from@,
                    self.limit as nat,
                    current@,
                    hop,
                    st0,
                    edges_v(edges@).take(i as int),
                ),
                self.out@.len() >= out0.len(),
                forall|k: int| 0 <= k < out0.len() ==> self.out@[k] == out0[k],
                forall|k: int|
                    out0.len() <= k < self.out@.len() ==> (#[trigger] self.out@[k]).parent_id@
                        == current@ && self.out@[k].hop == hop + 1,
            decreases edges.len() - i,
        {
            let e = &edges[i];
            let ghost before = (steps_v(self.out@), self.pending());
            proof {
                assert(edges_v(edges@).take(i + 1).drop_last() =~= edges_v(edges@).take(i as int));
                assert(edges_v(edges@).take(i + 1).last() == edge_v(*e));
                assert(targets(self.out@) =~= before.0.map_values(
                    |x: (Seq<char>, Seq<char>, u64, JsonV)| x.0,
                ));
            }
            i = i + 1;
            let causal = crate::json::string_eq_str(&e.link_type, "causal");
            let outgoing = crate::json::string_eq_str(&e.source_id, current);
            if causal && outgoing && !self.is_visited(e.target_id.as_str()) && self.out.len() < self.limit {
                let ghost v0 = texts(self.visited@);
                let ghost o0 = self.out@;
                let ghost f0 = self.frontier@;
                self.visited.push(owned(e.target_id.as_str()));
                self.out.push(
                    CausalStep {
                        target_id: owned(e.target_id.as_str()),
                        parent_id: owned(e.source_id.as_str()),
                        hop: hop + 1,
                        strength: e.strength.deep_clone(),
                    },
                );
                proof {
                    assert(texts(self.visited@) =~= v0.push(e.target_id@));
                    assert(targets(self.out@) =~= targets(o0).push(e.target_id@));
                    assert(texts(self.visited@) =~= seq![self.from@] + targets(self.out@));
                    assert(!v0.contains(e.target_id@));
                    assert forall|a: int, b: int| 0 <= a < b < texts(self.visited@).len() implies texts(
                        self.visited@,
                    )[a] != texts(self.visited@)[b] by {
                        if b == v0.len() {
                            assert(texts(self.visited@)[a] == v0[a]);
                        }
                    }
                    assert(steps_v(self.out@) =~= before.0.push(
                        (e.target_id@, e.source_id@, (hop + 1) as u64, e.strength@),
                    ));
                    assert forall|k: int| 0 <= k < self.frontier@.len() implies queued_ok(
                        self.from@,
                        self.out@,
                        #[trigger] self.frontier@[k],
                    ) by {
                        assert(queued_ok(self.from@, o0, self.frontier@[k]));
                        if !(self.frontier@[k].0@ == self.from@ && self.frontier@[k].1 == 0) {
                            let j = choose|j: int|
                                0 <= j < o0.len() && (#[trigger] o0[j]).target_id@ == self.frontier@[k].0@
                                    && o0[j].hop == self.frontier@[k].1;
                            assert(self.out@[j] == o0[j]);
                        }
                    }
                }
                if self.out.len() < self.limit {
                    self.frontier.push((owned(e.target_id.as_str()), hop + 1));
                    proof {
                        assert(self.frontier@ == f0.push(self.frontier@[f0.len() as int]));
                        assert(self.pending() =~= before.1.push((e.target_id@, (hop + 1) as u64)));
                        let last = (self.out@.len() - 1) as int;
                        assert(self.out@[last].target_id@ == e.target_id@);
                        assert(queued_ok(self.from@, self.out@, self.frontier@[f0.len() as int]));
                        assert forall|k: int| 0 <= k < self.frontier@.len() implies queued_ok(
                            self.from@,
                            self.out@,
                            #[trigger] self.frontier@[k],
                        ) by {
                            if k < f0.len() {
                                assert(self.frontier@[k] == f0[k]);
                            }
                        }
                    }
                } else {
                    proof {
                        assert(self.pending() =~= before.1);
                    }
                }
            }
        }
        proof {
            assert(edges_v(edges@).take(edges@.len() as int) =~= edges_v(edges@));
        }
    }

    /// The memories reached, in the order they were reached.
    pub fn into_steps(self) -> (r: Vec<CausalStep>)
        ensures
            r@ == self.steps_view(),
    {
        self.out
    }
}

/// Every memory queued for a query is the start, at hop 0, or a memory the
/// walk reached, at the hop it was reached at. So a step taken in from a
/// query's answer has the start as parent at hop 1, or a reached memory one
/// hop nearer.
pub proof fn law_queued_memories_were_reached(w: &CausalWalk)
    requires
        w.wf(),
    ensures
        forall|k: int|
            0 <= k < w.pending().len() ==> {
                let e = #[trigger] w.pending()[k];
                ||| e.0 == w.start() && e.1 == 0
                ||| exists|j: int|
                    0 <= j < w.steps_view().len() && (#[trigger] w.steps_view()[j]).target_id@ == e.0
                        && w.steps_view()[j].hop == e.1
            },
{
    assert forall|k: int| 0 <= k < w.pending().len() implies {
        let e = #[trigger] w.pending()[k];
        ||| e.0 == w.start() && e.1 == 0
        ||| exists|j: int|
            0 <= j < w.steps_view().len() && (#[trigger] w.steps_view()[j]).target_id@ == e.0
                && w.steps_view()[j].hop == e.1
    } by {
        let f = w.frontier@[w.head + k];
        assert(queued_ok(w.from@, w.out@, f));
        assert(w.pending()[k] == (f.0@, f.1));
        if !(f.0@ == w.from@ && f.1 == 0) {
            let j = choose|j: int| 0 <= j < w.out@.len() && (#[trigger] w.out@[j]).target_id@ == f.0@ && w.out@[j].hop == f.1;
            assert(w.steps_view()[j] == w.out@[j]);
        }
    }
}

/// What every walk keeps: at most `limit` memories, none reported twice,
/// the start never among them, each one to `depth` hops out, `depth` at most six.
pub proof fn law_causal_walk_is_bounded(w: &CausalWalk)
    requires
        w.wf(),
    ensures
        w.steps_view().len() <= w.max_steps(),
        distinct(targets(w.steps_view())),
        forall|i: int| 0 <= i < w.steps_view().len() ==> (#[trigger] w.steps_view()[i]).target_id@ != w.start(),
        forall|i: int| 0 <= i < w.steps_view().len() ==> 1 <= (#[trigger] w.steps_view()[i]).hop <= w.max_depth(),
        w.max_depth() <= MAX_CAUSAL_DEPTH,
{
    let v = texts(w.visited@);
    let t = targets(w.out@);
    assert forall|a: int, b: int| 0 <= a < b < t.len() implies t[a] != t[b] by {
        assert(v[a + 1] == t[a]);
        assert(v[b + 1] == t[b]);
    }
    assert forall|i: int| 0 <= i < w.out@.len() implies (#[trigger] w.out@[i]).target_id@ != w.from@ by {
        assert(v[i + 1] == t[i]);
        assert(v[0] == w.from@);
    }
}

} // verus!
