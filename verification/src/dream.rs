//! `dream`: its argument schema, how many memories a dream replays, and
//! which ones: mostly memories tagged while awake, topped up from the rest.
//! The store supplies the candidates; the dream engine runs the cycle.

use vstd::prelude::*;
use crate::json::{array, entries_model, keys_of, new_entries, object, push_entry, Json};
use crate::schema::{declared_args, names_of, required_args, schema_shape, ToolSchema};
use crate::json::{get_field, u64_of, JsonV};
use crate::text::{chars_of, decimal, decimal_s, owned, push_chars, string_of};

verus! {

broadcast use vstd::string::group_string_axioms;

/// The argument schema of `dream`, as published.
pub open spec fn schema_spec() -> JsonV {
    JsonV::Object(seq![
        ("type"@, JsonV::Str("object"@)),
        ("properties"@, JsonV::Object(seq![
            ("memory_count"@, JsonV::Object(seq![
                ("type"@, JsonV::Str("integer"@)),
                ("description"@, JsonV::Str("Number of recent memories to dream about (default: 50)"@)),
                ("default"@, JsonV::Int(50)),
            ])),
        ])),
    ])
}

/// The arguments of `dream`; none is required.
pub fn schema() -> (r: Json)
    ensures
        r@ == schema_spec(),
        schema_shape(r@),
        declared_args(r@) == seq!["memory_count"@],
        required_args(r@) == Seq::<Seq<char>>::empty(),
{
    let mut props = new_entries();
    push_entry(&mut props, "memory_count", {
        let mut e = new_entries();
        push_entry(&mut e, "type", Json::from_str("integer"));
        push_entry(&mut e, "description", Json::from_str("Number of recent memories to dream about (default: 50)"));
        push_entry(&mut e, "default", Json::Int(50));
        proof {
            assert(crate::json::entries_model(e@) =~= seq![
                ("type"@, JsonV::Str("integer"@)),
                ("description"@, JsonV::Str("Number of recent memories to dream about (default: 50)"@)),
                ("default"@, JsonV::Int(50)),
            ]);
        }
        object(e)
    });
    let mut required: Vec<String> = Vec::new();
    let extra = new_entries();
    proof {
        assert(keys_of(entries_model(props@)) =~= seq!["memory_count"@]);
        assert(names_of(required@) =~= Seq::<Seq<char>>::empty());
    }
    let s = ToolSchema { properties: props, required, extra };
    proof {
        assert(crate::json::entries_model(s.properties@) =~= seq![
            ("memory_count"@, JsonV::Object(seq![
                ("type"@, JsonV::Str("integer"@)),
                ("description"@, JsonV::Str("Number of recent memories to dream about (default: 50)"@)),
                ("default"@, JsonV::Int(50)),
            ])),
        ]);
        assert(s.json_v()->Object_0 =~= schema_spec()->Object_0);
    }
    s.publish()
}


/// The most memories a dream replays.
pub const MAX_DREAM_MEMORIES: u64 = 500;

/// How many memories a dream replays: `memory_count` (50 by default), at
/// most 500.
pub open spec fn memory_count_s(args: Option<JsonV>) -> int {
    let n: int = match args {
        Some(a) => match u64_of(get_field(a, "memory_count"@)) {
            Some(n) => n,
            None => 50,
        },
        None => 50,
    };
    if n < 500 {
        n
    } else {
        500
    }
}

/// How many memories a dream replays.
pub fn memory_count(args: Option<&Json>) -> (r: usize)
    ensures
        r == memory_count_s(
            match args {
                Some(a) => Some(a@),
                None => None,
            },
        ),
        r <= 500,
{
    let n: u64 = match args {
        Some(a) => match a.get("memory_count") {
            Some(v) => match v.as_u64() {
                Some(n) => n,
                None => 50,
            },
            None => 50,
        },
        None => 50,
    };
    if n < MAX_DREAM_MEMORIES {
        n as usize
    } else {
        500
    }
}

/// How many of the replayed memories come from the tagged ones: 70% of the
/// count, or all tagged ones when there are fewer.
pub open spec fn tagged_target_s(count: nat, tagged: nat) -> nat {
    let t = count * 7 / 10;
    if t < tagged {
        t
    } else {
        tagged
    }
}

/// `acc` with each candidate appended, in order, that is not in `exclude`
/// while `acc` holds fewer than `cap` entries.
pub open spec fn fill(acc: Seq<Seq<char>>, candidates: Seq<Seq<char>>, exclude: Seq<Seq<char>>, cap: nat) -> Seq<Seq<char>>
    decreases candidates.len(),
{
    if candidates.len() == 0 {
        acc
    } else {
        let a = fill(acc, candidates.drop_last(), exclude, cap);
        if !exclude.contains(candidates.last()) && a.len() < cap {
            a.push(candidates.last())
        } else {
            a
        }
    }
}

/// The memories a dream replays: the first tagged ones up to the tagged
/// target; then, in order, the other memories not among those; then, when
/// there is still room, tagged ones not yet chosen (judged against the
/// choice made before this last step). Never more than `count`.
pub open spec fn replay_s(count: nat, tagged: Seq<Seq<char>>, others: Seq<Seq<char>>, refill: Seq<Seq<char>>) -> Seq<Seq<char>> {
    let first = tagged.take(tagged_target_s(count, tagged.len()) as int);
    let second = fill(first, others, first, count);
    if second.len() < count {
        fill(second, refill, second, count)
    } else {
        second
    }
}

pub open spec fn ids_view(v: Seq<String>) -> Seq<Seq<char>> {
    Seq::new(v.len(), |i: int| v[i]@)
}

proof fn lemma_fill_bounded(acc: Seq<Seq<char>>, c: Seq<Seq<char>>, ex: Seq<Seq<char>>, cap: nat)
    ensures
        fill(acc, c, ex, cap).len() <= if acc.len() > cap { acc.len() } else { cap },
        fill(acc, c, ex, cap).len() >= acc.len(),
        fill(acc, c, ex, cap).take(acc.len() as int) == acc,
    decreases c.len(),
{
    if c.len() > 0 {
        lemma_fill_bounded(acc, c.drop_last(), ex, cap);
        let a = fill(acc, c.drop_last(), ex, cap);
        assert(a.push(c.last()).take(acc.len() as int) =~= a.take(acc.len() as int));
    } else {
        assert(acc.take(acc.len() as int) =~= acc);
    }
}

/// A dream never replays more than its count, and the tagged memories it
/// takes come first, in the order the store gave them.
pub proof fn law_replay_is_bounded_and_tagged_first(
    count: nat,
    tagged: Seq<Seq<char>>,
    others: Seq<Seq<char>>,
    refill: Seq<Seq<char>>,
)
    ensures
        replay_s(count, tagged, others, refill).len() <= count,
        replay_s(count, tagged, others, refill).take(tagged_target_s(count, tagged.len()) as int)
            == tagged.take(tagged_target_s(count, tagged.len()) as int),
{
    let t = tagged_target_s(count, tagged.len());
    let first = tagged.take(t as int);
    assert(count * 7 / 10 <= count) by (nonlinear_arith);
    lemma_fill_bounded(first, others, first, count);
    let second = fill(first, others, first, count);
    if second.len() < count {
        lemma_fill_bounded(second, refill, second, count);
        let third = fill(second, refill, second, count);
        assert(third.take(t as int) =~= third.take(second.len() as int).take(t as int));
        assert(second.take(t as int) =~= second.take(first.len() as int));
    } else {
        assert(second.take(t as int) =~= second.take(first.len() as int));
    }
}

fn contains_id(v: &Vec<String>, id: &str) -> (r: bool)
    ensures
        r == ids_view(v@).contains(id@),
{
    let mut i: usize = 0;
    while i < v.len()
        invariant
            0 <= i <= v@.len(),
            forall|k: int| 0 <= k < i ==> ids_view(v@)[k] != id@,
        decreases v.len() - i,
    {
        if crate::json::string_eq_str(&v[i], id) {
            proof {
                assert(ids_view(v@)[i as int] == id@);
            }
            return true;
        }
        i = i + 1;
    }
    false
}

fn fill_exec(acc: &mut Vec<String>, candidates: &Vec<String>, exclude: &Vec<String>, cap: usize)
    ensures
        ids_view(final(acc)@) == fill(ids_view(old(acc)@), ids_view(candidates@), ids_view(exclude@), cap as nat),
{
    let ghost a0 = ids_view(acc@);
    let ghost c = ids_view(candidates@);
    let mut i: usize = 0;
    proof {
        assert(c.take(0) =~= Seq::<Seq<char>>::empty());
    }
    while i < candidates.len()
        invariant
            0 <= i <= candidates@.len(),
            c == ids_view(candidates@),
            ids_view(acc@) == fill(a0, c.take(i as int), ids_view(exclude@), cap as nat),
        decreases candidates.len() - i,
    {
        proof {
            assert(c.take(i + 1).drop_last() =~= c.take(i as int));
            assert(c.take(i + 1).last() == candidates@[i as int]@);
        }
        let ghost before = ids_view(acc@);
        if !contains_id(exclude, candidates[i].as_str()) && acc.len() < cap {
            let item = owned(candidates[i].as_str());
            assert(item@ == candidates@[i as int]@);
            acc.push(item);
            proof {
                assert(ids_view(acc@) =~= before.push(candidates@[i as int]@));
            }
        }
        i = i + 1;
    }
    proof {
        assert(c.take(candidates@.len() as int) =~= c);
    }
}

/// The ids of the memories a dream replays, from the store's tagged
/// memories, its other memories, and its tagged memories read a second time.
pub fn replay_selection(
    count: usize,
    tagged: &Vec<String>,
    others: &Vec<String>,
    refill: &Vec<String>,
) -> (r: Vec<String>)
    requires
        count <= 500,
    ensures
        ids_view(r@) == replay_s(count as nat, ids_view(tagged@), ids_view(others@), ids_view(refill@)),
{
    let t0 = count * 7 / 10;
    let target = if t0 < tagged.len() {
        t0
    } else {
        tagged.len()
    };
    let mut first: Vec<String> = Vec::new();
    let mut i: usize = 0;
    while i < target
        invariant
            0 <= i <= target <= tagged@.len(),
            ids_view(first@) == ids_view(tagged@).take(i as int),
        decreases target - i,
    {
        let ghost before = ids_view(first@);
        let item = owned(tagged[i].as_str());
        assert(item@ == tagged@[i as int]@);
        first.push(item);
        proof {
            assert(ids_view(first@) =~= before.push(tagged@[i as int]@));
            assert(ids_view(first@) =~= ids_view(tagged@).take(i + 1));
        }
        i = i + 1;
    }
    let exclude = copy_ids(&first);
    let mut chosen = first;
    fill_exec(&mut chosen, others, &exclude, count);
    if chosen.len() < count {
        let used = copy_ids(&chosen);
        fill_exec(&mut chosen, refill, &used, count);
    }
    chosen
}

fn copy_ids(v: &Vec<String>) -> (r: Vec<String>)
    ensures
        ids_view(r@) == ids_view(v@),
{
    let mut r: Vec<String> = Vec::new();
    let mut i: usize = 0;
    while i < v.len()
        invariant
            0 <= i <= v@.len(),
            ids_view(r@) == ids_view(v@).take(i as int),
        decreases v.len() - i,
    {
        let ghost before = ids_view(r@);
        let item = owned(v[i].as_str());
        assert(item@ == v@[i as int]@);
        r.push(item);
        proof {
            assert(ids_view(r@) =~= before.push(v@[i as int]@));
            assert(ids_view(r@) =~= ids_view(v@).take(i + 1));
        }
        i = i + 1;
    }
    proof {
        assert(ids_view(v@).take(v@.len() as int) =~= ids_view(v@));
    }
    r
}

/// The fewest memories a dream runs on.
pub const MIN_DREAM_MEMORIES: usize = 5;

/// The reply when there are too few memories to dream.
/// The reply when there are too few memories to dream.
pub open spec fn insufficient_reply_v(count: nat) -> JsonV {
    JsonV::Object(
        seq![
            ("status"@, JsonV::Str("insufficient_memories"@)),
            ("message"@, JsonV::Str("Need at least 5 memories to dream. Current count: "@ + decimal_s(count))),
            ("count"@, crate::json::count_v(count)),
        ],
    )
}

pub fn insufficient_reply(count: usize) -> (r: Json)
    ensures
        r@ == insufficient_reply_v(count as nat),
{
    let mut m: Vec<char> = chars_of("Need at least 5 memories to dream. Current count: ");
    let d = decimal(count as u64);
    push_chars(&mut m, &d);
    let mut e = new_entries();
    push_entry(&mut e, "status", Json::from_str("insufficient_memories"));
    push_entry(&mut e, "message", Json::Str(string_of(m.as_slice())));
    push_entry(&mut e, "count", crate::json::count(count));
    proof {
        assert(entries_model(e@) =~= seq![
            ("status"@, JsonV::Str("insufficient_memories"@)),
            (
                "message"@,
                JsonV::Str("Need at least 5 memories to dream. Current count: "@ + decimal_s(count as nat)),
            ),
            ("count"@, crate::json::count_v(count as nat)),
        ]);
    }
    object(e)
}

/// The guard before a dream: with fewer than 5 memories the dream does not
/// run and the call answers the insufficient-memories reply; otherwise `None`.
pub fn dream_guard(count: usize) -> (r: Option<Json>)
    ensures
        count < MIN_DREAM_MEMORIES ==> (r matches Some(j) && j@ == insufficient_reply_v(count as nat)),
        count >= MIN_DREAM_MEMORIES ==> r is None,
{
    if count < MIN_DREAM_MEMORIES {
        Some(insufficient_reply(count))
    } else {
        None
    }
}

/// The kinds of connection a dream discovers.
#[derive(PartialEq, Eq, Structural, Clone, Copy, Debug)]
pub enum DreamConnectionKind {
    CrossDomain,
    Causal,
    Complementary,
    Contradictory,
}

/// The link type a discovered connection is stored under.
pub open spec fn stored_link_type_s(k: DreamConnectionKind) -> Seq<char> {
    match k {
        DreamConnectionKind::CrossDomain => "semantic"@,
        DreamConnectionKind::Causal => "causal"@,
        DreamConnectionKind::Complementary => "complementary"@,
        DreamConnectionKind::Contradictory => "contradiction"@,
    }
}

/// The link type a discovered connection is stored under.
pub fn stored_link_type(k: DreamConnectionKind) -> (r: &'static str)
    ensures
        r@ == stored_link_type_s(k),
{
    match k {
        DreamConnectionKind::CrossDomain => "semantic",
        DreamConnectionKind::Causal => "causal",
        DreamConnectionKind::Complementary => "complementary",
        DreamConnectionKind::Contradictory => "contradiction",
    }
}

/// The edge kinds of the live activation network.
#[derive(PartialEq, Eq, Structural, Clone, Copy, Debug)]
pub enum NetworkLink {
    Semantic,
    Causal,
}

/// The edge a discovered connection adds to the live network: causal
/// connections stay causal, every other kind becomes semantic.
pub fn network_link(k: DreamConnectionKind) -> (r: NetworkLink)
    ensures
        r == (if k == DreamConnectionKind::Causal {
            NetworkLink::Causal
        } else {
            NetworkLink::Semantic
        }),
{
    match k {
        DreamConnectionKind::Causal => NetworkLink::Causal,
        _ => NetworkLink::Semantic,
    }
}

} // verus!
