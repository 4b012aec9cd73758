//! Precompute-for-context: the request it accepts, the topic slug it tags the
//! summary with, and the summary and reply it writes.
//!
//! The search for source memories and the write of the summary go to the
//! memory store; everything around them is computed here.

use vstd::prelude::*;
use crate::json::{
    array, count, count_v, entries_model, keys_of, new_entries, get_field, i64_of, object, push_entry, str_array, str_of, strs_model,
    Json, JsonV,
};
use crate::schema::{declared_args, required_args, schema_shape, names_of, ToolSchema};
use crate::text::{
    char_lower_s, char_to_lowercase, chars_of, copy_range, decimal, decimal_s,
    is_ascii_alnum_s, is_ascii_alphanumeric, owned, push_chars, push_str, string_of, trim_end_s,
    trim_range, trim_s, is_ascii_s, ascii_lower,
};

verus! {

broadcast use vstd::string::group_string_axioms;

pub const DEFAULT_TOP_K: i64 = 5;
pub const MIN_TOP_K: i64 = 1;
pub const MAX_TOP_K: i64 = 20;
pub const DEFAULT_TTL_HOURS: i64 = 24;
pub const MIN_TTL_HOURS: i64 = 1;
/// Seven days: a heuristic summary is not presented as fresh for longer.
pub const MAX_TTL_HOURS: i64 = 168;

/// The argument schema of `precompute`, as published.
pub open spec fn schema_spec() -> JsonV {
    JsonV::Object(seq![
        ("type"@, JsonV::Str("object"@)),
        ("properties"@, JsonV::Object(seq![
            ("topic"@, JsonV::Object(seq![
                ("type"@, JsonV::Str("string"@)),
                ("description"@, JsonV::Str("Topic to pre-compute. Be specific (`OAuth2 token refresh` beats `auth`)."@)),
            ])),
            ("top_k"@, JsonV::Object(seq![
                ("type"@, JsonV::Str("integer"@)),
                ("description"@, JsonV::Str("Number of source memories to fold into the summary."@)),
                ("minimum"@, JsonV::Int(MIN_TOP_K as int)),
                ("maximum"@, JsonV::Int(MAX_TOP_K as int)),
                ("default"@, JsonV::Int(DEFAULT_TOP_K as int)),
            ])),
            ("ttl_hours"@, JsonV::Object(seq![
                ("type"@, JsonV::Str("integer"@)),
                ("description"@, JsonV::Str("How long the precomputed summary stays valid. Clamped to 1..=168 (7 days). Past `ttl_hours` the entry is treated as expired by `temporal` and search demotes it."@)),
                ("minimum"@, JsonV::Int(MIN_TTL_HOURS as int)),
                ("maximum"@, JsonV::Int(MAX_TTL_HOURS as int)),
                ("default"@, JsonV::Int(DEFAULT_TTL_HOURS as int)),
            ])),
        ])),
        ("required"@, JsonV::Array(seq![
            JsonV::Str("topic"@),
        ])),
    ])
}

/// The arguments of `precompute_for_context`: `topic` is required; `top_k` and `ttl_hours` are declared with their clamps.
pub fn schema() -> (r: Json)
    ensures
        r@ == schema_spec(),
        schema_shape(r@),
        declared_args(r@) == seq!["topic"@, "top_k"@, "ttl_hours"@],
        required_args(r@) == seq!["topic"@],
{
    let mut props = new_entries();
    push_entry(&mut props, "topic", {
        let mut e = new_entries();
        push_entry(&mut e, "type", Json::from_str("string"));
        push_entry(&mut e, "description", Json::from_str("Topic to pre-compute. Be specific (`OAuth2 token refresh` beats `auth`)."));
        proof {
            assert(crate::json::entries_model(e@) =~= seq![
                ("type"@, JsonV::Str("string"@)),
                ("description"@, JsonV::Str("Topic to pre-compute. Be specific (`OAuth2 token refresh` beats `auth`)."@)),
            ]);
        }
        object(e)
    });
    push_entry(&mut props, "top_k", {
        let mut e = new_entries();
        push_entry(&mut e, "type", Json::from_str("integer"));
        push_entry(&mut e, "description", Json::from_str("Number of source memories to fold into the summary."));
        push_entry(&mut e, "minimum", Json::Int(MIN_TOP_K));
        push_entry(&mut e, "maximum", Json::Int(MAX_TOP_K));
        push_entry(&mut e, "default", Json::Int(DEFAULT_TOP_K));
        proof {
            assert(crate::json::entries_model(e@) =~= seq![
                ("type"@, JsonV::Str("integer"@)),
                ("description"@, JsonV::Str("Number of source memories to fold into the summary."@)),
                ("minimum"@, JsonV::Int(MIN_TOP_K as int)),
                ("maximum"@, JsonV::Int(MAX_TOP_K as int)),
                ("default"@, JsonV::Int(DEFAULT_TOP_K as int)),
            ]);
        }
        object(e)
    });
    push_entry(&mut props, "ttl_hours", {
        let mut e = new_entries();
        push_entry(&mut e, "type", Json::from_str("integer"));
        push_entry(&mut e, "description", Json::from_str("How long the precomputed summary stays valid. Clamped to 1..=168 (7 days). Past `ttl_hours` the entry is treated as expired by `temporal` and search demotes it."));
        push_entry(&mut e, "minimum", Json::Int(MIN_TTL_HOURS));
        push_entry(&mut e, "maximum", Json::Int(MAX_TTL_HOURS));
        push_entry(&mut e, "default", Json::Int(DEFAULT_TTL_HOURS));
        proof {
            assert(crate::json::entries_model(e@) =~= seq![
                ("type"@, JsonV::Str("integer"@)),
                ("description"@, JsonV::Str("How long the precomputed summary stays valid. Clamped to 1..=168 (7 days). Past `ttl_hours` the entry is treated as expired by `temporal` and search demotes it."@)),
                ("minimum"@, JsonV::Int(MIN_TTL_HOURS as int)),
                ("maximum"@, JsonV::Int(MAX_TTL_HOURS as int)),
                ("default"@, JsonV::Int(DEFAULT_TTL_HOURS as int)),
            ]);
        }
        object(e)
    });
    let mut required: Vec<String> = Vec::new();
    required.push(owned("topic"));
    let extra = new_entries();
    proof {
        assert(keys_of(entries_model(props@)) =~= seq!["topic"@, "top_k"@, "ttl_hours"@]);
        assert(names_of(required@) =~= seq!["topic"@]);
        assert(keys_of(entries_model(props@))[0] == "topic"@);
    }
    let s = ToolSchema { properties: props, required, extra };
    proof {
        assert(crate::json::entries_model(s.properties@) =~= seq![
            ("topic"@, JsonV::Object(seq![
                ("type"@, JsonV::Str("string"@)),
                ("description"@, JsonV::Str("Topic to pre-compute. Be specific (`OAuth2 token refresh` beats `auth`)."@)),
            ])),
            ("top_k"@, JsonV::Object(seq![
                ("type"@, JsonV::Str("integer"@)),
                ("description"@, JsonV::Str("Number of source memories to fold into the summary."@)),
                ("minimum"@, JsonV::Int(MIN_TOP_K as int)),
                ("maximum"@, JsonV::Int(MAX_TOP_K as int)),
                ("default"@, JsonV::Int(DEFAULT_TOP_K as int)),
            ])),
            ("ttl_hours"@, JsonV::Object(seq![
                ("type"@, JsonV::Str("integer"@)),
                ("description"@, JsonV::Str("How long the precomputed summary stays valid. Clamped to 1..=168 (7 days). Past `ttl_hours` the entry is treated as expired by `temporal` and search demotes it."@)),
                ("minimum"@, JsonV::Int(MIN_TTL_HOURS as int)),
                ("maximum"@, JsonV::Int(MAX_TTL_HOURS as int)),
                ("default"@, JsonV::Int(DEFAULT_TTL_HOURS as int)),
            ])),
        ]);
        assert(crate::json::strs_model(s.required@) =~= seq![
            JsonV::Str("topic"@),
        ]);
        assert(s.json_v()->Object_0 =~= schema_spec()->Object_0);
    }
    s.publish()
}



// ---------------------------------------------------------------------------
// Topic slug
// ---------------------------------------------------------------------------

/// Every character of a text lowercased (`chars().flat_map(to_lowercase)`).
pub open spec fn lower_all(s: Seq<char>) -> Seq<char>
    decreases s.len(),
{
    if s.len() == 0 {
        Seq::empty()
    } else {
        lower_all(s.drop_last()) + char_lower_s(s.last())
    }
}

/// One step of the slug scan: an ASCII letter or digit is kept; any other
/// character becomes a dash, unless the slug is empty or already ends in one.
pub open spec fn slug_step(acc: Seq<char>, c: char) -> Seq<char> {
    if is_ascii_alnum_s(c) {
        acc.push(c)
    } else if acc.len() == 0 || acc.last() == '-' {
        acc
    } else {
        acc.push('-')
    }
}

/// The slug scan over a (lowercased) text.
pub open spec fn slug_raw(s: Seq<char>) -> Seq<char>
    decreases s.len(),
{
    if s.len() == 0 {
        Seq::empty()
    } else {
        slug_step(slug_raw(s.drop_last()), s.last())
    }
}

/// Trailing dashes removed.
pub open spec fn trim_dashes_end(s: Seq<char>) -> Seq<char>
    decreases s.len(),
{
    if s.len() > 0 && s.last() == '-' {
        trim_dashes_end(s.drop_last())
    } else {
        s
    }
}

pub open spec fn unknown_slug() -> Seq<char> {
    seq!['u', 'n', 'k', 'n', 'o', 'w', 'n']
}

/// The slug of a topic: lowercased, ASCII letters and digits kept, every run
/// of other characters one dash, no dash at either end; `unknown` when
/// nothing is left.
pub open spec fn slug_s(topic: Seq<char>) -> Seq<char> {
    let r = trim_dashes_end(slug_raw(lower_all(topic)));
    if r.len() == 0 {
        unknown_slug()
    } else {
        r
    }
}

/// No ASCII capital letter.
pub open spec fn no_upper(s: Seq<char>) -> bool {
    forall|i: int| 0 <= i < s.len() ==> !('A' <= #[trigger] s[i] && s[i] <= 'Z')
}

/// A slug is a tag handle: ASCII letters, digits and single dashes, with
/// no dash at either end.
pub open spec fn clean_handle(s: Seq<char>) -> bool {
    &&& s.len() > 0
    &&& forall|i: int| 0 <= i < s.len() ==> is_ascii_alnum_s(#[trigger] s[i]) || s[i] == '-'
    &&& s[0] != '-'
    &&& s.last() != '-'
    &&& forall|i: int| 0 <= i < s.len() - 1 ==> !(#[trigger] s[i] == '-' && s[i + 1] == '-')
}

proof fn lemma_slug_raw_shape(s: Seq<char>)
    ensures
        forall|i: int|
            0 <= i < slug_raw(s).len() ==> is_ascii_alnum_s(#[trigger] slug_raw(s)[i])
                || slug_raw(s)[i] == '-',
        slug_raw(s).len() > 0 ==> slug_raw(s)[0] != '-',
        forall|i: int|
            0 <= i < slug_raw(s).len() - 1 ==> !(#[trigger] slug_raw(s)[i] == '-' && slug_raw(
                s,
            )[i + 1] == '-'),
    decreases s.len(),
{
    if s.len() > 0 {
        lemma_slug_raw_shape(s.drop_last());
    }
}

proof fn lemma_trim_dashes_end(s: Seq<char>)
    ensures
        trim_dashes_end(s).len() <= s.len(),
        trim_dashes_end(s) == s.take(trim_dashes_end(s).len() as int),
        trim_dashes_end(s).len() > 0 ==> trim_dashes_end(s).last() != '-',
    decreases s.len(),
{
    if s.len() > 0 && s.last() == '-' {
        lemma_trim_dashes_end(s.drop_last());
        let t = trim_dashes_end(s.drop_last());
        assert(s.drop_last().take(t.len() as int) =~= s.take(t.len() as int));
    } else {
        assert(s.take(s.len() as int) =~= s);
    }
}

/// Whatever the topic, its slug is a clean tag handle.
pub proof fn law_slug_is_a_clean_handle(topic: Seq<char>)
    ensures
        clean_handle(slug_s(topic)),
{
    let raw = slug_raw(lower_all(topic));
    lemma_slug_raw_shape(lower_all(topic));
    lemma_trim_dashes_end(raw);
    let t = trim_dashes_end(raw);
    if t.len() == 0 {
        assert(clean_handle(unknown_slug()));
    } else {
        assert forall|i: int| 0 <= i < t.len() implies is_ascii_alnum_s(#[trigger] t[i])
            || t[i] == '-' by {
            assert(t[i] == raw[i]);
        }
        assert forall|i: int| 0 <= i < t.len() - 1 implies !(#[trigger] t[i] == '-' && t[i + 1]
            == '-') by {
            assert(t[i] == raw[i]);
            assert(t[i + 1] == raw[i + 1]);
        }
        assert(t[0] == raw[0]);
    }
}

pub open spec fn all_ascii(s: Seq<char>) -> bool {
    forall|i: int| 0 <= i < s.len() ==> is_ascii_s(#[trigger] s[i])
}

proof fn lemma_lower_all_ascii(s: Seq<char>)
    requires
        all_ascii(s),
    ensures
        lower_all(s).len() == s.len(),
        forall|i: int| 0 <= i < s.len() ==> #[trigger] lower_all(s)[i] == ascii_lower(s[i]),
        no_upper(lower_all(s)),
    decreases s.len(),
{
    if s.len() > 0 {
        let p = s.drop_last();
        assert(all_ascii(p)) by {
            assert forall|i: int| 0 <= i < p.len() implies is_ascii_s(#[trigger] p[i]) by {
                assert(p[i] == s[i]);
            }
        }
        lemma_lower_all_ascii(p);
        assert(is_ascii_s(s.last()));
        let l = lower_all(s);
        assert forall|i: int| 0 <= i < s.len() implies #[trigger] l[i] == ascii_lower(s[i]) by {
            if i < p.len() {
                assert(l[i] == lower_all(p)[i]);
                assert(p[i] == s[i]);
            }
        }
        assert forall|i: int| 0 <= i < l.len() implies !('A' <= #[trigger] l[i] && l[i] <= 'Z') by {
            assert(l[i] == ascii_lower(s[i]));
        }
    }
}

proof fn lemma_slug_raw_keeps_lowercase(x: Seq<char>)
    requires
        no_upper(x),
    ensures
        no_upper(slug_raw(x)),
    decreases x.len(),
{
    if x.len() > 0 {
        let p = x.drop_last();
        assert(no_upper(p)) by {
            assert forall|i: int| 0 <= i < p.len() implies !('A' <= #[trigger] p[i] && p[i] <= 'Z') by {
                assert(p[i] == x[i]);
            }
        }
        lemma_slug_raw_keeps_lowercase(p);
        assert(!('A' <= x.last() && x.last() <= 'Z'));
        let r = slug_raw(x);
        let q = slug_raw(p);
        assert forall|i: int| 0 <= i < r.len() implies !('A' <= #[trigger] r[i] && r[i] <= 'Z') by {
            if i < q.len() {
                assert(r[i] == q[i]);
            }
        }
    }
}

/// A text of ASCII letters, digits and dashes with no leading dash and no
/// two dashes in a row.
pub open spec fn raw_shaped(h: Seq<char>) -> bool {
    &&& forall|i: int| 0 <= i < h.len() ==> is_ascii_alnum_s(#[trigger] h[i]) || h[i] == '-'
    &&& h.len() > 0 ==> h[0] != '-'
    &&& forall|i: int| 0 <= i < h.len() - 1 ==> !(#[trigger] h[i] == '-' && h[i + 1] == '-')
}

proof fn lemma_slug_raw_fixed(h: Seq<char>)
    requires
        raw_shaped(h),
    ensures
        slug_raw(h) == h,
    decreases h.len(),
{
    if h.len() > 0 {
        let p = h.drop_last();
        assert(raw_shaped(p)) by {
            assert forall|i: int| 0 <= i < p.len() implies is_ascii_alnum_s(#[trigger] p[i]) || p[i] == '-' by {
                assert(p[i] == h[i]);
            }
            assert forall|i: int| 0 <= i < p.len() - 1 implies !(#[trigger] p[i] == '-' && p[i + 1] == '-') by {
                assert(p[i] == h[i]);
                assert(p[i + 1] == h[i + 1]);
            }
            if p.len() > 0 {
                assert(p[0] == h[0]);
            }
        }
        lemma_slug_raw_fixed(p);
        let c = h.last();
        assert(is_ascii_alnum_s(c) || c == '-');
        if !is_ascii_alnum_s(c) {
            assert(h.len() > 1);
            assert(h[h.len() - 2] != '-');
            assert(p.last() == h[h.len() - 2]);
        }
        assert(p.push(c) =~= h);
    }
}

/// The slug of an ASCII topic has no capital letters, and slugifying a
/// slug gives it back: the slug of the slug is the slug.
pub proof fn law_slug_of_an_ascii_topic_is_lowercase_and_stable(topic: Seq<char>)
    requires
        all_ascii(topic),
    ensures
        no_upper(slug_s(topic)),
        slug_s(slug_s(topic)) == slug_s(topic),
{
    lemma_lower_all_ascii(topic);
    let x = lower_all(topic);
    lemma_slug_raw_keeps_lowercase(x);
    let raw = slug_raw(x);
    lemma_trim_dashes_end(raw);
    let t = trim_dashes_end(raw);
    let h = slug_s(topic);
    assert(no_upper(h)) by {
        if t.len() == 0 {
            assert(h == unknown_slug());
        } else {
            assert forall|i: int| 0 <= i < h.len() implies !('A' <= #[trigger] h[i] && h[i] <= 'Z') by {
                assert(h[i] == raw[i]);
            }
        }
    }
    law_slug_is_a_clean_handle(topic);
    assert(all_ascii(h)) by {
        assert forall|i: int| 0 <= i < h.len() implies is_ascii_s(#[trigger] h[i]) by {
            assert(is_ascii_alnum_s(h[i]) || h[i] == '-');
        }
    }
    lemma_lower_all_ascii(h);
    assert(lower_all(h) =~= h) by {
        assert forall|i: int| 0 <= i < h.len() implies #[trigger] lower_all(h)[i] == h[i] by {
            assert(lower_all(h)[i] == ascii_lower(h[i]));
        }
    }
    lemma_slug_raw_fixed(h);
    assert(trim_dashes_end(h) == h);
}

/// The slug of a topic, used in the summary's `topic:` tag.
pub fn slugify_topic(topic: &str) -> (r: String)
    ensures
        r@ == slug_s(topic@),
        (forall|i: int| 0 <= i < topic@.len() ==> is_ascii_s(#[trigger] topic@[i])) ==> no_upper(r@),
        clean_handle(topic@) && no_upper(topic@) ==> r@ == topic@,
{
    let chars = chars_of(topic);
    let mut slug: Vec<char> = Vec::new();
    let mut prev_dash = true;
    let mut i: usize = 0;
    let ghost ascii = forall|k: int| 0 <= k < topic@.len() ==> is_ascii_s(#[trigger] topic@[k]);
    let ghost handle = clean_handle(topic@) && no_upper(topic@);
    proof {
        if handle {
            assert forall|k: int| 0 <= k < topic@.len() implies is_ascii_s(#[trigger] topic@[k]) by {
                assert(is_ascii_alnum_s(topic@[k]) || topic@[k] == '-');
            }
        }
    }
    while i < chars.len()
        invariant
            0 <= i <= chars@.len(),
            chars@ == topic@,
            slug@ == slug_raw(lower_all(chars@.take(i as int))),
            prev_dash == (slug@.len() == 0 || slug@.last() == '-'),
            ascii == (forall|k: int| 0 <= k < topic@.len() ==> is_ascii_s(#[trigger] topic@[k])),
            ascii ==> no_upper(slug@),
            handle == (clean_handle(topic@) && no_upper(topic@)),
            handle ==> ascii,
            handle ==> slug@ == topic@.take(i as int),
        decreases chars.len() - i,
    {
        let lc = char_to_lowercase(chars[i]);
        let ghost before = lower_all(chars@.take(i as int));
        proof {
            if ascii {
                assert(is_ascii_s(topic@[i as int]));
            }
            if handle {
                assert(is_ascii_alnum_s(topic@[i as int]) || topic@[i as int] == '-');
                assert(!('A' <= topic@[i as int] && topic@[i as int] <= 'Z'));
                if topic@[i as int] == '-' {
                    assert(i > 0);
                    assert(topic@[i - 1] != '-');
                    assert(slug@.last() == topic@[i - 1]);
                }
            }
        }
        let mut j: usize = 0;
        while j < lc.len()
            invariant
                0 <= j <= lc@.len(),
                lc@ == char_lower_s(chars@[i as int]),
                slug@ == slug_raw(before + lc@.take(j as int)),
                prev_dash == (slug@.len() == 0 || slug@.last() == '-'),
                ascii ==> no_upper(slug@),
                ascii ==> lc@ == seq![ascii_lower(chars@[i as int])],
                handle ==> ascii,
                handle ==> (j == 0 ==> slug@ == topic@.take(i as int)),
                handle ==> (j == 1 ==> slug@ == topic@.take(i + 1)),
                handle ==> (is_ascii_alnum_s(topic@[i as int]) || topic@[i as int] == '-'),
                handle ==> !('A' <= topic@[i as int] && topic@[i as int] <= 'Z'),
                chars@ == topic@,
                i < chars@.len(),
                handle ==> (topic@[i as int] == '-' ==> !prev_dash || j > 0),
            decreases lc.len() - j,
        {
            let ch = lc[j];
            let ghost slug0 = slug@;
            proof {
                assert((before + lc@.take(j + 1)).drop_last() =~= before + lc@.take(j as int));
                if handle {
                    assert(lc@.len() == 1);
                    assert(j == 0);
                    assert(lc@[0] == ascii_lower(topic@[i as int]));
                    assert(ch == topic@[i as int]);
                }
            }
            if is_ascii_alphanumeric(ch) {
                slug.push(ch);
                prev_dash = false;
            } else if !prev_dash {
                slug.push('-');
                prev_dash = true;
            }
            proof {
                if handle && j == 0 {
                    assert(slug@ =~= slug0.push(topic@[i as int]));
                    assert(topic@.take(i + 1) =~= topic@.take(i as int).push(topic@[i as int]));
                }
            }
            j = j + 1;
        }
        proof {
            assert(chars@.take(i + 1).drop_last() =~= chars@.take(i as int));
            assert(lc@.take(lc@.len() as int) =~= lc@);
        }
        i = i + 1;
    }
    proof {
        assert(chars@.take(chars@.len() as int) =~= topic@);
    }
    let ghost raw = slug@;
    assert(handle ==> slug@ == topic@);
    while slug.len() > 0 && slug[slug.len() - 1] == '-'
        invariant
            trim_dashes_end(raw) == trim_dashes_end(slug@),
            ascii ==> no_upper(slug@),
            handle ==> slug@ == topic@,
            handle == (clean_handle(topic@) && no_upper(topic@)),
        decreases slug.len(),
    {
        slug.pop();
    }
    if slug.len() == 0 {
        let r = owned("unknown");
        proof {
            reveal_strlit("unknown");
            assert(r@ =~= unknown_slug());
        }
        r
    } else {
        string_of(slug.as_slice())
    }
}

// ---------------------------------------------------------------------------
// Previews
// ---------------------------------------------------------------------------

/// The first `n` characters, with `…` added when anything was cut.
pub open spec fn first_chars_s(s: Seq<char>, n: nat) -> Seq<char> {
    if s.len() > n {
        s.take(n as int).push('…')
    } else {
        s
    }
}

/// At most `n` characters of `s`, marked with `…` when cut.
pub fn first_chars(s: &str, n: usize) -> (r: String)
    ensures
        r@ == first_chars_s(s@, n as nat),
{
    let cs = chars_of(s);
    if cs.len() > n {
        let mut head = copy_range(&cs, 0, n);
        head.push('…');
        proof {
            assert(cs@.subrange(0, n as int) =~= s@.take(n as int));
        }
        string_of(head.as_slice())
    } else {
        owned(s)
    }
}

// ---------------------------------------------------------------------------
// The request
// ---------------------------------------------------------------------------

/// `v` clamped into `lo..=hi`.
pub open spec fn clamp_s(v: int, lo: int, hi: int) -> int {
    if v < lo {
        lo
    } else if v > hi {
        hi
    } else {
        v
    }
}

/// An integer argument read under its snake_case key, or, where that key is
/// absent, under its camelCase key. A value that is not an integer reads as
/// no value.
pub open spec fn int_arg(args: JsonV, snake: Seq<char>, camel: Seq<char>) -> Option<int> {
    match get_field(args, snake) {
        Some(v) => i64_of(Some(v)),
        None => i64_of(get_field(args, camel)),
    }
}

pub open spec fn or_default(o: Option<int>, d: int) -> int {
    match o {
        Some(v) => v,
        None => d,
    }
}

/// An integer argument under either spelling of its key.
pub fn parse_int(args: &Json, snake: &str, camel: &str) -> (r: Option<i64>)
    ensures
        match r {
            Some(n) => int_arg(args@, snake@, camel@) == Some(n as int),
            None => int_arg(args@, snake@, camel@) is None,
        },
{
    match args.get(snake) {
        Some(v) => v.as_i64(),
        None => match args.get(camel) {
            Some(v) => v.as_i64(),
            None => None,
        },
    }
}

fn clamp(v: i64, lo: i64, hi: i64) -> (r: i64)
    requires
        lo <= hi,
    ensures
        r == clamp_s(v as int, lo as int, hi as int),
{
    if v < lo {
        lo
    } else if v > hi {
        hi
    } else {
        v
    }
}

/// A validated precompute request.
pub struct PrecomputeRequest {
    /// The topic, trimmed.
    pub topic: String,
    /// Source memories to fold in, within `MIN_TOP_K..=MAX_TOP_K`.
    pub top_k: i64,
    /// Hours the summary stays valid, within `MIN_TTL_HOURS..=MAX_TTL_HOURS`.
    pub ttl_hours: i64,
}

/// The refusal a request meets, if any.
pub open spec fn request_error(args: Option<JsonV>) -> Option<Seq<char>> {
    match args {
        None => Some("Missing arguments"@),
        Some(a) => match str_of(get_field(a, "topic"@)) {
            None => Some("Missing 'topic'"@),
            Some(t) => if trim_s(t).len() == 0 {
                Some("'topic' cannot be empty"@)
            } else {
                None
            },
        },
    }
}

pub open spec fn top_k_of(a: JsonV) -> int {
    clamp_s(
        or_default(int_arg(a, "top_k"@, "topK"@), DEFAULT_TOP_K as int),
        MIN_TOP_K as int,
        MAX_TOP_K as int,
    )
}

pub open spec fn ttl_hours_of(a: JsonV) -> int {
    clamp_s(
        or_default(int_arg(a, "ttl_hours"@, "ttlHours"@), DEFAULT_TTL_HOURS as int),
        MIN_TTL_HOURS as int,
        MAX_TTL_HOURS as int,
    )
}

pub open spec fn arg_view(args: Option<&Json>) -> Option<JsonV> {
    match args {
        Some(a) => Some(a@),
        None => None,
    }
}

/// Validates the arguments of a precompute call: a non-blank `topic` is
/// owed; `top_k` (default 5) and `ttl_hours` (default 24) are clamped.
pub fn parse_request(args: Option<&Json>) -> (r: Result<PrecomputeRequest, String>)
    ensures
        match r {
            Err(e) => request_error(arg_view(args)) == Some(e@),
            Ok(q) => {
                &&& request_error(arg_view(args)) is None
                &&& q.topic@ == trim_s(str_of(get_field(args.unwrap()@, "topic"@)).unwrap())
                &&& q.top_k == top_k_of(args.unwrap()@)
                &&& q.ttl_hours == ttl_hours_of(args.unwrap()@)
            },
        },
{
    let args = match args {
        Some(a) => a,
        None => {
            return Err(owned("Missing arguments"));
        },
    };
    let raw = match args.get("topic") {
        Some(v) => match v.as_str() {
            Some(t) => t,
            None => {
                return Err(owned("Missing 'topic'"));
            },
        },
        None => {
            return Err(owned("Missing 'topic'"));
        },
    };
    let cs = chars_of(raw);
    let (a, b) = trim_range(&cs, 0, cs.len());
    proof {
        assert(cs@.subrange(0, cs@.len() as int) =~= raw@);
    }
    if a == b {
        return Err(owned("'topic' cannot be empty"));
    }
    let topic_chars = copy_range(&cs, a, b);
    let topic = string_of(topic_chars.as_slice());
    let top_k = match parse_int(args, "top_k", "topK") {
        Some(n) => n,
        None => DEFAULT_TOP_K,
    };
    let ttl = match parse_int(args, "ttl_hours", "ttlHours") {
        Some(n) => n,
        None => DEFAULT_TTL_HOURS,
    };
    Ok(
        PrecomputeRequest {
            topic,
            top_k: clamp(top_k, MIN_TOP_K, MAX_TOP_K),
            ttl_hours: clamp(ttl, MIN_TTL_HOURS, MAX_TTL_HOURS),
        },
    )
}

// ---------------------------------------------------------------------------
// The summary and the replies
// ---------------------------------------------------------------------------

/// A source memory folded into a summary.
pub struct SourceSnippet {
    pub id: String,
    pub content: String,
}

pub open spec fn snippets_model(v: Seq<SourceSnippet>) -> Seq<(Seq<char>, Seq<char>)> {
    Seq::new(v.len(), |k: int| (v[k].id@, v[k].content@))
}

/// Line `i` (counted from 0) of the preview: `"{i+1}. {first 200 chars} (id: {id})\n"`.
pub open spec fn preview_line(i: nat, id: Seq<char>, content: Seq<char>) -> Seq<char> {
    decimal_s(i + 1) + ". "@ + first_chars_s(content, 200) + " (id: "@ + id + ")\n"@
}

pub open spec fn preview_lines(srcs: Seq<(Seq<char>, Seq<char>)>) -> Seq<char>
    decreases srcs.len(),
{
    if srcs.len() == 0 {
        Seq::empty()
    } else {
        preview_lines(srcs.drop_last()) + preview_line(
            (srcs.len() - 1) as nat,
            srcs.last().0,
            srcs.last().1,
        )
    }
}

/// The content of a summary memory.
pub open spec fn summary_content_s(
    topic: Seq<char>,
    srcs: Seq<(Seq<char>, Seq<char>)>,
    expires_at: Seq<char>,
) -> Seq<char> {
    "[Precomputed summary for \""@ + topic + "\" — "@ + decimal_s(srcs.len()) + " sources, valid until "@
        + expires_at + "]\n\n"@ + trim_end_s(preview_lines(srcs))
}

/// The content of the summary memory written for `topic` from `sources`,
/// valid until `expires_at` (an RFC 3339 time).
pub fn summary_content(topic: &str, sources: &Vec<SourceSnippet>, expires_at: &str) -> (r: String)
    ensures
        r@ == summary_content_s(topic@, snippets_model(sources@), expires_at@),
{
    let ghost srcs = snippets_model(sources@);
    let mut lines: Vec<char> = Vec::new();
    let mut i: usize = 0;
    while i < sources.len()
        invariant
            0 <= i <= sources@.len(),
            srcs == snippets_model(sources@),
            lines@ == preview_lines(srcs.take(i as int)),
        decreases sources.len() - i,
    {
        proof {
            assert(srcs.take(i + 1).drop_last() =~= srcs.take(i as int));
        }
        let snippet = first_chars(sources[i].content.as_str(), 200);
        let n = decimal((i as u64) + 1);
        push_chars(&mut lines, &n);
        push_str(&mut lines, ". ");
        push_str(&mut lines, snippet.as_str());
        push_str(&mut lines, " (id: ");
        push_str(&mut lines, sources[i].id.as_str());
        push_str(&mut lines, ")\n");
        i = i + 1;
    }
    proof {
        assert(srcs.take(sources@.len() as int) =~= srcs);
    }
    let (_, end) = trim_range(&lines, 0, lines.len());
    proof {
        assert(lines@.subrange(0, lines@.len() as int) =~= lines@);
    }
    let mut out: Vec<char> = Vec::new();
    push_str(&mut out, "[Precomputed summary for \"");
    push_str(&mut out, topic);
    push_str(&mut out, "\" — ");
    let count = decimal(sources.len() as u64);
    push_chars(&mut out, &count);
    push_str(&mut out, " sources, valid until ");
    push_str(&mut out, expires_at);
    push_str(&mut out, "]\n\n");
    let kept = copy_range(&lines, 0, end);
    push_chars(&mut out, &kept);
    string_of(out.as_slice())
}

/// The tags of a summary memory: `precomputed` and `topic:<slug>`.
pub fn summary_tags(slug: &str) -> (r: Vec<String>)
    ensures
        r@.len() == 2,
        r@[0]@ == "precomputed"@,
        r@[1]@ == "topic:"@ + slug@,
{
    let mut r: Vec<String> = Vec::new();
    r.push(owned("precomputed"));
    let mut tag: Vec<char> = chars_of("topic:");
    push_str(&mut tag, slug);
    r.push(string_of(tag.as_slice()));
    r
}

pub open spec fn no_sources_reply_v(topic: Seq<char>) -> JsonV {
    JsonV::Object(
            seq![
                ("status"@, JsonV::Str("no_sources"@)),
                ("topic"@, JsonV::Str(topic)),
                ("topic_slug"@, JsonV::Str(slug_s(topic))),
                ("summary_id"@, JsonV::Null),
                ("source_count"@, JsonV::Int(0)),
                ("source_ids"@, JsonV::Array(Seq::empty())),
                (
                    "message"@,
                    JsonV::Str("No memories matched topic `"@ + topic + "`; nothing to precompute."@),
                ),
            ],
        )
}

/// The reply when no memory matched the topic; nothing is written.
pub fn no_sources_reply(topic: &str) -> (r: Json)
    ensures
        r@ == no_sources_reply_v(topic@),
{
    let mut msg: Vec<char> = chars_of("No memories matched topic `");
    push_str(&mut msg, topic);
    push_str(&mut msg, "`; nothing to precompute.");
    let slug = slugify_topic(topic);
    let mut e = new_entries();
    push_entry(&mut e, "status", Json::from_str("no_sources"));
    push_entry(&mut e, "topic", Json::from_str(topic));
    push_entry(&mut e, "topic_slug", Json::Str(slug));
    push_entry(&mut e, "summary_id", Json::Null);
    push_entry(&mut e, "source_count", Json::Int(0));
    push_entry(&mut e, "source_ids", array(Vec::new()));
    push_entry(&mut e, "message", Json::Str(string_of(msg.as_slice())));
    proof {
        assert(crate::json::items_model(Seq::<Json>::empty()) =~= Seq::<JsonV>::empty());
    }
    assert(entries_model(e@) =~= no_sources_reply_v(topic@)->Object_0);
    object(e)
}

/// The decision after the source search: with no sources the call answers
/// the no-sources reply and writes nothing; otherwise `None` and a summary
/// is saved.
pub fn no_sources_guard(topic: &str, sources: &Vec<SourceSnippet>) -> (r: Option<Json>)
    ensures
        sources@.len() == 0 ==> (r matches Some(j) && j@ == no_sources_reply_v(topic@)),
        sources@.len() > 0 ==> r is None,
{
    if sources.len() == 0 {
        Some(no_sources_reply(topic))
    } else {
        None
    }
}

pub open spec fn provenance_v(source_ids: Seq<String>, topic: Seq<char>, slug: Seq<char>, generated_at: Seq<char>, ttl_hours: int) -> JsonV {
    JsonV::Object(
            seq![
                ("derived_from"@, JsonV::Array(strs_model(source_ids))),
                ("topic"@, JsonV::Str(topic)),
                ("topic_slug"@, JsonV::Str(slug)),
                ("generated_at"@, JsonV::Str(generated_at)),
                ("generator"@, JsonV::Str("precompute_for_context"@)),
                ("ttl_hours"@, JsonV::Int(ttl_hours)),
            ],
        )
}

/// The provenance recorded on a summary memory.
pub fn provenance(
    source_ids: &Vec<String>,
    topic: &str,
    slug: &str,
    generated_at: &str,
    ttl_hours: i64,
) -> (r: Json)
    ensures
        r@ == provenance_v(source_ids@, topic@, slug@, generated_at@, ttl_hours as int),
{
    let mut e = new_entries();
    push_entry(&mut e, "derived_from", str_array(source_ids));
    push_entry(&mut e, "topic", Json::from_str(topic));
    push_entry(&mut e, "topic_slug", Json::from_str(slug));
    push_entry(&mut e, "generated_at", Json::from_str(generated_at));
    push_entry(&mut e, "generator", Json::from_str("precompute_for_context"));
    push_entry(&mut e, "ttl_hours", Json::Int(ttl_hours));
    assert(entries_model(e@) =~= provenance_v(source_ids@, topic@, slug@, generated_at@, ttl_hours as int)->Object_0);
    object(e)
}

pub open spec fn saved_reply_v(summary_id: Seq<char>, topic: Seq<char>, slug: Seq<char>, expires_at: Seq<char>, ttl_hours: int, source_ids: Seq<String>, content: Seq<char>) -> JsonV {
    JsonV::Object(
            seq![
                ("status"@, JsonV::Str("saved"@)),
                ("summary_id"@, JsonV::Str(summary_id)),
                ("topic"@, JsonV::Str(topic)),
                ("topic_slug"@, JsonV::Str(slug)),
                ("expires_at"@, JsonV::Str(expires_at)),
                ("ttl_hours"@, JsonV::Int(ttl_hours)),
                ("source_count"@, count_v(source_ids.len())),
                ("source_ids"@, JsonV::Array(strs_model(source_ids))),
                ("preview"@, JsonV::Str(first_chars_s(content, 400))),
            ],
        )
}

/// The lifetime a precompute call asks for reaches its saved reply clamped:
/// `ttl_hours` (or `ttlHours`) is taken within 1..=168 hours, 24 when absent,
/// and the reply built from the request reports exactly that; the sources
/// folded in likewise stay within 1..=20.
pub proof fn law_saved_reply_reports_the_clamped_ttl(
    args: JsonV,
    summary_id: Seq<char>,
    topic: Seq<char>,
    slug: Seq<char>,
    expires_at: Seq<char>,
    source_ids: Seq<String>,
    content: Seq<char>,
)
    ensures
        MIN_TTL_HOURS <= ttl_hours_of(args) <= MAX_TTL_HOURS,
        MIN_TOP_K <= top_k_of(args) <= MAX_TOP_K,
        int_arg(args, "ttl_hours"@, "ttlHours"@) is None ==> ttl_hours_of(args) == DEFAULT_TTL_HOURS,
        int_arg(args, "ttl_hours"@, "ttlHours"@) matches Some(h) ==> ttl_hours_of(args) == clamp_s(
            h,
            MIN_TTL_HOURS as int,
            MAX_TTL_HOURS as int,
        ),
        get_field(
            saved_reply_v(summary_id, topic, slug, expires_at, ttl_hours_of(args), source_ids, content),
            "ttl_hours"@,
        ) == Some(JsonV::Int(ttl_hours_of(args))),
{
    let entries = saved_reply_v(summary_id, topic, slug, expires_at, ttl_hours_of(args), source_ids, content)->Object_0;
    reveal_strlit("status");
    reveal_strlit("summary_id");
    reveal_strlit("topic");
    reveal_strlit("topic_slug");
    reveal_strlit("expires_at");
    reveal_strlit("ttl_hours");
    let k = "ttl_hours"@;
    let e1 = entries.drop_first();
    let e2 = e1.drop_first();
    let e3 = e2.drop_first();
    let e4 = e3.drop_first();
    let e5 = e4.drop_first();
    assert(e5[0].0 == k);
    assert(crate::json::entry_index(e5, k) == Some(0int));
    assert(e4[0].0.len() != k.len());
    assert(crate::json::entry_index(e4, k) == Some(1int));
    assert(e3[0].0.len() != k.len());
    assert(crate::json::entry_index(e3, k) == Some(2int));
    assert(e2[0].0.len() != k.len());
    assert(crate::json::entry_index(e2, k) == Some(3int));
    assert(e1[0].0.len() != k.len());
    assert(crate::json::entry_index(e1, k) == Some(4int));
    assert(entries[0].0.len() != k.len());
    assert(crate::json::entry_index(entries, k) == Some(5int));
}

/// The reply after a summary memory was written.
pub fn saved_reply(
    summary_id: &str,
    topic: &str,
    slug: &str,
    expires_at: &str,
    ttl_hours: i64,
    source_ids: &Vec<String>,
    content: &str,
) -> (r: Json)
    ensures
        r@ == saved_reply_v(summary_id@, topic@, slug@, expires_at@, ttl_hours as int, source_ids@, content@),
{
    let mut e = new_entries();
    push_entry(&mut e, "status", Json::from_str("saved"));
    push_entry(&mut e, "summary_id", Json::from_str(summary_id));
    push_entry(&mut e, "topic", Json::from_str(topic));
    push_entry(&mut e, "topic_slug", Json::from_str(slug));
    push_entry(&mut e, "expires_at", Json::from_str(expires_at));
    push_entry(&mut e, "ttl_hours", Json::Int(ttl_hours));
    push_entry(&mut e, "source_count", count(source_ids.len()));
    push_entry(&mut e, "source_ids", str_array(source_ids));
    push_entry(&mut e, "preview", Json::Str(first_chars(content, 400)));
    assert(entries_model(e@) =~= saved_reply_v(summary_id@, topic@, slug@, expires_at@, ttl_hours as int, source_ids@, content@)->Object_0);
    object(e)
}

} // verus!
