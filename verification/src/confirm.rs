//! The confirmation gate in front of destructive tools.
//!
//! A destructive tool runs its destructive variant only when the caller
//! passes `confirmed: true` (or `acknowledgeDestruction: true`); otherwise it
//! answers with [`missing_confirmation_error`], a tool error the model reads
//! and acts on.

use vstd::prelude::*;
use crate::json::{bool_of, get_field, Json, JsonV};
use crate::text::{chars_of, push_chars, push_str, string_of};

verus! {

broadcast use vstd::string::group_string_axioms;

/// The caller confirmed: `confirmed` or `acknowledgeDestruction` is the
/// literal boolean `true`. Missing fields, `false`, strings and numbers do
/// not count.
pub open spec fn confirmed_s(args: JsonV) -> bool {
    bool_of(get_field(args, "confirmed"@)) == Some(true) || bool_of(
        get_field(args, "acknowledgeDestruction"@),
    ) == Some(true)
}

/// Whether the arguments carry an explicit confirmation.
pub fn is_confirmed(args: &Json) -> (r: bool)
    ensures
        r == confirmed_s(args@),
{
    let a = match args.get("confirmed") {
        Some(v) => v.as_bool(),
        None => None,
    };
    if a == Some(true) {
        return true;
    }
    let b = match args.get("acknowledgeDestruction") {
        Some(v) => v.as_bool(),
        None => None,
    };
    b == Some(true)
}

/// `str::trim_end_matches('.')`.
pub open spec fn trim_end_dots(s: Seq<char>) -> Seq<char>
    decreases s.len(),
{
    if s.len() > 0 && s.last() == '.' {
        trim_end_dots(s.drop_last())
    } else {
        s
    }
}

/// The refusal text for an unconfirmed destructive call.
pub open spec fn refusal_text(operation: Seq<char>, summary: Seq<char>) -> Seq<char> {
    "Destructive operation `"@ + operation + "` requires explicit confirmation. "@
        + trim_end_dots(summary)
        + " Re-issue the call with `confirmed: true` once the user has agreed. requestedSchema: {\"type\":\"object\",\"required\":[\"confirmed\"],\"properties\":{\"confirmed\":{\"type\":\"boolean\",\"const\":true,\"description\":\"User has reviewed the impact and authorises the destructive action.\"}}}"@
}

pub open spec fn one_line(s: Seq<char>) -> bool {
    forall|i: int| 0 <= i < s.len() ==> #[trigger] s[i] != '\n'
}

proof fn lemma_trim_end_dots_prefix(s: Seq<char>)
    ensures
        trim_end_dots(s).len() <= s.len(),
        trim_end_dots(s) == s.take(trim_end_dots(s).len() as int),
    decreases s.len(),
{
    if s.len() > 0 && s.last() == '.' {
        lemma_trim_end_dots_prefix(s.drop_last());
        let t = trim_end_dots(s.drop_last());
        assert(s.drop_last().take(t.len() as int) =~= s.take(t.len() as int));
    } else {
        assert(s.take(s.len() as int) =~= s);
    }
}

/// A refusal is one line of text whenever the operation name and the
/// summary are: the message never breaks a log line or a one-line client.
pub proof fn law_refusal_is_one_line(operation: Seq<char>, summary: Seq<char>)
    requires
        one_line(operation),
        one_line(summary),
    ensures
        one_line(refusal_text(operation, summary)),
{
    let head = "Destructive operation `"@;
    let mid = "` requires explicit confirmation. "@;
    let tail = " Re-issue the call with `confirmed: true` once the user has agreed. requestedSchema: {\"type\":\"object\",\"required\":[\"confirmed\"],\"properties\":{\"confirmed\":{\"type\":\"boolean\",\"const\":true,\"description\":\"User has reviewed the impact and authorises the destructive action.\"}}}"@;
    reveal_strlit("Destructive operation `");
    reveal_strlit("` requires explicit confirmation. ");
    reveal_strlit(" Re-issue the call with `confirmed: true` once the user has agreed. requestedSchema: {\"type\":\"object\",\"required\":[\"confirmed\"],\"properties\":{\"confirmed\":{\"type\":\"boolean\",\"const\":true,\"description\":\"User has reviewed the impact and authorises the destructive action.\"}}}");
    lemma_trim_end_dots_prefix(summary);
    let t = trim_end_dots(summary);
    assert(one_line(head));
    assert(one_line(mid));
    assert(one_line(tail));
    assert(one_line(t)) by {
        assert forall|i: int| 0 <= i < t.len() implies #[trigger] t[i] != '\n' by {
            assert(t[i] == summary[i]);
        }
    }
    let whole = head + operation + mid + t + tail;
    assert forall|i: int| 0 <= i < whole.len() implies #[trigger] whole[i] != '\n' by {
        let a = head + operation;
        let b = a + mid;
        let c = b + t;
        if i < head.len() {
            assert(whole[i] == head[i]);
        } else if i < a.len() {
            assert(whole[i] == operation[i - head.len()]);
        } else if i < b.len() {
            assert(whole[i] == mid[i - a.len()]);
        } else if i < c.len() {
            assert(whole[i] == t[i - b.len()]);
        } else {
            assert(whole[i] == tail[i - c.len()]);
        }
    }
}

/// The error a destructive tool returns when the caller did not confirm: one
/// line naming the operation, the caller's summary of the impact (trailing
/// full stops removed), the flag to pass, and the elicitation schema a client
/// can render, as text.
pub fn missing_confirmation_error(operation: &str, summary: &str) -> (r: String)
    ensures
        r@ == refusal_text(operation@, summary@),
{
    let s = chars_of(summary);
    let mut end = s.len();
    proof {
        assert(s@.take(end as int) =~= s@);
    }
    while end > 0 && s[end - 1] == '.'
        invariant
            0 <= end <= s@.len(),
            trim_end_dots(s@) == trim_end_dots(s@.take(end as int)),
        decreases end,
    {
        proof {
            assert(s@.take(end as int).drop_last() =~= s@.take(end - 1));
        }
        end = end - 1;
    }
    let trimmed = crate::text::copy_range(&s, 0, end);
    let mut out = chars_of("Destructive operation `");
    push_str(&mut out, operation);
    push_str(&mut out, "` requires explicit confirmation. ");
    push_chars(&mut out, &trimmed);
    push_str(
        &mut out,
        " Re-issue the call with `confirmed: true` once the user has agreed. requestedSchema: {\"type\":\"object\",\"required\":[\"confirmed\"],\"properties\":{\"confirmed\":{\"type\":\"boolean\",\"const\":true,\"description\":\"User has reviewed the impact and authorises the destructive action.\"}}}",
    );
    proof {
        assert(s@.take(s@.len() as int) =~= s@);
        assert(trimmed@ =~= s@.take(end as int));
    }
    string_of(out.as_slice())
}

} // verus!
