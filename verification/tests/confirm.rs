use vestige_mcp::confirm::{is_confirmed, missing_confirmation_error};
use vestige_mcp::json::Json;

fn obj(entries: Vec<(&str, Json)>) -> Json {
    Json::Object(entries.into_iter().map(|(k, v)| (k.to_string(), v)).collect())
}

#[test]
fn confirmed_true_passes() {
    let args = obj(vec![("confirmed", Json::Bool(true))]);
    assert!(is_confirmed(&args));
}

#[test]
fn camel_case_alias_also_passes() {
    let args = obj(vec![("acknowledgeDestruction", Json::Bool(true))]);
    assert!(is_confirmed(&args));
}

#[test]
fn missing_field_does_not_pass() {
    let args = obj(vec![("some_other_field", Json::Bool(true))]);
    assert!(!is_confirmed(&args));
}

#[test]
fn explicit_false_does_not_pass() {
    let args = obj(vec![("confirmed", Json::Bool(false))]);
    assert!(!is_confirmed(&args));
}

#[test]
fn string_true_is_not_accepted_to_avoid_hallucinated_flags() {
    let args = obj(vec![("confirmed", Json::Str("true".to_string()))]);
    assert!(!is_confirmed(&args));
}

#[test]
fn missing_confirmation_error_mentions_operation_and_flag() {
    let msg = missing_confirmation_error("gc", "This will permanently delete 42 memories.");
    assert!(msg.contains("`gc`"), "must mention the operation: {msg}");
    assert!(
        msg.contains("confirmed: true"),
        "must mention the flag: {msg}"
    );
    assert!(
        msg.contains("requestedSchema"),
        "must include elicitation schema: {msg}"
    );
    assert!(
        msg.contains("permanently delete 42 memories"),
        "must echo the human summary: {msg}",
    );
}

#[test]
fn refusal_is_a_tool_error_not_a_fabricated_protocol_code() {
    let msg = missing_confirmation_error("gc", "Deletes data.");
    assert!(
        !msg.contains("-32002"),
        "the refusal must not carry the ResourceNotFound code: {msg}"
    );
    assert!(
        !msg.contains("\"code\""),
        "a tool result carries no JSON-RPC error code: {msg}"
    );
}

#[test]
fn refusal_text_is_exact_and_drops_trailing_full_stops() {
    let msg = missing_confirmation_error("erase", "Irreversible...");
    assert_eq!(
        msg,
        "Destructive operation `erase` requires explicit confirmation. Irreversible \
         Re-issue the call with `confirmed: true` once the user has agreed. requestedSchema: \
         {\"type\":\"object\",\"required\":[\"confirmed\"],\"properties\":{\"confirmed\":\
         {\"type\":\"boolean\",\"const\":true,\"description\":\"User has reviewed the impact \
         and authorises the destructive action.\"}}}"
    );
}

#[test]
fn non_object_arguments_are_never_confirmed() {
    assert!(!is_confirmed(&Json::Bool(true)));
    assert!(!is_confirmed(&Json::Null));
}
