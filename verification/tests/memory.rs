use vestige_mcp::memory::{
    batch_reply, check_edit_content, content_preview, delete_reply, edit_reply, memory_request,
    not_found_reply, state_description, state_name, state_of, MemoryAction, MemoryArgs, MemoryState,
};
use vestige_mcp::json::Json;

const ID: &str = "67e55044-10b1-426f-9247-bb680e5fe0c8";

fn args(action: &str, id: Option<&str>, ids: Option<Vec<&str>>) -> MemoryArgs {
    MemoryArgs {
        action: action.to_string(),
        id: id.map(String::from),
        ids: ids.map(|v| v.into_iter().map(String::from).collect()),
        reason: None,
        content: None,
        rating: None,
    }
}

#[test]
fn single_actions_need_a_uuid() {
    let q = memory_request(&args("get", Some(ID), None)).ok().unwrap();
    assert_eq!(q.action, MemoryAction::Get);
    assert_eq!(q.ids, vec![ID.to_string()]);
    assert_eq!(
        memory_request(&args("get", None, None)).err().unwrap(),
        "This action requires 'id' parameter"
    );
    assert_eq!(
        memory_request(&args("get", Some("not-a-uuid"), None)).err().unwrap(),
        "Invalid memory ID format"
    );
    assert_eq!(
        memory_request(&args("explode", Some(ID), None)).err().unwrap(),
        "Invalid action 'explode'. Must be one of: get, get_batch, delete, state, promote, demote, edit, review"
    );
    assert_eq!(memory_request(&args("review", Some(ID), None)).ok().unwrap().action, MemoryAction::Review);
}

#[test]
fn batch_reads_take_one_to_twenty_uuids() {
    assert_eq!(
        memory_request(&args("get_batch", None, None)).err().unwrap(),
        "get_batch requires 'ids' array"
    );
    assert_eq!(
        memory_request(&args("get_batch", None, Some(vec![]))).err().unwrap(),
        "ids array cannot be empty"
    );
    let many = vec![ID; 21];
    assert_eq!(
        memory_request(&args("get_batch", None, Some(many))).err().unwrap(),
        "get_batch supports max 20 IDs per call"
    );
    assert_eq!(
        memory_request(&args("get_batch", None, Some(vec![ID, "bad", "worse"]))).err().unwrap(),
        "Invalid memory ID format: bad"
    );
    let q = memory_request(&args("get_batch", None, Some(vec![ID, ID]))).ok().unwrap();
    assert_eq!(q.action, MemoryAction::GetBatch);
    assert_eq!(q.ids.len(), 2);
}

#[test]
fn edit_checks_and_previews() {
    assert_eq!(
        check_edit_content(None).err().unwrap(),
        "Missing 'content' field. Required for edit action."
    );
    assert_eq!(check_edit_content(Some("  ")).err().unwrap(), "Content cannot be empty");
    assert!(check_edit_content(Some("new")).is_ok());
    let long = "x".repeat(250);
    assert_eq!(content_preview(&long), format!("{}...", "x".repeat(197)));
    assert_eq!(content_preview("short"), "short");
    let r = edit_reply(ID, "old", "new");
    assert_eq!(r.get("oldContentPreview").unwrap().as_str(), Some("old"));
    assert_eq!(r.get("action").unwrap().as_str(), Some("edit"));
}

#[test]
fn delete_and_read_replies() {
    let r = delete_reply(ID, false);
    assert_eq!(r.get("message").unwrap().as_str(), Some("Memory not found"));
    assert_eq!(r.get("success").unwrap().as_bool(), Some(false));
    let r = not_found_reply(ID);
    assert_eq!(r.get("found").unwrap().as_bool(), Some(false));
    let b = batch_reply(vec![Json::Null], &vec!["gone".to_string()]);
    assert_eq!(b.get("found").unwrap().as_u64(), Some(1));
    assert_eq!(b.get("notFound").unwrap().as_array().unwrap().len(), 1);
}

#[test]
fn accessibility_tiers_read_from_the_top() {
    assert_eq!(state_of(true, true, true), MemoryState::Active);
    assert_eq!(state_of(false, true, true), MemoryState::Dormant);
    assert_eq!(state_of(false, false, true), MemoryState::Silent);
    assert_eq!(state_of(false, false, false), MemoryState::Unavailable);
    assert_eq!(state_name(MemoryState::Dormant), "Dormant");
    assert_eq!(
        state_description(MemoryState::Silent),
        "Difficult to retrieve - exists but hard to access"
    );
}
