use claw_core::models::TaskEntry;

#[test]
fn agent_id_hint_extraction() {
    let t = TaskEntry {
        owner_key: Some("agent:ada:subagent:foo".into()),
        ..TaskEntry::default()
    };
    assert_eq!(t.agent_id_hint(), Some("ada"));
}

#[test]
fn agent_id_hint_falls_back_to_requester_then_child() {
    let t = TaskEntry {
        requester_session_key: Some("agent:bob:main".into()),
        child_session_key: Some("agent:cid:x".into()),
        ..TaskEntry::default()
    };
    assert_eq!(t.agent_id_hint(), Some("bob"));
    let t = TaskEntry { child_session_key: Some("agent:cid".into()), ..TaskEntry::default() };
    assert_eq!(t.agent_id_hint(), Some("cid"));
    let t = TaskEntry { owner_key: Some("nocolon".into()), ..TaskEntry::default() };
    assert_eq!(t.agent_id_hint(), None);
    let t = TaskEntry { owner_key: Some("a::b".into()), ..TaskEntry::default() };
    assert_eq!(t.agent_id_hint(), Some(""));
    assert_eq!(TaskEntry::default().agent_id_hint(), None);
}
