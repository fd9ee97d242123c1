use agio::{
    generate_id, session_from_store, AgentState, ChatMessage, MemoryStore, OpenAIAgentError,
    SessionCache, ToolDefinition, ToolRegistry,
};

fn state(texts: &[&str], tokens: usize) -> AgentState {
    let mut s = AgentState::new();
    for t in texts {
        s.messages.push(ChatMessage::user(t.to_string()));
    }
    s.token_count = tokens;
    s
}

#[test]
fn store_then_load_round_trips() {
    let mut store = MemoryStore::new();
    let s = state(&["a", "b"], 17);
    store.store_conversation("id1", &s);
    let loaded = store.get_conversation("id1").expect("stored");
    assert_eq!(loaded.token_count, 17);
    assert_eq!(loaded.messages.len(), 2);
    assert_eq!(loaded.messages[1].content.as_deref(), Some("b"));
    assert!(store.get_conversation("other").is_none());
}

#[test]
fn store_replaces_transcript_and_keeps_created_at() {
    let mut store = MemoryStore::new();
    store.store_conversation_at("x", &state(&["1", "2", "3"], 5), 100);
    store.store_conversation_at("x", &state(&["only"], 9), 250);
    let loaded = store.get_conversation("x").unwrap();
    assert_eq!(loaded.messages.len(), 1);
    assert_eq!(loaded.token_count, 9);
    let page = store.list_conversations(10, 0);
    assert_eq!(page.len(), 1);
    assert_eq!(page[0].created_at, 100);
    assert_eq!(page[0].updated_at, 250);
    assert_eq!(page[0].message_count, 1);
    assert_eq!(page[0].token_count, 9);
    assert_eq!(page[0].id, "x");
}

#[test]
fn list_orders_by_recency_and_pages() {
    let mut store = MemoryStore::default();
    store.store_conversation_at("old", &state(&["a"], 1), 10);
    store.store_conversation_at("new", &state(&["a"], 1), 30);
    store.store_conversation_at("mid", &state(&["a"], 1), 20);
    let ids: Vec<String> = store.list_conversations(10, 0).into_iter().map(|m| m.id).collect();
    assert_eq!(ids, vec!["new", "mid", "old"]);
    let ids: Vec<String> = store.list_conversations(1, 1).into_iter().map(|m| m.id).collect();
    assert_eq!(ids, vec!["mid"]);
    assert_eq!(store.list_conversations(5, 2).len(), 1);
    assert!(store.list_conversations(5, 3).is_empty());
    assert!(store.list_conversations(5, 100).is_empty());
    assert!(store.list_conversations(0, 0).is_empty());
    assert_eq!(store.list_conversations(usize::MAX, 1).len(), 2);
}

#[test]
fn delete_then_get_is_not_found_and_unlisted() {
    let mut store = MemoryStore::new();
    let mut cache: SessionCache<u8> = SessionCache::new(4);
    store.store_conversation("gone", &state(&["hello"], 3));
    store.store_conversation("kept", &state(&["hello"], 3));
    cache.insert("gone".to_string(), 1);
    cache.remove("gone");
    store.delete_conversation("gone");
    store.delete_conversation("never-there");
    assert!(cache.get("gone").is_none());
    match session_from_store("gone", store.get_conversation("gone")) {
        Err(OpenAIAgentError::Agent(m)) => assert_eq!(m, "Agent not found: gone"),
        _ => panic!("expected not found"),
    }
    let listed: Vec<String> = store.list_conversations(10, 0).into_iter().map(|m| m.id).collect();
    assert_eq!(listed, vec!["kept"]);
}

#[test]
fn cache_evicts_oldest_and_reloads_from_store() {
    let capacity = 3;
    let mut store = MemoryStore::new();
    let mut cache: SessionCache<usize> = SessionCache::new(capacity);
    let mut ids = Vec::new();
    let mut evicted_all = Vec::new();
    for i in 0..capacity + 2 {
        let id = generate_id();
        store.store_conversation(&id, &state(&["seed"], i));
        evicted_all.extend(cache.insert(id.clone(), i));
        ids.push(id);
    }
    assert_eq!(cache.len(), capacity);
    assert_eq!(evicted_all, vec![ids[0].clone(), ids[1].clone()]);
    assert!(!cache.contains(&ids[0]));
    assert_eq!(cache.get(&ids[4]), Some(&4));
    let reloaded = session_from_store(&ids[0], store.get_conversation(&ids[0])).unwrap();
    assert_eq!(reloaded.token_count, 0);
    assert_eq!(reloaded.messages.len(), 1);
}

#[test]
fn cache_reinsert_keeps_place_and_zero_capacity_keeps_nothing() {
    let mut cache: SessionCache<u8> = SessionCache::new(2);
    cache.insert("a".to_string(), 1);
    cache.insert("b".to_string(), 2);
    assert!(cache.insert("a".to_string(), 3).is_empty());
    assert_eq!(cache.get("a"), Some(&3));
    assert_eq!(cache.insert("c".to_string(), 4), vec!["a".to_string()]);
    assert_eq!(cache.capacity(), 2);
    let mut none: SessionCache<u8> = SessionCache::new(0);
    assert_eq!(none.insert("z".to_string(), 1), vec!["z".to_string()]);
    assert_eq!(none.len(), 0);
}

#[test]
fn ids_are_fresh() {
    let a = generate_id();
    let b = generate_id();
    assert_ne!(a, b);
    assert_eq!(a.len(), 36);
}

#[test]
fn registry_last_registration_wins() {
    let def = |name: &str, desc: &str| ToolDefinition {
        name: name.to_string(),
        description: desc.to_string(),
        parameters: "{}".to_string(),
        strict: None,
    };
    let mut reg = ToolRegistry::new();
    assert!(reg.is_empty());
    reg.register(def("t", "first"), 1u8);
    reg.register(def("u", "other"), 2u8);
    reg.register(def("t", "second"), 3u8);
    assert_eq!(reg.len(), 2);
    assert_eq!(reg.get("t"), Some(&3));
    assert_eq!(reg.get("u"), Some(&2));
    assert_eq!(reg.get("v"), None);
    let defs = reg.definitions();
    assert_eq!(defs.len(), 2);
    let t = defs.iter().find(|d| d.function.name == "t").unwrap();
    assert_eq!(t.function.description, "second");
    assert!(defs.iter().all(|d| d.tool_type == "function"));
}
