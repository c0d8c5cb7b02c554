use kowalski_rlm::conversation::Conversation;
use kowalski_rlm::conversation_manager::ConversationManager;

#[test]
fn test_conversation_lru_eviction() {
    let mut manager = ConversationManager::new(2);

    let mut conv1 = Conversation::new("model");
    conv1.add_message("user", "Hello");
    manager.insert("conv1".to_string(), conv1);

    let mut conv2 = Conversation::new("model");
    conv2.add_message("user", "Hi");
    manager.insert("conv2".to_string(), conv2);

    assert_eq!(manager.len(), 2);
    assert!(manager.contains("conv1"));
    assert!(manager.contains("conv2"));

    // Third conversation should evict first
    let mut conv3 = Conversation::new("model");
    conv3.add_message("user", "Hey");
    manager.insert("conv3".to_string(), conv3);

    assert_eq!(manager.len(), 2);
    assert!(!manager.contains("conv1")); // Evicted
    assert!(manager.contains("conv2"));
    assert!(manager.contains("conv3"));
}

#[test]
fn test_insert_and_get() {
    let mut manager = ConversationManager::new(10);
    let mut conversation = Conversation::new("model");
    conversation.add_message("user", "test");

    manager.insert("id1".to_string(), conversation.clone());

    assert!(manager.contains("id1"));
    let retrieved = manager.get("id1").unwrap();
    assert_eq!(retrieved.id, "id1");
    assert_eq!(retrieved.model, "model");
}

#[test]
fn test_get_mut_updates_lru() {
    let mut manager = ConversationManager::new(3);

    let mut conv1 = Conversation::new("model");
    conv1.add_message("user", "First");
    manager.insert("id1".to_string(), conv1);

    let mut conv2 = Conversation::new("model");
    conv2.add_message("user", "Second");
    manager.insert("id2".to_string(), conv2);

    let mut conv3 = Conversation::new("model");
    conv3.add_message("user", "Third");
    manager.insert("id3".to_string(), conv3);

    // Access conv1 (should move to end)
    if let Some(conv) = manager.get_mut("id1") {
        conv.add_message("user", "Updated");
    }

    let ids = manager.list_ids();
    assert_eq!(
        ids,
        vec!["id2".to_string(), "id3".to_string(), "id1".to_string()]
    );
}

#[test]
fn test_remove() {
    let mut manager = ConversationManager::new(10);
    let conversation = Conversation::new("model");
    manager.insert("id1".to_string(), conversation);

    assert!(manager.contains("id1"));
    manager.remove("id1");
    assert!(!manager.contains("id1"));
}

#[test]
fn test_list_ids() {
    let mut manager = ConversationManager::new(10);

    manager.insert("id1".to_string(), Conversation::new("model"));
    manager.insert("id2".to_string(), Conversation::new("model"));
    manager.insert("id3".to_string(), Conversation::new("model"));

    let ids = manager.list_ids();
    assert_eq!(ids.len(), 3);
    assert!(ids.contains(&"id1".to_string()));
}

#[test]
fn test_capacity_limit() {
    let manager = ConversationManager::new(5);
    assert_eq!(manager.capacity(), 5);
}

#[test]
fn test_is_empty() {
    let mut manager = ConversationManager::new(10);
    assert!(manager.is_empty());

    manager.insert("id1".to_string(), Conversation::new("model"));
    assert!(!manager.is_empty());

    manager.clear();
    assert!(manager.is_empty());
}

#[test]
fn test_list_all_preserves_order() {
    let mut manager = ConversationManager::new(10);

    manager.insert("id1".to_string(), Conversation::new("model"));
    manager.insert("id2".to_string(), Conversation::new("model"));
    manager.insert("id3".to_string(), Conversation::new("model"));

    let all = manager.list_all();
    assert_eq!(all.len(), 3);
    assert_eq!(all[0].id, "id1");
    assert_eq!(all[1].id, "id2");
    assert_eq!(all[2].id, "id3");
}

#[test]
fn reinsert_moves_to_most_recent() {
    let mut manager = ConversationManager::new(3);
    manager.insert("a".to_string(), Conversation::new("m1"));
    manager.insert("b".to_string(), Conversation::new("m2"));
    manager.insert("a".to_string(), Conversation::new("m3"));
    assert_eq!(manager.list_ids(), vec!["b".to_string(), "a".to_string()]);
    assert_eq!(manager.get("a").unwrap().model, "m3");
    assert_eq!(manager.len(), 2);
    let removed = manager.remove("b").unwrap();
    assert_eq!(removed.model, "m2");
    assert!(manager.remove("b").is_none());
    assert!(manager.get_mut("zzz").is_none());
    assert_eq!(manager.list_ids(), vec!["a".to_string()]);
}

#[test]
fn capacity_is_kept_over_many_inserts() {
    let mut manager = ConversationManager::new(2);
    for i in 0..10 {
        manager.insert(format!("c{}", i), Conversation::new("model"));
        assert!(manager.len() <= 2);
    }
    assert_eq!(manager.list_ids(), vec!["c8".to_string(), "c9".to_string()]);
}

#[test]
fn removed_ids_are_gone() {
    let mut manager = ConversationManager::new(5);
    for id in ["a", "b", "c", "b", "a"] {
        manager.insert(id.to_string(), Conversation::new(id));
    }
    assert_eq!(manager.list_ids(), vec!["c".to_string(), "b".to_string(), "a".to_string()]);
    let taken = manager.remove("b").unwrap();
    assert_eq!(taken.model, "b");
    assert!(!manager.contains("b"));
    assert!(manager.get("b").is_none());
    assert_eq!(manager.list_ids(), vec!["c".to_string(), "a".to_string()]);
    assert_eq!(manager.len(), 2);
    assert!(manager.remove("b").is_none());
    assert_eq!(manager.len(), 2);
    assert_eq!(manager.list_all().len(), 2);
}
