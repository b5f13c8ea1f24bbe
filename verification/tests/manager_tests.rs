use whatsmeow::error::Error;
use whatsmeow::manager::WhatsAppManager;

#[test]
fn spawning_a_duplicate_identifier_fails_and_keeps_one_entry() {
    let mut m: WhatsAppManager<u32> = WhatsAppManager::new();
    assert!(m.spawn("alpha".to_string(), 1).is_ok());
    assert!(matches!(m.spawn("alpha".to_string(), 2), Err(Error::Init(_))));
    assert_eq!(m.count(), 1);
    assert_eq!(m.get("alpha"), Some(&1));
}

#[test]
fn get_finds_only_registered_identifiers() {
    let mut m: WhatsAppManager<&'static str> = WhatsAppManager::new();
    assert!(m.spawn("a".to_string(), "first").is_ok());
    assert!(m.spawn("b".to_string(), "second").is_ok());
    assert_eq!(m.get("a"), Some(&"first"));
    assert_eq!(m.get("b"), Some(&"second"));
    assert_eq!(m.get("c"), None);
}

#[test]
fn shutdown_removes_exactly_the_named_entry() {
    let mut m: WhatsAppManager<u32> = WhatsAppManager::new();
    assert!(m.spawn("a".to_string(), 1).is_ok());
    assert!(m.spawn("b".to_string(), 2).is_ok());
    assert_eq!(m.shutdown("a"), Some(1));
    assert_eq!(m.count(), 1);
    assert_eq!(m.get("a"), None);
    assert_eq!(m.get("b"), Some(&2));
    assert_eq!(m.shutdown("a"), None);
    assert_eq!(m.count(), 1);
}

#[test]
fn shutdown_all_clears_the_registry_in_order() {
    let mut m: WhatsAppManager<u32> = WhatsAppManager::new();
    assert!(m.spawn("a".to_string(), 10).is_ok());
    assert!(m.spawn("b".to_string(), 20).is_ok());
    assert!(m.spawn("c".to_string(), 30).is_ok());
    assert_eq!(m.list(), vec!["a".to_string(), "b".to_string(), "c".to_string()]);
    assert_eq!(m.shutdown_all(), vec![10, 20, 30]);
    assert_eq!(m.count(), 0);
    assert_eq!(m.list(), Vec::<String>::new());
    assert!(m.spawn("a".to_string(), 40).is_ok());
    assert_eq!(m.get("a"), Some(&40));
}
