use storm_grok::registry::ClientRegistry;
use storm_grok::tunnel_id::TunnelId;

#[test]
fn new_registry_is_empty() {
    let registry = ClientRegistry::new();
    assert_eq!(registry.len(), 0);
    assert_eq!(registry.lookup(TunnelId::new(1)), None);
    assert!(!registry.contains(TunnelId::new(1)));
}

#[test]
fn insert_then_lookup_finds_the_address() {
    let mut registry = ClientRegistry::new();
    registry.insert(TunnelId::new(1), "127.0.0.1:1025".to_string());
    assert_eq!(registry.lookup(TunnelId::new(1)), Some("127.0.0.1:1025".to_string()));
    assert!(registry.contains(TunnelId::new(1)));
    assert_eq!(registry.lookup(TunnelId::new(2)), None);
    assert_eq!(registry.len(), 1);
}

#[test]
fn insert_replaces_an_earlier_address() {
    let mut registry = ClientRegistry::new();
    registry.insert(TunnelId::new(1), String::new());
    registry.insert(TunnelId::new(1), "127.0.0.1:1026".to_string());
    assert_eq!(registry.lookup(TunnelId::new(1)), Some("127.0.0.1:1026".to_string()));
    assert_eq!(registry.len(), 1);
}

#[test]
fn remove_is_idempotent() {
    let mut registry = ClientRegistry::new();
    registry.insert(TunnelId::new(1), "a".to_string());
    registry.insert(TunnelId::new(2), "b".to_string());
    registry.remove(TunnelId::new(1));
    assert_eq!(registry.lookup(TunnelId::new(1)), None);
    assert_eq!(registry.len(), 1);
    registry.remove(TunnelId::new(1));
    assert_eq!(registry.len(), 1);
    assert_eq!(registry.lookup(TunnelId::new(2)), Some("b".to_string()));
}

#[test]
fn register_uses_the_wanted_id_when_free() {
    let mut registry = ClientRegistry::new();
    let id = registry.register(TunnelId::new(7), TunnelId::new(8), "x".to_string());
    assert_eq!(id, TunnelId::new(7));
    assert_eq!(registry.lookup(id), Some("x".to_string()));
    assert!(!registry.contains(TunnelId::new(8)));
}

#[test]
fn register_falls_back_on_collision() {
    let mut registry = ClientRegistry::new();
    registry.insert(TunnelId::new(7), "first".to_string());
    let id = registry.register(TunnelId::new(7), TunnelId::new(8), "second".to_string());
    assert_eq!(id, TunnelId::new(8));
    assert_eq!(registry.lookup(TunnelId::new(7)), Some("first".to_string()));
    assert_eq!(registry.lookup(TunnelId::new(8)), Some("second".to_string()));
    assert_eq!(registry.len(), 2);
}
