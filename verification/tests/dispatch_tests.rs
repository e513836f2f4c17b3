use storm_grok::dispatch::{
    default_reply, host_label, not_found_reply, proxy_failure_reply, resolve_uuid_from_host, route,
    route_for, Route,
};
use storm_grok::registry::ClientRegistry;
use storm_grok::tunnel_id::TunnelId;

#[test]
fn label_is_what_stands_before_the_first_dot() {
    assert_eq!(host_label("abc.localhost:3000"), "abc");
    assert_eq!(host_label("localhost"), "localhost");
    assert_eq!(host_label(""), "");
    assert_eq!(host_label(".example"), "");
    assert_eq!(host_label("a.b.c"), "a");
    assert_eq!(host_label("h\u{e9}.x"), "h\u{e9}");
}

#[test]
fn host_with_uuid_label_names_a_tunnel() {
    assert_eq!(
        resolve_uuid_from_host("550e8400-e29b-41d4-a716-446655440000.localhost:3000"),
        Some(TunnelId::new(0x550e8400e29b41d4a716446655440000))
    );
    assert_eq!(
        resolve_uuid_from_host("550e8400-e29b-41d4-a716-446655440000"),
        Some(TunnelId::new(0x550e8400e29b41d4a716446655440000))
    );
}

#[test]
fn host_without_uuid_label_names_none() {
    assert_eq!(resolve_uuid_from_host("localhost:3000"), None);
    assert_eq!(resolve_uuid_from_host("www.stormgrok.nl"), None);
    assert_eq!(resolve_uuid_from_host(""), None);
    assert_eq!(resolve_uuid_from_host("127.0.0.1:3000"), None);
}

#[test]
fn unknown_subdomain_is_not_found() {
    let registry = ClientRegistry::new();
    let r = route("00000000-0000-0000-0000-000000000000.localhost:3000", &registry);
    assert!(matches!(r, Route::NotFound));
    let reply = not_found_reply();
    assert_eq!(reply.status, 404);
    assert_eq!(reply.body, "No active client found\n");
}

#[test]
fn registered_tunnel_is_forwarded_to_its_listener() {
    let mut registry = ClientRegistry::new();
    let id = TunnelId::new(0x550e8400e29b41d4a716446655440000);
    registry.insert(id, "127.0.0.1:1025".to_string());
    match route("550e8400-e29b-41d4-a716-446655440000.localhost:3000", &registry) {
        Route::Forward { target } => assert_eq!(target, "http://127.0.0.1:1025"),
        other => panic!("unexpected route {:?}", other),
    }
    match route_for(Some(id), &registry) {
        Route::Forward { target } => assert_eq!(target, "http://127.0.0.1:1025"),
        other => panic!("unexpected route {:?}", other),
    }
}

#[test]
fn host_that_names_no_tunnel_gets_the_default_handler() {
    let registry = ClientRegistry::new();
    assert!(matches!(route("localhost:3000", &registry), Route::Default));
    assert!(matches!(route_for(None, &registry), Route::Default));
    assert_eq!(default_reply().status, 200);
    assert!(!default_reply().body.is_empty());
}

#[test]
fn proxy_failure_is_500_without_body() {
    let reply = proxy_failure_reply();
    assert_eq!(reply.status, 500);
    assert_eq!(reply.body, "");
}
