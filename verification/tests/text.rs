use bob_fusion::text::{handler_short_name, route_for_exec, templated_route_exec};

#[test]
fn parameters_become_templates() {
    assert_eq!(templated_route_exec("/users/:id/posts/:post"), "/users/{id}/posts/{post}");
    assert_eq!(templated_route_exec(":id"), "{id}");
    assert_eq!(templated_route_exec("/:"), "/{}");
}

#[test]
fn plain_routes_are_unchanged() {
    assert_eq!(templated_route_exec("/context/"), "/context/");
    assert_eq!(templated_route_exec(""), "");
    assert_eq!(templated_route_exec("//a//"), "//a//");
    assert_eq!(templated_route_exec("/a:b/c"), "/a:b/c");
}

#[test]
fn non_ascii_segments() {
    assert_eq!(templated_route_exec("/über/:straße"), "/über/{straße}");
}

#[test]
fn route_under_context_path() {
    assert_eq!(route_for_exec("/api/v1", "/hello"), "/api/v1/hello");
    assert_eq!(route_for_exec("/context", "/"), "/context/");
    assert_eq!(route_for_exec("", "/items/:id"), "/items/{id}");
}

#[test]
fn handler_names() {
    assert_eq!(
        handler_short_name("bob_fusion_scheduler::rest::hello"),
        Some("hello".to_string())
    );
    assert_eq!(handler_short_name("hello"), None);
    assert_eq!(handler_short_name("a::"), Some("".to_string()));
    assert_eq!(handler_short_name(""), None);
}
