use rrythm_http::{
    api_routes, dispatch, find_route, handle, health, root, Addr, Builder, ContentType,
    CorsPolicy, HandlerId, Method, Route, ServerState, StateProvider,
};

fn same_bindings(a: &[Route], b: &[Route]) -> bool {
    a.len() == b.len()
        && a.iter().zip(b.iter()).all(|(x, y)| {
            x.method == y.method && x.path == y.path && x.handler == y.handler
        })
}

#[test]
fn api_routes_bindings() {
    let routes = api_routes::<ServerState>();
    assert_eq!(routes.len(), 2);
    assert_eq!(routes[0].method, Method::Get);
    assert_eq!(routes[0].path, "/");
    assert_eq!(routes[0].handler, HandlerId::Root);
    assert_eq!(routes[1].method, Method::Get);
    assert_eq!(routes[1].path, "/health");
    assert_eq!(routes[1].handler, HandlerId::Health);
}

#[test]
fn api_routes_composed_twice_identical() {
    let first = api_routes::<ServerState>();
    let second = api_routes::<ServerState>();
    assert!(same_bindings(&first, &second));
}

#[test]
fn root_response_exact() {
    let r = root();
    assert_eq!(r.status, 200);
    assert_eq!(r.content_type, ContentType::Html);
    assert_eq!(r.body, "<h1>Hello, world!</h1>");
}

#[test]
fn health_response_exact() {
    let r = health();
    assert_eq!(r.status, 200);
    assert_eq!(r.content_type, ContentType::PlainText);
    assert_eq!(r.body, "OK");
}

#[test]
fn handle_matches_handlers() {
    let r = handle(HandlerId::Root);
    assert_eq!(r.body, "<h1>Hello, world!</h1>");
    let h = handle(HandlerId::Health);
    assert_eq!(h.body, "OK");
}

#[test]
fn application_mounts_under_api() {
    let server = Builder::new().addr(Addr::v4(127, 0, 0, 1, 3000)).build().unwrap();
    let app = server.application();
    assert_eq!(app.addr, Addr::v4(127, 0, 0, 1, 3000));
    assert_eq!(app.cors, CorsPolicy::Permissive);
    assert_eq!(app.routes.len(), 2);
    assert_eq!(app.routes[0].path, "/api/");
    assert_eq!(app.routes[0].handler, HandlerId::Root);
    assert_eq!(app.routes[1].path, "/api/health");
    assert_eq!(app.routes[1].handler, HandlerId::Health);
}

#[test]
fn find_route_hits_and_misses() {
    let server = Builder::default().build().unwrap();
    let app = server.application();
    assert_eq!(find_route(&app.routes, Method::Get, "/api/health"), Some(HandlerId::Health));
    assert_eq!(find_route(&app.routes, Method::Get, "/api/"), Some(HandlerId::Root));
    assert_eq!(find_route(&app.routes, Method::Get, "/api/nope"), None);
    assert_eq!(find_route(&app.routes, Method::Get, "/health"), None);
    assert_eq!(find_route(&app.routes, Method::Get, ""), None);
}

#[test]
fn dispatch_returns_handler_response() {
    let server = Builder::default().build().unwrap();
    let app = server.application();
    let resp = dispatch(&app.routes, Method::Get, "/api/health").unwrap();
    assert_eq!(resp.status, 200);
    assert_eq!(resp.body, "OK");
    let resp = dispatch(&app.routes, Method::Get, "/api/").unwrap();
    assert_eq!(resp.status, 200);
    assert_eq!(resp.body, "<h1>Hello, world!</h1>");
    assert!(dispatch(&app.routes, Method::Get, "/elsewhere").is_none());
}

#[test]
fn nest_prefixes_every_path() {
    let api = api_routes::<ServerState>();
    let nested = rrythm_http::nest("/v1", &api);
    assert_eq!(nested.len(), 2);
    assert_eq!(nested[0].path, "/v1/");
    assert_eq!(nested[0].method, Method::Get);
    assert_eq!(nested[0].handler, HandlerId::Root);
    assert_eq!(nested[1].path, "/v1/health");
    assert_eq!(nested[1].handler, HandlerId::Health);
}

#[test]
fn find_route_first_match_wins() {
    let routes = vec![
        Route { method: Method::Get, path: String::from("/same"), handler: HandlerId::Root },
        Route { method: Method::Get, path: String::from("/same"), handler: HandlerId::Health },
    ];
    assert_eq!(find_route(&routes, Method::Get, "/same"), Some(HandlerId::Root));
}

#[test]
fn state_provider_supplies_state() {
    let state = ServerState {};
    let _again: ServerState = state.application_state();
    let _cloned = state.clone();
}
