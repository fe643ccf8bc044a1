use crate::server::StateProvider;
use vstd::prelude::*;

verus! {

/// The HTTP methods the route table binds.
#[derive(Clone, Copy, Debug, PartialEq, Eq, Structural)]
pub enum Method {
    Get,
}

/// The handlers a route can point at.
#[derive(Clone, Copy, Debug, PartialEq, Eq, Structural)]
pub enum HandlerId {
    Root,
    Health,
}

/// The content type a handler answers with.
#[derive(Clone, Copy, Debug, PartialEq, Eq, Structural)]
pub enum ContentType {
    Html,
    PlainText,
}

/// One binding of the route table: a method and a path, mapped to a handler.
#[derive(Debug)]
pub struct Route {
    pub method: Method,
    pub path: String,
    pub handler: HandlerId,
}

/// The mathematical model of a route, with the path as a character sequence.
#[verifier::ext_equal]
pub struct RouteView {
    pub method: Method,
    pub path: Seq<char>,
    pub handler: HandlerId,
}

impl View for Route {
    type V = RouteView;

    open spec fn view(&self) -> RouteView {
        RouteView { method: self.method, path: self.path@, handler: self.handler }
    }
}

/// The model of a whole route table.
pub open spec fn routes_view(v: Seq<Route>) -> Seq<RouteView> {
    v.map_values(|r: Route| r@)
}

/// The namespaced route table before mounting: the greeting at `/` and the
/// health probe at `/health`, both answered on GET.
pub open spec fn spec_api_routes() -> Seq<RouteView> {
    seq![
        RouteView { method: Method::Get, path: seq!['/'], handler: HandlerId::Root },
        RouteView {
            method: Method::Get,
            path: seq!['/', 'h', 'e', 'a', 'l', 't', 'h'],
            handler: HandlerId::Health,
        },
    ]
}

/// The route table for the API namespace, generic over any state type that
/// can supply the shared application state. The bindings do not depend on
/// the state type, so composing the table twice yields the same bindings.
pub fn api_routes<S: StateProvider>() -> (r: Vec<Route>)
    ensures
        routes_view(r@) == spec_api_routes(),
{
    let mut v: Vec<Route> = Vec::new();
    v.push(Route { method: Method::Get, path: String::from_str("/"), handler: HandlerId::Root });
    v.push(
        Route {
            method: Method::Get,
            path: String::from_str("/health"),
            handler: HandlerId::Health,
        },
    );
    proof {
        reveal_strlit("/");
        reveal_strlit("/health");
        assert(routes_view(v@) =~~= spec_api_routes());
    }
    v
}

/// Law: composing the route table twice with the same or different state
/// types yields identical method/path bindings.
pub proof fn lemma_api_routes_idempotent(r1: Seq<Route>, r2: Seq<Route>)
    requires
        routes_view(r1) == spec_api_routes(),
        routes_view(r2) == spec_api_routes(),
    ensures
        routes_view(r1) == routes_view(r2),
{
}

/// The table `rs` with `prefix` prepended to every path.
pub open spec fn spec_nested(prefix: Seq<char>, rs: Seq<RouteView>) -> Seq<RouteView> {
    rs.map_values(
        |r: RouteView| RouteView { method: r.method, path: prefix + r.path, handler: r.handler },
    )
}

/// Mount a route table under a path prefix: every binding keeps its method
/// and handler, and its path gains the prefix.
pub fn nest(prefix: &str, routes: &Vec<Route>) -> (r: Vec<Route>)
    ensures
        routes_view(r@) == spec_nested(prefix@, routes_view(routes@)),
{
    let mut out: Vec<Route> = Vec::new();
    let n = routes.len();
    for i in 0..n
        invariant
            n == routes@.len(),
            out@.len() == i,
            forall|j: int|
                0 <= j < i ==> out@[j]@ == spec_nested(prefix@, routes_view(routes@))[j],
    {
        let mut path = String::from_str(prefix);
        path.append(routes[i].path.as_str());
        out.push(Route { method: routes[i].method, path, handler: routes[i].handler });
    }
    proof {
        assert(routes_view(out@) =~~= spec_nested(prefix@, routes_view(routes@)));
    }
    out
}

/// What a handler returns: a status code, a content type, and a body.
#[derive(Debug)]
pub struct Response {
    pub status: u16,
    pub content_type: ContentType,
    pub body: String,
}

/// The mathematical model of a response.
#[verifier::ext_equal]
pub struct ResponseView {
    pub status: u16,
    pub content_type: ContentType,
    pub body: Seq<char>,
}

impl View for Response {
    type V = ResponseView;

    open spec fn view(&self) -> ResponseView {
        ResponseView { status: self.status, content_type: self.content_type, body: self.body@ }
    }
}

/// The fixed response of each handler.
pub open spec fn spec_handle(h: HandlerId) -> ResponseView {
    match h {
        HandlerId::Root => ResponseView {
            status: 200,
            content_type: ContentType::Html,
            body: "<h1>Hello, world!</h1>"@,
        },
        HandlerId::Health => ResponseView {
            status: 200,
            content_type: ContentType::PlainText,
            body: "OK"@,
        },
    }
}

/// The greeting handler: a fixed HTML payload.
pub fn root() -> (r: Response)
    ensures
        r@ == spec_handle(HandlerId::Root),
{
    let r = Response {
        status: 200,
        content_type: ContentType::Html,
        body: String::from_str("<h1>Hello, world!</h1>"),
    };
    proof {
        assert(r@ =~= spec_handle(HandlerId::Root));
    }
    r
}

/// The health handler: a fixed plaintext `OK`.
pub fn health() -> (r: Response)
    ensures
        r@ == spec_handle(HandlerId::Health),
{
    let r = Response {
        status: 200,
        content_type: ContentType::PlainText,
        body: String::from_str("OK"),
    };
    proof {
        assert(r@ =~= spec_handle(HandlerId::Health));
    }
    r
}

/// Run the handler `h` and return its response.
pub fn handle(h: HandlerId) -> (r: Response)
    ensures
        r@ == spec_handle(h),
{
    match h {
        HandlerId::Root => root(),
        HandlerId::Health => health(),
    }
}

/// The handler of the first route bound to `m` and `p`, if any.
pub open spec fn spec_find(rs: Seq<RouteView>, m: Method, p: Seq<char>) -> Option<HandlerId>
    decreases rs.len(),
{
    if rs.len() == 0 {
        None
    } else if rs[0].method == m && rs[0].path == p {
        Some(rs[0].handler)
    } else {
        spec_find(rs.skip(1), m, p)
    }
}

/// Character-for-character string equality.
fn str_eq(a: &str, b: &str) -> (r: bool)
    ensures
        r == (a@ == b@),
{
    let la = a.unicode_len();
    let lb = b.unicode_len();
    if la != lb {
        return false;
    }
    for i in 0..la
        invariant
            la == a@.len(),
            la == b@.len(),
            forall|j: int| 0 <= j < i ==> a@[j] == b@[j],
    {
        if a.get_char(i) != b.get_char(i) {
            return false;
        }
    }
    proof {
        assert(a@ =~= b@);
    }
    true
}

/// Look a request up in the route table: the first binding whose method and
/// path both match decides the handler; a request that matches no binding
/// yields `None`.
pub fn find_route(routes: &Vec<Route>, method: Method, path: &str) -> (r: Option<HandlerId>)
    ensures
        r == spec_find(routes_view(routes@), method, path@),
{
    let n = routes.len();
    proof {
        assert(routes_view(routes@).skip(0) =~= routes_view(routes@));
    }
    for i in 0..n
        invariant
            n == routes@.len(),
            spec_find(routes_view(routes@), method, path@) == spec_find(
                routes_view(routes@).skip(i as int),
                method,
                path@,
            ),
    {
        let rt = &routes[i];
        proof {
            assert(routes_view(routes@).skip(i as int)[0] == routes@[i as int]@);
            assert(routes_view(routes@).skip(i as int).skip(1) =~= routes_view(
                routes@,
            ).skip(i + 1));
        }
        if rt.method == method && str_eq(rt.path.as_str(), path) {
            return Some(rt.handler);
        }
    }
    None
}

/// Dispatch one request against the route table: the matched handler's
/// response, or `None` where no binding matches.
pub fn dispatch(routes: &Vec<Route>, method: Method, path: &str) -> (r: Option<Response>)
    ensures
        match spec_find(routes_view(routes@), method, path@) {
            Some(h) => r matches Some(resp) && resp@ == spec_handle(h),
            None => r is None,
        },
{
    match find_route(routes, method, path) {
        Some(h) => Some(handle(h)),
        None => None,
    }
}

} // verus!
