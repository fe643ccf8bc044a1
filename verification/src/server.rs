use crate::addr::{Addr, AddrV4};
use crate::error::Error;
use crate::routes::{api_routes, nest, routes_view, HandlerId, Method, Route, RouteView};
use vstd::prelude::*;

verus! {

/// The shared application state injected into every request handler.
/// It carries cross-cutting dependencies; it has none today and exists
/// as the extension point for them. Handlers receive independent clones
/// that stand for the same underlying state.
#[derive(Clone, Debug)]
pub struct ServerState {}

/// The capability of supplying the shared application state: the route
/// table is composed against any provider, so it can be reused or tested
/// with a state type other than the production one.
pub trait StateProvider {
    /// The application state this provider supplies.
    fn application_state(&self) -> ServerState;
}

impl StateProvider for ServerState {
    fn application_state(&self) -> ServerState {
        ServerState {}
    }
}

/// The fallback bind address: all IPv4 interfaces, port 3000.
pub open spec fn spec_default_addr() -> Addr {
    Addr::V4(AddrV4 { o0: 0, o1: 0, o2: 0, o3: 0, port: 3000 })
}

/// The cross-origin policy applied to every request. Only the permissive
/// policy exists: any origin, any method, any header.
#[derive(Clone, Copy, Debug, PartialEq, Eq, Structural)]
pub enum CorsPolicy {
    Permissive,
}

/// A server whose configuration passed validation: it holds a resolved
/// bind address and owns no other resource. The listener is acquired
/// only when the caller runs the assembled application.
#[derive(Clone, Debug, PartialEq, Eq, Structural)]
pub struct Server {
    addr: Addr,
}

/// The assembled application, ready to serve: the resolved bind address,
/// the route table mounted under the API namespace, the shared state, and
/// the middleware policy wrapped around every request.
#[derive(Debug)]
pub struct App {
    pub addr: Addr,
    pub routes: Vec<Route>,
    pub state: ServerState,
    pub cors: CorsPolicy,
}

/// The mounted route table: the API routes, each under the `/api` prefix.
pub open spec fn spec_app_routes() -> Seq<RouteView> {
    seq![
        RouteView {
            method: Method::Get,
            path: seq!['/', 'a', 'p', 'i', '/'],
            handler: HandlerId::Root,
        },
        RouteView {
            method: Method::Get,
            path: seq!['/', 'a', 'p', 'i', '/', 'h', 'e', 'a', 'l', 't', 'h'],
            handler: HandlerId::Health,
        },
    ]
}

impl Server {
    /// The resolved bind address of this server.
    pub closed spec fn spec_addr(&self) -> Addr {
        self.addr
    }

    /// A builder pre-populated with the default bind address.
    pub fn builder() -> (b: Builder)
        ensures
            b.spec_addr() == Some(spec_default_addr()),
    {
        Builder::default()
    }

    /// The effective address the server will bind.
    pub fn addr(&self) -> (a: Addr)
        ensures
            a == self.spec_addr(),
    {
        self.addr
    }

    /// Assemble the final application: the API routes nested under `/api`,
    /// a fresh shared state, and the permissive cross-origin policy. The
    /// caller binds `app.addr` and drives the serve loop.
    pub fn application(&self) -> (app: App)
        ensures
            app.addr == self.spec_addr(),
            routes_view(app.routes@) == spec_app_routes(),
            app.cors == CorsPolicy::Permissive,
    {
        let api = api_routes::<ServerState>();
        let routes = nest("/api", &api);
        proof {
            reveal_strlit("/api");
            assert(routes_view(routes@) =~~= spec_app_routes());
        }
        App { addr: self.addr, routes, state: ServerState {}, cors: CorsPolicy::Permissive }
    }
}

/// A builder that accumulates optional configuration and validates it
/// exactly once, at `build`.
#[derive(Clone, Debug, PartialEq, Eq, Structural)]
pub struct Builder {
    addr: Option<Addr>,
}

impl Builder {
    /// The address accumulated so far, if any.
    pub closed spec fn spec_addr(&self) -> Option<Addr> {
        self.addr
    }

    /// What `build` returns for this builder: the server when an address
    /// is set, and the configuration error when none is.
    pub closed spec fn spec_build(&self) -> Result<Server, Error> {
        match self.addr {
            Some(a) => Ok(Server { addr: a }),
            None => Err(Error::ServerBuilder),
        }
    }

    /// An empty configuration: no address chosen, so `build` fails until
    /// one is supplied. Distinct on purpose from `default`, which chooses
    /// the fallback address.
    pub fn new() -> (b: Builder)
        ensures
            b.spec_addr() is None,
    {
        Builder { addr: None }
    }

    /// Choose the bind address. Any address value is accepted here; the
    /// builder validates only presence, at `build`.
    pub fn addr(self, addr: Addr) -> (b: Builder)
        ensures
            b.spec_addr() == Some(addr),
    {
        let mut b = self;
        b.addr = Some(addr);
        b
    }

    /// The single validation gate: a server from the accumulated
    /// configuration. Fails with `Error::ServerBuilder` exactly when the
    /// required address is missing; otherwise the server's effective
    /// address is the one supplied.
    pub fn build(self) -> (r: Result<Server, Error>)
        ensures
            r == self.spec_build(),
            self.spec_addr() matches Some(a) ==> (r matches Ok(s) && s.spec_addr() == a),
            self.spec_addr() is None ==> (r matches Err(e) && e == Error::ServerBuilder),
    {
        match self.addr {
            Some(a) => Ok(Server { addr: a }),
            None => Err(Error::ServerBuilder),
        }
    }
}

impl Default for Builder {
    /// A configuration pre-populated with the conventional fallback
    /// address, `0.0.0.0:3000`.
    fn default() -> (b: Builder)
        ensures
            b.spec_addr() == Some(spec_default_addr()),
    {
        Builder { addr: Some(Addr::V4(AddrV4 { o0: 0, o1: 0, o2: 0, o3: 0, port: 3000 })) }
    }
}

/// Law: a builder that never received an address fails to build, with the
/// configuration error.
pub proof fn lemma_build_without_addr_fails(b: Builder)
    requires
        b.spec_addr() is None,
    ensures
        b.spec_build() matches Err(e) && e == Error::ServerBuilder,
{
}

/// Law: a builder that received an address builds a server whose effective
/// address is exactly the one supplied.
pub proof fn lemma_build_with_addr_succeeds(b: Builder, a: Addr)
    requires
        b.spec_addr() == Some(a),
    ensures
        b.spec_build() matches Ok(s) && s.spec_addr() == a,
{
}

/// Law: a default builder builds, without any call to `addr`, a server
/// whose effective address is the fallback `0.0.0.0:3000`.
pub proof fn lemma_default_builds_default_addr(b: Builder)
    requires
        b.spec_addr() == Some(spec_default_addr()),
    ensures
        b.spec_build() matches Ok(s) && s.spec_addr() == spec_default_addr(),
{
}

} // verus!
