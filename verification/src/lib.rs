//! A minimal HTTP service bootstrap: a builder that validates a bind
//! address, a server value that owns the resolved configuration, a
//! namespaced route table with shared application state, and the fixed
//! responses its handlers return.
//!
//! The listener bind and the accept loop are I/O and live outside this
//! library; everything here is plain data and logic with contracts.

pub mod addr;
pub mod error;
pub mod routes;
pub mod runtime;
pub mod server;

pub use addr::{Addr, AddrV4, AddrV6};
pub use error::Error;
pub use routes::{
    api_routes, dispatch, find_route, handle, health, nest, root, ContentType, HandlerId, Method,
    Response, Route,
};
pub use runtime::{step, Event, Phase, RunAction};
pub use server::{App, Builder, CorsPolicy, Server, ServerState, StateProvider};
