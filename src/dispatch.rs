use vstd::prelude::*;
use crate::cache_db::{first_body, CacheRow, StoreError};
use crate::request::request_target;
use crate::routes::{first_match, has_match, Route};

verus! {

/// What the connection should do for a request whose route was found.
#[derive(Debug)]
pub enum Dispatch {
    /// Write this cached body verbatim.
    Cached(String),
    /// Run the handler of the route at this index, write its body, then cache it.
    Invoke(usize),
    /// Forward to this microservice path; not built yet, so nothing is written.
    Delegate(String),
    /// The route has no callback: nothing is written.
    Silent,
}

/// A `Dispatch` with its text as sequences of characters.
pub enum Planned {
    Cached(Seq<char>),
    Invoke(int),
    Delegate(Seq<char>),
    Silent,
}

impl View for Dispatch {
    type V = Planned;

    open spec fn view(&self) -> Planned {
        match self {
            Dispatch::Cached(b) => Planned::Cached(b@),
            Dispatch::Invoke(i) => Planned::Invoke(*i as int),
            Dispatch::Delegate(p) => Planned::Delegate(p@),
            Dispatch::Silent => Planned::Silent,
        }
    }
}

/// Why a connection is closed without a response.
#[derive(Debug, PartialEq, Eq, Clone, Copy, Structural)]
pub enum RequestError {
    /// No request line, or one with fewer than two tokens.
    Malformed,
    /// No registered route answers the request.
    NoRoute,
    /// The response cache failed.
    Store(StoreError),
}

/// What a cache miss on the route at index `i` leads to.
pub open spec fn route_plan(route: Route, i: int) -> Planned {
    match route.route_callbacks.microservice_path {
        Some(p) => Planned::Delegate(p@),
        None => if route.route_callbacks.run_function is Some {
            Planned::Invoke(i)
        } else {
            Planned::Silent
        },
    }
}

/// What a request (its lines, the first being the request line) leads to,
/// given the route table and the cached rows.
pub open spec fn planned(routes: Seq<Route>, rows: Seq<CacheRow>, lines: Seq<Seq<char>>) -> Result<
    Planned,
    RequestError,
> {
    if lines.len() == 0 {
        Err(RequestError::Malformed)
    } else {
        match request_target(lines[0]) {
            None => Err(RequestError::Malformed),
            Some((m, p)) => if !has_match(routes, m, p) {
                Err(RequestError::NoRoute)
            } else {
                match first_body(rows, m, p) {
                    Some(b) => Ok(Planned::Cached(b)),
                    None => Ok(route_plan(routes[first_match(routes, m, p)], first_match(routes, m, p))),
                }
            },
        }
    }
}

/// The views of a request's lines.
pub open spec fn lines_view(lines: Seq<String>) -> Seq<Seq<char>> {
    lines.map_values(|l: String| l@)
}

/// Decides for the matched route at `index`, given what the cache held for
/// its key: a cached body is served as is, otherwise the route's callback
/// decides.
pub fn decide(route: &Route, index: usize, cached: Option<String>) -> (d: Dispatch)
    ensures
        d@ == match cached {
            Some(b) => Planned::Cached(b@),
            None => route_plan(*route, index as int),
        },
{
    match cached {
        Some(b) => Dispatch::Cached(b),
        None => match &route.route_callbacks.microservice_path {
            Some(p) => Dispatch::Delegate(p.clone()),
            None => if route.route_callbacks.run_function.is_some() {
                Dispatch::Invoke(index)
            } else {
                Dispatch::Silent
            },
        },
    }
}

} // verus!
