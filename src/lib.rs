pub mod cache_db;
pub mod dispatch;
pub mod properties;
pub mod request;
pub mod routes;

use vstd::prelude::*;
use crate::cache_db::{
    cache_rows, insert_web_cache, open_store, path_taken, retrieve_web_cache, run_migrations,
    store_ready, CacheRow, StoreError,
};
use crate::dispatch::{decide, lines_view, planned, Dispatch, RequestError};
use crate::request::parse_request_line;
use crate::routes::{find_route, Route};

pub use crate::routes::RouteCallbacks;

verus! {

/// A route table, the address to serve it on, and the response cache.
pub struct Router {
    routes: Vec<Route>,
    port: i32,
    host: String,
    db: rusqlite::Connection,
}

impl Router {
    /// The registered routes, in registration order.
    pub closed spec fn routes_view(&self) -> Seq<Route> {
        self.routes@
    }

    /// The router's own store.
    pub closed spec fn store_view(&self) -> rusqlite::Connection {
        self.db
    }

    /// The rows of the response cache, in storage order.
    pub open spec fn cache_view(&self) -> Seq<CacheRow> {
        cache_rows(self.store_view())
    }

    /// The store has its schema set up and every migration recorded.
    pub open spec fn wf(&self) -> bool {
        store_ready(self.store_view())
    }

    pub closed spec fn host_view(&self) -> Seq<char> {
        self.host@
    }

    pub closed spec fn port_view(&self) -> i32 {
        self.port
    }

    /// An empty router for `host:port`, with a fresh response cache whose
    /// schema is set up.
    pub fn new(host: String, port: i32) -> (r: Result<Router, StoreError>)
        ensures
            r matches Ok(router) ==> router.routes_view().len() == 0 && router.host_view()
                == host@ && router.port_view() == port,
            r matches Ok(router) ==> router.wf() && router.cache_view().len() == 0,
            r matches Err(e) ==> e == StoreError::Open || e == StoreError::Migration,
    {
        let mut conn = match open_store() {
            Ok(c) => c,
            Err(_) => {
                return Err(StoreError::Open);
            },
        };
        match run_migrations(&mut conn) {
            Ok(()) => {},
            Err(e) => {
                return Err(e);
            },
        }
        Ok(Router { routes: Vec::new(), port, host, db: conn })
    }

    /// Appends `route` to the table, without checking for duplicates.
    pub fn register_route(&mut self, route: Route) -> (r: &mut Self)
        ensures
            r.routes_view() == old(self).routes_view().push(route),
            r.store_view() == old(self).store_view(),
            r.host_view() == old(self).host_view(),
            r.port_view() == old(self).port_view(),
            *final(self) == *final(r),
    {
        self.routes.push(route);
        self
    }

    /// Decides what to do for one request, given its lines (the request line
    /// first; header lines are ignored): look up the first matching route,
    /// then serve the cached body for its key or follow the route's callback.
    /// A failing cache lookup is the only outcome not fixed by the route
    /// table, the cached rows and the lines.
    pub fn handle_request(&self, lines: &Vec<String>) -> (r: Result<Dispatch, RequestError>)
        requires
            self.wf(),
        ensures
            match r {
                Ok(d) => planned(self.routes_view(), self.cache_view(), lines_view(lines@)) == Ok::<
                    _,
                    RequestError,
                >(d@),
                Err(RequestError::Store(e)) => e == StoreError::Lookup && planned(
                    self.routes_view(),
                    self.cache_view(),
                    lines_view(lines@),
                ) is Ok,
                Err(e) => planned(self.routes_view(), self.cache_view(), lines_view(lines@))
                    == Err::<crate::dispatch::Planned, _>(e),
            },
    {
        if lines.len() == 0 {
            return Err(RequestError::Malformed);
        }
        proof {
            assert(lines_view(lines@)[0] == lines@[0]@);
        }
        let (method, path) = match parse_request_line(lines[0].as_str()) {
            Some(t) => t,
            None => {
                return Err(RequestError::Malformed);
            },
        };
        let index = match find_route(&self.routes, &method, &path) {
            Some(i) => i,
            None => {
                return Err(RequestError::NoRoute);
            },
        };
        proof {
            crate::routes::lemma_first_match(self.routes@, method@, path@);
        }
        let cached = match retrieve_web_cache(&self.db, method.as_str(), path.as_str()) {
            Ok(Some(w)) => Some(w.body),
            Ok(None) => None,
            Err(e) => {
                return Err(RequestError::Store(e));
            },
        };
        Ok(decide(&self.routes[index], index, cached))
    }

    /// Stores the body that the handler of the route at `index` produced,
    /// under that route's key. The cache keeps one body per path, so a path
    /// already cached under any method is refused.
    pub fn record_response(&mut self, index: usize, body: &String) -> (r: Result<(), StoreError>)
        requires
            old(self).wf(),
            index < old(self).routes_view().len(),
        ensures
            final(self).wf(),
            final(self).routes_view() == old(self).routes_view(),
            final(self).host_view() == old(self).host_view(),
            final(self).port_view() == old(self).port_view(),
            r is Ok ==> final(self).cache_view() == old(self).cache_view().push(
                (
                    old(self).routes_view()[index as int].method@,
                    old(self).routes_view()[index as int].path@,
                    body@,
                ),
            ),
            r is Err ==> final(self).cache_view() == old(self).cache_view(),
            r matches Err(e) ==> e == StoreError::Insert,
            path_taken(old(self).cache_view(), old(self).routes_view()[index as int].path@) ==> r is Err,
    {
        let route = &self.routes[index];
        insert_web_cache(&mut self.db, route.method.as_str(), route.path.as_str(), body.as_str())
    }

    /// The registered routes, in registration order.
    pub fn routes(&self) -> (r: &Vec<Route>)
        ensures
            r@ == self.routes_view(),
    {
        &self.routes
    }

    pub fn host(&self) -> (r: &String)
        ensures
            r@ == self.host_view(),
    {
        &self.host
    }

    pub fn port(&self) -> (r: i32)
        ensures
            r == self.port_view(),
    {
        self.port
    }
}

} // verus!
