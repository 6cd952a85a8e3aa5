use vstd::prelude::*;
use crate::cache_db::{first_body, lemma_first_body_push, path_taken, CacheRow};
use crate::dispatch::{planned, route_plan, Planned, RequestError};
use crate::request::request_target;
use crate::routes::{first_match, has_match, lemma_first_match, route_matches, Route};

verus! {

/// A request that some route answers is never refused: it is served from the
/// cache or by the first matching route's callback. Where that route has a
/// handler function and no forwarding path, it is served either from the
/// cache or by invoking that handler, and by nothing else.
pub proof fn lemma_matched_request_is_served(
    routes: Seq<Route>,
    rows: Seq<CacheRow>,
    lines: Seq<Seq<char>>,
    method: Seq<char>,
    path: Seq<char>,
)
    requires
        lines.len() > 0,
        request_target(lines[0]) == Some((method, path)),
        has_match(routes, method, path),
    ensures
        planned(routes, rows, lines) is Ok,
        ({
            let route = routes[first_match(routes, method, path)];
            route.route_callbacks.microservice_path is None
                && route.route_callbacks.run_function is Some ==> {
                ||| planned(routes, rows, lines) == Ok::<_, RequestError>(
                    Planned::Cached(first_body(rows, method, path)->Some_0),
                )
                ||| planned(routes, rows, lines) == Ok::<_, RequestError>(
                    Planned::Invoke(first_match(routes, method, path)),
                )
            }
        }),
{
    lemma_first_match(routes, method, path);
}

/// On an empty cache, such as a new router's, a request whose first matching
/// route has a handler function and no forwarding path invokes that handler.
pub proof fn lemma_empty_cache_invokes_handler(
    routes: Seq<Route>,
    lines: Seq<Seq<char>>,
    method: Seq<char>,
    path: Seq<char>,
)
    requires
        lines.len() > 0,
        request_target(lines[0]) == Some((method, path)),
        has_match(routes, method, path),
        routes[first_match(routes, method, path)].route_callbacks.microservice_path is None,
        routes[first_match(routes, method, path)].route_callbacks.run_function is Some,
    ensures
        planned(routes, Seq::<CacheRow>::empty(), lines) == Ok::<_, RequestError>(
            Planned::Invoke(first_match(routes, method, path)),
        ),
{
}

/// The first request for a key that the cache does not hold invokes the
/// handler; once its body is stored under the route's key, the same request is
/// served that very body from the cache.
pub proof fn lemma_second_request_hits_cache(
    routes: Seq<Route>,
    rows: Seq<CacheRow>,
    lines: Seq<Seq<char>>,
    i: int,
    body: Seq<char>,
)
    requires
        planned(routes, rows, lines) == Ok::<_, RequestError>(Planned::Invoke(i)),
    ensures
        0 <= i < routes.len(),
        planned(routes, rows.push((routes[i].method@, routes[i].path@, body)), lines) == Ok::<
            _,
            RequestError,
        >(Planned::Cached(body)),
{
    let (m, p) = request_target(lines[0])->Some_0;
    lemma_first_match(routes, m, p);
    let k = first_match(routes, m, p);
    assert(route_plan(routes[k], k) == Planned::Invoke(i));
    assert(k == i);
    lemma_first_body_push(rows, (routes[i].method@, routes[i].path@, body), m, p);
}

/// Once a body is cached for a path under one method, the cache holds that
/// path, so storing a body for the same path under another method is refused
/// rather than dropped silently.
pub proof fn lemma_same_path_is_taken(
    rows: Seq<CacheRow>,
    method: Seq<char>,
    path: Seq<char>,
    body: Seq<char>,
)
    ensures
        path_taken(rows.push((method, path, body)), path),
{
    assert(rows.push((method, path, body))[rows.len() as int].1 == path);
}

/// A request for a path that no route has is refused: nothing is written.
pub proof fn lemma_unknown_path_is_refused(
    routes: Seq<Route>,
    rows: Seq<CacheRow>,
    lines: Seq<Seq<char>>,
    method: Seq<char>,
    path: Seq<char>,
)
    requires
        lines.len() > 0,
        request_target(lines[0]) == Some((method, path)),
        forall|i: int| 0 <= i < routes.len() ==> #[trigger] routes[i].path@ != path,
    ensures
        planned(routes, rows, lines) == Err::<Planned, _>(RequestError::NoRoute),
{
    assert(!has_match(routes, method, path)) by {
        assert forall|i: int| 0 <= i < routes.len() implies !route_matches(
            #[trigger] routes[i],
            method,
            path,
        ) by {
            assert(routes[i].path@ != path);
        }
    }
}

/// A request without a request line of at least two tokens is refused,
/// whatever the routes and the cache hold.
pub proof fn lemma_malformed_is_refused(
    routes: Seq<Route>,
    rows: Seq<CacheRow>,
    lines: Seq<Seq<char>>,
)
    requires
        lines.len() == 0 || request_target(lines[0]) is None,
    ensures
        planned(routes, rows, lines) == Err::<Planned, _>(RequestError::Malformed),
{
}

} // verus!
