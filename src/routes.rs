use vstd::prelude::*;

verus! {

/// What a route does when its response is not cached yet. At most one of the
/// two is expected to be set; a set `microservice_path` wins.
#[derive(PartialEq, Debug)]
pub struct RouteCallbacks {
    /// Where the request would be forwarded; forwarding is not built yet.
    pub microservice_path: Option<String>,
    /// The key of the handler function that produces the response body.
    pub run_function: Option<usize>,
}

impl Default for RouteCallbacks {
    fn default() -> (r: RouteCallbacks)
        ensures
            r.microservice_path is None,
            r.run_function is None,
    {
        RouteCallbacks { microservice_path: None, run_function: None }
    }
}

/// A registered route: an exact method and an exact path.
#[derive(PartialEq, Debug)]
pub struct Route {
    pub method: String,
    pub path: String,
    pub route_callbacks: RouteCallbacks,
}

/// `r` answers requests for `(method, path)`: both compare equal, case and all.
pub open spec fn route_matches(r: Route, method: Seq<char>, path: Seq<char>) -> bool {
    r.method@ == method && r.path@ == path
}

/// Some route of the table answers `(method, path)`.
pub open spec fn has_match(routes: Seq<Route>, method: Seq<char>, path: Seq<char>) -> bool {
    exists|i: int| 0 <= i < routes.len() && route_matches(#[trigger] routes[i], method, path)
}

/// `i` is the earliest registered route that answers `(method, path)`.
pub open spec fn is_first_match(
    routes: Seq<Route>,
    method: Seq<char>,
    path: Seq<char>,
    i: int,
) -> bool {
    &&& 0 <= i < routes.len()
    &&& route_matches(routes[i], method, path)
    &&& forall|j: int| 0 <= j < i ==> !route_matches(#[trigger] routes[j], method, path)
}

/// The earliest route that answers `(method, path)`; meaningful only where
/// `has_match` holds.
pub open spec fn first_match(routes: Seq<Route>, method: Seq<char>, path: Seq<char>) -> int {
    choose|i: int| is_first_match(routes, method, path, i)
}

/// Where some route matches, exactly one of them is the first match.
pub proof fn lemma_first_match(routes: Seq<Route>, method: Seq<char>, path: Seq<char>)
    requires
        has_match(routes, method, path),
    ensures
        is_first_match(routes, method, path, first_match(routes, method, path)),
        forall|i: int|
            is_first_match(routes, method, path, i) ==> i == first_match(routes, method, path),
{
    lemma_first_from(routes, method, path, 0);
}

proof fn lemma_first_from(routes: Seq<Route>, method: Seq<char>, path: Seq<char>, i: int)
    requires
        0 <= i <= routes.len(),
        forall|j: int| 0 <= j < i ==> !route_matches(#[trigger] routes[j], method, path),
        exists|k: int| i <= k < routes.len() && route_matches(#[trigger] routes[k], method, path),
    ensures
        exists|f: int| is_first_match(routes, method, path, f),
    decreases routes.len() - i,
{
    if route_matches(routes[i], method, path) {
        assert(is_first_match(routes, method, path, i));
    } else {
        lemma_first_from(routes, method, path, i + 1);
    }
}

/// Scans the table in registration order for the first route that answers
/// `(method, path)`.
pub fn find_route(routes: &Vec<Route>, method: &String, path: &String) -> (r: Option<usize>)
    ensures
        r is None <==> !has_match(routes@, method@, path@),
        r matches Some(i) ==> is_first_match(routes@, method@, path@, i as int),
{
    let mut i: usize = 0;
    while i < routes.len()
        invariant
            i <= routes@.len(),
            forall|j: int| 0 <= j < i ==> !route_matches(#[trigger] routes@[j], method@, path@),
        decreases routes@.len() - i,
    {
        let route = &routes[i];
        if route.method == *method && route.path == *path {
            return Some(i);
        }
        i = i + 1;
    }
    None
}

} // verus!
