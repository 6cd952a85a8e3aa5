use router::cache_db::{
    insert_web_cache, migrations, retrieve_web_cache, run_migrations, StoreError,
};
use router::dispatch::{decide, Dispatch, RequestError};
use router::request::parse_request_line;
use router::routes::{find_route, Route};
use router::{RouteCallbacks, Router};

fn handler_route(method: &str, path: &str, key: usize) -> Route {
    Route {
        method: method.to_string(),
        path: path.to_string(),
        route_callbacks: RouteCallbacks { microservice_path: None, run_function: Some(key) },
    }
}

fn request(line: &str) -> Vec<String> {
    vec![line.to_string()]
}

fn fresh_store() -> rusqlite::Connection {
    let mut conn = rusqlite::Connection::open_in_memory().unwrap();
    run_migrations(&mut conn).unwrap();
    conn
}

#[test]
fn test_create_new_router() {
    let router = Router::new("0.0.0.0".to_string(), 3000).unwrap();
    assert_eq!(*router.routes(), vec![]);
    assert_eq!(*router.host(), "0.0.0.0".to_string());
    assert_eq!(router.port(), 3000);
}

#[test]
fn test_route_registered() {
    let mut router = Router::new("0.0.0.0".to_string(), 3000).unwrap();
    router.register_route(Route {
        method: "GET".to_string(),
        path: "/".to_string(),
        route_callbacks: Default::default(),
    });
    assert_eq!(router.routes()[0].method, "GET".to_string());
    assert_eq!(router.routes()[0].path, "/".to_string());
}

#[test]
fn registration_is_chainable_and_ordered() {
    let mut router = Router::new("127.0.0.1".to_string(), 8080).unwrap();
    router
        .register_route(handler_route("GET", "/", 0))
        .register_route(handler_route("GET", "/favicon.ico", 0));
    assert_eq!(router.routes().len(), 2);
    assert_eq!(router.routes()[1].path, "/favicon.ico".to_string());
}

#[test]
fn second_identical_request_is_served_from_cache() {
    let mut router = Router::new("0.0.0.0".to_string(), 3000).unwrap();
    router.register_route(handler_route("GET", "/", 0));
    let mut calls = 0;
    let mut root = || {
        calls += 1;
        "HTTP/1.1 200 OK\r\n\r\n".to_string()
    };
    let lines = request("GET / HTTP/1.1");

    let first = router.handle_request(&lines).unwrap();
    assert!(matches!(first, Dispatch::Invoke(0)));
    let body = root();
    assert_eq!(body, "HTTP/1.1 200 OK\r\n\r\n");
    router.record_response(0, &body).unwrap();

    match router.handle_request(&lines).unwrap() {
        Dispatch::Cached(b) => assert_eq!(b, "HTTP/1.1 200 OK\r\n\r\n"),
        other => panic!("expected a cache hit, got {:?}", other),
    }
    assert_eq!(calls, 1);
}

#[test]
fn missing_route_writes_nothing() {
    let mut router = Router::new("0.0.0.0".to_string(), 3000).unwrap();
    router.register_route(handler_route("GET", "/", 0));
    let r = router.handle_request(&request("GET /missing HTTP/1.1"));
    assert_eq!(r.unwrap_err(), RequestError::NoRoute);
}

#[test]
fn empty_table_refuses_every_path() {
    let router = Router::new("0.0.0.0".to_string(), 3000).unwrap();
    let r = router.handle_request(&request("GET /missing HTTP/1.1"));
    assert_eq!(r.unwrap_err(), RequestError::NoRoute);
}

#[test]
fn method_must_match_exactly() {
    let mut router = Router::new("0.0.0.0".to_string(), 3000).unwrap();
    router.register_route(handler_route("GET", "/", 0));
    let r = router.handle_request(&request("get / HTTP/1.1"));
    assert_eq!(r.unwrap_err(), RequestError::NoRoute);
}

#[test]
fn malformed_request_line_is_refused() {
    let mut router = Router::new("0.0.0.0".to_string(), 3000).unwrap();
    router.register_route(handler_route("GET", "/", 0));
    assert_eq!(router.handle_request(&request("GET")).unwrap_err(), RequestError::Malformed);
    assert_eq!(router.handle_request(&request("")).unwrap_err(), RequestError::Malformed);
    assert_eq!(router.handle_request(&vec![]).unwrap_err(), RequestError::Malformed);
}

#[test]
fn same_path_under_two_methods_surfaces_the_conflict() {
    let mut router = Router::new("0.0.0.0".to_string(), 3000).unwrap();
    router
        .register_route(handler_route("GET", "/x", 0))
        .register_route(handler_route("POST", "/x", 1));
    let get = router.handle_request(&request("GET /x HTTP/1.1")).unwrap();
    assert!(matches!(get, Dispatch::Invoke(0)));
    router.record_response(0, &"got".to_string()).unwrap();

    let post = router.handle_request(&request("POST /x HTTP/1.1")).unwrap();
    assert!(matches!(post, Dispatch::Invoke(1)));
    assert_eq!(router.record_response(1, &"posted".to_string()), Err(StoreError::Insert));

    match router.handle_request(&request("GET /x HTTP/1.1")).unwrap() {
        Dispatch::Cached(b) => assert_eq!(b, "got"),
        other => panic!("expected a cache hit, got {:?}", other),
    }
}

#[test]
fn duplicate_routes_use_the_first_registered() {
    let routes = vec![handler_route("GET", "/a", 7), handler_route("GET", "/", 3), handler_route("GET", "/", 4)];
    assert_eq!(find_route(&routes, &"GET".to_string(), &"/".to_string()), Some(1));
    assert_eq!(find_route(&routes, &"PUT".to_string(), &"/".to_string()), None);
}

#[test]
fn request_line_tokens() {
    assert_eq!(
        parse_request_line("GET /index.html HTTP/1.1"),
        Some(("GET".to_string(), "/index.html".to_string()))
    );
    assert_eq!(parse_request_line("DELETE /a"), Some(("DELETE".to_string(), "/a".to_string())));
    assert_eq!(parse_request_line("GET "), Some(("GET".to_string(), "".to_string())));
    assert_eq!(parse_request_line("GET  /"), Some(("GET".to_string(), "".to_string())));
    assert_eq!(parse_request_line("GET"), None);
    assert_eq!(parse_request_line(""), None);
}

#[test]
fn decide_follows_the_callback() {
    let forward = Route {
        method: "GET".to_string(),
        path: "/svc".to_string(),
        route_callbacks: RouteCallbacks {
            microservice_path: Some("/remote".to_string()),
            run_function: Some(0),
        },
    };
    assert!(matches!(decide(&forward, 2, None), Dispatch::Delegate(p) if p == "/remote"));
    assert!(matches!(decide(&forward, 2, Some("hit".to_string())), Dispatch::Cached(b) if b == "hit"));
    let handler = handler_route("GET", "/", 5);
    assert!(matches!(decide(&handler, 2, None), Dispatch::Invoke(2)));
    let noop = Route {
        method: "GET".to_string(),
        path: "/".to_string(),
        route_callbacks: RouteCallbacks::default(),
    };
    assert!(matches!(decide(&noop, 0, None), Dispatch::Silent));
}

#[test]
fn unimplemented_forwarding_writes_nothing() {
    let mut router = Router::new("0.0.0.0".to_string(), 3000).unwrap();
    router.register_route(Route {
        method: "GET".to_string(),
        path: "/svc".to_string(),
        route_callbacks: RouteCallbacks {
            microservice_path: Some("/remote".to_string()),
            run_function: None,
        },
    });
    let d = router.handle_request(&request("GET /svc HTTP/1.1")).unwrap();
    assert!(matches!(d, Dispatch::Delegate(p) if p == "/remote"));
}

#[test]
fn migrations_are_idempotent_and_hashed() {
    let mut conn = fresh_store();
    run_migrations(&mut conn).unwrap();
    let (count, hash): (i64, String) = conn
        .query_row("SELECT COUNT(*), MAX(hash) FROM migrations", (), |row| {
            Ok((row.get(0)?, row.get(1)?))
        })
        .unwrap();
    assert_eq!(count, 1);
    let all = migrations();
    assert_eq!(all.len(), 1);
    assert_eq!(all[0].name, "create_web_cache");
    assert_eq!(hash, format!("{:x}", md5::compute(all[0].sql)));
    assert_ne!(hash, all[0].sql);
    assert_eq!(hash.len(), 32);
}

#[test]
fn cache_lookup_and_insert() {
    let mut conn = fresh_store();
    assert!(retrieve_web_cache(&conn, "GET", "/").unwrap().is_none());
    insert_web_cache(&mut conn, "GET", "/", "body \"quoted\"").unwrap();
    let hit = retrieve_web_cache(&conn, "GET", "/").unwrap().unwrap();
    assert_eq!(hit.method, "GET");
    assert_eq!(hit.path, "/");
    assert_eq!(hit.body, "body \"quoted\"");
    assert!(retrieve_web_cache(&conn, "POST", "/").unwrap().is_none());
    assert_eq!(insert_web_cache(&mut conn, "POST", "/", "other"), Err(StoreError::Insert));
    assert_eq!(insert_web_cache(&mut conn, "GET", "/", "again"), Err(StoreError::Insert));
    assert_eq!(retrieve_web_cache(&conn, "GET", "/").unwrap().unwrap().body, "body \"quoted\"");
}

#[test]
fn migrations_give_the_cache_schema() {
    let all = migrations();
    assert_eq!(all[0].sql, router::cache_db::CACHE_TABLE_SQL);
    assert!(all[0].sql.starts_with("CREATE TABLE IF NOT EXISTS web_cache"));
    assert!(all[0].sql.contains("UNIQUE(path)"));
}

#[test]
fn rerunning_migrations_keeps_cached_rows() {
    let mut conn = fresh_store();
    insert_web_cache(&mut conn, "GET", "/", "kept").unwrap();
    run_migrations(&mut conn).unwrap();
    assert_eq!(retrieve_web_cache(&conn, "GET", "/").unwrap().unwrap().body, "kept");
    let count: i64 = conn.query_row("SELECT COUNT(*) FROM migrations", (), |row| row.get(0)).unwrap();
    assert_eq!(count, 1);
}
