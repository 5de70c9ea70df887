use screw::http::{HeaderMap, HttpRequest, Method, RemoteAddr, Request, Version};
use screw::router::{HandlerRoute, Router, RouterBuilder, RouterBuilderError, RoutesCollection};
use std::cell::Cell;
use std::rc::Rc;
use std::sync::Arc;

type Rq = Request<(), ()>;

type Handler = Box<dyn Fn(Rq) -> String>;

fn request(method: Method, path: &str) -> Rq {
    Request {
        remote_addr: RemoteAddr::V4 { ip: 1, port: 1 },
        extensions: Arc::new(()),
        http: HttpRequest {
            method,
            version: Version::Http11,
            path: path.to_string(),
            query: None,
            headers: HeaderMap::new(),
            body: (),
        },
    }
}

fn named(name: &'static str) -> Handler {
    Box::new(move |request: Rq| format!("{} {} {}", name, request.http.method.as_str(), request.http.path))
}

fn route(method: Method, path: &str, name: &'static str) -> HandlerRoute<Handler> {
    HandlerRoute { method, path: path.to_string(), handler: named(name) }
}

fn router() -> Router<Handler> {
    RouterBuilder::default()
        .route(route(Method::Get, "/users", "list"))
        .route(route(Method::Post, "/users", "create"))
        .route(route(Method::Get, "/users/1", "show"))
        .fallback_handler(named("fallback"))
        .build()
        .unwrap()
}

#[test]
fn registered_routes_reach_their_handlers() {
    let router = router();
    assert_eq!(router.process(request(Method::Get, "/users")), "list GET /users");
    assert_eq!(router.process(request(Method::Post, "/users")), "create POST /users");
    assert_eq!(router.process(request(Method::Get, "/users/1")), "show GET /users/1");
}

#[test]
fn unregistered_routes_reach_the_fallback() {
    let router = router();
    assert_eq!(router.process(request(Method::Delete, "/users")), "fallback DELETE /users");
    assert_eq!(router.process(request(Method::Get, "/nothing")), "fallback GET /nothing");
    assert_eq!(router.process(request(Method::Get, "")), "fallback GET ");
}

#[test]
fn paths_are_matched_whole() {
    let router = router();
    assert_eq!(router.process(request(Method::Get, "/users/")), "fallback GET /users/");
    assert_eq!(router.process(request(Method::Get, "/user")), "fallback GET /user");
    assert_eq!(router.process(request(Method::Get, "/users/12")), "fallback GET /users/12");
    assert_eq!(router.process(request(Method::Get, "/Users")), "fallback GET /Users");
    assert_eq!(router.process(request(Method::Get, "/users?x=1")), "fallback GET /users?x=1");
}

#[test]
fn methods_are_matched_by_name() {
    let router = router();
    assert_eq!(
        router.process(request(Method::Extension("GET".to_string()), "/users")),
        "list GET /users"
    );
    assert_eq!(
        router.process(request(Method::Extension("get".to_string()), "/users")),
        "fallback get /users"
    );
}

#[test]
fn each_request_calls_one_handler_once() {
    let hits = Rc::new(Cell::new(0u32));
    let misses = Rc::new(Cell::new(0u32));
    let (hit, miss) = (hits.clone(), misses.clone());
    let router: Router<Box<dyn Fn(Rq) -> ()>> = RouterBuilder::new()
        .route(HandlerRoute {
            method: Method::Get,
            path: "/a".to_string(),
            handler: Box::new(move |_: Rq| hit.set(hit.get() + 1)) as Box<dyn Fn(Rq) -> ()>,
        })
        .fallback_handler(Box::new(move |_: Rq| miss.set(miss.get() + 1)))
        .build()
        .unwrap();
    router.process(request(Method::Get, "/a"));
    assert_eq!((hits.get(), misses.get()), (1, 0));
    router.process(request(Method::Get, "/b"));
    assert_eq!((hits.get(), misses.get()), (1, 1));
    router.process(request(Method::Put, "/a"));
    assert_eq!((hits.get(), misses.get()), (1, 2));
}

#[test]
fn building_without_fallback_fails() {
    let builder: RouterBuilder<Handler> = RouterBuilder::default();
    assert!(matches!(builder.build(), Err(RouterBuilderError::FallbackHandlerMissing)));
    let builder: RouterBuilder<Handler> =
        RouterBuilder::new().route(route(Method::Get, "/", "root"));
    assert!(matches!(builder.build(), Err(RouterBuilderError::FallbackHandlerMissing)));
}

#[test]
fn building_with_fallback_succeeds() {
    let builder: RouterBuilder<Handler> = RouterBuilder::default();
    let router = builder.fallback_handler(named("fallback")).build().unwrap();
    assert_eq!(router.process(request(Method::Get, "/")), "fallback GET /");
}

#[test]
fn the_error_in_words() {
    assert_eq!(
        RouterBuilderError::FallbackHandlerMissing.message(),
        "handler for fallback case is not installed"
    );
}

#[test]
fn repeated_process_leaves_the_routes_as_they_are() {
    let router = router();
    for _ in 0..3 {
        assert_eq!(router.process(request(Method::Get, "/users")), "list GET /users");
        assert_eq!(router.process(request(Method::Get, "/gone")), "fallback GET /gone");
        assert_eq!(router.process(request(Method::Post, "/users")), "create POST /users");
    }
    assert!(router.resolve(&Method::Get, "/users/1")(request(Method::Get, "/users/1")) == "show GET /users/1");
}

#[test]
fn a_route_registered_again_replaces_the_first() {
    let router = RouterBuilder::new()
        .route(route(Method::Get, "/a", "old"))
        .route(route(Method::Get, "/b", "other"))
        .route(route(Method::Get, "/a", "new"))
        .fallback_handler(named("fallback"))
        .build()
        .unwrap();
    assert_eq!(router.process(request(Method::Get, "/a")), "new GET /a");
    assert_eq!(router.process(request(Method::Get, "/b")), "other GET /b");
}

#[test]
fn the_last_fallback_counts() {
    let router: Router<Handler> = RouterBuilder::new()
        .fallback_handler(named("first"))
        .fallback_handler(named("second"))
        .build()
        .unwrap();
    assert_eq!(router.process(request(Method::Get, "/")), "second GET /");
}

#[test]
fn collections_hold_each_key_once() {
    let routes = RoutesCollection::new();
    assert_eq!(routes.len(), 0);
    let routes = routes
        .route(route(Method::Get, "/a", "one"))
        .route(route(Method::Post, "/a", "two"))
        .route(route(Method::Get, "/a", "three"));
    assert_eq!(routes.len(), 2);
    assert_eq!(routes.get(&Method::Get, "/a").unwrap()(request(Method::Get, "/a")), "three GET /a");
    assert_eq!(routes.get(&Method::Post, "/a").unwrap()(request(Method::Post, "/a")), "two POST /a");
    assert!(routes.get(&Method::Put, "/a").is_none());
    assert!(routes.get(&Method::Get, "/").is_none());
}

#[test]
fn routes_of_a_collection_are_added_and_win() {
    let collection = RoutesCollection::new()
        .route(route(Method::Get, "/a", "theirs"))
        .route(route(Method::Get, "/c", "third"));
    let router = RouterBuilder::new()
        .route(route(Method::Get, "/a", "ours"))
        .route(route(Method::Get, "/b", "second"))
        .routes(collection)
        .fallback_handler(named("fallback"))
        .build()
        .unwrap();
    assert_eq!(router.process(request(Method::Get, "/a")), "theirs GET /a");
    assert_eq!(router.process(request(Method::Get, "/b")), "second GET /b");
    assert_eq!(router.process(request(Method::Get, "/c")), "third GET /c");
    assert_eq!(router.process(request(Method::Get, "/d")), "fallback GET /d");
}

#[test]
fn merging_collections() {
    let left = RoutesCollection::new()
        .route(route(Method::Get, "/a", "left a"))
        .route(route(Method::Get, "/b", "left b"));
    let right = RoutesCollection::new()
        .route(route(Method::Get, "/b", "right b"))
        .route(route(Method::Get, "/c", "right c"));
    let merged = left.merge(right);
    assert_eq!(merged.len(), 3);
    assert_eq!(merged.get(&Method::Get, "/a").unwrap()(request(Method::Get, "/a")), "left a GET /a");
    assert_eq!(merged.get(&Method::Get, "/b").unwrap()(request(Method::Get, "/b")), "right b GET /b");
    assert_eq!(merged.get(&Method::Get, "/c").unwrap()(request(Method::Get, "/c")), "right c GET /c");
}
