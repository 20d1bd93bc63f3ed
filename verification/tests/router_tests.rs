use std::cell::RefCell;

use suika_router::chain::Middleware;
use suika_router::chain::Next;
use suika_router::http::HttpError;
use suika_router::http::Request;
use suika_router::http::Response;
use suika_router::router::Handler;
use suika_router::router::Router;

enum TestHandler {
    Hello,
    RegexEcho,
    Failing,
    ItemEcho,
    First,
    Second,
}

impl Handler for TestHandler {
    fn call(&self, req: &Request, res: &mut Response) -> Result<(), HttpError> {
        match self {
            TestHandler::Hello => {
                res.body("Hello, world!".to_string());
                Ok(())
            }
            TestHandler::RegexEcho => {
                res.body(format!("Hello, regex! Path: {}", req.path()));
                Ok(())
            }
            TestHandler::Failing => Err(HttpError::new("boom".to_string())),
            TestHandler::ItemEcho => {
                let id = req.param("id").cloned().unwrap_or_default();
                res.body(format!("You requested item with ID: {}", id));
                Ok(())
            }
            TestHandler::First => {
                res.body("first".to_string());
                Ok(())
            }
            TestHandler::Second => {
                res.body("second".to_string());
                Ok(())
            }
        }
    }
}

fn body_string(res: &Response) -> Option<String> {
    res.get_body().map(|b| String::from_utf8(b).unwrap())
}

#[test]
fn test_router_get() {
    let mut router = Router::new();
    let _ = router.get("/hello", TestHandler::Hello);
    assert_eq!(router.specific_routes.len(), 1);
    assert_eq!(router.specific_routes[0].method, "GET");
    assert_eq!(router.specific_routes[0].path, "/hello");
}

#[test]
fn test_router_post() {
    let mut router = Router::new();
    let _ = router.post("/hello", TestHandler::Hello);
    assert_eq!(router.specific_routes.len(), 1);
    assert_eq!(router.specific_routes[0].method, "POST");
    assert_eq!(router.specific_routes[0].path, "/hello");
}

#[test]
fn test_router_put() {
    let mut router = Router::new();
    let _ = router.put("/hello", TestHandler::Hello);
    assert_eq!(router.specific_routes.len(), 1);
    assert_eq!(router.specific_routes[0].method, "PUT");
    assert_eq!(router.specific_routes[0].path, "/hello");
}

#[test]
fn test_router_delete() {
    let mut router = Router::new();
    let _ = router.delete("/hello", TestHandler::Hello);
    assert_eq!(router.specific_routes.len(), 1);
    assert_eq!(router.specific_routes[0].method, "DELETE");
    assert_eq!(router.specific_routes[0].path, "/hello");
}

#[test]
fn test_router_patch() {
    let mut router = Router::new();
    let _ = router.patch("/hello", TestHandler::Hello);
    assert_eq!(router.specific_routes.len(), 1);
    assert_eq!(router.specific_routes[0].method, "PATCH");
    assert_eq!(router.specific_routes[0].path, "/hello");
}

#[test]
fn test_use_router() {
    let mut main_router: Router<TestHandler> = Router::new();
    let nested_router = Router::new();
    main_router.use_router("/api", nested_router);
    assert_eq!(main_router.nested_routers.len(), 1);
    assert_eq!(main_router.nested_routers[0].0, "/api");
}

#[test]
fn test_handle_get() {
    let mut router = Router::new();
    let _ = router.get("/hello", TestHandler::Hello);

    let mut req = Request::new("GET".to_string(), "/hello".to_string());
    let mut res = Response::new();

    assert!(router.handle(&mut req, &mut res).is_ok());
    assert_eq!(body_string(&res), Some("Hello, world!".to_string()));
}

#[test]
fn test_handle_post() {
    let mut router = Router::new();
    let _ = router.post("/hello", TestHandler::Hello);

    let mut req = Request::new("POST".to_string(), "/hello".to_string());
    let mut res = Response::new();

    assert!(router.handle(&mut req, &mut res).is_ok());
    assert_eq!(body_string(&res), Some("Hello, world!".to_string()));
}

#[test]
fn test_handle_not_found() {
    let mut router = Router::new();
    let _ = router.get("/hello", TestHandler::Hello);

    let mut req = Request::new("GET".to_string(), "/nonexistent".to_string());
    let mut res = Response::new();

    assert!(router.handle(&mut req, &mut res).is_ok());
    assert_eq!(body_string(&res), Some("Not Found".to_string()));
    assert_eq!(res.get_status(), 404);
}

#[test]
fn test_handle_regex_route() {
    let mut router = Router::new();
    let _ = router.get(r"/api/.*", TestHandler::RegexEcho);

    let mut req = Request::new("GET".to_string(), "/api/v1/resource".to_string());
    let mut res = Response::new();

    assert!(router.handle(&mut req, &mut res).is_ok());
    assert_eq!(
        body_string(&res),
        Some("Hello, regex! Path: /api/v1/resource".to_string())
    );
}

#[test]
fn test_handle_specific_route_over_regex() {
    let mut router = Router::new();
    let _ = router.get(r"/api/.*", TestHandler::RegexEcho);
    let _ = router.get("/api/specific", TestHandler::Hello);

    let mut req = Request::new("GET".to_string(), "/api/specific".to_string());
    let mut res = Response::new();

    assert!(router.handle(&mut req, &mut res).is_ok());
    assert_eq!(body_string(&res), Some("Hello, world!".to_string()));
}

#[test]
fn test_nested_router_with_regex() {
    let mut main_router = Router::new();
    let mut nested_router = Router::new();
    let _ = nested_router.get(r"/v1/.*", TestHandler::RegexEcho);
    main_router.use_router("/api", nested_router);

    let mut req = Request::new("GET".to_string(), "/api/v1/resource".to_string());
    let mut res = Response::new();

    assert!(main_router.handle(&mut req, &mut res).is_ok());
    assert_eq!(
        body_string(&res),
        Some("Hello, regex! Path: /api/v1/resource".to_string())
    );
}

// A mounted child matches against the path with the mount prefix stripped.
#[test]
fn nested_router_strips_prefix_for_exact_route() {
    let mut main_router = Router::new();
    let mut child = Router::new();
    let _ = child.get("/v1/x", TestHandler::Hello);
    main_router.use_router("/api", child);

    let mut req = Request::new("GET".to_string(), "/api/v1/x".to_string());
    let mut res = Response::new();

    assert!(main_router.handle(&mut req, &mut res).is_ok());
    assert_eq!(body_string(&res), Some("Hello, world!".to_string()));
}

// Among pattern routes both matching the request, the one registered first
// is the one that runs.
#[test]
fn first_registered_pattern_wins() {
    let mut router = Router::new();
    let _ = router.get(r"/api/.*", TestHandler::First);
    let _ = router.get(r"/api/v1/.*", TestHandler::Second);

    let mut req = Request::new("GET".to_string(), "/api/v1/thing".to_string());
    let mut res = Response::new();

    assert!(router.handle(&mut req, &mut res).is_ok());
    assert_eq!(body_string(&res), Some("first".to_string()));
}

// A handler failure becomes a 500 response with a descriptive body; the
// pipeline itself still resolves successfully.
#[test]
fn handler_error_becomes_500() {
    let mut router = Router::new();
    let _ = router.get("/fail", TestHandler::Failing);

    let mut req = Request::new("GET".to_string(), "/fail".to_string());
    let mut res = Response::new();

    assert!(router.handle(&mut req, &mut res).is_ok());
    assert_eq!(res.get_status(), 500);
    assert_eq!(body_string(&res), Some("Internal Server Error: boom".to_string()));
}

// A dynamic route with a named capture group makes the matched substring
// visible to the handler and afterwards on the request.
#[test]
fn named_capture_round_trip() {
    let mut router = Router::new();
    let _ = router.get(r"/items/(?P<id>\d+)$", TestHandler::ItemEcho);

    let mut req = Request::new("GET".to_string(), "/items/42".to_string());
    let mut res = Response::new();

    assert!(router.handle(&mut req, &mut res).is_ok());
    assert_eq!(
        body_string(&res),
        Some("You requested item with ID: 42".to_string())
    );
    assert_eq!(req.param("id"), Some(&"42".to_string()));
}

// A named-capture pattern is dynamic even without a `*` wildcard.
#[test]
fn named_capture_pattern_is_dynamic() {
    let mut router = Router::new();
    let _ = router.get(r"/items/(?P<id>\d+)$", TestHandler::ItemEcho);
    assert_eq!(router.specific_routes.len(), 0);
    assert_eq!(router.regex_routes.len(), 1);
    assert!(router.regex_routes[0].is_dynamic);
}

// A malformed dynamic pattern is rejected at registration time and the
// router is left unchanged.
#[test]
fn malformed_pattern_rejected_at_registration() {
    let mut router = Router::new();
    let r = router.get(r"/bad[*", TestHandler::Hello);
    assert!(r.is_err());
    assert_eq!(router.specific_routes.len(), 0);
    assert_eq!(router.regex_routes.len(), 0);
}

// Status and body mutators are last-write-wins: writing twice leaves only
// the second value observable.
#[test]
fn response_mutators_last_write_wins() {
    let mut res = Response::new();
    res.set_status(200);
    res.set_status(404);
    assert_eq!(res.get_status(), 404);
    res.body("one".to_string());
    res.body("two".to_string());
    assert_eq!(body_string(&res), Some("two".to_string()));
}

// A fresh response has status 200 and no body.
#[test]
fn fresh_response_is_empty() {
    let res = Response::new();
    assert_eq!(res.get_status(), 200);
    assert!(res.get_body().is_none());
}

struct CountingStage {
    pass: bool,
    calls: RefCell<u32>,
}

impl Middleware for CountingStage {
    fn call(
        &self,
        req: &mut Request,
        res: &mut Response,
        next: &Next<'_, Self>,
    ) -> Result<(), HttpError> {
        *self.calls.borrow_mut() += 1;
        if self.pass {
            next.proceed(req, res)
        } else {
            Ok(())
        }
    }
}

// A stage that does not call `proceed` keeps every later stage from running.
#[test]
fn middleware_short_circuit() {
    let chain = vec![
        CountingStage { pass: false, calls: RefCell::new(0) },
        CountingStage { pass: true, calls: RefCell::new(0) },
    ];
    let mut req = Request::new("GET".to_string(), "/".to_string());
    let mut res = Response::new();

    assert!(Next::begin(&chain).proceed(&mut req, &mut res).is_ok());
    assert_eq!(*chain[0].calls.borrow(), 1);
    assert_eq!(*chain[1].calls.borrow(), 0);
}

// A stage that calls `proceed` exactly once runs the stage behind it exactly
// once; the cursor at the end of the chain is a successful no-op.
#[test]
fn middleware_proceeds_once() {
    let chain = vec![
        CountingStage { pass: true, calls: RefCell::new(0) },
        CountingStage { pass: true, calls: RefCell::new(0) },
    ];
    let mut req = Request::new("GET".to_string(), "/".to_string());
    let mut res = Response::new();

    assert!(Next::begin(&chain).proceed(&mut req, &mut res).is_ok());
    assert_eq!(*chain[0].calls.borrow(), 1);
    assert_eq!(*chain[1].calls.borrow(), 1);
}
