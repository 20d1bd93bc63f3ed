//! Routes and routers. A route binds a method and a path pattern to a
//! handler. A router holds exact routes, pattern routes and mounted child
//! routers, and resolves one request to a handler or a not-found outcome:
//! exact routes are scanned before pattern routes, each list in registration
//! order, then mounted children by a prefix test on the full path; the first
//! match wins. A matched handler's error is absorbed into a 500 response at
//! the router boundary; no match at any level yields a 404 response.

use vstd::prelude::*;
use vstd::string::StringExecFns;

verus! {

use crate::http::HttpError;
use crate::http::Request;
use crate::http::Response;
use crate::http::with_body;
use crate::http::with_status;
use crate::pattern::is_dynamic_pattern;
use crate::pattern::pairs_map;
use crate::pattern::pattern_captures;
use crate::pattern::pattern_matches;
use crate::pattern::pattern_ok;
use crate::pattern::regex_compiles;
use crate::pattern::regex_is_match;
use crate::pattern::regex_named_captures;
use crate::pattern::spec_is_dynamic;
use crate::strutil::local_path_spec;
use crate::strutil::str_eq;
use crate::strutil::str_starts_with;
use crate::strutil::strip_mount_prefix;
use std::sync::Arc;

broadcast use vstd::std_specs::vec::axiom_vec_index_decreases;

/// What runs when a route is matched. Application code implements this;
/// nothing is assumed of a handler's behaviour beyond its signature: it reads
/// the request and mutates the response, and reports failure through its
/// result.
pub trait Handler {
    fn call(&self, req: &Request, res: &mut Response) -> Result<(), HttpError>;
}

/// One immutable binding of a method and a path pattern to a handler.
pub struct Route<H> {
    pub method: String,
    pub path: String,
    pub is_dynamic: bool,
    pub handler: H,
}

/// A router: exact routes, pattern routes, mounted children, and the mount
/// prefix under which this router itself is attached (empty for a root).
pub struct Router<H> {
    pub specific_routes: Vec<Route<H>>,
    pub regex_routes: Vec<Route<H>>,
    pub nested_routers: Vec<(String, Router<H>)>,
    pub mounted: String,
}

/// Whether a route accepts a method and a local path: by literal equality for
/// an exact route, by its compiled pattern for a dynamic one.
pub open spec fn spec_route_matches<H>(r: Route<H>, method: Seq<char>, local: Seq<char>) -> bool {
    &&& r.method@ == method
    &&& if r.is_dynamic {
        pattern_matches(r.path@, local)
    } else {
        r.path@ == local
    }
}

/// The position of the first route at or after `s` that accepts the request,
/// if any: registration order is the only tie-break.
pub open spec fn first_match_from<H>(
    routes: Seq<Route<H>>,
    method: Seq<char>,
    local: Seq<char>,
    s: int,
) -> Option<int>
    decreases routes.len() - s,
{
    if s < 0 || s >= routes.len() {
        None
    } else if spec_route_matches(routes[s], method, local) {
        Some(s)
    } else {
        first_match_from(routes, method, local, s + 1)
    }
}

/// The position of the first mounted child at or after `s` whose prefix is a
/// prefix of the full (unstripped) request path, if any.
pub open spec fn first_prefix_from<H>(
    nested: Seq<(String, Router<H>)>,
    full: Seq<char>,
    s: int,
) -> Option<int>
    decreases nested.len() - s,
{
    if s < 0 || s >= nested.len() {
        None
    } else if nested[s].0@.is_prefix_of(full) {
        Some(s)
    } else {
        first_prefix_from(nested, full, s + 1)
    }
}

pub proof fn lemma_first_prefix_bounds<H>(nested: Seq<(String, Router<H>)>, full: Seq<char>, s: int)
    ensures
        first_prefix_from(nested, full, s) matches Some(k) ==> s <= k < nested.len()
            && nested[k].0@.is_prefix_of(full),
    decreases nested.len() - s,
{
    if 0 <= s < nested.len() && !nested[s].0@.is_prefix_of(full) {
        lemma_first_prefix_bounds(nested, full, s + 1);
    }
}

pub proof fn lemma_first_match_found<H>(
    routes: Seq<Route<H>>,
    method: Seq<char>,
    local: Seq<char>,
    s: int,
    i: int,
)
    requires
        0 <= s <= i < routes.len(),
        spec_route_matches(routes[i], method, local),
        forall|j: int| s <= j < i ==> !spec_route_matches(#[trigger] routes[j], method, local),
    ensures
        first_match_from(routes, method, local, s) == Some(i),
    decreases i - s,
{
    if s < i {
        lemma_first_match_found(routes, method, local, s + 1, i);
    }
}

pub proof fn lemma_first_match_exhausted<H>(
    routes: Seq<Route<H>>,
    method: Seq<char>,
    local: Seq<char>,
    s: int,
)
    requires
        0 <= s,
        forall|j: int|
            s <= j < routes.len() ==> !spec_route_matches(#[trigger] routes[j], method, local),
    ensures
        first_match_from(routes, method, local, s) is None,
    decreases routes.len() - s,
{
    if s < routes.len() {
        lemma_first_match_exhausted(routes, method, local, s + 1);
    }
}

pub proof fn lemma_first_prefix_found<H>(
    nested: Seq<(String, Router<H>)>,
    full: Seq<char>,
    s: int,
    k: int,
)
    requires
        0 <= s <= k < nested.len(),
        nested[k].0@.is_prefix_of(full),
        forall|j: int| s <= j < k ==> !(#[trigger] nested[j]).0@.is_prefix_of(full),
    ensures
        first_prefix_from(nested, full, s) == Some(k),
    decreases k - s,
{
    if s < k {
        lemma_first_prefix_found(nested, full, s + 1, k);
    }
}

pub proof fn lemma_first_match_none_means_no_match<H>(
    routes: Seq<Route<H>>,
    method: Seq<char>,
    local: Seq<char>,
    s: int,
)
    requires
        0 <= s,
        first_match_from(routes, method, local, s) is None,
    ensures
        forall|j: int|
            s <= j < routes.len() ==> !spec_route_matches(#[trigger] routes[j], method, local),
    decreases routes.len() - s,
{
    if s < routes.len() {
        lemma_first_match_none_means_no_match(routes, method, local, s + 1);
    }
}

/// The outcome of resolution: the route that will handle the request together
/// with the local path it was matched against, or no match at any level.
pub ghost enum Resolution<H> {
    Matched { route: Route<H>, local: Seq<char> },
    NotFound,
}

/// Resolution, in the strict order the router follows: the local path is the
/// full path with this router's own mount prefix stripped; exact routes are
/// scanned first, then pattern routes, then the request is delegated to the
/// first mounted child whose prefix starts the full path.
pub open spec fn resolve<H>(router: Router<H>, method: Seq<char>, full: Seq<char>) -> Resolution<H>
    decreases router,
    via resolve_decreases::<H>
{
    let local = local_path_spec(full, router.mounted@);
    if first_match_from(router.specific_routes@, method, local, 0) is Some {
        Resolution::Matched {
            route: router.specific_routes@[first_match_from(
                router.specific_routes@,
                method,
                local,
                0,
            )->0],
            local,
        }
    } else if first_match_from(router.regex_routes@, method, local, 0) is Some {
        Resolution::Matched {
            route: router.regex_routes@[first_match_from(router.regex_routes@, method, local, 0)->0],
            local,
        }
    } else if first_prefix_from(router.nested_routers@, full, 0) is Some {
        resolve(
            router.nested_routers@[first_prefix_from(router.nested_routers@, full, 0)->0].1,
            method,
            full,
        )
    } else {
        Resolution::NotFound
    }
}

#[via_fn]
proof fn resolve_decreases<H>(router: Router<H>, method: Seq<char>, full: Seq<char>) {
    lemma_first_prefix_bounds(router.nested_routers@, full, 0);
}

/// An exact route wins on literal equality of method and local path,
/// independent of every pattern route: if it is the first exact route that
/// accepts the request, resolution selects it, whatever the pattern list
/// holds and whatever children are mounted.
pub proof fn lemma_exact_route_wins<H>(
    router: Router<H>,
    method: Seq<char>,
    full: Seq<char>,
    i: int,
)
    requires
        0 <= i < router.specific_routes@.len(),
        spec_route_matches(
            router.specific_routes@[i],
            method,
            local_path_spec(full, router.mounted@),
        ),
        forall|j: int|
            0 <= j < i ==> !spec_route_matches(
                #[trigger] router.specific_routes@[j],
                method,
                local_path_spec(full, router.mounted@),
            ),
    ensures
        resolve(router, method, full) == (Resolution::Matched {
            route: router.specific_routes@[i],
            local: local_path_spec(full, router.mounted@),
        }),
{
    let local = local_path_spec(full, router.mounted@);
    lemma_first_match_found(router.specific_routes@, method, local, 0, i);
}

/// First registration wins among pattern routes: when no exact route accepts
/// the request, the first pattern route that does is the one selected, even
/// if later pattern routes would also accept it.
pub proof fn lemma_first_pattern_wins<H>(
    router: Router<H>,
    method: Seq<char>,
    full: Seq<char>,
    i: int,
)
    requires
        forall|j: int|
            0 <= j < router.specific_routes@.len() ==> !spec_route_matches(
                #[trigger] router.specific_routes@[j],
                method,
                local_path_spec(full, router.mounted@),
            ),
        0 <= i < router.regex_routes@.len(),
        spec_route_matches(router.regex_routes@[i], method, local_path_spec(full, router.mounted@)),
        forall|j: int|
            0 <= j < i ==> !spec_route_matches(
                #[trigger] router.regex_routes@[j],
                method,
                local_path_spec(full, router.mounted@),
            ),
    ensures
        resolve(router, method, full) == (Resolution::Matched {
            route: router.regex_routes@[i],
            local: local_path_spec(full, router.mounted@),
        }),
{
    let local = local_path_spec(full, router.mounted@);
    lemma_first_match_exhausted(router.specific_routes@, method, local, 0);
    lemma_first_match_found(router.regex_routes@, method, local, 0, i);
}

/// A request under a mounted child's prefix is delegated to that child: when
/// no local route accepts the request, resolution of the parent is exactly
/// resolution of the first child whose prefix starts the full path — and in
/// a well-formed router that child matches its own routes against the full
/// path with the prefix stripped.
pub proof fn lemma_mounted_child_delegates<H>(
    router: Router<H>,
    method: Seq<char>,
    full: Seq<char>,
    k: int,
)
    requires
        forall|j: int|
            0 <= j < router.specific_routes@.len() ==> !spec_route_matches(
                #[trigger] router.specific_routes@[j],
                method,
                local_path_spec(full, router.mounted@),
            ),
        forall|j: int|
            0 <= j < router.regex_routes@.len() ==> !spec_route_matches(
                #[trigger] router.regex_routes@[j],
                method,
                local_path_spec(full, router.mounted@),
            ),
        0 <= k < router.nested_routers@.len(),
        router.nested_routers@[k].0@.is_prefix_of(full),
        forall|j: int| 0 <= j < k ==> !(#[trigger] router.nested_routers@[j]).0@.is_prefix_of(full),
    ensures
        resolve(router, method, full) == resolve(router.nested_routers@[k].1, method, full),
        router.wf() ==> router.nested_routers@[k].1.mounted@ == router.nested_routers@[k].0@,
{
    let local = local_path_spec(full, router.mounted@);
    lemma_first_match_exhausted(router.specific_routes@, method, local, 0);
    lemma_first_match_exhausted(router.regex_routes@, method, local, 0);
    lemma_first_prefix_found(router.nested_routers@, full, 0, k);
}

/// A not-found outcome is honest: when resolution yields no match, no exact
/// route and no pattern route of this router accepts the request, and if the
/// request was delegated to a mounted child, that child resolved to no match
/// in turn.
pub proof fn lemma_not_found_is_unmatched<H>(router: Router<H>, method: Seq<char>, full: Seq<char>)
    requires
        resolve(router, method, full) is NotFound,
    ensures
        forall|i: int|
            0 <= i < router.specific_routes@.len() ==> !spec_route_matches(
                #[trigger] router.specific_routes@[i],
                method,
                local_path_spec(full, router.mounted@),
            ),
        forall|i: int|
            0 <= i < router.regex_routes@.len() ==> !spec_route_matches(
                #[trigger] router.regex_routes@[i],
                method,
                local_path_spec(full, router.mounted@),
            ),
        first_prefix_from(router.nested_routers@, full, 0) matches Some(k) ==> resolve(
            router.nested_routers@[k].1,
            method,
            full,
        ) is NotFound,
{
    let local = local_path_spec(full, router.mounted@);
    lemma_first_match_none_means_no_match(router.specific_routes@, method, local, 0);
    lemma_first_match_none_means_no_match(router.regex_routes@, method, local, 0);
}

impl<H> Router<H> {
    /// Well-formed: exact and pattern routes are segregated by whether their
    /// pattern is dynamic, every registered dynamic pattern compiles, and each
    /// mounted child carries its own mount prefix and is well-formed in turn.
    pub open spec fn wf(self) -> bool
        decreases self,
    {
        &&& forall|i: int|
            0 <= i < self.specific_routes@.len() ==> !(#[trigger] self.specific_routes@[i]).is_dynamic
                && !spec_is_dynamic(self.specific_routes@[i].path@)
        &&& forall|i: int|
            0 <= i < self.regex_routes@.len() ==> (#[trigger] self.regex_routes@[i]).is_dynamic
                && spec_is_dynamic(self.regex_routes@[i].path@) && pattern_ok(
                self.regex_routes@[i].path@,
            )
        &&& forall|k: int|
            0 <= k < self.nested_routers@.len() ==> (#[trigger] self.nested_routers@[k]).1.mounted@
                == self.nested_routers@[k].0@ && self.nested_routers@[k].1.wf()
    }
}

/// How one registration changes a router: nothing but the proper route list,
/// which grows at its end by the new binding exactly when the pattern is
/// acceptable (a dynamic pattern must compile; an exact one always is).
pub open spec fn added_route<H>(
    o: Router<H>,
    n: Router<H>,
    method: Seq<char>,
    path: Seq<char>,
    handler: H,
    ok: bool,
) -> bool {
    &&& n.mounted == o.mounted
    &&& n.nested_routers == o.nested_routers
    &&& ok == (!spec_is_dynamic(path) || pattern_ok(path))
    &&& !ok ==> n.specific_routes == o.specific_routes && n.regex_routes == o.regex_routes
    &&& ok && !spec_is_dynamic(path) ==> {
        &&& n.regex_routes == o.regex_routes
        &&& n.specific_routes@.len() == o.specific_routes@.len() + 1
        &&& n.specific_routes@.subrange(0, o.specific_routes@.len() as int) == o.specific_routes@
        &&& n.specific_routes@.last().method@ == method
        &&& n.specific_routes@.last().path@ == path
        &&& n.specific_routes@.last().is_dynamic == false
        &&& n.specific_routes@.last().handler == handler
    }
    &&& ok && spec_is_dynamic(path) ==> {
        &&& n.specific_routes == o.specific_routes
        &&& n.regex_routes@.len() == o.regex_routes@.len() + 1
        &&& n.regex_routes@.subrange(0, o.regex_routes@.len() as int) == o.regex_routes@
        &&& n.regex_routes@.last().method@ == method
        &&& n.regex_routes@.last().path@ == path
        &&& n.regex_routes@.last().is_dynamic == true
        &&& n.regex_routes@.last().handler == handler
    }
}

/// The body a handler failure is converted to.
pub open spec fn internal_error_body(message: Seq<char>) -> Seq<char> {
    "Internal Server Error: "@ + message
}

/// Converts a handler's error into an HTTP-visible failure: status 500 and a
/// descriptive body. The error is absorbed here, at the boundary of the
/// router that owns the matched route, and never propagates further.
pub fn absorb_handler_error(res: &mut Response, err: &HttpError)
    ensures
        final(res)@ == with_body(with_status(old(res)@, 500), internal_error_body(err.message@)),
{
    res.set_status(500);
    let mut body = String::from_str("Internal Server Error: ");
    body.append(err.message.as_str());
    res.body(body);
}

impl<H: Handler> Router<H> {
    /// A fresh router with no routes, no children and an empty mount prefix.
    pub fn new() -> (r: Router<H>)
        ensures
            r.wf(),
            r.specific_routes@.len() == 0,
            r.regex_routes@.len() == 0,
            r.nested_routers@.len() == 0,
            r.mounted@.len() == 0,
    {
        Router {
            specific_routes: Vec::new(),
            regex_routes: Vec::new(),
            nested_routers: Vec::new(),
            mounted: String::new(),
        }
    }

    /// Registers a route. A pattern holding a wildcard or a named capture
    /// group is dynamic and is compiled now: a malformed one is rejected here,
    /// at registration time, and the router is left unchanged.
    pub fn add_route(&mut self, method: &str, path: &str, handler: H) -> (r: Result<(), HttpError>)
        requires
            old(self).wf(),
        ensures
            final(self).wf(),
            added_route(*old(self), *final(self), method@, path@, handler, r is Ok),
    {
        let dynamic = is_dynamic_pattern(path);
        if dynamic {
            if !regex_compiles(path) {
                return Err(HttpError::new(String::from_str("invalid route pattern")));
            }
            let route = Route {
                method: String::from_str(method),
                path: String::from_str(path),
                is_dynamic: true,
                handler,
            };
            self.regex_routes.push(route);
            proof {
                assert(self.regex_routes@.subrange(0, old(self).regex_routes@.len() as int)
                    =~= old(self).regex_routes@);
                assert forall|i: int| 0 <= i < self.regex_routes@.len() implies (
                #[trigger] self.regex_routes@[i]).is_dynamic && spec_is_dynamic(
                    self.regex_routes@[i].path@,
                ) && pattern_ok(self.regex_routes@[i].path@) by {
                    if i < old(self).regex_routes@.len() {
                        assert(self.regex_routes@[i] == old(self).regex_routes@[i]);
                    }
                }
            }
            Ok(())
        } else {
            let route = Route {
                method: String::from_str(method),
                path: String::from_str(path),
                is_dynamic: false,
                handler,
            };
            self.specific_routes.push(route);
            proof {
                assert(self.specific_routes@.subrange(0, old(self).specific_routes@.len() as int)
                    =~= old(self).specific_routes@);
                assert forall|i: int| 0 <= i < self.specific_routes@.len() implies !(
                #[trigger] self.specific_routes@[i]).is_dynamic && !spec_is_dynamic(
                    self.specific_routes@[i].path@,
                ) by {
                    if i < old(self).specific_routes@.len() {
                        assert(self.specific_routes@[i] == old(self).specific_routes@[i]);
                    }
                }
            }
            Ok(())
        }
    }

    /// Registers a GET route.
    pub fn get(&mut self, path: &str, handler: H) -> (r: Result<(), HttpError>)
        requires
            old(self).wf(),
        ensures
            final(self).wf(),
            added_route(*old(self), *final(self), "GET"@, path@, handler, r is Ok),
    {
        self.add_route("GET", path, handler)
    }

    /// Registers a POST route.
    pub fn post(&mut self, path: &str, handler: H) -> (r: Result<(), HttpError>)
        requires
            old(self).wf(),
        ensures
            final(self).wf(),
            added_route(*old(self), *final(self), "POST"@, path@, handler, r is Ok),
    {
        self.add_route("POST", path, handler)
    }

    /// Registers a PUT route.
    pub fn put(&mut self, path: &str, handler: H) -> (r: Result<(), HttpError>)
        requires
            old(self).wf(),
        ensures
            final(self).wf(),
            added_route(*old(self), *final(self), "PUT"@, path@, handler, r is Ok),
    {
        self.add_route("PUT", path, handler)
    }

    /// Registers a DELETE route.
    pub fn delete(&mut self, path: &str, handler: H) -> (r: Result<(), HttpError>)
        requires
            old(self).wf(),
        ensures
            final(self).wf(),
            added_route(*old(self), *final(self), "DELETE"@, path@, handler, r is Ok),
    {
        self.add_route("DELETE", path, handler)
    }

    /// Registers a PATCH route.
    pub fn patch(&mut self, path: &str, handler: H) -> (r: Result<(), HttpError>)
        requires
            old(self).wf(),
        ensures
            final(self).wf(),
            added_route(*old(self), *final(self), "PATCH"@, path@, handler, r is Ok),
    {
        self.add_route("PATCH", path, handler)
    }

    /// Mounts a child router under a prefix: the pair is appended to the
    /// children, and the child's own mount prefix is set to the prefix, so
    /// that the child strips it before matching its own routes while this
    /// router keeps testing the unstripped path.
    pub fn use_router(&mut self, path: &str, router: Router<H>)
        requires
            old(self).wf(),
            router.wf(),
        ensures
            final(self).wf(),
            final(self).specific_routes == old(self).specific_routes,
            final(self).regex_routes == old(self).regex_routes,
            final(self).mounted == old(self).mounted,
            final(self).nested_routers@.len() == old(self).nested_routers@.len() + 1,
            final(self).nested_routers@.subrange(0, old(self).nested_routers@.len() as int) == old(
                self,
            ).nested_routers@,
            final(self).nested_routers@.last().0@ == path@,
            final(self).nested_routers@.last().1.mounted@ == path@,
            final(self).nested_routers@.last().1.specific_routes == router.specific_routes,
            final(self).nested_routers@.last().1.regex_routes == router.regex_routes,
            final(self).nested_routers@.last().1.nested_routers == router.nested_routers,
    {
        let mut child = router;
        child.mounted = String::from_str(path);
        self.nested_routers.push((String::from_str(path), child));
        proof {
            assert(self.nested_routers@.subrange(0, old(self).nested_routers@.len() as int)
                =~= old(self).nested_routers@);
            assert forall|k: int| 0 <= k < self.nested_routers@.len() implies (
            #[trigger] self.nested_routers@[k]).1.mounted@ == self.nested_routers@[k].0@
                && self.nested_routers@[k].1.wf() by {
                if k < old(self).nested_routers@.len() {
                    assert(self.nested_routers@[k] == old(self).nested_routers@[k]);
                }
            }
        }
    }

    /// Resolves the request and runs the matched handler. The request's
    /// method and path are never touched; its capture mapping is filled from
    /// the pattern's named groups exactly when a dynamic route is matched. A
    /// handler failure becomes a 500 response; no match becomes a 404
    /// response with the body `Not Found`. The result is always success: the
    /// router is the boundary past which request-level failures do not go.
    fn route(&self, req: &mut Request, res: &mut Response) -> (r: Result<(), HttpError>)
        requires
            self.wf(),
            self.mounted@.len() <= old(req).path@.len(),
        ensures
            r is Ok,
            final(req).method == old(req).method,
            final(req).path == old(req).path,
            (resolve(*self, old(req).method@, old(req).path@) matches Resolution::Matched {
                route,
                local,
            } ==> {
                &&& (!route.is_dynamic ==> final(req).params == old(req).params)
                &&& (route.is_dynamic ==> pairs_map(final(req).params@) == pattern_captures(
                    route.path@,
                    local,
                ))
            }),
            resolve(*self, old(req).method@, old(req).path@) is NotFound ==> final(req).params
                == old(req).params && final(res)@ == with_body(
                with_status(old(res)@, 404),
                "Not Found"@,
            ),
        decreases *self,
    {
        let ghost method_v = req.method@;
        let ghost full_v = req.path@;
        let local: String = if self.mounted.as_str().is_empty() {
            req.path.clone()
        } else {
            strip_mount_prefix(req.path.as_str(), self.mounted.as_str())
        };
        proof {
            assert(local@ == local_path_spec(full_v, self.mounted@));
        }

        // Exact routes first, in registration order.
        let n_specific = self.specific_routes.len();
        for i in 0..n_specific
            invariant
                self.wf(),
                n_specific == self.specific_routes@.len(),
                local@ == local_path_spec(full_v, self.mounted@),
                req.method == old(req).method,
                req.path == old(req).path,
                req.params == old(req).params,
                *res == *old(res),
                method_v == req.method@,
                full_v == req.path@,
                first_match_from(self.specific_routes@, method_v, local@, 0) == first_match_from(
                    self.specific_routes@,
                    method_v,
                    local@,
                    i as int,
                ),
        {
            if route_matches(&self.specific_routes[i], req.method.as_str(), local.as_str()) {
                let out = self.specific_routes[i].handler.call(&*req, res);
                if let Err(e) = out {
                    absorb_handler_error(res, &e);
                }
                return Ok(());
            }
        }

        // Then pattern routes, in registration order.
        let n_regex = self.regex_routes.len();
        for i in 0..n_regex
            invariant
                self.wf(),
                n_regex == self.regex_routes@.len(),
                local@ == local_path_spec(full_v, self.mounted@),
                req.method == old(req).method,
                req.path == old(req).path,
                req.params == old(req).params,
                *res == *old(res),
                method_v == req.method@,
                full_v == req.path@,
                first_match_from(self.specific_routes@, method_v, local@, 0) is None,
                first_match_from(self.regex_routes@, method_v, local@, 0) == first_match_from(
                    self.regex_routes@,
                    method_v,
                    local@,
                    i as int,
                ),
        {
            if route_matches(&self.regex_routes[i], req.method.as_str(), local.as_str()) {
                let caps = regex_named_captures(self.regex_routes[i].path.as_str(), local.as_str());
                req.set_params(caps.unwrap());
                let out = self.regex_routes[i].handler.call(&*req, res);
                if let Err(e) = out {
                    absorb_handler_error(res, &e);
                }
                return Ok(());
            }
        }

        // Then mounted children, first matching prefix of the full path wins.
        let n_nested = self.nested_routers.len();
        for k in 0..n_nested
            invariant
                self.wf(),
                n_nested == self.nested_routers@.len(),
                req.method == old(req).method,
                req.path == old(req).path,
                req.params == old(req).params,
                *res == *old(res),
                method_v == req.method@,
                full_v == req.path@,
                first_match_from(self.specific_routes@, method_v, local_path_spec(full_v, self.mounted@), 0) is None,
                first_match_from(self.regex_routes@, method_v, local_path_spec(full_v, self.mounted@), 0) is None,
                first_prefix_from(self.nested_routers@, full_v, 0) == first_prefix_from(
                    self.nested_routers@,
                    full_v,
                    k as int,
                ),
        {
            if str_starts_with(req.path.as_str(), self.nested_routers[k].0.as_str()) {
                let child = &self.nested_routers[k].1;
                return child.route(req, res);
            }
        }

        // Nothing matched at any level.
        res.set_status(404);
        res.body(String::from_str("Not Found"));
        Ok(())
    }

    /// Resolves a request against this router's subtree and runs the matched
    /// handler; the entry point the surrounding server drives for each
    /// request.
    pub fn handle(&self, req: &mut Request, res: &mut Response) -> (r: Result<(), HttpError>)
        requires
            self.wf(),
            self.mounted@.len() <= old(req).path@.len(),
        ensures
            r is Ok,
            final(req).method == old(req).method,
            final(req).path == old(req).path,
            (resolve(*self, old(req).method@, old(req).path@) matches Resolution::Matched {
                route,
                local,
            } ==> {
                &&& (!route.is_dynamic ==> final(req).params == old(req).params)
                &&& (route.is_dynamic ==> pairs_map(final(req).params@) == pattern_captures(
                    route.path@,
                    local,
                ))
            }),
            resolve(*self, old(req).method@, old(req).path@) is NotFound ==> final(req).params
                == old(req).params && final(res)@ == with_body(
                with_status(old(res)@, 404),
                "Not Found"@,
            ),
    {
        self.route(req, res)
    }

    /// Shares the finished router: it is immutable from here on and may be
    /// read concurrently by any number of in-flight requests.
    pub fn into_arc(self) -> (r: Arc<Router<H>>)
        ensures
            r == self,
    {
        Arc::new(self)
    }
}

/// Whether a route accepts the method and local path, decided as the
/// resolution spec says: literal equality for an exact route, the compiled
/// pattern for a dynamic one.
fn route_matches<H: Handler>(route: &Route<H>, method: &str, local: &str) -> (r: bool)
    requires
        route.is_dynamic ==> pattern_ok(route.path@),
    ensures
        r == spec_route_matches(*route, method@, local@),
{
    if !str_eq(route.method.as_str(), method) {
        return false;
    }
    if route.is_dynamic {
        regex_is_match(route.path.as_str(), local)
    } else {
        str_eq(route.path.as_str(), local)
    }
}

} // verus!

