//! The per-request values the dispatch core works on: a parsed request
//! (read-only to routing, except for the capture mapping filled in when a
//! dynamic route matches), a response mutated in place by handlers and
//! middleware, and the error a failing stage reports.

use vstd::prelude::*;
use vstd::string::StrSliceExecFns;

verus! {

use crate::strutil::str_eq;

/// The error a handler or middleware reports when it fails. Routing converts
/// it into a 500 response at the router boundary; it never escapes as a
/// process-level failure.
pub struct HttpError {
    pub message: String,
}

impl HttpError {
    pub fn new(message: String) -> (r: HttpError)
        ensures
            r.message@ == message@,
    {
        HttpError { message }
    }

    pub fn message(&self) -> (r: &String)
        ensures
            r@ == self.message@,
    {
        &self.message
    }
}

/// Looks a name up in a capture list, first binding wins; later pairs with the
/// same name are shadowed by the earliest one.
pub open spec fn lookup_param(params: Seq<(Seq<char>, Seq<char>)>, name: Seq<char>) -> Option<
    Seq<char>,
>
    decreases params.len(),
{
    if params.len() == 0 {
        None
    } else if params[0].0 == name {
        Some(params[0].1)
    } else {
        lookup_param(params.drop_first(), name)
    }
}

/// One already-parsed request. Routing reads the method and path and, when a
/// dynamic route matches, fills the capture mapping from the pattern's named
/// groups.
pub struct Request {
    pub method: String,
    pub path: String,
    pub params: Vec<(String, String)>,
}

/// The capture pairs as ghost sequences of characters.
pub open spec fn params_view(params: Seq<(String, String)>) -> Seq<(Seq<char>, Seq<char>)> {
    params.map_values(|p: (String, String)| (p.0@, p.1@))
}

impl Request {
    pub fn new(method: String, path: String) -> (r: Request)
        ensures
            r.method@ == method@,
            r.path@ == path@,
            r.params@.len() == 0,
    {
        Request { method, path, params: Vec::new() }
    }

    pub fn method(&self) -> (r: &String)
        ensures
            r@ == self.method@,
    {
        &self.method
    }

    pub fn path(&self) -> (r: &String)
        ensures
            r@ == self.path@,
    {
        &self.path
    }

    /// Replaces the capture mapping; done by the router when a dynamic route
    /// matches, before the route's handler runs.
    pub fn set_params(&mut self, params: Vec<(String, String)>)
        ensures
            final(self).params == params,
            final(self).method == old(self).method,
            final(self).path == old(self).path,
    {
        self.params = params;
    }

    /// The substring the named capture group matched, if the name is bound.
    pub fn param(&self, name: &str) -> (r: Option<&String>)
        ensures
            match r {
                Some(v) => lookup_param(params_view(self.params@), name@) == Some(v@),
                None => lookup_param(params_view(self.params@), name@) is None,
            },
    {
        let n = self.params.len();
        let ghost pv = params_view(self.params@);
        proof {
            assert(pv.skip(0) =~= pv);
        }
        for i in 0..n
            invariant
                n == self.params@.len(),
                pv == params_view(self.params@),
                lookup_param(pv, name@) == lookup_param(pv.skip(i as int), name@),
        {
            proof {
                assert(pv[i as int] == (self.params@[i as int].0@, self.params@[i as int].1@));
                assert(pv.skip(i as int)[0] == pv[i as int]);
                assert(pv.skip(i as int).drop_first() =~= pv.skip(i + 1));
            }
            if str_eq(self.params[i].0.as_str(), name) {
                return Some(&self.params[i].1);
            }
        }
        proof {
            assert(pv.skip(n as int) =~= Seq::<(Seq<char>, Seq<char>)>::empty());
        }
        None
    }
}

/// What is observable of a response: the status code and the body, if one was
/// written. Each mutator overwrites the previous value whole, so only the last
/// write is observable.
pub ghost struct ResponseModel {
    pub status: u16,
    pub body: Option<Seq<char>>,
}

/// The model after a status write: the body is untouched.
pub open spec fn with_status(m: ResponseModel, code: u16) -> ResponseModel {
    ResponseModel { status: code, ..m }
}

/// The model after a body write: the status is untouched.
pub open spec fn with_body(m: ResponseModel, body: Seq<char>) -> ResponseModel {
    ResponseModel { body: Some(body), ..m }
}

/// The response one request's pipeline mutates in place. Mutation is the only
/// side channel handlers use; the pipeline's `Result` signals pipeline-level
/// failure, never the payload.
pub struct Response {
    status: u16,
    body: Option<String>,
}

impl View for Response {
    type V = ResponseModel;

    closed spec fn view(&self) -> ResponseModel {
        ResponseModel {
            status: self.status,
            body: match self.body {
                Some(b) => Some(b@),
                None => None,
            },
        }
    }
}

impl Response {
    /// A fresh response: status 200 and no body written yet.
    pub fn new() -> (r: Response)
        ensures
            r@ == (ResponseModel { status: 200, body: None::<Seq<char>> }),
    {
        Response { status: 200, body: None }
    }

    /// Overwrites the status code; the last write wins.
    pub fn set_status(&mut self, code: u16)
        ensures
            final(self)@ == with_status(old(self)@, code),
    {
        self.status = code;
    }

    /// Overwrites the body; the last write wins.
    pub fn body(&mut self, body: String)
        ensures
            final(self)@ == with_body(old(self)@, body@),
    {
        self.body = Some(body);
    }

    pub fn get_status(&self) -> (r: u16)
        ensures
            r == self@.status,
    {
        self.status
    }

    /// The body as bytes, if one was written (UTF-8 of the characters written).
    pub fn get_body(&self) -> (r: Option<Vec<u8>>)
        ensures
            match r {
                Some(b) => self@.body is Some && b@ == vstd::utf8::encode_utf8(self@.body->0),
                None => self@.body is None,
            },
    {
        match &self.body {
            Some(b) => Some(b.as_str().as_bytes_vec()),
            None => None,
        }
    }
}

/// Capture round-trip law: looking a name up on a request (first binding
/// wins) agrees with the binding map the router's contract promises for the
/// capture list — so when a dynamic route is matched, a handler reading
/// `param(name)` sees exactly the substring the pattern's named group
/// matched, and `None` for every unbound name.
pub proof fn lemma_param_lookup_consistent(ps: Seq<(String, String)>, name: Seq<char>)
    ensures
        crate::pattern::pairs_map(ps).contains_key(name) <==> lookup_param(
            params_view(ps),
            name,
        ) is Some,
        lookup_param(params_view(ps), name) matches Some(v) ==> crate::pattern::pairs_map(
            ps,
        )[name] == v,
    decreases ps.len(),
{
    if ps.len() > 0 {
        assert(params_view(ps).drop_first() =~= params_view(ps.drop_first()));
        lemma_param_lookup_consistent(ps.drop_first(), name);
    }
}

/// Status and body writes are idempotent in the last-write-wins sense: writing
/// twice leaves exactly the state of the second write, and writing the same
/// value twice equals writing it once.
pub proof fn lemma_last_write_wins(m: ResponseModel, c1: u16, c2: u16, b1: Seq<char>, b2: Seq<char>)
    ensures
        with_status(with_status(m, c1), c2) == with_status(m, c2),
        with_body(with_body(m, b1), b2) == with_body(m, b2),
{
}

} // verus!
