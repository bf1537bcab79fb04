//! The router: an immutable table from (method, exact path) to a handler
//! identifier. Every dispatch, matched or not, is wrapped in the same
//! middleware chain by the pipeline; the router itself only decides which
//! handler, `NotFound`, or `MethodNotAllowed`.

use vstd::prelude::*;

use crate::http::Method;
use crate::http::str_eq;

verus! {

/// Handler identifier of the endpoint reading and writing the cache greeting.
pub const ROOT_HANDLER: u64 = 1;

/// Handler identifier of the endpoint inserting a user row.
pub const CREATE_USER_HANDLER: u64 = 2;

/// One entry of the route table.
pub struct Route {
    pub method: Method,
    pub path: String,
    pub handler: u64,
}

/// The immutable route table, built once before serving starts.
pub struct Router {
    pub routes: Vec<Route>,
}

/// How a dispatch can end.
#[derive(Clone, Copy, PartialEq, Eq, Structural, Debug)]
pub enum RouteOutcome {
    Found(u64),
    NotFound,
    MethodNotAllowed,
}

/// Does the `i`th route carry this path?
pub open spec fn path_at(rs: Seq<Route>, i: int, p: Seq<char>) -> bool {
    &&& 0 <= i < rs.len()
    &&& rs[i].path@ == p
}

/// Is the path in the table under any method?
pub open spec fn path_known(rs: Seq<Route>, p: Seq<char>) -> bool {
    exists|i: int| path_at(rs, i, p)
}

/// Does the `i`th route match method and path, naming handler `h`?
pub open spec fn match_at(rs: Seq<Route>, i: int, m: Method, p: Seq<char>, h: u64) -> bool {
    &&& 0 <= i < rs.len()
    &&& rs[i].method == m
    &&& rs[i].path@ == p
    &&& rs[i].handler == h
}

/// Is there a route matching method and path?
pub open spec fn some_match(rs: Seq<Route>, m: Method, p: Seq<char>) -> bool {
    exists|i: int, h: u64| match_at(rs, i, m, p, h)
}

impl Router {
    /// An empty table.
    pub fn new() -> (r: Router)
        ensures
            r.routes@.len() == 0,
    {
        Router { routes: Vec::new() }
    }

    /// Add one route; the table grows by exactly that entry.
    pub fn route(&mut self, method: Method, path: &str, handler: u64)
        ensures
            final(self).routes@.len() == old(self).routes@.len() + 1,
            final(self).routes@.drop_last() == old(self).routes@,
            final(self).routes@.last().method == method,
            final(self).routes@.last().path@ == path@,
            final(self).routes@.last().handler == handler,
    {
        self.routes.push(Route { method, path: path.to_owned(), handler });
        proof {
            assert(self.routes@.drop_last() =~= old(self).routes@);
        }
    }

    /// Decide a dispatch: a matching route names its handler; a known path
    /// under the wrong method is `MethodNotAllowed`; an unknown path is
    /// `NotFound`.
    pub fn dispatch(&self, method: Method, path: &str) -> (r: RouteOutcome)
        ensures
            (r matches RouteOutcome::Found(h) ==> match_at_some(self.routes@, method, path@, h)),
            some_match(self.routes@, method, path@) ==> r is Found,
            r is NotFound <==> !path_known(self.routes@, path@),
            r is MethodNotAllowed <==> path_known(self.routes@, path@) && !some_match(
                self.routes@,
                method,
                path@,
            ),
    {
        let mut path_seen = false;
        let mut i: usize = 0;
        while i < self.routes.len()
            invariant
                0 <= i <= self.routes@.len(),
                forall|j: int, h: u64| 0 <= j < i ==> !match_at(self.routes@, j, method, path@, h),
                path_seen <==> exists|j: int| 0 <= j < i && path_at(self.routes@, j, path@),
            decreases self.routes@.len() - i,
        {
            if str_eq(self.routes[i].path.as_str(), path) {
                assert(path_at(self.routes@, i as int, path@));
                path_seen = true;
                if self.routes[i].method == method {
                    let h = self.routes[i].handler;
                    assert(match_at(self.routes@, i as int, method, path@, h));
                    return RouteOutcome::Found(h);
                }
            }
            i = i + 1;
        }
        if path_seen {
            RouteOutcome::MethodNotAllowed
        } else {
            RouteOutcome::NotFound
        }
    }
}

/// Is there a route matching method and path whose handler is `h`?
pub open spec fn match_at_some(rs: Seq<Route>, m: Method, p: Seq<char>, h: u64) -> bool {
    exists|i: int| match_at(rs, i, m, p, h)
}

/// The route table of this service: the cache greeting under `GET /` and the
/// user insert under `POST /users`.
pub fn router() -> (r: Router)
    ensures
        r.routes@.len() == 2,
        r.routes@[0].method == Method::Get,
        r.routes@[0].path@ == "/"@,
        r.routes@[0].handler == ROOT_HANDLER,
        r.routes@[1].method == Method::Post,
        r.routes@[1].path@ == "/users"@,
        r.routes@[1].handler == CREATE_USER_HANDLER,
{
    let mut r = Router::new();
    r.route(Method::Get, "/", ROOT_HANDLER);
    r.route(Method::Post, "/users", CREATE_USER_HANDLER);
    r
}

} // verus!
