//! The route table: what to answer for each method and path.

use vstd::prelude::*;
use crate::headers::{HeaderEntry, Headers};
use crate::method::Method;

verus! {

/// The HTTP part of a configured answer: the headers to send.
pub struct ResponseHTTPConfig {
    pub headers: Headers,
}

impl Clone for ResponseHTTPConfig {
    fn clone(&self) -> (r: Self)
        ensures
            r.headers@ == self.headers@,
    {
        ResponseHTTPConfig { headers: self.headers.clone() }
    }
}

/// What a route answers: a literal text, or the contents of a file.
pub enum ResponseConfig {
    Text { text: String, http: ResponseHTTPConfig },
    File { source: String, http: ResponseHTTPConfig },
}

/// The model of a configured answer.
pub enum ResponseSpecModel {
    Text { text: Seq<char>, headers: Seq<HeaderEntry> },
    File { source: Seq<char>, headers: Seq<HeaderEntry> },
}

impl View for ResponseConfig {
    type V = ResponseSpecModel;

    open spec fn view(&self) -> ResponseSpecModel {
        match self {
            ResponseConfig::Text { text, http } => ResponseSpecModel::Text {
                text: text@,
                headers: http.headers@,
            },
            ResponseConfig::File { source, http } => ResponseSpecModel::File {
                source: source@,
                headers: http.headers@,
            },
        }
    }
}

impl Clone for ResponseConfig {
    fn clone(&self) -> (r: Self)
        ensures
            r@ == self@,
    {
        match self {
            ResponseConfig::Text { text, http } => ResponseConfig::Text {
                text: text.clone(),
                http: http.clone(),
            },
            ResponseConfig::File { source, http } => ResponseConfig::File {
                source: source.clone(),
                http: http.clone(),
            },
        }
    }
}

/// One route: the method and path it answers, and the answer.
pub struct RouteConfig {
    pub path: String,
    pub method: Method,
    pub response: ResponseConfig,
}

/// The model of a route.
pub struct RouteModel {
    pub method: Method,
    pub path: Seq<char>,
    pub response: ResponseSpecModel,
}

impl View for RouteConfig {
    type V = RouteModel;

    open spec fn view(&self) -> RouteModel {
        RouteModel { method: self.method, path: self.path@, response: self.response@ }
    }
}

/// The index of the first route for `(m, p)` at or after `i`, or `t.len()`.
pub open spec fn route_index(t: Seq<RouteModel>, m: Method, p: Seq<char>, i: int) -> int
    decreases t.len() - i,
{
    if i < 0 || i >= t.len() {
        t.len() as int
    } else if t[i].method == m && t[i].path == p {
        i
    } else {
        route_index(t, m, p, i + 1)
    }
}

/// The answer configured for exactly `(m, p)`, if any.
pub open spec fn lookup_route(t: Seq<RouteModel>, m: Method, p: Seq<char>) -> Option<ResponseSpecModel> {
    let i = route_index(t, m, p, 0);
    if i < t.len() {
        Some(t[i].response)
    } else {
        None
    }
}

/// Adds a route; a route with the same method and path is replaced in place.
pub open spec fn add_route_model(t: Seq<RouteModel>, r: RouteModel) -> Seq<RouteModel> {
    let i = route_index(t, r.method, r.path, 0);
    if i < t.len() {
        t.update(i, r)
    } else {
        t.push(r)
    }
}

/// `route_index` lands on a matching route, or past the end when none matches.
pub proof fn lemma_route_index(t: Seq<RouteModel>, m: Method, p: Seq<char>, i: int)
    requires
        0 <= i <= t.len(),
    ensures
        i <= route_index(t, m, p, i) <= t.len(),
        route_index(t, m, p, i) < t.len() ==> t[route_index(t, m, p, i)].method == m
            && t[route_index(t, m, p, i)].path == p,
        forall|j: int| i <= j < route_index(t, m, p, i) ==> !(t[j].method == m && t[j].path == p),
    decreases t.len() - i,
{
    if i < t.len() && !(t[i].method == m && t[i].path == p) {
        lemma_route_index(t, m, p, i + 1);
    }
}

/// Routes match exactly: an answer is found for `(m, p)` if and only if a route
/// was registered for that very method and that very path, and the answer found
/// is the one of such a route.
pub proof fn lemma_route_exactness(t: Seq<RouteModel>, m: Method, p: Seq<char>)
    ensures
        lookup_route(t, m, p) is Some <==> (exists|i: int|
            0 <= i < t.len() && t[i].method == m && t[i].path == p),
        lookup_route(t, m, p) matches Some(x) ==> (exists|i: int|
            0 <= i < t.len() && t[i].method == m && t[i].path == p && t[i].response == x),
{
    lemma_route_index(t, m, p, 0);
    let i = route_index(t, m, p, 0);
    if i < t.len() {
        assert(t[i].method == m && t[i].path == p);
    }
}

/// The port and the route table of a server.
pub struct ServerConfig {
    pub port: u16,
    routes: Vec<RouteConfig>,
}

/// The model of a server configuration.
pub struct ServerConfigModel {
    pub port: u16,
    pub routes: Seq<RouteModel>,
}

/// The model of stored routes.
spec fn routes_model(v: Seq<RouteConfig>) -> Seq<RouteModel> {
    v.map_values(|r: RouteConfig| r@)
}

impl View for ServerConfig {
    type V = ServerConfigModel;

    closed spec fn view(&self) -> ServerConfigModel {
        ServerConfigModel { port: self.port, routes: routes_model(self.routes@) }
    }
}

impl ServerConfig {
    /// A configuration with no routes.
    pub fn new(port: u16) -> (r: Self)
        ensures
            r@.port == port,
            r@.routes == Seq::<RouteModel>::empty(),
    {
        let r = ServerConfig { port, routes: Vec::new() };
        assert(r@.routes =~= Seq::<RouteModel>::empty());
        r
    }

    /// The port to listen on.
    pub fn port(&self) -> (r: u16)
        ensures
            r == self@.port,
    {
        self.port
    }

    /// The number of routes.
    pub fn route_count(&self) -> (r: usize)
        ensures
            r == self@.routes.len(),
    {
        self.routes.len()
    }

    /// The index of the first route for `(method, path)`, or the number of routes.
    fn position(&self, path: &String, method: &Method) -> (r: usize)
        ensures
            r as int == route_index(self@.routes, *method, path@, 0),
    {
        let mut i: usize = 0;
        while i < self.routes.len()
            invariant
                i <= self.routes.len(),
                self@.routes.len() == self.routes.len(),
                route_index(self@.routes, *method, path@, i as int) == route_index(
                    self@.routes,
                    *method,
                    path@,
                    0,
                ),
            decreases self.routes.len() - i,
        {
            let r = &self.routes[i];
            assert(self@.routes[i as int] == r@);
            if r.method == *method && r.path == *path {
                return i;
            }
            i = i + 1;
        }
        i
    }

    /// Registers a route; a route already there for the same method and path is replaced.
    pub fn add_route(&mut self, path: String, method: Method, response: ResponseConfig)
        ensures
            final(self)@.port == old(self)@.port,
            final(self)@.routes == add_route_model(
                old(self)@.routes,
                RouteModel { method, path: path@, response: response@ },
            ),
    {
        let i = self.position(&path, &method);
        let route = RouteConfig { path, method, response };
        let ghost rm = route@;
        if i < self.routes.len() {
            self.routes.remove(i);
            self.routes.insert(i, route);
            assert(self@.routes =~= add_route_model(old(self)@.routes, rm));
        } else {
            self.routes.push(route);
            assert(self@.routes =~= add_route_model(old(self)@.routes, rm));
        }
    }

    /// The answer configured for exactly this path and method, if any.
    pub fn find_response_config(&self, path: &String, method: &Method) -> (r: Option<ResponseConfig>)
        ensures
            match r {
                Some(c) => lookup_route(self@.routes, *method, path@) == Some(c@),
                None => lookup_route(self@.routes, *method, path@) is None,
            },
    {
        let i = self.position(path, method);
        if i < self.routes.len() {
            assert(self@.routes[i as int] == self.routes@[i as int]@);
            Some(self.routes[i].response.clone())
        } else {
            None
        }
    }
}

} // verus!
