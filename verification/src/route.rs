//! Route patterns, route tables and lookup.
//!
//! A table is an ordered list of registrations, and the order counts: of two
//! equally specific matches the one registered first answers.

use vstd::prelude::*;
use crate::text::{match_prefix, same_text, whole_prefix_is_equal, PrefixMatch};

verus! {

/// The request methods a route can be registered for.
#[derive(Clone, Copy, Debug, PartialEq, Eq, Hash, Structural)]
pub enum Method {
    Get,
    Head,
    Post,
    Put,
    Delete,
    Patch,
    Options,
}

/// The method that a name stands for, as it is written in a request line.
pub open spec fn method_named(name: Seq<char>) -> Option<Method> {
    if name == "GET"@ {
        Some(Method::Get)
    } else if name == "HEAD"@ {
        Some(Method::Head)
    } else if name == "POST"@ {
        Some(Method::Post)
    } else if name == "PUT"@ {
        Some(Method::Put)
    } else if name == "DELETE"@ {
        Some(Method::Delete)
    } else if name == "PATCH"@ {
        Some(Method::Patch)
    } else if name == "OPTIONS"@ {
        Some(Method::Options)
    } else {
        None
    }
}

impl Method {
    /// Reads the name of a method. Names are taken as they are written, in
    /// capitals; any other text names no method that routes are kept for.
    pub fn from_name(name: &str) -> (out: Option<Method>)
        ensures
            out == method_named(name@),
    {
        if same_text(name, "GET") {
            Some(Method::Get)
        } else if same_text(name, "HEAD") {
            Some(Method::Head)
        } else if same_text(name, "POST") {
            Some(Method::Post)
        } else if same_text(name, "PUT") {
            Some(Method::Put)
        } else if same_text(name, "DELETE") {
            Some(Method::Delete)
        } else if same_text(name, "PATCH") {
            Some(Method::Patch)
        } else if same_text(name, "OPTIONS") {
            Some(Method::Options)
        } else {
            None
        }
    }
}

/// Names a request handler without saying what it is. The two handlers this
/// server brings itself have names of their own; any other is known by a
/// number that its owner gave it.
#[derive(Clone, Copy, Debug, PartialEq, Eq, Hash, Structural)]
pub enum HandlerRef {
    Health,
    Hello,
    External(u32),
}

/// A method and a path template. The template is either a literal path, which
/// matches that path alone, or a literal prefix with a catch-all behind it,
/// which matches every path that begins with the prefix.
#[derive(Debug, PartialEq, Eq)]
pub struct RoutePattern {
    method: Method,
    path: String,
    catch_all: bool,
}

/// A pattern as the contracts speak of it.
pub ghost struct PatternView {
    pub method: Method,
    pub path: Seq<char>,
    pub catch_all: bool,
}

impl View for RoutePattern {
    type V = PatternView;

    closed spec fn view(&self) -> PatternView {
        PatternView { method: self.method, path: self.path@, catch_all: self.catch_all }
    }
}

/// A template asks for a catch-all when its last segment is a lone `*`.
pub open spec fn asks_catch_all(template: Seq<char>) -> bool {
    &&& template.len() >= 2
    &&& template[template.len() - 2] == '/'
    &&& template[template.len() - 1] == '*'
}

/// What a template means: `/assets/*` is the prefix `/assets/` with a
/// catch-all, anything else is a literal path.
pub open spec fn parsed_pattern(method: Method, template: Seq<char>) -> PatternView {
    if asks_catch_all(template) {
        PatternView { method, path: template.drop_last(), catch_all: true }
    } else {
        PatternView { method, path: template, catch_all: false }
    }
}

/// Whether a pattern accepts a request.
pub open spec fn pattern_matches(pattern: PatternView, method: Method, path: Seq<char>) -> bool {
    &&& pattern.method == method
    &&& if pattern.catch_all {
        pattern.path.is_prefix_of(path)
    } else {
        pattern.path == path
    }
}

/// How closely a matching pattern fits the path: a catch-all counts the
/// characters of its literal prefix, and a literal path outranks them all.
pub open spec fn specificity(pattern: PatternView, path: Seq<char>) -> nat {
    if pattern.catch_all {
        pattern.path.len()
    } else {
        path.len() + 1
    }
}

impl RoutePattern {
    /// The pattern that matches `path` and nothing else.
    pub fn literal(method: Method, path: &str) -> (out: RoutePattern)
        ensures
            out@ == (PatternView { method, path: path@, catch_all: false }),
    {
        RoutePattern { method, path: path.to_owned(), catch_all: false }
    }

    /// The pattern that matches every path beginning with `prefix`.
    pub fn catch_all(method: Method, prefix: &str) -> (out: RoutePattern)
        ensures
            out@ == (PatternView { method, path: prefix@, catch_all: true }),
    {
        RoutePattern { method, path: prefix.to_owned(), catch_all: true }
    }

    /// Reads a template.
    pub fn parse(method: Method, template: &str) -> (out: RoutePattern)
        ensures
            out@ == parsed_pattern(method, template@),
    {
        let n: usize = template.unicode_len();
        if n >= 2 && template.get_char(n - 1) == '*' && template.get_char(n - 2) == '/' {
            let prefix = template.substring_char(0, n - 1);
            assert(prefix@ == template@.drop_last());
            RoutePattern { method, path: prefix.to_owned(), catch_all: true }
        } else {
            RoutePattern { method, path: template.to_owned(), catch_all: false }
        }
    }

    pub fn method(&self) -> (out: Method)
        ensures
            out == self@.method,
    {
        self.method
    }

    /// The literal path, or the literal prefix of a catch-all.
    pub fn path(&self) -> (out: &str)
        ensures
            out@ == self@.path,
    {
        self.path.as_str()
    }

    pub fn is_catch_all(&self) -> (out: bool)
        ensures
            out == self@.catch_all,
    {
        self.catch_all
    }

    /// Whether the two patterns are one and the same registration key.
    pub fn same_as(&self, other: &RoutePattern) -> (out: bool)
        ensures
            out == (self@ == other@),
    {
        self.method == other.method && self.catch_all == other.catch_all && self.path == other.path
    }

    /// Whether the pattern accepts a request.
    pub fn matches(&self, method: Method, path: &str) -> (out: bool)
        ensures
            out == pattern_matches(self@, method, path@),
    {
        if self.method != method {
            return false;
        }
        proof {
            whole_prefix_is_equal(path@, self.path@);
        }
        match match_prefix(path, self.path.as_str()) {
            PrefixMatch::Missing => false,
            PrefixMatch::Whole => true,
            PrefixMatch::Proper(_) => self.catch_all,
        }
    }
}

impl Clone for RoutePattern {
    fn clone(&self) -> (out: RoutePattern)
        ensures
            out == *self,
    {
        RoutePattern { method: self.method, path: self.path.clone(), catch_all: self.catch_all }
    }
}

/// One registration: a pattern and the handler that answers for it.
#[derive(Debug, PartialEq, Eq)]
pub struct Route {
    pattern: RoutePattern,
    handler: HandlerRef,
}

/// A registration as the contracts speak of it.
pub ghost struct RouteView {
    pub pattern: PatternView,
    pub handler: HandlerRef,
}

impl View for Route {
    type V = RouteView;

    closed spec fn view(&self) -> RouteView {
        RouteView { pattern: self.pattern@, handler: self.handler }
    }
}

impl Route {
    pub fn new(pattern: RoutePattern, handler: HandlerRef) -> (out: Route)
        ensures
            out@ == (RouteView { pattern: pattern@, handler }),
    {
        Route { pattern, handler }
    }

    pub fn pattern(&self) -> (out: &RoutePattern)
        ensures
            out@ == self@.pattern,
    {
        &self.pattern
    }

    pub fn handler(&self) -> (out: HandlerRef)
        ensures
            out == self@.handler,
    {
        self.handler
    }
}

impl Clone for Route {
    fn clone(&self) -> (out: Route)
        ensures
            out == *self,
    {
        Route { pattern: self.pattern.clone(), handler: self.handler }
    }
}

/// Registrations in the order in which they were made.
#[derive(Debug, PartialEq, Eq)]
pub struct RouteTable {
    routes: Vec<Route>,
}

impl View for RouteTable {
    type V = Seq<RouteView>;

    closed spec fn view(&self) -> Seq<RouteView> {
        Seq::new(self.routes@.len(), |i: int| self.routes@[i]@)
    }
}

/// Whether route `i` answers the request: it matches, no matching route is
/// more specific, and no equally specific one was registered before it.
pub open spec fn is_best_match(
    routes: Seq<RouteView>,
    method: Method,
    path: Seq<char>,
    i: int,
) -> bool {
    &&& 0 <= i < routes.len()
    &&& pattern_matches(routes[i].pattern, method, path)
    &&& forall|j: int|
        0 <= j < routes.len() && #[trigger] pattern_matches(routes[j].pattern, method, path)
            ==> specificity(routes[j].pattern, path) < specificity(routes[i].pattern, path) || (
        specificity(routes[j].pattern, path) == specificity(routes[i].pattern, path) && i <= j)
}

/// The handler that answers a request, if any route matches it.
pub open spec fn lookup_spec(routes: Seq<RouteView>, method: Method, path: Seq<char>) -> Option<
    HandlerRef,
> {
    if exists|i: int| is_best_match(routes, method, path, i) {
        Some(routes[choose|i: int| is_best_match(routes, method, path, i)].handler)
    } else {
        None
    }
}

/// At most one route answers a request.
pub proof fn best_match_is_unique(
    routes: Seq<RouteView>,
    method: Method,
    path: Seq<char>,
    i: int,
    j: int,
)
    requires
        is_best_match(routes, method, path, i),
        is_best_match(routes, method, path, j),
    ensures
        i == j,
{
}

/// Whether registration `i` of `routes` is keyed by `pattern`.
pub open spec fn registered_at(routes: Seq<RouteView>, pattern: PatternView, i: int) -> bool {
    0 <= i < routes.len() && routes[i].pattern == pattern
}

/// Whether some registration in `routes` is keyed by `pattern`.
pub open spec fn registers(routes: Seq<RouteView>, pattern: PatternView) -> bool {
    exists|i: int| registered_at(routes, pattern, i)
}

impl RouteTable {
    pub fn new() -> (out: RouteTable)
        ensures
            out@ == Seq::<RouteView>::empty(),
    {
        RouteTable { routes: Vec::new() }
    }

    /// Adds a registration behind those already made.
    pub fn register(&mut self, pattern: RoutePattern, handler: HandlerRef)
        ensures
            final(self)@ == old(self)@.push(RouteView { pattern: pattern@, handler }),
    {
        self.routes.push(Route { pattern, handler });
    }

    pub fn len(&self) -> (out: usize)
        ensures
            out == self@.len(),
    {
        self.routes.len()
    }

    /// The registration at `index`, counted from the first.
    pub fn route(&self, index: usize) -> (out: Option<&Route>)
        ensures
            match out {
                Some(route) => index < self@.len() && route@ == self@[index as int],
                None => index >= self@.len(),
            },
    {
        if index < self.routes.len() {
            Some(&self.routes[index])
        } else {
            None
        }
    }

    /// Whether the table holds a registration of this very pattern.
    pub fn registers(&self, pattern: &RoutePattern) -> (out: bool)
        ensures
            out == registers(self@, pattern@),
    {
        let mut i: usize = 0;
        while i < self.routes.len()
            invariant
                i <= self.routes.len(),
                self@.len() == self.routes.len(),
                forall|k: int| 0 <= k < i ==> !registered_at(self@, pattern@, k),
            decreases self.routes.len() - i,
        {
            assert(self.routes[i as int].pattern@ == self@[i as int].pattern);
            if self.routes[i].pattern.same_as(pattern) {
                assert(registered_at(self@, pattern@, i as int));
                return true;
            }
            i += 1;
        }
        false
    }

    /// Finds the handler that answers a request. A literal path that is
    /// registered answers before any catch-all; of the catch-alls the one with
    /// the longest prefix; of equals the one registered first.
    pub fn lookup(&self, method: Method, path: &str) -> (out: Option<HandlerRef>)
        ensures
            out == lookup_spec(self@, method, path@),
    {
        let mut best: Option<usize> = None;
        let mut best_len: usize = 0;
        let mut i: usize = 0;
        while i < self.routes.len()
            invariant
                i <= self.routes.len(),
                self@.len() == self.routes.len(),
                forall|j: int|
                    0 <= j < i && #[trigger] pattern_matches(self@[j].pattern, method, path@)
                        ==> self@[j].pattern.catch_all,
                match best {
                    Some(b) => {
                        &&& b < i
                        &&& pattern_matches(self@[b as int].pattern, method, path@)
                        &&& best_len == self@[b as int].pattern.path.len()
                        &&& forall|j: int|
                            0 <= j < i && #[trigger] pattern_matches(
                                self@[j].pattern,
                                method,
                                path@,
                            ) ==> self@[j].pattern.path.len() < best_len || (
                            self@[j].pattern.path.len() == best_len && b <= j)
                    },
                    None => forall|j: int|
                        0 <= j < i ==> !#[trigger] pattern_matches(self@[j].pattern, method, path@),
                },
            decreases self.routes.len() - i,
        {
            let route = &self.routes[i];
            assert(route@ == self@[i as int]);
            if route.pattern.matches(method, path) {
                if !route.pattern.catch_all {
                    proof {
                        assert(is_best_match(self@, method, path@, i as int));
                        best_match_is_unique(
                            self@,
                            method,
                            path@,
                            i as int,
                            choose|c: int| is_best_match(self@, method, path@, c),
                        );
                    }
                    return Some(route.handler);
                }
                let len: usize = route.pattern.path.as_str().unicode_len();
                if best.is_none() || best_len < len {
                    best = Some(i);
                    best_len = len;
                }
            }
            i += 1;
        }
        match best {
            Some(b) => {
                proof {
                    assert(is_best_match(self@, method, path@, b as int));
                    best_match_is_unique(
                        self@,
                        method,
                        path@,
                        b as int,
                        choose|c: int| is_best_match(self@, method, path@, c),
                    );
                }
                Some(self.routes[b].handler)
            },
            None => None,
        }
    }
}

} // verus!
