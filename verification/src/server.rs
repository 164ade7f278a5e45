//! The server as a whole: one merged route table, one static site, and the
//! order in which a request meets them. Routes are tried first; only a
//! request that no route takes goes on to the asset resolver.

use vstd::prelude::*;
use crate::asset::{
    first_step_raw, next_step, ErrorView, Found, FoundView, Pending, PendingView, Resolution,
    ResolutionView, ResolveError, SiteView, StaticSite,
};
use crate::decode::percent_decoded;
use crate::path::{climbs_above_root, is_within, refused_iff_climbs, split_path};
use crate::reply::{
    asset_reply, asset_response, error_reply, error_response, health_check, health_reply,
    hello_handler, hello_reply, hello_text, html_text, json_text, method_not_allowed,
    method_not_allowed_reply, FileReply, FileReplyView, Response, ResponseView,
};
use crate::merge::{
    all_routes, first_literal_registration_answers, first_table_leads, is_first_registration,
    merge, merged, table_views,
};
use crate::route::{
    lookup_spec, registered_at, HandlerRef, Method, PatternView, RoutePattern, RouteTable,
    RouteView,
};

verus! {

/// Everything a running server holds. It is put together once, at startup,
/// and only read from then on.
#[derive(Debug, PartialEq, Eq)]
pub struct Server {
    routes: RouteTable,
    site: StaticSite,
}

/// A server as the contracts speak of it.
pub ghost struct ServerView {
    pub routes: Seq<RouteView>,
    pub site: SiteView,
}

impl View for Server {
    type V = ServerView;

    closed spec fn view(&self) -> ServerView {
        ServerView { routes: self.routes@, site: self.site@ }
    }
}

/// Who is to answer a request.
#[derive(Clone, Copy, Debug, PartialEq, Eq, Structural)]
pub enum Dispatch {
    /// The handler of the route that matched.
    Handler(HandlerRef),
    /// No route matched: the asset resolver.
    Asset,
    /// No route matched, and the method asks for no asset.
    MethodNotAllowed,
}

/// What the caller is to do next for a request.
#[derive(Debug, PartialEq, Eq)]
pub enum Reaction {
    /// Send this answer.
    Respond(Response),
    /// Log this error, then send this answer to it.
    Reject { error: ResolveError, response: Response },
    /// Hand the request to the handler known by this number.
    Forward(u32),
    /// Look at a path and come back with what was found.
    Probe(Pending),
    /// Send this file.
    Serve(FileReply),
}

/// A reaction as the contracts speak of it.
pub ghost enum ReactionView {
    Respond(ResponseView),
    Reject { error: ErrorView, response: ResponseView },
    Forward(u32),
    Probe(PendingView),
    Serve(FileReplyView),
}

impl View for Reaction {
    type V = ReactionView;

    open spec fn view(&self) -> ReactionView {
        match self {
            Reaction::Respond(response) => ReactionView::Respond(response@),
            Reaction::Reject { error, response } => ReactionView::Reject {
                error: error@,
                response: response@,
            },
            Reaction::Forward(id) => ReactionView::Forward(*id),
            Reaction::Probe(pending) => ReactionView::Probe(pending@),
            Reaction::Serve(reply) => ReactionView::Serve(reply@),
        }
    }
}

/// A route for one literal path.
pub open spec fn literal_route(method: Method, path: Seq<char>, handler: HandlerRef) -> RouteView {
    RouteView { pattern: PatternView { method, path, catch_all: false }, handler }
}

/// The routes that the server brings itself. Each answers `GET`, and `HEAD`
/// as `GET` does.
pub open spec fn custom_routes_spec() -> Seq<RouteView> {
    seq![
        literal_route(Method::Get, "/api/health"@, HandlerRef::Health),
        literal_route(Method::Head, "/api/health"@, HandlerRef::Health),
        literal_route(Method::Get, "/api/hello"@, HandlerRef::Hello),
        literal_route(Method::Head, "/api/hello"@, HandlerRef::Hello),
    ]
}

/// The methods that read: they are the ones that assets are served to.
pub open spec fn reads(method: Method) -> bool {
    method == Method::Get || method == Method::Head
}

/// Routes first, then assets for the methods that read, then nothing.
pub open spec fn dispatch_spec(
    routes: Seq<RouteView>,
    method: Method,
    path: Seq<char>,
) -> Dispatch {
    match lookup_spec(routes, method, path) {
        Some(handler) => Dispatch::Handler(handler),
        None => if reads(method) {
            Dispatch::Asset
        } else {
            Dispatch::MethodNotAllowed
        },
    }
}

/// What the caller is to do where a resolution stands.
pub open spec fn reaction_to(resolution: ResolutionView) -> ReactionView {
    match resolution {
        ResolutionView::Probe(pending) => ReactionView::Probe(pending),
        ResolutionView::Resolved(asset) => ReactionView::Serve(asset_reply(asset)),
        ResolutionView::Failed(error) => ReactionView::Reject {
            error,
            response: error_reply(error),
        },
    }
}

/// How the server reacts to a request, as far as it goes without a look at
/// the filesystem.
pub open spec fn reaction(server: ServerView, method: Method, path: Seq<char>) -> ReactionView {
    match dispatch_spec(server.routes, method, path) {
        Dispatch::Handler(HandlerRef::Health) => ReactionView::Respond(health_reply()),
        Dispatch::Handler(HandlerRef::Hello) => ReactionView::Respond(hello_reply()),
        Dispatch::Handler(HandlerRef::External(id)) => ReactionView::Forward(id),
        Dispatch::MethodNotAllowed => ReactionView::Respond(method_not_allowed_reply()),
        Dispatch::Asset => reaction_to(first_step_raw(server.site, path)),
    }
}

/// Whether registration `i` of the server's own table is the first of its
/// pattern in whatever tables follow that table.
proof fn custom_route_is_first(tables: Seq<Seq<RouteView>>, i: int)
    requires
        tables.len() >= 1,
        tables[0] == custom_routes_spec(),
        0 <= i < 4,
    ensures
        is_first_registration(all_routes(tables), i),
        all_routes(tables)[i] == custom_routes_spec()[i],
{
    let routes = all_routes(tables);
    first_table_leads(tables, i);
    reveal_strlit("/api/health");
    reveal_strlit("/api/hello");
    assert("/api/health"@.len() != "/api/hello"@.len());
    assert forall|k: int| !registered_at(routes.take(i), routes[i].pattern, k) by {
        if 0 <= k < i {
            first_table_leads(tables, k);
        }
    }
}

/// The liveness check answers `200 OK` to every `GET` and `HEAD` of
/// `/api/health`, whatever the static site holds and whatever tables are
/// merged behind the server's own.
pub proof fn health_check_always_answers(
    tables: Seq<Seq<RouteView>>,
    site: SiteView,
    method: Method,
)
    requires
        tables.len() >= 1,
        tables[0] == custom_routes_spec(),
        reads(method),
    ensures
        reaction(ServerView { routes: merged(tables), site }, method, "/api/health"@)
            == ReactionView::Respond(health_reply()),
        health_reply().status == 200,
        health_reply().body == "OK"@,
{
    let i: int = if method == Method::Get {
        0
    } else {
        1
    };
    custom_route_is_first(tables, i);
    first_literal_registration_answers(all_routes(tables), i);
}

/// The greeting answers every `GET` and `HEAD` of `/api/hello` with status
/// 200 and the JSON object whose member `message` is `Hello!`, whatever the
/// static site holds and whatever tables are merged behind the server's own.
pub proof fn hello_always_greets(tables: Seq<Seq<RouteView>>, site: SiteView, method: Method)
    requires
        tables.len() >= 1,
        tables[0] == custom_routes_spec(),
        reads(method),
    ensures
        reaction(ServerView { routes: merged(tables), site }, method, "/api/hello"@)
            == ReactionView::Respond(hello_reply()),
        hello_reply().status == 200,
        hello_reply().content_type == json_text(),
        hello_reply().body == hello_text(),
{
    let i: int = if method == Method::Get {
        2
    } else {
        3
    };
    custom_route_is_first(tables, i);
    first_literal_registration_answers(all_routes(tables), i);
}

/// A literal route answers for its path wherever catch-alls stand in the
/// table, before it or after it; and where its handler is the greeting, the
/// answer is the greeting's.
pub proof fn literal_route_answers_before_catch_alls(server: ServerView, i: int)
    requires
        is_first_registration(server.routes, i),
        !server.routes[i].pattern.catch_all,
    ensures
        dispatch_spec(
            server.routes,
            server.routes[i].pattern.method,
            server.routes[i].pattern.path,
        ) == Dispatch::Handler(server.routes[i].handler),
        server.routes[i].handler == HandlerRef::Hello ==> reaction(
            server,
            server.routes[i].pattern.method,
            server.routes[i].pattern.path,
        ) == ReactionView::Respond(hello_reply()),
{
    first_literal_registration_answers(server.routes, i);
}

/// Routes are tried first: a request that a route takes is answered or
/// forwarded at once, and the asset resolver never hears of it.
pub proof fn routes_are_tried_first(server: ServerView, method: Method, path: Seq<char>)
    requires
        lookup_spec(server.routes, method, path) is Some,
    ensures
        reaction(server, method, path) is Respond || reaction(server, method, path) is Forward,
{
}

/// A reading request that no route takes and whose path names nothing is
/// answered with the fallback document, as HTML, with status 200. The answer
/// is a function of the request and of what was found: asking again gives the same.
pub proof fn unmatched_request_gets_fallback(server: ServerView, method: Method, path: Seq<char>)
    requires
        reads(method),
        lookup_spec(server.routes, method, path) is None,
        percent_decoded(path) matches Some(requested) ==> !climbs_above_root(
            split_path(requested),
        ),
    ensures
        ({
            let fallback = ReactionView::Serve(
                FileReplyView {
                    status: 200,
                    path: server.site.fallback,
                    content_type: html_text(),
                },
            );
            match reaction(server, method, path) {
                ReactionView::Probe(pending) => reaction_to(
                    next_step(server.site, pending, FoundView::Absent),
                ) == fallback,
                settled => settled == fallback,
            }
        }),
{
    match percent_decoded(path) {
        Some(requested) => {
            refused_iff_climbs(split_path(requested));
        },
        None => {},
    }
}

/// A request that no route takes and whose path, decoded, climbs above the
/// root is answered `403` at once: nothing is looked at, so nothing outside
/// the root is sent.
pub proof fn climbing_request_is_forbidden(
    server: ServerView,
    method: Method,
    path: Seq<char>,
    requested: Seq<char>,
)
    requires
        dispatch_spec(server.routes, method, path) == Dispatch::Asset,
        percent_decoded(path) == Some(requested),
        climbs_above_root(split_path(requested)),
    ensures
        reaction(server, method, path) == (ReactionView::Reject {
            error: ErrorView::PathTraversalDenied,
            response: error_reply(ErrorView::PathTraversalDenied),
        }),
        error_reply(ErrorView::PathTraversalDenied).status == 403,
{
    refused_iff_climbs(split_path(requested));
}

/// Whatever the caller reports to have found, the only files the server
/// sends are the fallback document and files within the root, and it sends
/// them with status 200.
pub proof fn only_files_within_root_are_served(
    site: SiteView,
    pending: PendingView,
    found: FoundView,
)
    ensures
        reaction_to(next_step(site, pending, found)) matches ReactionView::Serve(reply) ==> {
            &&& reply.status == 200
            &&& reply.path == site.fallback || is_within(site.root, reply.path)
        },
{
}

/// The table of the routes that the server brings itself: the liveness check
/// and the greeting.
pub fn custom_routes() -> (out: RouteTable)
    ensures
        out@ == custom_routes_spec(),
{
    let mut table = RouteTable::new();
    table.register(RoutePattern::literal(Method::Get, "/api/health"), HandlerRef::Health);
    table.register(RoutePattern::literal(Method::Head, "/api/health"), HandlerRef::Health);
    table.register(RoutePattern::literal(Method::Get, "/api/hello"), HandlerRef::Hello);
    table.register(RoutePattern::literal(Method::Head, "/api/hello"), HandlerRef::Hello);
    table
}

fn react(resolution: Resolution) -> (out: Reaction)
    ensures
        out@ == reaction_to(resolution@),
{
    match resolution {
        Resolution::Probe(pending) => Reaction::Probe(pending),
        Resolution::Resolved(asset) => Reaction::Serve(asset_response(asset)),
        Resolution::Failed(error) => {
            let response = error_response(&error);
            Reaction::Reject { error, response }
        },
    }
}

/// What the caller is to do where a file that was to be sent could not be
/// read after all: the filesystem failed, and the request is answered so.
pub fn after_send_failure(detail: String) -> (out: Reaction)
    ensures
        out@ == reaction_to(ResolutionView::Failed(ErrorView::IoError(detail@))),
{
    react(Resolution::Failed(ResolveError::IoError(detail)))
}

impl Server {
    /// A server over the given tables, merged in the order given, and the given site.
    pub fn new(tables: &Vec<RouteTable>, site: StaticSite) -> (out: Server)
        ensures
            out@ == (ServerView { routes: merged(table_views(tables@)), site: site@ }),
    {
        Server { routes: merge(tables), site }
    }

    pub fn routes(&self) -> (out: &RouteTable)
        ensures
            out@ == self@.routes,
    {
        &self.routes
    }

    pub fn site(&self) -> (out: &StaticSite)
        ensures
            out@ == self@.site,
    {
        &self.site
    }

    /// Decides who is to answer a request.
    pub fn dispatch(&self, method: Method, path: &str) -> (out: Dispatch)
        ensures
            out == dispatch_spec(self@.routes, method, path@),
    {
        match self.routes.lookup(method, path) {
            Some(handler) => Dispatch::Handler(handler),
            None => match method {
                Method::Get | Method::Head => Dispatch::Asset,
                _ => Dispatch::MethodNotAllowed,
            },
        }
    }

    /// Takes a request as far as it goes without looking at the filesystem.
    /// The path is the one that arrived: routes are matched against it as it
    /// is, and it is percent-decoded before it is read as the path of an asset.
    pub fn respond(&self, method: Method, path: &str) -> (out: Reaction)
        ensures
            out@ == reaction(self@, method, path@),
    {
        match self.dispatch(method, path) {
            Dispatch::Handler(HandlerRef::Health) => Reaction::Respond(health_check()),
            Dispatch::Handler(HandlerRef::Hello) => Reaction::Respond(hello_handler()),
            Dispatch::Handler(HandlerRef::External(id)) => Reaction::Forward(id),
            Dispatch::MethodNotAllowed => Reaction::Respond(method_not_allowed()),
            Dispatch::Asset => react(self.site.resolve_raw(path)),
        }
    }

    /// Takes a request on with what the caller found at the path it was
    /// asked to look at.
    pub fn resume(&self, pending: Pending, found: Found) -> (out: Reaction)
        ensures
            out@ == reaction_to(next_step(self@.site, pending@, found@)),
    {
        react(self.site.resume(pending, found))
    }
}

} // verus!
