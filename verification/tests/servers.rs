use spa_server::asset::{Found, ResolveError, StaticSite};
use spa_server::reply::{FileReply, Response};
use spa_server::route::{HandlerRef, Method, RoutePattern, RouteTable};
use spa_server::server::{after_send_failure, custom_routes, Dispatch, Reaction, Server};
use spa_server::startup::establish;

fn site_at(root: &str) -> StaticSite {
    establish(
        Found::Directory { canonical: root.to_string() },
        Found::File { canonical: format!("{}/index.html", root) },
    )
    .expect("a directory and a file")
}

fn external() -> RouteTable {
    let mut table = RouteTable::new();
    table.register(RoutePattern::parse(Method::Get, "/api/health"), HandlerRef::External(1));
    table.register(RoutePattern::parse(Method::Get, "/api/records/*"), HandlerRef::External(2));
    table.register(RoutePattern::parse(Method::Post, "/api/records/*"), HandlerRef::External(3));
    table
}

fn server() -> Server {
    Server::new(&vec![custom_routes(), external()], site_at("/srv/www"))
}

fn ok() -> Reaction {
    Reaction::Respond(Response {
        status: 200,
        content_type: "text/plain; charset=utf-8".to_string(),
        body: "OK".to_string(),
    })
}

/// Takes a request to its end against a filesystem that answers every look the same way.
fn finish(server: &Server, method: Method, path: &str, found: Found) -> Reaction {
    let mut reaction = server.respond(method, path);
    let mut looks = 0;
    while let Reaction::Probe(pending) = reaction {
        looks += 1;
        assert!(looks <= 2);
        reaction = server.resume(pending, found.clone());
    }
    reaction
}

#[test]
fn custom_routes_are_the_health_check_and_the_greeting() {
    let table = custom_routes();
    assert_eq!(table.len(), 4);
    assert_eq!(table.lookup(Method::Get, "/api/health"), Some(HandlerRef::Health));
    assert_eq!(table.lookup(Method::Head, "/api/health"), Some(HandlerRef::Health));
    assert_eq!(table.lookup(Method::Get, "/api/hello"), Some(HandlerRef::Hello));
    assert_eq!(table.lookup(Method::Head, "/api/hello"), Some(HandlerRef::Hello));
    assert_eq!(table.lookup(Method::Post, "/api/health"), None);
    assert_eq!(table.lookup(Method::Get, "/api/health/"), None);
}

#[test]
fn server_holds_the_merged_table_and_the_site() {
    let server = server();
    assert_eq!(server.routes().len(), 6);
    assert_eq!(server.site(), &site_at("/srv/www"));
}

#[test]
fn dispatch_tries_routes_before_assets() {
    let server = server();
    assert_eq!(server.dispatch(Method::Get, "/api/health"), Dispatch::Handler(HandlerRef::Health));
    assert_eq!(server.dispatch(Method::Get, "/api/hello"), Dispatch::Handler(HandlerRef::Hello));
    assert_eq!(server.dispatch(Method::Get, "/api/records/1"), Dispatch::Handler(HandlerRef::External(2)));
    assert_eq!(server.dispatch(Method::Post, "/api/records/1"), Dispatch::Handler(HandlerRef::External(3)));
    assert_eq!(server.dispatch(Method::Get, "/assets/app.js"), Dispatch::Asset);
    assert_eq!(server.dispatch(Method::Head, "/assets/app.js"), Dispatch::Asset);
    assert_eq!(server.dispatch(Method::Get, "/api/other"), Dispatch::Asset);
}

#[test]
fn dispatch_allows_only_reading_methods_on_assets() {
    let server = server();
    for method in [Method::Post, Method::Put, Method::Delete, Method::Patch, Method::Options] {
        assert_eq!(server.dispatch(method, "/assets/app.js"), Dispatch::MethodNotAllowed);
    }
    assert_eq!(
        server.respond(Method::Delete, "/assets/app.js"),
        Reaction::Respond(Response {
            status: 405,
            content_type: "text/plain; charset=utf-8".to_string(),
            body: "Method Not Allowed".to_string(),
        })
    );
}

#[test]
fn health_is_answered_whatever_the_static_root_holds() {
    for root in ["/srv/www", "/nonexistent", "", "/"] {
        let server = Server::new(&vec![custom_routes(), external()], site_at(root));
        assert_eq!(server.respond(Method::Get, "/api/health"), ok());
        assert_eq!(server.respond(Method::Head, "/api/health"), ok());
    }
    let alone = Server::new(&vec![custom_routes()], site_at("/srv/www"));
    assert_eq!(alone.respond(Method::Get, "/api/health"), ok());
}

#[test]
fn hello_is_answered_with_the_greeting() {
    let reaction = server().respond(Method::Get, "/api/hello");
    assert_eq!(
        reaction,
        Reaction::Respond(Response {
            status: 200,
            content_type: "application/json".to_string(),
            body: "{\"message\":\"Hello!\"}".to_string(),
        })
    );
}

#[test]
fn the_custom_handler_answers_where_an_external_route_has_the_same_path() {
    let server = server();
    assert_eq!(server.routes().lookup(Method::Get, "/api/health"), Some(HandlerRef::Health));
    assert_eq!(server.respond(Method::Get, "/api/health"), ok());
    let reversed = Server::new(&vec![external(), custom_routes()], site_at("/srv/www"));
    assert_eq!(reversed.respond(Method::Get, "/api/health"), Reaction::Forward(1));
}

#[test]
fn the_greeting_beats_a_catch_all_registered_before_or_after_it() {
    let greeting = Reaction::Respond(Response {
        status: 200,
        content_type: "application/json".to_string(),
        body: "{\"message\":\"Hello!\"}".to_string(),
    });
    let mut before = RouteTable::new();
    before.register(RoutePattern::parse(Method::Get, "/api/*"), HandlerRef::External(9));
    let ahead = Server::new(&vec![before, custom_routes()], site_at("/srv/www"));
    assert_eq!(ahead.respond(Method::Get, "/api/hello"), greeting);
    assert_eq!(ahead.respond(Method::Get, "/api/other"), Reaction::Forward(9));
    let mut after = RouteTable::new();
    after.register(RoutePattern::parse(Method::Get, "/api/*"), HandlerRef::External(9));
    let behind = Server::new(&vec![custom_routes(), after], site_at("/srv/www"));
    assert_eq!(behind.respond(Method::Get, "/api/hello"), greeting);
    assert_eq!(behind.respond(Method::Head, "/api/hello"), greeting);
}

#[test]
fn a_file_that_cannot_be_sent_is_answered_with_a_server_error() {
    assert_eq!(
        after_send_failure("vanished".to_string()),
        Reaction::Reject {
            error: ResolveError::IoError("vanished".to_string()),
            response: Response {
                status: 500,
                content_type: "text/plain; charset=utf-8".to_string(),
                body: "Internal Server Error".to_string(),
            },
        }
    );
}

#[test]
fn an_external_route_is_forwarded() {
    assert_eq!(server().respond(Method::Get, "/api/records/42"), Reaction::Forward(2));
    assert_eq!(server().respond(Method::Post, "/api/records/42"), Reaction::Forward(3));
}

#[test]
fn a_file_that_exists_is_served() {
    let server = server();
    let reaction = finish(
        &server,
        Method::Get,
        "/assets/app.css",
        Found::File { canonical: "/srv/www/assets/app.css".to_string() },
    );
    assert_eq!(
        reaction,
        Reaction::Serve(FileReply {
            status: 200,
            path: "/srv/www/assets/app.css".to_string(),
            content_type: "text/css".to_string(),
        })
    );
}

#[test]
fn an_unknown_path_is_answered_with_the_fallback_document() {
    let server = server();
    let fallback = Reaction::Serve(FileReply {
        status: 200,
        path: "/srv/www/index.html".to_string(),
        content_type: "text/html".to_string(),
    });
    assert_eq!(finish(&server, Method::Get, "/dashboard/settings", Found::Absent), fallback);
    assert_eq!(finish(&server, Method::Get, "/dashboard/settings", Found::Absent), fallback);
    assert_eq!(finish(&server, Method::Head, "/anything/else", Found::Absent), fallback);
    assert_eq!(
        finish(&server, Method::Get, "/docs", Found::Directory { canonical: "/srv/www/docs".to_string() }),
        fallback
    );
}

#[test]
fn a_traversal_is_answered_forbidden_without_a_look() {
    let server = server();
    let forbidden = Reaction::Reject {
        error: ResolveError::PathTraversalDenied,
        response: Response {
            status: 403,
            content_type: "text/plain; charset=utf-8".to_string(),
            body: "Forbidden".to_string(),
        },
    };
    assert_eq!(server.respond(Method::Get, "/../../etc/passwd"), forbidden);
    assert_eq!(server.respond(Method::Head, "/assets/../../secret"), forbidden);
}

#[test]
fn a_traversal_in_escapes_is_answered_forbidden() {
    let server = server();
    match server.respond(Method::Get, "/%2e%2e/%2e%2e/etc/passwd") {
        Reaction::Reject { error, response } => {
            assert_eq!(error, ResolveError::PathTraversalDenied);
            assert_eq!(response.status, 403);
        }
        other => panic!("expected a rejection, got {:?}", other),
    }
}

#[test]
fn an_escaped_path_is_decoded_for_assets_but_not_for_routes() {
    let server = server();
    assert_eq!(server.dispatch(Method::Get, "/api/he%61lth"), Dispatch::Asset);
    let reaction = finish(
        &server,
        Method::Get,
        "/docs/read%20me.txt",
        Found::File { canonical: "/srv/www/docs/read me.txt".to_string() },
    );
    assert_eq!(
        reaction,
        Reaction::Serve(FileReply {
            status: 200,
            path: "/srv/www/docs/read me.txt".to_string(),
            content_type: "text/plain".to_string(),
        })
    );
    match server.respond(Method::Get, "/docs/read%20me.txt") {
        Reaction::Probe(pending) => assert_eq!(pending.path(), "/srv/www/docs/read me.txt"),
        other => panic!("expected a look to be asked for, got {:?}", other),
    }
}

#[test]
fn a_path_that_is_no_text_is_answered_with_the_fallback_document() {
    assert_eq!(
        server().respond(Method::Get, "/%ff%fe"),
        Reaction::Serve(FileReply {
            status: 200,
            path: "/srv/www/index.html".to_string(),
            content_type: "text/html".to_string(),
        })
    );
}

#[test]
fn a_link_out_of_the_root_is_answered_forbidden() {
    let server = server();
    let reaction = finish(&server, Method::Get, "/passwd", Found::File { canonical: "/etc/passwd".to_string() });
    assert_eq!(
        reaction,
        Reaction::Reject {
            error: ResolveError::PathTraversalDenied,
            response: Response {
                status: 403,
                content_type: "text/plain; charset=utf-8".to_string(),
                body: "Forbidden".to_string(),
            },
        }
    );
}

#[test]
fn a_failing_or_silent_filesystem_is_answered_with_a_server_error() {
    let server = server();
    let rejected = |detail: &str| Reaction::Reject {
        error: ResolveError::IoError(detail.to_string()),
        response: Response {
            status: 500,
            content_type: "text/plain; charset=utf-8".to_string(),
            body: "Internal Server Error".to_string(),
        },
    };
    assert_eq!(
        finish(&server, Method::Get, "/a", Found::Failed { detail: "permission denied".to_string() }),
        rejected("permission denied")
    );
    assert_eq!(
        finish(&server, Method::Get, "/a", Found::TimedOut),
        rejected("the filesystem did not answer in time")
    );
}
