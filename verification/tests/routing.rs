//! The routing scenarios: local routes, fallthrough, string-keyed routes,
//! pending routes and plugin routes, driven the way a host program drives
//! the directory.

use actix_directory::app::{self, App, CurrentApp, RouteSource, RouteType, SendOutcome};
use actix_directory::message::{OpaqueMessage, Payload};
use actix_directory::pending::{PendingAction, PendingRoute, PendingState};
use actix_directory::plugin::Plugin;
use actix_directory::router::Route;
use actix_directory::test_plugin::{TestHandler, TestMessage, TestMessageEmpty, TestResponse};
use actix_directory::DirectoryError;

const HANDLER: u64 = 7;

fn handler() -> TestHandler {
    TestHandler { token: HANDLER }
}

/// Deliver an outcome the way the host would: a mailbox token resolves to
/// the test handler, anything else is a failure here.
fn run_test_message(outcome: SendOutcome, msg: TestMessage) -> Result<TestResponse, DirectoryError> {
    match outcome {
        SendOutcome::Local(t) => {
            assert_eq!(t, HANDLER);
            Ok(handler().handle(msg))
        }
        SendOutcome::Failure(e) => Err(e),
        _ => panic!("unexpected outcome"),
    }
}

fn run_opaque(outcome: SendOutcome, msg: OpaqueMessage) -> Result<OpaqueMessage, DirectoryError> {
    match outcome {
        SendOutcome::Local(t) => {
            assert_eq!(t, HANDLER);
            Ok(handler().handle_opaque(msg))
        }
        SendOutcome::Failure(e) => Err(e),
        _ => panic!("unexpected outcome"),
    }
}

#[test]
fn test_route() {
    let mut cur = CurrentApp::new();
    App::new()
        // explicitly opt out of forwarding `TestMessage` to the server
        .route::<TestMessage>(RouteSource::Target(app::no_client::<TestMessage>()), RouteType::Client)
        .route::<TestMessage>(RouteSource::Target(Route::Local(HANDLER)), RouteType::Server)
        .make_current(&mut cur);

    let out = app::send_in(&cur, &TestMessage(42));
    let res = run_test_message(out, TestMessage(42)).unwrap();
    assert_eq!(res.0, 42);

    let out = app::send_local(&cur, &TestMessage(42));
    let res = run_test_message(out, TestMessage(42));
    assert!(res.is_err());
}

#[test]
fn test_service() {
    let mut cur = CurrentApp::new();
    App::new().service(handler()).make_current(&mut cur);

    let out = app::send_in(&cur, &TestMessage(42));
    let res = run_test_message(out, TestMessage(42)).unwrap();
    assert_eq!(res.0, 42);

    let out = app::send_in(&cur, &TestMessageEmpty);
    match out {
        SendOutcome::Local(t) => assert_eq!(t, HANDLER),
        _ => panic!("empty message should reach the handler"),
    }
}

#[test]
fn client_miss_falls_through_to_server() {
    // The same registration as `test_route` without the rejecting client:
    // `send_local` misses the client lane and the server answers.
    let mut cur = CurrentApp::new();
    App::new()
        .route::<TestMessage>(RouteSource::Target(Route::Local(HANDLER)), RouteType::Server)
        .make_current(&mut cur);
    let out = app::send_local(&cur, &TestMessage(42));
    let res = run_test_message(out, TestMessage(42)).unwrap();
    assert_eq!(res.0, 42);
}

#[test]
fn test_stringly_route() {
    let mut cur = CurrentApp::new();
    App::new()
        .route::<OpaqueMessage>(
            RouteSource::WithId("test".to_string(), Route::Local(HANDLER)),
            RouteType::Server,
        )
        .make_current(&mut cur);

    let msg = OpaqueMessage::new("test".to_string(), Vec::new());
    let out = app::send_in(&cur, &msg);
    let res = run_opaque(out, msg).unwrap();
    assert_eq!(res.id, "test_response");

    let out = app::send_in(&cur, &TestMessage(42));
    let res = run_test_message(out, TestMessage(42));
    assert!(res.is_err());
}

#[test]
fn test_stringly_service() {
    let mut cur = CurrentApp::new();
    App::new().service(handler()).make_current(&mut cur);

    let out = app::send_in(&cur, &TestMessage(42));
    let res = run_test_message(out, TestMessage(42)).unwrap();
    assert_eq!(res.0, 42);

    let msg = OpaqueMessage::new("test".to_string(), Vec::new());
    let out = app::send_in(&cur, &msg);
    let res = run_opaque(out, msg).unwrap();
    assert_eq!(res.id, "test_response");

    let msg = OpaqueMessage::new("other".to_string(), Vec::new());
    let out = app::send_in(&cur, &msg);
    let res = run_opaque(out, msg);
    assert!(res.is_err());
}

#[test]
fn test_fut_service() {
    // The route's destination arrives later: a pending entry takes the
    // messages in the meantime.
    const PENDING: u64 = 3;
    let mut cur = CurrentApp::new();
    App::new()
        .route::<TestMessage>(RouteSource::Target(Route::Pending(PENDING)), RouteType::Server)
        .make_current(&mut cur);
    let mut pr: PendingRoute<TestMessage> = PendingRoute::new().set_type(RouteType::Server);

    // A message sent before the future fires is queued on the pending route.
    let out = app::send_in(&cur, &TestMessage(42));
    match out {
        SendOutcome::Pending(t) => assert_eq!(t, PENDING),
        _ => panic!("expected the pending entry"),
    }
    assert_eq!(pr.handle(TestMessage(42)), PendingAction::Hold);

    // The future fires: the handler is installed and the queue drains.
    let drained = pr.resolve(cur.current_mut(), Route::Local(HANDLER));
    assert_eq!(pr.state(), PendingState::Resolved);
    assert_eq!(drained.len(), 1);
    for (msg, out) in drained {
        let res = run_test_message(out, msg).unwrap();
        assert_eq!(res.0, 42);
    }

    // Messages arriving after the transition skip the queue.
    let out = app::send_in(&cur, &TestMessage(42));
    let res = run_test_message(out, TestMessage(42)).unwrap();
    assert_eq!(res.0, 42);
}

#[test]
fn pending_failure_rejects_held_messages() {
    let mut pr: PendingRoute<TestMessage> = PendingRoute::new().set_type(RouteType::Server);
    assert_eq!(pr.handle(TestMessage(1)), PendingAction::Hold);
    assert_eq!(pr.handle(TestMessage(2)), PendingAction::Hold);
    let drained = pr.fail();
    assert_eq!(drained.len(), 2);
    assert_eq!(drained[0].0, 1);
    assert_eq!(drained[1].0, 2);
    // A message arriving after the failure fails as well.
    assert_eq!(pr.handle(TestMessage(3)), PendingAction::Fail);
}

#[test]
fn replacement_reroutes_messages() {
    // Two successive inserts for the same message type: lookups resolve to
    // the second handler only.
    let mut cur = CurrentApp::new();
    App::new()
        .route::<TestMessage>(RouteSource::Target(Route::Local(1)), RouteType::Server)
        .route::<TestMessage>(RouteSource::Target(Route::Local(2)), RouteType::Server)
        .make_current(&mut cur);
    let out = app::send_in(&cur, &TestMessage(9));
    match out {
        SendOutcome::Local(t) => assert_eq!(t, 2),
        _ => panic!("expected the replacing handler"),
    }
}

#[test]
fn unrouted_message_fails_on_every_alias() {
    let cur = CurrentApp::new();
    for out in [
        app::send(&cur, &TestMessage(1)),
        app::send_local(&cur, &TestMessage(1)),
        app::send_in(&cur, &TestMessage(1)),
        app::send_out(&cur, &TestMessage(1)),
    ] {
        match out {
            SendOutcome::Failure(DirectoryError::Route) => {}
            _ => panic!("expected a route error"),
        }
    }
}

#[test]
fn test_plugin() {
    let plugin = Plugin {
        name: "test_plugin".to_string(),
        exec_path: "./target/debug/test-plugin".to_string(),
        opt_args: Vec::new(),
        messages: vec!["test".to_string(), "test_empty".to_string()],
    };
    let dir = "/tmp/ad-sockets";
    let (app, spawn) = plugin.add_to(App::new(), dir);
    assert_eq!(spawn.exec_path, "./target/debug/test-plugin");
    assert_eq!(
        spawn.args,
        vec![
            "/tmp/ad-sockets/main.sock".to_string(),
            "/tmp/ad-sockets/test_plugin.sock".to_string()
        ]
    );

    let mut cur = CurrentApp::new();
    app.make_current(&mut cur);

    let inner = TestMessage(123).to_bin();
    let msg = OpaqueMessage::new("test".to_string(), inner.clone());
    let out = app::send(&cur, &msg);
    match out {
        SendOutcome::Request(actix_directory::remote::RemoteRequest::LocalHttp {
            socket,
            path,
            body,
        }) => {
            assert_eq!(socket, "/tmp/ad-sockets/test_plugin.sock");
            assert_eq!(path, "/test");
            // The body is the envelope, id and bytes together, so the
            // receiver can dispatch by its own id lookup.
            let expected = bincode::serialize(&("test".to_string(), inner)).unwrap();
            assert_eq!(body, expected);
        }
        _ => panic!("expected a socket request to the plugin"),
    }

    // An id the plugin did not declare meets a route error.
    let msg = OpaqueMessage::new("unknown".to_string(), Vec::new());
    match app::send(&cur, &msg) {
        SendOutcome::Failure(DirectoryError::Route) => {}
        _ => panic!("expected a route error"),
    }
}

#[test]
fn default_route_catches_misses() {
    let mut cur = CurrentApp::new();
    App::new()
        .default_route(actix_directory::remote::Remote::Http(
            "http://localhost:9000/".to_string(),
        ))
        .make_current(&mut cur);
    let out = app::send(&cur, &TestMessage(5));
    match out {
        SendOutcome::Request(actix_directory::remote::RemoteRequest::Http { url, body }) => {
            assert_eq!(url, "http://localhost:9000/test");
            assert_eq!(body, vec![5u8]);
        }
        _ => panic!("expected the default upstream to take the message"),
    }
}
