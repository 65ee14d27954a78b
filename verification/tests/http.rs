//! The HTTP surface: the factory registry, the server-side request
//! pipeline, and the requests built for remote endpoints.

use actix_directory::app::{App, CurrentApp, RouteSource, RouteType, SendOutcome};
use actix_directory::codec::WireFormat;
use actix_directory::http::{encode_response, handle_request};
use actix_directory::message::{OpaqueMessage, Payload};
use actix_directory::remote::{build_request, decode_response, Remote, RemoteRequest};
use actix_directory::router::Route;
use actix_directory::test_plugin::{TestHandler, TestMessage, TestResponse};
use actix_directory::DirectoryError;

const HANDLER: u64 = 11;

fn current_with_server() -> CurrentApp {
    let mut cur = CurrentApp::new();
    App::new()
        .route::<TestMessage>(RouteSource::Target(Route::Local(HANDLER)), RouteType::Server)
        .make_current(&mut cur);
    cur
}

#[test]
fn test_http_server() {
    // A POST body is decoded, forwarded through the directory, and the
    // handler's response encoded back — the reads and writes stay with the
    // host's web server.
    let cur = current_with_server();
    let body = TestMessage(12).to_bin();
    let (msg, outcome) =
        handle_request::<TestMessage>(&cur, WireFormat::Binary, None, &body).unwrap();
    assert_eq!(msg.0, 12);
    let resp = match outcome {
        SendOutcome::Local(t) => {
            assert_eq!(t, HANDLER);
            TestHandler { token: t }.handle(msg)
        }
        _ => panic!("expected local delivery"),
    };
    assert_eq!(resp, TestResponse(12));
    let reply = encode_response(&resp, WireFormat::Binary);
    assert_eq!(reply, vec![12u8]);
}

#[test]
fn json_request_pipeline() {
    let cur = current_with_server();
    let (msg, outcome) =
        handle_request::<TestMessage>(&cur, WireFormat::Json, None, b"34").unwrap();
    assert_eq!(msg.0, 34);
    assert!(matches!(outcome, SendOutcome::Local(HANDLER)));
    assert_eq!(encode_response(&TestResponse(34), WireFormat::Json), b"34".to_vec());
}

#[test]
fn undecodable_body_is_a_codec_error() {
    let cur = current_with_server();
    let r = handle_request::<TestMessage>(&cur, WireFormat::Binary, None, &[1, 2, 3]);
    assert!(matches!(r, Err(DirectoryError::Codec)));
}

#[test]
fn factories_list_the_exposed_paths() {
    let app = App::new()
        .route::<TestMessage>(RouteSource::Target(Route::Local(HANDLER)), RouteType::Server)
        .expose::<TestMessage>();
    // The internal factory carries the opaque envelope from the start, then
    // every locally registered message.
    let internal = app.get_internal_factory();
    let paths: Vec<&str> = internal.entries().iter().map(|e| e.path.as_str()).collect();
    assert_eq!(paths, vec!["/", "/test"]);
    assert_eq!(internal.entries()[1].lane, Some(RouteType::Server));
    // The public factory holds only what was exposed.
    let public = app.get_factory();
    let paths: Vec<&str> = public.entries().iter().map(|e| e.path.as_str()).collect();
    assert_eq!(paths, vec!["/test"]);
    assert_eq!(public.entries()[0].lane, None);
}

#[test]
fn http_request_targets_the_joined_url() {
    // Joining the static path against the registered URL follows URL
    // reference resolution: a trailing segment is replaced.
    let rem = Remote::Http("http://localhost:8000/test".to_string());
    let req = build_request(&rem, &TestMessage(138)).unwrap();
    match req {
        RemoteRequest::Http { url, body } => {
            assert_eq!(url, "http://localhost:8000/test");
            assert_eq!(body, vec![138u8]);
        }
        _ => panic!("expected a URL request"),
    }
}

#[test]
fn opaque_request_is_rooted_at_its_id() {
    let rem = Remote::Http("http://localhost:8000/api/x".to_string());
    let msg = OpaqueMessage::new("lookup".to_string(), vec![1]);
    let req = build_request(&rem, &msg).unwrap();
    match req {
        RemoteRequest::Http { url, body } => {
            assert_eq!(url, "http://localhost:8000/lookup");
            assert_eq!(body, bincode::serialize(&("lookup".to_string(), vec![1u8])).unwrap());
        }
        _ => panic!("expected a URL request"),
    }
}

#[test]
fn unresolvable_url_is_a_transport_error() {
    let rem = Remote::Http("not a url at all".to_string());
    let r = build_request(&rem, &TestMessage(1));
    assert!(matches!(r, Err(DirectoryError::Transport)));
}

#[test]
fn socket_request_carries_the_slash_path() {
    let rem = Remote::LocalHttp("/tmp/dir/main.sock".to_string());
    let req = build_request(&rem, &TestMessage(69)).unwrap();
    match req {
        RemoteRequest::LocalHttp { socket, path, body } => {
            assert_eq!(socket, "/tmp/dir/main.sock");
            assert_eq!(path, "/test");
            assert_eq!(body, vec![69u8]);
        }
        _ => panic!("expected a socket request"),
    }
}

#[test]
fn response_bodies_decode_as_the_response_type() {
    let resp: TestResponse = decode_response::<TestMessage>(&[138u8]).unwrap();
    assert_eq!(resp.0, 138);
    assert!(decode_response::<TestMessage>(&[1, 2, 3]).is_none());
}
