//! The message types and handlers used by the directory's tests and by the
//! demonstration plugin: a one-byte request echoed back as a one-byte
//! response, an empty message, and a handler answering both, including the
//! opaque envelope under the id `test`.

use vstd::prelude::*;
use vstd::slice::slice_to_vec;
use vstd::string::*;

use crate::app::{App, RouteSource, RouteType, Service};
use crate::codec::{json_decode_byte, json_encode_byte, json_wire_byte};
use crate::message::{MessageExt, OpaqueMessage, Payload};
use crate::router::Route;

verus! {

/// A request carrying one byte; its response echoes the byte back.
#[derive(Clone, Copy, Debug, PartialEq, Eq, Structural)]
pub struct TestMessage(pub u8);

/// The response to a `TestMessage`.
#[derive(Clone, Copy, Debug, PartialEq, Eq, Structural)]
pub struct TestResponse(pub u8);

/// A request carrying nothing.
#[derive(Clone, Copy, Debug, PartialEq, Eq, Structural)]
pub struct TestMessageEmpty;

impl DeepView for TestMessage {
    type V = u8;

    open spec fn deep_view(&self) -> u8 {
        self.0
    }
}

impl DeepView for TestResponse {
    type V = u8;

    open spec fn deep_view(&self) -> u8 {
        self.0
    }
}

impl DeepView for TestMessageEmpty {
    type V = ();

    open spec fn deep_view(&self) -> () {
        ()
    }
}

impl Payload for TestMessage {
    /// One byte: the little-endian fixed-width layout the socket peers use.
    open spec fn wire_bin(&self) -> Seq<u8> {
        seq![self.0]
    }

    open spec fn wire_json(&self) -> Seq<u8> {
        json_wire_byte(self.0)
    }

    fn to_bin(&self) -> (r: Vec<u8>) {
        let mut v: Vec<u8> = Vec::new();
        v.push(self.0);
        proof {
            assert(v@ =~= seq![self.0]);
        }
        v
    }

    fn from_bin(w: &[u8]) -> (r: Option<Self>) {
        if w.len() == 1 {
            Some(TestMessage(w[0]))
        } else {
            None
        }
    }

    fn to_json(&self) -> (r: Vec<u8>) {
        json_encode_byte(self.0)
    }

    fn from_json(w: &[u8]) -> (r: Option<Self>) {
        match json_decode_byte(w) {
            Some(x) => Some(TestMessage(x)),
            None => None,
        }
    }
}

impl Payload for TestResponse {
    /// One byte: the little-endian fixed-width layout the socket peers use.
    open spec fn wire_bin(&self) -> Seq<u8> {
        seq![self.0]
    }

    open spec fn wire_json(&self) -> Seq<u8> {
        json_wire_byte(self.0)
    }

    fn to_bin(&self) -> (r: Vec<u8>) {
        let mut v: Vec<u8> = Vec::new();
        v.push(self.0);
        proof {
            assert(v@ =~= seq![self.0]);
        }
        v
    }

    fn from_bin(w: &[u8]) -> (r: Option<Self>) {
        if w.len() == 1 {
            Some(TestResponse(w[0]))
        } else {
            None
        }
    }

    fn to_json(&self) -> (r: Vec<u8>) {
        json_encode_byte(self.0)
    }

    fn from_json(w: &[u8]) -> (r: Option<Self>) {
        match json_decode_byte(w) {
            Some(x) => Some(TestResponse(x)),
            None => None,
        }
    }
}

impl MessageExt for TestMessage {
    type Response = TestResponse;

    open spec fn type_key_spec() -> u64 {
        1
    }

    open spec fn path_spec() -> Seq<char> {
        "test"@
    }

    open spec fn opaque_spec() -> bool {
        false
    }

    open spec fn name_spec(&self) -> Seq<char> {
        Seq::<char>::empty()
    }

    proof fn path_wf() {
        reveal_strlit("test");
    }

    fn type_key() -> (k: u64) {
        1
    }

    fn path() -> (p: String) {
        String::from_str("test")
    }

    fn is_opaque() -> (b: bool) {
        false
    }

    fn name_key(&self) -> (s: String) {
        String::new()
    }
}

impl Payload for TestMessageEmpty {
    /// Nothing on the wire: a unit value encodes to no bytes.
    open spec fn wire_bin(&self) -> Seq<u8> {
        Seq::<u8>::empty()
    }

    /// The JSON text `null`, as its four ASCII bytes.
    open spec fn wire_json(&self) -> Seq<u8> {
        seq![110u8, 117u8, 108u8, 108u8]
    }

    fn to_bin(&self) -> (r: Vec<u8>) {
        let v: Vec<u8> = Vec::new();
        proof {
            assert(v@ =~= Seq::<u8>::empty());
        }
        v
    }

    fn from_bin(w: &[u8]) -> (r: Option<Self>) {
        if w.len() == 0 {
            Some(TestMessageEmpty)
        } else {
            None
        }
    }

    fn to_json(&self) -> (r: Vec<u8>) {
        let mut v: Vec<u8> = Vec::new();
        v.push(110);
        v.push(117);
        v.push(108);
        v.push(108);
        proof {
            assert(v@ =~= seq![110u8, 117u8, 108u8, 108u8]);
        }
        v
    }

    fn from_json(w: &[u8]) -> (r: Option<Self>) {
        if w.len() == 4 && w[0] == 110 && w[1] == 117 && w[2] == 108 && w[3] == 108 {
            Some(TestMessageEmpty)
        } else {
            None
        }
    }
}

impl MessageExt for TestMessageEmpty {
    type Response = TestMessageEmpty;

    open spec fn type_key_spec() -> u64 {
        2
    }

    open spec fn path_spec() -> Seq<char> {
        "test_empty"@
    }

    open spec fn opaque_spec() -> bool {
        false
    }

    open spec fn name_spec(&self) -> Seq<char> {
        Seq::<char>::empty()
    }

    proof fn path_wf() {
        reveal_strlit("test_empty");
    }

    fn type_key() -> (k: u64) {
        2
    }

    fn path() -> (p: String) {
        String::from_str("test_empty")
    }

    fn is_opaque() -> (b: bool) {
        false
    }

    fn name_key(&self) -> (s: String) {
        String::new()
    }
}

/// The echo handler behind the tests and the demonstration plugin.  The
/// host program registers its mailbox under `token` and calls `handle` /
/// `handle_opaque` for messages the directory resolves to that token.
#[derive(Clone, Copy, Debug)]
pub struct TestHandler {
    pub token: u64,
}

impl TestHandler {
    /// Echo the byte back.
    pub fn handle(&self, msg: TestMessage) -> (r: TestResponse)
        ensures
            r.0 == msg.0,
    {
        TestResponse(msg.0)
    }

    /// Answer the envelope routed under `test` with a `test_response`
    /// envelope; anything else earns an error envelope.
    pub fn handle_opaque(&self, msg: OpaqueMessage) -> (r: OpaqueMessage)
        ensures
            msg.id@ == "test"@ ==> r.id@ == "test_response"@ && r.inner@ == (
            "some reply").spec_bytes(),
            msg.id@ != "test"@ ==> r.id@ == "err"@ && r.inner@ == ("unknown route").spec_bytes(),
    {
        let test_id = String::from_str("test");
        if msg.id.eq(&test_id) {
            OpaqueMessage {
                id: String::from_str("test_response"),
                inner: slice_to_vec("some reply".as_bytes()),
            }
        } else {
            OpaqueMessage {
                id: String::from_str("err"),
                inner: slice_to_vec("unknown route".as_bytes()),
            }
        }
    }

    /// Drop an empty message.
    pub fn handle_empty(&self, _msg: TestMessageEmpty) -> (r: TestMessageEmpty) {
        TestMessageEmpty
    }
}

impl Service for TestHandler {
    /// Register the handler's mailbox for both test messages, expose the
    /// one-byte message publicly, and answer the envelope id `test`.
    fn add_to(self, app: App) -> App {
        app.route::<TestMessage>(RouteSource::Target(Route::Local(self.token)), RouteType::Server)
            .route::<TestMessageEmpty>(
            RouteSource::Target(Route::Local(self.token)),
            RouteType::Server,
        ).expose::<TestMessage>().route::<OpaqueMessage>(
            RouteSource::WithId(String::from_str("test"), Route::Local(self.token)),
            RouteType::Server,
        )
    }
}

/// A handler whose work is itself a send: answering an empty message asks
/// the current directory for `TestMessage(42)`.  Its `handle_empty` returns
/// the resolution of that inner send.
#[derive(Clone, Copy, Debug)]
pub struct TestIntoHandler(pub u8);

impl TestIntoHandler {
    /// The resolution of the inner `TestMessage(42)` send on the current
    /// directory.
    pub fn handle_empty(&self, cur: &crate::app::CurrentApp, _msg: TestMessageEmpty) -> (r:
        crate::app::SendOutcome)
        requires
            cur.wf(),
        ensures
            r.deep_view() == cur.current().send_spec(&TestMessage(42)),
    {
        crate::app::send(cur, &TestMessage(42))
    }
}

} // verus!
