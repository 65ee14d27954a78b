//! The message contracts: what a routable value must provide.
//!
//! A message type declares a response type, a static path for HTTP exposure,
//! a routing identity (a numeric type key, or — for the opaque envelope — a
//! string id read from the value itself), and a total serialization to bytes
//! and back in both wire formats.

use vstd::prelude::*;

use crate::codec::{bin_decode_pair, bin_encode_pair, json_decode_pair, json_encode_pair};
use crate::codec::{bin_wire_pair, json_wire_pair, WireFormat};

verus! {

/// The identity a message is routed by: the runtime identity of its type
/// (modelled as a numeric key each message type declares), or the string id
/// carried inside an opaque envelope.
pub enum RouteKey {
    Typed(u64),
    Named(Seq<char>),
}

/// A value that can travel as bytes: it has a mathematical content (its deep
/// view) and a total encoding to each wire format whose decode returns the
/// content unchanged.
pub trait Payload: DeepView + Sized {
    /// The bytes the binary codec produces for this value.
    spec fn wire_bin(&self) -> Seq<u8>;

    /// The bytes the JSON codec produces for this value.
    spec fn wire_json(&self) -> Seq<u8>;

    fn to_bin(&self) -> (r: Vec<u8>)
        ensures
            r@ == self.wire_bin(),
    ;

    fn from_bin(w: &[u8]) -> (r: Option<Self>)
        ensures
            forall|m: Self| w@ == #[trigger] m.wire_bin() ==> r is Some
                && r.unwrap().deep_view() == m.deep_view(),
    ;

    fn to_json(&self) -> (r: Vec<u8>)
        ensures
            r@ == self.wire_json(),
    ;

    fn from_json(w: &[u8]) -> (r: Option<Self>)
        ensures
            forall|m: Self| w@ == #[trigger] m.wire_json() ==> r is Some
                && r.unwrap().deep_view() == m.deep_view(),
    ;
}

/// A message the directory can route: a payload with a response type, a
/// static path, and a routing identity.
///
/// Every statically-typed message declares a numeric key that stands for the
/// runtime identity of its type; distinct message types must declare distinct
/// keys.  The opaque envelope instead routes by the id inside the value.
pub trait MessageExt: Payload {
    type Response: Payload;

    /// The numeric key standing for this message type's identity.
    spec fn type_key_spec() -> u64;

    /// The static path under which this message is exposed over HTTP.
    spec fn path_spec() -> Seq<char>;

    /// Whether this is the opaque envelope, routed by its string id.
    spec fn opaque_spec() -> bool;

    /// The routing id carried inside the value; empty for typed messages.
    spec fn name_spec(&self) -> Seq<char>;

    /// A statically-typed message has a non-empty path; the opaque envelope
    /// has an empty one.
    proof fn path_wf()
        ensures
            Self::opaque_spec() ==> Self::path_spec() == Seq::<char>::empty(),
            !Self::opaque_spec() ==> Self::path_spec().len() > 0,
    ;

    fn type_key() -> (k: u64)
        ensures
            k == Self::type_key_spec(),
    ;

    fn path() -> (p: String)
        ensures
            p@ == Self::path_spec(),
    ;

    fn is_opaque() -> (b: bool)
        ensures
            b == Self::opaque_spec(),
    ;

    fn name_key(&self) -> (s: String)
        ensures
            s@ == self.name_spec(),
    ;
}

/// The key a concrete message value is routed by.
pub open spec fn key_of<M: MessageExt>(m: &M) -> RouteKey {
    if M::opaque_spec() {
        RouteKey::Named(m.name_spec())
    } else {
        RouteKey::Typed(M::type_key_spec())
    }
}

/// The wire image of a payload under the chosen format.
pub open spec fn wire_of<P: Payload>(p: &P, fmt: WireFormat) -> Seq<u8> {
    match fmt {
        WireFormat::Binary => p.wire_bin(),
        WireFormat::Json => p.wire_json(),
    }
}

/// Round trip of the binary codec: decoding the encoding of any payload
/// succeeds and yields a payload with the same content.
pub fn bin_round_trip<P: Payload>(m: &P) -> (r: Option<P>)
    ensures
        r is Some,
        r.unwrap().deep_view() == m.deep_view(),
{
    let w = m.to_bin();
    P::from_bin(w.as_slice())
}

/// Round trip of the JSON codec: decoding the encoding of any payload
/// succeeds and yields a payload with the same content.
pub fn json_round_trip<P: Payload>(m: &P) -> (r: Option<P>)
    ensures
        r is Some,
        r.unwrap().deep_view() == m.deep_view(),
{
    let w = m.to_json();
    P::from_json(w.as_slice())
}

/// The universal envelope for messages not known to the core at compile
/// time: a string id (the routing key) and an opaque byte payload delivered
/// to the handler unread.  Its response has the same shape.
#[derive(Debug)]
pub struct OpaqueMessage {
    pub id: String,
    pub inner: Vec<u8>,
}

impl Clone for OpaqueMessage {
    fn clone(&self) -> (r: Self)
        ensures
            r.deep_view() == self.deep_view(),
    {
        OpaqueMessage { id: self.id.clone(), inner: self.inner.clone() }
    }
}

impl OpaqueMessage {
    /// Build an envelope around an already-encoded payload.
    pub fn new(id: String, inner: Vec<u8>) -> (r: Self)
        ensures
            r.id == id,
            r.inner == inner,
    {
        OpaqueMessage { id, inner }
    }

    /// Build an envelope that carries `inner` in binary form under `id`.
    pub fn try_new<M: Payload>(id: &str, inner: &M) -> (r: Self)
        ensures
            r.id@ == id@,
            r.inner@ == inner.wire_bin(),
    {
        OpaqueMessage { id: id.to_owned(), inner: inner.to_bin() }
    }

    /// Decode the carried payload back out of the envelope.
    pub fn inner<M: Payload>(&self) -> (r: Option<M>)
        ensures
            forall|m: M| self.inner@ == #[trigger] m.wire_bin() ==> r is Some
                && r.unwrap().deep_view() == m.deep_view(),
    {
        M::from_bin(self.inner.as_slice())
    }
}

impl DeepView for OpaqueMessage {
    type V = (Seq<char>, Seq<u8>);

    open spec fn deep_view(&self) -> (Seq<char>, Seq<u8>) {
        (self.id@, self.inner@)
    }
}

impl Payload for OpaqueMessage {
    open spec fn wire_bin(&self) -> Seq<u8> {
        bin_wire_pair(self.id@, self.inner@)
    }

    open spec fn wire_json(&self) -> Seq<u8> {
        json_wire_pair(self.id@, self.inner@)
    }

    fn to_bin(&self) -> (r: Vec<u8>) {
        bin_encode_pair(&self.id, &self.inner)
    }

    fn from_bin(w: &[u8]) -> (r: Option<Self>) {
        match bin_decode_pair(w) {
            Some(p) => Some(OpaqueMessage { id: p.0, inner: p.1 }),
            None => None,
        }
    }

    fn to_json(&self) -> (r: Vec<u8>) {
        json_encode_pair(&self.id, &self.inner)
    }

    fn from_json(w: &[u8]) -> (r: Option<Self>) {
        match json_decode_pair(w) {
            Some(p) => Some(OpaqueMessage { id: p.0, inner: p.1 }),
            None => None,
        }
    }
}

impl MessageExt for OpaqueMessage {
    type Response = OpaqueMessage;

    open spec fn type_key_spec() -> u64 {
        0
    }

    open spec fn path_spec() -> Seq<char> {
        Seq::<char>::empty()
    }

    open spec fn opaque_spec() -> bool {
        true
    }

    open spec fn name_spec(&self) -> Seq<char> {
        self.id@
    }

    proof fn path_wf() {
    }

    fn type_key() -> (k: u64) {
        0
    }

    fn path() -> (p: String) {
        String::new()
    }

    fn is_opaque() -> (b: bool) {
        true
    }

    fn name_key(&self) -> (s: String) {
        self.id.clone()
    }
}

} // verus!
