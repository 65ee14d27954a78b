//! The HTTP surface of a directory.
//!
//! A factory is the registry of messages exposed over HTTP: for each entry,
//! the host program attaches a POST handler at the entry's path to its web
//! server.  The request pipeline itself — read bytes, decode, forward
//! through the directory, encode the response — is `handle_request` and
//! `encode_response`; only the socket reads and writes stay with the host.

use vstd::prelude::*;
use vstd::string::*;

use crate::app::{lane_send_spec, CurrentApp, RouteType, SendOutcome};
use crate::codec::WireFormat;
use crate::message::{wire_of, MessageExt, Payload};
use crate::DirectoryError;

verus! {

/// One exposed message: a request path, the wire format its bodies use, and
/// the lane its decoded messages are forwarded on (`send_in` when
/// unspecified).
#[derive(Debug)]
pub struct HttpRoute {
    pub path: String,
    pub format: WireFormat,
    pub lane: Option<RouteType>,
}

impl Clone for HttpRoute {
    fn clone(&self) -> (r: Self)
        ensures
            r.deep_view() == self.deep_view(),
    {
        HttpRoute { path: self.path.clone(), format: self.format, lane: self.lane }
    }
}

/// The content of a registration, free of `String` identity.
pub struct HttpRouteView {
    pub path: Seq<char>,
    pub format: WireFormat,
    pub lane: Option<RouteType>,
}

impl DeepView for HttpRoute {
    type V = HttpRouteView;

    open spec fn deep_view(&self) -> HttpRouteView {
        HttpRouteView { path: self.path@, format: self.format, lane: self.lane }
    }
}

/// The registry of messages a directory exposes over HTTP, in registration
/// order.  A directory keeps two: an external factory for explicitly exposed
/// messages, and an internal one (attached to the local socket server) that
/// is populated for every message registered on the client or server lane.
#[derive(Debug)]
pub struct HttpFactory {
    factory: Vec<HttpRoute>,
}

impl Clone for HttpFactory {
    fn clone(&self) -> (r: Self)
        ensures
            r.view() == self.view(),
    {
        let factory = self.factory.clone();
        proof {
            assert(factory.deep_view() =~= self.factory.deep_view());
        }
        HttpFactory { factory }
    }
}

impl HttpFactory {
    /// The registrations, by content, in order.
    pub closed spec fn view(&self) -> Seq<HttpRouteView> {
        self.factory.deep_view()
    }

    /// An empty registry.
    pub fn new() -> (r: HttpFactory)
        ensures
            r.view() == Seq::<HttpRouteView>::empty(),
    {
        let r = HttpFactory { factory: Vec::new() };
        proof {
            assert(r.view() =~= Seq::<HttpRouteView>::empty());
        }
        r
    }

    /// Register the message `M` under its static path with binary bodies.
    pub fn route<M: MessageExt>(&mut self, ty: Option<RouteType>)
        ensures
            final(self).view() == old(self).view().push(
                HttpRouteView {
                    path: seq!['/'] + M::path_spec(),
                    format: WireFormat::Binary,
                    lane: ty,
                },
            ),
    {
        let entry = HttpRoute { path: type_path::<M>(), format: WireFormat::Binary, lane: ty };
        self.factory.push(entry);
        proof {
            assert(final(self).view() =~= old(self).view().push(
                HttpRouteView {
                    path: seq!['/'] + M::path_spec(),
                    format: WireFormat::Binary,
                    lane: ty,
                },
            ));
        }
    }

    /// Register the message `M` under its static path with JSON bodies.
    pub fn jroute<M: MessageExt>(&mut self, ty: Option<RouteType>)
        ensures
            final(self).view() == old(self).view().push(
                HttpRouteView {
                    path: seq!['/'] + M::path_spec(),
                    format: WireFormat::Json,
                    lane: ty,
                },
            ),
    {
        let entry = HttpRoute { path: type_path::<M>(), format: WireFormat::Json, lane: ty };
        self.factory.push(entry);
        proof {
            assert(final(self).view() =~= old(self).view().push(
                HttpRouteView {
                    path: seq!['/'] + M::path_spec(),
                    format: WireFormat::Json,
                    lane: ty,
                },
            ));
        }
    }

    /// The registrations the host program attaches to its web server.
    pub fn entries(&self) -> (r: &Vec<HttpRoute>)
        ensures
            r.deep_view() == self.view(),
    {
        &self.factory
    }
}

/// The request path a message type is exposed under: its static path rooted
/// at `/`.
pub fn type_path<M: MessageExt>() -> (p: String)
    ensures
        p@ == seq!['/'] + M::path_spec(),
{
    let mut s = String::new();
    s.append("/");
    let p = M::path();
    s.append(p.as_str());
    proof {
        reveal_strlit("/");
        assert(s@ =~= seq!['/'] + M::path_spec());
    }
    s
}

/// Serve one POST body: decode it as `M` by the registration's format and
/// resolve it through the directory on the registration's lane (`send_in`
/// when the registration names none).  A body that is the encoding of some
/// message is always accepted and resolved; a body the codec rejects is
/// refused as a codec error.
pub fn handle_request<M: MessageExt>(
    cur: &CurrentApp,
    format: WireFormat,
    lane: Option<RouteType>,
    body: &[u8],
) -> (r: Result<(M, SendOutcome), DirectoryError>)
    requires
        cur.wf(),
    ensures
        forall|m: M| body@ == #[trigger] wire_of(&m, format) ==> r is Ok && r.unwrap().0.deep_view()
            == m.deep_view(),
        r matches Ok(p) ==> p.1.deep_view() == lane_send_spec(cur.current(), lane, &p.0),
        r matches Err(e) ==> e == DirectoryError::Codec,
{
    let decoded = match format {
        WireFormat::Binary => M::from_bin(body),
        WireFormat::Json => M::from_json(body),
    };
    match decoded {
        Some(m) => {
            let outcome = crate::app::send_on_lane(cur, lane, &m);
            Ok((m, outcome))
        },
        None => Err(DirectoryError::Codec),
    }
}

/// Encode a handler's response for the wire, by the registration's format.
pub fn encode_response<R: Payload>(resp: &R, format: WireFormat) -> (r: Vec<u8>)
    ensures
        r@ == wire_of(resp, format),
{
    match format {
        WireFormat::Binary => resp.to_bin(),
        WireFormat::Json => resp.to_json(),
    }
}

} // verus!
