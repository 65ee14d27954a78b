//! Remote endpoints: the shapes a route can take when the handler lives in
//! another process, and the single request a send to such an endpoint
//! performs.

use vstd::prelude::*;
use vstd::string::*;

use crate::message::{MessageExt, Payload};
use crate::DirectoryError;

verus! {

/// A remote server a route can point at: a public HTTP URL, or an HTTP
/// server bound to a local Unix-domain socket.
#[derive(Debug)]
pub enum Remote {
    Http(String),
    LocalHttp(String),
}

impl Clone for Remote {
    fn clone(&self) -> (r: Self)
        ensures
            r.deep_view() == self.deep_view(),
    {
        match self {
            Remote::Http(u) => Remote::Http(u.clone()),
            Remote::LocalHttp(p) => Remote::LocalHttp(p.clone()),
        }
    }
}

/// The content of a remote endpoint, free of `String` identity.
pub enum RemoteView {
    Http(Seq<char>),
    LocalHttp(Seq<char>),
}

impl DeepView for Remote {
    type V = RemoteView;

    open spec fn deep_view(&self) -> RemoteView {
        match self {
            Remote::Http(u) => RemoteView::Http(u@),
            Remote::LocalHttp(p) => RemoteView::LocalHttp(p@),
        }
    }
}

/// What a URL reference resolves to against a base URL, if the pair resolves
/// at all.
pub uninterp spec fn url_join(base: Seq<char>, rel: Seq<char>) -> Option<Seq<char>>;

/// Relies on `url::Url::parse` and `url::Url::join`: resolving a reference
/// against a base URL string either fails or yields a URL string, and the
/// result depends on the two strings alone.
#[verifier::external_body]
pub(crate) fn join_url(base: &str, rel: &str) -> (r: Option<String>)
    ensures
        r is Some <==> url_join(base@, rel@) is Some,
        r is Some ==> r.unwrap()@ == url_join(base@, rel@).unwrap(),
{
    match url::Url::parse(base) {
        Ok(u) => match u.join(rel) {
            Ok(j) => Some(j.as_str().to_owned()),
            Err(_) => None,
        },
        Err(_) => None,
    }
}

/// The one HTTP exchange a send to a remote endpoint performs: exactly one
/// request is attempted, with no retry.  The host program carries it out and
/// hands the response body back to the codec.
#[derive(Debug)]
pub enum RemoteRequest {
    /// POST `body` to the absolute URL `url`.
    Http { url: String, body: Vec<u8> },
    /// Connect to the Unix socket at `socket` and POST `body` to `path`.
    LocalHttp { socket: String, path: String, body: Vec<u8> },
}

/// The content of a remote request, free of `String` identity.
pub enum RemoteRequestView {
    Http { url: Seq<char>, body: Seq<u8> },
    LocalHttp { socket: Seq<char>, path: Seq<char>, body: Seq<u8> },
}

impl DeepView for RemoteRequest {
    type V = RemoteRequestView;

    open spec fn deep_view(&self) -> RemoteRequestView {
        match self {
            RemoteRequest::Http { url, body } => RemoteRequestView::Http {
                url: url@,
                body: body@,
            },
            RemoteRequest::LocalHttp { socket, path, body } => RemoteRequestView::LocalHttp {
                socket: socket@,
                path: path@,
                body: body@,
            },
        }
    }
}

/// The reference that a message resolves against a base URL: the static path
/// of its type, or — for the opaque envelope — its id rooted at `/`.
pub open spec fn rel_of<M: MessageExt>(m: &M) -> Seq<char> {
    if M::opaque_spec() {
        seq!['/'] + m.name_spec()
    } else {
        M::path_spec()
    }
}

/// The request path used on a socket endpoint: the message's reference
/// rooted at `/`.
pub open spec fn socket_path_of<M: MessageExt>(m: &M) -> Seq<char> {
    if M::opaque_spec() {
        seq!['/'] + m.name_spec()
    } else {
        seq!['/'] + M::path_spec()
    }
}

/// The exchange that sending `m` to `rem` performs, or the error when the
/// target URL does not resolve.
pub open spec fn request_spec<M: MessageExt>(rem: RemoteView, m: &M) -> Result<
    RemoteRequestView,
    DirectoryError,
> {
    match rem {
        RemoteView::Http(base) => match url_join(base, rel_of(m)) {
            Some(u) => Result::Ok(RemoteRequestView::Http { url: u, body: m.wire_bin() }),
            None => Result::Err(DirectoryError::Transport),
        },
        RemoteView::LocalHttp(sock) => Result::Ok(
            RemoteRequestView::LocalHttp {
                socket: sock,
                path: socket_path_of(m),
                body: m.wire_bin(),
            },
        ),
    }
}

/// A result of building a request, seen by content.
pub open spec fn request_result_view(r: Result<RemoteRequest, DirectoryError>) -> Result<
    RemoteRequestView,
    DirectoryError,
> {
    match r {
        Result::Ok(req) => Result::Ok(req.deep_view()),
        Result::Err(e) => Result::Err(e),
    }
}

/// Build the one exchange that sending `m` to `rem` performs: resolve the
/// target, encode the message in binary form.
pub fn build_request<M: MessageExt>(rem: &Remote, m: &M) -> (r: Result<
    RemoteRequest,
    DirectoryError,
>)
    ensures
        request_result_view(r) == request_spec(rem.deep_view(), m),
{
    match rem {
        Remote::Http(base) => {
            let rel = rel_path(m);
            match join_url(base.as_str(), rel.as_str()) {
                Some(u) => Ok(RemoteRequest::Http { url: u, body: m.to_bin() }),
                None => Err(DirectoryError::Transport),
            }
        },
        Remote::LocalHttp(sock) => Ok(
            RemoteRequest::LocalHttp {
                socket: sock.clone(),
                path: slash_path(m),
                body: m.to_bin(),
            },
        ),
    }
}

/// The reference string for `m`: its id rooted at `/` for the envelope, its
/// static path otherwise.
fn rel_path<M: MessageExt>(m: &M) -> (r: String)
    ensures
        r@ == rel_of(m),
{
    if M::is_opaque() {
        let mut s = String::new();
        s.append("/");
        let id = m.name_key();
        s.append(id.as_str());
        proof {
            reveal_strlit("/");
            assert(s@ =~= seq!['/'] + m.name_spec());
        }
        s
    } else {
        M::path()
    }
}

/// The request path rooted at `/` for a socket endpoint.
fn slash_path<M: MessageExt>(m: &M) -> (r: String)
    ensures
        r@ == socket_path_of(m),
{
    let mut s = String::new();
    s.append("/");
    if M::is_opaque() {
        let id = m.name_key();
        s.append(id.as_str());
        proof {
            reveal_strlit("/");
            assert(s@ =~= seq!['/'] + m.name_spec());
        }
    } else {
        let p = M::path();
        s.append(p.as_str());
        proof {
            reveal_strlit("/");
            assert(s@ =~= seq!['/'] + M::path_spec());
        }
    }
    s
}

/// Decode the body of a remote response as the message's response type:
/// the compute half of a client-side exchange.  A body that is the binary
/// encoding of some response is always accepted, with that content.
pub fn decode_response<M: MessageExt>(body: &[u8]) -> (r: Option<M::Response>)
    ensures
        forall|resp: M::Response| body@ == #[trigger] resp.wire_bin() ==> r is Some
            && r.unwrap().deep_view() == resp.deep_view(),
{
    M::Response::from_bin(body)
}

} // verus!
