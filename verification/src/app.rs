//! The directory itself: three routing lanes, the HTTP factories, and the
//! send primitives.
//!
//! `send_local` consults the client lane and falls through to `send_in`;
//! `send_in` consults the server lane and falls through to `send_out`;
//! `send_out` consults the upstream lane (with its optional default) or
//! fails with a route error.  `send` is an alias for `send_local`.  Each
//! primitive returns the resolution as plain data — which mailbox to hand
//! the message to, which HTTP exchange to perform, which pending route to
//! queue on, or which error to fail with — and the host program carries the
//! action out.

use vstd::prelude::*;

use crate::codec::WireFormat;
use crate::http::{HttpFactory, HttpRouteView};
use crate::message::{key_of, MessageExt, RouteKey};
use crate::remote::{build_request, request_spec, Remote, RemoteRequest, RemoteRequestView};
use crate::router::{named_inserted, typed_inserted, Route, RouteView, Router};
use crate::DirectoryError;

verus! {

/// Which lane a registration goes to.
///
/// A client is a local wrapper that pre- or post-processes a request and
/// usually delegates; a server is the terminal local handler; an upstream is
/// a remote equivalent.  The fallthrough order client → server → upstream
/// lets a caller send without knowing where the message is handled.
#[derive(Clone, Copy, Debug, PartialEq, Eq, Structural)]
pub enum RouteType {
    Client,
    Server,
    Upstream,
}

/// A route source, as accepted by `App::route`: a bare entry registered
/// under the message's type identity, or an entry registered under a string
/// id (which must accept the opaque envelope).
#[derive(Debug)]
pub enum RouteSource {
    Target(Route),
    WithId(String, Route),
}

/// The resolution of one send: the action the host program performs.
#[derive(Debug)]
pub enum SendOutcome {
    /// Hand the message to the local mailbox with this token.
    Local(u64),
    /// Perform this HTTP exchange and decode the response body.
    Request(RemoteRequest),
    /// Hand the message to the pending route with this token; it is held
    /// until that route resolves.
    Pending(u64),
    /// The send fails with this error.
    Failure(DirectoryError),
}

/// The content of a send resolution, free of `String` identity.
pub enum SendOutcomeView {
    Local(u64),
    Request(RemoteRequestView),
    Pending(u64),
    Failure(DirectoryError),
}

impl DeepView for SendOutcome {
    type V = SendOutcomeView;

    open spec fn deep_view(&self) -> SendOutcomeView {
        match self {
            SendOutcome::Local(t) => SendOutcomeView::Local(*t),
            SendOutcome::Request(req) => SendOutcomeView::Request(req.deep_view()),
            SendOutcome::Pending(t) => SendOutcomeView::Pending(*t),
            SendOutcome::Failure(e) => SendOutcomeView::Failure(*e),
        }
    }
}

/// What forwarding `m` to the route `r` resolves to: delivery for a local
/// entry, one HTTP exchange for a remote entry, queueing for a pending
/// entry, a route error for a missing or rejecting entry.
pub open spec fn outcome_of_route<M: MessageExt>(r: Option<RouteView>, m: &M) -> SendOutcomeView {
    match r {
        None => SendOutcomeView::Failure(DirectoryError::Route),
        Some(RouteView::Local(t)) => SendOutcomeView::Local(t),
        Some(RouteView::Pending(t)) => SendOutcomeView::Pending(t),
        Some(RouteView::Reject) => SendOutcomeView::Failure(DirectoryError::Route),
        Some(RouteView::Remote(rem)) => match request_spec(rem, m) {
            Result::Ok(req) => SendOutcomeView::Request(req),
            Result::Err(e) => SendOutcomeView::Failure(e),
        },
    }
}

/// The effect of registering `entry` for `M` on the lane `ty` names: under
/// the string id `id` when one is given, under `M`'s type identity
/// otherwise.  The other lanes stand still; a registration on a local lane
/// under a type identity also adds `M` to the internal HTTP factory.
pub open spec fn route_installed<M: MessageExt>(
    pre: App,
    post: App,
    entry: RouteView,
    id: Option<Seq<char>>,
    ty: RouteType,
) -> bool {
    &&& match id {
        Some(n) => {
            &&& match ty {
                RouteType::Client => named_inserted(
                    pre.client_lane(),
                    post.client_lane(),
                    n,
                    entry,
                ) && post.server_lane() == pre.server_lane() && post.upstream_lane()
                    == pre.upstream_lane(),
                RouteType::Server => named_inserted(
                    pre.server_lane(),
                    post.server_lane(),
                    n,
                    entry,
                ) && post.client_lane() == pre.client_lane() && post.upstream_lane()
                    == pre.upstream_lane(),
                RouteType::Upstream => named_inserted(
                    pre.upstream_lane(),
                    post.upstream_lane(),
                    n,
                    entry,
                ) && post.client_lane() == pre.client_lane() && post.server_lane()
                    == pre.server_lane(),
            }
            &&& post.http_internal_view() == pre.http_internal_view()
        },
        None => match ty {
            RouteType::Client => {
                &&& typed_inserted::<M>(pre.client_lane(), post.client_lane(), entry)
                &&& post.server_lane() == pre.server_lane()
                &&& post.upstream_lane() == pre.upstream_lane()
                &&& post.http_internal_view() == pre.http_internal_view().push(
                    HttpRouteView {
                        path: seq!['/'] + M::path_spec(),
                        format: WireFormat::Binary,
                        lane: Some(RouteType::Client),
                    },
                )
            },
            RouteType::Server => {
                &&& typed_inserted::<M>(pre.server_lane(), post.server_lane(), entry)
                &&& post.client_lane() == pre.client_lane()
                &&& post.upstream_lane() == pre.upstream_lane()
                &&& post.http_internal_view() == pre.http_internal_view().push(
                    HttpRouteView {
                        path: seq!['/'] + M::path_spec(),
                        format: WireFormat::Binary,
                        lane: Some(RouteType::Server),
                    },
                )
            },
            RouteType::Upstream => {
                &&& typed_inserted::<M>(pre.upstream_lane(), post.upstream_lane(), entry)
                &&& post.client_lane() == pre.client_lane()
                &&& post.server_lane() == pre.server_lane()
                &&& post.http_internal_view() == pre.http_internal_view()
            },
        },
    }
    &&& post.http_factory_view() == pre.http_factory_view()
}

/// A directory: the three lanes plus the two HTTP factories.
pub struct App {
    client: Router,
    server: Router,
    upstream: Router,
    http: HttpFactory,
    http_internal: HttpFactory,
}

impl App {
    /// The client lane.
    pub closed spec fn client_lane(&self) -> Router {
        self.client
    }

    /// The server lane.
    pub closed spec fn server_lane(&self) -> Router {
        self.server
    }

    /// The upstream lane.
    pub closed spec fn upstream_lane(&self) -> Router {
        self.upstream
    }

    /// The factory for messages explicitly exposed on the public server.
    pub closed spec fn http_factory_view(&self) -> Seq<HttpRouteView> {
        self.http.view()
    }

    /// The factory attached to the local socket server, populated for every
    /// message registered on the client or server lane.
    pub closed spec fn http_internal_view(&self) -> Seq<HttpRouteView> {
        self.http_internal.view()
    }

    /// The directory's internal invariant: each lane's.
    pub open spec fn wf(&self) -> bool {
        &&& self.client_lane().wf()
        &&& self.server_lane().wf()
        &&& self.upstream_lane().wf()
    }

    /// A newly built directory: empty lanes, an empty public factory, and an
    /// internal factory already carrying the opaque envelope's registration.
    pub open spec fn fresh(&self) -> bool {
        &&& self.client_lane().typed_view() == Map::<u64, RouteView>::empty()
        &&& self.client_lane().named_view() == Map::<Seq<char>, RouteView>::empty()
        &&& self.client_lane().default_view() is None
        &&& self.server_lane().typed_view() == Map::<u64, RouteView>::empty()
        &&& self.server_lane().named_view() == Map::<Seq<char>, RouteView>::empty()
        &&& self.server_lane().default_view() is None
        &&& self.upstream_lane().typed_view() == Map::<u64, RouteView>::empty()
        &&& self.upstream_lane().named_view() == Map::<Seq<char>, RouteView>::empty()
        &&& self.upstream_lane().default_view() is None
        &&& self.http_factory_view() == Seq::<HttpRouteView>::empty()
        &&& self.http_internal_view() == seq![
            HttpRouteView {
                path: seq!['/'],
                format: WireFormat::Binary,
                lane: Some(RouteType::Client),
            },
        ]
    }

    /// What `send_out` resolves to: the upstream entry for the message's
    /// key, the upstream default when both tables miss, or a route error.
    pub open spec fn send_out_spec<M: MessageExt>(&self, m: &M) -> SendOutcomeView {
        outcome_of_route(self.upstream_lane().lookup_or_default(key_of(m)), m)
    }

    /// What `send_in` resolves to: the server entry for the message's key,
    /// or `send_out`'s resolution on a miss.
    pub open spec fn send_in_spec<M: MessageExt>(&self, m: &M) -> SendOutcomeView {
        match self.server_lane().lookup(key_of(m)) {
            Some(r) => outcome_of_route(Some(r), m),
            None => self.send_out_spec(m),
        }
    }

    /// What `send_local` resolves to: the client entry for the message's
    /// key, or `send_in`'s resolution on a miss.
    pub open spec fn send_local_spec<M: MessageExt>(&self, m: &M) -> SendOutcomeView {
        match self.client_lane().lookup(key_of(m)) {
            Some(r) => outcome_of_route(Some(r), m),
            None => self.send_in_spec(m),
        }
    }

    /// What `send` resolves to: an alias for `send_local`.
    pub open spec fn send_spec<M: MessageExt>(&self, m: &M) -> SendOutcomeView {
        self.send_local_spec(m)
    }

    /// Create a new directory with empty routing tables.
    pub fn new() -> (r: App)
        ensures
            r.wf(),
            r.fresh(),
    {
        let http = HttpFactory::new();
        let mut http_internal = HttpFactory::new();
        http_internal.route::<crate::message::OpaqueMessage>(Some(RouteType::Client));
        let client = Router::with_name("client");
        let server = Router::with_name("server");
        let upstream = Router::with_name("upstream");
        let r = App { client, server, upstream, http, http_internal };
        proof {
            assert(r.http_internal_view() =~= seq![
                HttpRouteView {
                    path: seq!['/'],
                    format: WireFormat::Binary,
                    lane: Some(RouteType::Client),
                },
            ]);
        }
        r
    }

    /// Insert an entry for `M` into the lane `ty` names, registering the
    /// message on the internal HTTP factory when the lane is local.
    pub(crate) fn add_recip<M: MessageExt>(&mut self, entry: Route, ty: RouteType)
        requires
            old(self).wf(),
        ensures
            final(self).wf(),
            ty == RouteType::Client ==> {
                &&& typed_inserted::<M>(
                    old(self).client_lane(),
                    final(self).client_lane(),
                    entry.deep_view(),
                )
                &&& final(self).server_lane() == old(self).server_lane()
                &&& final(self).upstream_lane() == old(self).upstream_lane()
                &&& final(self).http_internal_view() == old(self).http_internal_view().push(
                    HttpRouteView {
                        path: seq!['/'] + M::path_spec(),
                        format: WireFormat::Binary,
                        lane: Some(RouteType::Client),
                    },
                )
            },
            ty == RouteType::Server ==> {
                &&& typed_inserted::<M>(
                    old(self).server_lane(),
                    final(self).server_lane(),
                    entry.deep_view(),
                )
                &&& final(self).client_lane() == old(self).client_lane()
                &&& final(self).upstream_lane() == old(self).upstream_lane()
                &&& final(self).http_internal_view() == old(self).http_internal_view().push(
                    HttpRouteView {
                        path: seq!['/'] + M::path_spec(),
                        format: WireFormat::Binary,
                        lane: Some(RouteType::Server),
                    },
                )
            },
            ty == RouteType::Upstream ==> {
                &&& typed_inserted::<M>(
                    old(self).upstream_lane(),
                    final(self).upstream_lane(),
                    entry.deep_view(),
                )
                &&& final(self).client_lane() == old(self).client_lane()
                &&& final(self).server_lane() == old(self).server_lane()
                &&& final(self).http_internal_view() == old(self).http_internal_view()
            },
            final(self).http_factory_view() == old(self).http_factory_view(),
    {
        match ty {
            RouteType::Client => {
                self.http_internal.route::<M>(Some(RouteType::Client));
                self.client.insert::<M>(entry);
            },
            RouteType::Server => {
                self.http_internal.route::<M>(Some(RouteType::Server));
                self.server.insert::<M>(entry);
            },
            RouteType::Upstream => {
                self.upstream.insert::<M>(entry);
            },
        }
    }

    /// Insert an entry under the string id `id` into the lane `ty` names.
    pub(crate) fn add_str(&mut self, id: &str, entry: Route, ty: RouteType)
        requires
            old(self).wf(),
        ensures
            final(self).wf(),
            ty == RouteType::Client ==> {
                &&& named_inserted(
                    old(self).client_lane(),
                    final(self).client_lane(),
                    id@,
                    entry.deep_view(),
                )
                &&& final(self).server_lane() == old(self).server_lane()
                &&& final(self).upstream_lane() == old(self).upstream_lane()
            },
            ty == RouteType::Server ==> {
                &&& named_inserted(
                    old(self).server_lane(),
                    final(self).server_lane(),
                    id@,
                    entry.deep_view(),
                )
                &&& final(self).client_lane() == old(self).client_lane()
                &&& final(self).upstream_lane() == old(self).upstream_lane()
            },
            ty == RouteType::Upstream ==> {
                &&& named_inserted(
                    old(self).upstream_lane(),
                    final(self).upstream_lane(),
                    id@,
                    entry.deep_view(),
                )
                &&& final(self).client_lane() == old(self).client_lane()
                &&& final(self).server_lane() == old(self).server_lane()
            },
            final(self).http_factory_view() == old(self).http_factory_view(),
            final(self).http_internal_view() == old(self).http_internal_view(),
    {
        match ty {
            RouteType::Client => self.client.insert_str(id, entry),
            RouteType::Server => self.server.insert_str(id, entry),
            RouteType::Upstream => self.upstream.insert_str(id, entry),
        }
    }

    /// Add a single route: an entry under `M`'s type identity, or — for a
    /// `WithId` source — under a string id.
    pub fn route<M: MessageExt>(self, source: RouteSource, ty: RouteType) -> (r: App)
        requires
            self.wf(),
        ensures
            r.wf(),
            match source {
                RouteSource::Target(entry) => route_installed::<M>(
                    self,
                    r,
                    entry.deep_view(),
                    None,
                    ty,
                ),
                RouteSource::WithId(id, entry) => route_installed::<M>(
                    self,
                    r,
                    entry.deep_view(),
                    Some(id@),
                    ty,
                ),
            },
    {
        let mut app = self;
        match source {
            RouteSource::Target(entry) => app.add_recip::<M>(entry, ty),
            RouteSource::WithId(id, entry) => app.add_str(id.as_str(), entry, ty),
        }
        app
    }

    /// Set the fallback upstream endpoint used when no specific route is
    /// registered.
    pub fn default_route(self, remote: Remote) -> (r: App)
        requires
            self.wf(),
        ensures
            r.wf(),
            r.client_lane() == self.client_lane(),
            r.server_lane() == self.server_lane(),
            r.upstream_lane().typed_view() == self.upstream_lane().typed_view(),
            r.upstream_lane().named_view() == self.upstream_lane().named_view(),
            r.upstream_lane().default_view() == Some(
                RouteView::Remote(remote.deep_view()),
            ),
            r.http_factory_view() == self.http_factory_view(),
            r.http_internal_view() == self.http_internal_view(),
    {
        let mut app = self;
        app.upstream.set_default(Route::Remote(remote));
        app
    }

    /// Expose the message `M` on the public HTTP factory.
    pub fn expose<M: MessageExt>(self) -> (r: App)
        requires
            self.wf(),
        ensures
            r.wf(),
            r.client_lane() == self.client_lane(),
            r.server_lane() == self.server_lane(),
            r.upstream_lane() == self.upstream_lane(),
            r.http_internal_view() == self.http_internal_view(),
            r.http_factory_view() == self.http_factory_view().push(
                HttpRouteView {
                    path: seq!['/'] + M::path_spec(),
                    format: WireFormat::Binary,
                    lane: None,
                },
            ),
    {
        let mut app = self;
        app.http.route::<M>(None);
        app
    }

    /// Add a plugin: register its declared ids as upstream routes pointing
    /// at its socket, and lay out the command invocation the host spawns.
    pub fn plugin(self, plugin: crate::plugin::Plugin, sock_dir: &str) -> (r: (
        App,
        crate::plugin::PluginSpawn,
    ))
        requires
            self.wf(),
        ensures
            r.0.wf(),
            r.1.exec_path@ == plugin.exec_path@,
            r.1.args.deep_view() =~= seq![
                crate::plugin::sock_path_spec(sock_dir@, "main"@),
                crate::plugin::sock_path_spec(sock_dir@, plugin.name@),
            ] + plugin.opt_args.deep_view(),
            crate::plugin::plugin_routes_installed(
                self,
                r.0,
                crate::plugin::sock_path_spec(sock_dir@, plugin.name@),
                plugin.messages.deep_view(),
            ),
    {
        plugin.add_to(self, sock_dir)
    }

    /// Add a service: a bundle of routes that registers itself.
    pub fn service<S: Service>(self, service: S) -> (r: App)
        requires
            self.wf(),
        ensures
            r.wf(),
    {
        service.add_to(self)
    }

    /// A copy of the public HTTP factory, for configuring a server.
    pub fn get_factory(&self) -> (r: HttpFactory)
        ensures
            r.view() == self.http_factory_view(),
    {
        self.http.clone()
    }

    /// A copy of the internal HTTP factory, for configuring the local socket
    /// server.
    pub fn get_internal_factory(&self) -> (r: HttpFactory)
        ensures
            r.view() == self.http_internal_view(),
    {
        self.http_internal.clone()
    }

    /// Install this directory as the thread's current one.
    pub fn make_current(self, cur: &mut CurrentApp)
        ensures
            final(cur).current() == self,
    {
        cur.app = self;
    }

    /// Resolve a message on the default channel: an alias for `send_local`.
    pub fn send<M: MessageExt>(&self, msg: &M) -> (r: SendOutcome)
        requires
            self.wf(),
        ensures
            r.deep_view() == self.send_spec(msg),
    {
        self.send_local(msg)
    }

    /// Resolve a message through the client lane, falling through to the
    /// server lane on a miss.
    pub fn send_local<M: MessageExt>(&self, msg: &M) -> (r: SendOutcome)
        requires
            self.wf(),
        ensures
            r.deep_view() == self.send_local_spec(msg),
    {
        match self.client.recipient_for(msg) {
            Some(entry) => outcome_from_route(entry, msg),
            None => self.send_in(msg),
        }
    }

    /// Resolve a message through the server lane, falling through to the
    /// upstream lane on a miss.
    pub fn send_in<M: MessageExt>(&self, msg: &M) -> (r: SendOutcome)
        requires
            self.wf(),
        ensures
            r.deep_view() == self.send_in_spec(msg),
    {
        match self.server.recipient_for(msg) {
            Some(entry) => outcome_from_route(entry, msg),
            None => self.send_out(msg),
        }
    }

    /// Resolve a message on the given lane, `send_in` when none is given:
    /// the forwarding a registration without an explicit lane performs.
    pub fn send_on_lane<M: MessageExt>(&self, lane: Option<RouteType>, msg: &M) -> (r: SendOutcome)
        requires
            self.wf(),
        ensures
            r.deep_view() == lane_send_spec(*self, lane, msg),
    {
        match lane {
            Some(RouteType::Client) => self.send_local(msg),
            Some(RouteType::Server) => self.send_in(msg),
            Some(RouteType::Upstream) => self.send_out(msg),
            None => self.send_in(msg),
        }
    }

    /// Resolve a message through the upstream lane alone, using its default
    /// on a miss; with neither, the send fails with a route error.
    pub fn send_out<M: MessageExt>(&self, msg: &M) -> (r: SendOutcome)
        requires
            self.wf(),
        ensures
            r.deep_view() == self.send_out_spec(msg),
    {
        match self.upstream.send(msg) {
            Ok(entry) => outcome_from_route(entry, msg),
            Err(e) => SendOutcome::Failure(e),
        }
    }
}

/// Forward a message to a concrete route entry.
fn outcome_from_route<M: MessageExt>(entry: Route, msg: &M) -> (r: SendOutcome)
    ensures
        r.deep_view() == outcome_of_route(Some(entry.deep_view()), msg),
{
    match entry {
        Route::Local(t) => SendOutcome::Local(t),
        Route::Pending(t) => SendOutcome::Pending(t),
        Route::Reject => SendOutcome::Failure(DirectoryError::Route),
        Route::Remote(rem) => match build_request(&rem, msg) {
            Ok(req) => SendOutcome::Request(req),
            Err(e) => SendOutcome::Failure(e),
        },
    }
}

/// A bundle of routes that knows how to add itself to a directory; a
/// directory accepts one through `App::service`.
pub trait Service: Sized {
    fn add_to(self, app: App) -> (r: App)
        requires
            app.wf(),
        ensures
            r.wf(),
    ;
}

/// The slot holding a thread's current directory.  The host program keeps
/// one per thread; the free-standing send functions read it.  Until a
/// directory is made current it holds a fresh, empty one, on which every
/// send fails with a route error.
pub struct CurrentApp {
    app: App,
}

impl CurrentApp {
    /// The directory currently installed.
    pub closed spec fn current(&self) -> App {
        self.app
    }

    /// The slot's invariant: the installed directory's.
    pub open spec fn wf(&self) -> bool {
        self.current().wf()
    }

    /// A slot holding a fresh, empty directory.
    pub fn new() -> (r: CurrentApp)
        ensures
            r.wf(),
            r.current().fresh(),
    {
        CurrentApp { app: App::new() }
    }

    /// Read access to the installed directory.
    pub fn get(&self) -> (r: &App)
        ensures
            r == self.current(),
    {
        &self.app
    }

    /// Mutable access to the installed directory, for installing a resolved
    /// pending route.
    pub fn current_mut(&mut self) -> (r: &mut App)
        ensures
            *r == old(self).current(),
            final(self).current() == *final(r),
    {
        &mut self.app
    }
}

/// Resolve a message on the current directory's default channel.
pub fn send<M: MessageExt>(cur: &CurrentApp, msg: &M) -> (r: SendOutcome)
    requires
        cur.wf(),
    ensures
        r.deep_view() == cur.current().send_spec(msg),
{
    cur.app.send(msg)
}

/// Resolve a message through the current directory's client lane.
pub fn send_local<M: MessageExt>(cur: &CurrentApp, msg: &M) -> (r: SendOutcome)
    requires
        cur.wf(),
    ensures
        r.deep_view() == cur.current().send_local_spec(msg),
{
    cur.app.send_local(msg)
}

/// Resolve a message through the current directory's server lane.
pub fn send_in<M: MessageExt>(cur: &CurrentApp, msg: &M) -> (r: SendOutcome)
    requires
        cur.wf(),
    ensures
        r.deep_view() == cur.current().send_in_spec(msg),
{
    cur.app.send_in(msg)
}

/// Resolve a message through the current directory's upstream lane.
pub fn send_out<M: MessageExt>(cur: &CurrentApp, msg: &M) -> (r: SendOutcome)
    requires
        cur.wf(),
    ensures
        r.deep_view() == cur.current().send_out_spec(msg),
{
    cur.app.send_out(msg)
}

/// The lane a registration forwards decoded requests on: `send_in` when it
/// names none.
pub open spec fn lane_send_spec<M: MessageExt>(
    app: App,
    lane: Option<RouteType>,
    m: &M,
) -> SendOutcomeView {
    match lane {
        Some(RouteType::Client) => app.send_local_spec(m),
        Some(RouteType::Server) => app.send_in_spec(m),
        Some(RouteType::Upstream) => app.send_out_spec(m),
        None => app.send_in_spec(m),
    }
}

/// Resolve a message through the current directory on the given lane,
/// `send_in` when none is given.
pub fn send_on_lane<M: MessageExt>(cur: &CurrentApp, lane: Option<RouteType>, msg: &M) -> (r:
    SendOutcome)
    requires
        cur.wf(),
    ensures
        r.deep_view() == lane_send_spec(cur.current(), lane, msg),
{
    cur.get().send_on_lane(lane, msg)
}

/// Fallthrough law.  `send` is `send_local`; `send_local` resolves to the
/// first lane in the order client, server, upstream that has an entry for
/// the message's key; `send_in` skips the client lane; `send_out` consults
/// the upstream lane alone, falling back to its default route.
pub proof fn lemma_fallthrough<M: MessageExt>(app: App, m: &M)
    ensures
        app.send_spec(m) == app.send_local_spec(m),
        app.client_lane().lookup(key_of(m)) matches Some(r) ==> app.send_local_spec(m)
            == outcome_of_route(Some(r), m),
        app.client_lane().lookup(key_of(m)) is None ==> app.send_local_spec(m) == app.send_in_spec(
            m,
        ),
        app.server_lane().lookup(key_of(m)) matches Some(r) ==> app.send_in_spec(m)
            == outcome_of_route(Some(r), m),
        app.server_lane().lookup(key_of(m)) is None ==> app.send_in_spec(m) == app.send_out_spec(
            m,
        ),
        app.send_out_spec(m) == outcome_of_route(
            app.upstream_lane().lookup_or_default(key_of(m)),
            m,
        ),
{
}

/// A message with no handler in any lane and no default upstream resolves
/// to a route error, whichever send primitive is used.
pub proof fn lemma_unrouted_send_fails<M: MessageExt>(app: App, m: &M)
    requires
        app.client_lane().lookup(key_of(m)) is None,
        app.server_lane().lookup(key_of(m)) is None,
        app.upstream_lane().lookup(key_of(m)) is None,
        app.upstream_lane().default_view() is None,
    ensures
        app.send_spec(m) == SendOutcomeView::Failure(DirectoryError::Route),
        app.send_local_spec(m) == SendOutcomeView::Failure(DirectoryError::Route),
        app.send_in_spec(m) == SendOutcomeView::Failure(DirectoryError::Route),
        app.send_out_spec(m) == SendOutcomeView::Failure(DirectoryError::Route),
{
}

/// Registering a local handler on the server lane makes `send_in` deliver
/// every message of that type to it: the response is the handler's own,
/// modulo transport encoding.
pub proof fn lemma_server_route_delivers<M: MessageExt>(pre: App, post: App, t: u64, m: &M)
    requires
        !M::opaque_spec(),
        route_installed::<M>(pre, post, RouteView::Local(t), None, RouteType::Server),
    ensures
        post.send_in_spec(m) == SendOutcomeView::Local(t),
{
}

/// Replacement idempotence.  Inserting a handler for a key and then a
/// second one leaves the table as if only the second had been inserted: a
/// lookup returns the second handler alone, so the first receives no
/// message resolved after the replacement.
pub proof fn lemma_insert_replaces(
    r0: Router,
    r1: Router,
    r2: Router,
    k: u64,
    h1: RouteView,
    h2: RouteView,
)
    requires
        r1.typed_view() == r0.typed_view().insert(k, h1),
        r2.typed_view() == r1.typed_view().insert(k, h2),
    ensures
        r2.typed_view() == r0.typed_view().insert(k, h2),
        r2.lookup(RouteKey::Typed(k)) == Some(h2),
{
    assert(r2.typed_view() =~= r0.typed_view().insert(k, h2));
}

/// Replacement idempotence for string-keyed entries.
pub proof fn lemma_insert_str_replaces(
    r0: Router,
    r1: Router,
    r2: Router,
    id: Seq<char>,
    h1: RouteView,
    h2: RouteView,
)
    requires
        r1.named_view() == r0.named_view().insert(id, h1),
        r2.named_view() == r1.named_view().insert(id, h2),
    ensures
        r2.named_view() == r0.named_view().insert(id, h2),
        r2.lookup(RouteKey::Named(id)) == Some(h2),
{
    assert(r2.named_view() =~= r0.named_view().insert(id, h2));
}

/// An explicitly rejecting client entry: registering it on the client lane
/// stops `send_local` from falling through to the server for `M`.
pub fn no_client<M: MessageExt>() -> (r: Route)
    ensures
        r.deep_view() == RouteView::Reject,
{
    Route::Reject
}

/// An explicitly rejecting server entry: registering it on the server lane
/// stops `send_in` from falling through to the upstream for `M`.
pub fn no_server<M: MessageExt>() -> (r: Route)
    ensures
        r.deep_view() == RouteView::Reject,
{
    Route::Reject
}

} // verus!
