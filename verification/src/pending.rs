//! Pending routes: entries whose destination is still being constructed.
//!
//! A pending route already behaves as a handler and may be installed into a
//! routing table immediately: a lane entry `Route::Pending(token)` points at
//! a `PendingRoute` value the host program owns alongside the future that
//! will produce the real destination.  Messages arriving while the future
//! runs are held in a queue.  When the future completes, `resolve` installs
//! the destination into the chosen lane of the current directory exactly
//! once and redispatches every held message through that lane — through the
//! routing table again, so a later replacement of the entry is honoured.
//! When the future fails, every held message fails with a route error, as
//! does every message arriving afterwards.

use vstd::prelude::*;

use crate::app::{lane_send_spec, route_installed, App, RouteType, SendOutcome};
use crate::message::MessageExt;
use crate::router::{Route, RouteView};

verus! {

/// Where a pending route stands: still waiting for its future, resolved
/// into the routing table, or failed for good.
#[derive(Clone, Copy, Debug, PartialEq, Eq, Structural)]
pub enum PendingState {
    Waiting,
    Resolved,
    Failed,
}

/// What a pending route asks the host to do with one incoming message.
#[derive(Clone, Copy, Debug, PartialEq, Eq, Structural)]
pub enum PendingAction {
    /// The message is held; its response is owed when the route resolves.
    Hold,
    /// The route has resolved: dispatch the message through the chosen lane
    /// of the current directory, skipping the queue.
    Redispatch,
    /// The route has failed: the message fails with a route error.
    Fail,
}

/// The state machine behind one pending entry for messages of type `M`.
pub struct PendingRoute<M: MessageExt> {
    ty: Option<RouteType>,
    id: Option<String>,
    state: PendingState,
    queue: Vec<M>,
}

impl<M: MessageExt> PendingRoute<M> {
    /// The lane the resolved destination is installed into.
    pub closed spec fn ty_spec(&self) -> Option<RouteType> {
        self.ty
    }

    /// The string id the entry is registered under, when it is not
    /// registered under `M`'s type identity.
    pub closed spec fn id_spec(&self) -> Option<Seq<char>> {
        match self.id {
            Some(ref s) => Some(s@),
            None => None,
        }
    }

    /// Where the state machine stands.
    pub closed spec fn state_spec(&self) -> PendingState {
        self.state
    }

    /// The messages held so far, in arrival order.
    pub closed spec fn queue_spec(&self) -> Seq<M> {
        self.queue@
    }

    /// Where the state machine stands, for the host to read.
    pub fn state(&self) -> (r: PendingState)
        ensures
            r == self.state_spec(),
    {
        self.state
    }

    /// A fresh pending route: waiting, with an empty queue.  The host keeps
    /// it beside the future that will produce the destination.
    pub fn new() -> (r: Self)
        ensures
            r.state_spec() == PendingState::Waiting,
            r.queue_spec() == Seq::<M>::empty(),
            r.ty_spec() is None,
            r.id_spec() is None,
    {
        PendingRoute { ty: None, id: None, state: PendingState::Waiting, queue: Vec::new() }
    }

    /// Record the lane this route was registered on.
    pub fn set_type(self, ty: RouteType) -> (r: Self)
        ensures
            r.ty_spec() == Some(ty),
            r.id_spec() == self.id_spec(),
            r.state_spec() == self.state_spec(),
            r.queue_spec() == self.queue_spec(),
    {
        let PendingRoute { ty: _, id, state, queue } = self;
        PendingRoute { ty: Some(ty), id, state, queue }
    }

    /// Record the string id this route was registered under.
    pub fn set_id(self, id: &str) -> (r: Self)
        ensures
            r.id_spec() == Some(id@),
            r.ty_spec() == self.ty_spec(),
            r.state_spec() == self.state_spec(),
            r.queue_spec() == self.queue_spec(),
    {
        let PendingRoute { ty, id: _, state, queue } = self;
        PendingRoute { ty, id: Some(id.to_owned()), state, queue }
    }

    /// Receive one message: hold it while the future runs, redispatch it
    /// through the lane once resolved, fail it once failed.
    pub fn handle(&mut self, msg: M) -> (r: PendingAction)
        ensures
            final(self).ty_spec() == old(self).ty_spec(),
            final(self).id_spec() == old(self).id_spec(),
            final(self).state_spec() == old(self).state_spec(),
            old(self).state_spec() == PendingState::Waiting ==> r == PendingAction::Hold
                && final(self).queue_spec() == old(self).queue_spec().push(msg),
            old(self).state_spec() != PendingState::Waiting ==> final(self).queue_spec()
                == old(self).queue_spec(),
            old(self).state_spec() == PendingState::Resolved ==> r == PendingAction::Redispatch,
            old(self).state_spec() == PendingState::Failed ==> r == PendingAction::Fail,
    {
        match self.state {
            PendingState::Waiting => {
                self.queue.push(msg);
                PendingAction::Hold
            },
            PendingState::Resolved => PendingAction::Redispatch,
            PendingState::Failed => PendingAction::Fail,
        }
    }

    /// The future produced its destination: install `entry` into the chosen
    /// lane of the current directory exactly once, then redispatch every
    /// held message through that lane — each resolution is computed against
    /// the directory as it stands after the installation.  Returns the held
    /// messages with their resolutions, in arrival order.
    pub fn resolve(&mut self, app: &mut App, entry: Route) -> (drained: Vec<(M, SendOutcome)>)
        requires
            old(self).state_spec() == PendingState::Waiting,
            old(self).ty_spec() is Some,
            old(app).wf(),
        ensures
            final(app).wf(),
            route_installed::<M>(
                *old(app),
                *final(app),
                entry.deep_view(),
                old(self).id_spec(),
                old(self).ty_spec().unwrap(),
            ),
            final(self).state_spec() == PendingState::Resolved,
            final(self).queue_spec() == Seq::<M>::empty(),
            final(self).ty_spec() == old(self).ty_spec(),
            final(self).id_spec() == old(self).id_spec(),
            drained.len() == old(self).queue_spec().len(),
            forall|i: int|
                0 <= i < drained.len() ==> #[trigger] drained[i].0 == old(self).queue_spec()[i]
                    && drained[i].1.deep_view() == lane_send_spec(
                    *final(app),
                    old(self).ty_spec(),
                    &drained[i].0,
                ),
    {
        let ty = match self.ty {
            Some(t) => t,
            None => RouteType::Server,
        };
        match &self.id {
            Some(id) => app.add_str(id.as_str(), entry, ty),
            None => app.add_recip::<M>(entry, ty),
        }
        self.state = PendingState::Resolved;
        let mut drained: Vec<(M, SendOutcome)> = Vec::new();
        let ghost held = old(self).queue_spec();
        let ghost post_app = *app;
        while self.queue.len() > 0
            invariant
                post_app == *app,
                post_app.wf(),
                drained.len() + self.queue.len() == held.len(),
                self.queue@ == held.subrange(drained.len() as int, held.len() as int),
                self.ty == old(self).ty,
                self.id == old(self).id,
                self.state == PendingState::Resolved,
                forall|i: int|
                    0 <= i < drained.len() ==> #[trigger] drained[i].0 == held[i]
                        && drained[i].1.deep_view() == lane_send_spec(
                        post_app,
                        old(self).ty_spec(),
                        &drained[i].0,
                    ),
            decreases self.queue.len(),
        {
            let m = self.queue.remove(0);
            proof {
                assert(m == held[drained.len() as int]);
            }
            let outcome = app.send_on_lane(self.ty, &m);
            drained.push((m, outcome));
            proof {
                assert(self.queue@ =~= held.subrange(drained.len() as int, held.len() as int));
            }
        }
        drained
    }

    /// Pending resolve, successful half.  When a pending route registered
    /// on the server lane for a typed message resolves to a local handler,
    /// every held message is redispatched to that handler: together with
    /// `resolve`'s contract, each message queued before the resolution
    /// completes through the resolved handler, and none is lost.  (The
    /// failing half is `fail`'s contract: every held message fails with a
    /// route error.)
    pub proof fn lemma_resolved_queue_delivers(
        pre: App,
        post: App,
        t: u64,
        ms: Seq<M>,
        outs: Seq<crate::app::SendOutcomeView>,
    )
        requires
            !M::opaque_spec(),
            route_installed::<M>(pre, post, RouteView::Local(t), None, RouteType::Server),
            outs.len() == ms.len(),
            forall|i: int|
                0 <= i < ms.len() ==> outs[i] == lane_send_spec(
                    post,
                    Some(RouteType::Server),
                    &ms[i],
                ),
        ensures
            forall|i: int|
                0 <= i < outs.len() ==> outs[i] == crate::app::SendOutcomeView::Local(t),
    {
        assert forall|i: int|
            0 <= i < outs.len() implies outs[i] == crate::app::SendOutcomeView::Local(t) by {
            crate::app::lemma_server_route_delivers::<M>(pre, post, t, &ms[i]);
        }
    }

    /// The future failed: every held message fails with a route error, and
    /// so will every message arriving afterwards.  Returns the held
    /// messages, in arrival order.
    pub fn fail(&mut self) -> (drained: Vec<M>)
        requires
            old(self).state_spec() == PendingState::Waiting,
        ensures
            final(self).state_spec() == PendingState::Failed,
            final(self).queue_spec() == Seq::<M>::empty(),
            final(self).ty_spec() == old(self).ty_spec(),
            final(self).id_spec() == old(self).id_spec(),
            drained@ == old(self).queue_spec(),
    {
        self.state = PendingState::Failed;
        let mut q: Vec<M> = Vec::new();
        core::mem::swap(&mut q, &mut self.queue);
        q
    }
}

} // verus!
