//! One routing lane: a typed lookup table keyed by message type identity, a
//! string-keyed table for opaque envelopes, and an optional default route.
//!
//! A directory holds three lanes (client, server, upstream).  Within a lane
//! there is at most one entry per key; inserting twice replaces.  Lookup and
//! mutation are plain table operations — the asynchronous behaviour of the
//! entries themselves lives in the pending-route state machine and in the
//! host program.

use std::collections::HashMap;

use vstd::prelude::*;
use vstd::string::*;

use crate::message::{key_of, MessageExt, RouteKey};
use crate::remote::{Remote, RemoteView};
use crate::DirectoryError;

verus! {

broadcast use vstd::std_specs::hash::group_hash_axioms;

/// One entry in a lane: where a message with that key is handed.
///
/// `Local` carries the token of an in-process mailbox (the host program maps
/// tokens to actual handlers).  `Remote` is an endpoint in another process.
/// `Pending` carries the token of a pending route whose destination is still
/// being constructed.  `Reject` refuses every message with a route error; it
/// exists so a caller can explicitly stop a lookup from falling through.
#[derive(Debug)]
pub enum Route {
    Local(u64),
    Remote(Remote),
    Pending(u64),
    Reject,
}

impl Clone for Route {
    fn clone(&self) -> (r: Self)
        ensures
            r.deep_view() == self.deep_view(),
    {
        match self {
            Route::Local(t) => Route::Local(*t),
            Route::Remote(rem) => Route::Remote(rem.clone()),
            Route::Pending(t) => Route::Pending(*t),
            Route::Reject => Route::Reject,
        }
    }
}

/// The content of a route, free of `String` identity.
pub enum RouteView {
    Local(u64),
    Remote(RemoteView),
    Pending(u64),
    Reject,
}

impl DeepView for Route {
    type V = RouteView;

    open spec fn deep_view(&self) -> RouteView {
        match self {
            Route::Local(t) => RouteView::Local(*t),
            Route::Remote(rem) => RouteView::Remote(rem.deep_view()),
            Route::Pending(t) => RouteView::Pending(*t),
            Route::Reject => RouteView::Reject,
        }
    }
}

/// An optional route, seen by content.
pub open spec fn opt_route_view(r: Option<Route>) -> Option<RouteView> {
    match r {
        Some(rt) => Some(rt.deep_view()),
        None => None,
    }
}

/// A lookup result, seen by content.
pub open spec fn route_result_view(r: Result<Route, DirectoryError>) -> Result<
    RouteView,
    DirectoryError,
> {
    match r {
        Result::Ok(rt) => Result::Ok(rt.deep_view()),
        Result::Err(e) => Result::Err(e),
    }
}

/// The string-keyed table an association list stands for: later entries win,
/// though the lane keeps its keys unique.
spec fn named_map(s: Seq<(String, Route)>) -> Map<Seq<char>, RouteView>
    decreases s.len(),
{
    if s.len() == 0 {
        Map::empty()
    } else {
        named_map(s.drop_last()).insert(s.last().0@, s.last().1.deep_view())
    }
}

/// Each string key occurs at most once in the list.
spec fn named_keys_unique(s: Seq<(String, Route)>) -> bool {
    forall|i: int, j: int| 0 <= i < j < s.len() ==> s[i].0@ != s[j].0@
}

proof fn lemma_named_map_push(s: Seq<(String, Route)>, p: (String, Route))
    ensures
        named_map(s.push(p)) == named_map(s).insert(p.0@, p.1.deep_view()),
{
    assert(s.push(p).drop_last() =~= s);
    assert(s.push(p).last() == p);
}

proof fn lemma_named_map_absent(s: Seq<(String, Route)>, k: Seq<char>)
    requires
        forall|i: int| 0 <= i < s.len() ==> s[i].0@ != k,
    ensures
        !named_map(s).contains_key(k),
    decreases s.len(),
{
    if s.len() > 0 {
        lemma_named_map_absent(s.drop_last(), k);
    }
}

proof fn lemma_named_map_mem(s: Seq<(String, Route)>, i: int)
    requires
        named_keys_unique(s),
        0 <= i < s.len(),
    ensures
        named_map(s).contains_key(s[i].0@),
        named_map(s)[s[i].0@] == s[i].1.deep_view(),
    decreases s.len(),
{
    if i == s.len() - 1 {
    } else {
        lemma_named_map_mem(s.drop_last(), i);
    }
}

proof fn lemma_named_map_remove(s: Seq<(String, Route)>, i: int)
    requires
        named_keys_unique(s),
        0 <= i < s.len(),
    ensures
        named_map(s.remove(i)) == named_map(s).remove(s[i].0@),
    decreases s.len(),
{
    let k = s[i].0@;
    if i == s.len() - 1 {
        assert(s.remove(i) =~= s.drop_last());
        lemma_named_map_absent(s.drop_last(), k);
        assert(named_map(s.drop_last()) =~= named_map(s.drop_last()).insert(
            k,
            s[i].1.deep_view(),
        ).remove(k));
    } else {
        let dl = s.drop_last();
        lemma_named_map_remove(dl, i);
        assert(s.remove(i) =~= dl.remove(i).push(s.last()));
        lemma_named_map_push(dl.remove(i), s.last());
        assert(s.last().0@ != k);
        assert(named_map(dl).remove(k).insert(s.last().0@, s.last().1.deep_view())
            =~= named_map(dl).insert(s.last().0@, s.last().1.deep_view()).remove(k));
    }
}

proof fn lemma_unique_remove(s: Seq<(String, Route)>, i: int)
    requires
        named_keys_unique(s),
        0 <= i < s.len(),
    ensures
        named_keys_unique(s.remove(i)),
{
    let t = s.remove(i);
    assert forall|a: int, b: int| 0 <= a < b < t.len() implies t[a].0@ != t[b].0@ by {
        let a0 = if a < i {
            a
        } else {
            a + 1
        };
        let b0 = if b < i {
            b
        } else {
            b + 1
        };
        assert(t[a] == s[a0]);
        assert(t[b] == s[b0]);
    }
}

/// The effect of storing `entry` under the type identity of `M` in a lane:
/// the typed table gains (or replaces) that one binding — unless `M` is the
/// opaque envelope, which has no type identity — and nothing else moves.
pub open spec fn typed_inserted<M: MessageExt>(pre: Router, post: Router, entry: RouteView) -> bool {
    &&& post.wf()
    &&& post.label() == pre.label()
    &&& post.named_view() == pre.named_view()
    &&& post.default_view() == pre.default_view()
    &&& if M::opaque_spec() {
        post.typed_view() == pre.typed_view()
    } else {
        post.typed_view() == pre.typed_view().insert(M::type_key_spec(), entry)
    }
}

/// The effect of storing `entry` under the string id `id` in a lane: the
/// string table gains (or replaces) that one binding and nothing else moves.
pub open spec fn named_inserted(pre: Router, post: Router, id: Seq<char>, entry: RouteView) -> bool {
    &&& post.wf()
    &&& post.label() == pre.label()
    &&& post.typed_view() == pre.typed_view()
    &&& post.default_view() == pre.default_view()
    &&& post.named_view() == pre.named_view().insert(id, entry)
}

/// One routing lane.
pub struct Router {
    /// A label for diagnostics; carries no routing meaning.
    pub name: String,
    routes: HashMap<u64, Route>,
    str_routes: Vec<(String, Route)>,
    default: Option<Route>,
}

impl Router {
    /// The typed table, by content.
    pub closed spec fn typed_view(&self) -> Map<u64, RouteView> {
        Map::new(
            |k: u64| self.routes@.contains_key(k),
            |k: u64| self.routes@[k].deep_view(),
        )
    }

    /// The string-keyed table, by content.
    pub closed spec fn named_view(&self) -> Map<Seq<char>, RouteView> {
        named_map(self.str_routes@)
    }

    /// The default route, by content.
    pub closed spec fn default_view(&self) -> Option<RouteView> {
        match self.default {
            Some(r) => Some(r.deep_view()),
            None => None,
        }
    }

    /// The diagnostic label, by content.
    pub closed spec fn label(&self) -> Seq<char> {
        self.name@
    }

    /// The lane's internal invariant.
    pub closed spec fn wf(&self) -> bool {
        named_keys_unique(self.str_routes@)
    }

    /// What a lookup for `k` finds, without the default.
    pub open spec fn lookup(&self, k: RouteKey) -> Option<RouteView> {
        match k {
            RouteKey::Typed(t) => if self.typed_view().contains_key(t) {
                Some(self.typed_view()[t])
            } else {
                None
            },
            RouteKey::Named(n) => if self.named_view().contains_key(n) {
                Some(self.named_view()[n])
            } else {
                None
            },
        }
    }

    /// What a lookup for `k` finds, falling back to the default route.
    pub open spec fn lookup_or_default(&self, k: RouteKey) -> Option<RouteView> {
        match self.lookup(k) {
            Some(r) => Some(r),
            None => self.default_view(),
        }
    }

    /// An empty lane labelled for diagnostics.
    pub fn with_name(name: &str) -> (r: Router)
        ensures
            r.wf(),
            r.label() == name@,
            r.typed_view() == Map::<u64, RouteView>::empty(),
            r.named_view() == Map::<Seq<char>, RouteView>::empty(),
            r.default_view() is None,
    {
        let r = Router {
            name: name.to_owned(),
            routes: HashMap::new(),
            str_routes: Vec::new(),
            default: None,
        };
        proof {
            assert(r.typed_view() =~= Map::<u64, RouteView>::empty());
            assert(r.named_view() =~= Map::<Seq<char>, RouteView>::empty());
        }
        r
    }

    /// An empty, unlabelled lane.
    pub fn new() -> (r: Router)
        ensures
            r.wf(),
            r.typed_view() == Map::<u64, RouteView>::empty(),
            r.named_view() == Map::<Seq<char>, RouteView>::empty(),
            r.default_view() is None,
    {
        Router::with_name("")
    }

    /// Store `handler` under the type identity of `M`, replacing any earlier
    /// entry.  The opaque envelope has no type identity of its own, so for it
    /// this is a no-op.
    pub fn insert<M: MessageExt>(&mut self, handler: Route)
        requires
            old(self).wf(),
        ensures
            final(self).wf(),
            final(self).label() == old(self).label(),
            final(self).named_view() == old(self).named_view(),
            final(self).default_view() == old(self).default_view(),
            M::opaque_spec() ==> final(self).typed_view() == old(self).typed_view(),
            !M::opaque_spec() ==> final(self).typed_view() == old(self).typed_view().insert(
                M::type_key_spec(),
                handler.deep_view(),
            ),
    {
        if M::is_opaque() {
            return ;
        }
        let k = M::type_key();
        self.routes.insert(k, handler);
        proof {
            assert(final(self).typed_view() =~= old(self).typed_view().insert(
                M::type_key_spec(),
                handler.deep_view(),
            ));
        }
    }

    /// Store `handler` under the string id `id`, replacing any earlier entry.
    pub fn insert_str(&mut self, id: &str, handler: Route)
        requires
            old(self).wf(),
        ensures
            final(self).wf(),
            final(self).label() == old(self).label(),
            final(self).typed_view() == old(self).typed_view(),
            final(self).default_view() == old(self).default_view(),
            final(self).named_view() == old(self).named_view().insert(id@, handler.deep_view()),
    {
        let key = id.to_owned();
        let found = self.find_str(&key);
        match found {
            Some(i) => {
                proof {
                    lemma_named_map_remove(self.str_routes@, i as int);
                    lemma_unique_remove(self.str_routes@, i as int);
                }
                self.str_routes.remove(i);
            },
            None => {
                proof {
                    lemma_named_map_absent(self.str_routes@, id@);
                }
            },
        }
        let ghost mid = self.str_routes@;
        proof {
            assert(forall|j: int| 0 <= j < mid.len() ==> mid[j].0@ != id@) by {
                if found is Some {
                    let i = found.unwrap() as int;
                    assert forall|j: int| 0 <= j < mid.len() implies mid[j].0@ != id@ by {
                        let s0 = old(self).str_routes@;
                        let j0 = if j < i {
                            j
                        } else {
                            j + 1
                        };
                        assert(mid[j] == s0[j0]);
                    }
                }
            }
            lemma_named_map_absent(mid, id@);
        }
        self.str_routes.push((key, handler));
        proof {
            lemma_named_map_push(mid, (key, handler));
            assert(final(self).named_view() =~= old(self).named_view().insert(
                id@,
                handler.deep_view(),
            ));
            let fin = final(self).str_routes@;
            assert forall|a: int, b: int| 0 <= a < b < fin.len() implies fin[a].0@ != fin[b].0@ by {
                if b == fin.len() - 1 {
                    assert(mid[a].0@ != id@);
                }
            }
        }
    }

    /// Set the default route used when both tables miss.
    pub fn set_default(&mut self, handler: Route)
        requires
            old(self).wf(),
        ensures
            final(self).wf(),
            final(self).label() == old(self).label(),
            final(self).typed_view() == old(self).typed_view(),
            final(self).named_view() == old(self).named_view(),
            final(self).default_view() == Some(handler.deep_view()),
    {
        self.default = Some(handler);
    }

    /// The index of `key` in the string table, when present.
    fn find_str(&self, key: &String) -> (r: Option<usize>)
        ensures
            match r {
                Some(i) => i < self.str_routes@.len() && self.str_routes@[i as int].0@ == key@,
                None => forall|j: int|
                    0 <= j < self.str_routes@.len() ==> self.str_routes@[j].0@ != key@,
            },
    {
        let n = self.str_routes.len();
        let mut i: usize = 0;
        while i < n
            invariant
                i <= n,
                n == self.str_routes@.len(),
                forall|j: int| 0 <= j < i ==> self.str_routes@[j].0@ != key@,
            decreases n - i,
        {
            if self.str_routes[i].0.eq(key) {
                return Some(i);
            }
            i = i + 1;
        }
        None
    }

    /// The handler registered for the string id `id`, if any.
    pub fn get_str(&self, id: &str) -> (r: Option<Route>)
        requires
            self.wf(),
        ensures
            opt_route_view(r) == self.lookup(RouteKey::Named(id@)),
    {
        let key = id.to_owned();
        match self.find_str(&key) {
            Some(i) => {
                proof {
                    lemma_named_map_mem(self.str_routes@, i as int);
                }
                Some(self.str_routes[i].1.clone())
            },
            None => {
                proof {
                    lemma_named_map_absent(self.str_routes@, id@);
                }
                None
            },
        }
    }

    /// The handler registered for the type identity of `M`, if any.
    pub fn get<M: MessageExt>(&self) -> (r: Option<Route>)
        requires
            self.wf(),
        ensures
            opt_route_view(r) == self.lookup(RouteKey::Typed(M::type_key_spec())),
    {
        let k = M::type_key();
        match self.routes.get(&k) {
            Some(rt) => Some(rt.clone()),
            None => None,
        }
    }

    /// The handler a concrete message resolves to in this lane: by the id it
    /// carries when it is the opaque envelope, by its type identity
    /// otherwise.  The default route is not consulted.
    pub fn recipient_for<M: MessageExt>(&self, msg: &M) -> (r: Option<Route>)
        requires
            self.wf(),
        ensures
            opt_route_view(r) == self.lookup(key_of(msg)),
    {
        if M::is_opaque() {
            let id = msg.name_key();
            self.get_str(id.as_str())
        } else {
            self.get::<M>()
        }
    }

    /// Resolve a message in this lane alone: the registered handler, the
    /// default route when both tables miss, or a route error when neither
    /// exists.
    pub fn send<M: MessageExt>(&self, msg: &M) -> (r: Result<Route, DirectoryError>)
        requires
            self.wf(),
        ensures
            route_result_view(r) == match self.lookup_or_default(key_of(msg)) {
                Some(rt) => Result::<RouteView, DirectoryError>::Ok(rt),
                None => Result::<RouteView, DirectoryError>::Err(DirectoryError::Route),
            },
    {
        match self.recipient_for(msg) {
            Some(rt) => Ok(rt),
            None => match &self.default {
                Some(d) => Ok(d.clone()),
                None => Err(DirectoryError::Route),
            },
        }
    }
}

} // verus!
