//! Plugins: out-of-process extensions registered as upstream routes.
//!
//! A plugin descriptor names an executable and the string ids it will
//! handle.  Adding it to a directory registers each id as an upstream route
//! pointing at the plugin's local socket, and yields the command invocation
//! the host program spawns.  Registration is synchronous and makes no
//! handshake: until the child binds its listener, early messages observe
//! transport errors.
//!
//! The child side reads two positional arguments — the directory's socket
//! and its own listening socket — builds its own directory, and serves it on
//! the listening socket.

use vstd::prelude::*;
use vstd::string::*;

use crate::app::{App, RouteType, SendOutcomeView};
use crate::message::{OpaqueMessage, Payload};
use crate::remote::{Remote, RemoteRequestView, RemoteView};
use crate::router::{Route, RouteView};
use crate::DirectoryError;

verus! {

/// The socket file for `name` inside the per-thread socket directory.
pub open spec fn sock_path_spec(dir: Seq<char>, name: Seq<char>) -> Seq<char> {
    dir + seq!['/'] + name + ".sock"@
}

/// The path of the socket file for `name` inside the socket directory
/// `dir`: `<dir>/<name>.sock`.
pub fn sock_path(dir: &str, name: &str) -> (r: String)
    ensures
        r@ == sock_path_spec(dir@, name@),
{
    let mut s = dir.to_owned();
    s.append("/");
    s.append(name);
    s.append(".sock");
    proof {
        reveal_strlit("/");
        assert(s@ =~= sock_path_spec(dir@, name@));
    }
    s
}

/// Describes the attributes and capabilities of a plugin: its name (which
/// names its socket), the path of its executable, extra arguments, and the
/// string ids of the messages it handles.
#[derive(Debug)]
pub struct Plugin {
    pub name: String,
    pub exec_path: String,
    pub opt_args: Vec<String>,
    pub messages: Vec<String>,
}

/// The command invocation that starts a plugin: the host spawns
/// `exec_path` with `args`, propagating the `TEST_LOG` environment variable
/// when it is set in the parent.
#[derive(Debug)]
pub struct PluginSpawn {
    pub exec_path: String,
    pub args: Vec<String>,
}

/// The effect of adding a plugin whose socket is `sock` and whose declared
/// ids are `ids`: every id maps to the plugin's socket on the upstream
/// string table, every other binding stands still, and the other lanes and
/// the factories do not move.
pub open spec fn plugin_routes_installed(
    pre: App,
    post: App,
    sock: Seq<char>,
    ids: Seq<Seq<char>>,
) -> bool {
    &&& post.client_lane() == pre.client_lane()
    &&& post.server_lane() == pre.server_lane()
    &&& post.http_factory_view() == pre.http_factory_view()
    &&& post.http_internal_view() == pre.http_internal_view()
    &&& post.upstream_lane().typed_view() == pre.upstream_lane().typed_view()
    &&& post.upstream_lane().default_view() == pre.upstream_lane().default_view()
    &&& forall|i: int|
        0 <= i < ids.len() ==> post.upstream_lane().named_view().contains_key(#[trigger] ids[i])
            && post.upstream_lane().named_view()[ids[i]] == RouteView::Remote(
            RemoteView::LocalHttp(sock),
        )
    &&& forall|k: Seq<char>|
        (forall|i: int| 0 <= i < ids.len() ==> #[trigger] ids[i] != k)
            ==> #[trigger] post.upstream_lane().named_view().contains_key(k)
            == pre.upstream_lane().named_view().contains_key(k) && (
        pre.upstream_lane().named_view().contains_key(k)
            ==> post.upstream_lane().named_view()[k] == pre.upstream_lane().named_view()[k])
}

impl Plugin {
    /// Register this plugin's routes on a directory and lay out its spawn
    /// command.  Every id in `messages` becomes an upstream route pointing
    /// at the plugin's socket; the child is invoked with the directory's
    /// socket first and its own listening socket second, followed by the
    /// descriptor's extra arguments.
    pub fn add_to(self, app: App, sock_dir: &str) -> (r: (App, PluginSpawn))
        requires
            app.wf(),
        ensures
            r.0.wf(),
            r.1.exec_path@ == self.exec_path@,
            r.1.args.deep_view() =~= seq![
                sock_path_spec(sock_dir@, "main"@),
                sock_path_spec(sock_dir@, self.name@),
            ] + self.opt_args.deep_view(),
            plugin_routes_installed(
                app,
                r.0,
                sock_path_spec(sock_dir@, self.name@),
                self.messages.deep_view(),
            ),
    {
        let Plugin { name, exec_path, opt_args, messages } = self;
        let main_sock = sock_path(sock_dir, "main");
        let plugin_sock = sock_path(sock_dir, name.as_str());

        let mut args: Vec<String> = Vec::new();
        args.push(main_sock);
        args.push(plugin_sock.clone());
        let mut i: usize = 0;
        while i < opt_args.len()
            invariant
                i <= opt_args@.len(),
                args.deep_view() =~= seq![
                    sock_path_spec(sock_dir@, "main"@),
                    sock_path_spec(sock_dir@, name@),
                ] + opt_args.deep_view().take(i as int),
            decreases opt_args@.len() - i,
        {
            let ghost args_before = args.deep_view();
            args.push(opt_args[i].clone());
            proof {
                assert(args.deep_view() =~= args_before.push(opt_args@[i as int]@));
                assert(opt_args.deep_view().take(i + 1) =~= opt_args.deep_view().take(i as int)
                    .push(opt_args@[i as int]@));
            }
            i = i + 1;
        }
        proof {
            assert(opt_args.deep_view().take(opt_args@.len() as int) =~= opt_args.deep_view());
        }

        let mut app = app;
        let ghost pre = app;
        let ghost entry_view = RouteView::Remote(
            RemoteView::LocalHttp(sock_path_spec(sock_dir@, name@)),
        );
        let mut j: usize = 0;
        #[verifier::loop_isolation(false)]
        while j < messages.len()
            invariant
                app.wf(),
                j <= messages@.len(),
                app.client_lane() == pre.client_lane(),
                app.server_lane() == pre.server_lane(),
                app.http_factory_view() == pre.http_factory_view(),
                app.http_internal_view() == pre.http_internal_view(),
                app.upstream_lane().typed_view() == pre.upstream_lane().typed_view(),
                app.upstream_lane().default_view() == pre.upstream_lane().default_view(),
                plugin_sock@ == sock_path_spec(sock_dir@, name@),
                entry_view == RouteView::Remote(
                    RemoteView::LocalHttp(sock_path_spec(sock_dir@, name@)),
                ),
                forall|i2: int|
                    0 <= i2 < j ==> app.upstream_lane().named_view().contains_key(
                        #[trigger] messages@[i2]@,
                    ) && app.upstream_lane().named_view()[messages@[i2]@] == entry_view,
                forall|k: Seq<char>|
                    (forall|i2: int| 0 <= i2 < j ==> #[trigger] messages@[i2]@ != k)
                        ==> #[trigger] app.upstream_lane().named_view().contains_key(k)
                        == pre.upstream_lane().named_view().contains_key(k),
                forall|k: Seq<char>|
                    (forall|i2: int| 0 <= i2 < j ==> #[trigger] messages@[i2]@ != k)
                        && pre.upstream_lane().named_view().contains_key(k)
                        ==> #[trigger] app.upstream_lane().named_view()[k]
                        == pre.upstream_lane().named_view()[k],
            decreases messages@.len() - j,
        {
            let entry = Route::Remote(Remote::LocalHttp(plugin_sock.clone()));
            let ghost ev = entry.deep_view();
            let ghost before = app;
            app.add_str(messages[j].as_str(), entry, RouteType::Upstream);
            proof {
                let nv = app.upstream_lane().named_view();
                let bv = before.upstream_lane().named_view();
                assert(ev == entry_view);
                assert(nv == bv.insert(messages@[j as int]@, entry_view));
                assert forall|i2: int|
                    0 <= i2 < j + 1 implies nv.contains_key(#[trigger] messages@[i2]@)
                    && nv[messages@[i2]@] == entry_view by {
                    if i2 < j {
                        assert(bv.contains_key(messages@[i2]@) && bv[messages@[i2]@]
                            == entry_view);
                    }
                }
                assert forall|k: Seq<char>|
                    (forall|i2: int| 0 <= i2 < j + 1 ==> #[trigger] messages@[i2]@
                        != k) implies #[trigger] app.upstream_lane().named_view().contains_key(k)
                    == pre.upstream_lane().named_view().contains_key(k) && (
                pre.upstream_lane().named_view().contains_key(k)
                    ==> app.upstream_lane().named_view()[k]
                    == pre.upstream_lane().named_view()[k]) by {
                    let pv = pre.upstream_lane().named_view();
                    assert(messages@[j as int]@ != k);
                    assert(forall|i2: int| 0 <= i2 < j ==> #[trigger] messages@[i2]@ != k);
                    assert(bv.contains_key(k) == pv.contains_key(k) && (pv.contains_key(k)
                        ==> bv[k] == pv[k]));
                    assert(nv.contains_key(k) == bv.contains_key(k));
                }
            }
            j = j + 1;
        }
        proof {
            let ids = messages.deep_view();
            let entry = RouteView::Remote(RemoteView::LocalHttp(sock_path_spec(sock_dir@, name@)));
            assert forall|i: int|
                0 <= i < ids.len() implies app.upstream_lane().named_view().contains_key(
                #[trigger] ids[i],
            ) && app.upstream_lane().named_view()[ids[i]] == entry by {
                assert(ids[i] == messages@[i]@);
            }
            assert forall|k: Seq<char>|
                (forall|i: int| 0 <= i < ids.len() ==> #[trigger] ids[i] != k)
                implies #[trigger] app.upstream_lane().named_view().contains_key(k)
                == pre.upstream_lane().named_view().contains_key(k) && (
            pre.upstream_lane().named_view().contains_key(k)
                ==> app.upstream_lane().named_view()[k]
                == pre.upstream_lane().named_view()[k]) by {
                assert forall|i: int| 0 <= i < messages@.len() implies #[trigger] messages@[i]@
                    != k by {
                    assert(ids[i] == messages@[i]@);
                }
            }
        }
        (app, PluginSpawn { exec_path, args })
    }
}

/// Plugin path registration.  After a plugin with declared ids is added,
/// `send_out` on an envelope whose id the plugin declared targets the
/// plugin's socket, with the envelope encoded as the body and its id as the
/// request path; an envelope with an undeclared, otherwise unregistered id
/// meets a route error — unless a default upstream is set.
pub proof fn lemma_plugin_registration(
    app: App,
    sock: Seq<char>,
    ids: Seq<Seq<char>>,
    m: &OpaqueMessage,
)
    requires
        forall|i: int|
            0 <= i < ids.len() ==> app.upstream_lane().named_view().contains_key(#[trigger] ids[i])
                && app.upstream_lane().named_view()[ids[i]] == RouteView::Remote(
                RemoteView::LocalHttp(sock),
            ),
    ensures
        (exists|i: int| 0 <= i < ids.len() && m.id@ == ids[i]) ==> app.send_out_spec(m)
            == SendOutcomeView::Request(
            RemoteRequestView::LocalHttp {
                socket: sock,
                path: seq!['/'] + m.id@,
                body: m.wire_bin(),
            },
        ),
        (forall|i: int| 0 <= i < ids.len() ==> ids[i] != m.id@) && !app.upstream_lane(
        ).named_view().contains_key(m.id@) && app.upstream_lane().default_view() is None
            ==> app.send_out_spec(m) == SendOutcomeView::Failure(DirectoryError::Route),
{
    if exists|i: int| 0 <= i < ids.len() && m.id@ == ids[i] {
        let i = choose|i: int| 0 <= i < ids.len() && m.id@ == ids[i];
        assert(app.upstream_lane().named_view().contains_key(ids[i]));
    }
}

/// The two socket paths a plugin child reads from its command line: the
/// directory's socket (first argument) and the socket the child must bind
/// its own server to (second argument).
#[derive(Debug)]
pub struct PluginSockets {
    pub directory: String,
    pub listen: String,
}

/// Read a plugin child's positional arguments (the program name already
/// stripped): exactly two socket paths, or nothing on a malformed command
/// line.
pub fn plugin_args(args: &Vec<String>) -> (r: Option<PluginSockets>)
    ensures
        args@.len() == 2 ==> r is Some && r.unwrap().directory@ == args.deep_view()[0]
            && r.unwrap().listen@ == args.deep_view()[1],
        args@.len() != 2 ==> r is None,
{
    if args.len() == 2 {
        Some(PluginSockets { directory: args[0].clone(), listen: args[1].clone() })
    } else {
        None
    }
}

} // verus!
