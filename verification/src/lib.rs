//! An in-process message directory: a routing table that maps a message's
//! identity (its static type key, or a string id for extension messages) to
//! exactly one handler, and resolves every send through that table.  A handler
//! may be a local mailbox, a sibling process reachable over a Unix-domain
//! socket, or a remote HTTP endpoint; the dispatcher hides the locality from
//! callers.
//!
//! The crate verifies the core routing logic: the three lanes (client, server,
//! upstream) with their fallthrough order, the wire codecs, the pending-route
//! state machine, the HTTP factory registry, and the plugin route
//! registration.  The surrounding process machinery (actor mailboxes, HTTP
//! servers, subprocess spawning) is driven by a host program through the
//! plain-data decisions these functions return.

use vstd::prelude::*;

pub mod app;
pub mod codec;
pub mod http;
pub mod message;
pub mod pending;
pub mod plugin;
pub mod remote;
pub mod router;
pub mod test_plugin;

pub use crate::app::{App, RouteSource, RouteType};
pub use crate::message::{MessageExt, OpaqueMessage, Payload};
pub use crate::pending::PendingRoute;
pub use crate::plugin::Plugin;

verus! {

/// The error kinds surfaced by the directory core.
///
/// `Route`: no handler exists for the message.  `Codec`: a serialize or
/// deserialize step failed.  `Transport`: an HTTP request or socket connection
/// could not be carried out.  `Mailbox`: a local handler's mailbox was closed.
/// Application-level errors inside a response are not represented here; they
/// travel inside the response payload untouched.
#[derive(Clone, Copy, Debug, PartialEq, Eq, Structural)]
pub enum DirectoryError {
    Route,
    Codec,
    Transport,
    Mailbox,
}

} // verus!
