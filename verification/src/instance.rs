//! One instance per session.
//!
//! The panel starts the applet at login. A second instance would show a second
//! icon and break the rule of one session at a time, since the two cannot see each
//! other; so an instance runs only while it owns a bus name. A name is a lock that
//! cannot go stale: it is released when its owner dies, however it dies.

use vstd::prelude::*;

verus! {

/// The applet's name.
pub const APP_ID: &'static str = "io.github.alonespinoza.OpenvpnManager";

/// The bus name that serves as the lock, and as nothing else.
pub const INSTANCE_LOCK_NAME: &'static str = "io.github.alonespinoza.OpenvpnManager.Instance";

/// What the bus says to a request for the name.
#[derive(Debug, Clone, Copy, PartialEq, Eq, Structural)]
pub enum NameReply {
    PrimaryOwner,
    AlreadyOwner,
    InQueue,
    Exists,
}

/// Does this instance own the name?
pub fn owns_lock(reply: NameReply) -> (owned: bool)
    ensures
        owned == (reply == NameReply::PrimaryOwner || reply == NameReply::AlreadyOwner),
{
    match reply {
        NameReply::PrimaryOwner | NameReply::AlreadyOwner => true,
        NameReply::Exists | NameReply::InQueue => false,
    }
}

/// Should this instance run?
///
/// Only another owner is a reason not to. A bus that cannot be asked, which is
/// `None`, is none: an applet that reports openvpn3 as unavailable is more legible
/// than an icon that never appears.
pub fn should_run(reply: Option<NameReply>) -> (run: bool)
    ensures
        run == !(reply == Some(NameReply::Exists) || reply == Some(NameReply::InQueue)),
{
    match reply {
        Some(reply) => owns_lock(reply),
        None => true,
    }
}

} // verus!
