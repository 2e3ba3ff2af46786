//! Core logic of a chat command bot: a persistent command/alias store with
//! namespaced keys, single-hop alias resolution, conflict checking against
//! built-in command names, plan construction for the commands that shell out,
//! and deterministic formatting of captured subprocess output.

use vstd::prelude::*;

pub mod dispatch;
pub mod laws;
pub mod plans;
pub mod registry;
pub mod resolver;
pub mod store;
pub mod strutil;
pub mod subprocess;

verus! {

/// A failure of the persistence layer: the underlying store reported an
/// I/O or corruption error, and the operation may not have taken effect.
#[derive(Clone, Copy, Debug, PartialEq, Eq)]
pub struct StoreError;

/// Why a `setcommand` / `setalias` write was rejected or failed.
#[derive(Clone, Copy, Debug, PartialEq, Eq)]
pub enum CommandError {
    /// The requested name collides with the reserved `--` prefix or with a
    /// built-in command name or one of its shortcuts. Nothing was written.
    Conflict,
    /// The persistence layer failed while writing.
    Store,
}

} // verus!
