//! The fallback half of message dispatch: a plain chat message reaches the
//! resolver only when it arrives inside a guild and carries the bot's
//! trigger prefix. Built-in commands are matched by the chat framework
//! before this point; everything here concerns user-defined commands.

use vstd::prelude::*;
use crate::resolver::{resolve, resolve_spec, ResolvedAction};
use crate::store::Store;
use crate::strutil::{is_prefix, strip_prefix_str};
use crate::StoreError;

verus! {

/// What handling one inbound message decides.
#[derive(Debug, PartialEq, Eq)]
pub enum DispatchOutcome {
    /// The message is not for the bot: sent outside a guild, or without the
    /// trigger prefix. Nothing is looked up and nothing is sent.
    Ignored,
    /// The prefixed text matched no stored command or alias; the message is
    /// silently ignored, which is the ordinary case, not an error.
    NoMatch,
    /// A stored command or alias matched: this response text is sent back
    /// verbatim to the originating channel.
    Respond(String),
    /// The store failed during resolution: the failure is reported to the
    /// user and processing of this message stops.
    StoreFailed,
}

/// The role gate of the preference-setting command: the invoking identity
/// must hold at least one of the required roles. `roles_held` is what the
/// identity boundary reports for the invoker; a refused caller gets a
/// user-visible rejection from the caller of this check, never a silent
/// drop.
pub fn check(roles_held: &Vec<u64>, required: &Vec<u64>) -> (r: bool)
    ensures
        r == exists|i: int|
            0 <= i < required@.len() && roles_held@.contains(#[trigger] required@[i]),
{
    let n = required.len();
    let mut i: usize = 0;
    while i < n
        invariant
            i <= n,
            n == required@.len(),
            forall|j: int| 0 <= j < i ==> !roles_held@.contains(#[trigger] required@[j]),
        decreases n - i,
    {
        let role = required[i];
        let m = roles_held.len();
        let mut k: usize = 0;
        while k < m
            invariant
                k <= m,
                i < n,
                n == required@.len(),
                m == roles_held@.len(),
                role == required@[i as int],
                forall|j: int| 0 <= j < k ==> roles_held@[j] != role,
            decreases m - k,
        {
            if roles_held[k] == role {
                proof {
                    assert(roles_held@[k as int] == required@[i as int]);
                    assert(roles_held@.contains(required@[i as int]));
                }
                return true;
            }
            k += 1;
        }
        i += 1;
    }
    false
}

/// Routes one inbound text message. Only messages sent in a guild and
/// carrying the trigger prefix reach resolution; the prefix is stripped and
/// the remainder resolved against the store.
pub fn handle_message(store: &Store, in_guild: bool, content: &str, prefix: &str) -> (r:
    DispatchOutcome)
    ensures
        !in_guild ==> r is Ignored,
        !is_prefix(prefix@, content@) ==> r is Ignored,
        in_guild && is_prefix(prefix@, content@) ==> !(r is Ignored),
        r matches DispatchOutcome::Respond(v) ==> resolve_spec(
            store.contents(),
            content@.skip(prefix@.len() as int),
        ) == Some(v@),
        r is NoMatch ==> resolve_spec(store.contents(), content@.skip(prefix@.len() as int))
            is None,
{
    if !in_guild {
        return DispatchOutcome::Ignored;
    }
    match strip_prefix_str(content, prefix) {
        None => DispatchOutcome::Ignored,
        Some(rest) => {
            proof {
                assert(rest@ =~= content@.skip(prefix@.len() as int));
            }
            match resolve(store, rest) {
                Err(StoreError) => DispatchOutcome::StoreFailed,
                Ok(ResolvedAction::Respond(v)) => DispatchOutcome::Respond(v),
                Ok(ResolvedAction::NoMatch) => DispatchOutcome::NoMatch,
            }
        },
    }
}

} // verus!
