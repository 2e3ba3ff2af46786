//! The command/alias resolution engine. Command entries live under the
//! lowercased command name; alias entries live under `"alias-"` plus the
//! lowercased alias name, and hold the next lookup key verbatim; per-user
//! preference entries live under `"--"` plus a feature tag and the user id.
//! Alias resolution is single-hop by design: the value stored under an alias
//! key is used as one further lookup key and chains are not chased.

use vstd::prelude::*;
use crate::registry::BuiltinRegistry;
use crate::store::Store;
use crate::strutil::{concat_str, is_prefix, lower_seq, starts_with_str, to_lowercase,
    u64_to_string, dec_str};
use crate::{CommandError, StoreError};

verus! {

/// The store key of the command named `name`.
pub open spec fn command_key(name: Seq<char>) -> Seq<char> {
    lower_seq(name)
}

/// The store key of the alias named `name`.
pub open spec fn alias_key(name: Seq<char>) -> Seq<char> {
    "alias-"@ + lower_seq(name)
}

/// The store key of user `user`'s preference for the feature `tag`.
pub open spec fn pref_key(tag: Seq<char>, user: Seq<char>) -> Seq<char> {
    "--"@ + tag + "-"@ + user
}

/// `name` begins with the reserved `--` prefix and may not be user-defined.
pub open spec fn reserved_prefix(name: Seq<char>) -> bool {
    is_prefix("--"@, name)
}

/// `name` may not be written: it carries the reserved prefix or collides,
/// case-insensitively, with a built-in command name.
pub open spec fn conflicts(registry: &BuiltinRegistry, name: Seq<char>) -> bool {
    reserved_prefix(name) || registry.is_reserved(lower_seq(name))
}

/// Creates or updates the command `name` with response text `response`.
/// Rejected names leave the store untouched.
pub fn setcommand(
    store: &mut Store,
    registry: &BuiltinRegistry,
    name: &str,
    response: &str,
) -> (r: Result<(), CommandError>)
    requires
        registry.wf(),
    ensures
        (r == Err::<(), CommandError>(CommandError::Conflict)) <==> conflicts(registry, name@),
        r is Ok ==> final(store).contents() == old(store).contents().insert(
            command_key(name@),
            response@,
        ),
        r == Err::<(), CommandError>(CommandError::Conflict) ==> *final(store) == *old(store),
{
    if starts_with_str(name, "--") {
        return Err(CommandError::Conflict);
    }
    let lowered = to_lowercase(name);
    if registry.is_conflicting(lowered.as_str()) {
        return Err(CommandError::Conflict);
    }
    match store.set(lowered.as_str(), response) {
        Ok(_) => Ok(()),
        Err(_) => Err(CommandError::Store),
    }
}

/// Creates or updates the alias `name`, pointing at `command`. The target is
/// stored verbatim and is not required to exist: a dangling alias resolves to
/// no match until its target command is created.
pub fn setalias(
    store: &mut Store,
    registry: &BuiltinRegistry,
    name: &str,
    command: &str,
) -> (r: Result<(), CommandError>)
    requires
        registry.wf(),
    ensures
        (r == Err::<(), CommandError>(CommandError::Conflict)) <==> conflicts(registry, name@),
        r is Ok ==> final(store).contents() == old(store).contents().insert(
            alias_key(name@),
            command@,
        ),
        r == Err::<(), CommandError>(CommandError::Conflict) ==> *final(store) == *old(store),
{
    if starts_with_str(name, "--") {
        return Err(CommandError::Conflict);
    }
    let lowered = to_lowercase(name);
    if registry.is_conflicting(lowered.as_str()) {
        return Err(CommandError::Conflict);
    }
    let key = concat_str("alias-", lowered.as_str());
    match store.set(key.as_str(), command) {
        Ok(_) => Ok(()),
        Err(_) => Err(CommandError::Store),
    }
}

/// Removes the command `name`; removing a command that was never created
/// succeeds and changes nothing.
pub fn rmcommand(store: &mut Store, name: &str) -> (r: Result<(), StoreError>)
    ensures
        r is Ok ==> final(store).contents() == old(store).contents().remove(command_key(name@)),
{
    let lowered = to_lowercase(name);
    store.remove(lowered.as_str())
}

/// Removes the alias `name`; removing an alias that was never created
/// succeeds and changes nothing.
pub fn rmalias(store: &mut Store, name: &str) -> (r: Result<(), StoreError>)
    ensures
        r is Ok ==> final(store).contents() == old(store).contents().remove(alias_key(name@)),
{
    let lowered = to_lowercase(name);
    let key = concat_str("alias-", lowered.as_str());
    store.remove(key.as_str())
}

/// Looks up the alias entry for `command` (taken verbatim, so the caller
/// normalizes case) and returns the stored target. A store failure is
/// reported as `None`, like an absent entry.
pub fn get_alias(store: &Store, command: &str) -> (r: Option<String>)
    ensures
        r matches Some(v) ==> store.contents().contains_key("alias-"@ + command@) && v@
            == store.contents()["alias-"@ + command@],
{
    let key = concat_str("alias-", command);
    match store.get(key.as_str()) {
        Ok(Some(v)) => Some(v),
        _ => None,
    }
}

/// What resolution finds for the raw input `raw` in store contents `m`:
/// first the alias entry, whose stored value is used verbatim as one further
/// lookup key; on an alias miss, the direct command entry; otherwise nothing.
pub open spec fn resolve_spec(m: Map<Seq<char>, Seq<char>>, raw: Seq<char>) -> Option<Seq<char>> {
    let k = lower_seq(raw);
    let ak = "alias-"@ + k;
    if m.contains_key(ak) {
        if m.contains_key(m[ak]) {
            Some(m[m[ak]])
        } else {
            None
        }
    } else if m.contains_key(k) {
        Some(m[k])
    } else {
        None
    }
}

/// What the resolver answers for one raw input.
#[derive(Debug, PartialEq, Eq)]
pub enum ResolvedAction {
    /// A command or alias matched; the stored response text follows.
    Respond(String),
    /// Nothing matched: the ordinary case for arbitrary chat text.
    NoMatch,
}

/// Resolves raw input text to a stored response, per [`resolve_spec`].
/// A store failure during any lookup stops resolution with an error.
pub fn resolve(store: &Store, raw: &str) -> (r: Result<ResolvedAction, StoreError>)
    ensures
        r matches Ok(a) ==> (a matches ResolvedAction::Respond(v) ==> resolve_spec(
            store.contents(),
            raw@,
        ) == Some(v@)),
        r matches Ok(a) && a is NoMatch ==> resolve_spec(store.contents(), raw@) is None,
{
    let k = to_lowercase(raw);
    let ak = concat_str("alias-", k.as_str());
    match store.get(ak.as_str()) {
        Err(e) => Err(e),
        Ok(Some(target)) => match store.get(target.as_str()) {
            Err(e) => Err(e),
            Ok(Some(v)) => Ok(ResolvedAction::Respond(v)),
            Ok(None) => Ok(ResolvedAction::NoMatch),
        },
        Ok(None) => match store.get(k.as_str()) {
            Err(e) => Err(e),
            Ok(Some(v)) => Ok(ResolvedAction::Respond(v)),
            Ok(None) => Ok(ResolvedAction::NoMatch),
        },
    }
}

/// Writes user `user_id`'s preference text for the feature `tag`.
pub fn set_user_preference(
    store: &mut Store,
    tag: &str,
    user_id: u64,
    text: &str,
) -> (r: Result<(), StoreError>)
    ensures
        r is Ok ==> final(store).contents() == old(store).contents().insert(
            pref_key(tag@, dec_str(user_id as nat)),
            text@,
        ),
{
    let key = concat_str("--", tag);
    let key = concat_str(key.as_str(), "-");
    let id = u64_to_string(user_id);
    let key = concat_str(key.as_str(), id.as_str());
    store.set(key.as_str(), text)
}

/// Reads user `user_id`'s preference text for the feature `tag`; `None`
/// when the user never set one.
pub fn get_user_preference(store: &Store, tag: &str, user_id: u64) -> (r: Result<
    Option<String>,
    StoreError,
>)
    ensures
        r matches Ok(v) ==> (v matches Some(t) ==> store.contents().contains_key(
            pref_key(tag@, dec_str(user_id as nat)),
        ) && t@ == store.contents()[pref_key(tag@, dec_str(user_id as nat))]),
        r matches Ok(v) && v is None ==> !store.contents().contains_key(
            pref_key(tag@, dec_str(user_id as nat)),
        ),
{
    let key = concat_str("--", tag);
    let key = concat_str(key.as_str(), "-");
    let id = u64_to_string(user_id);
    let key = concat_str(key.as_str(), id.as_str());
    store.get(key.as_str())
}

/// Sets the invoking user's personalized greeting text.
pub fn setyawn(store: &mut Store, user_id: u64, text: &str) -> (r: Result<(), StoreError>)
    ensures
        r is Ok ==> final(store).contents() == old(store).contents().insert(
            pref_key("yawn"@, dec_str(user_id as nat)),
            text@,
        ),
{
    set_user_preference(store, "yawn", user_id, text)
}

/// Reads the invoking user's personalized greeting text; a user who never
/// set one gets `default`.
pub fn yawn(store: &Store, user_id: u64, default: &str) -> (r: Result<String, StoreError>)
    ensures
        r matches Ok(v) ==> v@ == (if store.contents().contains_key(
            pref_key("yawn"@, dec_str(user_id as nat)),
        ) {
            store.contents()[pref_key("yawn"@, dec_str(user_id as nat))]
        } else {
            default@
        }),
{
    match get_user_preference(store, "yawn", user_id) {
        Err(e) => Err(e),
        Ok(Some(v)) => Ok(v),
        Ok(None) => Ok(String::from_str(default)),
    }
}

} // verus!
