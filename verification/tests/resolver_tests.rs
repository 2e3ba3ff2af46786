use commandbot::registry::default_builtins;
use commandbot::resolver::{
    get_alias, resolve, rmalias, rmcommand, setalias, setcommand, setyawn, yawn, ResolvedAction,
};
use commandbot::store::Store;
use commandbot::CommandError;

fn temp_store() -> Store {
    match Store::open_temporary() {
        Ok(s) => s,
        Err(_) => panic!("could not open a temporary store"),
    }
}

fn resolved(store: &Store, raw: &str) -> ResolvedAction {
    match resolve(store, raw) {
        Ok(a) => a,
        Err(_) => panic!("store failed during resolution"),
    }
}

#[test]
fn set_then_resolve_case_insensitive() {
    let mut store = temp_store();
    let reg = default_builtins();
    assert_eq!(setcommand(&mut store, &reg, "Ping", "pong!"), Ok(()));
    assert_eq!(
        resolved(&store, "PING"),
        ResolvedAction::Respond(String::from("pong!"))
    );
    assert_eq!(
        resolved(&store, "ping"),
        ResolvedAction::Respond(String::from("pong!"))
    );
}

#[test]
fn set_overwrites_previous_value() {
    let mut store = temp_store();
    let reg = default_builtins();
    assert_eq!(setcommand(&mut store, &reg, "x", "a"), Ok(()));
    assert_eq!(setcommand(&mut store, &reg, "x", "b"), Ok(()));
    assert_eq!(
        resolved(&store, "x"),
        ResolvedAction::Respond(String::from("b"))
    );
}

#[test]
fn alias_then_resolve() {
    let mut store = temp_store();
    let reg = default_builtins();
    assert_eq!(setalias(&mut store, &reg, "p", "ping"), Ok(()));
    assert_eq!(setcommand(&mut store, &reg, "ping", "pong!"), Ok(()));
    assert_eq!(
        resolved(&store, "p"),
        ResolvedAction::Respond(String::from("pong!"))
    );
}

#[test]
fn alias_chain_resolves_to_no_match() {
    let mut store = temp_store();
    let reg = default_builtins();
    assert_eq!(setalias(&mut store, &reg, "a", "b"), Ok(()));
    assert_eq!(setalias(&mut store, &reg, "b", "c"), Ok(()));
    assert_eq!(setcommand(&mut store, &reg, "c", "r"), Ok(()));
    assert_eq!(resolved(&store, "a"), ResolvedAction::NoMatch);
    assert_eq!(
        resolved(&store, "b"),
        ResolvedAction::Respond(String::from("r"))
    );
}

#[test]
fn dangling_alias_is_no_match() {
    let mut store = temp_store();
    let reg = default_builtins();
    assert_eq!(setalias(&mut store, &reg, "x", "nothere"), Ok(()));
    assert_eq!(resolved(&store, "x"), ResolvedAction::NoMatch);
}

#[test]
fn alias_target_is_used_verbatim() {
    let mut store = temp_store();
    let reg = default_builtins();
    assert_eq!(setalias(&mut store, &reg, "a", "UPPER"), Ok(()));
    assert_eq!(setcommand(&mut store, &reg, "upper", "r"), Ok(()));
    assert_eq!(resolved(&store, "a"), ResolvedAction::NoMatch);
}

#[test]
fn remove_then_resolve_is_no_match() {
    let mut store = temp_store();
    let reg = default_builtins();
    assert_eq!(setcommand(&mut store, &reg, "gone", "bye"), Ok(()));
    assert_eq!(rmcommand(&mut store, "GONE"), Ok(()));
    assert_eq!(resolved(&store, "gone"), ResolvedAction::NoMatch);
}

#[test]
fn remove_of_never_created_name_is_ok() {
    let mut store = temp_store();
    assert_eq!(rmcommand(&mut store, "never"), Ok(()));
    assert_eq!(rmalias(&mut store, "never"), Ok(()));
}

#[test]
fn remove_alias_leaves_command() {
    let mut store = temp_store();
    let reg = default_builtins();
    assert_eq!(setcommand(&mut store, &reg, "c", "r"), Ok(()));
    assert_eq!(setalias(&mut store, &reg, "c", "elsewhere"), Ok(()));
    assert_eq!(resolved(&store, "c"), ResolvedAction::NoMatch);
    assert_eq!(rmalias(&mut store, "c"), Ok(()));
    assert_eq!(
        resolved(&store, "c"),
        ResolvedAction::Respond(String::from("r"))
    );
}

#[test]
fn reserved_prefix_is_a_conflict_and_writes_nothing() {
    let mut store = temp_store();
    let reg = default_builtins();
    assert_eq!(
        setcommand(&mut store, &reg, "--foo", "x"),
        Err(CommandError::Conflict)
    );
    assert_eq!(resolved(&store, "--foo"), ResolvedAction::NoMatch);
}

#[test]
fn builtin_name_is_a_conflict_and_writes_nothing() {
    let mut store = temp_store();
    let reg = default_builtins();
    assert_eq!(
        setcommand(&mut store, &reg, "PACKWIZ", "x"),
        Err(CommandError::Conflict)
    );
    assert_eq!(
        setalias(&mut store, &reg, "bash", "x"),
        Err(CommandError::Conflict)
    );
    assert_eq!(resolved(&store, "packwiz"), ResolvedAction::NoMatch);
    assert_eq!(resolved(&store, "bash"), ResolvedAction::NoMatch);
}

#[test]
fn get_alias_returns_stored_target() {
    let mut store = temp_store();
    let reg = default_builtins();
    assert_eq!(setalias(&mut store, &reg, "A", "cmd"), Ok(()));
    assert_eq!(get_alias(&store, "a"), Some(String::from("cmd")));
    assert_eq!(get_alias(&store, "missing"), None);
}

#[test]
fn yawn_preference_roundtrip() {
    let mut store = temp_store();
    assert_eq!(setyawn(&mut store, 42, "mornin"), Ok(()));
    assert_eq!(yawn(&store, 42, "fallback"), Ok(String::from("mornin")));
    assert_eq!(yawn(&store, 7, "fallback"), Ok(String::from("fallback")));
}

#[test]
fn yawn_keys_are_per_user() {
    let mut store = temp_store();
    assert_eq!(setyawn(&mut store, 1, "one"), Ok(()));
    assert_eq!(setyawn(&mut store, 11, "eleven"), Ok(()));
    assert_eq!(yawn(&store, 1, "d"), Ok(String::from("one")));
    assert_eq!(yawn(&store, 11, "d"), Ok(String::from("eleven")));
}
