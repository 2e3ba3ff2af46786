use commandbot::dispatch::{check, handle_message, DispatchOutcome};
use commandbot::registry::default_builtins;
use commandbot::resolver::setcommand;
use commandbot::store::Store;
use commandbot::strutil::{split_on_str, split_ws_str, to_lowercase, u64_to_string};

fn seeded_store() -> Store {
    let mut store = match Store::open_temporary() {
        Ok(s) => s,
        Err(_) => panic!("could not open a temporary store"),
    };
    let reg = default_builtins();
    assert_eq!(setcommand(&mut store, &reg, "hello", "hi there"), Ok(()));
    store
}

#[test]
fn message_without_prefix_is_ignored_even_if_it_matches() {
    let store = seeded_store();
    assert_eq!(
        handle_message(&store, true, "hello", "!"),
        DispatchOutcome::Ignored
    );
}

#[test]
fn message_outside_a_guild_is_ignored() {
    let store = seeded_store();
    assert_eq!(
        handle_message(&store, false, "!hello", "!"),
        DispatchOutcome::Ignored
    );
}

#[test]
fn prefixed_match_responds_with_stored_text() {
    let store = seeded_store();
    assert_eq!(
        handle_message(&store, true, "!hello", "!"),
        DispatchOutcome::Respond(String::from("hi there"))
    );
    assert_eq!(
        handle_message(&store, true, "!HELLO", "!"),
        DispatchOutcome::Respond(String::from("hi there"))
    );
}

#[test]
fn prefixed_miss_is_a_silent_no_match() {
    let store = seeded_store();
    assert_eq!(
        handle_message(&store, true, "!nothing here", "!"),
        DispatchOutcome::NoMatch
    );
}

#[test]
fn lowercase_maps_ascii_letters_only() {
    assert_eq!(to_lowercase("MiXeD 123 ÄBC"), "mixed 123 Äbc");
    assert_eq!(to_lowercase(""), "");
}

#[test]
fn split_on_keeps_empty_pieces() {
    let parts = split_on_str("a\n\nb", '\n');
    assert_eq!(parts, vec![String::from("a"), String::from(""), String::from("b")]);
    assert_eq!(split_on_str("", '\n'), vec![String::from("")]);
}

#[test]
fn split_ws_drops_all_whitespace() {
    let parts = split_ws_str("  one\ttwo \n three ");
    assert_eq!(
        parts,
        vec![String::from("one"), String::from("two"), String::from("three")]
    );
    assert_eq!(split_ws_str("   "), Vec::<String>::new());
}

#[test]
fn role_check_needs_one_required_role() {
    let required = vec![1145786846404677662u64, 1126619331007107143, 1145786499934199932];
    assert!(check(&vec![5, 1126619331007107143], &required));
    assert!(!check(&vec![5, 6], &required));
    assert!(!check(&Vec::new(), &required));
    assert!(!check(&vec![5], &Vec::new()));
}

#[test]
fn u64_renders_in_decimal() {
    assert_eq!(u64_to_string(0), "0");
    assert_eq!(u64_to_string(7), "7");
    assert_eq!(u64_to_string(1234567890), "1234567890");
    assert_eq!(u64_to_string(u64::MAX), "18446744073709551615");
}
