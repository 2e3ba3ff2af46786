//! Laws of the resolution engine, stated over the store model that the
//! resolver's contracts use. Each lemma relates the effect of one or more
//! writes, as given by the `ensures` of `setcommand`, `setalias` and
//! `rmcommand`, to what `resolve` then finds.

use vstd::prelude::*;
use crate::resolver::{alias_key, command_key, resolve_spec};
use crate::strutil::lower_seq;

verus! {

/// Two sequences with a common prefix are equal exactly when the remainders
/// are equal.
pub proof fn lemma_prepend_injective(p: Seq<char>, s: Seq<char>, t: Seq<char>)
    requires
        p + s == p + t,
    ensures
        s == t,
{
    assert(s =~= (p + s).skip(p.len() as int));
    assert(t =~= (p + t).skip(p.len() as int));
}

/// Setting a command and then resolving the same name, in any letter case,
/// returns the response that was set — provided no alias entry of that name
/// shadows the command.
pub proof fn lemma_set_then_resolve(
    m: Map<Seq<char>, Seq<char>>,
    name: Seq<char>,
    response: Seq<char>,
    raw: Seq<char>,
)
    requires
        lower_seq(raw) == lower_seq(name),
        !m.contains_key(alias_key(name)),
    ensures
        resolve_spec(m.insert(command_key(name), response), raw) == Some(response),
{
    reveal_strlit("alias-");
    let m2 = m.insert(command_key(name), response);
    let k = lower_seq(raw);
    let ak = "alias-"@ + k;
    assert(ak.len() == 6 + k.len());
    assert(!m2.contains_key(ak));
}

/// Setting an alias, then creating its target command, makes the alias
/// resolve to the command's response. The target must be a lowercase name
/// (alias targets are looked up verbatim) and must not itself be the alias's
/// own store key.
pub proof fn lemma_alias_then_resolve(
    m: Map<Seq<char>, Seq<char>>,
    a: Seq<char>,
    c: Seq<char>,
    response: Seq<char>,
)
    requires
        lower_seq(c) == c,
        c != alias_key(a),
    ensures
        resolve_spec(
            m.insert(alias_key(a), c).insert(command_key(c), response),
            a,
        ) == Some(response),
{
    let m2 = m.insert(alias_key(a), c).insert(command_key(c), response);
    assert(m2.contains_key(alias_key(a)));
    assert(m2[alias_key(a)] == c);
    assert(m2[c] == response);
}

/// Single-hop policy: an alias chain of two hops resolves to no match, even
/// though every link and the final command exist. The conditions exclude the
/// accidental collisions under which some entry of the chain would itself
/// satisfy a lookup: `b` names no existing or just-created command and no
/// entry of the chain overwrites another.
pub proof fn lemma_alias_chain_no_match(
    m: Map<Seq<char>, Seq<char>>,
    a: Seq<char>,
    b: Seq<char>,
    c: Seq<char>,
    response: Seq<char>,
)
    requires
        !m.contains_key(b),
        b != alias_key(a),
        b != command_key(c),
        lower_seq(a) != lower_seq(b),
        command_key(c) != alias_key(a),
    ensures
        resolve_spec(
            m.insert(alias_key(a), b).insert(alias_key(b), c).insert(command_key(c), response),
            a,
        ) is None,
{
    reveal_strlit("alias-");
    let m3 = m.insert(alias_key(a), b).insert(alias_key(b), c).insert(command_key(c), response);
    assert(alias_key(a).len() == 6 + lower_seq(a).len());
    assert(alias_key(b).len() == 6 + lower_seq(b).len());
    if alias_key(a) == alias_key(b) {
        lemma_prepend_injective("alias-"@, lower_seq(a), lower_seq(b));
    }
    assert(m3.contains_key(alias_key(a)));
    assert(m3[alias_key(a)] == b);
    assert(b.len() != alias_key(b).len());
    assert(!m3.contains_key(b));
}

/// Removing a command makes the name resolve to no match, in any letter
/// case — provided no alias entry of that name remains.
pub proof fn lemma_remove_then_resolve(
    m: Map<Seq<char>, Seq<char>>,
    name: Seq<char>,
    raw: Seq<char>,
)
    requires
        lower_seq(raw) == lower_seq(name),
        !m.contains_key(alias_key(name)),
    ensures
        resolve_spec(m.remove(command_key(name)), raw) is None,
{
    reveal_strlit("alias-");
    let m2 = m.remove(command_key(name));
    let k = lower_seq(raw);
    let ak = "alias-"@ + k;
    assert(ak.len() == 6 + k.len());
    assert(!m2.contains_key(ak));
    assert(!m2.contains_key(k));
}

/// Two writes to the same key are serialized by the store; whichever goes
/// second wins, exactly as if the first had never happened. With the store's
/// one-key-per-write atomicity this is the whole concurrency story: no
/// interleaving corrupts an entry or touches another key.
pub proof fn lemma_last_write_wins(
    m: Map<Seq<char>, Seq<char>>,
    key: Seq<char>,
    a: Seq<char>,
    b: Seq<char>,
)
    ensures
        m.insert(key, a).insert(key, b) == m.insert(key, b),
        m.insert(key, b).insert(key, a) == m.insert(key, a),
{
    assert(m.insert(key, a).insert(key, b) =~= m.insert(key, b));
    assert(m.insert(key, b).insert(key, a) =~= m.insert(key, a));
}

} // verus!
