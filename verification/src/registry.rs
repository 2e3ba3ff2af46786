//! The registry of built-in command names. User-defined commands and aliases
//! must not shadow a built-in name or one of its declared shortcuts, so the
//! registry is consulted, case-insensitively, on every write.

use vstd::prelude::*;
use crate::strutil::{lower_seq, str_eq, to_lowercase};

verus! {

/// The built-in command names and their shortcuts, kept in lowercase so that
/// the collision check is case-insensitive.
pub struct BuiltinRegistry {
    names: Vec<String>,
}

impl BuiltinRegistry {
    /// The reserved names, each already lowercase.
    pub closed spec fn reserved(&self) -> Seq<Seq<char>> {
        self.names.deep_view()
    }

    /// `n` collides with a reserved name. `n` is expected in lowercase.
    pub open spec fn is_reserved(&self, n: Seq<char>) -> bool {
        exists|i: int| 0 <= i < self.reserved().len() && self.reserved()[i] == n
    }

    /// Every stored name is lowercase, so one lowercase comparison decides
    /// a case-insensitive collision.
    pub open spec fn wf(&self) -> bool {
        forall|i: int|
            0 <= i < self.reserved().len() ==> lower_seq(#[trigger] self.reserved()[i])
                == self.reserved()[i]
    }

    /// An empty registry: no name is reserved.
    pub fn new() -> (r: Self)
        ensures
            r.reserved() == Seq::<Seq<char>>::empty(),
            r.wf(),
    {
        let r = BuiltinRegistry { names: Vec::new() };
        proof {
            assert(r.reserved() =~= Seq::<Seq<char>>::empty());
        }
        r
    }

    /// Reserves one more name; the name is normalized to lowercase.
    pub fn reserve(&mut self, name: &str)
        ensures
            final(self).reserved() == old(self).reserved().push(lower_seq(name@)),
            old(self).wf() ==> final(self).wf(),
    {
        let lowered = to_lowercase(name);
        self.names.push(lowered);
        proof {
            assert(final(self).reserved() =~= old(self).reserved().push(lower_seq(name@)));
            if old(self).wf() {
                lemma_lower_seq_idempotent(name@);
                assert forall|i: int| 0 <= i < final(self).reserved().len() implies lower_seq(
                    #[trigger] final(self).reserved()[i],
                ) == final(self).reserved()[i] by {
                    if i < old(self).reserved().len() {
                        assert(final(self).reserved()[i] == old(self).reserved()[i]);
                    }
                }
            }
        }
    }

    /// Decides whether `name_lower` (already lowercase) collides with a
    /// reserved name.
    pub fn is_conflicting(&self, name_lower: &str) -> (r: bool)
        ensures
            r == self.is_reserved(name_lower@),
    {
        let n = self.names.len();
        let mut i: usize = 0;
        while i < n
            invariant
                i <= n,
                n == self.reserved().len(),
                forall|j: int| 0 <= j < i ==> self.reserved()[j] != name_lower@,
            decreases n - i,
        {
            proof {
                assert(self.reserved()[i as int] == self.names@[i as int]@);
            }
            if str_eq(self.names[i].as_str(), name_lower) {
                return true;
            }
            i += 1;
        }
        false
    }
}

/// The registry of the commands this bot fixes in code at startup, in their
/// wiring order. None of them declares a shortcut, so the reserved names are
/// exactly these twelve.
pub fn default_builtins() -> (r: BuiltinRegistry)
    ensures
        r.wf(),
        r.reserved() == seq![
            "setcommand"@,
            "rmalias"@,
            "rmcommand"@,
            "setalias"@,
            "register"@,
            "yawn"@,
            "setyawn"@,
            "packwiz"@,
            "commit"@,
            "pull_request"@,
            "reset"@,
            "bash"@,
        ],
{
    let mut r = BuiltinRegistry::new();
    r.reserve("setcommand");
    r.reserve("rmalias");
    r.reserve("rmcommand");
    r.reserve("setalias");
    r.reserve("register");
    r.reserve("yawn");
    r.reserve("setyawn");
    r.reserve("packwiz");
    r.reserve("commit");
    r.reserve("pull_request");
    r.reserve("reset");
    r.reserve("bash");
    proof {
        reveal_strlit("setcommand");
        reveal_strlit("rmalias");
        reveal_strlit("rmcommand");
        reveal_strlit("setalias");
        reveal_strlit("register");
        reveal_strlit("yawn");
        reveal_strlit("setyawn");
        reveal_strlit("packwiz");
        reveal_strlit("commit");
        reveal_strlit("pull_request");
        reveal_strlit("reset");
        reveal_strlit("bash");
        assert(lower_seq("setcommand"@) =~= "setcommand"@);
        assert(lower_seq("rmalias"@) =~= "rmalias"@);
        assert(lower_seq("rmcommand"@) =~= "rmcommand"@);
        assert(lower_seq("setalias"@) =~= "setalias"@);
        assert(lower_seq("register"@) =~= "register"@);
        assert(lower_seq("yawn"@) =~= "yawn"@);
        assert(lower_seq("setyawn"@) =~= "setyawn"@);
        assert(lower_seq("packwiz"@) =~= "packwiz"@);
        assert(lower_seq("commit"@) =~= "commit"@);
        assert(lower_seq("pull_request"@) =~= "pull_request"@);
        assert(lower_seq("reset"@) =~= "reset"@);
        assert(lower_seq("bash"@) =~= "bash"@);
        assert(r.reserved() =~= seq![
            "setcommand"@,
            "rmalias"@,
            "rmcommand"@,
            "setalias"@,
            "register"@,
            "yawn"@,
            "setyawn"@,
            "packwiz"@,
            "commit"@,
            "pull_request"@,
            "reset"@,
            "bash"@,
        ]);
    }
    r
}

/// Lowercasing is idempotent.
pub proof fn lemma_lower_seq_idempotent(s: Seq<char>)
    ensures
        lower_seq(lower_seq(s)) == lower_seq(s),
{
    assert(lower_seq(lower_seq(s)) =~= lower_seq(s));
}

} // verus!
