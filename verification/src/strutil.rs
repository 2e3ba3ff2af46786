//! Verified string utilities: ASCII case normalization, prefix handling,
//! substring search, splitting, and decimal rendering of integers. All
//! contracts are stated over `Seq<char>` views.

use vstd::prelude::*;
use vstd::string::*;

verus! {

/// ASCII lowercase of one character; everything outside `A`..`Z` is unchanged.
pub open spec fn lower_char(c: char) -> char {
    match c {
        'A' => 'a',
        'B' => 'b',
        'C' => 'c',
        'D' => 'd',
        'E' => 'e',
        'F' => 'f',
        'G' => 'g',
        'H' => 'h',
        'I' => 'i',
        'J' => 'j',
        'K' => 'k',
        'L' => 'l',
        'M' => 'm',
        'N' => 'n',
        'O' => 'o',
        'P' => 'p',
        'Q' => 'q',
        'R' => 'r',
        'S' => 's',
        'T' => 't',
        'U' => 'u',
        'V' => 'v',
        'W' => 'w',
        'X' => 'x',
        'Y' => 'y',
        'Z' => 'z',
        _ => c,
    }
}

/// ASCII lowercase of a character sequence.
pub open spec fn lower_seq(s: Seq<char>) -> Seq<char> {
    s.map_values(|c: char| lower_char(c))
}

/// Relies on `String::push`: appends exactly one character at the end.
#[verifier::external_body]
pub fn push_char(s: &mut String, c: char)
    ensures
        final(s)@ == old(s)@.push(c),
{
    s.push(c);
}

fn lower_char_exec(c: char) -> (r: char)
    ensures
        r == lower_char(c),
{
    match c {
        'A' => 'a',
        'B' => 'b',
        'C' => 'c',
        'D' => 'd',
        'E' => 'e',
        'F' => 'f',
        'G' => 'g',
        'H' => 'h',
        'I' => 'i',
        'J' => 'j',
        'K' => 'k',
        'L' => 'l',
        'M' => 'm',
        'N' => 'n',
        'O' => 'o',
        'P' => 'p',
        'Q' => 'q',
        'R' => 'r',
        'S' => 's',
        'T' => 't',
        'U' => 'u',
        'V' => 'v',
        'W' => 'w',
        'X' => 'x',
        'Y' => 'y',
        'Z' => 'z',
        _ => c,
    }
}

/// ASCII-lowercases a string.
pub fn to_lowercase(s: &str) -> (r: String)
    ensures
        r@ == lower_seq(s@),
{
    let n = s.unicode_len();
    let mut r = String::new();
    let mut i: usize = 0;
    while i < n
        invariant
            i <= n,
            n == s@.len(),
            r@ == lower_seq(s@.take(i as int)),
        decreases n - i,
    {
        let c = s.get_char(i);
        push_char(&mut r, lower_char_exec(c));
        proof {
            assert(lower_seq(s@.take(i as int)).push(lower_char(s@[i as int]))
                =~= lower_seq(s@.take(i + 1 as int)));
        }
        i += 1;
    }
    proof {
        assert(s@.take(n as int) =~= s@);
    }
    r
}

/// Character-for-character string equality.
pub fn str_eq(a: &str, b: &str) -> (r: bool)
    ensures
        r == (a@ == b@),
{
    let na = a.unicode_len();
    let nb = b.unicode_len();
    if na != nb {
        return false;
    }
    let mut i: usize = 0;
    while i < na
        invariant
            i <= na,
            na == a@.len(),
            na == b@.len(),
            forall|j: int| 0 <= j < i ==> a@[j] == b@[j],
        decreases na - i,
    {
        if a.get_char(i) != b.get_char(i) {
            return false;
        }
        i += 1;
    }
    proof {
        assert(a@ =~= b@);
    }
    true
}

/// `p` stands at the start of `s`.
pub open spec fn is_prefix(p: Seq<char>, s: Seq<char>) -> bool {
    p.len() <= s.len() && p == s.subrange(0, p.len() as int)
}

/// Tests whether `p` is a prefix of `s`.
pub fn starts_with_str(s: &str, p: &str) -> (r: bool)
    ensures
        r == is_prefix(p@, s@),
{
    let np = p.unicode_len();
    let ns = s.unicode_len();
    if np > ns {
        return false;
    }
    let mut i: usize = 0;
    while i < np
        invariant
            i <= np,
            np == p@.len(),
            ns == s@.len(),
            np <= ns,
            forall|j: int| 0 <= j < i ==> p@[j] == s@[j],
        decreases np - i,
    {
        if p.get_char(i) != s.get_char(i) {
            proof {
                assert(s@.subrange(0, np as int)[i as int] == s@[i as int]);
            }
            return false;
        }
        i += 1;
    }
    proof {
        assert(p@ =~= s@.subrange(0, np as int));
    }
    true
}

/// Removes the prefix `p` from `s`, or reports that `p` is no prefix of `s`.
pub fn strip_prefix_str<'a>(s: &'a str, p: &str) -> (r: Option<&'a str>)
    ensures
        r matches Some(t) ==> is_prefix(p@, s@) && t@ == s@.subrange(
            p@.len() as int,
            s@.len() as int,
        ),
        r is None ==> !is_prefix(p@, s@),
{
    if starts_with_str(s, p) {
        Some(s.substring_char(p.unicode_len(), s.unicode_len()))
    } else {
        None
    }
}

/// Concatenation of two strings.
pub fn concat_str(a: &str, b: &str) -> (r: String)
    ensures
        r@ == a@ + b@,
{
    let mut r = String::from_str(a);
    r.append(b);
    r
}

/// Index of the first occurrence of `c` in `s`, or `-1` when `c` does not occur.
pub open spec fn find_char(s: Seq<char>, c: char) -> int
    decreases s.len(),
{
    if s.len() == 0 {
        -1
    } else if s[0] == c {
        0
    } else if find_char(s.drop_first(), c) < 0 {
        -1
    } else {
        1 + find_char(s.drop_first(), c)
    }
}

pub proof fn lemma_find_char(s: Seq<char>, c: char)
    ensures
        find_char(s, c) == -1 ==> forall|j: int| 0 <= j < s.len() ==> s[j] != c,
        find_char(s, c) != -1 ==> 0 <= find_char(s, c) < s.len() && s[find_char(s, c)] == c,
        forall|j: int| 0 <= j < find_char(s, c) ==> s[j] != c,
    decreases s.len(),
{
    if s.len() == 0 {
    } else if s[0] == c {
    } else {
        lemma_find_char(s.drop_first(), c);
        assert(forall|j: int| 1 <= j < s.len() ==> s[j] == s.drop_first()[j - 1]);
    }
}

/// Finds the first occurrence of `c` in `s`.
pub fn find_char_str(s: &str, c: char) -> (r: Option<usize>)
    ensures
        r matches Some(i) ==> i == find_char(s@, c),
        r is None ==> find_char(s@, c) == -1,
{
    let n = s.unicode_len();
    let mut i: usize = 0;
    while i < n
        invariant
            i <= n,
            n == s@.len(),
            forall|j: int| 0 <= j < i ==> s@[j] != c,
        decreases n - i,
    {
        if s.get_char(i) == c {
            proof {
                lemma_find_char(s@, c);
            }
            return Some(i);
        }
        i += 1;
    }
    proof {
        lemma_find_char(s@, c);
    }
    None
}

/// The pieces of `s` between occurrences of `sep`; the separators themselves
/// are dropped, and empty pieces are kept, as when splitting on newlines.
pub open spec fn split_on(s: Seq<char>, sep: char) -> Seq<Seq<char>>
    decreases s.len(),
    via split_on_decreases
{
    let i = find_char(s, sep);
    if i < 0 {
        seq![s]
    } else {
        seq![s.take(i)] + split_on(s.skip(i + 1), sep)
    }
}

#[via_fn]
proof fn split_on_decreases(s: Seq<char>, sep: char) {
    lemma_find_char(s, sep);
}

/// Splits `s` at every occurrence of `sep`.
pub fn split_on_str(s: &str, sep: char) -> (r: Vec<String>)
    ensures
        r.deep_view() == split_on(s@, sep),
    decreases s@.len(),
{
    let n = s.unicode_len();
    match find_char_str(s, sep) {
        None => {
            let mut r: Vec<String> = Vec::new();
            r.push(String::from_str(s));
            proof {
                assert(r.deep_view() =~= split_on(s@, sep));
            }
            r
        },
        Some(i) => {
            proof {
                lemma_find_char(s@, sep);
            }
            let head = s.substring_char(0, i);
            let tail = s.substring_char(i + 1, n);
            proof {
                assert(tail@ == s@.skip(i + 1 as int));
            }
            let mut r = split_on_str(tail, sep);
            r.insert(0, String::from_str(head));
            proof {
                assert(head@ == s@.take(i as int));
                assert(r.deep_view() =~= split_on(s@, sep));
            }
            r
        },
    }
}

/// The whitespace characters recognized when splitting words.
pub open spec fn is_space(c: char) -> bool {
    c == ' ' || c == '\t' || c == '\n' || c == '\r'
}

fn is_space_exec(c: char) -> (r: bool)
    ensures
        r == is_space(c),
{
    c == ' ' || c == '\t' || c == '\n' || c == '\r'
}

/// Index of the first whitespace character, or `-1` when there is none.
pub open spec fn find_space(s: Seq<char>) -> int
    decreases s.len(),
{
    if s.len() == 0 {
        -1
    } else if is_space(s[0]) {
        0
    } else if find_space(s.drop_first()) < 0 {
        -1
    } else {
        1 + find_space(s.drop_first())
    }
}

pub proof fn lemma_find_space(s: Seq<char>)
    ensures
        find_space(s) == -1 ==> forall|j: int| 0 <= j < s.len() ==> !is_space(s[j]),
        find_space(s) != -1 ==> 0 <= find_space(s) < s.len() && is_space(s[find_space(s)]),
        forall|j: int| 0 <= j < find_space(s) ==> !is_space(s[j]),
    decreases s.len(),
{
    if s.len() == 0 {
    } else if is_space(s[0]) {
    } else {
        lemma_find_space(s.drop_first());
        assert(forall|j: int| 1 <= j < s.len() ==> s[j] == s.drop_first()[j - 1]);
    }
}

/// Index of the first non-whitespace character, or `-1` when there is none.
pub open spec fn find_nonspace(s: Seq<char>) -> int
    decreases s.len(),
{
    if s.len() == 0 {
        -1
    } else if !is_space(s[0]) {
        0
    } else if find_nonspace(s.drop_first()) < 0 {
        -1
    } else {
        1 + find_nonspace(s.drop_first())
    }
}

pub proof fn lemma_find_nonspace(s: Seq<char>)
    ensures
        find_nonspace(s) == -1 ==> forall|j: int| 0 <= j < s.len() ==> is_space(s[j]),
        find_nonspace(s) != -1 ==> 0 <= find_nonspace(s) < s.len() && !is_space(
            s[find_nonspace(s)],
        ),
        forall|j: int| 0 <= j < find_nonspace(s) ==> is_space(s[j]),
    decreases s.len(),
{
    if s.len() == 0 {
    } else if !is_space(s[0]) {
    } else {
        lemma_find_nonspace(s.drop_first());
        assert(forall|j: int| 1 <= j < s.len() ==> s[j] == s.drop_first()[j - 1]);
    }
}

fn find_space_str(s: &str) -> (r: Option<usize>)
    ensures
        r matches Some(i) ==> i == find_space(s@),
        r is None ==> find_space(s@) == -1,
{
    let n = s.unicode_len();
    let mut i: usize = 0;
    while i < n
        invariant
            i <= n,
            n == s@.len(),
            forall|j: int| 0 <= j < i ==> !is_space(s@[j]),
        decreases n - i,
    {
        if is_space_exec(s.get_char(i)) {
            proof {
                lemma_find_space(s@);
            }
            return Some(i);
        }
        i += 1;
    }
    proof {
        lemma_find_space(s@);
    }
    None
}

fn find_nonspace_str(s: &str) -> (r: Option<usize>)
    ensures
        r matches Some(i) ==> i == find_nonspace(s@),
        r is None ==> find_nonspace(s@) == -1,
{
    let n = s.unicode_len();
    let mut i: usize = 0;
    while i < n
        invariant
            i <= n,
            n == s@.len(),
            forall|j: int| 0 <= j < i ==> is_space(s@[j]),
        decreases n - i,
    {
        if !is_space_exec(s.get_char(i)) {
            proof {
                lemma_find_nonspace(s@);
            }
            return Some(i);
        }
        i += 1;
    }
    proof {
        lemma_find_nonspace(s@);
    }
    None
}

/// The whitespace-separated words of `s`: maximal runs of non-whitespace
/// characters, in order, with all whitespace dropped.
pub open spec fn split_ws(s: Seq<char>) -> Seq<Seq<char>>
    decreases s.len(),
    via split_ws_decreases
{
    let j = find_nonspace(s);
    if j < 0 {
        Seq::empty()
    } else {
        let t = s.skip(j);
        let i = find_space(t);
        if i < 0 {
            seq![t]
        } else {
            seq![t.take(i)] + split_ws(t.skip(i))
        }
    }
}

#[via_fn]
proof fn split_ws_decreases(s: Seq<char>) {
    lemma_find_nonspace(s);
    let j = find_nonspace(s);
    if j >= 0 {
        lemma_find_space(s.skip(j));
    }
}

/// Splits `s` into its whitespace-separated words.
pub fn split_ws_str(s: &str) -> (r: Vec<String>)
    ensures
        r.deep_view() == split_ws(s@),
    decreases s@.len(),
{
    let n = s.unicode_len();
    match find_nonspace_str(s) {
        None => {
            proof {
                lemma_find_nonspace(s@);
            }
            let r: Vec<String> = Vec::new();
            proof {
                assert(r.deep_view() =~= split_ws(s@));
            }
            r
        },
        Some(j) => {
            proof {
                lemma_find_nonspace(s@);
            }
            let t = s.substring_char(j, n);
            proof {
                assert(t@ == s@.skip(j as int));
            }
            match find_space_str(t) {
                None => {
                    let mut r: Vec<String> = Vec::new();
                    r.push(String::from_str(t));
                    proof {
                        assert(r.deep_view() =~= split_ws(s@));
                    }
                    r
                },
                Some(i) => {
                    proof {
                        lemma_find_space(t@);
                    }
                    let head = t.substring_char(0, i);
                    let tail = t.substring_char(i, t.unicode_len());
                    proof {
                        assert(tail@ == t@.skip(i as int));
                        assert(tail@.len() < s@.len());
                    }
                    let mut r = split_ws_str(tail);
                    r.insert(0, String::from_str(head));
                    proof {
                        assert(head@ == t@.take(i as int));
                        assert(r.deep_view() =~= split_ws(s@));
                    }
                    r
                },
            }
        },
    }
}

/// `p` occurs somewhere in `s` as a contiguous run.
pub open spec fn contains_seq(s: Seq<char>, p: Seq<char>) -> bool {
    exists|i: int|
        0 <= i && i + p.len() <= s.len() && #[trigger] s.subrange(i, i + p.len() as int) == p
}

fn matches_at(s: &str, i: usize, p: &str) -> (r: bool)
    requires
        i + p@.len() <= s@.len(),
    ensures
        r == (s@.subrange(i as int, i + p@.len() as int) == p@),
{
    let ns = s.unicode_len();
    let np = p.unicode_len();
    let mut j: usize = 0;
    while j < np
        invariant
            j <= np,
            np == p@.len(),
            ns == s@.len(),
            i + np <= ns,
            forall|k: int| 0 <= k < j ==> s@[i + k] == p@[k],
        decreases np - j,
    {
        if s.get_char(i + j) != p.get_char(j) {
            proof {
                assert(s@.subrange(i as int, i + p@.len() as int)[j as int] == s@[i + j]);
            }
            return false;
        }
        j += 1;
    }
    proof {
        assert(s@.subrange(i as int, i + p@.len() as int) =~= p@);
    }
    true
}

/// Substring search: does `p` occur in `s`?
pub fn contains_str(s: &str, p: &str) -> (r: bool)
    ensures
        r == contains_seq(s@, p@),
{
    let ns = s.unicode_len();
    let np = p.unicode_len();
    if np > ns {
        return false;
    }
    if np == 0 {
        proof {
            assert(s@.subrange(0, 0 + p@.len() as int) =~= p@);
        }
        return true;
    }
    let mut i: usize = 0;
    while i <= ns - np
        invariant
            1 <= np <= ns,
            ns == s@.len(),
            np == p@.len(),
            i <= ns - np + 1,
            forall|k: int| 0 <= k < i ==> #[trigger] s@.subrange(k, k + p@.len() as int) != p@,
        decreases ns - np + 1 - i,
    {
        if matches_at(s, i, p) {
            return true;
        }
        i += 1;
    }
    false
}

/// The parts joined by single spaces, in order.
pub open spec fn join_spaces(parts: Seq<Seq<char>>) -> Seq<char>
    decreases parts.len(),
{
    if parts.len() == 0 {
        Seq::empty()
    } else if parts.len() == 1 {
        parts[0]
    } else {
        parts[0] + " "@ + join_spaces(parts.drop_first())
    }
}

pub proof fn lemma_join_spaces_push(parts: Seq<Seq<char>>, x: Seq<char>)
    requires
        parts.len() >= 1,
    ensures
        join_spaces(parts.push(x)) == join_spaces(parts) + " "@ + x,
    decreases parts.len(),
{
    if parts.len() == 1 {
        assert(parts.push(x).drop_first() =~= seq![x]);
        assert(parts.push(x)[0] == parts[0]);
        assert(join_spaces(seq![x]) == x);
        assert(join_spaces(parts.push(x)) == parts[0] + " "@ + x);
    } else {
        lemma_join_spaces_push(parts.drop_first(), x);
        assert(parts.push(x).drop_first() =~= parts.drop_first().push(x));
        assert(parts.push(x)[0] == parts[0]);
        assert(join_spaces(parts.push(x)) == parts[0] + " "@ + (join_spaces(parts.drop_first())
            + " "@ + x));
        assert(parts[0] + " "@ + (join_spaces(parts.drop_first()) + " "@ + x) =~= (parts[0] + " "@
            + join_spaces(parts.drop_first())) + " "@ + x);
    }
}

/// The decimal digit characters `0`..`9`.
pub open spec fn digit_char(d: int) -> char {
    if d == 0 {
        '0'
    } else if d == 1 {
        '1'
    } else if d == 2 {
        '2'
    } else if d == 3 {
        '3'
    } else if d == 4 {
        '4'
    } else if d == 5 {
        '5'
    } else if d == 6 {
        '6'
    } else if d == 7 {
        '7'
    } else if d == 8 {
        '8'
    } else {
        '9'
    }
}

/// The decimal rendering of `n`, most significant digit first, no sign and
/// no leading zeros (except for `n == 0` itself).
pub open spec fn dec_str(n: nat) -> Seq<char>
    decreases n,
{
    if n < 10 {
        seq![digit_char(n as int)]
    } else {
        dec_str(n / 10).push(digit_char((n % 10) as int))
    }
}

fn digit_char_exec(d: u64) -> (r: char)
    requires
        d < 10,
    ensures
        r == digit_char(d as int),
{
    if d == 0 {
        '0'
    } else if d == 1 {
        '1'
    } else if d == 2 {
        '2'
    } else if d == 3 {
        '3'
    } else if d == 4 {
        '4'
    } else if d == 5 {
        '5'
    } else if d == 6 {
        '6'
    } else if d == 7 {
        '7'
    } else if d == 8 {
        '8'
    } else {
        '9'
    }
}

/// Renders `n` in decimal.
pub fn u64_to_string(n: u64) -> (r: String)
    ensures
        r@ == dec_str(n as nat),
    decreases n,
{
    if n < 10 {
        let mut s = String::new();
        push_char(&mut s, digit_char_exec(n));
        proof {
            assert(s@ =~= dec_str(n as nat));
        }
        s
    } else {
        proof {
            assert(n / 10 < n) by (nonlinear_arith)
                requires n >= 10;
        }
        let mut s = u64_to_string(n / 10);
        push_char(&mut s, digit_char_exec(n % 10));
        s
    }
}

} // verus!
