//! Character-sequence utilities the rest of the crate states its contracts
//! with: decimal rendering of integers, substring search (exact and
//! ASCII-case-insensitive), and lexicographic ordering of character sequences.

use vstd::prelude::*;
use vstd::string::StrSliceExecFns;
use vstd::string::StringExecFns;

verus! {

/// The decimal digit character for `d` (`d < 10`).
pub open spec fn spec_digit_char(d: nat) -> char {
    if d == 0 {
        '0'
    } else if d == 1 {
        '1'
    } else if d == 2 {
        '2'
    } else if d == 3 {
        '3'
    } else if d == 4 {
        '4'
    } else if d == 5 {
        '5'
    } else if d == 6 {
        '6'
    } else if d == 7 {
        '7'
    } else if d == 8 {
        '8'
    } else {
        '9'
    }
}

/// The usual decimal rendering of `n`, without leading zeros.
pub open spec fn spec_decimal(n: nat) -> Seq<char>
    decreases n,
{
    if n < 10 {
        seq![spec_digit_char(n)]
    } else {
        spec_decimal(n / 10).push(spec_digit_char(n % 10))
    }
}

fn digit_str(d: u64) -> (s: &'static str)
    requires
        d < 10,
    ensures
        s@ == seq![spec_digit_char(d as nat)],
{
    proof {
        reveal_strlit("0");
        reveal_strlit("1");
        reveal_strlit("2");
        reveal_strlit("3");
        reveal_strlit("4");
        reveal_strlit("5");
        reveal_strlit("6");
        reveal_strlit("7");
        reveal_strlit("8");
        reveal_strlit("9");
    }
    let s: &'static str = if d == 0 {
        "0"
    } else if d == 1 {
        "1"
    } else if d == 2 {
        "2"
    } else if d == 3 {
        "3"
    } else if d == 4 {
        "4"
    } else if d == 5 {
        "5"
    } else if d == 6 {
        "6"
    } else if d == 7 {
        "7"
    } else if d == 8 {
        "8"
    } else {
        "9"
    };
    proof {
        assert(s@ =~= seq![spec_digit_char(d as nat)]);
    }
    s
}

/// Renders `n` in decimal.
pub fn u64_to_string(n: u64) -> (s: String)
    ensures
        s@ == spec_decimal(n as nat),
    decreases n,
{
    if n < 10 {
        String::from_str(digit_str(n))
    } else {
        let prefix = u64_to_string(n / 10);
        prefix.concat(digit_str(n % 10))
    }
}

/// Whether two strings hold the same characters.
pub fn str_eq(a: &str, b: &str) -> (r: bool)
    ensures
        r == (a@ == b@),
{
    let ae = String::from_str(a);
    let be = String::from_str(b);
    ae.eq(&be)
}

/// `n` occurs in `h` starting exactly at position `i`.
pub open spec fn spec_matches_at(h: Seq<char>, n: Seq<char>, i: int) -> bool {
    &&& 0 <= i
    &&& i + n.len() <= h.len()
    &&& forall|j: int| 0 <= j < n.len() ==> h[i + j] == n[j]
}

/// `n` occurs somewhere in `h`.
pub open spec fn spec_contains(h: Seq<char>, n: Seq<char>) -> bool {
    exists|i: int| spec_matches_at(h, n, i)
}

/// ASCII lowering of a code point: `A`..`Z` map to `a`..`z`, all else is kept.
pub open spec fn spec_lower32(u: u32) -> u32 {
    if 65 <= u <= 90 {
        (u + 32) as u32
    } else {
        u
    }
}

fn lower32(u: u32) -> (r: u32)
    ensures
        r == spec_lower32(u),
{
    if 65 <= u && u <= 90 {
        u + 32
    } else {
        u
    }
}

/// `n` occurs at position `i` of `h` up to ASCII case.
pub open spec fn spec_ci_matches_at(h: Seq<char>, n: Seq<char>, i: int) -> bool {
    &&& 0 <= i
    &&& i + n.len() <= h.len()
    &&& forall|j: int|
        0 <= j < n.len() ==> spec_lower32(h[i + j] as u32) == spec_lower32(n[j] as u32)
}

/// `n` occurs somewhere in `h` up to ASCII case.
pub open spec fn spec_ci_contains(h: Seq<char>, n: Seq<char>) -> bool {
    exists|i: int| spec_ci_matches_at(h, n, i)
}

fn matches_at(h: &str, n: &str, i: usize, ci: bool) -> (r: bool)
    requires
        i + n@.len() <= h@.len(),
        h@.len() <= usize::MAX,
    ensures
        !ci ==> r == spec_matches_at(h@, n@, i as int),
        ci ==> r == spec_ci_matches_at(h@, n@, i as int),
{
    let nlen = n.unicode_len();
    let mut j: usize = 0;
    while j < nlen
        invariant
            i + nlen <= h@.len(),
            h@.len() <= usize::MAX,
            nlen == n@.len(),
            j <= nlen,
            !ci ==> forall|k: int| 0 <= k < j ==> h@[i + k] == n@[k],
            ci ==> forall|k: int|
                0 <= k < j ==> spec_lower32(h@[i + k] as u32) == spec_lower32(n@[k] as u32),
        decreases nlen - j,
    {
        let hc = h.get_char(i + j);
        let nc = n.get_char(j);
        if ci {
            if lower32(hc as u32) != lower32(nc as u32) {
                return false;
            }
        } else {
            if hc != nc {
                return false;
            }
        }
        j += 1;
    }
    true
}

/// Exact substring search.
pub fn str_contains(h: &str, n: &str) -> (r: bool)
    ensures
        r == spec_contains(h@, n@),
{
    let hlen = h.unicode_len();
    let nlen = n.unicode_len();
    if nlen > hlen {
        assert(forall|i: int| !spec_matches_at(h@, n@, i));
        return false;
    }
    let mut i: usize = 0;
    loop
        invariant
            hlen == h@.len(),
            nlen == n@.len(),
            nlen <= hlen,
            i <= hlen - nlen + 1,
            forall|k: int| 0 <= k < i ==> !spec_matches_at(h@, n@, k),
        decreases hlen - nlen + 1 - i,
    {
        if i > hlen - nlen {
            assert(forall|k: int| !spec_matches_at(h@, n@, k));
            return false;
        }
        if matches_at(h, n, i, false) {
            assert(spec_matches_at(h@, n@, i as int));
            return true;
        }
        i += 1;
    }
}

/// Substring search up to ASCII case.
pub fn str_contains_ci(h: &str, n: &str) -> (r: bool)
    ensures
        r == spec_ci_contains(h@, n@),
{
    let hlen = h.unicode_len();
    let nlen = n.unicode_len();
    if nlen > hlen {
        assert(forall|i: int| !spec_ci_matches_at(h@, n@, i));
        return false;
    }
    let mut i: usize = 0;
    loop
        invariant
            hlen == h@.len(),
            nlen == n@.len(),
            nlen <= hlen,
            i <= hlen - nlen + 1,
            forall|k: int| 0 <= k < i ==> !spec_ci_matches_at(h@, n@, k),
        decreases hlen - nlen + 1 - i,
    {
        if i > hlen - nlen {
            assert(forall|k: int| !spec_ci_matches_at(h@, n@, k));
            return false;
        }
        if matches_at(h, n, i, true) {
            assert(spec_ci_matches_at(h@, n@, i as int));
            return true;
        }
        i += 1;
    }
}

/// Lexicographic order on character sequences, by code point.
pub open spec fn spec_lex_le(a: Seq<char>, b: Seq<char>) -> bool
    decreases a.len(),
{
    if a.len() == 0 {
        true
    } else if b.len() == 0 {
        false
    } else if a[0] < b[0] {
        true
    } else if a[0] > b[0] {
        false
    } else {
        spec_lex_le(a.drop_first(), b.drop_first())
    }
}

/// Strictly before in the lexicographic order.
pub open spec fn spec_lex_lt(a: Seq<char>, b: Seq<char>) -> bool {
    !spec_lex_le(b, a)
}

/// The order is reflexive.
pub proof fn lemma_lex_refl(a: Seq<char>)
    ensures
        spec_lex_le(a, a),
    decreases a.len(),
{
    if a.len() != 0 {
        lemma_lex_refl(a.drop_first());
    }
}

/// Two sequences each at most the other are equal.
pub proof fn lemma_lex_antisym(a: Seq<char>, b: Seq<char>)
    requires
        spec_lex_le(a, b),
        spec_lex_le(b, a),
    ensures
        a =~= b,
    decreases a.len(),
{
    if a.len() != 0 && b.len() != 0 {
        lemma_lex_antisym(a.drop_first(), b.drop_first());
        assert(a =~= seq![a[0]] + a.drop_first());
        assert(b =~= seq![b[0]] + b.drop_first());
    }
}

/// The order is transitive.
pub proof fn lemma_lex_trans(a: Seq<char>, b: Seq<char>, c: Seq<char>)
    requires
        spec_lex_le(a, b),
        spec_lex_le(b, c),
    ensures
        spec_lex_le(a, c),
    decreases a.len(),
{
    if a.len() != 0 && b.len() != 0 && c.len() != 0 {
        if a[0] == b[0] && b[0] == c[0] {
            lemma_lex_trans(a.drop_first(), b.drop_first(), c.drop_first());
        }
    }
}

/// Compares two strings in the lexicographic order of their characters.
pub fn str_le(a: &str, b: &str) -> (r: bool)
    ensures
        r == spec_lex_le(a@, b@),
{
    let alen = a.unicode_len();
    let blen = b.unicode_len();
    let mut i: usize = 0;
    proof {
        assert(a@.skip(0) =~= a@);
        assert(b@.skip(0) =~= b@);
    }
    loop
        invariant
            alen == a@.len(),
            blen == b@.len(),
            i <= alen,
            i <= blen,
            forall|k: int| 0 <= k < i ==> a@[k] == b@[k],
            spec_lex_le(a@, b@) == spec_lex_le(a@.skip(i as int), b@.skip(i as int)),
        decreases alen - i,
    {
        if i == alen {
            assert(a@.skip(i as int).len() == 0);
            return true;
        }
        if i == blen {
            assert(b@.skip(i as int).len() == 0);
            assert(a@.skip(i as int).len() != 0);
            return false;
        }
        let ac = a.get_char(i);
        let bc = b.get_char(i);
        assert(a@.skip(i as int)[0] == a@[i as int]);
        assert(b@.skip(i as int)[0] == b@[i as int]);
        if (ac as u32) < (bc as u32) {
            return true;
        }
        if (ac as u32) > (bc as u32) {
            return false;
        }
        proof {
            assert(ac == bc);
            assert(a@.skip(i as int).drop_first() =~= a@.skip(i + 1));
            assert(b@.skip(i as int).drop_first() =~= b@.skip(i + 1));
        }
        i += 1;
    }
}

} // verus!
