//! Small string building blocks: appending single characters, decimal
//! rendering of counters, and the architecture-placeholder substitution
//! used by native-classifier keys.

use vstd::prelude::*;
use vstd::string::StrSliceExecFns;
use vstd::string::StringExecFns;

verus! {

/// Relies on std's `String::push`: appends exactly the given character.
#[verifier::external_body]
pub fn push_char(s: &mut String, c: char)
    ensures
        final(s)@ == old(s)@.push(c),
{
    s.push(c);
}

/// The decimal digit characters.
pub open spec fn dec_digit(d: nat) -> char
    recommends
        d < 10,
{
    if d == 0 {
        '0'
    } else if d == 1 {
        '1'
    } else if d == 2 {
        '2'
    } else if d == 3 {
        '3'
    } else if d == 4 {
        '4'
    } else if d == 5 {
        '5'
    } else if d == 6 {
        '6'
    } else if d == 7 {
        '7'
    } else if d == 8 {
        '8'
    } else {
        '9'
    }
}

/// The usual decimal rendering of a natural number, most significant digit
/// first, no leading zeros (except for zero itself).
pub open spec fn dec_str(n: nat) -> Seq<char>
    decreases n,
{
    if n < 10 {
        seq![dec_digit(n)]
    } else {
        dec_str(n / 10).push(dec_digit(n % 10))
    }
}

fn digit_char(d: u64) -> (c: char)
    requires
        d < 10,
    ensures
        c == dec_digit(d as nat),
{
    if d == 0 {
        '0'
    } else if d == 1 {
        '1'
    } else if d == 2 {
        '2'
    } else if d == 3 {
        '3'
    } else if d == 4 {
        '4'
    } else if d == 5 {
        '5'
    } else if d == 6 {
        '6'
    } else if d == 7 {
        '7'
    } else if d == 8 {
        '8'
    } else {
        '9'
    }
}

/// Render a number in decimal.
pub fn u64_to_string(n: u64) -> (r: String)
    ensures
        r@ == dec_str(n as nat),
    decreases n,
{
    if n < 10 {
        let mut s = String::new();
        push_char(&mut s, digit_char(n));
        proof {
            assert(s@ =~= seq![dec_digit(n as nat)]);
        }
        s
    } else {
        let mut s = u64_to_string(n / 10);
        push_char(&mut s, digit_char(n % 10));
        s
    }
}

/// Render a 32-bit counter in decimal.
pub fn u32_to_string(n: u32) -> (r: String)
    ensures
        r@ == dec_str(n as nat),
{
    u64_to_string(n as u64)
}

/// The token the `${arch}` placeholder stands for on a given target
/// architecture: `64` exactly on `x86_64`, `32` otherwise.
pub open spec fn arch_token_spec(arch: Seq<char>) -> Seq<char> {
    if arch == "x86_64"@ {
        "64"@
    } else {
        "32"@
    }
}

/// `s` with every occurrence of `${arch}` replaced by `t`, scanned left to
/// right without re-examining replaced text.
pub open spec fn subst_arch(s: Seq<char>, t: Seq<char>) -> Seq<char>
    decreases s.len(),
{
    if s.len() >= 7 && s.subrange(0, 7) == "${arch}"@ {
        t + subst_arch(s.subrange(7, s.len() as int), t)
    } else if s.len() == 0 {
        Seq::<char>::empty()
    } else {
        seq![s[0]] + subst_arch(s.subrange(1, s.len() as int), t)
    }
}

/// Does the placeholder `${arch}` stand at position `i` of `key`?
fn arch_pat_at(key: &str, n: usize, i: usize) -> (r: bool)
    requires
        n == key@.len(),
        i <= n,
    ensures
        r == (i + 7 <= key@.len() && key@.subrange(i as int, i as int + 7) == "${arch}"@),
{
    proof {
        reveal_strlit("${arch}");
    }
    if n - i < 7 {
        return false;
    }
    let ghost sub = key@.subrange(i as int, i as int + 7);
    if key.get_char(i) != '$' {
        proof {
            assert(sub[0] == key@[i as int]);
        }
        return false;
    }
    if key.get_char(i + 1) != '{' {
        proof {
            assert(sub[1] == key@[i as int + 1]);
        }
        return false;
    }
    if key.get_char(i + 2) != 'a' {
        proof {
            assert(sub[2] == key@[i as int + 2]);
        }
        return false;
    }
    if key.get_char(i + 3) != 'r' {
        proof {
            assert(sub[3] == key@[i as int + 3]);
        }
        return false;
    }
    if key.get_char(i + 4) != 'c' {
        proof {
            assert(sub[4] == key@[i as int + 4]);
        }
        return false;
    }
    if key.get_char(i + 5) != 'h' {
        proof {
            assert(sub[5] == key@[i as int + 5]);
        }
        return false;
    }
    if key.get_char(i + 6) != '}' {
        proof {
            assert(sub[6] == key@[i as int + 6]);
        }
        return false;
    }
    proof {
        assert(sub =~= "${arch}"@);
    }
    true
}

/// Replace every `${arch}` placeholder in a native-classifier key by the
/// token of the given target architecture.
pub fn substitute_arch(key: &str, arch: &str) -> (r: String)
    ensures
        r@ == subst_arch(key@, arch_token_spec(arch@)),
{
    let tok: &str = if crate::paths::str_eq(arch, "x86_64") {
        "64"
    } else {
        "32"
    };
    let ghost t = arch_token_spec(arch@);
    assert(tok@ == t);
    let n = key.unicode_len();
    let mut out = String::new();
    let mut i: usize = 0;
    proof {
        assert(key@.subrange(0, n as int) =~= key@);
        assert(out@ + subst_arch(key@, t) =~= subst_arch(key@, t));
    }
    while i < n
        invariant
            i <= n,
            n == key@.len(),
            tok@ == t,
            subst_arch(key@, t) == out@ + subst_arch(
                key@.subrange(i as int, n as int),
                t,
            ),
        decreases n - i,
    {
        let ghost rest = key@.subrange(i as int, n as int);
        if arch_pat_at(key, n, i) {
            proof {
                assert(rest.subrange(0, 7) =~= key@.subrange(i as int, i as int + 7));
                assert(rest.subrange(7, rest.len() as int) =~= key@.subrange(
                    i as int + 7,
                    n as int,
                ));
                assert(subst_arch(rest, t) == t + subst_arch(
                    key@.subrange(i as int + 7, n as int),
                    t,
                ));
            }
            out.append(tok);
            i += 7;
        } else {
            proof {
                if rest.len() >= 7 {
                    assert(rest.subrange(0, 7) =~= key@.subrange(i as int, i as int + 7));
                }
                assert(rest.subrange(1, rest.len() as int) =~= key@.subrange(
                    i as int + 1,
                    n as int,
                ));
                assert(subst_arch(rest, t) == seq![key@[i as int]] + subst_arch(
                    key@.subrange(i as int + 1, n as int),
                    t,
                ));
            }
            let c = key.get_char(i);
            push_char(&mut out, c);
            i += 1;
        }
    }
    proof {
        assert(key@.subrange(n as int, n as int) =~= Seq::<char>::empty());
        assert(out@ =~= subst_arch(key@, t));
    }
    out
}

/// A substitution law of native-classifier keys: wherever the placeholder
/// `${arch}` occurs in the key, the substituted key contains the
/// architecture token at some position.
pub proof fn lemma_subst_arch_contains(s: Seq<char>, t: Seq<char>, j: int)
    requires
        0 <= j,
        j + 7 <= s.len(),
        s.subrange(j, j + 7) == "${arch}"@,
    ensures
        exists|k: int|
            0 <= k && k + t.len() <= subst_arch(s, t).len() && #[trigger] subst_arch(
                s,
                t,
            ).subrange(k, k + t.len() as int) == t,
    decreases j,
{
    reveal_strlit("${arch}");
    if s.len() >= 7 && s.subrange(0, 7) == "${arch}"@ {
        let rest = subst_arch(s.subrange(7, s.len() as int), t);
        assert(subst_arch(s, t) == t + rest);
        assert(subst_arch(s, t).subrange(0, t.len() as int) =~= t);
        assert(0 <= 0 && 0 + t.len() <= subst_arch(s, t).len() && subst_arch(s, t).subrange(
            0,
            t.len() as int,
        ) == t);
    } else {
        assert(j != 0);
        let s1 = s.subrange(1, s.len() as int);
        assert(s1.subrange(j - 1, j + 6) =~= s.subrange(j, j + 7));
        lemma_subst_arch_contains(s1, t, j - 1);
        let k1 = choose|k: int|
            0 <= k && k + t.len() <= subst_arch(s1, t).len() && #[trigger] subst_arch(
                s1,
                t,
            ).subrange(k, k + t.len() as int) == t;
        assert(subst_arch(s, t) == seq![s[0]] + subst_arch(s1, t));
        assert(subst_arch(s, t).subrange(k1 + 1, k1 + 1 + t.len() as int) =~= subst_arch(
            s1,
            t,
        ).subrange(k1, k1 + t.len() as int));
        assert(0 <= k1 + 1 && k1 + 1 + t.len() <= subst_arch(s, t).len() && subst_arch(
            s,
            t,
        ).subrange(k1 + 1, k1 + 1 + t.len() as int) == t);
    }
}

/// Native substitution resolves consistently with the target
/// architecture: a key in which the placeholder occurs yields a key
/// containing `64` exactly on `x86_64`, and `32` on anything else.
pub proof fn lemma_arch_substitution_consistent(key: Seq<char>, arch: Seq<char>, j: int)
    requires
        0 <= j,
        j + 7 <= key.len(),
        key.subrange(j, j + 7) == "${arch}"@,
    ensures
        arch == "x86_64"@ ==> exists|k: int|
            0 <= k && k + 2 <= subst_arch(key, arch_token_spec(arch)).len() && #[trigger] subst_arch(
                key,
                arch_token_spec(arch),
            ).subrange(k, k + 2) == "64"@,
        arch != "x86_64"@ ==> exists|k: int|
            0 <= k && k + 2 <= subst_arch(key, arch_token_spec(arch)).len() && #[trigger] subst_arch(
                key,
                arch_token_spec(arch),
            ).subrange(k, k + 2) == "32"@,
{
    let t = arch_token_spec(arch);
    lemma_subst_arch_contains(key, t, j);
    reveal_strlit("64");
    reveal_strlit("32");
    let k0 = choose|k: int|
        0 <= k && k + t.len() <= subst_arch(key, t).len() && #[trigger] subst_arch(
            key,
            t,
        ).subrange(k, k + t.len() as int) == t;
    assert(t.len() == 2);
    assert(subst_arch(key, t).subrange(k0, k0 + 2) == t);
}

} // verus!
