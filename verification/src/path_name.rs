//! Synthesis of anonymous pipe names.
//!
//! An anonymous pipe name is the fixed platform prefix, the decimal digits of
//! the process identifier, an underscore, and a fixed-length random
//! alphanumeric suffix. Distinct (identifier, suffix) pairs always yield
//! distinct names; the suffix is drawn uniformly at random, so collisions
//! between processes or repeated creations are overwhelmingly unlikely.

use vstd::prelude::*;
use rand::RngExt;

verus! {

/// Length of the random alphanumeric suffix of an anonymous pipe name.
pub const SUFFIX_LEN: usize = 15;

/// The fixed prefix of every anonymous pipe name: `\\.\pipe\pipe_`.
pub open spec fn path_prefix() -> Seq<u8> {
    seq![92u8, 92u8, 46u8, 92u8, 112u8, 105u8, 112u8, 101u8, 92u8, 112u8, 105u8, 112u8, 101u8, 95u8]
}

/// The decimal digits of `n`, most significant first, as ASCII bytes.
pub open spec fn dec_digits(n: nat) -> Seq<u8>
    decreases n,
{
    if n < 10 {
        seq![(48 + n) as u8]
    } else {
        dec_digits(n / 10).push((48 + n % 10) as u8)
    }
}

/// `b` is an ASCII digit or letter.
pub open spec fn is_alnum_byte(b: u8) -> bool {
    (48 <= b <= 57) || (65 <= b <= 90) || (97 <= b <= 122)
}

/// Every byte of `s` is an ASCII digit or letter.
pub open spec fn is_alnum_seq(s: Seq<u8>) -> bool {
    forall|i: int| 0 <= i < s.len() ==> is_alnum_byte(#[trigger] s[i])
}

/// The full anonymous pipe name built from a process identifier and a suffix.
pub open spec fn pipe_path_spec(process_id: u64, suffix: Seq<u8>) -> Seq<u8> {
    path_prefix() + dec_digits(process_id as nat) + seq![95u8] + suffix
}

/// Every decimal digit sequence is non-empty and holds ASCII digits only.
pub proof fn lemma_dec_digits_shape(n: nat)
    ensures
        dec_digits(n).len() >= 1,
        forall|i: int| 0 <= i < dec_digits(n).len() ==> 48 <= #[trigger] dec_digits(n)[i] <= 57,
    decreases n,
{
    if n >= 10 {
        lemma_dec_digits_shape(n / 10);
    }
}

/// Two numbers with the same decimal digits are the same number.
pub proof fn lemma_dec_digits_injective(a: nat, b: nat)
    requires
        dec_digits(a) == dec_digits(b),
    ensures
        a == b,
    decreases a,
{
    lemma_dec_digits_shape(a);
    lemma_dec_digits_shape(b);
    if a < 10 && b < 10 {
        assert(dec_digits(a)[0] == dec_digits(b)[0]);
    } else if a < 10 {
        lemma_dec_digits_shape(b / 10);
        assert(dec_digits(b).len() >= 2);
    } else if b < 10 {
        lemma_dec_digits_shape(a / 10);
        assert(dec_digits(a).len() >= 2);
    } else {
        assert(dec_digits(a / 10) =~= dec_digits(a).drop_last());
        assert(dec_digits(b / 10) =~= dec_digits(b).drop_last());
        lemma_dec_digits_injective(a / 10, b / 10);
        assert(dec_digits(a).last() == (48 + a % 10) as u8);
        assert(dec_digits(b).last() == (48 + b % 10) as u8);
        assert(a % 10 < 10 && b % 10 < 10);
        assert((48 + a % 10) as u8 == 48 + a % 10);
        assert((48 + b % 10) as u8 == 48 + b % 10);
        assert(a % 10 == b % 10);
        assert(a == 10 * (a / 10) + a % 10) by (nonlinear_arith);
        assert(b == 10 * (b / 10) + b % 10) by (nonlinear_arith);
    }
}

/// Anonymous pipe names are injective in the (identifier, suffix) pair:
/// equal names can only come from the same process identifier and the same
/// alphanumeric suffix.
pub proof fn lemma_pipe_path_injective(pid1: u64, s1: Seq<u8>, pid2: u64, s2: Seq<u8>)
    requires
        is_alnum_seq(s1),
        is_alnum_seq(s2),
        pipe_path_spec(pid1, s1) == pipe_path_spec(pid2, s2),
    ensures
        pid1 == pid2,
        s1 == s2,
{
    let d1 = dec_digits(pid1 as nat);
    let d2 = dec_digits(pid2 as nat);
    let p1 = pipe_path_spec(pid1, s1);
    let p2 = pipe_path_spec(pid2, s2);
    lemma_dec_digits_shape(pid1 as nat);
    lemma_dec_digits_shape(pid2 as nat);
    assert(p1.len() == 15 + d1.len() + s1.len());
    assert(p2.len() == 15 + d2.len() + s2.len());
    // The underscore that separates digits from suffix sits at index
    // 14 + digit-count; digits and alphanumeric bytes are never underscores,
    // so both names place it at the same index.
    assert(p1[14 + d1.len() as int] == 95);
    assert(p2[14 + d2.len() as int] == 95);
    if d1.len() < d2.len() {
        assert(p2[14 + d1.len() as int] == d2[d1.len() as int]);
        assert(48 <= d2[d1.len() as int] <= 57);
        assert(false);
    }
    if d2.len() < d1.len() {
        assert(p1[14 + d2.len() as int] == d1[d2.len() as int]);
        assert(48 <= d1[d2.len() as int] <= 57);
        assert(false);
    }
    let len: int = d1.len() as int;
    assert(d1 =~= p1.subrange(14, 14 + len));
    assert(d2 =~= p2.subrange(14, 14 + len));
    lemma_dec_digits_injective(pid1 as nat, pid2 as nat);
    assert(s1 =~= p1.subrange(15 + len, p1.len() as int));
    assert(s2 =~= p2.subrange(15 + len, p2.len() as int));
}

/// A fresh suffix gives a fresh name: an anonymous name collides with another
/// pipe name of the same process only if the random suffixes collide.
pub proof fn lemma_fresh_suffix_fresh_path(pid: u64, s1: Seq<u8>, s2: Seq<u8>)
    requires
        is_alnum_seq(s1),
        is_alnum_seq(s2),
        s1 != s2,
    ensures
        pipe_path_spec(pid, s1) != pipe_path_spec(pid, s2),
{
    if pipe_path_spec(pid, s1) == pipe_path_spec(pid, s2) {
        lemma_pipe_path_injective(pid, s1, pid, s2);
    }
}

/// The decimal digits of `n`, as a byte vector.
pub fn u64_to_decimal(n: u64) -> (r: Vec<u8>)
    ensures
        r@ == dec_digits(n as nat),
    decreases n,
{
    if n < 10 {
        let mut r: Vec<u8> = Vec::new();
        r.push(48 + n as u8);
        proof {
            assert(r@ =~= dec_digits(n as nat));
        }
        r
    } else {
        let mut r = u64_to_decimal(n / 10);
        r.push(48 + (n % 10) as u8);
        proof {
            assert(r@ =~= dec_digits(n as nat));
        }
        r
    }
}

/// Appends every byte of `src` to `dst`.
fn push_all(dst: &mut Vec<u8>, src: &Vec<u8>)
    ensures
        final(dst)@ == old(dst)@ + src@,
{
    let mut i: usize = 0;
    while i < src.len()
        invariant
            i <= src.len(),
            dst@ == old(dst)@ + src@.take(i as int),
        decreases src.len() - i,
    {
        dst.push(src[i]);
        i = i + 1;
        proof {
            assert(dst@ =~= old(dst)@ + src@.take(i as int));
        }
    }
    proof {
        assert(dst@ =~= old(dst)@ + src@);
    }
}

/// Builds the full anonymous pipe name for a process identifier and a suffix.
pub fn make_pipe_path(process_id: u64, suffix: &Vec<u8>) -> (r: Vec<u8>)
    ensures
        r@ == pipe_path_spec(process_id, suffix@),
{
    let mut r: Vec<u8> = Vec::new();
    r.push(92);
    r.push(92);
    r.push(46);
    r.push(92);
    r.push(112);
    r.push(105);
    r.push(112);
    r.push(101);
    r.push(92);
    r.push(112);
    r.push(105);
    r.push(112);
    r.push(101);
    r.push(95);
    proof {
        assert(r@ =~= path_prefix());
    }
    let digits = u64_to_decimal(process_id);
    push_all(&mut r, &digits);
    r.push(95);
    let ghost mid = r@;
    proof {
        assert(mid =~= path_prefix() + dec_digits(process_id as nat) + seq![95u8]);
    }
    push_all(&mut r, suffix);
    proof {
        assert(r@ =~= pipe_path_spec(process_id, suffix@));
    }
    r
}

/// Relies on rand's thread-local generator and its `Alphanumeric`
/// distribution: every sampled byte is an ASCII letter or digit.
#[verifier::external_body]
pub fn random_alphanumeric(len: usize) -> (r: Vec<u8>)
    ensures
        r@.len() == len,
        is_alnum_seq(r@),
{
    rand::rng().sample_iter(rand::distr::Alphanumeric).take(len).collect()
}

} // verus!
