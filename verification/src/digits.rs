//! Positional number strings.
//!
//! The wire protocol writes arbitrary-precision integers as decimal ASCII
//! and the delay-function library consumes them as big-endian byte
//! strings.  This module gives both representations one mathematical
//! model — the value of a digit string in a radix — and verified
//! conversions between them.

use vstd::prelude::*;
use vstd::string::StringExecFns;
use vstd::arithmetic::div_mod::{
    lemma_fundamental_div_mod,
    lemma_fundamental_div_mod_converse,
    lemma_div_decreases,
};
use vstd::arithmetic::power::pow;
use vstd::arithmetic::power2::pow2;

verus! {

/// The value of the big-endian digit string `s` in radix `base`; the last
/// digit is the least significant.
pub open spec fn radix_value(s: Seq<u8>, base: nat) -> nat
    decreases s.len(),
{
    if s.len() == 0 {
        0
    } else {
        (radix_value(s.drop_last(), base) * base + s.last()) as nat
    }
}

/// The canonical big-endian digit string of `n` in radix `base`: no
/// leading zero digit, and empty for zero.
pub open spec fn radix_digits_of(n: nat, base: nat) -> Seq<u8>
    recommends
        2 <= base <= 256,
    decreases n via radix_digits_of_decreases
{
    if n == 0 || base < 2 {
        Seq::empty()
    } else {
        radix_digits_of(n / base, base).push(#[verifier::truncate] ((n % base) as u8))
    }
}

#[via_fn]
proof fn radix_digits_of_decreases(n: nat, base: nat) {
    if !(n == 0 || base < 2) {
        lemma_div_decreases(n as int, base as int);
    }
}

/// All digits of `s` lie below `base`.
pub open spec fn digits_below(s: Seq<u8>, base: nat) -> bool {
    forall|i: int| 0 <= i < s.len() ==> (s[i] as nat) < base
}

/// Appending a digit multiplies the value by the radix and adds the digit.
pub proof fn lemma_radix_push(s: Seq<u8>, x: u8, base: nat)
    ensures
        radix_value(s.push(x), base) == radix_value(s, base) * base + x,
{
    assert(s.push(x).drop_last() =~= s);
    assert(s.push(x).last() == x);
}

/// A digit string has value zero exactly when every digit is zero.
pub proof fn lemma_radix_zero(s: Seq<u8>, base: nat)
    requires
        1 <= base,
    ensures
        radix_value(s, base) == 0 <==> (forall|i: int| 0 <= i < s.len() ==> s[i] == 0),
    decreases s.len(),
{
    if s.len() > 0 {
        lemma_radix_zero(s.drop_last(), base);
        assert(forall|i: int| 0 <= i < s.drop_last().len() ==> s.drop_last()[i] == s[i]);
        if radix_value(s, base) == 0 {
            assert(radix_value(s.drop_last(), base) * base == 0) by (nonlinear_arith)
                requires
                    radix_value(s.drop_last(), base) * base + (s.last() as nat) == 0,
            ;
            assert(radix_value(s.drop_last(), base) == 0) by (nonlinear_arith)
                requires
                    radix_value(s.drop_last(), base) * base == 0,
                    base >= 1,
            ;
            assert(forall|i: int| 0 <= i < s.len() ==> s[i] == 0) by {
                assert(forall|i: int| 0 <= i < s.len() - 1 ==> s[i] == 0);
                assert(s[s.len() - 1] == s.last());
            }
        } else {
            if forall|i: int| 0 <= i < s.len() ==> s[i] == 0 {
                assert(radix_value(s.drop_last(), base) == 0);
                assert(s.last() == 0);
            }
        }
    }
}

/// Round trip: the canonical digit string of `n` evaluates back to `n`.
pub proof fn lemma_radix_digits_value(n: nat, base: nat)
    requires
        2 <= base <= 256,
    ensures
        radix_value(radix_digits_of(n, base), base) == n,
    decreases n,
{
    if n != 0 {
        lemma_div_decreases(n as int, base as int);
        lemma_radix_digits_value(n / base, base);
        vstd::arithmetic::div_mod::lemma_mod_pos_bound(n as int, base as int);
        assert(((n % base) as u8) as nat == n % base);
        lemma_radix_push(radix_digits_of(n / base, base), (n % base) as u8, base);
        lemma_fundamental_div_mod(n as int, base as int);
        assert(radix_digits_of(n, base) == radix_digits_of(n / base, base).push(
            (n % base) as u8,
        ));
        assert((n / base) * base == base * (n / base)) by (nonlinear_arith);
        assert(radix_value(radix_digits_of(n, base), base) == (n / base) * base + n % base);
    }
}

/// The value of a digit string with a nonzero leading digit is positive.
pub proof fn lemma_radix_value_positive(s: Seq<u8>, base: nat)
    requires
        1 <= base,
        s.len() > 0,
        s[0] != 0,
    ensures
        radix_value(s, base) > 0,
{
    lemma_radix_zero(s, base);
}

/// Canonicality: a digit string without a leading zero is the canonical
/// digit string of its own value.
pub proof fn lemma_radix_value_digits(s: Seq<u8>, base: nat)
    requires
        2 <= base <= 256,
        s.len() > 0,
        s[0] != 0,
        digits_below(s, base),
    ensures
        radix_digits_of(radix_value(s, base), base) == s,
    decreases s.len(),
{
    let v = radix_value(s, base);
    let pre = s.drop_last();
    let vp = radix_value(pre, base);
    let d = s.last();
    assert(v == vp * base + d);
    assert((d as nat) < base);
    lemma_fundamental_div_mod_converse(v as int, base as int, vp as int, d as int);
    assert(v / base == vp);
    assert(v % base == d);
    lemma_radix_value_positive(s, base);
    assert(v != 0);
    if s.len() == 1 {
        assert(pre.len() == 0);
        assert(vp == 0);
        assert(((v % base) as u8) == d);
        assert(radix_digits_of((v / base) as nat, base) =~= Seq::empty());
        assert(radix_digits_of(v, base) =~= radix_digits_of((v / base) as nat, base).push(d));
        assert(s =~= Seq::empty().push(d));
        assert(radix_digits_of(v, base) =~= s);
    } else {
        assert(pre.len() > 0);
        assert(pre[0] == s[0]);
        assert(digits_below(pre, base)) by {
            assert(forall|i: int| 0 <= i < pre.len() ==> pre[i] == s[i]);
        }
        lemma_radix_value_digits(pre, base);
        assert(radix_digits_of(v, base) =~= radix_digits_of(vp, base).push(d));
        assert(radix_digits_of(v, base) =~= pre.push(d));
        assert(pre.push(d) =~= s);
    }
}

/// The canonical digit string of `n` carries no leading zero.
pub proof fn lemma_radix_digits_canonical(n: nat, base: nat)
    requires
        2 <= base <= 256,
    ensures
        n > 0 ==> radix_digits_of(n, base).len() > 0 && radix_digits_of(n, base)[0] != 0,
        digits_below(radix_digits_of(n, base), base),
    decreases n,
{
    if n > 0 {
        lemma_div_decreases(n as int, base as int);
        lemma_radix_digits_canonical(n / base, base);
        lemma_fundamental_div_mod(n as int, base as int);
        vstd::arithmetic::div_mod::lemma_mod_pos_bound(n as int, base as int);
        let rest = radix_digits_of(n / base, base);
        let d = (n % base) as u8;
        assert((d as nat) == n % base);
        assert(radix_digits_of(n, base) =~= rest.push(d));
        if n / base == 0 {
            assert(rest.len() == 0);
            assert(n < base) by {
                vstd::arithmetic::div_mod::lemma_small_div_converse(n as int, base as int);
            }
            assert(n == (n % base)) by {
                vstd::arithmetic::div_mod::lemma_small_mod(n, base);
            }
            assert(d != 0);
            assert(rest.push(d)[0] == d);
        } else {
            assert(rest.push(d)[0] == rest[0]);
        }
        assert(digits_below(rest.push(d), base)) by {
            assert(forall|i: int| 0 <= i < rest.len() ==> rest.push(d)[i] == rest[i]);
            assert(rest.push(d)[rest.len() as int] == d);
        }
    }
}

/// Divide the big-endian digit string `b` (radix `base`) by the small
/// divisor `div`: the quotient keeps the length of `b`, and the remainder
/// comes back beside it.
fn divmod_digits(b: &Vec<u8>, base: u32, div: u32) -> (qr: (Vec<u8>, u32))
    requires
        2 <= base <= 256,
        2 <= div <= 256,
        digits_below(b@, base as nat),
    ensures
        qr.0@.len() == b@.len(),
        digits_below(qr.0@, base as nat),
        radix_value(qr.0@, base as nat) == radix_value(b@, base as nat) / (div as nat),
        (qr.1 as nat) == radix_value(b@, base as nat) % (div as nat),
{
    let ghost bs = base as nat;
    let ghost ds = div as nat;
    let mut q: Vec<u8> = Vec::new();
    let mut rem: u32 = 0;
    let n = b.len();
    assert(radix_value(b@.take(0), bs) == 0) by {
        assert(b@.take(0) =~= Seq::<u8>::empty());
    }
    assert(radix_value(q@, bs) == 0);
    for i in 0..n
        invariant
            n == b@.len(),
            2 <= base <= 256,
            2 <= div <= 256,
            digits_below(b@, bs),
            bs == base as nat,
            ds == div as nat,
            rem < div,
            q@.len() == i,
            digits_below(q@, bs),
            radix_value(q@, bs) * ds + rem == radix_value(b@.take(i as int), bs),
    {
        let ghost q_old = q@;
        let ghost rem_old = rem as nat;
        assert((rem as nat) * (base as nat) + 256 <= 0x1_0000) by (nonlinear_arith)
            requires
                rem < div,
                div <= 256,
                base <= 256,
        ;
        let cur: u32 = rem * base + (b[i] as u32);
        let qd: u32 = cur / div;
        rem = cur % div;
        assert(qd < base && rem < div) by (nonlinear_arith)
            requires
                cur == rem_old * base + (b@[i as int] as nat),
                rem_old < div,
                (b@[i as int] as nat) < base,
                2 <= base,
                2 <= div,
                qd == cur / div,
                rem == cur % div,
        ;
        q.push(qd as u8);
        proof {
            let vq = radix_value(q_old, bs);
            let vi = radix_value(b@.take(i as int), bs);
            lemma_radix_push(q_old, qd as u8, bs);
            assert(b@.take(i + 1) =~= b@.take(i as int).push(b@[i as int]));
            lemma_radix_push(b@.take(i as int), b@[i as int], bs);
            lemma_fundamental_div_mod(cur as int, div as int);
            assert((vq * bs + qd) * ds + rem == vi * bs + b@[i as int]) by (nonlinear_arith)
                requires
                    vq * ds + rem_old == vi,
                    cur == rem_old * bs + (b@[i as int] as nat),
                    cur == ds * (qd as nat) + (rem as nat),
            ;
            assert(radix_value(q@, bs) * ds + rem == radix_value(b@.take(i + 1), bs));
        }
    }
    proof {
        assert(b@.take(n as int) =~= b@);
        lemma_fundamental_div_mod_converse(
            radix_value(b@, bs) as int,
            div as int,
            radix_value(q@, bs) as int,
            rem as int,
        );
    }
    (q, rem)
}

/// Whether every digit of `b` is zero, i.e. whether `b` has value zero.
fn digits_are_zero(b: &Vec<u8>) -> (r: bool)
    ensures
        r == (forall|i: int| 0 <= i < b@.len() ==> b@[i] == 0),
{
    let n = b.len();
    for i in 0..n
        invariant
            n == b@.len(),
            forall|j: int| 0 <= j < i ==> b@[j] == 0,
    {
        if b[i] != 0 {
            return false;
        }
    }
    true
}

/// Rewrite the big-endian digit string `b` from radix `from` into the
/// canonical digit string of the same value in radix `to`.
pub fn to_radix(b: &Vec<u8>, from: u32, to: u32) -> (r: Vec<u8>)
    requires
        2 <= from <= 256,
        2 <= to <= 256,
        digits_below(b@, from as nat),
    ensures
        r@ == radix_digits_of(radix_value(b@, from as nat), to as nat),
        digits_below(r@, to as nat),
{
    let ghost fs = from as nat;
    let ghost ts = to as nat;
    let ghost v0 = radix_value(b@, fs);
    let mut cur: Vec<u8> = b.clone();
    let mut out_rev: Vec<u8> = Vec::new();
    assert(cur@ =~= b@);
    loop
        invariant
            2 <= from <= 256,
            2 <= to <= 256,
            fs == from as nat,
            ts == to as nat,
            digits_below(cur@, fs),
            digits_below(out_rev@, ts),
            radix_digits_of(v0, ts) == radix_digits_of(radix_value(cur@, fs), ts)
                + out_rev@.reverse(),
        ensures
            radix_value(cur@, fs) == 0,
            radix_digits_of(v0, ts) == out_rev@.reverse(),
        decreases radix_value(cur@, fs),
    {
        let z = digits_are_zero(&cur);
        proof {
            lemma_radix_zero(cur@, fs);
        }
        if z {
            assert(radix_digits_of(radix_value(cur@, fs), ts) =~= Seq::<u8>::empty());
            assert(radix_digits_of(v0, ts) =~= out_rev@.reverse());
            break;
        }
        let ghost vc = radix_value(cur@, fs);
        let ghost rev_old = out_rev@;
        let (q, rem) = divmod_digits(&cur, from, to);
        proof {
            lemma_div_decreases(vc as int, ts as int);
        }
        cur = q;
        out_rev.push(rem as u8);
        proof {
            let vq = radix_value(cur@, fs);
            assert(vq == vc / ts);
            assert((rem as nat) == vc % ts);
            assert(radix_digits_of(vc, ts) == radix_digits_of(vq, ts).push(rem as u8));
            assert(out_rev@.reverse() =~= seq![rem as u8] + rev_old.reverse()) by {
                assert(out_rev@ =~= rev_old.push(rem as u8));
            }
            assert(radix_digits_of(vq, ts).push(rem as u8) + rev_old.reverse()
                =~= radix_digits_of(vq, ts) + (seq![rem as u8] + rev_old.reverse()));
            assert(radix_digits_of(v0, ts) == radix_digits_of(vq, ts) + out_rev@.reverse());
        }
    }
    let ghost target = radix_digits_of(v0, ts);
    let mut out: Vec<u8> = Vec::new();
    assert(out@ + out_rev@.reverse() =~= target);
    while out_rev.len() > 0
        invariant
            digits_below(out_rev@, ts),
            digits_below(out@, ts),
            out@ + out_rev@.reverse() == target,
        decreases out_rev@.len(),
    {
        let ghost rev_old = out_rev@;
        let x = out_rev.pop().unwrap();
        out.push(x);
        proof {
            assert(rev_old =~= out_rev@.push(x));
            assert(rev_old.reverse() =~= seq![x] + out_rev@.reverse());
            assert(out@ + out_rev@.reverse() =~= target);
        }
    }
    assert(out_rev@.reverse() =~= Seq::<u8>::empty());
    assert(out@ =~= target);
    out
}

/// A byte string's value stays below two to the eight times its length.
pub proof fn lemma_radix_value_bound256(s: Seq<u8>)
    ensures
        radix_value(s, 256) < pow2(8 * s.len()),
    decreases s.len(),
{
    vstd::arithmetic::power2::lemma_pow2_pos(8 * s.len());
    if s.len() > 0 {
        lemma_radix_value_bound256(s.drop_last());
        let l = s.len();
        let vp = radix_value(s.drop_last(), 256);
        vstd::arithmetic::power2::lemma_pow2_adds((8 * (l - 1)) as nat, 8);
        vstd::arithmetic::power2::lemma2_to64();
        assert(pow2(8) == 256);
        assert(vp * 256 + (s.last() as nat) < pow2((8 * (l - 1)) as nat) * 256) by (nonlinear_arith)
            requires
                vp < pow2((8 * (l - 1)) as nat),
                (s.last() as nat) < 256,
        ;
        assert(pow2((8 * (l - 1)) as nat) * 256 == pow2(8 * l));
    }
}

/// Read eight big-endian bytes as a 64-bit number.
pub fn be8_to_u64(b: &[u8]) -> (r: u64)
    requires
        b@.len() == 8,
    ensures
        r as nat == radix_value(b@, 256),
{
    let mut v: u64 = 0;
    assert(b@.take(0) =~= Seq::<u8>::empty());
    for i in 0..8usize
        invariant
            b@.len() == 8,
            v as nat == radix_value(b@.take(i as int), 256),
    {
        proof {
            lemma_radix_value_bound256(b@.take(i as int));
            vstd::arithmetic::power2::lemma2_to64();
            vstd::arithmetic::power2::lemma2_to64_rest();
            if 8 * i < 56 {
                vstd::arithmetic::power2::lemma_pow2_strictly_increases(8 * i as nat, 56);
            }
            assert((v as nat) < pow2(56));
            assert(pow2(56) == 0x100000000000000);
        }
        v = v * 256 + (b[i] as u64);
        proof {
            lemma_radix_push(b@.take(i as int), b@[i as int], 256);
            assert(b@.take(i + 1) =~= b@.take(i as int).push(b@[i as int]));
        }
    }
    assert(b@.take(8) =~= b@);
    v
}

/// Raising a larger base to the same positive power gives a larger value.
pub proof fn lemma_pow_base_strict(a: nat, b: nat, e: nat)
    requires
        0 < a < b,
        1 <= e,
    ensures
        pow(a as int, e) < pow(b as int, e),
    decreases e,
{
    reveal(pow);
    if e == 1 {
        vstd::arithmetic::power::lemma_pow1(a as int);
        vstd::arithmetic::power::lemma_pow1(b as int);
    } else {
        lemma_pow_base_strict(a, b, (e - 1) as nat);
        vstd::arithmetic::power::lemma_pow_positive(a as int, (e - 1) as nat);
        vstd::arithmetic::power::lemma_pow_positive(b as int, (e - 1) as nat);
        let pa = pow(a as int, (e - 1) as nat);
        let pb = pow(b as int, (e - 1) as nat);
        assert(pow(a as int, e) == a * pa);
        assert(pow(b as int, e) == b * pb);
        assert(a * pa < b * pb) by (nonlinear_arith)
            requires
                0 < a < b,
                0 < pa < pb,
        ;
    }
}

/// A number below the radix raised to `k` spells at most `k` canonical
/// digits.
pub proof fn lemma_radix_digits_len(n: nat, base: nat, k: nat)
    requires
        2 <= base,
        n < pow(base as int, k),
    ensures
        radix_digits_of(n, base).len() <= k,
    decreases k,
{
    reveal(pow);
    if n != 0 {
        if k == 0 {
            assert(pow(base as int, 0) == 1);
            assert(false);
        }
        lemma_div_decreases(n as int, base as int);
        assert(pow(base as int, k) == base * pow(base as int, (k - 1) as nat));
        vstd::arithmetic::div_mod::lemma_multiply_divide_lt(
            n as int,
            base as int,
            pow(base as int, (k - 1) as nat),
        );
        lemma_radix_digits_len(n / base, base, (k - 1) as nat);
    }
}

/// The value of ten to the tenth, unfolded.
proof fn lemma_pow10_10()
    ensures
        pow(10, 10) == 10_000_000_000,
{
    reveal_with_fuel(pow, 11);
}

/// A number of at most 264 bits spells at most 80 decimal ASCII digits:
/// `2^264 = (2^33)^8 < (10^10)^8 = 10^80`.
pub proof fn lemma_dec_ascii_len_264(n: nat)
    requires
        n < pow2(264),
    ensures
        dec_ascii_of(n).len() <= 80,
{
    reveal(pow);
    if n != 0 {
        vstd::arithmetic::power::lemma_pow_multiplies(2, 33, 8);
        vstd::arithmetic::power::lemma_pow_multiplies(10, 10, 8);
        vstd::arithmetic::power2::lemma2_to64_rest();
        vstd::arithmetic::power::lemma_pow_positive(2, 33);
        vstd::arithmetic::power::lemma_pow_positive(2, 264);
        assert(pow(2, 33) == 0x200000000) by {
            assert(pow2(33) == 0x200000000);
        }
        lemma_pow10_10();
        lemma_pow_base_strict(0x200000000, 10_000_000_000, 8);
        assert(pow(pow(2, 33), 8) == pow(0x200000000, 8));
        assert(pow(pow(10, 10), 8) == pow(10_000_000_000, 8));
        assert(33 * 8 == 264nat);
        assert(10 * 8 == 80nat);
        assert(pow(2, 264) < pow(10, 80));
        assert(n < pow(10, 80)) by {
            assert(n < pow2(264));
            assert(pow2(264) == pow(2, 264) as nat);
        }
        lemma_radix_digits_len(n, 10, 80);
        assert(dec_ascii_of(n).len() == radix_digits_of(n, 10).len());
    }
}

/// Whether `b` is the ASCII code of a decimal digit.
pub open spec fn is_digit_byte(b: u8) -> bool {
    48 <= b <= 57
}

/// A nonempty string of ASCII decimal digits.
pub open spec fn digit_bytes_ok(s: Seq<u8>) -> bool {
    s.len() > 0 && forall|i: int| 0 <= i < s.len() ==> is_digit_byte(#[trigger] s[i])
}

/// The digit values of an ASCII decimal string.
pub open spec fn digit_values(s: Seq<u8>) -> Seq<u8> {
    Seq::new(s.len(), |i: int| (s[i] - 48) as u8)
}

/// The ASCII codes of a digit-value string.
pub open spec fn ascii_digits(v: Seq<u8>) -> Seq<u8> {
    Seq::new(v.len(), |i: int| (v[i] + 48) as u8)
}

/// The number an ASCII decimal string denotes.
pub open spec fn dec_value_of_ascii(s: Seq<u8>) -> nat {
    radix_value(digit_values(s), 10)
}

/// The canonical ASCII decimal spelling of `n`; zero is spelled `"0"`.
pub open spec fn dec_ascii_of(n: nat) -> Seq<u8> {
    if n == 0 {
        seq![48u8]
    } else {
        ascii_digits(radix_digits_of(n, 10))
    }
}

/// A canonical ASCII decimal spelling is made of digits.
pub proof fn lemma_dec_ascii_ok(n: nat)
    ensures
        digit_bytes_ok(dec_ascii_of(n)),
        dec_value_of_ascii(dec_ascii_of(n)) == n,
{
    lemma_radix_digits_canonical(n, 10);
    lemma_radix_digits_value(n, 10);
    if n == 0 {
        assert(digit_values(dec_ascii_of(0)) =~= seq![0u8]);
        assert(radix_value(seq![0u8], 10) == radix_value(Seq::<u8>::empty(), 10) * 10 + 0) by {
            lemma_radix_push(Seq::<u8>::empty(), 0u8, 10);
            assert(Seq::<u8>::empty().push(0u8) =~= seq![0u8]);
        }
    } else {
        let d = radix_digits_of(n, 10);
        assert(digit_values(ascii_digits(d)) =~= d);
    }
}

/// Whether the filled buffer holds at least one byte and only ASCII
/// decimal digits.
pub fn check_digit_bytes(s: &[u8]) -> (r: bool)
    ensures
        r == digit_bytes_ok(s@),
{
    let n = s.len();
    if n == 0 {
        return false;
    }
    for i in 0..n
        invariant
            n == s@.len(),
            n > 0,
            forall|j: int| 0 <= j < i ==> is_digit_byte(#[trigger] s@[j]),
    {
        if s[i] < 48 || s[i] > 57 {
            return false;
        }
    }
    true
}

/// The minimal big-endian byte string of the number that the ASCII
/// decimal string `s` denotes.
pub fn dec_ascii_to_be_bytes(s: &[u8]) -> (r: Vec<u8>)
    requires
        digit_bytes_ok(s@),
    ensures
        r@ == radix_digits_of(dec_value_of_ascii(s@), 256),
{
    let n = s.len();
    let mut vals: Vec<u8> = Vec::new();
    for i in 0..n
        invariant
            n == s@.len(),
            digit_bytes_ok(s@),
            vals@.len() == i,
            forall|j: int| 0 <= j < i ==> vals@[j] == s@[j] - 48,
    {
        vals.push(s[i] - 48);
    }
    assert(vals@ =~= digit_values(s@));
    assert(digits_below(vals@, 10));
    to_radix(&vals, 10, 256)
}

/// The canonical ASCII decimal spelling of the number that the
/// big-endian byte string `b` denotes.
pub fn be_bytes_to_dec_ascii(b: &Vec<u8>) -> (r: Vec<u8>)
    ensures
        r@ == dec_ascii_of(radix_value(b@, 256)),
        digit_bytes_ok(r@),
{
    proof {
        lemma_dec_ascii_ok(radix_value(b@, 256));
    }
    assert(digits_below(b@, 256));
    let d = to_radix(b, 256, 10);
    if d.len() == 0 {
        proof {
            lemma_radix_zero(b@, 256);
            lemma_radix_digits_canonical(radix_value(b@, 256), 10);
            if radix_value(b@, 256) != 0 {
                assert(radix_digits_of(radix_value(b@, 256), 10).len() > 0);
            }
        }
        let mut r: Vec<u8> = Vec::new();
        r.push(48);
        assert(r@ =~= seq![48u8]);
        return r;
    }
    let n = d.len();
    let mut r: Vec<u8> = Vec::new();
    for i in 0..n
        invariant
            n == d@.len(),
            digits_below(d@, 10),
            r@.len() == i,
            forall|j: int| 0 <= j < i ==> r@[j] == d@[j] + 48,
    {
        r.push(d[i] + 48);
    }
    proof {
        assert(r@ =~= ascii_digits(d@));
        if radix_value(b@, 256) == 0 {
            assert(radix_digits_of(0, 256) =~= Seq::<u8>::empty());
            assert(d@.len() == 0);
        }
    }
    r
}

/// The canonical base-10 digit values of a 64-bit number.
fn u64_dec_digits(n: u64) -> (r: Vec<u8>)
    ensures
        r@ == radix_digits_of(n as nat, 10),
    decreases n,
{
    if n == 0 {
        Vec::new()
    } else {
        let mut v = u64_dec_digits(n / 10);
        v.push((n % 10) as u8);
        v
    }
}

/// The canonical ASCII decimal spelling of a 64-bit number.
pub fn u64_to_dec_ascii(n: u64) -> (r: Vec<u8>)
    ensures
        r@ == dec_ascii_of(n as nat),
        digit_bytes_ok(r@),
{
    proof {
        lemma_dec_ascii_ok(n as nat);
        lemma_radix_digits_canonical(n as nat, 10);
    }
    let d = u64_dec_digits(n);
    if d.len() == 0 {
        let mut r: Vec<u8> = Vec::new();
        r.push(48);
        assert(r@ =~= seq![48u8]);
        assert(radix_digits_of(n as nat, 10).len() == 0);
        assert(n == 0) by {
            lemma_radix_digits_value(n as nat, 10);
        }
        return r;
    }
    assert(n as nat != 0) by {
        assert(radix_digits_of(0, 10) =~= Seq::<u8>::empty());
    }
    let m = d.len();
    let mut r: Vec<u8> = Vec::new();
    for i in 0..m
        invariant
            m == d@.len(),
            digits_below(d@, 10),
            r@.len() == i,
            forall|j: int| 0 <= j < i ==> r@[j] == d@[j] + 48,
    {
        r.push(d[i] + 48);
    }
    assert(r@ =~= ascii_digits(d@));
    r
}

/// The character sequence that an ASCII byte string spells.
pub open spec fn ascii_chars(b: Seq<u8>) -> Seq<char> {
    Seq::new(b.len(), |i: int| b[i] as char)
}

/// The byte string of an ASCII character sequence.
pub open spec fn chars_ascii(s: Seq<char>) -> Seq<u8> {
    Seq::new(s.len(), |i: int| s[i] as u8)
}

/// A nonempty string of decimal digit characters.
pub open spec fn digit_chars_ok(s: Seq<char>) -> bool {
    s.len() > 0 && forall|i: int| 0 <= i < s.len() ==> 48 <= (#[trigger] s[i]) as int <= 57
}

/// Digit bytes spell digit characters and convert back byte for byte.
pub proof fn lemma_digit_bytes_chars(b: Seq<u8>)
    requires
        digit_bytes_ok(b),
    ensures
        digit_chars_ok(ascii_chars(b)),
        chars_ascii(ascii_chars(b)) == b,
{
    assert(chars_ascii(ascii_chars(b)) =~= b);
}

/// Spell a string of ASCII decimal digit bytes as a `String`.
pub fn digit_bytes_to_string(b: &[u8]) -> (s: String)
    requires
        digit_bytes_ok(b@),
    ensures
        s@ == ascii_chars(b@),
        digit_chars_ok(s@),
{
    proof {
        lemma_digit_bytes_chars(b@);
        reveal_strlit("0");
        reveal_strlit("1");
        reveal_strlit("2");
        reveal_strlit("3");
        reveal_strlit("4");
        reveal_strlit("5");
        reveal_strlit("6");
        reveal_strlit("7");
        reveal_strlit("8");
        reveal_strlit("9");
    }
    let n = b.len();
    let mut s = String::new();
    for i in 0..n
        invariant
            n == b@.len(),
            digit_bytes_ok(b@),
            s@ == ascii_chars(b@).take(i as int),
    {
        let ghost s_old = s@;
        let c = b[i];
        if c == 48 {
            s.append("0");
        } else if c == 49 {
            s.append("1");
        } else if c == 50 {
            s.append("2");
        } else if c == 51 {
            s.append("3");
        } else if c == 52 {
            s.append("4");
        } else if c == 53 {
            s.append("5");
        } else if c == 54 {
            s.append("6");
        } else if c == 55 {
            s.append("7");
        } else if c == 56 {
            s.append("8");
        } else {
            s.append("9");
        }
        proof {
            reveal_strlit("0");
            reveal_strlit("1");
            reveal_strlit("2");
            reveal_strlit("3");
            reveal_strlit("4");
            reveal_strlit("5");
            reveal_strlit("6");
            reveal_strlit("7");
            reveal_strlit("8");
            reveal_strlit("9");
            assert(s@ =~= s_old.push(b@[i as int] as char));
            assert(s@ =~= ascii_chars(b@).take(i + 1));
        }
    }
    assert(ascii_chars(b@).take(n as int) =~= ascii_chars(b@));
    s
}

} // verus!
