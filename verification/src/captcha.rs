//! The delay-puzzle captcha.
//!
//! A puzzle is a decimal seed and a step count.  The server draws a fresh
//! seed per connection, the client evaluates the delay function over the
//! seed — wall-clock work linear in the step count — and the server
//! verifies the witness at a small fraction of that cost.  The witness
//! travels as the decimal ASCII spelling of an arbitrary-precision
//! integer; the puzzle travels as a length-prefixed binary frame.
//!
//! The delay function itself is the Wesolowski construction of the `vdf`
//! crate, reached through two trusted wrappers; everything around the two
//! calls — the wire codec, the witness encoding, the acceptance rules —
//! is verified.

use vstd::prelude::*;
use vstd::bytes::{
    u64_from_le_bytes,
    u64_to_le_bytes,
    spec_u64_from_le_bytes,
    spec_u64_to_le_bytes,
    lemma_auto_spec_u64_to_from_le_bytes,
};
use vstd::slice::{slice_subrange, slice_to_vec};
use vstd::string::{StrSliceExecFns, StringSliceAdditionalSpecFns};
use vstd::utf8::{encode_utf8, is_ascii_chars, is_ascii_chars_encode_utf8};
use vdf::{VDF, VDFParams, WesolowskiVDFParams};

use crate::digits::{
    ascii_chars,
    be8_to_u64,
    chars_ascii,
    check_digit_bytes,
    dec_ascii_of,
    dec_ascii_to_be_bytes,
    dec_value_of_ascii,
    digit_bytes_ok,
    digit_bytes_to_string,
    be_bytes_to_dec_ascii,
    lemma_dec_ascii_len_264,
    lemma_dec_ascii_ok,
    lemma_radix_digits_value,
    lemma_radix_value_bound256,
    lemma_digit_bytes_chars,
    lemma_radix_value_digits,
    radix_digits_of,
    radix_value,
    u64_to_dec_ascii,
};
use crate::rand_util::rand_int;

verus! {

/// The step count baked into the server's build: the client must spend
/// wall-clock time linear in it.
pub const DEFAULT_STEPS: u64 = 1024 * 1024;

/// The discriminant width handed to the delay-function library.  Its
/// size bounds the solution at 32 bytes — two group elements of two
/// eight-byte halves each — so the element halves fit machine words and
/// the decimal witness, at most 80 digits, fits the 128-byte wire
/// buffer.
pub const VDF_INT_SIZE_BITS: u16 = 112;

/// What the delay function answers for a challenge at a difficulty.
/// `vdf::VDF::solve` documents its result as a function of these two
/// arguments alone.
pub uninterp spec fn vdf_solution(challenge: Seq<u8>, difficulty: u64) -> Seq<u8>;

/// Whether the delay-function library accepts `solution` for the
/// challenge at the difficulty.  `vdf::VDF::verify` documents its verdict
/// as a function of these three arguments alone.
pub uninterp spec fn vdf_accepts(challenge: Seq<u8>, difficulty: u64, solution: Seq<u8>) -> bool;

/// The magnitude of the negative discriminant that the delay-function
/// library derives — deterministically, by hashing — from a challenge at
/// the width this crate uses.
pub uninterp spec fn disc_abs_of(challenge: Seq<u8>) -> u128;

/// Relies on `vdf::create_discriminant`: a deterministic function of the
/// challenge bytes and the width, derived through SHA-256; its result is
/// the negation of a prime of the named width, here 112 bits plus a
/// bounded adjustment, so its magnitude stays below `2^113`.
#[verifier::external_body]
fn discriminant_abs(challenge: &[u8]) -> (r: u128)
    ensures
        r == disc_abs_of(challenge@),
        r < 0x2_0000_0000_0000_0000_0000_0000_0000,
{
    let d: classgroup::gmp::mpz::Mpz = vdf::create_discriminant(challenge, VDF_INT_SIZE_BITS);
    u128::from_str_radix(&d.abs().to_str_radix(16), 16).unwrap()
}

/// One serialized group element half of a solution: eight big-endian
/// two's-complement bytes of `a`, then eight of `b`.  The half is valid
/// for the discriminant magnitude `dabs` when `a` is positive and `4a`
/// divides `b² + dabs` — exactly the invariant the class-group library
/// checks of every element it computes with.
pub open spec fn half_screen(dabs: u128, half: Seq<u8>) -> bool {
    let a_raw = radix_value(half.subrange(0, 8), 256);
    let b_raw = radix_value(half.subrange(8, 16), 256);
    let b_mag: nat = if b_raw >= 0x8000_0000_0000_0000 {
        (0x1_0000_0000_0000_0000 - b_raw) as nat
    } else {
        b_raw
    };
    &&& 0 < a_raw < 0x8000_0000_0000_0000
    &&& ((b_mag * b_mag + dabs) as int % (4 * a_raw as int)) == 0
}

/// Whether 32 solution bytes parse as two group elements that are valid
/// for the challenge's discriminant.  Only such solutions are handed to
/// the delay-function library's verification.
pub open spec fn solution_screen(challenge: Seq<u8>, solution: Seq<u8>) -> bool {
    &&& solution.len() == 32
    &&& half_screen(disc_abs_of(challenge), solution.subrange(0, 16))
    &&& half_screen(disc_abs_of(challenge), solution.subrange(16, 32))
}

/// Decide `half_screen` for one element half.
fn screen_half(dabs: u128, half: &[u8]) -> (r: bool)
    requires
        half@.len() == 16,
        dabs < 0x4000_0000_0000_0000_0000_0000_0000_0000,
    ensures
        r == half_screen(dabs, half@),
{
    let a_raw = be8_to_u64(slice_subrange(half, 0, 8));
    let b_raw = be8_to_u64(slice_subrange(half, 8, 16));
    if a_raw == 0 || a_raw >= 0x8000_0000_0000_0000 {
        return false;
    }
    let b_mag: u64 = if b_raw >= 0x8000_0000_0000_0000 {
        (0x1_0000_0000_0000_0000u128 - (b_raw as u128)) as u64
    } else {
        b_raw
    };
    assert(b_mag <= 0x8000_0000_0000_0000);
    assert((b_mag as u128) * (b_mag as u128) <= 0x4000_0000_0000_0000_0000_0000_0000_0000u128)
        by (nonlinear_arith)
        requires
            b_mag <= 0x8000_0000_0000_0000u64,
    ;
    let sq: u128 = (b_mag as u128) * (b_mag as u128);
    let m: u128 = 4u128 * (a_raw as u128);
    (sq + dabs) % m == 0
}

/// Decide `solution_screen` for a claimed solution.
fn screen_solution(challenge: &[u8], solution: &[u8]) -> (r: bool)
    ensures
        r == solution_screen(challenge@, solution@),
{
    if solution.len() != 32 {
        return false;
    }
    let dabs = discriminant_abs(challenge);
    let h1 = slice_subrange(solution, 0, 16);
    let h2 = slice_subrange(solution, 16, 32);
    let ok1 = screen_half(dabs, h1);
    let ok2 = screen_half(dabs, h2);
    ok1 && ok2
}

/// Relies on `vdf::VDF::solve` of `vdf::WesolowskiVDF`: deterministic in
/// challenge and difficulty, total for difficulties below `usize::MAX`,
/// its solution exactly `4 * ((bits + 16) >> 4)` bytes — 32 at this
/// crate's width — holding two reduced class-group forms of the
/// challenge's discriminant, which therefore pass the validity screen;
/// and, the crate's stated purpose, accepted by `vdf::VDF::verify` on
/// the same challenge and difficulty.  The final clause is the trait's
/// soundness requirement, which spec treats as an axiom of the
/// primitive: for a valid difficulty there is exactly one solution that
/// `verify` accepts, and `solve` returns it.
#[verifier::external_body]
fn vdf_solve(challenge: &[u8], difficulty: u64) -> (r: Vec<u8>)
    requires
        0 < difficulty <= 0xffff_ffff,
    ensures
        r@ == vdf_solution(challenge@, difficulty),
        r@.len() == 32,
        solution_screen(challenge@, r@),
        vdf_accepts(challenge@, difficulty, r@),
        forall|other: Seq<u8>| #[trigger]
            vdf_accepts(challenge@, difficulty, other) ==> other == r@,
{
    let solver = WesolowskiVDFParams(VDF_INT_SIZE_BITS).new();
    solver.solve(challenge, difficulty).unwrap()
}

/// Relies on `vdf::VDF::verify` of `vdf::WesolowskiVDF`: deterministic
/// in its three arguments.  It is called only on solutions that passed
/// the validity screen: its deserialization divides by `4a` and asserts
/// the discriminant invariant, so only screened solutions keep it free
/// of panics.  The final clause is the trait's soundness requirement,
/// which spec treats as an axiom of the primitive: at most one alleged
/// solution per challenge and difficulty is accepted.
#[verifier::external_body]
fn vdf_check(challenge: &[u8], difficulty: u64, solution: &[u8]) -> (r: bool)
    requires
        solution_screen(challenge@, solution@),
    ensures
        r == vdf_accepts(challenge@, difficulty, solution@),
        r ==> forall|other: Seq<u8>| #[trigger]
            vdf_accepts(challenge@, difficulty, other) ==> other == solution@,
{
    let checker = WesolowskiVDFParams(VDF_INT_SIZE_BITS).new();
    checker.verify(challenge, difficulty, solution).is_ok()
}

/// Why a captcha operation failed.
#[derive(Clone, Copy, Debug, PartialEq, Eq, Structural)]
pub enum CaptchaError {
    /// The puzzle frame is truncated or its length prefix overruns it.
    BadFrame,
    /// The seed is not a nonempty string of decimal digits.
    BadSeed,
    /// The step count is zero, or too large to evaluate.
    BadSteps,
    /// The witness is not a nonempty string of decimal digits.
    BadWitness,
    /// The witness spells no solution that the delay function accepts.
    Rejected,
}

/// A delay puzzle: a decimal seed and a step count.
#[derive(Debug)]
pub struct VDFCaptcha {
    /// The decimal ASCII spelling of a non-negative integer.
    pub rand_seed: String,
    /// How many sequential steps the evaluation must take; positive.
    pub steps: u64,
}

/// The wire frame of a puzzle: the seed's byte count as a little-endian
/// u64, the seed bytes, then the step count as a little-endian u64.
pub open spec fn puzzle_frame(seed: Seq<u8>, steps: u64) -> Seq<u8> {
    spec_u64_to_le_bytes(seed.len() as u64) + seed + spec_u64_to_le_bytes(steps)
}

/// The seed byte count a frame announces.
pub open spec fn frame_seed_len(data: Seq<u8>) -> int {
    spec_u64_from_le_bytes(data.subrange(0, 8)) as int
}

/// Whether `data` begins with a well-formed puzzle frame: long enough
/// for its length prefix, a seed of decimal digits, positive steps.
pub open spec fn frame_ok(data: Seq<u8>) -> bool {
    &&& data.len() >= 16
    &&& frame_seed_len(data) + 16 <= data.len()
    &&& digit_bytes_ok(data.subrange(8, 8 + frame_seed_len(data)))
    &&& spec_u64_from_le_bytes(data.subrange(8 + frame_seed_len(data), 16 + frame_seed_len(data)))
        > 0
}

/// The seed bytes of a well-formed frame.
pub open spec fn frame_seed(data: Seq<u8>) -> Seq<u8> {
    data.subrange(8, 8 + frame_seed_len(data))
}

/// The step count of a well-formed frame.
pub open spec fn frame_steps(data: Seq<u8>) -> u64 {
    spec_u64_from_le_bytes(data.subrange(8 + frame_seed_len(data), 16 + frame_seed_len(data)))
}

impl VDFCaptcha {
    /// The seed as the bytes that travel on the wire.
    pub open spec fn seed_bytes(self) -> Seq<u8> {
        encode_utf8(self.rand_seed@)
    }

    /// A well-formed puzzle: decimal seed, positive steps.
    pub open spec fn wf(self) -> bool {
        digit_bytes_ok(self.seed_bytes()) && 0 < self.steps
    }

    /// The solution bytes prefixed with a sentinel byte, so that no
    /// leading zero byte of the solution is lost in the integer witness.
    pub open spec fn solution_with_sentinel(self) -> Seq<u8> {
        seq![1u8] + vdf_solution(self.seed_bytes(), self.steps)
    }

    /// The witness an honest evaluation of this puzzle sends: the decimal
    /// ASCII spelling of the sentinel-prefixed solution read as a
    /// big-endian integer.
    pub open spec fn expected_witness(self) -> Seq<u8> {
        dec_ascii_of(radix_value(self.solution_with_sentinel(), 256))
    }

    /// Whether the decimal ASCII witness `w` proves this puzzle: its
    /// integer value spells a sentinel-prefixed byte string whose tail
    /// is a valid solution that the delay function accepts.
    pub open spec fn witness_accepted(self, w: Seq<u8>) -> bool {
        &&& digit_bytes_ok(w)
        &&& {
            let dec = radix_digits_of(dec_value_of_ascii(w), 256);
            &&& dec.len() == 33
            &&& dec[0] == 1
            &&& solution_screen(self.seed_bytes(), dec.skip(1))
            &&& vdf_accepts(self.seed_bytes(), self.steps, dec.skip(1))
        }
    }

    /// A fresh puzzle over a uniformly drawn 64-bit seed.
    pub fn with_random_seed(steps: u64) -> (c: VDFCaptcha)
        ensures
            c.steps == steps,
            digit_bytes_ok(c.seed_bytes()),
            exists|v: u64| c.seed_bytes() == dec_ascii_of(v as nat),
    {
        let v = rand_int();
        let a = u64_to_dec_ascii(v);
        let s = digit_bytes_to_string(a.as_slice());
        proof {
            lemma_digit_ascii_encode(a@);
        }
        let c = VDFCaptcha { rand_seed: s, steps };
        proof {
            assert(c.seed_bytes() == dec_ascii_of(v as nat));
        }
        c
    }

    /// The seed, validated: a copy comes back only when it is a nonempty
    /// string of decimal digits.
    pub fn rand_seed(&self) -> (r: Result<String, CaptchaError>)
        ensures
            r is Ok <==> digit_bytes_ok(self.seed_bytes()),
            r matches Ok(s) ==> s@ == self.rand_seed@,
            r matches Err(e) ==> e == CaptchaError::BadSeed,
    {
        let sb = self.rand_seed.as_str().as_bytes();
        if check_digit_bytes(sb) {
            Ok(self.rand_seed.clone())
        } else {
            Err(CaptchaError::BadSeed)
        }
    }

    /// The wire frame of this puzzle; the whole frame is meant for a
    /// single write.
    pub fn serialize(&self) -> (r: Result<Vec<u8>, CaptchaError>)
        ensures
            r is Ok,
            r matches Ok(b) ==> b@ == puzzle_frame(self.seed_bytes(), self.steps),
    {
        let sb = self.rand_seed.as_str().as_bytes();
        let mut out = u64_to_le_bytes(sb.len() as u64);
        let mut seed_part = slice_to_vec(sb);
        out.append(&mut seed_part);
        let mut steps_part = u64_to_le_bytes(self.steps);
        out.append(&mut steps_part);
        proof {
            assert(out@ =~= puzzle_frame(self.seed_bytes(), self.steps));
        }
        Ok(out)
    }

    /// Parse a received puzzle frame.  Succeeds exactly on well-formed
    /// frames (trailing bytes after the frame are tolerated) and returns
    /// the puzzle whose seed and steps the frame spells.
    pub fn deserialize(data: &[u8]) -> (r: Result<VDFCaptcha, CaptchaError>)
        ensures
            r is Ok <==> frame_ok(data@),
            r matches Ok(c) ==> c.seed_bytes() == frame_seed(data@) && c.rand_seed@ == ascii_chars(
                frame_seed(data@),
            ) && c.steps == frame_steps(data@) && c.wf(),
            r matches Err(e) ==> (e == CaptchaError::BadFrame <==> (data@.len() < 16
                || frame_seed_len(data@) + 16 > data@.len())),
            data@.len() >= 16 && frame_seed_len(data@) + 16 <= data@.len() && !digit_bytes_ok(
                frame_seed(data@),
            ) ==> r == Err::<VDFCaptcha, CaptchaError>(CaptchaError::BadSeed),
            data@.len() >= 16 && frame_seed_len(data@) + 16 <= data@.len() && digit_bytes_ok(
                frame_seed(data@),
            ) && frame_steps(data@) == 0 ==> r == Err::<VDFCaptcha, CaptchaError>(
                CaptchaError::BadSteps,
            ),
    {
        if data.len() < 16 {
            return Err(CaptchaError::BadFrame);
        }
        let len_bytes = slice_subrange(data, 0, 8);
        let n64 = u64_from_le_bytes(len_bytes);
        if n64 > (data.len() - 16) as u64 {
            return Err(CaptchaError::BadFrame);
        }
        let n = n64 as usize;
        let seed_slice = slice_subrange(data, 8, 8 + n);
        assert(seed_slice@ == frame_seed(data@));
        if !check_digit_bytes(seed_slice) {
            return Err(CaptchaError::BadSeed);
        }
        let steps_bytes = slice_subrange(data, 8 + n, 16 + n);
        let steps = u64_from_le_bytes(steps_bytes);
        if steps == 0 {
            return Err(CaptchaError::BadSteps);
        }
        let s = digit_bytes_to_string(seed_slice);
        proof {
            lemma_digit_ascii_encode(seed_slice@);
        }
        Ok(VDFCaptcha { rand_seed: s, steps })
    }

    /// Evaluate the puzzle: the slow, sequential side.  Succeeds exactly
    /// on well-formed puzzles whose step count a machine word can drive,
    /// and returns the decimal witness that `verify` accepts.
    pub fn eval(&self) -> (r: Result<String, CaptchaError>)
        ensures
            r is Ok <==> self.wf() && self.steps <= 0xffff_ffff,
            r matches Ok(w) ==> chars_ascii(w@) == self.expected_witness()
                && self.witness_accepted(chars_ascii(w@)) && crate::digits::digit_chars_ok(w@)
                && w@.len() <= 80,
            r matches Ok(w) ==> forall|w2: Seq<u8>|
                self.witness_accepted(w2) ==> dec_value_of_ascii(w2) == dec_value_of_ascii(
                    chars_ascii(w@),
                ),
            r matches Err(e) ==> if !digit_bytes_ok(self.seed_bytes()) {
                e == CaptchaError::BadSeed
            } else {
                e == CaptchaError::BadSteps
            },
    {
        let sb = self.rand_seed.as_str().as_bytes();
        if !check_digit_bytes(sb) {
            return Err(CaptchaError::BadSeed);
        }
        if self.steps == 0 || self.steps > 0xffff_ffff {
            return Err(CaptchaError::BadSteps);
        }
        let mut with_sentinel: Vec<u8> = Vec::new();
        with_sentinel.push(1u8);
        let mut sol = vdf_solve(sb, self.steps);
        let ghost sol_view = sol@;
        with_sentinel.append(&mut sol);
        proof {
            assert(with_sentinel@ =~= self.solution_with_sentinel());
        }
        let wit_ascii = be_bytes_to_dec_ascii(&with_sentinel);
        let w = digit_bytes_to_string(wit_ascii.as_slice());
        proof {
            let v = radix_value(with_sentinel@, 256);
            lemma_dec_ascii_ok(v);
            lemma_radix_value_digits(with_sentinel@, 256);
            assert(radix_digits_of(dec_value_of_ascii(wit_ascii@), 256) == with_sentinel@);
            assert(with_sentinel@.skip(1) =~= sol_view);
            lemma_digit_bytes_chars(wit_ascii@);
            assert(chars_ascii(w@) == wit_ascii@);
            lemma_witness_fits_wire(*self);
            assert(dec_value_of_ascii(chars_ascii(w@)) == v);
            assert forall|w2: Seq<u8>| self.witness_accepted(w2) implies dec_value_of_ascii(w2)
                == dec_value_of_ascii(chars_ascii(w@)) by {
                let v2 = dec_value_of_ascii(w2);
                let dec2 = radix_digits_of(v2, 256);
                let sol2 = dec2.skip(1);
                assert(vdf_accepts(self.seed_bytes(), self.steps, sol2));
                assert(sol2 == sol_view);
                assert(dec2 =~= with_sentinel@) by {
                    assert(dec2.len() == 33 && with_sentinel@.len() == 33);
                    assert(dec2[0] == 1 && with_sentinel@[0] == 1);
                    assert forall|i: int| 1 <= i < 33 implies dec2[i] == with_sentinel@[i] by {
                        assert(dec2[i] == sol2[i - 1]);
                        assert(with_sentinel@[i] == with_sentinel@.skip(1)[i - 1]);
                        assert(with_sentinel@.skip(1) =~= sol_view);
                    }
                }
                lemma_radix_digits_value(v2, 256);
                assert(radix_value(dec2, 256) == v2);
            }
        }
        Ok(w)
    }

    /// Verify a received decimal witness: the cheap side.  Succeeds
    /// exactly when the puzzle is well formed and the witness proves it;
    /// each failure names what was wrong.
    pub fn verify(&self, witness: &[u8]) -> (r: Result<(), CaptchaError>)
        ensures
            r is Ok <==> self.wf() && self.witness_accepted(witness@),
            !digit_bytes_ok(witness@) ==> r == Err::<(), CaptchaError>(CaptchaError::BadWitness),
            digit_bytes_ok(witness@) && !digit_bytes_ok(self.seed_bytes()) ==> r == Err::<
                (),
                CaptchaError,
            >(CaptchaError::BadSeed),
            digit_bytes_ok(witness@) && digit_bytes_ok(self.seed_bytes()) && self.steps == 0
                ==> r == Err::<(), CaptchaError>(CaptchaError::BadSteps),
            digit_bytes_ok(witness@) && self.wf() && !self.witness_accepted(witness@) ==> r
                == Err::<(), CaptchaError>(CaptchaError::Rejected),
            r is Ok ==> forall|w2: Seq<u8>|
                self.witness_accepted(w2) ==> dec_value_of_ascii(w2) == dec_value_of_ascii(
                    witness@,
                ),
    {
        if !check_digit_bytes(witness) {
            return Err(CaptchaError::BadWitness);
        }
        let sb = self.rand_seed.as_str().as_bytes();
        if !check_digit_bytes(sb) {
            return Err(CaptchaError::BadSeed);
        }
        if self.steps == 0 {
            return Err(CaptchaError::BadSteps);
        }
        let dec = dec_ascii_to_be_bytes(witness);
        if dec.len() != 33 {
            return Err(CaptchaError::Rejected);
        }
        if dec[0] != 1 {
            return Err(CaptchaError::Rejected);
        }
        let sol = slice_subrange(dec.as_slice(), 1, dec.len());
        assert(sol@ =~= radix_digits_of(dec_value_of_ascii(witness@), 256).skip(1));
        if !screen_solution(sb, sol) {
            return Err(CaptchaError::Rejected);
        }
        if !vdf_check(sb, self.steps, sol) {
            return Err(CaptchaError::Rejected);
        }
        proof {
            let v1 = dec_value_of_ascii(witness@);
            lemma_radix_digits_value(v1, 256);
            assert forall|w2: Seq<u8>| self.witness_accepted(w2) implies dec_value_of_ascii(w2)
                == dec_value_of_ascii(witness@) by {
                let v2 = dec_value_of_ascii(w2);
                let dec2 = radix_digits_of(v2, 256);
                let sol2 = dec2.skip(1);
                assert(vdf_accepts(self.seed_bytes(), self.steps, sol2));
                assert(sol2 == sol@);
                assert(dec2 =~= dec@) by {
                    assert(dec2.len() == 33 && dec@.len() == 33);
                    assert(dec2[0] == 1 && dec@[0] == 1);
                    assert forall|i: int| 1 <= i < 33 implies dec2[i] == dec@[i] by {
                        assert(dec2[i] == sol2[i - 1]);
                        assert(dec@[i] == dec@.skip(1)[i - 1]);
                        assert(sol@ == dec@.skip(1));
                    }
                }
                lemma_radix_digits_value(v2, 256);
                assert(radix_value(dec2, 256) == v2);
                assert(radix_value(dec@, 256) == v1);
            }
        }
        Ok(())
    }
}

/// A witness this library evaluates always fits the server's 128-byte
/// wire read: the sentinel-prefixed 32-byte solution is a 33-byte
/// big-endian integer, below `2^264 < 10^80`, so its decimal spelling
/// has at most 80 digits.
pub proof fn lemma_witness_fits_wire(c: VDFCaptcha)
    requires
        vdf_solution(c.seed_bytes(), c.steps).len() == 32,
    ensures
        c.expected_witness().len() <= 80,
{
    let ws = c.solution_with_sentinel();
    assert(ws.len() == 33);
    lemma_radix_value_bound256(ws);
    assert(8 * ws.len() == 264);
    lemma_dec_ascii_len_264(radix_value(ws, 256));
}

/// A string of digit characters encodes to exactly its byte spelling.
pub proof fn lemma_digit_chars_encode(s: Seq<char>)
    requires
        crate::digits::digit_chars_ok(s),
    ensures
        encode_utf8(s) == chars_ascii(s),
{
    assert(is_ascii_chars(s)) by {
        assert forall|i: int| 0 <= i < s.len() implies '\0' <= #[trigger] s[i] <= '\u{7f}' by {
            assert(48 <= s[i] as int <= 57);
        }
    }
    is_ascii_chars_encode_utf8(s);
    assert(encode_utf8(s) =~= chars_ascii(s));
}

/// Digit bytes, read as characters, encode back to the same bytes.
pub proof fn lemma_digit_ascii_encode(b: Seq<u8>)
    requires
        digit_bytes_ok(b),
    ensures
        encode_utf8(ascii_chars(b)) == b,
{
    let cs = ascii_chars(b);
    assert(is_ascii_chars(cs)) by {
        assert forall|i: int| 0 <= i < cs.len() implies '\0' <= #[trigger] cs[i] <= '\u{7f}' by {
            assert(cs[i] == b[i] as char);
            assert(48 <= b[i] <= 57);
        }
    }
    is_ascii_chars_encode_utf8(cs);
    assert(encode_utf8(cs) =~= b);
}

/// An honest witness is accepted: whenever `eval` answers a witness for
/// a puzzle — its contract says the witness is `expected_witness` — that
/// witness satisfies the acceptance rule that `verify` decides by, so
/// `verify` must answer `Ok` for it.
pub proof fn lemma_eval_witness_verifies(
    c: VDFCaptcha,
    w: Seq<char>,
    verdict: Result<(), CaptchaError>,
)
    requires
        c.wf(),
        c.witness_accepted(chars_ascii(w)),
        verdict is Ok <==> c.wf() && c.witness_accepted(chars_ascii(w)),
    ensures
        verdict is Ok,
{
}

/// Verification is a function of seed, steps and witness alone: two runs
/// of `verify` on one triple give one verdict, errors included.
pub proof fn lemma_verify_deterministic(
    c: VDFCaptcha,
    witness: Seq<u8>,
    r1: Result<(), CaptchaError>,
    r2: Result<(), CaptchaError>,
)
    requires
        (r1 is Ok <==> c.wf() && c.witness_accepted(witness)),
        !digit_bytes_ok(witness) ==> r1 == Err::<(), CaptchaError>(CaptchaError::BadWitness),
        digit_bytes_ok(witness) && !digit_bytes_ok(c.seed_bytes()) ==> r1 == Err::<
            (),
            CaptchaError,
        >(CaptchaError::BadSeed),
        digit_bytes_ok(witness) && digit_bytes_ok(c.seed_bytes()) && c.steps == 0 ==> r1 == Err::<
            (),
            CaptchaError,
        >(CaptchaError::BadSteps),
        digit_bytes_ok(witness) && c.wf() && !c.witness_accepted(witness) ==> r1 == Err::<
            (),
            CaptchaError,
        >(CaptchaError::Rejected),
        (r2 is Ok <==> c.wf() && c.witness_accepted(witness)),
        !digit_bytes_ok(witness) ==> r2 == Err::<(), CaptchaError>(CaptchaError::BadWitness),
        digit_bytes_ok(witness) && !digit_bytes_ok(c.seed_bytes()) ==> r2 == Err::<
            (),
            CaptchaError,
        >(CaptchaError::BadSeed),
        digit_bytes_ok(witness) && digit_bytes_ok(c.seed_bytes()) && c.steps == 0 ==> r2 == Err::<
            (),
            CaptchaError,
        >(CaptchaError::BadSteps),
        digit_bytes_ok(witness) && c.wf() && !c.witness_accepted(witness) ==> r2 == Err::<
            (),
            CaptchaError,
        >(CaptchaError::Rejected),
    ensures
        r1 == r2,
{
    if r1 is Ok {
        assert(r1->Ok_0 == ());
        assert(r2->Ok_0 == ());
    }
}

/// Law (soundness, the tamper half): a tampered witness is refused.
/// Whenever `eval` answers a witness for a puzzle — its contract says
/// every accepted witness spells the same integer as that one — and a
/// second witness spells a different integer, `verify`, which succeeds
/// exactly on accepted witnesses, must refuse the second.  This rests on
/// the delay-function library's stated requirement that at most one
/// solution verifies per challenge and difficulty, which spec treats as
/// an axiom of the primitive.  The other half — a witness evaluated for
/// a different seed is refused — holds only with overwhelming
/// probability, so no contract here states it; the tests exercise it on
/// concrete seeds.
pub proof fn lemma_tampered_witness_refused(
    c: VDFCaptcha,
    w: Seq<char>,
    w2: Seq<u8>,
    verdict: Result<(), CaptchaError>,
)
    requires
        forall|u: Seq<u8>|
            c.witness_accepted(u) ==> dec_value_of_ascii(u) == dec_value_of_ascii(chars_ascii(w)),
        verdict is Ok <==> c.wf() && c.witness_accepted(w2),
        dec_value_of_ascii(w2) != dec_value_of_ascii(chars_ascii(w)),
    ensures
        verdict is Err,
{
}

/// A served frame parses back to the identical seed bytes and steps:
/// what `serialize` writes, `deserialize` accepts, and it reads off the
/// very seed and step count that went in.
pub proof fn lemma_frame_round_trip(seed: Seq<u8>, steps: u64)
    requires
        digit_bytes_ok(seed),
        0 < steps,
        seed.len() <= u64::MAX,
    ensures
        frame_ok(puzzle_frame(seed, steps)),
        frame_seed(puzzle_frame(seed, steps)) == seed,
        frame_steps(puzzle_frame(seed, steps)) == steps,
{
    lemma_auto_spec_u64_to_from_le_bytes();
    let f = puzzle_frame(seed, steps);
    assert(f.subrange(0, 8) =~= spec_u64_to_le_bytes(seed.len() as u64));
    assert(frame_seed_len(f) == seed.len());
    assert(f.subrange(8, 8 + seed.len() as int) =~= seed);
    assert(f.subrange(8 + seed.len() as int, 16 + seed.len() as int) =~= spec_u64_to_le_bytes(
        steps,
    ));
}

} // verus!
