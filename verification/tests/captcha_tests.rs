use samrelay::captcha::{CaptchaError, VDFCaptcha};

fn le64(n: u64) -> Vec<u8> {
    n.to_le_bytes().to_vec()
}

fn frame(seed: &str, steps: u64) -> Vec<u8> {
    let mut f = le64(seed.len() as u64);
    f.extend_from_slice(seed.as_bytes());
    f.extend_from_slice(&le64(steps));
    f
}

#[test]
fn serialize_layout_is_length_prefixed() {
    let c = VDFCaptcha { rand_seed: String::from("90125"), steps: 7 };
    let bytes = c.serialize().unwrap();
    assert_eq!(bytes, frame("90125", 7));
}

#[test]
fn round_trip_preserves_seed_and_steps() {
    let c = VDFCaptcha { rand_seed: String::from("18446744073709551615"), steps: 1024 * 1024 };
    let bytes = c.serialize().unwrap();
    let back = VDFCaptcha::deserialize(&bytes).unwrap();
    assert_eq!(back.rand_seed, c.rand_seed);
    assert_eq!(back.steps, c.steps);
    // The re-serialized frame is byte-equal too.
    assert_eq!(back.serialize().unwrap(), bytes);
}

#[test]
fn deserialize_rejects_truncated_frame() {
    let c = VDFCaptcha { rand_seed: String::from("5"), steps: 3 };
    let bytes = c.serialize().unwrap();
    assert_eq!(VDFCaptcha::deserialize(&bytes[0..4]).unwrap_err(), CaptchaError::BadFrame);
    assert_eq!(VDFCaptcha::deserialize(&[]).unwrap_err(), CaptchaError::BadFrame);
}

#[test]
fn deserialize_rejects_overrunning_length_prefix() {
    let mut bytes = le64(1000);
    bytes.extend_from_slice(b"42");
    bytes.extend_from_slice(&le64(3));
    assert_eq!(VDFCaptcha::deserialize(&bytes).unwrap_err(), CaptchaError::BadFrame);
}

#[test]
fn deserialize_rejects_non_digit_seed() {
    let bytes = frame("12a4", 3);
    assert_eq!(VDFCaptcha::deserialize(&bytes).unwrap_err(), CaptchaError::BadSeed);
    let empty_seed = frame("", 3);
    assert_eq!(VDFCaptcha::deserialize(&empty_seed).unwrap_err(), CaptchaError::BadSeed);
}

#[test]
fn deserialize_rejects_zero_steps() {
    let bytes = frame("1234", 0);
    assert_eq!(VDFCaptcha::deserialize(&bytes).unwrap_err(), CaptchaError::BadSteps);
}

#[test]
fn deserialize_tolerates_trailing_bytes() {
    let mut bytes = frame("77", 9);
    bytes.extend_from_slice(&[0xde, 0xad]);
    let back = VDFCaptcha::deserialize(&bytes).unwrap();
    assert_eq!(back.rand_seed, "77");
    assert_eq!(back.steps, 9);
}

#[test]
fn rand_seed_accepts_digits_and_rejects_other_text() {
    let good = VDFCaptcha { rand_seed: String::from("0042"), steps: 1 };
    assert_eq!(good.rand_seed().unwrap(), "0042");
    let signed = VDFCaptcha { rand_seed: String::from("-42"), steps: 1 };
    assert_eq!(signed.rand_seed(), Err(CaptchaError::BadSeed));
    let empty = VDFCaptcha { rand_seed: String::new(), steps: 1 };
    assert_eq!(empty.rand_seed(), Err(CaptchaError::BadSeed));
}

#[test]
fn eval_witness_verifies() {
    // The honest path: evaluate, then verify the same triple.
    let c = VDFCaptcha { rand_seed: String::from("123456789"), steps: 66 };
    let witness = c.eval().unwrap();
    assert!(witness.bytes().all(|b| b.is_ascii_digit()));
    assert_eq!(c.verify(witness.as_bytes()), Ok(()));
}

#[test]
fn verify_is_idempotent_on_one_triple() {
    let c = VDFCaptcha { rand_seed: String::from("31337"), steps: 34 };
    let witness = c.eval().unwrap();
    let first = c.verify(witness.as_bytes());
    let second = c.verify(witness.as_bytes());
    assert_eq!(first, second);
    assert_eq!(first, Ok(()));
    let bad = c.verify(b"15");
    assert_eq!(bad, c.verify(b"15"));
}

#[test]
fn eval_is_deterministic() {
    let c = VDFCaptcha { rand_seed: String::from("5550123"), steps: 20 };
    assert_eq!(c.eval().unwrap(), c.eval().unwrap());
}

#[test]
fn verify_rejects_zero_witness() {
    let c = VDFCaptcha { rand_seed: String::from("123456789"), steps: 66 };
    assert_eq!(c.verify(b"0"), Err(CaptchaError::Rejected));
}

#[test]
fn verify_rejects_short_and_sentinel_less_witnesses() {
    let c = VDFCaptcha { rand_seed: String::from("123456789"), steps: 66 };
    // Decodes to a single byte, far short of a solution.
    assert_eq!(c.verify(b"1"), Err(CaptchaError::Rejected));
    // 2^263: 33 bytes long but the leading byte is 128, not the sentinel.
    let no_sentinel =
        b"14821387422376473014217086081112052205218558037201992197050570753012880593911808";
    assert_eq!(c.verify(no_sentinel), Err(CaptchaError::Rejected));
}

#[test]
fn zero_seed_round_trips() {
    let c = VDFCaptcha { rand_seed: String::from("0"), steps: 5 };
    let bytes = c.serialize().unwrap();
    let back = VDFCaptcha::deserialize(&bytes).unwrap();
    assert_eq!(back.rand_seed, "0");
    assert_eq!(back.steps, 5);
}

#[test]
fn verify_rejects_tampered_witness() {
    let c = VDFCaptcha { rand_seed: String::from("123456789"), steps: 66 };
    let witness = c.eval().unwrap();
    let mut tampered: Vec<u8> = witness.as_bytes().to_vec();
    let last = tampered.len() - 1;
    tampered[last] = if tampered[last] == b'9' { b'8' } else { tampered[last] + 1 };
    assert_eq!(c.verify(&tampered), Err(CaptchaError::Rejected));
}

#[test]
fn verify_rejects_witness_for_other_seed() {
    let c = VDFCaptcha { rand_seed: String::from("123456789"), steps: 66 };
    let other = VDFCaptcha { rand_seed: String::from("123456788"), steps: 66 };
    let witness = other.eval().unwrap();
    assert_eq!(c.verify(witness.as_bytes()), Err(CaptchaError::Rejected));
}

#[test]
fn verify_rejects_witness_for_other_steps() {
    let c = VDFCaptcha { rand_seed: String::from("123456789"), steps: 66 };
    let other = VDFCaptcha { rand_seed: String::from("123456789"), steps: 67 };
    let witness = other.eval().unwrap();
    assert_eq!(c.verify(witness.as_bytes()), Err(CaptchaError::Rejected));
}

#[test]
fn verify_flags_malformed_witness() {
    let c = VDFCaptcha { rand_seed: String::from("123456789"), steps: 66 };
    assert_eq!(c.verify(b""), Err(CaptchaError::BadWitness));
    assert_eq!(c.verify(b"12x4"), Err(CaptchaError::BadWitness));
    assert_eq!(c.verify(b"-5"), Err(CaptchaError::BadWitness));
}

#[test]
fn verify_flags_malformed_puzzle() {
    let bad_seed = VDFCaptcha { rand_seed: String::from("seed"), steps: 66 };
    assert_eq!(bad_seed.verify(b"12"), Err(CaptchaError::BadSeed));
    let bad_steps = VDFCaptcha { rand_seed: String::from("12"), steps: 0 };
    assert_eq!(bad_steps.verify(b"12"), Err(CaptchaError::BadSteps));
}

#[test]
fn eval_flags_malformed_puzzle() {
    let bad_seed = VDFCaptcha { rand_seed: String::from(""), steps: 66 };
    assert_eq!(bad_seed.eval().unwrap_err(), CaptchaError::BadSeed);
    let bad_steps = VDFCaptcha { rand_seed: String::from("12"), steps: 0 };
    assert_eq!(bad_steps.eval().unwrap_err(), CaptchaError::BadSteps);
    let huge_steps = VDFCaptcha { rand_seed: String::from("12"), steps: 1 << 40 };
    assert_eq!(huge_steps.eval().unwrap_err(), CaptchaError::BadSteps);
}

#[test]
fn random_puzzle_is_well_formed() {
    let c = VDFCaptcha::with_random_seed(samrelay::captcha::DEFAULT_STEPS);
    assert_eq!(c.steps, 1024 * 1024);
    assert!(!c.rand_seed.is_empty());
    assert!(c.rand_seed.bytes().all(|b| b.is_ascii_digit()));
    // Canonical spelling: no leading zero unless the seed is zero.
    if c.rand_seed.len() > 1 {
        assert_ne!(c.rand_seed.as_bytes()[0], b'0');
    }
}

#[test]
fn witness_fits_the_wire_buffer() {
    // A 32-byte solution plus its sentinel spells at most 80 decimal
    // digits, comfortably inside the 128-byte witness read.
    let c = VDFCaptcha { rand_seed: String::from("18446744073709551615"), steps: 66 };
    let witness = c.eval().unwrap();
    assert!(witness.len() <= 128);
}
