//! The relay client's side of the admission handshake.
//!
//! The client dials a destination on the overlay, receives the puzzle
//! frame, spends the wall-clock time the puzzle demands, and answers
//! with the decimal witness.  The dialing, reading and writing live with
//! the process that owns the sockets; here is the computation between
//! them: parse the frame, evaluate, spell the witness for the wire.

use vstd::prelude::*;
use crate::captcha::{
    frame_ok,
    frame_seed,
    frame_steps,
    lemma_digit_chars_encode,
    CaptchaError,
    VDFCaptcha,
};
use crate::digits::chars_ascii;
use vstd::string::{StrSliceExecFns, StringSliceAdditionalSpecFns};

verus! {

/// Solve a received puzzle frame: parse it, evaluate the delay function,
/// and return the puzzle together with the witness bytes to write back.
/// Succeeds exactly on well-formed frames whose step count a machine
/// word can drive; the witness is the one the server's verification
/// accepts for this puzzle.
pub fn solve_puzzle(frame: &[u8]) -> (r: Result<(VDFCaptcha, Vec<u8>), CaptchaError>)
    ensures
        r is Ok <==> frame_ok(frame@) && frame_steps(frame@) <= 0xffff_ffff,
        r matches Ok(p) ==> p.0.seed_bytes() == frame_seed(frame@) && p.0.steps == frame_steps(
            frame@,
        ) && p.1@ == p.0.expected_witness() && p.0.wf() && p.0.witness_accepted(p.1@)
            && p.1@.len() <= 80,
{
    let c = match VDFCaptcha::deserialize(frame) {
        Ok(c) => c,
        Err(e) => {
            return Err(e);
        },
    };
    let w = match c.eval() {
        Ok(w) => w,
        Err(e) => {
            return Err(e);
        },
    };
    let wire = w.as_str().as_bytes_vec();
    proof {
        lemma_digit_chars_encode(w@);
        assert(wire@ == chars_ascii(w@));
    }
    Ok((c, wire))
}

} // verus!
