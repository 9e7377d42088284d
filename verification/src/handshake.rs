//! The per-connection admission handshake.
//!
//! Before any application data flows, an accepted overlay stream walks
//! this protocol: drain the one prelude byte the overlay framing
//! delivers, issue a fresh delay puzzle in a single write, await the
//! decimal witness, verify it, and only then promote the stream to the
//! full-duplex splice.
//!
//! The protocol is a state machine over plain events; the process that
//! owns the sockets performs one step of I/O per state and reports the
//! outcome as an event.  The point of the whole design — no application
//! data moves before a witness verified — holds of every event
//! sequence.

use vstd::prelude::*;
use crate::captcha::{puzzle_frame, CaptchaError, VDFCaptcha};
use crate::digits::{dec_ascii_of, digit_bytes_ok};
use crate::errors::RelayError;

verus! {

/// The admission states of one accepted stream.
#[derive(Clone, Copy, Debug, PartialEq, Eq, Structural)]
pub enum AdmissionState {
    /// Waiting to drain the leading prelude byte.
    Prelude,
    /// Waiting to write the puzzle frame in one piece.
    Challenge,
    /// Waiting for the witness bytes.
    AwaitWitness,
    /// The witness verified; the stream may be adapted.
    Verified,
    /// Full duplex: application data flows both ways.
    Spliced,
    /// Terminal; the stream is shut down.
    Closed,
}

/// What one step of handshake I/O reported.
#[derive(Clone, Copy, Debug, PartialEq, Eq, Structural)]
pub enum AdmissionEvent {
    /// The prelude byte was read and discarded.
    PreludeDrained,
    /// The whole puzzle frame went out in a single write.
    PuzzleIssued,
    /// A witness arrived and passed verification.
    WitnessVerified,
    /// A witness arrived and was malformed or failed verification.
    WitnessRefused,
    /// The verified stream was re-registered as asynchronous and the
    /// backend connection stands.
    StreamAdapted,
    /// Both splice directions drained and shut down.
    SpliceFinished,
    /// The stage's I/O failed: read error, partial write, adapter or
    /// backend failure, or the handshake deadline expired.
    StageFailed,
}

/// The transition relation of the admission protocol.  Any event a state
/// does not expect closes the stream.
pub open spec fn admission_next(s: AdmissionState, e: AdmissionEvent) -> AdmissionState {
    match (s, e) {
        (AdmissionState::Prelude, AdmissionEvent::PreludeDrained) => AdmissionState::Challenge,
        (AdmissionState::Challenge, AdmissionEvent::PuzzleIssued) => AdmissionState::AwaitWitness,
        (AdmissionState::AwaitWitness, AdmissionEvent::WitnessVerified) => AdmissionState::Verified,
        (AdmissionState::Verified, AdmissionEvent::StreamAdapted) => AdmissionState::Spliced,
        (AdmissionState::Spliced, AdmissionEvent::SpliceFinished) => AdmissionState::Closed,
        _ => AdmissionState::Closed,
    }
}

/// Step the admission protocol once.
pub fn admission_advance(s: AdmissionState, e: AdmissionEvent) -> (t: AdmissionState)
    ensures
        t == admission_next(s, e),
{
    match (s, e) {
        (AdmissionState::Prelude, AdmissionEvent::PreludeDrained) => AdmissionState::Challenge,
        (AdmissionState::Challenge, AdmissionEvent::PuzzleIssued) => AdmissionState::AwaitWitness,
        (AdmissionState::AwaitWitness, AdmissionEvent::WitnessVerified) => AdmissionState::Verified,
        (AdmissionState::Verified, AdmissionEvent::StreamAdapted) => AdmissionState::Spliced,
        (AdmissionState::Spliced, AdmissionEvent::SpliceFinished) => AdmissionState::Closed,
        _ => AdmissionState::Closed,
    }
}

/// Run the protocol over a whole event sequence.
pub open spec fn admission_run(s: AdmissionState, es: Seq<AdmissionEvent>) -> AdmissionState
    decreases es.len(),
{
    if es.len() == 0 {
        s
    } else {
        admission_run(admission_next(s, es[0]), es.skip(1))
    }
}

/// The states in which a witness has already verified.
pub open spec fn admission_gated(s: AdmissionState) -> bool {
    s == AdmissionState::Verified || s == AdmissionState::Spliced
}

/// Law: application data is forwarded only in the spliced state, and a
/// run can reach the spliced state — or the verified state before it —
/// only after a `WitnessVerified` event.  So no byte of application
/// data moves to the backend before the witness verified.
pub proof fn lemma_no_splice_before_verify(s: AdmissionState, es: Seq<AdmissionEvent>)
    requires
        !admission_gated(s),
        admission_gated(admission_run(s, es)),
    ensures
        exists|i: int| 0 <= i < es.len() && es[i] == AdmissionEvent::WitnessVerified,
    decreases es.len(),
{
    if es.len() == 0 {
        assert(false);
    }
    let s1 = admission_next(s, es[0]);
    if admission_gated(s1) {
        assert(es[0] == AdmissionEvent::WitnessVerified);
    } else {
        lemma_no_splice_before_verify(s1, es.skip(1));
        let j = choose|j: int|
            0 <= j < es.skip(1).len() && es.skip(1)[j] == AdmissionEvent::WitnessVerified;
        assert(es[j + 1] == AdmissionEvent::WitnessVerified);
    }
}

/// Build the challenge for one connection: a fresh puzzle over a random
/// 64-bit seed, and its wire frame, meant for a single write.
pub fn handshake_challenge(steps: u64) -> (r: (VDFCaptcha, Vec<u8>))
    requires
        0 < steps,
    ensures
        r.0.wf(),
        r.0.steps == steps,
        r.1@ == puzzle_frame(r.0.seed_bytes(), steps),
        exists|v: u64| r.0.seed_bytes() == dec_ascii_of(v as nat),
{
    let c = VDFCaptcha::with_random_seed(steps);
    let frame = c.serialize().unwrap();
    (c, frame)
}

/// Judge the witness read: the filled prefix of the read buffer, as the
/// admission protocol's event.  `WitnessVerified` comes exactly when the
/// prefix is a decimal witness that proves the puzzle.
pub fn witness_event(c: &VDFCaptcha, buf: &[u8], n: usize) -> (e: AdmissionEvent)
    requires
        n <= buf@.len(),
    ensures
        e == AdmissionEvent::WitnessVerified <==> c.wf() && c.witness_accepted(
            buf@.take(n as int),
        ),
        e == AdmissionEvent::WitnessVerified || e == AdmissionEvent::WitnessRefused,
{
    match check_witness(c, buf, n) {
        Ok(()) => AdmissionEvent::WitnessVerified,
        Err(_) => AdmissionEvent::WitnessRefused,
    }
}

/// Verify the filled prefix of the witness buffer against the puzzle.
/// An empty or malformed prefix is a witness error; a well-formed
/// witness that does not prove the puzzle fails verification.
pub fn check_witness(c: &VDFCaptcha, buf: &[u8], n: usize) -> (r: Result<(), RelayError>)
    requires
        n <= buf@.len(),
    ensures
        r is Ok <==> c.wf() && c.witness_accepted(buf@.take(n as int)),
        r matches Err(e) ==> (e == RelayError::Witness || e == RelayError::VerificationFailed),
        !digit_bytes_ok(buf@.take(n as int)) ==> r == Err::<(), RelayError>(RelayError::Witness),
{
    let prefix = vstd::slice::slice_subrange(buf, 0, n);
    assert(prefix@ =~= buf@.take(n as int));
    match c.verify(prefix) {
        Ok(()) => Ok(()),
        Err(CaptchaError::BadWitness) => Err(RelayError::Witness),
        Err(_) => Err(RelayError::VerificationFailed),
    }
}

} // verus!
