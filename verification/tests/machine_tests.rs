use samrelay::captcha::VDFCaptcha;
use samrelay::handshake::{
    admission_advance, check_witness, handshake_challenge, witness_event, AdmissionEvent,
    AdmissionState,
};
use samrelay::errors::RelayError;
use samrelay::splice::{CopyAction, CopyEvent, CopyState, SpliceState};
use samrelay::supervisor::{supervisor_advance, SupervisorAction, SupervisorEvent, SupervisorState};

#[test]
fn admission_happy_path() {
    let mut s = AdmissionState::Prelude;
    s = admission_advance(s, AdmissionEvent::PreludeDrained);
    assert_eq!(s, AdmissionState::Challenge);
    s = admission_advance(s, AdmissionEvent::PuzzleIssued);
    assert_eq!(s, AdmissionState::AwaitWitness);
    s = admission_advance(s, AdmissionEvent::WitnessVerified);
    assert_eq!(s, AdmissionState::Verified);
    s = admission_advance(s, AdmissionEvent::StreamAdapted);
    assert_eq!(s, AdmissionState::Spliced);
    s = admission_advance(s, AdmissionEvent::SpliceFinished);
    assert_eq!(s, AdmissionState::Closed);
}

#[test]
fn admission_never_splices_without_verification() {
    // Every event from AwaitWitness other than a verified witness closes.
    for e in [
        AdmissionEvent::WitnessRefused,
        AdmissionEvent::StageFailed,
        AdmissionEvent::StreamAdapted,
        AdmissionEvent::SpliceFinished,
    ] {
        assert_eq!(admission_advance(AdmissionState::AwaitWitness, e), AdmissionState::Closed);
    }
}

#[test]
fn admission_backend_failure_closes_after_verification() {
    // A verified stream whose adapter or backend fails is closed; the
    // splice never starts.
    let s = admission_advance(AdmissionState::Verified, AdmissionEvent::StageFailed);
    assert_eq!(s, AdmissionState::Closed);
}

#[test]
fn admission_prelude_failure_closes() {
    assert_eq!(
        admission_advance(AdmissionState::Prelude, AdmissionEvent::StageFailed),
        AdmissionState::Closed
    );
}

#[test]
fn handshake_challenge_round_trips_to_the_client() {
    let (c, frame) = handshake_challenge(42);
    let parsed = VDFCaptcha::deserialize(&frame).unwrap();
    assert_eq!(parsed.rand_seed, c.rand_seed);
    assert_eq!(parsed.steps, 42);
}

#[test]
fn handshake_accepts_honest_client() {
    // The server issues a challenge, the client solves it, the server
    // verifies the witness read: one verification success.
    let (c, frame) = handshake_challenge(66);
    let (_, wire) = samrelay::client::solve_puzzle(&frame).unwrap();
    let mut buf = [0u8; 128];
    buf[..wire.len()].copy_from_slice(&wire);
    assert_eq!(check_witness(&c, &buf, wire.len()), Ok(()));
    assert_eq!(witness_event(&c, &buf, wire.len()), AdmissionEvent::WitnessVerified);
}

#[test]
fn empty_witness_read_is_a_witness_error() {
    let (c, _) = handshake_challenge(66);
    let buf = [0u8; 128];
    assert_eq!(check_witness(&c, &buf, 0), Err(RelayError::Witness));
}

#[test]
fn bad_witness_is_a_verification_failure() {
    let (c, _) = handshake_challenge(66);
    let mut buf = [0u8; 128];
    buf[0] = b'0';
    assert_eq!(check_witness(&c, &buf, 1), Err(RelayError::VerificationFailed));
    assert_eq!(witness_event(&c, &buf, 1), AdmissionEvent::WitnessRefused);
    buf[0] = b'x';
    assert_eq!(check_witness(&c, &buf, 1), Err(RelayError::Witness));
}

#[test]
fn eof_propagates_as_write_shutdown() {
    let s = SpliceState::new();
    let (s, action) = s.advance_upstream(CopyEvent::SourceEof);
    assert_eq!(action, CopyAction::ShutdownWrite);
    assert_eq!(s.upstream, CopyState::ShutdownSent);
    // The reverse direction holds too.
    let (s, action) = s.advance_downstream(CopyEvent::SourceEof);
    assert_eq!(action, CopyAction::ShutdownWrite);
    assert_eq!(s.downstream, CopyState::ShutdownSent);
    assert!(s.done());
}

#[test]
fn error_in_one_direction_leaves_the_other_streaming() {
    let s = SpliceState::new();
    let (s, action) = s.advance_upstream(CopyEvent::IoError);
    assert_eq!(action, CopyAction::Stop);
    assert_eq!(s.upstream, CopyState::Failed);
    assert_eq!(s.downstream, CopyState::Streaming);
    assert!(!s.done());
    // The other direction still copies and closes on its own terms.
    let (s, action) = s.advance_downstream(CopyEvent::Copied);
    assert_eq!(action, CopyAction::Continue);
    let (s, _) = s.advance_downstream(CopyEvent::SourceEof);
    assert!(s.done());
}

#[test]
fn half_close_keeps_return_path_flowing() {
    // The client shut its write half: upstream sees EOF, backend gets a
    // write shutdown, and pending backend bytes still flow back.
    let s = SpliceState::new();
    let (s, action) = s.advance_upstream(CopyEvent::SourceEof);
    assert_eq!(action, CopyAction::ShutdownWrite);
    let (s, action) = s.advance_downstream(CopyEvent::Copied);
    assert_eq!(action, CopyAction::Continue);
    assert!(!s.done());
    let (s, action) = s.advance_downstream(CopyEvent::SourceEof);
    assert_eq!(action, CopyAction::ShutdownWrite);
    assert!(s.done());
}

#[test]
fn supervisor_spawns_per_connection() {
    let (s, action) =
        supervisor_advance(SupervisorState::Accepting, SupervisorEvent::ConnectionAccepted);
    assert_eq!(s, SupervisorState::Accepting);
    assert_eq!(action, SupervisorAction::SpawnHandler);
}

#[test]
fn supervisor_survives_task_failures() {
    let mut s = SupervisorState::Accepting;
    for _ in 0..100 {
        let (next, action) = supervisor_advance(s, SupervisorEvent::TaskEnded);
        assert_eq!(next, SupervisorState::Accepting);
        assert_eq!(action, SupervisorAction::KeepAccepting);
        s = next;
    }
}

#[test]
fn supervisor_rebinds_after_accept_error() {
    // A listener flap: accept fails, the listener is re-bound, and the
    // next client is accepted again.
    let (s, action) = supervisor_advance(SupervisorState::Accepting, SupervisorEvent::AcceptFailed);
    assert_eq!(s, SupervisorState::Rebinding);
    assert_eq!(action, SupervisorAction::RebindListener);
    let (s, action) = supervisor_advance(s, SupervisorEvent::RebindSucceeded);
    assert_eq!(s, SupervisorState::Accepting);
    assert_eq!(action, SupervisorAction::KeepAccepting);
    let (s, action) = supervisor_advance(s, SupervisorEvent::ConnectionAccepted);
    assert_eq!(s, SupervisorState::Accepting);
    assert_eq!(action, SupervisorAction::SpawnHandler);
}

#[test]
fn supervisor_exits_only_on_failed_rebind() {
    let (s, action) = supervisor_advance(SupervisorState::Rebinding, SupervisorEvent::RebindFailed);
    assert_eq!(s, SupervisorState::Fatal);
    assert_eq!(action, SupervisorAction::Exit);
}

#[test]
fn nickname_is_sixteen_alphanumerics() {
    let n = samrelay::rand_util::nickname();
    assert_eq!(n.chars().count(), 16);
    assert!(n.chars().all(|c| c.is_ascii_alphanumeric()));
}

#[test]
fn rand_int_stays_below_max() {
    for _ in 0..32 {
        assert!(samrelay::rand_util::rand_int() < u64::MAX);
    }
}
