use dnetd::debuggee::splice::{classify_splice, SpliceError, SpliceOutcome};
use dnetd::debuggee::{relay_step, Direction, RelayAction};

#[test]
fn classify_moved_bytes() {
    assert_eq!(classify_splice(5, 0), SpliceOutcome::Moved(5));
    assert_eq!(classify_splice(65536, 0), SpliceOutcome::Moved(65536));
}

#[test]
fn classify_end_of_input() {
    assert_eq!(classify_splice(0, 0), SpliceOutcome::Moved(0));
}

#[test]
fn classify_broken_pipe() {
    assert_eq!(
        classify_splice(-1, 32),
        SpliceOutcome::Failed(SpliceError::BrokenPipe)
    );
}

#[test]
fn classify_invalid_argument() {
    assert_eq!(
        classify_splice(-1, 22),
        SpliceOutcome::Failed(SpliceError::InvalidArgument)
    );
}

#[test]
fn classify_fatal_codes() {
    // would-block, bad descriptor, out of memory, misplaced offset: all of
    // them indicate a violated invariant, none is recoverable
    assert_eq!(classify_splice(-1, 11), SpliceOutcome::Fatal);
    assert_eq!(classify_splice(-1, 9), SpliceOutcome::Fatal);
    assert_eq!(classify_splice(-1, 12), SpliceOutcome::Fatal);
    assert_eq!(classify_splice(-1, 29), SpliceOutcome::Fatal);
}

#[test]
fn relay_proceeds_while_bytes_move() {
    assert_eq!(
        relay_step(Direction::Incoming, SpliceOutcome::Moved(512)),
        RelayAction::Proceed
    );
    assert_eq!(
        relay_step(Direction::Outgoing, SpliceOutcome::Moved(1)),
        RelayAction::Proceed
    );
}

#[test]
fn relay_incoming_end_of_input_shuts_down() {
    assert_eq!(
        relay_step(Direction::Incoming, SpliceOutcome::Moved(0)),
        RelayAction::Shutdown
    );
}

#[test]
fn relay_incoming_broken_pipe_only_finishes() {
    // the child stopped reading, but bytes may still flow outward
    assert_eq!(
        relay_step(Direction::Incoming, SpliceOutcome::Failed(SpliceError::BrokenPipe)),
        RelayAction::Finish
    );
}

#[test]
fn relay_outgoing_broken_pipe_shuts_down() {
    assert_eq!(
        relay_step(Direction::Outgoing, SpliceOutcome::Failed(SpliceError::BrokenPipe)),
        RelayAction::Shutdown
    );
}

#[test]
fn relay_outgoing_end_of_input_only_finishes() {
    // the child finished writing; the inbound direction may still be live
    assert_eq!(
        relay_step(Direction::Outgoing, SpliceOutcome::Moved(0)),
        RelayAction::Finish
    );
}

#[test]
fn relay_aborts_on_contract_violations() {
    assert_eq!(
        relay_step(Direction::Incoming, SpliceOutcome::Failed(SpliceError::InvalidArgument)),
        RelayAction::Abort
    );
    assert_eq!(
        relay_step(Direction::Outgoing, SpliceOutcome::Fatal),
        RelayAction::Abort
    );
}

#[test]
fn closure_outcomes_never_proceed() {
    // neither direction keeps relaying once it has seen end of input or a
    // broken pipe
    for dir in [Direction::Incoming, Direction::Outgoing] {
        assert_ne!(
            relay_step(dir, SpliceOutcome::Moved(0)),
            RelayAction::Proceed
        );
        assert_ne!(
            relay_step(dir, SpliceOutcome::Failed(SpliceError::BrokenPipe)),
            RelayAction::Proceed
        );
    }
}
