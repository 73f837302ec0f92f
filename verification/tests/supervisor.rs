use forkbox::output::{OutputBuffer, MAX_OUTPUT_BYTES, READ_CHUNK_BYTES};
use forkbox::supervisor::{Action, ChildStatus, Event, Supervisor};
use forkbox::ExecutionResponse;

/// Both streams give no more.
fn drain(supervisor: &mut Supervisor) -> Action {
    assert_eq!(supervisor.advance(Event::ReadFailed), Action::ReadStderr);
    supervisor.advance(Event::ReadFailed)
}

/// Clears up after a settled command.
fn finish(mut supervisor: Supervisor) -> ExecutionResponse {
    assert_eq!(supervisor.pending(), Action::ReadStdout);
    assert_eq!(drain(&mut supervisor), Action::UnmountOverlay);
    assert_eq!(supervisor.advance(Event::Performed), Action::RemoveSession);
    assert_eq!(supervisor.advance(Event::Performed), Action::Finish);
    supervisor.into_response(713)
}

fn answer_to(status: ChildStatus) -> ExecutionResponse {
    let mut supervisor = Supervisor::new(1, 2000);
    assert_eq!(drain(&mut supervisor), Action::PollChild);
    assert_eq!(supervisor.advance(Event::Status(status)), Action::ReadStdout);
    finish(supervisor)
}

#[test]
fn exit_code_is_reported() {
    let response = answer_to(ChildStatus::Exited(3));
    assert_eq!(response.exit_code, 3);
    assert!(!response.timed_out);
    assert_eq!(response.duration_us, 713);
    assert_eq!(answer_to(ChildStatus::Exited(0)).exit_code, 0);
}

#[test]
fn signal_is_added_to_128() {
    assert_eq!(answer_to(ChildStatus::Signaled(9)).exit_code, 137);
    assert_eq!(answer_to(ChildStatus::Signaled(31)).exit_code, 159);
    assert!(!answer_to(ChildStatus::Signaled(9)).timed_out);
}

#[test]
fn unknown_status_is_answered_with_zero() {
    let response = answer_to(ChildStatus::Unknown);
    assert_eq!(response.exit_code, 0);
    assert!(!response.timed_out);
}

#[test]
fn watch_clears_its_own_session() {
    for session in [1, 10, u64::MAX] {
        let mut supervisor = Supervisor::new(session, 500);
        assert_eq!(supervisor.target(), None);
        drain(&mut supervisor);
        supervisor.advance(Event::Status(ChildStatus::Signaled(9)));
        assert_eq!(drain(&mut supervisor), Action::UnmountOverlay);
        let root = format!("/tmp/forkbox_sess_{}", session);
        assert_eq!(supervisor.target(), Some(format!("{}/merged", root)));
        assert_eq!(supervisor.advance(Event::Performed), Action::RemoveSession);
        assert_eq!(supervisor.target(), Some(root));
        assert_eq!(supervisor.advance(Event::Performed), Action::Finish);
        assert_eq!(supervisor.target(), None);
    }
}

#[test]
fn endless_loop_is_killed_with_124() {
    let mut supervisor = Supervisor::new(1, 500);
    assert_eq!(drain(&mut supervisor), Action::PollChild);
    assert_eq!(
        supervisor.advance(Event::Status(ChildStatus::StillAlive)),
        Action::ReadClock
    );
    assert_eq!(
        supervisor.advance(Event::Elapsed(500_450_000)),
        Action::KillChild
    );
    assert_eq!(supervisor.advance(Event::Performed), Action::ReapChild);
    assert_eq!(supervisor.advance(Event::Performed), Action::ReadStdout);
    let response = finish(supervisor);
    assert!(response.timed_out);
    assert_eq!(response.exit_code, 124);
}

#[test]
fn deadline_is_exact() {
    for (elapsed_ns, action) in [
        (0, Action::Sleep),
        (499_999_999, Action::Sleep),
        (500_000_000, Action::KillChild),
        (u128::MAX, Action::KillChild),
    ] {
        let mut supervisor = Supervisor::new(1, 500);
        drain(&mut supervisor);
        supervisor.advance(Event::Status(ChildStatus::StillAlive));
        assert_eq!(supervisor.advance(Event::Elapsed(elapsed_ns)), action);
    }
}

#[test]
fn zero_timeout_kills_at_the_first_look() {
    let mut supervisor = Supervisor::new(1, 0);
    drain(&mut supervisor);
    supervisor.advance(Event::Status(ChildStatus::StillAlive));
    assert_eq!(supervisor.advance(Event::Elapsed(0)), Action::KillChild);
}

#[test]
fn endless_writer_is_killed() {
    let mut supervisor = Supervisor::new(1, 500);
    let mut action = supervisor.pending();
    let mut events = 0;
    while action != Action::KillChild {
        let event = match action {
            Action::ReadStdout => Event::Read(b"y\n".to_vec()),
            Action::ReadStderr => Event::Read(b"n\n".to_vec()),
            Action::PollChild => Event::Status(ChildStatus::StillAlive),
            Action::ReadClock => Event::Elapsed(events * 100_000_000),
            other => panic!("{:?}", other),
        };
        action = supervisor.advance(event);
        events += 1;
    }
    assert_eq!(events, 8);
    supervisor.advance(Event::Performed);
    supervisor.advance(Event::Performed);
    let response = finish(supervisor);
    assert!(response.timed_out);
    assert_eq!(response.exit_code, 124);
    assert_eq!(response.stdout, "y\ny\n");
}

#[test]
fn drain_ends_though_something_keeps_writing() {
    let mut supervisor = Supervisor::new(1, 500);
    drain(&mut supervisor);
    let mut action = supervisor.advance(Event::Status(ChildStatus::Exited(0)));
    let mut reads = 0;
    while action != Action::UnmountOverlay {
        action = supervisor.advance(Event::Read(vec![b'x'; READ_CHUNK_BYTES]));
        reads += 1;
    }
    assert_eq!(reads, 2 * 64);
    let response = supervisor.into_response(0);
    assert_eq!(response.stdout.len(), MAX_OUTPUT_BYTES);
    assert_eq!(response.stderr.len(), MAX_OUTPUT_BYTES);
}

#[test]
fn command_that_writes_is_looked_at_without_a_pause() {
    let mut supervisor = Supervisor::new(1, 500);
    assert_eq!(
        supervisor.advance(Event::Read(b"y".to_vec())),
        Action::ReadStderr
    );
    assert_eq!(supervisor.advance(Event::ReadFailed), Action::PollChild);
    supervisor.advance(Event::Status(ChildStatus::StillAlive));
    assert_eq!(supervisor.advance(Event::Elapsed(1)), Action::ReadStdout);
    assert_eq!(drain(&mut supervisor), Action::PollChild);
    supervisor.advance(Event::Status(ChildStatus::StillAlive));
    assert_eq!(supervisor.advance(Event::Elapsed(2)), Action::Sleep);
}

#[test]
fn running_command_is_looked_at_again() {
    let mut supervisor = Supervisor::new(1, 500);
    drain(&mut supervisor);
    supervisor.advance(Event::Status(ChildStatus::StillAlive));
    assert_eq!(supervisor.advance(Event::Elapsed(1)), Action::Sleep);
    assert_eq!(supervisor.advance(Event::Performed), Action::ReadStdout);
    assert_eq!(drain(&mut supervisor), Action::PollChild);
}

#[test]
fn events_that_answer_nothing_change_nothing() {
    let mut supervisor = Supervisor::new(1, 500);
    assert_eq!(supervisor.advance(Event::Performed), Action::ReadStdout);
    assert_eq!(
        supervisor.advance(Event::Elapsed(u128::MAX)),
        Action::ReadStdout
    );
    assert_eq!(
        supervisor.advance(Event::Status(ChildStatus::Exited(1))),
        Action::ReadStdout
    );
    let response = supervisor.into_response(0);
    assert_eq!(response.exit_code, 0);
    assert!(!response.timed_out);
}

#[test]
fn output_is_kept_by_stream() {
    let mut supervisor = Supervisor::new(1, 500);
    assert_eq!(
        supervisor.advance(Event::Read(b"2432902008".to_vec())),
        Action::ReadStderr
    );
    assert_eq!(
        supervisor.advance(Event::Read(b"warning\n".to_vec())),
        Action::PollChild
    );
    supervisor.advance(Event::Status(ChildStatus::Exited(0)));
    supervisor.advance(Event::Read(b"176640000\n".to_vec()));
    let response = finish(supervisor);
    assert_eq!(response.stdout, "2432902008176640000\n");
    assert_eq!(response.stderr, "warning\n");
}

#[test]
fn output_is_read_after_the_command_ended() {
    let mut supervisor = Supervisor::new(1, 500);
    drain(&mut supervisor);
    supervisor.advance(Event::Status(ChildStatus::Exited(0)));
    assert_eq!(
        supervisor.advance(Event::Read(b"late".to_vec())),
        Action::ReadStdout
    );
    assert_eq!(finish(supervisor).stdout, "late");
}

/// A watch over a command that ended, with its output still to be read.
fn settled() -> Supervisor {
    let mut supervisor = Supervisor::new(1, 500);
    drain(&mut supervisor);
    supervisor.advance(Event::Status(ChildStatus::Exited(0)));
    supervisor
}

#[test]
fn limit_is_passed_by_less_than_a_piece() {
    let mut supervisor = settled();
    assert_eq!(
        supervisor.advance(Event::Read(vec![b'a'; MAX_OUTPUT_BYTES - 1])),
        Action::ReadStdout
    );
    assert_eq!(
        supervisor.advance(Event::Read(vec![b'b'; READ_CHUNK_BYTES])),
        Action::ReadStderr
    );
    let text = supervisor.into_response(0).stdout;
    assert_eq!(text.len(), 262144 + 4096 - 1);
    assert!(text.ends_with('b'));
}

#[test]
fn nothing_is_kept_beyond_the_limit() {
    let mut buffer = OutputBuffer::new();
    assert!(!buffer.is_full());
    buffer.absorb(vec![b'a'; MAX_OUTPUT_BYTES - 1]);
    assert!(!buffer.is_full());
    buffer.absorb(b"bc".to_vec());
    assert!(buffer.is_full());
    buffer.absorb(b"d".to_vec());
    let text = buffer.text();
    assert_eq!(text.len(), MAX_OUTPUT_BYTES + 1);
    assert!(text.ends_with("abc"));
}

#[test]
fn kept_output_is_a_prefix_of_the_stream() {
    let mut buffer = OutputBuffer::new();
    assert_eq!(buffer.text(), "");
    buffer.absorb(b"short ".to_vec());
    buffer.absorb(b"stream".to_vec());
    assert_eq!(buffer.text(), "short stream");
}

#[test]
fn bytes_that_are_no_text_are_replaced() {
    let mut supervisor = settled();
    supervisor.advance(Event::Read(b"ol\xc3".to_vec()));
    supervisor.advance(Event::Read(b"\xa1 \xff!".to_vec()));
    let response = supervisor.into_response(0);
    assert_eq!(response.stdout, "ol\u{e1} \u{fffd}!");
    assert_eq!(response.stderr, "");
}

#[test]
fn failed_fork_is_answered() {
    let response = ExecutionResponse::fork_failed(42);
    assert_eq!(response.exit_code, -1);
    assert!(!response.timed_out);
    assert_eq!(response.stdout, "");
    assert_eq!(response.stderr, "Falha ao disparar fork");
    assert_eq!(response.duration_us, 42);
}
