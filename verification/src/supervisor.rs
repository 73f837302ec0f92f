//! The watch over a running command: what is read, when it is killed, what it answers.
use vstd::prelude::*;

use crate::output::{
    law_kept_output_is_bounded, lossy_text, retained, retained_all, OutputBuffer, MAX_OUTPUT_BYTES, READ_CHUNK_BYTES,
};
use crate::request::ExecutionResponse;
use crate::session::{
    counter_after, law_directory_lies_in_no_session, law_sessions_are_numbered_in_order,
    law_sessions_share_no_path, merged_of, root_of, SessionPaths,
};
use crate::text::decimal;

verus! {

/// The exit code that stands for a command that ran out of time.
pub const TIMEOUT_EXIT_CODE: i32 = 124;

/// The number of a signal is added to this to give an exit code.
pub const SIGNAL_EXIT_BASE: i32 = 128;

/// How long to sleep between two looks at a command that still runs, in microseconds.
pub const POLL_INTERVAL_US: u64 = 200;

/// What the watch wants done next.
#[derive(Clone, Copy, Debug, PartialEq, Eq, Structural)]
pub enum Action {
    /// Read a piece of the command's standard output, without waiting for it.
    ReadStdout,
    /// Read a piece of the command's standard error, without waiting for it.
    ReadStderr,
    /// Ask, without waiting, whether the command ended.
    PollChild,
    /// Say how long ago the watch began.
    ReadClock,
    /// Send the command the signal that it cannot refuse.
    KillChild,
    /// Wait until the killed command is gone.
    ReapChild,
    /// Sleep for `POLL_INTERVAL_US`.
    Sleep,
    /// Detach the file system that was merged for the command.
    UnmountOverlay,
    /// Remove the directory of the session, and with it all that the command wrote.
    RemoveSession,
    /// Give the answer.
    Finish,
}

/// What a look at the command found.
#[derive(Clone, Copy, Debug, PartialEq, Eq, Structural)]
pub enum ChildStatus {
    /// It ended with this exit code.
    Exited(i32),
    /// It was ended by the signal of this number.
    Signaled(u8),
    /// It still runs.
    StillAlive,
    /// It did something else, or nothing could be found out.
    Unknown,
}

/// What came of an action.
#[derive(Debug)]
pub enum Event {
    /// Bytes that were read; none at the end of the stream.
    Read(Vec<u8>),
    /// Nothing could be read.
    ReadFailed,
    /// What a look at the command found.
    Status(ChildStatus),
    /// The nanoseconds since the watch began.
    Elapsed(u128),
    /// The action was tried, with whatever success.
    Performed,
}

/// The state of a watch.
pub struct Watch {
    /// The number of the session that the command belongs to.
    pub session: u64,
    /// What is to be done next.
    pub pending: Action,
    /// Whether it is settled how the command ended.
    pub settled: bool,
    /// Whether neither stream gave anything since the last look at the command.
    pub dry: bool,
    /// How long the command may run, in milliseconds.
    pub timeout_ms: u32,
    /// Whether the command ran out of time.
    pub timed_out: bool,
    /// The exit code of the answer, as far as it is known.
    pub exit_code: i32,
    /// What is kept of the command's standard output.
    pub stdout: Seq<u8>,
    /// What is kept of the command's standard error.
    pub stderr: Seq<u8>,
}

/// Whether a command's time is over, this many nanoseconds after the watch began.
pub open spec fn time_is_over(elapsed_ns: u128, timeout_ms: u32) -> bool {
    elapsed_ns >= timeout_ms * 1_000_000
}

/// How many bytes of a stream are still kept, for sure, after these.
pub open spec fn room(kept: Seq<u8>) -> nat {
    if kept.len() < MAX_OUTPUT_BYTES {
        (MAX_OUTPUT_BYTES - kept.len()) as nat
    } else {
        0
    }
}

impl Watch {
    /// The watch over a command that was just started in this session.
    pub open spec fn begun(session: u64, timeout_ms: u32) -> Watch {
        Watch {
            session,
            pending: Action::ReadStdout,
            settled: false,
            dry: true,
            timeout_ms,
            timed_out: false,
            exit_code: 0,
            stdout: Seq::empty(),
            stderr: Seq::empty(),
        }
    }

    /// The watch, once it is settled with which code the command ended: what is left of
    /// its output is read before all is cleared away.
    pub open spec fn settle(self, exit_code: i32) -> Watch {
        Watch { pending: Action::ReadStdout, settled: true, exit_code, ..self }
    }

    /// The watch after an action had this outcome. An event that does not answer the
    /// pending action changes nothing.
    ///
    /// Each stream is read once, then the command is looked at, and the clock if it still
    /// runs: output cannot hold up the deadline. Once the command is settled, each stream
    /// is read until it gives no more or until no more of it would be kept.
    pub open spec fn after(self, event: Event) -> Watch {
        match (self.pending, event) {
            (Action::ReadStdout, Event::Read(chunk)) if chunk@.len() > 0 => {
                let stdout = retained(self.stdout, chunk@);
                Watch {
                    pending: if self.settled && stdout.len() < MAX_OUTPUT_BYTES {
                        Action::ReadStdout
                    } else {
                        Action::ReadStderr
                    },
                    dry: false,
                    stdout,
                    ..self
                }
            },
            (Action::ReadStdout, Event::Read(_)) => Watch { pending: Action::ReadStderr, ..self },
            (Action::ReadStdout, Event::ReadFailed) => Watch {
                pending: Action::ReadStderr,
                ..self
            },
            (Action::ReadStderr, Event::Read(chunk)) if chunk@.len() > 0 => {
                let stderr = retained(self.stderr, chunk@);
                Watch {
                    pending: if self.settled && stderr.len() < MAX_OUTPUT_BYTES {
                        Action::ReadStderr
                    } else {
                        self.after_streams()
                    },
                    dry: false,
                    stderr,
                    ..self
                }
            },
            (Action::ReadStderr, Event::Read(_)) => Watch { pending: self.after_streams(), ..self },
            (Action::ReadStderr, Event::ReadFailed) => Watch {
                pending: self.after_streams(),
                ..self
            },
            (Action::PollChild, Event::Status(status)) => match status {
                ChildStatus::Exited(code) => self.settle(code),
                ChildStatus::Signaled(signal) => self.settle((SIGNAL_EXIT_BASE + signal) as i32),
                ChildStatus::StillAlive => Watch { pending: Action::ReadClock, ..self },
                ChildStatus::Unknown => self.settle(self.exit_code),
            },
            (Action::ReadClock, Event::Elapsed(elapsed_ns)) => if time_is_over(
                elapsed_ns,
                self.timeout_ms,
            ) {
                Watch {
                    pending: Action::KillChild,
                    timed_out: true,
                    exit_code: TIMEOUT_EXIT_CODE,
                    ..self
                }
            } else if self.dry {
                Watch { pending: Action::Sleep, ..self }
            } else {
                self.next_round()
            },
            (Action::KillChild, Event::Performed) => Watch { pending: Action::ReapChild, ..self },
            (Action::ReapChild, Event::Performed) => self.settle(self.exit_code),
            (Action::Sleep, Event::Performed) => self.next_round(),
            (Action::UnmountOverlay, Event::Performed) => Watch {
                pending: Action::RemoveSession,
                ..self
            },
            (Action::RemoveSession, Event::Performed) => Watch { pending: Action::Finish, ..self },
            _ => self,
        }
    }

    /// What follows once both streams were read.
    pub open spec fn after_streams(self) -> Action {
        if self.settled {
            Action::UnmountOverlay
        } else {
            Action::PollChild
        }
    }

    /// The watch over a command that still runs goes on with its streams.
    pub open spec fn next_round(self) -> Watch {
        Watch { pending: Action::ReadStdout, dry: true, ..self }
    }

    /// The path that the pending action works on, if it works on one: what is detached is
    /// the merged tree of the watch's own session, and what is removed its directory.
    pub open spec fn target(self) -> Option<Seq<char>> {
        match self.pending {
            Action::UnmountOverlay => Some(merged_of(self.session)),
            Action::RemoveSession => Some(root_of(self.session)),
            _ => None,
        }
    }

    /// The paths that were detached or removed in the course of these events, in order.
    pub open spec fn cleared(self, events: Seq<Event>) -> Seq<Seq<char>>
        decreases events.len(),
    {
        if events.len() == 0 {
            Seq::empty()
        } else {
            let earlier = self.cleared(events.drop_last());
            match (self.after_all(events.drop_last()).target(), events.last()) {
                (Some(path), Event::Performed) => earlier.push(path),
                _ => earlier,
            }
        }
    }

    /// Whether an event answers the pending action.
    pub open spec fn is_answered_by(self, event: Event) -> bool {
        match self.pending {
            Action::ReadStdout | Action::ReadStderr => event is Read || event is ReadFailed,
            Action::PollChild => event is Status,
            Action::ReadClock => event is Elapsed,
            Action::Finish => false,
            _ => event is Performed,
        }
    }

    /// Whether each of these events answers the action that is pending when it comes.
    pub open spec fn all_answered_by(self, events: Seq<Event>) -> bool
        decreases events.len(),
    {
        events.len() > 0 ==> self.all_answered_by(events.drop_last()) && self.after_all(
            events.drop_last(),
        ).is_answered_by(events.last())
    }

    /// How many answers lead at most from here to the next look at a command that is not
    /// settled, or to its end once it is overdue.
    pub open spec fn answers_to_next_look(self) -> nat {
        match self.pending {
            Action::ReadClock => 4,
            Action::Sleep => 3,
            Action::ReadStdout | Action::KillChild => 2,
            Action::ReadStderr | Action::ReapChild => 1,
            _ => 0,
        }
    }

    /// How many answers lead at most from here to the kill of a command whose time is over.
    pub open spec fn answers_to_kill(self) -> nat {
        match self.pending {
            Action::Sleep => 5,
            Action::ReadStdout => 4,
            Action::ReadStderr => 3,
            Action::PollChild => 2,
            Action::ReadClock => 1,
            _ => 0,
        }
    }

    /// How many answers lead at most from a settled command to the end of the watch.
    pub open spec fn answers_to_finish(self) -> nat {
        match self.pending {
            Action::ReadStdout => room(self.stdout) + room(self.stderr) + 4,
            Action::ReadStderr => room(self.stderr) + 3,
            Action::UnmountOverlay => 2,
            Action::RemoveSession => 1,
            _ => 0,
        }
    }

    /// How often an action was tried in the course of these events.
    pub open spec fn times_performed(self, events: Seq<Event>, action: Action) -> nat
        decreases events.len(),
    {
        if events.len() == 0 {
            0
        } else {
            let earlier = self.times_performed(events.drop_last(), action);
            if self.after_all(events.drop_last()).pending == action && events.last() is Performed {
                earlier + 1
            } else {
                earlier
            }
        }
    }

    /// The watch after these outcomes, in order.
    pub open spec fn after_all(self, events: Seq<Event>) -> Watch
        decreases events.len(),
    {
        if events.len() == 0 {
            self
        } else {
            self.after_all(events.drop_last()).after(events.last())
        }
    }

    /// What holds at every point of a watch.
    pub open spec fn sound(self) -> bool {
        &&& self.timed_out ==> self.exit_code == TIMEOUT_EXIT_CODE
        &&& !self.timed_out && !self.settled ==> self.exit_code == 0
        &&& self.pending is KillChild || self.pending is ReapChild <==> self.timed_out
            && !self.settled
        &&& self.pending is PollChild || self.pending is ReadClock || self.pending is Sleep
            ==> !self.settled
        &&& self.pending is UnmountOverlay || self.pending is RemoveSession
            || self.pending is Finish ==> self.settled
    }

    /// The pieces of standard output that were read in the course of these events.
    pub open spec fn stdout_chunks(self, events: Seq<Event>) -> Seq<Seq<u8>>
        decreases events.len(),
    {
        if events.len() == 0 {
            Seq::empty()
        } else {
            let earlier = self.stdout_chunks(events.drop_last());
            match (self.after_all(events.drop_last()).pending, events.last()) {
                (Action::ReadStdout, Event::Read(chunk)) if chunk@.len() > 0 => earlier.push(
                    chunk@,
                ),
                _ => earlier,
            }
        }
    }

    /// The pieces of standard error that were read in the course of these events.
    pub open spec fn stderr_chunks(self, events: Seq<Event>) -> Seq<Seq<u8>>
        decreases events.len(),
    {
        if events.len() == 0 {
            Seq::empty()
        } else {
            let earlier = self.stderr_chunks(events.drop_last());
            match (self.after_all(events.drop_last()).pending, events.last()) {
                (Action::ReadStderr, Event::Read(chunk)) if chunk@.len() > 0 => earlier.push(
                    chunk@,
                ),
                _ => earlier,
            }
        }
    }

    /// Event number `i` reports that the stream read by `action`, of which `kept` is kept
    /// at that point, gives no more, or as much as fills it up.
    pub open spec fn ends_stream(self, events: Seq<Event>, i: int, action: Action) -> bool {
        let watch = self.after_all(events.take(i));
        let kept = if action is ReadStdout {
            watch.stdout
        } else {
            watch.stderr
        };
        &&& 0 <= i < events.len()
        &&& watch.pending == action
        &&& match events[i] {
            Event::Read(chunk) => chunk@.len() == 0 || retained(kept, chunk@).len()
                >= MAX_OUTPUT_BYTES,
            Event::ReadFailed => true,
            _ => false,
        }
    }

    /// Event number `i` reports that the action `action` was tried.
    pub open spec fn performs(self, events: Seq<Event>, i: int, action: Action) -> bool {
        &&& 0 <= i < events.len()
        &&& self.after_all(events.take(i)).pending == action
        &&& events[i] is Performed
    }
}

/// Watches over a command from its start to the answer.
pub struct Supervisor {
    session: u64,
    pending: Action,
    settled: bool,
    dry: bool,
    timeout_ms: u32,
    timed_out: bool,
    exit_code: i32,
    stdout: OutputBuffer,
    stderr: OutputBuffer,
}

impl View for Supervisor {
    type V = Watch;

    closed spec fn view(&self) -> Watch {
        Watch {
            session: self.session,
            pending: self.pending,
            settled: self.settled,
            dry: self.dry,
            timeout_ms: self.timeout_ms,
            timed_out: self.timed_out,
            exit_code: self.exit_code,
            stdout: self.stdout@,
            stderr: self.stderr@,
        }
    }
}

impl Supervisor {
    /// Begins the watch over a command that was just started in this session.
    pub fn new(session: u64, timeout_ms: u32) -> (supervisor: Supervisor)
        ensures
            supervisor@ == Watch::begun(session, timeout_ms),
    {
        Supervisor {
            session,
            pending: Action::ReadStdout,
            settled: false,
            dry: true,
            timeout_ms,
            timed_out: false,
            exit_code: 0,
            stdout: OutputBuffer::new(),
            stderr: OutputBuffer::new(),
        }
    }

    /// What is to be done next.
    pub fn pending(&self) -> (action: Action)
        ensures
            action == self@.pending,
    {
        self.pending
    }

    /// The path that the pending action works on, if it works on one.
    pub fn target(&self) -> (target: Option<String>)
        ensures
            match self@.target() {
                Some(path) => target matches Some(t) && t@ == path,
                None => target is None,
            },
    {
        match self.pending {
            Action::UnmountOverlay => Some(SessionPaths::new(self.session).merged),
            Action::RemoveSession => Some(SessionPaths::new(self.session).root),
            _ => None,
        }
    }

    /// Takes the outcome of the pending action, and says what is to be done next.
    pub fn advance(&mut self, event: Event) -> (action: Action)
        ensures
            final(self)@ == old(self)@.after(event),
            action == final(self)@.pending,
    {
        match (self.pending, event) {
            (Action::ReadStdout, Event::Read(chunk)) => {
                if chunk.len() > 0 {
                    self.stdout.absorb(chunk);
                    self.dry = false;
                    if !self.settled || self.stdout.is_full() {
                        self.pending = Action::ReadStderr;
                    }
                } else {
                    self.pending = Action::ReadStderr;
                }
            },
            (Action::ReadStdout, Event::ReadFailed) => {
                self.pending = Action::ReadStderr;
            },
            (Action::ReadStderr, Event::Read(chunk)) => {
                if chunk.len() > 0 {
                    self.stderr.absorb(chunk);
                    self.dry = false;
                    if !self.settled || self.stderr.is_full() {
                        self.streams_read();
                    }
                } else {
                    self.streams_read();
                }
            },
            (Action::ReadStderr, Event::ReadFailed) => {
                self.streams_read();
            },
            (Action::PollChild, Event::Status(status)) => {
                self.child_seen(status);
            },
            (Action::ReadClock, Event::Elapsed(elapsed_ns)) => {
                self.clock_read(elapsed_ns);
            },
            (Action::KillChild, Event::Performed) => {
                self.pending = Action::ReapChild;
            },
            (Action::ReapChild, Event::Performed) => {
                self.settled = true;
                self.pending = Action::ReadStdout;
            },
            (Action::Sleep, Event::Performed) => {
                self.dry = true;
                self.pending = Action::ReadStdout;
            },
            (Action::UnmountOverlay, Event::Performed) => {
                self.pending = Action::RemoveSession;
            },
            (Action::RemoveSession, Event::Performed) => {
                self.pending = Action::Finish;
            },
            _ => {},
        }
        self.pending
    }

    /// Goes on once both streams were read.
    fn streams_read(&mut self)
        ensures
            final(self)@ == (Watch { pending: old(self)@.after_streams(), ..old(self)@ }),
    {
        self.pending = if self.settled {
            Action::UnmountOverlay
        } else {
            Action::PollChild
        };
    }

    /// Goes on from what a look at the command found.
    fn child_seen(&mut self, status: ChildStatus)
        requires
            old(self)@.pending == Action::PollChild,
        ensures
            final(self)@ == old(self)@.after(Event::Status(status)),
    {
        match status {
            ChildStatus::Exited(code) => {
                self.exit_code = code;
                self.settled = true;
                self.pending = Action::ReadStdout;
            },
            ChildStatus::Signaled(signal) => {
                self.exit_code = SIGNAL_EXIT_BASE + signal as i32;
                self.settled = true;
                self.pending = Action::ReadStdout;
            },
            ChildStatus::StillAlive => {
                self.pending = Action::ReadClock;
            },
            ChildStatus::Unknown => {
                self.settled = true;
                self.pending = Action::ReadStdout;
            },
        }
    }

    /// Decides whether a command that still runs is to be killed.
    fn clock_read(&mut self, elapsed_ns: u128)
        requires
            old(self)@.pending == Action::ReadClock,
        ensures
            final(self)@ == old(self)@.after(Event::Elapsed(elapsed_ns)),
    {
        let timeout_ns: u128 = self.timeout_ms as u128 * 1_000_000;
        if elapsed_ns >= timeout_ns {
            self.timed_out = true;
            self.exit_code = TIMEOUT_EXIT_CODE;
            self.pending = Action::KillChild;
        } else if self.dry {
            self.pending = Action::Sleep;
        } else {
            self.dry = true;
            self.pending = Action::ReadStdout;
        }
    }

    /// The answer, as far as the watch has come.
    pub fn into_response(self, duration_us: u128) -> (response: ExecutionResponse)
        ensures
            response.exit_code == self@.exit_code,
            response.timed_out == self@.timed_out,
            response.stdout@ == lossy_text(self@.stdout),
            response.stderr@ == lossy_text(self@.stderr),
            vstd::utf8::valid_utf8(self@.stdout) ==> response.stdout@ == vstd::utf8::decode_utf8(
                self@.stdout,
            ),
            vstd::utf8::valid_utf8(self@.stderr) ==> response.stderr@ == vstd::utf8::decode_utf8(
                self@.stderr,
            ),
            !vstd::utf8::valid_utf8(self@.stdout) ==> response.stdout@.contains('\u{FFFD}'),
            !vstd::utf8::valid_utf8(self@.stderr) ==> response.stderr@.contains('\u{FFFD}'),
            response.duration_us == duration_us,
    {
        ExecutionResponse {
            exit_code: self.exit_code,
            timed_out: self.timed_out,
            stdout: self.stdout.text(),
            stderr: self.stderr.text(),
            duration_us,
        }
    }
}

/// Whatever happens, a command that ran out of time is answered with the exit code of a
/// timeout, and it is killed exactly while it is overdue and not yet gone.
pub proof fn law_every_watch_is_sound(session: u64, timeout_ms: u32, events: Seq<Event>)
    ensures
        Watch::begun(session, timeout_ms).after_all(events).sound(),
        Watch::begun(session, timeout_ms).after_all(events).timeout_ms == timeout_ms,
        Watch::begun(session, timeout_ms).after_all(events).session == session,
    decreases events.len(),
{
    if events.len() > 0 {
        law_every_watch_is_sound(session, timeout_ms, events.drop_last());
    }
}

/// A command is not killed before its time is over.
pub proof fn law_no_kill_before_the_deadline(watch: Watch, event: Event)
    requires
        !(watch.pending is KillChild),
        watch.after(event).pending is KillChild,
    ensures
        event matches Event::Elapsed(elapsed_ns) && time_is_over(elapsed_ns, watch.timeout_ms),
{
}

/// A command that still runs when its time is over is killed and waited for, and the
/// answer is a timeout.
pub proof fn law_overdue_command_is_killed(watch: Watch, elapsed_ns: u128)
    requires
        watch.pending is PollChild,
        time_is_over(elapsed_ns, watch.timeout_ms),
    ensures
        ({
            let seen = watch.after(Event::Status(ChildStatus::StillAlive));
            let overdue = seen.after(Event::Elapsed(elapsed_ns));
            let killed = overdue.after(Event::Performed);
            let gone = killed.after(Event::Performed);
            &&& overdue.pending is KillChild
            &&& killed.pending is ReapChild
            &&& gone == (Watch { timed_out: true, ..watch.settle(TIMEOUT_EXIT_CODE) })
        }),
{
}

/// A command that still runs before its time is over is left alone: its streams are read
/// again, at once if they gave something, and after a pause if they gave nothing.
pub proof fn law_running_command_is_left_alone(watch: Watch, elapsed_ns: u128)
    requires
        watch.pending is PollChild,
        !time_is_over(elapsed_ns, watch.timeout_ms),
    ensures
        ({
            let seen = watch.after(Event::Status(ChildStatus::StillAlive));
            let waiting = seen.after(Event::Elapsed(elapsed_ns));
            if watch.dry {
                waiting.pending is Sleep && waiting.after(Event::Performed) == watch.next_round()
            } else {
                waiting == watch.next_round()
            }
        }),
{
}

/// A command that never stops writing is killed when its time is over all the same,
/// whatever its two streams give.
pub proof fn law_endless_writer_is_killed(
    watch: Watch,
    out: Vec<u8>,
    err: Vec<u8>,
    elapsed_ns: u128,
)
    requires
        !watch.settled,
        watch.pending is ReadStdout,
        time_is_over(elapsed_ns, watch.timeout_ms),
    ensures
        ({
            let read = watch.after(Event::Read(out)).after(Event::Read(err));
            let seen = read.after(Event::Status(ChildStatus::StillAlive));
            let overdue = seen.after(Event::Elapsed(elapsed_ns));
            &&& read.pending is PollChild
            &&& overdue.pending is KillChild
            &&& overdue.timed_out
            &&& overdue.exit_code == TIMEOUT_EXIT_CODE
        }),
{
}

/// From every point of a watch over a command that is not settled, a few answers lead to
/// the next look at it, or to its end once it is overdue, whatever the answers are.
pub proof fn law_next_look_is_near(watch: Watch, events: Seq<Event>)
    requires
        watch.sound(),
        !watch.settled,
        watch.all_answered_by(events),
        events.len() >= watch.answers_to_next_look(),
    ensures
        watch.answers_to_next_look() <= 4,
        exists|i: int|
            0 <= i <= watch.answers_to_next_look() && {
                let reached = #[trigger] watch.after_all(events.take(i));
                reached.pending is PollChild || reached.settled
            },
    decreases watch.answers_to_next_look(),
{
    let n = watch.answers_to_next_look() as int;
    if n == 0 {
        assert(events.take(0) =~= Seq::<Event>::empty());
        assert(watch.after_all(events.take(0)) == watch);
    } else {
        let first = events[0];
        let rest = events.drop_first();
        let next = watch.after(first);
        lemma_answers_split(watch, events);
        if next.settled {
            lemma_first_event(watch, events, 1);
            assert(events.drop_first().take(0) =~= Seq::<Event>::empty());
            assert(watch.after_all(events.take(1)) == next);
        } else {
            law_next_look_is_near(next, rest);
            let i = choose|i: int|
                0 <= i <= next.answers_to_next_look() && {
                    let reached = #[trigger] next.after_all(rest.take(i));
                    reached.pending is PollChild || reached.settled
                };
            lemma_first_event(watch, events, i + 1);
            assert(watch.after_all(events.take(i + 1)) == next.after_all(rest.take(i)));
        }
    }
}

/// From every point of a watch over a command that still runs and whose time is over, a
/// few answers lead to its kill, whatever is read meanwhile.
pub proof fn law_deadline_is_kept(watch: Watch, events: Seq<Event>)
    requires
        watch.sound(),
        !watch.settled,
        !watch.timed_out,
        watch.all_answered_by(events),
        events.len() >= watch.answers_to_kill(),
        forall|i: int|
            0 <= i < events.len() ==> match #[trigger] events[i] {
                Event::Status(status) => status is StillAlive,
                Event::Elapsed(elapsed_ns) => time_is_over(elapsed_ns, watch.timeout_ms),
                _ => true,
            },
    ensures
        watch.answers_to_kill() <= 5,
        watch.after_all(events.take(watch.answers_to_kill() as int)).pending is KillChild,
    decreases watch.answers_to_kill(),
{
    let n = watch.answers_to_kill() as int;
    let first = events[0];
    let rest = events.drop_first();
    let next = watch.after(first);
    lemma_answers_split(watch, events);
    lemma_first_event(watch, events, n);
    if watch.pending is ReadClock {
        assert(rest.take(0) =~= Seq::<Event>::empty());
    } else {
        assert forall|i: int| 0 <= i < rest.len() implies match #[trigger] rest[i] {
            Event::Status(status) => status is StillAlive,
            Event::Elapsed(elapsed_ns) => time_is_over(elapsed_ns, next.timeout_ms),
            _ => true,
        } by {
            assert(rest[i] == events[i + 1]);
        }
        law_deadline_is_kept(next, rest);
    }
}

/// The state after some events is the one after the rest of them, from where the first
/// one leads.
proof fn lemma_first_event(watch: Watch, events: Seq<Event>, n: int)
    requires
        0 < n <= events.len(),
    ensures
        watch.after_all(events.take(n)) == watch.after(events[0]).after_all(
            events.drop_first().take(n - 1),
        ),
    decreases n,
{
    let head = events.take(n);
    let tail = events.drop_first().take(n - 1);
    assert(head.drop_last() =~= events.take(n - 1));
    if n == 1 {
        assert(head.drop_last() =~= Seq::<Event>::empty());
        assert(tail =~= Seq::<Event>::empty());
        assert(watch.after_all(head.drop_last()) == watch);
    } else {
        lemma_first_event(watch, events, n - 1);
        assert(tail.drop_last() =~= events.drop_first().take(n - 2));
        assert(tail.last() == head.last());
    }
}

/// If all events are answers, so is the first, and so are the others after it.
proof fn lemma_answers_split(watch: Watch, events: Seq<Event>)
    requires
        events.len() > 0,
        watch.all_answered_by(events),
    ensures
        watch.is_answered_by(events[0]),
        watch.after(events[0]).all_answered_by(events.drop_first()),
    decreases events.len(),
{
    let before = events.drop_last();
    if before.len() == 0 {
        assert(watch.after_all(before) == watch);
    } else {
        lemma_answers_split(watch, before);
        let n = before.len() as int;
        lemma_first_event(watch, events, n);
        assert(events.take(n) =~= before);
        assert(events.drop_first().take(n - 1) =~= events.drop_first().drop_last());
        assert(before.drop_first() =~= events.drop_first().drop_last());
        assert(before[0] == events[0]);
    }
}

/// Once a command is settled, each answer brings the watch closer to its end: it finishes
/// after a bounded number of them, even if something keeps writing to its streams.
pub proof fn law_settled_watch_is_bounded(watch: Watch, events: Seq<Event>)
    requires
        watch.sound(),
        watch.settled,
        watch.all_answered_by(events),
    ensures
        events.len() + watch.after_all(events).answers_to_finish() <= watch.answers_to_finish(),
        watch.answers_to_finish() <= 2 * MAX_OUTPUT_BYTES + 4,
        watch.after_all(events).answers_to_finish() == 0 <==> watch.after_all(
            events,
        ).pending is Finish,
    decreases events.len(),
{
    law_settled_is_settled(watch, events);
    if events.len() > 0 {
        law_settled_watch_is_bounded(watch, events.drop_last());
        law_settled_is_settled(watch, events.drop_last());
    }
}

/// An event that answers nothing changes nothing.
pub proof fn law_stray_event_changes_nothing(watch: Watch, event: Event)
    requires
        !watch.is_answered_by(event),
    ensures
        watch.after(event) == watch,
{
}

/// A watch that finished killed its command and waited for it exactly once if the command
/// ran out of time, and never otherwise.
pub proof fn law_one_kill_per_timeout(session: u64, timeout_ms: u32, events: Seq<Event>)
    requires
        Watch::begun(session, timeout_ms).after_all(events).pending is Finish,
    ensures
        ({
            let begun = Watch::begun(session, timeout_ms);
            let times: nat = if begun.after_all(events).timed_out {
                1
            } else {
                0
            };
            &&& begun.times_performed(events, Action::KillChild) == times
            &&& begun.times_performed(events, Action::ReapChild) == times
        }),
{
    law_every_watch_is_sound(session, timeout_ms, events);
    lemma_kills_so_far(session, timeout_ms, events);
}

/// At every point, an overdue command was killed unless that is pending, and waited for
/// unless that is still to come.
proof fn lemma_kills_so_far(session: u64, timeout_ms: u32, events: Seq<Event>)
    ensures
        ({
            let begun = Watch::begun(session, timeout_ms);
            let now = begun.after_all(events);
            let killed: nat = if now.timed_out && !(now.pending is KillChild) {
                1
            } else {
                0
            };
            let reaped: nat = if now.timed_out && now.settled {
                1
            } else {
                0
            };
            &&& begun.times_performed(events, Action::KillChild) == killed
            &&& begun.times_performed(events, Action::ReapChild) == reaped
        }),
    decreases events.len(),
{
    law_every_watch_is_sound(session, timeout_ms, events);
    if events.len() > 0 {
        law_every_watch_is_sound(session, timeout_ms, events.drop_last());
        lemma_kills_so_far(session, timeout_ms, events.drop_last());
    }
}

/// Once it is settled how a command ended, nothing changes that.
pub proof fn law_settled_is_settled(watch: Watch, events: Seq<Event>)
    requires
        watch.sound(),
        watch.settled,
    ensures
        watch.after_all(events).sound(),
        watch.after_all(events).settled,
        watch.after_all(events).exit_code == watch.exit_code,
        watch.after_all(events).timed_out == watch.timed_out,
    decreases events.len(),
{
    if events.len() > 0 {
        law_settled_is_settled(watch, events.drop_last());
    }
}

/// A command that ended by itself is answered with its own exit code, or with the code of
/// the signal that ended it, and not as a timeout, whatever follows.
pub proof fn law_exit_code_is_reported(watch: Watch, status: ChildStatus, events: Seq<Event>)
    requires
        watch.sound(),
        watch.pending is PollChild,
        !(status is StillAlive),
    ensures
        ({
            let answer = watch.after(Event::Status(status)).after_all(events);
            &&& !answer.timed_out
            &&& answer.exit_code == match status {
                ChildStatus::Exited(code) => code as int,
                ChildStatus::Signaled(signal) => SIGNAL_EXIT_BASE + signal,
                _ => 0,
            }
        }),
{
    law_settled_is_settled(watch.after(Event::Status(status)), events);
}

/// The answer holds, of each stream, what is kept of the pieces that were read from it.
pub proof fn law_output_is_what_was_read(session: u64, timeout_ms: u32, events: Seq<Event>)
    ensures
        ({
            let begun = Watch::begun(session, timeout_ms);
            &&& begun.after_all(events).stdout == retained_all(begun.stdout_chunks(events))
            &&& begun.after_all(events).stderr == retained_all(begun.stderr_chunks(events))
        }),
    decreases events.len(),
{
    if events.len() > 0 {
        let begun = Watch::begun(session, timeout_ms);
        let before = events.drop_last();
        law_output_is_what_was_read(session, timeout_ms, before);
        if let Event::Read(chunk) = events.last() {
            assert(begun.stdout_chunks(before).push(chunk@).drop_last()
                =~= begun.stdout_chunks(before));
            assert(begun.stderr_chunks(before).push(chunk@).drop_last()
                =~= begun.stderr_chunks(before));
        }
    }
}

/// A watch that gives its answer has cleared its own session, once, and nothing else: it
/// detached the merged tree of the session and then removed the directory of the session,
/// however the command ended.
pub proof fn law_watch_clears_its_own_session(session: u64, timeout_ms: u32, events: Seq<Event>)
    requires
        Watch::begun(session, timeout_ms).after_all(events).pending is Finish,
    ensures
        Watch::begun(session, timeout_ms).cleared(events) == seq![
            merged_of(session),
            root_of(session),
        ],
{
    lemma_cleared_so_far(session, timeout_ms, events);
}

/// At every point, what was cleared is what is no longer to come.
proof fn lemma_cleared_so_far(session: u64, timeout_ms: u32, events: Seq<Event>)
    ensures
        ({
            let begun = Watch::begun(session, timeout_ms);
            begun.cleared(events) == match begun.after_all(events).pending {
                Action::RemoveSession => seq![merged_of(session)],
                Action::Finish => seq![merged_of(session), root_of(session)],
                _ => Seq::empty(),
            }
        }),
    decreases events.len(),
{
    if events.len() > 0 {
        let before = events.drop_last();
        law_every_watch_is_sound(session, timeout_ms, before);
        lemma_cleared_so_far(session, timeout_ms, before);
        let none = Seq::<Seq<char>>::empty();
        assert(none.push(merged_of(session)) =~= seq![merged_of(session)]);
        assert(seq![merged_of(session)].push(root_of(session)) =~= seq![
            merged_of(session),
            root_of(session),
        ]);
    }
}

/// Sandbox number `n` of a new counter, counted from one, uses the directory that ends in
/// `n` and no other, and has cleared it when its answer is given, however its command
/// ended.
pub proof fn law_nth_sandbox_clears_directory_n(n: u64, timeout_ms: u32, events: Seq<Event>)
    requires
        n >= 1,
        Watch::begun(counter_after(1, (n - 1) as nat), timeout_ms).after_all(
            events,
        ).pending is Finish,
    ensures
        ({
            let directory = "/tmp/forkbox_sess_"@ + decimal(n as nat);
            Watch::begun(counter_after(1, (n - 1) as nat), timeout_ms).cleared(events) == seq![
                directory + "/merged"@,
                directory,
            ]
        }),
{
    law_sessions_are_numbered_in_order(n);
    law_watch_clears_its_own_session(n, timeout_ms, events);
}

/// What a watch clears lies in no other session: each path is the directory of its own
/// session or lies in it, and neither is one of another session's.
pub proof fn law_watch_clears_no_other_session(
    session: u64,
    timeout_ms: u32,
    events: Seq<Event>,
    other: u64,
    inside: Seq<char>,
)
    requires
        Watch::begun(session, timeout_ms).after_all(events).pending is Finish,
        other != session,
    ensures
        forall|i: int|
            0 <= i < Watch::begun(session, timeout_ms).cleared(events).len() ==> {
                let path = #[trigger] Watch::begun(session, timeout_ms).cleared(events)[i];
                path != root_of(other) && path != root_of(other) + seq!['/'] + inside
            },
{
    law_watch_clears_its_own_session(session, timeout_ms, events);
    law_sessions_share_no_path(session, other, Seq::empty(), inside);
    reveal_strlit("/merged");
    let rest = "/merged"@.drop_first();
    assert("/merged"@ =~= seq!['/'] + rest);
    assert(merged_of(session) =~= root_of(session) + seq!['/'] + rest);
    law_sessions_share_no_path(session, other, rest, inside);
    law_directory_lies_in_no_session(session, other, inside);
    law_directory_lies_in_no_session(other, session, rest);
}

/// No answer is given before the merged file system was detached and then the directory
/// of the session removed.
pub proof fn law_no_answer_before_cleanup(session: u64, timeout_ms: u32, events: Seq<Event>)
    requires
        Watch::begun(session, timeout_ms).after_all(events).pending is Finish,
    ensures
        exists|i: int, j: int|
            i < j && #[trigger] Watch::begun(session, timeout_ms).performs(
                events,
                i,
                Action::UnmountOverlay,
            ) && #[trigger] Watch::begun(session, timeout_ms).performs(events, j, Action::RemoveSession),
    decreases events.len(),
{
    let begun = Watch::begun(session, timeout_ms);
    let before = events.drop_last();
    let last = events.len() - 1;
    assert(events.take(last) =~= before);
    if begun.after_all(before).pending is Finish {
        law_no_answer_before_cleanup(session, timeout_ms, before);
        let (i, j) = choose|i: int, j: int|
            i < j && #[trigger] begun.performs(before, i, Action::UnmountOverlay)
                && #[trigger] begun.performs(before, j, Action::RemoveSession);
        assert(before.take(i) =~= events.take(i));
        assert(before.take(j) =~= events.take(j));
        assert(begun.performs(events, i, Action::UnmountOverlay));
        assert(begun.performs(events, j, Action::RemoveSession));
    } else {
        lemma_removal_follows_unmount(session, timeout_ms, before);
        let i = choose|i: int| #[trigger] begun.performs(before, i, Action::UnmountOverlay);
        assert(before.take(i) =~= events.take(i));
        assert(begun.performs(events, i, Action::UnmountOverlay));
        assert(begun.performs(events, last, Action::RemoveSession));
    }
}

/// The directory of a session is removed only after the file system was detached.
proof fn lemma_removal_follows_unmount(session: u64, timeout_ms: u32, events: Seq<Event>)
    requires
        Watch::begun(session, timeout_ms).after_all(events).pending is RemoveSession,
    ensures
        exists|i: int|
            #[trigger] Watch::begun(session, timeout_ms).performs(events, i, Action::UnmountOverlay),
    decreases events.len(),
{
    let begun = Watch::begun(session, timeout_ms);
    let before = events.drop_last();
    let last = events.len() - 1;
    assert(events.take(last) =~= before);
    if begun.after_all(before).pending is RemoveSession {
        lemma_removal_follows_unmount(session, timeout_ms, before);
        let i = choose|i: int| #[trigger] begun.performs(before, i, Action::UnmountOverlay);
        assert(before.take(i) =~= events.take(i));
        assert(begun.performs(events, i, Action::UnmountOverlay));
    } else {
        assert(begun.performs(events, last, Action::UnmountOverlay));
    }
}

/// After a command is settled, nothing is cleared away before its output, and then its
/// error output, gave no more, or more than is kept.
pub proof fn law_streams_are_drained_before_cleanup(watch: Watch, events: Seq<Event>)
    requires
        watch.settled,
        watch.pending is ReadStdout,
        ({
            let pending = watch.after_all(events).pending;
            pending is UnmountOverlay || pending is RemoveSession || pending is Finish
        }),
    ensures
        exists|i: int, j: int|
            i < j && #[trigger] watch.ends_stream(events, i, Action::ReadStdout)
                && #[trigger] watch.ends_stream(events, j, Action::ReadStderr),
    decreases events.len(),
{
    let before = events.drop_last();
    let last = events.len() - 1;
    assert(events.take(last) =~= before);
    let pending = watch.after_all(before).pending;
    lemma_settled_watch_only_reads_and_clears(watch, before);
    if pending is ReadStderr {
        lemma_error_output_follows_output(watch, before);
        let i = choose|i: int| #[trigger] watch.ends_stream(before, i, Action::ReadStdout);
        assert(before.take(i) =~= events.take(i));
        assert(watch.ends_stream(events, i, Action::ReadStdout));
        assert(watch.ends_stream(events, last, Action::ReadStderr));
    } else {
        law_streams_are_drained_before_cleanup(watch, before);
        let (i, j) = choose|i: int, j: int|
            i < j && #[trigger] watch.ends_stream(before, i, Action::ReadStdout)
                && #[trigger] watch.ends_stream(before, j, Action::ReadStderr);
        assert(before.take(i) =~= events.take(i));
        assert(before.take(j) =~= events.take(j));
        assert(watch.ends_stream(events, i, Action::ReadStdout));
        assert(watch.ends_stream(events, j, Action::ReadStderr));
    }
}

/// Once a command is settled, its streams are read and all is cleared away: nothing else.
proof fn lemma_settled_watch_only_reads_and_clears(watch: Watch, events: Seq<Event>)
    requires
        watch.settled,
        watch.pending is ReadStdout,
    ensures
        watch.after_all(events).settled,
        ({
            let pending = watch.after_all(events).pending;
            pending is ReadStdout || pending is ReadStderr || pending is UnmountOverlay
                || pending is RemoveSession || pending is Finish
        }),
    decreases events.len(),
{
    if events.len() > 0 {
        lemma_settled_watch_only_reads_and_clears(watch, events.drop_last());
    }
}

/// The error output of a settled command is read once its output is done with.
proof fn lemma_error_output_follows_output(watch: Watch, events: Seq<Event>)
    requires
        watch.settled,
        watch.pending is ReadStdout,
        watch.after_all(events).pending is ReadStderr,
    ensures
        exists|i: int| #[trigger] watch.ends_stream(events, i, Action::ReadStdout),
    decreases events.len(),
{
    let before = events.drop_last();
    let last = events.len() - 1;
    assert(events.take(last) =~= before);
    lemma_settled_watch_only_reads_and_clears(watch, before);
    if watch.after_all(before).pending is ReadStderr {
        lemma_error_output_follows_output(watch, before);
        let i = choose|i: int| #[trigger] watch.ends_stream(before, i, Action::ReadStdout);
        assert(before.take(i) =~= events.take(i));
        assert(watch.ends_stream(events, i, Action::ReadStdout));
    } else {
        assert(watch.ends_stream(events, last, Action::ReadStdout));
    }
}

/// However much a command writes, what is kept of each stream passes the limit by less
/// than one piece.
pub proof fn law_kept_streams_are_bounded(session: u64, timeout_ms: u32, events: Seq<Event>)
    requires
        forall|i: int|
            0 <= i < events.len() ==> (#[trigger] events[i] matches Event::Read(chunk)
                ==> chunk@.len() <= READ_CHUNK_BYTES),
    ensures
        Watch::begun(session, timeout_ms).after_all(events).stdout.len() < MAX_OUTPUT_BYTES
            + READ_CHUNK_BYTES,
        Watch::begun(session, timeout_ms).after_all(events).stderr.len() < MAX_OUTPUT_BYTES
            + READ_CHUNK_BYTES,
{
    let begun = Watch::begun(session, timeout_ms);
    lemma_chunks_are_events(begun, events);
    law_output_is_what_was_read(session, timeout_ms, events);
    law_kept_output_is_bounded(begun.stdout_chunks(events));
    law_kept_output_is_bounded(begun.stderr_chunks(events));
}

/// If no event reads more than a piece, the pieces read are no larger.
proof fn lemma_chunks_are_events(watch: Watch, events: Seq<Event>)
    requires
        forall|i: int|
            0 <= i < events.len() ==> (#[trigger] events[i] matches Event::Read(chunk)
                ==> chunk@.len() <= READ_CHUNK_BYTES),
    ensures
        forall|i: int|
            0 <= i < watch.stdout_chunks(events).len() ==> (#[trigger] watch.stdout_chunks(
                events,
            )[i]).len() <= READ_CHUNK_BYTES,
        forall|i: int|
            0 <= i < watch.stderr_chunks(events).len() ==> (#[trigger] watch.stderr_chunks(
                events,
            )[i]).len() <= READ_CHUNK_BYTES,
    decreases events.len(),
{
    if events.len() > 0 {
        let before = events.drop_last();
        assert forall|i: int| 0 <= i < before.len() implies (#[trigger] before[i] matches Event::Read(
            chunk,
        ) ==> chunk@.len() <= READ_CHUNK_BYTES) by {
            assert(before[i] == events[i]);
        }
        lemma_chunks_are_events(watch, before);
        assert(events.last() == events[events.len() - 1]);
        assert forall|i: int| 0 <= i < watch.stdout_chunks(events).len() implies (
        #[trigger] watch.stdout_chunks(events)[i]).len() <= READ_CHUNK_BYTES by {
            let earlier = watch.stdout_chunks(before);
            if i < earlier.len() {
                assert(watch.stdout_chunks(events)[i] == earlier[i]);
            }
        }
        assert forall|i: int| 0 <= i < watch.stderr_chunks(events).len() implies (
        #[trigger] watch.stderr_chunks(events)[i]).len() <= READ_CHUNK_BYTES by {
            let earlier = watch.stderr_chunks(before);
            if i < earlier.len() {
                assert(watch.stderr_chunks(events)[i] == earlier[i]);
            }
        }
    }
}

/// Once a command is settled and its streams give no more, the watch clears up and
/// finishes.
pub proof fn law_settled_watch_finishes(watch: Watch)
    requires
        watch.settled,
        watch.pending is ReadStdout,
    ensures
        ({
            let read = watch.after(Event::ReadFailed).after(Event::ReadFailed);
            let detached = read.after(Event::Performed);
            &&& read.pending is UnmountOverlay
            &&& detached.pending is RemoveSession
            &&& detached.after(Event::Performed) == (Watch { pending: Action::Finish, ..watch })
        }),
{
}

/// The watch begins with nothing read, nothing settled and the exit code of success, over
/// the session and with the time that it was given; and it keeps these two, whatever
/// happens.
pub proof fn law_watch_keeps_what_it_was_given(session: u64, timeout_ms: u32, events: Seq<Event>)
    ensures
        Watch::begun(session, timeout_ms) == (Watch {
            session,
            pending: Action::ReadStdout,
            settled: false,
            dry: true,
            timeout_ms,
            timed_out: false,
            exit_code: 0,
            stdout: Seq::empty(),
            stderr: Seq::empty(),
        }),
        Watch::begun(session, timeout_ms).after_all(events).session == session,
        Watch::begun(session, timeout_ms).after_all(events).timeout_ms == timeout_ms,
    decreases events.len(),
{
    if events.len() > 0 {
        law_watch_keeps_what_it_was_given(session, timeout_ms, events.drop_last());
    }
}

/// The numbers of the watch: 124 stands for a command that ran out of time, a signal is
/// counted from 128, and the watch sleeps for 200 microseconds.
pub proof fn law_numbers_of_the_watch()
    ensures
        TIMEOUT_EXIT_CODE == 124,
        SIGNAL_EXIT_BASE == 128,
        POLL_INTERVAL_US == 200,
{
}

/// A command that still runs is killed exactly if as many whole milliseconds have passed as
/// it was given. It is then answered as out of time, with the exit code 124. Otherwise the
/// watch goes on: it sleeps if the streams gave nothing, reads them again if they did, and
/// nothing else is changed.
pub proof fn law_time_is_over_in_milliseconds(watch: Watch, elapsed_ns: u128)
    requires
        watch.pending is ReadClock,
    ensures
        ({
            let next = watch.after(Event::Elapsed(elapsed_ns));
            let overdue = elapsed_ns as int / 1_000_000 >= watch.timeout_ms as int;
            &&& next.pending is KillChild <==> overdue
            &&& overdue ==> next == (Watch {
                pending: Action::KillChild,
                timed_out: true,
                exit_code: 124,
                ..watch
            })
            &&& !overdue && watch.dry ==> next == (Watch { pending: Action::Sleep, ..watch })
            &&& !overdue && !watch.dry ==> next == (Watch {
                pending: Action::ReadStdout,
                dry: true,
                ..watch
            })
        }),
{
}

/// Of a watch from its start on: the command's time is over exactly if as many whole
/// milliseconds have passed as the watch was begun with, whatever happened before.
pub proof fn law_deadline_is_the_one_given(
    session: u64,
    timeout_ms: u32,
    events: Seq<Event>,
    elapsed_ns: u128,
)
    requires
        Watch::begun(session, timeout_ms).after_all(events).pending is ReadClock,
    ensures
        Watch::begun(session, timeout_ms).after_all(
            events.push(Event::Elapsed(elapsed_ns)),
        ).pending is KillChild <==> elapsed_ns as int / 1_000_000 >= timeout_ms as int,
{
    let all = events.push(Event::Elapsed(elapsed_ns));
    law_watch_keeps_what_it_was_given(session, timeout_ms, events);
    assert(all.drop_last() =~= events);
}

/// Nothing but the clock, read when the command's time is over, gets a command killed or
/// answered as out of time.
pub proof fn law_only_the_clock_kills(watch: Watch, event: Event)
    requires
        !(watch.pending is KillChild),
        watch.after(event).pending is KillChild || watch.after(event).timed_out
            != watch.timed_out,
    ensures
        watch.pending is ReadClock,
        event matches Event::Elapsed(ns) && ns as int / 1_000_000 >= watch.timeout_ms as int,
{
}

/// What a look at the command finds decides its exit code: its own if it exited, 128 and
/// the signal's number if a signal ended it, and the code known so far if nothing more can
/// be found out. In each of these cases what is left of the output is read next; a command
/// that still runs is held against the clock.
pub proof fn law_status_decides_the_exit_code(watch: Watch, status: ChildStatus)
    requires
        watch.pending is PollChild,
    ensures
        ({
            let next = watch.after(Event::Status(status));
            match status {
                ChildStatus::Exited(code) => next == (Watch {
                    pending: Action::ReadStdout,
                    settled: true,
                    exit_code: code,
                    ..watch
                }),
                ChildStatus::Signaled(signal) => {
                    &&& next.exit_code == 128 + signal
                    &&& next == (Watch {
                        pending: Action::ReadStdout,
                        settled: true,
                        exit_code: next.exit_code,
                        ..watch
                    })
                },
                ChildStatus::StillAlive => next == (Watch { pending: Action::ReadClock, ..watch }),
                ChildStatus::Unknown => next == (Watch {
                    pending: Action::ReadStdout,
                    settled: true,
                    ..watch
                }),
            }
        }),
{
}

/// However a command comes to be settled, its output is read next: the step that settles it
/// leaves standard output to be read, and what was read so far stays.
pub proof fn law_settling_leaves_the_output_to_read(watch: Watch, event: Event)
    requires
        !watch.settled,
        watch.after(event).settled,
    ensures
        watch.after(event).pending is ReadStdout,
        watch.after(event).stdout == watch.stdout,
        watch.after(event).stderr == watch.stderr,
{
}

/// A piece that is read of a stream goes to that stream: all of it, after what is kept
/// already, while that is less than 256 KB, and none of it otherwise. The other stream stays
/// as it is. Output is followed by error output, and that by a look at the command; once
/// the command is settled, a stream is read again until 256 KB of it are kept, and what
/// follows is the clearing away.
pub proof fn law_piece_goes_to_its_stream(watch: Watch, chunk: Vec<u8>)
    requires
        chunk@.len() > 0,
        watch.pending is ReadStdout || watch.pending is ReadStderr,
    ensures
        ({
            let next = watch.after(Event::Read(chunk));
            let is_output = watch.pending is ReadStdout;
            let kept = if is_output {
                watch.stdout
            } else {
                watch.stderr
            };
            let now_kept = if kept.len() < 262144 {
                kept + chunk@
            } else {
                kept
            };
            let again = watch.settled && now_kept.len() < 262144;
            &&& is_output ==> next == (Watch {
                pending: if again {
                    Action::ReadStdout
                } else {
                    Action::ReadStderr
                },
                dry: false,
                stdout: now_kept,
                ..watch
            })
            &&& !is_output ==> next == (Watch {
                pending: if again {
                    Action::ReadStderr
                } else if watch.settled {
                    Action::UnmountOverlay
                } else {
                    Action::PollChild
                },
                dry: false,
                stderr: now_kept,
                ..watch
            })
        }),
{
}

/// A stream that gives nothing changes nothing of what is kept: the watch goes on with the
/// next stream, or with the command, or with the clearing away once the command is settled.
pub proof fn law_empty_read_goes_on(watch: Watch, event: Event)
    requires
        watch.pending is ReadStdout || watch.pending is ReadStderr,
        event is ReadFailed || (event matches Event::Read(chunk) && chunk@.len() == 0),
    ensures
        watch.after(event) == (Watch {
            pending: if watch.pending is ReadStdout {
                Action::ReadStderr
            } else if watch.settled {
                Action::UnmountOverlay
            } else {
                Action::PollChild
            },
            ..watch
        }),
{
}

/// What was done leads on: a killed command is waited for and is then settled, sleep ends
/// in the next reading, and the merged tree is detached before the session is removed, with
/// which the watch ends. Nothing else is changed.
pub proof fn law_what_was_done_leads_on(watch: Watch)
    ensures
        ({
            let next = watch.after(Event::Performed);
            match watch.pending {
                Action::KillChild => next == (Watch { pending: Action::ReapChild, ..watch }),
                Action::ReapChild => next == (Watch {
                    pending: Action::ReadStdout,
                    settled: true,
                    ..watch
                }),
                Action::Sleep => next == (Watch {
                    pending: Action::ReadStdout,
                    dry: true,
                    ..watch
                }),
                Action::UnmountOverlay => next == (Watch {
                    pending: Action::RemoveSession,
                    ..watch
                }),
                Action::RemoveSession => next == (Watch { pending: Action::Finish, ..watch }),
                _ => next == watch,
            }
        }),
{
}

/// An event of another sort than the pending action has changes nothing, and after the end
/// nothing changes any more.
pub proof fn law_other_events_change_nothing(watch: Watch, event: Event)
    requires
        match event {
            Event::Read(_) | Event::ReadFailed => !(watch.pending is ReadStdout)
                && !(watch.pending is ReadStderr),
            Event::Status(_) => !(watch.pending is PollChild),
            Event::Elapsed(_) => !(watch.pending is ReadClock),
            Event::Performed => watch.pending is ReadStdout || watch.pending is ReadStderr
                || watch.pending is PollChild || watch.pending is ReadClock
                || watch.pending is Finish,
        },
    ensures
        watch.after(event) == watch,
{
}

/// The merged tree that is detached and the directory that is removed are named after the
/// session; no other action works on a path.
pub proof fn law_watch_works_on_its_session(watch: Watch)
    ensures
        watch.pending is UnmountOverlay ==> watch.target() == Some(
            "/tmp/forkbox_sess_"@ + decimal(watch.session as nat) + "/merged"@,
        ),
        watch.pending is RemoveSession ==> watch.target() == Some(
            "/tmp/forkbox_sess_"@ + decimal(watch.session as nat),
        ),
        !(watch.pending is UnmountOverlay) && !(watch.pending is RemoveSession)
            ==> watch.target() is None,
{
}

/// The watch after some events is that after the first `n` of them, and then after the rest.
proof fn lemma_events_split(watch: Watch, events: Seq<Event>, n: int)
    requires
        0 <= n <= events.len(),
    ensures
        watch.after_all(events) == watch.after_all(events.take(n)).after_all(events.skip(n)),
    decreases events.len(),
{
    if n == events.len() {
        assert(events.take(n) =~= events);
    } else {
        let before = events.drop_last();
        lemma_events_split(watch, before, n);
        assert(before.take(n) =~= events.take(n));
        assert(before.skip(n) =~= events.skip(n).drop_last());
        assert(events.skip(n).last() == events.last());
    }
}

/// A watch that is settled was settled by one of the events, and left standard output to be
/// read at that point.
proof fn lemma_some_event_settled_it(watch: Watch, events: Seq<Event>) -> (s: int)
    requires
        !watch.settled,
        watch.after_all(events).settled,
    ensures
        0 <= s < events.len(),
        !watch.after_all(events.take(s)).settled,
        watch.after_all(events.take(s + 1)).settled,
        watch.after_all(events.take(s + 1)).pending is ReadStdout,
    decreases events.len(),
{
    let before = events.drop_last();
    let last = events.len() - 1;
    assert(events.take(last) =~= before);
    assert(events.take(last + 1) =~= events);
    if watch.after_all(before).settled {
        let s = lemma_some_event_settled_it(watch, before);
        assert(before.take(s) =~= events.take(s));
        assert(before.take(s + 1) =~= events.take(s + 1));
        s
    } else {
        law_settling_leaves_the_output_to_read(watch.after_all(before), events.last());
        last
    }
}

/// The watch at event number `n + a` is that at event number `a` of those from `n` on.
proof fn lemma_later_events(watch: Watch, events: Seq<Event>, n: int, a: int)
    requires
        0 <= n,
        0 <= a,
        n + a < events.len(),
    ensures
        watch.after_all(events.take(n + a)) == watch.after_all(events.take(n)).after_all(
            events.skip(n).take(a),
        ),
        events[n + a] == events.skip(n)[a],
{
    lemma_events_split(watch, events.take(n + a), n);
    assert(events.take(n + a).take(n) =~= events.take(n));
    assert(events.take(n + a).skip(n) =~= events.skip(n).take(a));
}

/// Every watch that came to its end, or only to the clearing away, was settled by some
/// event, here the first of three; after that one came an event that ended standard output,
/// and after this one an event that ended standard error: a failed read, one that gave
/// nothing, or one after which 256 KB are kept.
pub proof fn law_no_answer_before_both_streams_end(
    session: u64,
    timeout_ms: u32,
    events: Seq<Event>,
) -> (at: (int, int, int))
    requires
        ({
            let pending = Watch::begun(session, timeout_ms).after_all(events).pending;
            pending is UnmountOverlay || pending is RemoveSession || pending is Finish
        }),
    ensures
        ({
            let (s, i, j) = at;
            let begun = Watch::begun(session, timeout_ms);
            let at_output = begun.after_all(events.take(i));
            let at_errors = begun.after_all(events.take(j));
            &&& 0 <= s < i < j < events.len()
            &&& !begun.after_all(events.take(s)).settled
            &&& begun.after_all(events.take(s + 1)).settled
            &&& at_output.pending is ReadStdout
            &&& at_errors.pending is ReadStderr
            &&& match events[i] {
                Event::ReadFailed => true,
                Event::Read(chunk) => chunk@.len() == 0 || at_output.stdout.len() + chunk@.len()
                    >= 262144,
                _ => false,
            }
            &&& match events[j] {
                Event::ReadFailed => true,
                Event::Read(chunk) => chunk@.len() == 0 || at_errors.stderr.len() + chunk@.len()
                    >= 262144,
                _ => false,
            }
        }),
{
    let begun = Watch::begun(session, timeout_ms);
    law_every_watch_is_sound(session, timeout_ms, events);
    let s = lemma_some_event_settled_it(begun, events);
    let settled = begun.after_all(events.take(s + 1));
    let rest = events.skip(s + 1);
    lemma_events_split(begun, events, s + 1);
    law_streams_are_drained_before_cleanup(settled, rest);
    let (a, b) = choose|a: int, b: int|
        a < b && #[trigger] settled.ends_stream(rest, a, Action::ReadStdout)
            && #[trigger] settled.ends_stream(rest, b, Action::ReadStderr);
    lemma_later_events(begun, events, s + 1, a);
    lemma_later_events(begun, events, s + 1, b);
    (s, s + 1 + a, s + 1 + b)
}

} // verus!
