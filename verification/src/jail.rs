//! The steps by which a started process locks itself in before it runs its command.
use vstd::prelude::*;

use crate::namespaces::Outcome;
use crate::session::{merged_of, root_of, upper_of, work_of, SessionPaths};
use crate::text::decimal;

verus! {

/// How long a command may keep the processor, in seconds.
pub const MAX_CPU_SECONDS: u64 = 5;

/// How many processes a command may have.
pub const MAX_PROCESSES: u64 = 64;

/// The exit code of a sandbox that could not become root in a namespace of users.
pub const USER_NAMESPACE_EXIT_CODE: i32 = 101;

/// The exit code of a sandbox that could not leave the host's other namespaces.
pub const UNSHARE_EXIT_CODE: i32 = 102;

/// The exit code of a sandbox that could not get a file system of its own.
pub const FILE_SYSTEM_EXIT_CODE: i32 = 103;

/// The exit code of a sandbox that the kernel refused the system call filter.
pub const FILTER_EXIT_CODE: i32 = 104;

/// The exit code of a sandbox whose command could not be run.
pub const EXEC_EXIT_CODE: i32 = 127;

/// What a sandbox does next.
#[derive(Clone, Copy, Debug, PartialEq, Eq, Structural)]
pub enum Step {
    /// Let the two output streams go to the watch.
    RedirectOutput,
    /// Become root in a namespace of users.
    EnterUserNamespace,
    /// Leave the host's other namespaces.
    Unshare,
    /// Keep what is mounted from now on from the host.
    MakeMountsPrivate,
    /// Mount a file system in memory over the directory of the session.
    MountMemory,
    /// Make the directories of the session in it.
    MakeDirectories,
    /// Mount the overlay over the host's files, so that writes go to memory.
    MountOverlay,
    /// Take the merged tree for the whole of the file system.
    ChangeRoot,
    /// Go to the top of it.
    ChangeDirectory,
    /// Limit the time on the processor to `MAX_CPU_SECONDS`.
    LimitCpu,
    /// Limit the number of processes to `MAX_PROCESSES`.
    LimitProcesses,
    /// Put the system call filter in force.
    InstallFilter,
    /// Become the shell that runs the command.
    Exec,
    /// Write the report, if there is one, and end with this exit code.
    Exit(i32),
}

/// The state of a sandbox before its command runs.
pub struct Confinement {
    /// The number of the session that the sandbox belongs to.
    pub session: u64,
    /// What is done next.
    pub step: Step,
    /// What is to be written to standard error before the sandbox ends.
    pub report: Option<Seq<char>>,
}

/// The path that a step of a sandbox of this session works on, if it works on one.
pub open spec fn target_of(step: Step, session: u64) -> Option<Seq<char>> {
    match step {
        Step::MakeMountsPrivate => Some("/"@),
        Step::MountMemory => Some(root_of(session)),
        Step::MountOverlay => Some(merged_of(session)),
        Step::ChangeRoot => Some(merged_of(session)),
        Step::ChangeDirectory => Some("/"@),
        _ => None,
    }
}

impl Confinement {
    /// The state of a process that was just started for this session.
    pub open spec fn begun(session: u64) -> Confinement {
        Confinement { session, step: Step::RedirectOutput, report: None }
    }

    /// The sandbox goes on with this step.
    pub open spec fn at(self, step: Step) -> Confinement {
        Confinement { step, report: None, ..self }
    }

    /// The sandbox ends with this report.
    pub open spec fn ended(self, exit_code: i32, report: Seq<char>) -> Confinement {
        Confinement {
            step: Step::Exit(exit_code),
            report: Some("[Sandbox Error] "@ + report),
            ..self
        }
    }

    /// The path that the pending step works on, if it works on one.
    pub open spec fn target(self) -> Option<Seq<char>> {
        target_of(self.step, self.session)
    }

    /// The state after the pending step had this outcome. A sandbox that does not get its
    /// namespaces, a file system of its own or its system call filter ends; the other
    /// steps are tried and not insisted on.
    pub open spec fn after(self, outcome: Outcome) -> Confinement {
        match (self.step, outcome) {
            (Step::RedirectOutput, _) => self.at(Step::EnterUserNamespace),
            (Step::EnterUserNamespace, Outcome::Done) => self.at(Step::Unshare),
            (Step::EnterUserNamespace, Outcome::Failed(reason)) => self.ended(
                USER_NAMESPACE_EXIT_CODE,
                reason@,
            ),
            (Step::Unshare, Outcome::Done) => self.at(Step::MakeMountsPrivate),
            (Step::Unshare, Outcome::Failed(reason)) => self.ended(
                UNSHARE_EXIT_CODE,
                "unshare: "@ + reason@,
            ),
            (Step::MakeMountsPrivate, _) => self.at(Step::MountMemory),
            (Step::MountMemory, Outcome::Done) => self.at(Step::MakeDirectories),
            (Step::MountMemory, Outcome::Failed(reason)) => self.ended(
                FILE_SYSTEM_EXIT_CODE,
                "tmpfs: "@ + reason@,
            ),
            (Step::MakeDirectories, Outcome::Done) => self.at(Step::MountOverlay),
            (Step::MakeDirectories, Outcome::Failed(reason)) => self.ended(
                FILE_SYSTEM_EXIT_CODE,
                "mkdir: "@ + reason@,
            ),
            (Step::MountOverlay, Outcome::Done) => self.at(Step::ChangeRoot),
            (Step::MountOverlay, Outcome::Failed(reason)) => self.ended(
                FILE_SYSTEM_EXIT_CODE,
                "overlay: "@ + reason@,
            ),
            (Step::ChangeRoot, Outcome::Done) => self.at(Step::ChangeDirectory),
            (Step::ChangeRoot, Outcome::Failed(reason)) => self.ended(
                FILE_SYSTEM_EXIT_CODE,
                "chroot: "@ + reason@,
            ),
            (Step::ChangeDirectory, Outcome::Done) => self.at(Step::LimitCpu),
            (Step::ChangeDirectory, Outcome::Failed(reason)) => self.ended(
                FILE_SYSTEM_EXIT_CODE,
                "chdir: "@ + reason@,
            ),
            (Step::LimitCpu, _) => self.at(Step::LimitProcesses),
            (Step::LimitProcesses, _) => self.at(Step::InstallFilter),
            (Step::InstallFilter, Outcome::Done) => self.at(Step::Exec),
            (Step::InstallFilter, Outcome::Failed(reason)) => self.ended(
                FILTER_EXIT_CODE,
                reason@,
            ),
            (Step::Exec, _) => self.at(Step::Exit(EXEC_EXIT_CODE)),
            (Step::Exit(_), _) => self,
        }
    }

    /// The state after these outcomes, in order.
    pub open spec fn after_all(self, outcomes: Seq<Outcome>) -> Confinement
        decreases outcomes.len(),
    {
        if outcomes.len() == 0 {
            self
        } else {
            self.after_all(outcomes.drop_last()).after(outcomes.last())
        }
    }

    /// The paths that the steps worked on which had these outcomes, in order.
    pub open spec fn targets(self, outcomes: Seq<Outcome>) -> Seq<Option<Seq<char>>>
        decreases outcomes.len(),
    {
        if outcomes.len() == 0 {
            Seq::empty()
        } else {
            self.targets(outcomes.drop_last()).push(self.after_all(outcomes.drop_last()).target())
        }
    }

    /// The steps that were tried and had these outcomes, in order.
    pub open spec fn tried(self, outcomes: Seq<Outcome>) -> Seq<Step>
        decreases outcomes.len(),
    {
        if outcomes.len() == 0 {
            Seq::empty()
        } else {
            self.tried(outcomes.drop_last()).push(self.after_all(outcomes.drop_last()).step)
        }
    }
}

/// All steps before the command runs, in order.
pub open spec fn confinement() -> Seq<Step> {
    seq![
        Step::RedirectOutput,
        Step::EnterUserNamespace,
        Step::Unshare,
        Step::MakeMountsPrivate,
        Step::MountMemory,
        Step::MakeDirectories,
        Step::MountOverlay,
        Step::ChangeRoot,
        Step::ChangeDirectory,
        Step::LimitCpu,
        Step::LimitProcesses,
        Step::InstallFilter,
    ]
}

/// The steps without which no command runs.
pub open spec fn is_vital(step: Step) -> bool {
    match step {
        Step::EnterUserNamespace
        | Step::Unshare
        | Step::MountMemory
        | Step::MakeDirectories
        | Step::MountOverlay
        | Step::ChangeRoot
        | Step::ChangeDirectory
        | Step::InstallFilter => true,
        _ => false,
    }
}

/// Leads a started process to its command.
pub struct Jail {
    session: u64,
    step: Step,
    report: Option<String>,
}

impl View for Jail {
    type V = Confinement;

    closed spec fn view(&self) -> Confinement {
        Confinement {
            session: self.session,
            step: self.step,
            report: match self.report {
                Some(report) => Some(report@),
                None => None,
            },
        }
    }
}

impl Jail {
    /// Begins with a process that was just started for this session.
    pub fn new(session: u64) -> (jail: Jail)
        ensures
            jail@ == Confinement::begun(session),
    {
        Jail { session, step: Step::RedirectOutput, report: None }
    }

    /// The path that the pending step works on, if it works on one.
    pub fn target(&self) -> (target: Option<String>)
        ensures
            match self@.target() {
                Some(path) => target matches Some(t) && t@ == path,
                None => target is None,
            },
    {
        match self.step {
            Step::MakeMountsPrivate | Step::ChangeDirectory => Some("/".to_owned()),
            Step::MountMemory => Some(SessionPaths::new(self.session).root),
            Step::MountOverlay | Step::ChangeRoot => Some(SessionPaths::new(self.session).merged),
            _ => None,
        }
    }

    /// The directories that are made in the file system in memory.
    pub fn directories(&self) -> (directories: Vec<String>)
        ensures
            directories@.len() == 3,
            directories@[0]@ == upper_of(self@.session),
            directories@[1]@ == work_of(self@.session),
            directories@[2]@ == merged_of(self@.session),
    {
        let paths = SessionPaths::new(self.session);
        vec![paths.upper, paths.work, paths.merged]
    }

    /// The options of the overlay: the host's files lie below, and writes go to the
    /// session's own directories.
    pub fn overlay_options(&self) -> (options: String)
        ensures
            options@ == "lowerdir=/,upperdir="@ + upper_of(self@.session) + ",workdir="@ + work_of(
                self@.session,
            ),
    {
        SessionPaths::new(self.session).overlay_options()
    }

    /// What is done next.
    pub fn step(&self) -> (step: Step)
        ensures
            step == self@.step,
    {
        self.step
    }

    /// Takes the outcome of the pending step, and says what is done next.
    pub fn advance(&mut self, outcome: Outcome) -> (step: Step)
        ensures
            final(self)@ == old(self)@.after(outcome),
            step == final(self)@.step,
    {
        match (self.step, outcome) {
            (Step::RedirectOutput, _) => self.go_on(Step::EnterUserNamespace),
            (Step::EnterUserNamespace, Outcome::Done) => self.go_on(Step::Unshare),
            (Step::EnterUserNamespace, Outcome::Failed(reason)) => self.end(
                USER_NAMESPACE_EXIT_CODE,
                "",
                reason,
            ),
            (Step::Unshare, Outcome::Done) => self.go_on(Step::MakeMountsPrivate),
            (Step::Unshare, Outcome::Failed(reason)) => self.end(
                UNSHARE_EXIT_CODE,
                "unshare: ",
                reason,
            ),
            (Step::MakeMountsPrivate, _) => self.go_on(Step::MountMemory),
            (Step::MountMemory, Outcome::Done) => self.go_on(Step::MakeDirectories),
            (Step::MountMemory, Outcome::Failed(reason)) => self.end(
                FILE_SYSTEM_EXIT_CODE,
                "tmpfs: ",
                reason,
            ),
            (Step::MakeDirectories, Outcome::Done) => self.go_on(Step::MountOverlay),
            (Step::MakeDirectories, Outcome::Failed(reason)) => self.end(
                FILE_SYSTEM_EXIT_CODE,
                "mkdir: ",
                reason,
            ),
            (Step::MountOverlay, Outcome::Done) => self.go_on(Step::ChangeRoot),
            (Step::MountOverlay, Outcome::Failed(reason)) => self.end(
                FILE_SYSTEM_EXIT_CODE,
                "overlay: ",
                reason,
            ),
            (Step::ChangeRoot, Outcome::Done) => self.go_on(Step::ChangeDirectory),
            (Step::ChangeRoot, Outcome::Failed(reason)) => self.end(
                FILE_SYSTEM_EXIT_CODE,
                "chroot: ",
                reason,
            ),
            (Step::ChangeDirectory, Outcome::Done) => self.go_on(Step::LimitCpu),
            (Step::ChangeDirectory, Outcome::Failed(reason)) => self.end(
                FILE_SYSTEM_EXIT_CODE,
                "chdir: ",
                reason,
            ),
            (Step::LimitCpu, _) => self.go_on(Step::LimitProcesses),
            (Step::LimitProcesses, _) => self.go_on(Step::InstallFilter),
            (Step::InstallFilter, Outcome::Done) => self.go_on(Step::Exec),
            (Step::InstallFilter, Outcome::Failed(reason)) => self.end(
                FILTER_EXIT_CODE,
                "",
                reason,
            ),
            (Step::Exec, _) => self.go_on(Step::Exit(EXEC_EXIT_CODE)),
            (Step::Exit(_), _) => {},
        }
        self.step
    }

    /// Goes on with a step.
    fn go_on(&mut self, step: Step)
        ensures
            final(self)@ == old(self)@.at(step),
    {
        self.step = step;
        self.report = None;
    }

    /// Ends the sandbox with a report: what failed, and why.
    fn end(&mut self, exit_code: i32, what: &str, why: String)
        ensures
            final(self)@ == old(self)@.ended(exit_code, what@ + why@),
            what@ == ""@ ==> final(self)@ == old(self)@.ended(exit_code, why@),
    {
        self.step = Step::Exit(exit_code);
        self.report = Some("[Sandbox Error] ".to_owned().concat(what).concat(why.as_str()));
        proof {
            reveal_strlit("");
        }
        assert("[Sandbox Error] "@ + what@ + why@ =~= "[Sandbox Error] "@ + (what@ + why@));
        assert(what@ == ""@ ==> what@ + why@ =~= why@);
    }

    /// What is to be written to standard error before the sandbox ends.
    pub fn into_report(self) -> (report: Option<String>)
        ensures
            match self@.report {
                Some(text) => report matches Some(r) && r@ == text,
                None => report is None,
            },
    {
        self.report
    }
}

/// The program and the arguments that run a command: the shell, and the command as text.
pub fn shell_arguments(cmd: &str) -> (arguments: Vec<String>)
    ensures
        arguments@.len() == 3,
        arguments@[0]@ == "/bin/sh"@,
        arguments@[1]@ == "-c"@,
        arguments@[2]@ == cmd@,
{
    vec!["/bin/sh".to_owned(), "-c".to_owned(), cmd.to_owned()]
}

/// Which steps were tried once a step is pending, and that the vital ones went well.
spec fn on_the_way(step: Step, tried: Seq<Step>, outcomes: Seq<Outcome>) -> bool {
    let n = outcomes.len() as int;
    &&& tried.len() == n
    &&& !(step is Exit) ==> {
        &&& n <= confinement().len()
        &&& tried == confinement().take(n)
        &&& forall|i: int| 0 <= i < n && is_vital(#[trigger] tried[i]) ==> outcomes[i] is Done
        &&& step == if n < confinement().len() {
            confinement()[n]
        } else {
            Step::Exec
        }
    }
}

/// Every state that can be reached is on the way to the command, or at the end.
proof fn lemma_on_the_way(session: u64, outcomes: Seq<Outcome>)
    ensures
        on_the_way(
            Confinement::begun(session).after_all(outcomes).step,
            Confinement::begun(session).tried(outcomes),
            outcomes,
        ),
    decreases outcomes.len(),
{
    let begun = Confinement::begun(session);
    if outcomes.len() == 0 {
        assert(begun.tried(outcomes) =~= confinement().take(0));
    } else {
        let before = outcomes.drop_last();
        let n = before.len() as int;
        lemma_on_the_way(session, before);
        let step = begun.after_all(before).step;
        let tried = begun.tried(before);
        if !(begun.after_all(outcomes).step is Exit) {
            assert(!(step is Exec));
            assert(tried.push(step) =~= confinement().take(n + 1));
            assert forall|i: int| 0 <= i < n + 1 && is_vital(
                #[trigger] begun.tried(outcomes)[i],
            ) implies outcomes[i] is Done by {
                if i < n {
                    assert(begun.tried(outcomes)[i] == tried[i]);
                    assert(outcomes[i] == before[i]);
                }
            }
        }
    }
}

/// A command runs only behind all of its confinement. All steps of it were tried, in
/// order, and nothing else. Those that keep the host from the command went well: the
/// sandbox is root in a namespace of users and has left the host's other namespaces; a
/// file system in memory was mounted over the directory of its own session, the overlay
/// on the merged tree of that session, and that tree is its root; and the system call
/// filter is in force.
pub proof fn law_command_runs_confined(session: u64, outcomes: Seq<Outcome>)
    requires
        Confinement::begun(session).after_all(outcomes).step is Exec,
    ensures
        outcomes.len() == confinement().len(),
        Confinement::begun(session).tried(outcomes) == confinement(),
        Confinement::begun(session).targets(outcomes) == confinement().map_values(
            |step: Step| target_of(step, session),
        ),
        forall|i: int|
            0 <= i < outcomes.len() && is_vital(confinement()[i]) ==> #[trigger] outcomes[i] is Done,
{
    lemma_on_the_way(session, outcomes);
    lemma_targets_follow_the_steps(session, outcomes);
    let tried = Confinement::begun(session).tried(outcomes);
    assert(confinement().take(confinement().len() as int) =~= confinement());
    assert forall|i: int| 0 <= i < outcomes.len() && is_vital(
        confinement()[i],
    ) implies #[trigger] outcomes[i] is Done by {
        assert(is_vital(tried[i]));
    }
}

/// Every step works on the paths of the sandbox's own session.
proof fn lemma_targets_follow_the_steps(session: u64, outcomes: Seq<Outcome>)
    ensures
        Confinement::begun(session).after_all(outcomes).session == session,
        Confinement::begun(session).targets(outcomes) == Confinement::begun(session).tried(
            outcomes,
        ).map_values(|step: Step| target_of(step, session)),
    decreases outcomes.len(),
{
    let begun = Confinement::begun(session);
    let of_session = |step: Step| target_of(step, session);
    if outcomes.len() > 0 {
        let before = outcomes.drop_last();
        lemma_targets_follow_the_steps(session, before);
        assert(begun.targets(outcomes) =~= begun.tried(outcomes).map_values(of_session));
    } else {
        assert(begun.targets(outcomes) =~= begun.tried(outcomes).map_values(of_session));
    }
}

/// A sandbox in which every vital step goes well gets to its command.
pub proof fn law_confined_command_runs(session: u64, outcomes: Seq<Outcome>)
    requires
        outcomes.len() <= confinement().len(),
        forall|i: int|
            0 <= i < outcomes.len() && is_vital(confinement()[i]) ==> #[trigger] outcomes[i] is Done,
    ensures
        Confinement::begun(session).after_all(outcomes) == Confinement::begun(session).at(
            if outcomes.len() < confinement().len() {
                confinement()[outcomes.len() as int]
            } else {
                Step::Exec
            },
        ),
    decreases outcomes.len(),
{
    if outcomes.len() > 0 {
        let before = outcomes.drop_last();
        assert forall|i: int| 0 <= i < before.len() && is_vital(
            confinement()[i],
        ) implies #[trigger] before[i] is Done by {
            assert(outcomes[i] is Done);
        }
        law_confined_command_runs(session, before);
        assert(outcomes.last() == outcomes[outcomes.len() - 1]);
    }
}

/// A sandbox has something to report exactly if it ends before its command was tried.
pub proof fn law_report_comes_with_the_end(session: u64, outcomes: Seq<Outcome>)
    ensures
        ({
            let state = Confinement::begun(session).after_all(outcomes);
            state.report is Some <==> state.step is Exit && state.step != Step::Exit(EXEC_EXIT_CODE)
        }),
    decreases outcomes.len(),
{
    if outcomes.len() > 0 {
        law_report_comes_with_the_end(session, outcomes.drop_last());
    }
}

/// A sandbox that ends stays ended: it never runs its command.
pub proof fn law_end_is_final(state: Confinement, outcomes: Seq<Outcome>)
    requires
        state.step is Exit,
    ensures
        state.after_all(outcomes) == state,
    decreases outcomes.len(),
{
    if outcomes.len() > 0 {
        law_end_is_final(state, outcomes.drop_last());
    }
}

/// A sandbox in which a vital step fails ends there, and nothing that follows lets it run
/// its command.
pub proof fn law_no_command_after_a_vital_failure(
    state: Confinement,
    reason: String,
    outcomes: Seq<Outcome>,
)
    requires
        is_vital(state.step),
    ensures
        state.after(Outcome::Failed(reason)).step is Exit,
        state.after(Outcome::Failed(reason)).report is Some,
        state.after(Outcome::Failed(reason)).after_all(outcomes) == state.after(
            Outcome::Failed(reason),
        ),
{
    law_end_is_final(state.after(Outcome::Failed(reason)), outcomes);
}

/// The numbers of a sandbox: its limits, and the exit codes that say what it could not get.
pub proof fn law_numbers_of_the_sandbox()
    ensures
        MAX_CPU_SECONDS == 5,
        MAX_PROCESSES == 64,
        USER_NAMESPACE_EXIT_CODE == 101,
        UNSHARE_EXIT_CODE == 102,
        FILE_SYSTEM_EXIT_CODE == 103,
        FILTER_EXIT_CODE == 104,
        EXEC_EXIT_CODE == 127,
{
}

/// A step that worked leads to the one that follows it, in every session, and to nothing
/// that would have to be reported.
pub proof fn law_step_that_works_leads_to_the_next(state: Confinement)
    ensures
        ({
            let next = state.after(Outcome::Done);
            let step = match state.step {
                Step::RedirectOutput => Step::EnterUserNamespace,
                Step::EnterUserNamespace => Step::Unshare,
                Step::Unshare => Step::MakeMountsPrivate,
                Step::MakeMountsPrivate => Step::MountMemory,
                Step::MountMemory => Step::MakeDirectories,
                Step::MakeDirectories => Step::MountOverlay,
                Step::MountOverlay => Step::ChangeRoot,
                Step::ChangeRoot => Step::ChangeDirectory,
                Step::ChangeDirectory => Step::LimitCpu,
                Step::LimitCpu => Step::LimitProcesses,
                Step::LimitProcesses => Step::InstallFilter,
                Step::InstallFilter => Step::Exec,
                Step::Exec => Step::Exit(127),
                Step::Exit(code) => Step::Exit(code),
            };
            &&& state.step is Exit ==> next == state
            &&& !(state.step is Exit) ==> next == (Confinement {
                session: state.session,
                step,
                report: None,
            })
        }),
{
}

/// A step that failed, for whatever reason: one without which no command runs ends the
/// sandbox with the exit code of its kind and a report of the step and the reason, whole;
/// the others are passed over. A command that could not be run ends the sandbox with 127
/// and no report.
pub proof fn law_step_that_fails_is_reported(state: Confinement, reason: String)
    ensures
        ({
            let next = state.after(Outcome::Failed(reason));
            let session = state.session;
            let told = "[Sandbox Error] "@;
            match state.step {
                Step::EnterUserNamespace => next == (Confinement {
                    session,
                    step: Step::Exit(101),
                    report: Some(told + reason@),
                }),
                Step::Unshare => next == (Confinement {
                    session,
                    step: Step::Exit(102),
                    report: Some(told + ("unshare: "@ + reason@)),
                }),
                Step::MountMemory => next == (Confinement {
                    session,
                    step: Step::Exit(103),
                    report: Some(told + ("tmpfs: "@ + reason@)),
                }),
                Step::MakeDirectories => next == (Confinement {
                    session,
                    step: Step::Exit(103),
                    report: Some(told + ("mkdir: "@ + reason@)),
                }),
                Step::MountOverlay => next == (Confinement {
                    session,
                    step: Step::Exit(103),
                    report: Some(told + ("overlay: "@ + reason@)),
                }),
                Step::ChangeRoot => next == (Confinement {
                    session,
                    step: Step::Exit(103),
                    report: Some(told + ("chroot: "@ + reason@)),
                }),
                Step::ChangeDirectory => next == (Confinement {
                    session,
                    step: Step::Exit(103),
                    report: Some(told + ("chdir: "@ + reason@)),
                }),
                Step::InstallFilter => next == (Confinement {
                    session,
                    step: Step::Exit(104),
                    report: Some(told + reason@),
                }),
                Step::RedirectOutput => next == (Confinement {
                    session,
                    step: Step::EnterUserNamespace,
                    report: None,
                }),
                Step::MakeMountsPrivate => next == (Confinement {
                    session,
                    step: Step::MountMemory,
                    report: None,
                }),
                Step::LimitCpu => next == (Confinement {
                    session,
                    step: Step::LimitProcesses,
                    report: None,
                }),
                Step::LimitProcesses => next == (Confinement {
                    session,
                    step: Step::InstallFilter,
                    report: None,
                }),
                Step::Exec => next == (Confinement {
                    session,
                    step: Step::Exit(127),
                    report: None,
                }),
                Step::Exit(_) => next == state,
            }
        }),
{
}

/// The path that each step works on: the top of the tree, or the directory or the merged
/// tree that is named after the session. The other steps work on no path.
pub proof fn law_steps_work_on_their_session(state: Confinement)
    ensures
        ({
            let root = "/tmp/forkbox_sess_"@ + decimal(state.session as nat);
            match state.step {
                Step::MakeMountsPrivate | Step::ChangeDirectory => state.target() == Some(
                    seq!['/'],
                ),
                Step::MountMemory => state.target() == Some(root),
                Step::MountOverlay | Step::ChangeRoot => state.target() == Some(
                    root + "/merged"@,
                ),
                _ => state.target() is None,
            }
        }),
{
    reveal_strlit("/");
    assert("/"@ =~= seq!['/']);
}

/// A sandbox begins with its streams and stays in the session it was begun for.
pub proof fn law_sandbox_stays_in_its_session(session: u64, outcomes: Seq<Outcome>)
    ensures
        Confinement::begun(session) == (Confinement {
            session,
            step: Step::RedirectOutput,
            report: None,
        }),
        Confinement::begun(session).after_all(outcomes).session == session,
{
    lemma_targets_follow_the_steps(session, outcomes);
}

/// A command runs after exactly twelve steps, of which those that confine it went well:
/// the namespace of users, the other namespaces, the file system in memory, its
/// directories, the overlay, the change of root and of directory, and the filter.
pub proof fn law_command_runs_after_these_steps(session: u64, outcomes: Seq<Outcome>)
    requires
        Confinement::begun(session).after_all(outcomes).step is Exec,
    ensures
        outcomes.len() == 12,
        Confinement::begun(session).tried(outcomes) == seq![
            Step::RedirectOutput,
            Step::EnterUserNamespace,
            Step::Unshare,
            Step::MakeMountsPrivate,
            Step::MountMemory,
            Step::MakeDirectories,
            Step::MountOverlay,
            Step::ChangeRoot,
            Step::ChangeDirectory,
            Step::LimitCpu,
            Step::LimitProcesses,
            Step::InstallFilter,
        ],
        outcomes[1] is Done,
        outcomes[2] is Done,
        outcomes[4] is Done,
        outcomes[5] is Done,
        outcomes[6] is Done,
        outcomes[7] is Done,
        outcomes[8] is Done,
        outcomes[11] is Done,
{
    law_command_runs_confined(session, outcomes);
    assert(is_vital(confinement()[1]));
    assert(is_vital(confinement()[2]));
    assert(is_vital(confinement()[4]));
    assert(is_vital(confinement()[5]));
    assert(is_vital(confinement()[6]));
    assert(is_vital(confinement()[7]));
    assert(is_vital(confinement()[8]));
    assert(is_vital(confinement()[11]));
}

} // verus!
