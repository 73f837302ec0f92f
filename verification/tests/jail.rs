use forkbox::descriptor::{nonblocking_flags, with_status_bit};
use forkbox::jail::{shell_arguments, Jail, Step, MAX_CPU_SECONDS, MAX_PROCESSES};
use forkbox::namespaces::{
    private_mount_flags, root_mapping_line, sandbox_flags, unmount_flags, user_namespace_flags,
    EntryEvent, EntryStage, Outcome, UserNamespace,
};
use forkbox::ExecutionRequest;
use nix::mount::{MntFlags, MsFlags};
use nix::sched::CloneFlags;

fn failed(reason: &str) -> Outcome {
    Outcome::Failed(reason.to_string())
}

#[test]
fn command_runs_after_every_step() {
    let mut jail = Jail::new(7);
    let mut steps = vec![jail.step()];
    while jail.step() != Step::Exec {
        steps.push(jail.advance(Outcome::Done));
    }
    assert_eq!(
        steps,
        vec![
            Step::RedirectOutput,
            Step::EnterUserNamespace,
            Step::Unshare,
            Step::MakeMountsPrivate,
            Step::MountMemory,
            Step::MakeDirectories,
            Step::MountOverlay,
            Step::ChangeRoot,
            Step::ChangeDirectory,
            Step::LimitCpu,
            Step::LimitProcesses,
            Step::InstallFilter,
            Step::Exec,
        ]
    );
}

/// Leads a sandbox to a step.
fn jail_at(step: Step) -> Jail {
    let mut jail = Jail::new(7);
    while jail.step() != step {
        jail.advance(Outcome::Done);
    }
    jail
}

#[test]
fn sandbox_without_its_file_system_ends_with_103() {
    for (step, report) in [
        (Step::MountMemory, "[Sandbox Error] tmpfs: EPERM"),
        (Step::MakeDirectories, "[Sandbox Error] mkdir: EPERM"),
        (Step::MountOverlay, "[Sandbox Error] overlay: EPERM"),
        (Step::ChangeRoot, "[Sandbox Error] chroot: EPERM"),
        (Step::ChangeDirectory, "[Sandbox Error] chdir: EPERM"),
    ] {
        let mut jail = jail_at(step);
        assert_eq!(jail.advance(failed("EPERM")), Step::Exit(103));
        assert_eq!(jail.advance(Outcome::Done), Step::Exit(103));
        assert_eq!(jail.into_report(), Some(report.to_string()));
    }
}

#[test]
fn sandbox_without_the_filter_ends_with_104() {
    let mut jail = jail_at(Step::InstallFilter);
    assert_eq!(jail.advance(failed("Falha Seccomp-BPF")), Step::Exit(104));
    assert_eq!(jail.advance(Outcome::Done), Step::Exit(104));
    assert_eq!(
        jail.into_report(),
        Some("[Sandbox Error] Falha Seccomp-BPF".to_string())
    );
}

#[test]
fn steps_work_on_the_session_of_the_sandbox() {
    let root = "/tmp/forkbox_sess_7";
    let merged = "/tmp/forkbox_sess_7/merged";
    for (step, target) in [
        (Step::RedirectOutput, None),
        (Step::Unshare, None),
        (Step::MakeMountsPrivate, Some("/")),
        (Step::MountMemory, Some(root)),
        (Step::MakeDirectories, None),
        (Step::MountOverlay, Some(merged)),
        (Step::ChangeRoot, Some(merged)),
        (Step::ChangeDirectory, Some("/")),
        (Step::InstallFilter, None),
    ] {
        assert_eq!(jail_at(step).target().as_deref(), target);
    }
    let jail = jail_at(Step::MakeDirectories);
    assert_eq!(
        jail.directories(),
        vec![
            "/tmp/forkbox_sess_7/upper",
            "/tmp/forkbox_sess_7/work",
            "/tmp/forkbox_sess_7/merged",
        ]
    );
    assert_eq!(
        jail.overlay_options(),
        "lowerdir=/,upperdir=/tmp/forkbox_sess_7/upper,workdir=/tmp/forkbox_sess_7/work"
    );
}

#[test]
fn other_steps_are_not_insisted_on() {
    let mut jail = jail_at(Step::RedirectOutput);
    assert_eq!(jail.advance(failed("x")), Step::EnterUserNamespace);
    let mut jail = jail_at(Step::MakeMountsPrivate);
    assert_eq!(jail.advance(failed("x")), Step::MountMemory);
    let mut jail = jail_at(Step::LimitCpu);
    assert_eq!(jail.advance(failed("x")), Step::LimitProcesses);
    assert_eq!(jail.advance(failed("x")), Step::InstallFilter);
}

#[test]
fn sandbox_without_user_namespace_ends_with_101() {
    let mut jail = Jail::new(7);
    jail.advance(Outcome::Done);
    assert_eq!(
        jail.advance(failed("Falha uid_map: x")),
        Step::Exit(101)
    );
    assert_eq!(jail.advance(Outcome::Done), Step::Exit(101));
    assert_eq!(
        jail.into_report(),
        Some("[Sandbox Error] Falha uid_map: x".to_string())
    );
}

#[test]
fn sandbox_that_cannot_unshare_ends_with_102() {
    let mut jail = Jail::new(7);
    jail.advance(Outcome::Done);
    jail.advance(Outcome::Done);
    assert_eq!(jail.advance(failed("EPERM")), Step::Exit(102));
    assert_eq!(
        jail.into_report(),
        Some("[Sandbox Error] unshare: EPERM".to_string())
    );
}

#[test]
fn failed_exec_ends_with_127() {
    let mut jail = jail_at(Step::Exec);
    assert_eq!(jail.advance(failed("ENOENT")), Step::Exit(127));
    assert_eq!(jail.into_report(), None);
}

#[test]
fn shell_gets_the_command_as_it_is() {
    assert_eq!(
        shell_arguments("echo 'a  b'; exit 0"),
        vec!["/bin/sh", "-c", "echo 'a  b'; exit 0"]
    );
    assert_eq!(shell_arguments(""), vec!["/bin/sh", "-c", ""]);
}

#[test]
fn limits_are_those_documented() {
    assert_eq!(MAX_CPU_SECONDS, 5);
    assert_eq!(MAX_PROCESSES, 64);
}

#[test]
fn sandbox_flags_are_those_of_the_kernel() {
    let base = CloneFlags::CLONE_NEWNS
        | CloneFlags::CLONE_NEWIPC
        | CloneFlags::CLONE_NEWUTS
        | CloneFlags::CLONE_NEWPID;
    assert_eq!(sandbox_flags(false), base.bits());
    assert_eq!(sandbox_flags(false), 0x2c02_0000);
    assert_eq!(
        sandbox_flags(true),
        (base | CloneFlags::CLONE_NEWNET).bits()
    );
    assert_eq!(sandbox_flags(true), 0x6c02_0000);
    assert_eq!(
        user_namespace_flags(),
        CloneFlags::CLONE_NEWUSER.bits()
    );
    assert_eq!(
        private_mount_flags(),
        (MsFlags::MS_REC | MsFlags::MS_PRIVATE).bits()
    );
    assert_eq!(unmount_flags(), MntFlags::MNT_DETACH.bits());
}

#[test]
fn network_is_isolated_unless_allowed() {
    for (allow_network, isolated) in [(None, true), (Some(false), true), (Some(true), false)] {
        let request = ExecutionRequest {
            cmd: "true".to_string(),
            timeout_ms: 1,
            allow_network,
        };
        assert_eq!(request.is_network_isolated(), isolated);
        assert_eq!(request.namespace_flags(), sandbox_flags(isolated));
        assert_eq!(
            request.namespace_flags() & libc::CLONE_NEWNET != 0,
            isolated
        );
    }
}

#[test]
fn nonblocking_keeps_other_flags() {
    assert_eq!(nonblocking_flags(0), libc::O_NONBLOCK);
    assert_eq!(
        nonblocking_flags(libc::O_WRONLY | libc::O_APPEND),
        libc::O_WRONLY | libc::O_APPEND | libc::O_NONBLOCK
    );
    assert_eq!(nonblocking_flags(-1), -1);
    assert_eq!(with_status_bit(0b0101, 0b0110), 0b0111);
}

fn entered(uid: u32, gid: u32) -> UserNamespace {
    let mut entry = UserNamespace::new(uid, gid);
    assert_eq!(entry.stage(), EntryStage::Unshare);
    assert_eq!(
        entry.advance(EntryEvent::Tried(Outcome::Done)),
        EntryStage::ProbeSetgroups
    );
    entry
}

#[test]
fn host_user_becomes_root() {
    let mut entry = entered(1000, 100);
    assert!(entry.result().is_none());
    assert!(entry.pending_write().is_none());
    assert_eq!(
        entry.advance(EntryEvent::Found(true)),
        EntryStage::DenySetgroups
    );
    let deny = entry.pending_write().unwrap();
    assert_eq!(deny.path, "/proc/self/setgroups");
    assert_eq!(deny.contents, "deny");
    assert_eq!(
        entry.advance(EntryEvent::Tried(failed("EACCES"))),
        EntryStage::WriteUidMap
    );
    let uid_map = entry.pending_write().unwrap();
    assert_eq!(uid_map.path, "/proc/self/uid_map");
    assert_eq!(uid_map.contents, "0 1000 1\n");
    assert_eq!(
        entry.advance(EntryEvent::Tried(Outcome::Done)),
        EntryStage::WriteGidMap
    );
    let gid_map = entry.pending_write().unwrap();
    assert_eq!(gid_map.path, "/proc/self/gid_map");
    assert_eq!(gid_map.contents, "0 100 1\n");
    assert_eq!(
        entry.advance(EntryEvent::Tried(Outcome::Done)),
        EntryStage::Entered
    );
    assert_eq!(entry.result(), Some(Ok(())));
    assert!(entry.pending_write().is_none());
}

#[test]
fn missing_setgroups_is_passed_over() {
    let mut entry = entered(0, 0);
    assert_eq!(
        entry.advance(EntryEvent::Found(false)),
        EntryStage::WriteUidMap
    );
}

#[test]
fn failed_unshare_is_named() {
    let mut entry = UserNamespace::new(1000, 1000);
    entry.advance(EntryEvent::Tried(failed("EPERM: x")));
    assert_eq!(
        entry.result(),
        Some(Err("Falha CLONE_NEWUSER: EPERM: x".to_string()))
    );
    assert_eq!(
        entry.advance(EntryEvent::Tried(Outcome::Done)),
        EntryStage::Failed
    );
}

#[test]
fn failed_maps_are_named() {
    let mut entry = entered(1, 2);
    entry.advance(EntryEvent::Found(false));
    entry.advance(EntryEvent::Tried(failed("no")));
    assert_eq!(
        entry.result(),
        Some(Err("Falha uid_map: no".to_string()))
    );
    let mut entry = entered(1, 2);
    entry.advance(EntryEvent::Found(false));
    entry.advance(EntryEvent::Tried(Outcome::Done));
    entry.advance(EntryEvent::Tried(failed("no")));
    assert_eq!(
        entry.result(),
        Some(Err("Falha gid_map: no".to_string()))
    );
}

#[test]
fn mapping_holds_the_id_in_decimal() {
    assert_eq!(root_mapping_line(0), "0 0 1\n");
    assert_eq!(root_mapping_line(u32::MAX), "0 4294967295 1\n");
}
