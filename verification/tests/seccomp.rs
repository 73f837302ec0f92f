use forkbox::platform::SyscallNumbers;
use forkbox::seccomp::{
    blocked_syscalls, build_filter, sandbox_filter, sandbox_filter_for, InstallStage, Instruction,
};

/// What the kernel's interpreter makes of a filter, for the opcodes that filters use.
fn run(program: &[Instruction], number: u32) -> u32 {
    let mut acc = 0;
    let mut pc = 0;
    loop {
        let step = program[pc];
        match step.code {
            0x20 => {
                assert_eq!(step.k, 0);
                acc = number;
                pc += 1;
            }
            0x15 => {
                let skip = if acc == step.k { step.jt } else { step.jf };
                pc += 1 + skip as usize;
            }
            0x06 => return step.k,
            code => panic!("unknown code {}", code),
        }
    }
}

const ALLOW: u32 = libc::SECCOMP_RET_ALLOW;
const DENY: u32 = libc::SECCOMP_RET_ERRNO | libc::EPERM as u32;

fn denied_here() -> Vec<i64> {
    vec![
        libc::SYS_ptrace,
        libc::SYS_bpf,
        libc::SYS_reboot,
        libc::SYS_kexec_load,
        libc::SYS_init_module,
        libc::SYS_finit_module,
        libc::SYS_delete_module,
        libc::SYS_swapon,
        libc::SYS_swapoff,
        libc::SYS_settimeofday,
        libc::SYS_clock_settime,
        libc::SYS_mount,
    ]
}

#[test]
fn escape_vectors_are_denied() {
    let filter = sandbox_filter();
    for number in denied_here() {
        assert_eq!(run(&filter, number as u32), DENY);
    }
}

#[test]
fn every_other_syscall_is_allowed() {
    let filter = sandbox_filter();
    let denied = denied_here();
    for number in 0..2000u32 {
        if !denied.contains(&(number as i64)) {
            assert_eq!(run(&filter, number), ALLOW);
        }
    }
    assert_eq!(run(&filter, libc::SYS_execve as u32), ALLOW);
    assert_eq!(run(&filter, u32::MAX), ALLOW);
}

#[test]
fn filter_of_two_is_exact() {
    let filter = build_filter(&vec![101, 321]);
    assert_eq!(
        filter,
        vec![
            Instruction { code: 0x20, jt: 0, jf: 0, k: 0 },
            Instruction { code: 0x15, jt: 2, jf: 0, k: 101 },
            Instruction { code: 0x15, jt: 1, jf: 0, k: 321 },
            Instruction { code: 0x06, jt: 0, jf: 0, k: 0x7fff_0000 },
            Instruction { code: 0x06, jt: 0, jf: 0, k: 0x0005_0001 },
        ]
    );
}

#[test]
fn empty_filter_allows_everything() {
    let filter = build_filter(&Vec::new());
    assert_eq!(filter.len(), 3);
    assert_eq!(run(&filter, 0), ALLOW);
    assert_eq!(run(&filter, 101), ALLOW);
}

#[test]
fn longest_filter_still_reaches_its_end() {
    let blocked: Vec<i64> = (1000..1255).collect();
    let filter = build_filter(&blocked);
    assert_eq!(filter.len(), 258);
    assert_eq!(filter[1].jt, 255);
    assert_eq!(run(&filter, 1000), DENY);
    assert_eq!(run(&filter, 1254), DENY);
    assert_eq!(run(&filter, 1255), ALLOW);
}

#[test]
fn filters_compare_the_low_word() {
    let filter = build_filter(&vec![0x1_0000_0007]);
    assert_eq!(filter[1].k, 7);
}

fn numbering() -> SyscallNumbers {
    SyscallNumbers {
        ptrace: 1,
        bpf: 2,
        reboot: 3,
        kexec_load: 4,
        init_module: 5,
        finit_module: 6,
        delete_module: 7,
        swapon: 8,
        swapoff: 9,
        settimeofday: 10,
        clock_settime: 11,
        mount: 12,
    }
}

#[test]
fn blocked_syscalls_are_listed_in_order() {
    assert_eq!(
        blocked_syscalls(&numbering()),
        (1..13).collect::<Vec<i64>>()
    );
}

#[test]
fn filter_follows_the_numbering_of_the_target() {
    let filter = sandbox_filter_for(&numbering());
    assert_eq!(filter.len(), 15);
    assert_eq!(run(&filter, 0), ALLOW);
    assert_eq!(run(&filter, 1), DENY);
    assert_eq!(run(&filter, 12), DENY);
    assert_eq!(run(&filter, 13), ALLOW);
}

#[test]
fn filter_is_in_force_after_both_grants() {
    let mut stage = InstallStage::start();
    assert!(stage.result().is_none());
    assert_eq!(stage.advance(0), InstallStage::SetFilter);
    assert!(stage.result().is_none());
    assert_eq!(stage.advance(0), InstallStage::Installed);
    assert_eq!(stage.result(), Some(Ok(())));
    assert_eq!(stage.advance(-1), InstallStage::Installed);
}

#[test]
fn refused_promise_is_reported() {
    let mut stage = InstallStage::start();
    assert_eq!(stage.advance(-1), InstallStage::NoNewPrivsRefused);
    assert_eq!(
        stage.result(),
        Some(Err("Falha PR_SET_NO_NEW_PRIVS".to_string()))
    );
    assert_eq!(stage.advance(0), InstallStage::NoNewPrivsRefused);
}

#[test]
fn refused_filter_is_reported() {
    let mut stage = InstallStage::start();
    stage.advance(0);
    assert_eq!(stage.advance(-1), InstallStage::FilterRefused);
    assert_eq!(stage.result(), Some(Err("Falha Seccomp-BPF".to_string())));
}
