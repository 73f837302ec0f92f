//! Numbers of the Linux interface, as the `libc` and `nix` crates give them.
//!
//! Everything here is believed, not proved: each function hands out constants of an
//! outside crate, and its contract says what those constants are.
use vstd::prelude::*;

verus! {

/// Operation codes of classic BPF, and the verdicts a seccomp filter can return.
pub struct FilterCodes {
    pub ld: u32,
    pub w: u32,
    pub abs: u32,
    pub jmp: u32,
    pub jeq: u32,
    pub k: u32,
    pub ret: u32,
    pub allow: u32,
    pub errno: u32,
    pub eperm: i32,
}

/// The bits that ask the kernel for new namespaces, those that make mounts private, and the
/// one that detaches a mount.
pub struct NamespaceBits {
    pub user: i32,
    pub mount: i32,
    pub ipc: i32,
    pub uts: i32,
    pub pid: i32,
    pub net: i32,
    pub mount_recursive: u64,
    pub mount_private: u64,
    pub unmount_detach: i32,
}

/// Numbers that the target gives to the system calls a sandbox must not make.
///
/// They differ from one processor family to the next.
#[derive(Clone, Copy, Debug, PartialEq, Eq, Structural)]
pub struct SyscallNumbers {
    pub ptrace: i64,
    pub bpf: i64,
    pub reboot: i64,
    pub kexec_load: i64,
    pub init_module: i64,
    pub finit_module: i64,
    pub delete_module: i64,
    pub swapon: i64,
    pub swapoff: i64,
    pub settimeofday: i64,
    pub clock_settime: i64,
    pub mount: i64,
}

impl SyscallNumbers {
    /// The numbers in the order in which the filter compares them.
    pub open spec fn listed(self) -> Seq<i64> {
        seq![
            self.ptrace,
            self.bpf,
            self.reboot,
            self.kexec_load,
            self.init_module,
            self.finit_module,
            self.delete_module,
            self.swapon,
            self.swapoff,
            self.settimeofday,
            self.clock_settime,
            self.mount,
        ]
    }

    /// Every number is one that the kernel can report: it fits in 32 bits.
    pub open spec fn reportable(self) -> bool {
        forall|i: int| 0 <= i < self.listed().len() ==> 0 <= #[trigger] self.listed()[i] <= u32::MAX
    }

    /// The numbers are those of a 64-bit Linux target: in this order, x86-64; the targets
    /// that share one table (64-bit ARM, RISC-V and LoongArch); 64-bit PowerPC; s390x;
    /// 64-bit SPARC; 64-bit MIPS.
    pub open spec fn of_linux(self) -> bool {
        ||| self.listed() == seq![101i64, 321, 169, 246, 175, 313, 176, 167, 168, 164, 227, 165]
        ||| self.listed() == seq![117i64, 280, 142, 104, 105, 273, 106, 224, 225, 170, 112, 40]
        ||| self.listed() == seq![26i64, 361, 88, 268, 128, 353, 129, 87, 115, 79, 245, 21]
        ||| self.listed() == seq![26i64, 351, 88, 277, 128, 344, 129, 87, 115, 79, 259, 21]
        ||| self.listed() == seq![26i64, 349, 55, 306, 190, 342, 222, 85, 213, 122, 256, 167]
        ||| self.listed() == seq![
            5099i64,
            5315,
            5164,
            5270,
            5168,
            5307,
            5169,
            5162,
            5163,
            5159,
            5221,
            5160,
        ]
    }
}

/// The values that Linux gives to the status flag of a descriptor that does not wait: most
/// targets, MIPS, SPARC.
pub open spec fn is_nonblocking_bit(bit: i32) -> bool {
    bit == 0x800 || bit == 0x80 || bit == 0x4000
}

/// Reads `libc::BPF_LD`, `BPF_W`, `BPF_ABS`, `BPF_JMP`, `BPF_JEQ`, `BPF_K`, `BPF_RET`,
/// `SECCOMP_RET_ALLOW`, `SECCOMP_RET_ERRNO` and `EPERM`. The contract gives the value of
/// each: they are the same on every Linux target.
#[verifier::external_body]
pub(crate) fn filter_codes() -> (codes: FilterCodes)
    ensures
        codes.ld == 0x00,
        codes.w == 0x00,
        codes.abs == 0x20,
        codes.jmp == 0x05,
        codes.jeq == 0x10,
        codes.k == 0x00,
        codes.ret == 0x06,
        codes.allow == 0x7fff_0000,
        codes.errno == 0x0005_0000,
        codes.eperm == 1,
{
    FilterCodes {
        ld: libc::BPF_LD,
        w: libc::BPF_W,
        abs: libc::BPF_ABS,
        jmp: libc::BPF_JMP,
        jeq: libc::BPF_JEQ,
        k: libc::BPF_K,
        ret: libc::BPF_RET,
        allow: libc::SECCOMP_RET_ALLOW,
        errno: libc::SECCOMP_RET_ERRNO,
        eperm: libc::EPERM,
    }
}

/// Reads the `libc::SYS_*` constant that each field is named after. The values depend on
/// the processor family that the crate is compiled for; the contract says that they are
/// one of the tables that `libc` has for 64-bit Linux targets, and not which.
#[verifier::external_body]
pub(crate) fn target_syscalls() -> (numbers: SyscallNumbers)
    ensures
        numbers.of_linux(),
{
    SyscallNumbers {
        ptrace: libc::SYS_ptrace,
        bpf: libc::SYS_bpf,
        reboot: libc::SYS_reboot,
        kexec_load: libc::SYS_kexec_load,
        init_module: libc::SYS_init_module,
        finit_module: libc::SYS_finit_module,
        delete_module: libc::SYS_delete_module,
        swapon: libc::SYS_swapon,
        swapoff: libc::SYS_swapoff,
        settimeofday: libc::SYS_settimeofday,
        clock_settime: libc::SYS_clock_settime,
        mount: libc::SYS_mount,
    }
}

/// Reads `libc::O_NONBLOCK`, the status flag of a descriptor that does not wait. Its value
/// depends on the processor family that the crate is compiled for; the contract says that
/// it is one of the three that `libc` has for Linux targets, and not which.
#[verifier::external_body]
pub(crate) fn nonblocking_bit() -> (bit: i32)
    ensures
        is_nonblocking_bit(bit),
{
    libc::O_NONBLOCK
}

/// Reads the bits of `nix::sched::CloneFlags::CLONE_NEWUSER`, `CLONE_NEWNS`, `CLONE_NEWIPC`,
/// `CLONE_NEWUTS`, `CLONE_NEWPID` and `CLONE_NEWNET`, of `nix::mount::MsFlags::MS_REC` and
/// `MS_PRIVATE`, and of `nix::mount::MntFlags::MNT_DETACH`. The contract gives the value of
/// each: they are the same on every Linux target.
#[verifier::external_body]
pub(crate) fn namespace_bits() -> (bits: NamespaceBits)
    ensures
        bits.user == 0x1000_0000,
        bits.mount == 0x0002_0000,
        bits.ipc == 0x0800_0000,
        bits.uts == 0x0400_0000,
        bits.pid == 0x2000_0000,
        bits.net == 0x4000_0000,
        bits.mount_recursive == 0x4000,
        bits.mount_private == 0x0004_0000,
        bits.unmount_detach == 2,
{
    NamespaceBits {
        user: nix::sched::CloneFlags::CLONE_NEWUSER.bits(),
        mount: nix::sched::CloneFlags::CLONE_NEWNS.bits(),
        ipc: nix::sched::CloneFlags::CLONE_NEWIPC.bits(),
        uts: nix::sched::CloneFlags::CLONE_NEWUTS.bits(),
        pid: nix::sched::CloneFlags::CLONE_NEWPID.bits(),
        net: nix::sched::CloneFlags::CLONE_NEWNET.bits(),
        mount_recursive: nix::mount::MsFlags::MS_REC.bits(),
        mount_private: nix::mount::MsFlags::MS_PRIVATE.bits(),
        unmount_detach: nix::mount::MntFlags::MNT_DETACH.bits(),
    }
}

} // verus!
