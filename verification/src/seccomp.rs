//! The seccomp filter of a sandbox: what it is made of, and what it decides.
use vstd::prelude::*;

use crate::platform::{filter_codes, target_syscalls, SyscallNumbers};

verus! {

/// One instruction of classic BPF, laid out as the kernel's `sock_filter`.
#[derive(Clone, Copy, Debug, PartialEq, Eq, Structural)]
pub struct Instruction {
    pub code: u16,
    pub jt: u8,
    pub jf: u8,
    pub k: u32,
}

/// Loads the 32-bit word at byte offset `k` into the accumulator.
pub open spec fn load_word(k: u32) -> Instruction {
    Instruction { code: 0x20, jt: 0, jf: 0, k }
}

/// Skips `jt` instructions if the accumulator equals `k`, none otherwise.
pub open spec fn jump_if_equal(k: u32, jt: u8) -> Instruction {
    Instruction { code: 0x15, jt, jf: 0, k }
}

/// Ends the program with the verdict `k`.
pub open spec fn give_verdict(k: u32) -> Instruction {
    Instruction { code: 0x06, jt: 0, jf: 0, k }
}

/// The verdict that lets a system call through.
pub open spec fn allowed() -> u32 {
    0x7fff_0000
}

/// The verdict that makes a system call fail with `EPERM`.
pub open spec fn denied() -> u32 {
    0x0005_0001
}

/// What a classic BPF program returns, from instruction `pc` on with `acc` in the
/// accumulator, for the words `data`; `None` where it leaves the program, reads outside
/// the data or meets an instruction that filters here do not use.
pub open spec fn outcome_from(program: Seq<Instruction>, data: Seq<u32>, pc: int, acc: u32) -> Option<
    u32,
>
    decreases
            (if pc < program.len() {
                program.len() - pc
            } else {
                0
            }),
{
    if pc < 0 || pc >= program.len() {
        None
    } else {
        let step = program[pc];
        if step.code == 0x20 {
            if step.k % 4 == 0 && step.k / 4 < data.len() {
                outcome_from(program, data, pc + 1, data[step.k as int / 4])
            } else {
                None
            }
        } else if step.code == 0x15 {
            if acc == step.k {
                outcome_from(program, data, pc + 1 + step.jt, acc)
            } else {
                outcome_from(program, data, pc + 1 + step.jf, acc)
            }
        } else if step.code == 0x06 {
            Some(step.k)
        } else {
            None
        }
    }
}

/// What a filter returns for a system call, given the words of the kernel's
/// `seccomp_data`: the number of the call is the first of them.
pub open spec fn verdict(program: Seq<Instruction>, data: Seq<u32>) -> Option<u32> {
    outcome_from(program, data, 0, 0)
}

/// The program that compares the number of the system call with each of `numbers` in
/// turn, allows it if none is equal, and denies it otherwise.
pub open spec fn deny_program(numbers: Seq<u32>) -> Seq<Instruction> {
    let n = numbers.len();
    Seq::new(
        n + 3,
        |i: int|
            if i == 0 {
                load_word(0)
            } else if i <= n {
                jump_if_equal(numbers[i - 1], (n - (i - 1)) as u8)
            } else if i == n + 1 {
                give_verdict(allowed())
            } else {
                give_verdict(denied())
            },
    )
}

/// The low 32 bits of each number: what a filter can compare.
pub open spec fn low_words(numbers: Seq<i64>) -> Seq<u32> {
    numbers.map_values(|number: i64| number as u32)
}

/// The kernel takes a program if every jump stays inside it and it ends with a verdict.
pub open spec fn loadable(program: Seq<Instruction>) -> bool {
    &&& 0 < program.len() <= 4096
    &&& program.last().code == 0x06
    &&& forall|i: int|
        #![trigger program[i]]
        0 <= i < program.len() && program[i].code == 0x15 ==> i + 1 + program[i].jt
            < program.len() && i + 1 + program[i].jf < program.len()
}

/// Builds the filter that denies the system calls in `blocked` and allows all others.
pub fn build_filter(blocked: &Vec<i64>) -> (filter: Vec<Instruction>)
    requires
        blocked@.len() <= u8::MAX,
    ensures
        filter@ == deny_program(low_words(blocked@)),
{
    let codes = filter_codes();
    let n: usize = blocked.len();
    let mut filter: Vec<Instruction> = Vec::with_capacity(n + 3);
    let load: u32 = codes.ld | codes.w | codes.abs;
    let jump: u32 = codes.jmp | codes.jeq | codes.k;
    let ret: u32 = codes.ret | codes.k;
    let deny: u32 = codes.errno | (codes.eperm as u32 & 0x0000_ffff);
    assert(0x00u32 | 0x00u32 | 0x20u32 == 0x20u32) by (bit_vector);
    assert(0x05u32 | 0x10u32 | 0x00u32 == 0x15u32) by (bit_vector);
    assert(0x06u32 | 0x00u32 == 0x06u32) by (bit_vector);
    assert(0x0005_0000u32 | (1u32 & 0x0000_ffffu32) == 0x0005_0001u32) by (bit_vector);
    filter.push(Instruction { code: load as u16, jt: 0, jf: 0, k: 0 });
    let ghost wanted = deny_program(low_words(blocked@));
    let mut i: usize = 0;
    while i < n
        invariant
            n == blocked@.len(),
            n <= u8::MAX,
            i <= n,
            jump == 0x15,
            wanted == deny_program(low_words(blocked@)),
            filter@ == wanted.take(i + 1),
        decreases n - i,
    {
        let number: i64 = blocked[i];
        filter.push(
            Instruction {
                code: jump as u16,
                jt: (n - i) as u8,
                jf: 0,
                k: #[verifier::truncate] (number as u32),
            },
        );
        assert(filter@ =~= wanted.take(i + 2));
        i = i + 1;
    }
    filter.push(Instruction { code: ret as u16, jt: 0, jf: 0, k: codes.allow });
    filter.push(Instruction { code: ret as u16, jt: 0, jf: 0, k: deny });
    assert(filter@ =~= wanted);
    filter
}

/// The numbers that a sandbox denies, in the order in which the filter compares them.
pub fn blocked_syscalls(numbers: &SyscallNumbers) -> (blocked: Vec<i64>)
    ensures
        blocked@ == numbers.listed(),
{
    vec![
        numbers.ptrace,
        numbers.bpf,
        numbers.reboot,
        numbers.kexec_load,
        numbers.init_module,
        numbers.finit_module,
        numbers.delete_module,
        numbers.swapon,
        numbers.swapoff,
        numbers.settimeofday,
        numbers.clock_settime,
        numbers.mount,
    ]
}

/// Builds the filter of a sandbox on a target with the given system call numbers.
pub fn sandbox_filter_for(numbers: &SyscallNumbers) -> (filter: Vec<Instruction>)
    ensures
        filter@ == deny_program(low_words(numbers.listed())),
        loadable(filter@),
{
    let blocked = blocked_syscalls(numbers);
    let filter = build_filter(&blocked);
    proof {
        law_filter_is_loadable(low_words(numbers.listed()));
    }
    filter
}

/// Builds the filter of a sandbox on the target that this crate is compiled for.
pub fn sandbox_filter() -> (filter: Vec<Instruction>)
    ensures
        loadable(filter@),
        exists|numbers: SyscallNumbers|
            numbers.of_linux() && filter@ == deny_program(low_words(#[trigger] numbers.listed())),
{
    let numbers = target_syscalls();
    sandbox_filter_for(&numbers)
}

/// The numbers of every Linux target are ones that the kernel can report, so what the laws
/// say of such numbers holds of the filter that is built for the target.
pub proof fn law_linux_numbers_are_reportable(numbers: SyscallNumbers)
    requires
        numbers.of_linux(),
    ensures
        numbers.reportable(),
{
}

/// From comparison number `i` on, the filter decides by the numbers that are left.
proof fn lemma_outcome_of_comparisons(numbers: Seq<u32>, data: Seq<u32>, i: int)
    requires
        numbers.len() <= u8::MAX,
        0 <= i <= numbers.len(),
    ensures
        outcome_from(deny_program(numbers), data, i + 1, data[0]) == Some(
            if numbers.skip(i).contains(data[0]) {
                denied()
            } else {
                allowed()
            },
        ),
    decreases numbers.len() - i,
{
    let program = deny_program(numbers);
    let n = numbers.len() as int;
    let rest = numbers.skip(i);
    if i < n {
        assert(rest[0] == numbers[i]);
        if data[0] == numbers[i] {
            assert(rest.contains(data[0]));
            assert(program[n + 2] == give_verdict(denied()));
            assert(outcome_from(program, data, n + 2, data[0]) == Some(denied()));
        } else {
            lemma_outcome_of_comparisons(numbers, data, i + 1);
            let tail = numbers.skip(i + 1);
            if rest.contains(data[0]) {
                let j = choose|j: int| 0 <= j < rest.len() && rest[j] == data[0];
                assert(tail[j - 1] == data[0]);
            }
            if tail.contains(data[0]) {
                let j = choose|j: int| 0 <= j < tail.len() && tail[j] == data[0];
                assert(rest[j + 1] == data[0]);
            }
        }
    }
}

/// The filter denies exactly the listed system calls: a call whose number is listed fails
/// with `EPERM`, and every other call is allowed, whatever its arguments are.
pub proof fn law_filter_denies_exactly_the_listed(numbers: Seq<u32>, data: Seq<u32>)
    requires
        numbers.len() <= u8::MAX,
        data.len() > 0,
    ensures
        verdict(deny_program(numbers), data) == Some(
            if numbers.contains(data[0]) {
                denied()
            } else {
                allowed()
            },
        ),
{
    lemma_outcome_of_comparisons(numbers, data, 0);
    assert(numbers.skip(0) =~= numbers);
}

/// On every target, the filter of a sandbox makes the system calls that could undo it
/// fail with `EPERM`: tracing, BPF, reboot, kexec, kernel modules, swap, the clocks and
/// mounting.
pub proof fn law_escape_vectors_are_denied(numbers: SyscallNumbers, data: Seq<u32>)
    requires
        numbers.reportable(),
        data.len() > 0,
        numbers.listed().contains(data[0] as i64),
    ensures
        verdict(deny_program(low_words(numbers.listed())), data) == Some(denied()),
{
    let words = low_words(numbers.listed());
    let i = choose|i: int| 0 <= i < numbers.listed().len() && numbers.listed()[i] == data[0] as i64;
    assert(words[i] == data[0]);
    law_filter_denies_exactly_the_listed(words, data);
}

/// On every target, a system call that is not listed is allowed.
pub proof fn law_other_syscalls_are_allowed(numbers: SyscallNumbers, data: Seq<u32>)
    requires
        numbers.reportable(),
        data.len() > 0,
        !numbers.listed().contains(data[0] as i64),
    ensures
        verdict(deny_program(low_words(numbers.listed())), data) == Some(allowed()),
{
    let words = low_words(numbers.listed());
    if words.contains(data[0]) {
        let i = choose|i: int| 0 <= i < words.len() && words[i] == data[0];
        assert(numbers.listed()[i] == data[0] as i64);
        assert(false);
    }
    law_filter_denies_exactly_the_listed(words, data);
}

/// Every filter that is built is one that the kernel takes.
pub proof fn law_filter_is_loadable(numbers: Seq<u32>)
    requires
        numbers.len() <= u8::MAX,
    ensures
        loadable(deny_program(numbers)),
{
}

/// What is to be done next to put the filter in force.
#[derive(Clone, Copy, Debug, PartialEq, Eq, Structural)]
pub enum InstallStage {
    /// Give up the right to gain privileges (`PR_SET_NO_NEW_PRIVS`).
    SetNoNewPrivs,
    /// Hand the filter to the kernel (`PR_SET_SECCOMP`).
    SetFilter,
    /// Nothing: the filter is in force.
    Installed,
    /// Nothing: the first request was refused.
    NoNewPrivsRefused,
    /// Nothing: the second request was refused.
    FilterRefused,
}

impl InstallStage {
    /// The stage after the kernel answered the pending request with `status`: zero grants
    /// it, anything else refuses it.
    pub open spec fn after(self, status: i32) -> InstallStage {
        match self {
            InstallStage::SetNoNewPrivs => if status == 0 {
                InstallStage::SetFilter
            } else {
                InstallStage::NoNewPrivsRefused
            },
            InstallStage::SetFilter => if status == 0 {
                InstallStage::Installed
            } else {
                InstallStage::FilterRefused
            },
            _ => self,
        }
    }

    /// The first request.
    pub fn start() -> (stage: InstallStage)
        ensures
            stage == InstallStage::SetNoNewPrivs,
    {
        InstallStage::SetNoNewPrivs
    }

    /// Takes the kernel's answer to the pending request.
    pub fn advance(&mut self, status: i32) -> (stage: InstallStage)
        ensures
            *final(self) == old(self).after(status),
            stage == *final(self),
    {
        let stage = match *self {
            InstallStage::SetNoNewPrivs => if status != 0 {
                InstallStage::NoNewPrivsRefused
            } else {
                InstallStage::SetFilter
            },
            InstallStage::SetFilter => if status != 0 {
                InstallStage::FilterRefused
            } else {
                InstallStage::Installed
            },
            other => other,
        };
        *self = stage;
        stage
    }

    /// The result, once there is one; a refusal is named.
    pub fn result(&self) -> (result: Option<Result<(), String>>)
        ensures
            result is None <==> *self is SetNoNewPrivs || *self is SetFilter,
            result matches Some(Ok(_)) <==> *self is Installed,
            *self is NoNewPrivsRefused ==> (result matches Some(Err(e)) && e@
                == "Falha PR_SET_NO_NEW_PRIVS"@),
            *self is FilterRefused ==> (result matches Some(Err(e)) && e@ == "Falha Seccomp-BPF"@),
    {
        match self {
            InstallStage::SetNoNewPrivs => None,
            InstallStage::SetFilter => None,
            InstallStage::Installed => Some(Ok(())),
            InstallStage::NoNewPrivsRefused => Some(Err("Falha PR_SET_NO_NEW_PRIVS".to_owned())),
            InstallStage::FilterRefused => Some(Err("Falha Seccomp-BPF".to_owned())),
        }
    }
}

/// The filter is in force only if both requests were granted, the promise to gain no
/// privileges first.
pub proof fn law_filter_needs_both_grants(first: i32, second: i32)
    ensures
        InstallStage::SetNoNewPrivs.after(first).after(second) is Installed <==> first == 0
            && second == 0,
        first != 0 ==> InstallStage::SetNoNewPrivs.after(first).after(second)
            is NoNewPrivsRefused,
        first == 0 && second != 0 ==> InstallStage::SetNoNewPrivs.after(first).after(second)
            is FilterRefused,
{
}

/// The listing of a filter: the number of the call is loaded, compared with each of
/// `numbers` in their order, and a comparison that holds goes to the last instruction, which
/// denies with `EPERM`; the one before it allows.
pub proof fn law_filter_is_this_listing(numbers: Seq<u32>)
    requires
        numbers.len() <= 255,
    ensures
        ({
            let program = deny_program(numbers);
            let n = numbers.len() as int;
            &&& program.len() == n + 3
            &&& program[0] == (Instruction { code: 0x20, jt: 0, jf: 0, k: 0 })
            &&& forall|i: int|
                0 <= i < n ==> (#[trigger] numbers[i] == program[i + 1].k && program[i + 1].code
                    == 0x15 && program[i + 1].jf == 0 && i + 1 + 1 + program[i + 1].jt == n + 2)
            &&& program[n + 1] == (Instruction { code: 0x06, jt: 0, jf: 0, k: 0x7fff_0000 })
            &&& program[n + 2] == (Instruction { code: 0x06, jt: 0, jf: 0, k: 0x0005_0001 })
        }),
{
}

/// A filter fails a call with `EPERM` if its number is listed and lets it through if it is
/// not, wherever in the list it stands.
pub proof fn law_filter_gives_these_verdicts(numbers: Seq<u32>, data: Seq<u32>)
    requires
        numbers.len() <= 255,
        data.len() > 0,
    ensures
        (exists|i: int| 0 <= i < numbers.len() && #[trigger] numbers[i] == data[0]) ==> verdict(
            deny_program(numbers),
            data,
        ) == Some(0x0005_0001u32),
        (forall|i: int| 0 <= i < numbers.len() ==> #[trigger] numbers[i] != data[0]) ==> verdict(
            deny_program(numbers),
            data,
        ) == Some(0x7fff_0000u32),
{
    law_filter_denies_exactly_the_listed(numbers, data);
}

/// What is compared of a number are its low 32 bits, one for one: a number that fits in
/// them is compared as it is.
pub proof fn law_numbers_are_compared_by_their_low_bits(numbers: Seq<i64>, i: int)
    requires
        0 <= i < numbers.len(),
    ensures
        low_words(numbers).len() == numbers.len(),
        low_words(numbers)[i] as i64 == numbers[i] & 0xffff_ffff,
        0 <= numbers[i] <= 0xffff_ffff ==> low_words(numbers)[i] == numbers[i],
{
    let number = numbers[i];
    assert((number as u32) as i64 == number & 0xffff_ffff) by (bit_vector);
}

/// On every target the filter of a sandbox denies exactly the twelve calls that are named:
/// a call that has the number of one of them fails with `EPERM`, and any other is let
/// through.
pub proof fn law_these_calls_are_denied(numbers: SyscallNumbers, data: Seq<u32>)
    requires
        numbers.reportable(),
        data.len() > 0,
    ensures
        ({
            let call = data[0] as i64;
            let is_named = call == numbers.ptrace || call == numbers.bpf || call == numbers.reboot
                || call == numbers.kexec_load || call == numbers.init_module || call
                == numbers.finit_module || call == numbers.delete_module || call
                == numbers.swapon || call == numbers.swapoff || call == numbers.settimeofday
                || call == numbers.clock_settime || call == numbers.mount;
            verdict(deny_program(low_words(numbers.listed())), data) == Some(
                if is_named {
                    0x0005_0001u32
                } else {
                    0x7fff_0000u32
                },
            )
        }),
{
    let listed = numbers.listed();
    let call = data[0] as i64;
    assert(listed[0] == numbers.ptrace && listed[1] == numbers.bpf && listed[2] == numbers.reboot);
    assert(listed[3] == numbers.kexec_load && listed[4] == numbers.init_module);
    assert(listed[5] == numbers.finit_module && listed[6] == numbers.delete_module);
    assert(listed[7] == numbers.swapon && listed[8] == numbers.swapoff);
    assert(listed[9] == numbers.settimeofday && listed[10] == numbers.clock_settime);
    assert(listed[11] == numbers.mount);
    if listed.contains(call) {
        law_escape_vectors_are_denied(numbers, data);
    } else {
        law_other_syscalls_are_allowed(numbers, data);
    }
}

/// The numbers are compared in this order, and there are twelve.
pub proof fn law_denied_calls_in_order(numbers: SyscallNumbers)
    ensures
        numbers.listed() == seq![
            numbers.ptrace,
            numbers.bpf,
            numbers.reboot,
            numbers.kexec_load,
            numbers.init_module,
            numbers.finit_module,
            numbers.delete_module,
            numbers.swapon,
            numbers.swapoff,
            numbers.settimeofday,
            numbers.clock_settime,
            numbers.mount,
        ],
{
}

/// Each answer of the kernel counts for the request that is pending, zero as a grant and
/// every other number as a refusal; what is decided stays.
pub proof fn law_answer_counts_for_the_request(stage: InstallStage, status: i32)
    ensures
        match stage {
            InstallStage::SetNoNewPrivs => {
                &&& stage.after(status) is SetFilter <==> status == 0
                &&& stage.after(status) is NoNewPrivsRefused <==> status != 0
            },
            InstallStage::SetFilter => {
                &&& stage.after(status) is Installed <==> status == 0
                &&& stage.after(status) is FilterRefused <==> status != 0
            },
            InstallStage::Installed
            | InstallStage::NoNewPrivsRefused
            | InstallStage::FilterRefused => stage.after(status) == stage,
        },
{
}

} // verus!
