//! What is asked of a sandbox, and what it answers.
use vstd::prelude::*;

use crate::namespaces::{asks_for, sandbox_bits, sandbox_flags, Namespace};

verus! {

/// A command to run, with the limits it runs under.
#[derive(Debug)]
pub struct ExecutionRequest {
    /// The command, in the language of the shell.
    pub cmd: String,
    /// How long the command may run, in milliseconds.
    pub timeout_ms: u32,
    /// Whether the command may use the network; it may not if nothing is said.
    pub allow_network: Option<bool>,
}

/// How a command ended, and what it wrote.
#[derive(Debug)]
pub struct ExecutionResponse {
    /// The exit code of the command, or the code that stands for how it ended.
    pub exit_code: i32,
    /// Whether the command was killed because its time was over.
    pub timed_out: bool,
    /// What the command wrote to its standard output.
    pub stdout: String,
    /// What the command wrote to its standard error.
    pub stderr: String,
    /// How long the sandbox existed, in microseconds.
    pub duration_us: u128,
}

impl ExecutionRequest {
    /// The command gets no network unless the request allows it.
    pub open spec fn isolates_network(self) -> bool {
        self.allow_network != Some(true)
    }

    /// Whether the command runs in a network namespace of its own.
    pub fn is_network_isolated(&self) -> (isolated: bool)
        ensures
            isolated == self.isolates_network(),
    {
        match self.allow_network {
            Some(allowed) => !allowed,
            None => true,
        }
    }

    /// The flags with which the command leaves the host's namespaces: it keeps the host's
    /// network only if the request allows it.
    pub fn namespace_flags(&self) -> (flags: i32)
        ensures
            flags == sandbox_bits(self.isolates_network()),
            asks_for(flags, Namespace::Net) <==> self.allow_network != Some(true),
    {
        sandbox_flags(self.is_network_isolated())
    }
}

impl ExecutionResponse {
    /// The response where no process could be started.
    pub fn fork_failed(duration_us: u128) -> (response: ExecutionResponse)
        ensures
            response.exit_code == -1,
            !response.timed_out,
            response.stdout@ == Seq::<char>::empty(),
            response.stderr@ == "Falha ao disparar fork"@,
            response.duration_us == duration_us,
    {
        ExecutionResponse {
            exit_code: -1,
            timed_out: false,
            stdout: String::new(),
            stderr: "Falha ao disparar fork".to_owned(),
            duration_us,
        }
    }
}

/// Whatever else a request says, its command keeps the host's network exactly if the
/// request allows it: the flags are those of the four namespaces every sandbox gets, and
/// that of the network unless it is allowed.
pub proof fn law_network_goes_by_what_is_allowed(request: ExecutionRequest)
    ensures
        request.isolates_network() <==> request.allow_network != Some(true),
        sandbox_bits(request.isolates_network()) == if request.allow_network == Some(true) {
            0x2c02_0000i32
        } else {
            0x6c02_0000i32
        },
{
    assert(0x0002_0000i32 | 0x0800_0000i32 | 0x0400_0000i32 | 0x2000_0000i32 == 0x2c02_0000i32)
        by (bit_vector);
    assert(0x2c02_0000i32 | 0x4000_0000i32 == 0x6c02_0000i32) by (bit_vector);
}

} // verus!
