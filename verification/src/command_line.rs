//! What the program is asked to do by its arguments.
use vstd::prelude::*;

use crate::request::ExecutionRequest;
use crate::text::{
    join_from, joined, law_joined_holds_every_word, law_texts_are_those_of_the_strings, texts,
};

verus! {

/// How long a command given as an argument may run, in milliseconds.
pub const COMMAND_TIMEOUT_MS: u32 = 5000;

/// What the program is asked to do.
#[derive(Debug)]
pub enum Invocation {
    /// Serve clients.
    Daemon,
    /// Carry out one request, and end with its exit code.
    Exec(ExecutionRequest),
    /// Show that the sandbox works.
    SelfTest,
}

/// The arguments ask for the daemon: the first one after the program's name is `daemon`.
pub open spec fn asks_for_daemon(args: Seq<Seq<char>>) -> bool {
    args.len() >= 2 && args[1] == "daemon"@
}

/// The arguments ask for a command: `exec`, and at least one word after it.
pub open spec fn asks_for_command(args: Seq<Seq<char>>) -> bool {
    args.len() >= 3 && args[1] == "exec"@
}

/// Reads the arguments, of which the first is the program's name.
pub fn read_arguments(args: &Vec<String>) -> (invocation: Invocation)
    ensures
        invocation is Daemon <==> asks_for_daemon(texts(args@)),
        invocation is Exec <==> !asks_for_daemon(texts(args@)) && asks_for_command(texts(args@)),
        invocation is Daemon <==> args@.len() >= 2 && args@[1]@ == "daemon"@,
        invocation is Exec <==> args@.len() >= 3 && args@[1]@ == "exec"@,
        invocation matches Invocation::Exec(request) ==> request.timeout_ms == 5000,
        invocation matches Invocation::Exec(request) ==> {
            &&& request.cmd@ == joined(texts(args@).skip(2))
            &&& request.timeout_ms == COMMAND_TIMEOUT_MS
            &&& request.allow_network == Some(false)
        },
{
    proof {
        law_first_argument_decides(texts(args@));
        law_texts_are_those_of_the_strings(args@);
    }
    if args.len() >= 2 && args[1].eq(&"daemon".to_owned()) {
        return Invocation::Daemon;
    }
    if args.len() >= 3 && args[1].eq(&"exec".to_owned()) {
        let cmd = join_from(args, 2);
        return Invocation::Exec(
            ExecutionRequest { cmd, timeout_ms: COMMAND_TIMEOUT_MS, allow_network: Some(false) },
        );
    }
    Invocation::SelfTest
}

/// The program serves clients exactly if its first argument is `daemon`, and runs a command
/// exactly if its first argument is `exec` and another one follows; the two never meet.
pub proof fn law_first_argument_decides(args: Seq<Seq<char>>)
    ensures
        asks_for_daemon(args) <==> args.len() >= 2 && args[1] == seq!['d', 'a', 'e', 'm', 'o', 'n'],
        asks_for_command(args) <==> args.len() >= 3 && args[1] == seq!['e', 'x', 'e', 'c'],
        !(asks_for_daemon(args) && asks_for_command(args)),
{
    reveal_strlit("daemon");
    reveal_strlit("exec");
    assert("daemon"@ =~= seq!['d', 'a', 'e', 'm', 'o', 'n']);
    assert("exec"@ =~= seq!['e', 'x', 'e', 'c']);
    assert(seq!['d', 'a', 'e', 'm', 'o', 'n'].len() != seq!['e', 'x', 'e', 'c'].len());
}

/// The command that the arguments ask for holds every argument after `exec`, whole and in
/// its place, with one space between each two and nothing else.
pub proof fn law_command_holds_every_argument(args: Seq<String>, i: int)
    requires
        asks_for_command(texts(args)),
        2 <= i < args.len(),
    ensures
        ({
            let words = texts(args).skip(2);
            let cmd = joined(words);
            let at = words.take(i - 2).flatten().len() + (i - 2);
            &&& cmd.len() == words.flatten().len() + args.len() - 3
            &&& at + args[i]@.len() <= cmd.len()
            &&& cmd.subrange(at, at + args[i]@.len()) == args[i]@
            &&& i > 2 ==> cmd[at - 1] == ' '
        }),
{
    let words = texts(args).skip(2);
    law_texts_are_those_of_the_strings(args);
    law_joined_holds_every_word(words);
    assert(words[i - 2] == args[i]@);
}

} // verus!
