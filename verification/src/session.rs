//! Sessions: each has a number, and directories of its own.
use vstd::prelude::*;

use crate::text::{decimal, decimal_text, law_decimal_is_digits, law_decimal_reads_back};

verus! {

/// The number of a session that begins `later` sessions after the one with the number
/// `first`: numbers start over once they no longer fit in 64 bits.
pub open spec fn session_number(first: u64, later: nat) -> int {
    (first + later) % 0x1_0000_0000_0000_0000
}

/// Gives each session its number.
pub struct SessionCounter {
    next: u64,
}

impl View for SessionCounter {
    type V = u64;

    /// The number of the session that begins next.
    closed spec fn view(&self) -> u64 {
        self.next
    }
}

impl SessionCounter {
    /// The first session has the number one.
    pub fn new() -> (counter: SessionCounter)
        ensures
            counter@ == 1,
    {
        SessionCounter { next: 1 }
    }

    /// Begins a session, and returns its number.
    pub fn begin(&mut self) -> (number: u64)
        ensures
            number == old(self)@,
            final(self)@ == session_number(old(self)@, 1),
    {
        let number = self.next;
        self.next = number.wrapping_add(1);
        number
    }
}

/// The directory of a session.
pub open spec fn root_of(number: u64) -> Seq<char> {
    "/tmp/forkbox_sess_"@ + decimal(number as nat)
}

/// Where the files that the command of a session writes go.
pub open spec fn upper_of(number: u64) -> Seq<char> {
    root_of(number) + "/upper"@
}

/// Where the overlay of a session keeps what it works on.
pub open spec fn work_of(number: u64) -> Seq<char> {
    root_of(number) + "/work"@
}

/// Where the host's files and those of the command of a session are seen as one tree.
pub open spec fn merged_of(number: u64) -> Seq<char> {
    root_of(number) + "/merged"@
}

/// The number of the session that a counter begins next, after it began `begun` sessions,
/// the first of them with the number `first`.
pub open spec fn counter_after(first: u64, begun: nat) -> u64
    decreases begun,
{
    if begun == 0 {
        first
    } else {
        session_number(counter_after(first, (begun - 1) as nat), 1) as u64
    }
}

/// The directories of a session.
pub struct SessionPaths {
    /// The directory that holds the others; a file system in memory is mounted over it.
    pub root: String,
    /// Where the files that the command writes go.
    pub upper: String,
    /// Where the overlay file system keeps what it works on.
    pub work: String,
    /// Where the host's files and those of the command are seen as one tree.
    pub merged: String,
}

impl SessionPaths {
    /// The directories are those of the session with this number.
    pub open spec fn belongs_to(self, number: u64) -> bool {
        &&& self.root@ == root_of(number)
        &&& self.upper@ == upper_of(number)
        &&& self.work@ == work_of(number)
        &&& self.merged@ == merged_of(number)
    }

    /// Names the directories of a session.
    pub fn new(number: u64) -> (paths: SessionPaths)
        ensures
            paths.belongs_to(number),
    {
        let root = "/tmp/forkbox_sess_".to_owned().concat(decimal_text(number).as_str());
        let upper = root.clone().concat("/upper");
        let work = root.clone().concat("/work");
        let merged = root.clone().concat("/merged");
        SessionPaths { root, upper, work, merged }
    }

    /// The options of the overlay file system: the host's files lie below, unwritten, and
    /// all that the command writes goes to the session's own directories.
    pub fn overlay_options(&self) -> (options: String)
        ensures
            options@ == "lowerdir=/,upperdir="@ + self.upper@ + ",workdir="@ + self.work@,
    {
        "lowerdir=/,upperdir=".to_owned().concat(self.upper.as_str()).concat(",workdir=").concat(
            self.work.as_str(),
        )
    }
}

/// Two sessions of one counter have different numbers, unless so many sessions begin
/// between them that the numbers start over.
pub proof fn law_session_numbers_differ(first: u64, i: nat, j: nat)
    requires
        i < j < i + 0x1_0000_0000_0000_0000,
    ensures
        session_number(first, i) != session_number(first, j),
{
}

/// Session number `n` of a new counter, counted from one, has the number `n` and the
/// directory that ends in it, until numbers no longer fit in 64 bits.
pub proof fn law_sessions_are_numbered_in_order(n: u64)
    requires
        n >= 1,
    ensures
        counter_after(1, (n - 1) as nat) == n,
        root_of(counter_after(1, (n - 1) as nat)) == "/tmp/forkbox_sess_"@ + decimal(n as nat),
    decreases n,
{
    if n > 1 {
        law_sessions_are_numbered_in_order((n - 1) as u64);
    }
}

/// Each session begun moves the count by one.
pub proof fn law_session_numbers_follow(first: u64, later: nat)
    ensures
        session_number(session_number(first, 1) as u64, later) == session_number(first, later + 1),
{
}

/// No path lies in the directories of two sessions.
pub proof fn law_sessions_share_no_path(a: u64, b: u64, x: Seq<char>, y: Seq<char>)
    requires
        a != b,
    ensures
        root_of(a) != root_of(b),
        root_of(a) + seq!['/'] + x != root_of(b) + seq!['/'] + y,
{
    let head = "/tmp/forkbox_sess_"@;
    let da = decimal(a as nat);
    let db = decimal(b as nat);
    law_decimal_reads_back(a as nat);
    law_decimal_reads_back(b as nat);
    law_decimal_is_digits(a as nat);
    law_decimal_is_digits(b as nat);
    let n = head.len() as int;
    if root_of(a) == root_of(b) {
        assert(root_of(a).skip(n) =~= da);
        assert(root_of(b).skip(n) =~= db);
    }
    let pa = root_of(a) + seq!['/'] + x;
    let pb = root_of(b) + seq!['/'] + y;
    if pa == pb {
        if da.len() < db.len() {
            assert(pa[n + da.len()] == '/');
            assert(pb[n + da.len()] == db[da.len() as int]);
        } else if db.len() < da.len() {
            assert(pb[n + db.len()] == '/');
            assert(pa[n + db.len()] == da[db.len() as int]);
        } else {
            assert forall|i: int| 0 <= i < da.len() implies da[i] == db[i] by {
                assert(pa[n + i] == da[i]);
                assert(pb[n + i] == db[i]);
            }
            assert(da =~= db);
        }
    }
}

/// The directory of a session does not lie in that of any session.
pub proof fn law_directory_lies_in_no_session(a: u64, b: u64, x: Seq<char>)
    ensures
        root_of(a) != root_of(b) + seq!['/'] + x,
{
    let n = "/tmp/forkbox_sess_"@.len() as int;
    let da = decimal(a as nat);
    let db = decimal(b as nat);
    let inside = root_of(b) + seq!['/'] + x;
    law_decimal_is_digits(a as nat);
    if root_of(a) == inside {
        assert(root_of(a).len() == n + da.len());
        assert(inside.len() == n + db.len() + 1 + x.len());
        assert(inside[n + db.len()] == '/');
        assert(root_of(a)[n + db.len()] == da[db.len() as int]);
    }
}

/// All directories of a session lie in its own: what is mounted over that one holds all
/// that the command writes.
pub proof fn law_directories_lie_in_the_session(paths: SessionPaths, number: u64)
    requires
        paths.belongs_to(number),
    ensures
        (paths.root@ + seq!['/']).is_prefix_of(paths.upper@),
        (paths.root@ + seq!['/']).is_prefix_of(paths.work@),
        (paths.root@ + seq!['/']).is_prefix_of(paths.merged@),
{
    reveal_strlit("/upper");
    reveal_strlit("/work");
    reveal_strlit("/merged");
}

/// The three directories of a session differ.
pub proof fn law_directories_of_a_session_differ(paths: SessionPaths, number: u64)
    requires
        paths.belongs_to(number),
    ensures
        paths.upper@ != paths.work@,
        paths.upper@ != paths.merged@,
        paths.work@ != paths.merged@,
{
    reveal_strlit("/upper");
    reveal_strlit("/work");
    reveal_strlit("/merged");
    let n = root_of(number).len() as int;
    assert(paths.upper@[n + 1] == 'u');
    assert(paths.work@[n + 1] == 'w');
    assert(paths.merged@[n + 1] == 'm');
}

/// The number of a session follows that of the one before it, by one, and zero follows the
/// largest number there is; `later` sessions further on it has moved by `later`, counted
/// around.
pub proof fn law_session_numbers_go_up_by_one(first: u64, later: nat)
    ensures
        session_number(first, 0) == first,
        session_number(first, 1) == if first == u64::MAX {
            0
        } else {
            first + 1
        },
        0 <= session_number(first, later) <= u64::MAX,
        first + later <= u64::MAX ==> session_number(first, later) == first + later,
        (first + later - session_number(first, later)) % 0x1_0000_0000_0000_0000 == 0,
{
}

/// The directory of every session is `/tmp/forkbox_sess_` and its number in decimal, and
/// the other three lie in it under their names.
pub proof fn law_directories_are_named_after_the_number(number: u64)
    ensures
        root_of(number) == "/tmp/forkbox_sess_"@ + decimal(number as nat),
        upper_of(number) == "/tmp/forkbox_sess_"@ + decimal(number as nat) + "/upper"@,
        work_of(number) == "/tmp/forkbox_sess_"@ + decimal(number as nat) + "/work"@,
        merged_of(number) == "/tmp/forkbox_sess_"@ + decimal(number as nat) + "/merged"@,
{
}

/// Directories belong to a session exactly if each has the name that the session's number
/// gives it.
pub proof fn law_directories_belong_by_their_names(paths: SessionPaths, number: u64)
    ensures
        paths.belongs_to(number) <==> {
            &&& paths.root@ == "/tmp/forkbox_sess_"@ + decimal(number as nat)
            &&& paths.upper@ == paths.root@ + "/upper"@
            &&& paths.work@ == paths.root@ + "/work"@
            &&& paths.merged@ == paths.root@ + "/merged"@
        },
{
}

} // verus!
