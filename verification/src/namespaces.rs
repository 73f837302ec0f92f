//! The namespaces that a sandbox is put in, and how it becomes root in its own.
use vstd::prelude::*;

use crate::platform::namespace_bits;
use crate::text::{decimal, decimal_text, law_decimal_reads_back};

verus! {

/// A kind of namespace that a process can have of its own.
#[derive(Clone, Copy, Debug, PartialEq, Eq, Structural)]
pub enum Namespace {
    User,
    Mount,
    Ipc,
    Uts,
    Pid,
    Net,
}

/// The bit that asks the kernel for a new namespace of a kind.
pub open spec fn namespace_bit(kind: Namespace) -> i32 {
    match kind {
        Namespace::User => 0x1000_0000,
        Namespace::Mount => 0x0002_0000,
        Namespace::Ipc => 0x0800_0000,
        Namespace::Uts => 0x0400_0000,
        Namespace::Pid => 0x2000_0000,
        Namespace::Net => 0x4000_0000,
    }
}

/// Whether `flags` ask for a new namespace of a kind.
pub open spec fn asks_for(flags: i32, kind: Namespace) -> bool {
    flags & namespace_bit(kind) == namespace_bit(kind)
}

/// The kinds of namespaces that a sandbox gets beside the one of users.
pub open spec fn is_isolated(kind: Namespace, isolate_network: bool) -> bool {
    match kind {
        Namespace::User => false,
        Namespace::Net => isolate_network,
        _ => true,
    }
}

/// The bits of the namespaces of a sandbox: mounts, IPC, host name and processes, and the
/// network if it is to be isolated.
pub open spec fn sandbox_bits(isolate_network: bool) -> i32 {
    let bits = namespace_bit(Namespace::Mount) | namespace_bit(Namespace::Ipc) | namespace_bit(
        Namespace::Uts,
    ) | namespace_bit(Namespace::Pid);
    if isolate_network {
        bits | namespace_bit(Namespace::Net)
    } else {
        bits
    }
}

/// The flags with which the namespace of users is left.
pub fn user_namespace_flags() -> (flags: i32)
    ensures
        flags == namespace_bit(Namespace::User),
{
    namespace_bits().user
}

/// The flags with which the other namespaces are left.
pub fn sandbox_flags(isolate_network: bool) -> (flags: i32)
    ensures
        flags == sandbox_bits(isolate_network),
        forall|kind: Namespace| #[trigger]
            asks_for(flags, kind) <==> is_isolated(kind, isolate_network),
{
    let bits = namespace_bits();
    let mut flags: i32 = bits.mount | bits.ipc | bits.uts | bits.pid;
    if isolate_network {
        flags = flags | bits.net;
    }
    proof {
        law_flags_ask_for_what_is_isolated(isolate_network);
    }
    flags
}

/// The flags that keep what is mounted in a sandbox from the host: the whole tree of
/// mounts is made private.
pub fn private_mount_flags() -> (flags: u64)
    ensures
        flags == 0x4_4000,
{
    let bits = namespace_bits();
    assert(0x4000u64 | 0x4_0000u64 == 0x4_4000u64) by (bit_vector);
    bits.mount_recursive | bits.mount_private
}

/// The flags with which the merged tree is unmounted: it is detached at once, and goes away
/// when it is no longer in use.
pub fn unmount_flags() -> (flags: i32)
    ensures
        flags == 2,
{
    namespace_bits().unmount_detach
}

/// The flags of a sandbox ask for exactly the namespaces that isolate it.
pub proof fn law_flags_ask_for_what_is_isolated(isolate_network: bool)
    ensures
        forall|kind: Namespace| #[trigger]
            asks_for(sandbox_bits(isolate_network), kind) <==> is_isolated(kind, isolate_network),
{
    assert forall|kind: Namespace| #[trigger]
        asks_for(sandbox_bits(isolate_network), kind) <==> is_isolated(kind, isolate_network) by {
        let base = 0x0002_0000i32 | 0x0800_0000i32 | 0x0400_0000i32 | 0x2000_0000i32;
        let bit = namespace_bit(kind);
        assert(base == 0x2c02_0000i32) by (bit_vector)
            requires
                base == 0x0002_0000i32 | 0x0800_0000i32 | 0x0400_0000i32 | 0x2000_0000i32,
        ;
        assert((0x2c02_0000i32 | 0x4000_0000i32) == 0x6c02_0000i32) by (bit_vector);
        assert(bit == 0x1000_0000i32 ==> 0x2c02_0000i32 & bit != bit && 0x6c02_0000i32 & bit
            != bit) by (bit_vector);
        assert(bit == 0x4000_0000i32 ==> 0x2c02_0000i32 & bit != bit && 0x6c02_0000i32 & bit
            == bit) by (bit_vector);
        assert((bit == 0x0002_0000i32 || bit == 0x0800_0000i32 || bit == 0x0400_0000i32 || bit
            == 0x2000_0000i32) ==> 0x2c02_0000i32 & bit == bit && 0x6c02_0000i32 & bit == bit)
            by (bit_vector);
    }
}

/// Where the kernel is told that a process will not change its groups.
pub const SETGROUPS_PATH: &'static str = "/proc/self/setgroups";

/// Where the kernel is told which user of the host is root in a namespace.
pub const UID_MAP_PATH: &'static str = "/proc/self/uid_map";

/// Where the kernel is told which group of the host is root in a namespace.
pub const GID_MAP_PATH: &'static str = "/proc/self/gid_map";

/// The line that makes one user or group of the host, and no other, root in a namespace.
pub open spec fn root_mapping(id: u32) -> Seq<char> {
    "0 "@ + decimal(id as nat) + " 1\n"@
}

/// Writes the line that makes the user or group `id` of the host root in a namespace.
pub fn root_mapping_line(id: u32) -> (line: String)
    ensures
        line@ == root_mapping(id),
{
    "0 ".to_owned().concat(decimal_text(id as u64).as_str()).concat(" 1\n")
}

/// Two users or groups are not mapped by the same line.
pub proof fn law_mapping_names_one_id(a: u32, b: u32)
    requires
        root_mapping(a) == root_mapping(b),
    ensures
        a == b,
{
    let da = decimal(a as nat);
    let db = decimal(b as nat);
    let n = "0 "@.len() as int;
    law_decimal_reads_back(a as nat);
    law_decimal_reads_back(b as nat);
    assert(root_mapping(a).len() == n + da.len() + " 1\n"@.len());
    assert(root_mapping(b).len() == n + db.len() + " 1\n"@.len());
    assert(root_mapping(a).subrange(n, n + da.len()) =~= da);
    assert(root_mapping(b).subrange(n, n + db.len()) =~= db);
}

/// How an attempt went.
#[derive(Debug)]
pub enum Outcome {
    /// It worked.
    Done,
    /// It did not, for this reason.
    Failed(String),
}

/// What is to be done next to become root in a namespace of users.
#[derive(Clone, Copy, Debug, PartialEq, Eq, Structural)]
pub enum EntryStage {
    /// Leave the host's namespace of users.
    Unshare,
    /// Say whether `SETGROUPS_PATH` exists.
    ProbeSetgroups,
    /// Write that the groups will not change: the kernel asks for that first.
    DenySetgroups,
    /// Write which user is root.
    WriteUidMap,
    /// Write which group is root.
    WriteGidMap,
    /// Nothing: the process is root in its namespace.
    Entered,
    /// Nothing: it could not be done.
    Failed,
}

/// What came of the pending step.
#[derive(Debug)]
pub enum EntryEvent {
    /// How it went.
    Tried(Outcome),
    /// Whether the file that was looked for exists.
    Found(bool),
}

/// The state of an entry into a namespace of users.
pub struct Entry {
    /// What is to be done next.
    pub stage: EntryStage,
    /// Why it could not be done, if it could not.
    pub error: Option<Seq<char>>,
    /// The user of the host that becomes root.
    pub uid: u32,
    /// The group of the host that becomes root.
    pub gid: u32,
}

impl Entry {
    /// The entry of a process that is this user and in this group on the host, and has
    /// done nothing yet.
    pub open spec fn begun(uid: u32, gid: u32) -> Entry {
        Entry { stage: EntryStage::Unshare, error: None, uid, gid }
    }

    /// The entry goes on with this stage.
    pub open spec fn at(self, stage: EntryStage) -> Entry {
        Entry { stage, error: None, ..self }
    }

    /// The entry ends: the step called `step` failed for this reason.
    pub open spec fn failed(self, step: Seq<char>, reason: Seq<char>) -> Entry {
        Entry {
            stage: EntryStage::Failed,
            error: Some("Falha "@ + step + ": "@ + reason),
            ..self
        }
    }

    /// The entry after the pending step had this outcome. An event that does not answer
    /// the pending step changes nothing.
    pub open spec fn after(self, event: EntryEvent) -> Entry {
        match (self.stage, event) {
            (EntryStage::Unshare, EntryEvent::Tried(outcome)) => match outcome {
                Outcome::Done => self.at(EntryStage::ProbeSetgroups),
                Outcome::Failed(reason) => self.failed("CLONE_NEWUSER"@, reason@),
            },
            (EntryStage::ProbeSetgroups, EntryEvent::Found(found)) => if found {
                self.at(EntryStage::DenySetgroups)
            } else {
                self.at(EntryStage::WriteUidMap)
            },
            (EntryStage::DenySetgroups, EntryEvent::Tried(_)) => self.at(EntryStage::WriteUidMap),
            (EntryStage::WriteUidMap, EntryEvent::Tried(outcome)) => match outcome {
                Outcome::Done => self.at(EntryStage::WriteGidMap),
                Outcome::Failed(reason) => self.failed("uid_map"@, reason@),
            },
            (EntryStage::WriteGidMap, EntryEvent::Tried(outcome)) => match outcome {
                Outcome::Done => self.at(EntryStage::Entered),
                Outcome::Failed(reason) => self.failed("gid_map"@, reason@),
            },
            _ => self,
        }
    }

    /// The file that the pending step writes and what it writes there, if it writes one.
    pub open spec fn write(self) -> Option<(Seq<char>, Seq<char>)> {
        match self.stage {
            EntryStage::DenySetgroups => Some((SETGROUPS_PATH@, "deny"@)),
            EntryStage::WriteUidMap => Some((UID_MAP_PATH@, root_mapping(self.uid))),
            EntryStage::WriteGidMap => Some((GID_MAP_PATH@, root_mapping(self.gid))),
            _ => None,
        }
    }

    /// The entry after these outcomes, in order.
    pub open spec fn after_all(self, events: Seq<EntryEvent>) -> Entry
        decreases events.len(),
    {
        if events.len() == 0 {
            self
        } else {
            self.after_all(events.drop_last()).after(events.last())
        }
    }

    /// Event number `i` reports that the step of this stage worked.
    pub open spec fn succeeds(self, events: Seq<EntryEvent>, i: int, stage: EntryStage) -> bool {
        &&& 0 <= i < events.len()
        &&& self.after_all(events.take(i)).stage == stage
        &&& events[i] == EntryEvent::Tried(Outcome::Done)
    }
}

/// A text to be written to a file.
#[derive(Debug)]
pub struct FileWrite {
    pub path: String,
    pub contents: String,
}

impl FileWrite {
    /// The text goes to this path and holds this.
    pub open spec fn is(self, path: Seq<char>, contents: Seq<char>) -> bool {
        self.path@ == path && self.contents@ == contents
    }
}

/// Makes a process root in a namespace of users of its own.
pub struct UserNamespace {
    stage: EntryStage,
    error: Option<String>,
    uid: u32,
    gid: u32,
}

impl View for UserNamespace {
    type V = Entry;

    closed spec fn view(&self) -> Entry {
        Entry {
            stage: self.stage,
            error: match self.error {
                Some(error) => Some(error@),
                None => None,
            },
            uid: self.uid,
            gid: self.gid,
        }
    }
}

impl UserNamespace {
    /// Begins the entry of a process that is this user and in this group on the host.
    pub fn new(uid: u32, gid: u32) -> (entry: UserNamespace)
        ensures
            entry@ == Entry::begun(uid, gid),
    {
        UserNamespace { stage: EntryStage::Unshare, error: None, uid, gid }
    }

    /// What is to be done next.
    pub fn stage(&self) -> (stage: EntryStage)
        ensures
            stage == self@.stage,
    {
        self.stage
    }

    /// What the pending step writes, if it writes a file.
    pub fn pending_write(&self) -> (write: Option<FileWrite>)
        ensures
            match self@.stage {
                EntryStage::DenySetgroups => write matches Some(w) && w.is(
                    SETGROUPS_PATH@,
                    "deny"@,
                ),
                EntryStage::WriteUidMap => write matches Some(w) && w.is(
                    UID_MAP_PATH@,
                    root_mapping(self@.uid),
                ),
                EntryStage::WriteGidMap => write matches Some(w) && w.is(
                    GID_MAP_PATH@,
                    root_mapping(self@.gid),
                ),
                _ => write is None,
            },
            match self@.write() {
                Some((path, contents)) => write matches Some(w) && w.path@ == path && w.contents@
                    == contents,
                None => write is None,
            },
    {
        match self.stage {
            EntryStage::DenySetgroups => Some(
                FileWrite { path: SETGROUPS_PATH.to_owned(), contents: "deny".to_owned() },
            ),
            EntryStage::WriteUidMap => Some(
                FileWrite { path: UID_MAP_PATH.to_owned(), contents: root_mapping_line(self.uid) },
            ),
            EntryStage::WriteGidMap => Some(
                FileWrite { path: GID_MAP_PATH.to_owned(), contents: root_mapping_line(self.gid) },
            ),
            _ => None,
        }
    }

    /// Takes the outcome of the pending step, and says what is to be done next.
    pub fn advance(&mut self, event: EntryEvent) -> (stage: EntryStage)
        ensures
            final(self)@ == old(self)@.after(event),
            stage == final(self)@.stage,
    {
        match (self.stage, event) {
            (EntryStage::Unshare, EntryEvent::Tried(outcome)) => match outcome {
                Outcome::Done => self.go_on(EntryStage::ProbeSetgroups),
                Outcome::Failed(reason) => self.give_up("CLONE_NEWUSER", reason),
            },
            (EntryStage::ProbeSetgroups, EntryEvent::Found(found)) => {
                if found {
                    self.go_on(EntryStage::DenySetgroups);
                } else {
                    self.go_on(EntryStage::WriteUidMap);
                }
            },
            (EntryStage::DenySetgroups, EntryEvent::Tried(_)) => {
                self.go_on(EntryStage::WriteUidMap);
            },
            (EntryStage::WriteUidMap, EntryEvent::Tried(outcome)) => match outcome {
                Outcome::Done => self.go_on(EntryStage::WriteGidMap),
                Outcome::Failed(reason) => self.give_up("uid_map", reason),
            },
            (EntryStage::WriteGidMap, EntryEvent::Tried(outcome)) => match outcome {
                Outcome::Done => self.go_on(EntryStage::Entered),
                Outcome::Failed(reason) => self.give_up("gid_map", reason),
            },
            _ => {},
        }
        self.stage
    }

    /// Goes on with a stage.
    fn go_on(&mut self, stage: EntryStage)
        ensures
            final(self)@ == old(self)@.at(stage),
    {
        self.stage = stage;
        self.error = None;
    }

    /// Ends the entry, because the step called `step` failed.
    fn give_up(&mut self, step: &str, reason: String)
        ensures
            final(self)@ == old(self)@.failed(step@, reason@),
    {
        self.stage = EntryStage::Failed;
        self.error = Some("Falha ".to_owned().concat(step).concat(": ").concat(reason.as_str()));
    }

    /// The result, once there is one.
    pub fn result(&self) -> (result: Option<Result<(), String>>)
        ensures
            match (self@.stage, self@.error) {
                (_, Some(error)) => result matches Some(Err(e)) && e@ == error,
                (EntryStage::Entered, None) => result matches Some(Ok(_)),
                (_, None) => result is None,
            },
    {
        match &self.error {
            Some(error) => Some(Err(error.clone())),
            None => match self.stage {
                EntryStage::Entered => Some(Ok(())),
                _ => None,
            },
        }
    }
}

/// A process is root in its namespace only once it left the host's, and the kernel took
/// the user and then the group.
pub proof fn law_root_needs_every_grant(uid: u32, gid: u32, events: Seq<EntryEvent>)
    requires
        Entry::begun(uid, gid).after_all(events).stage is Entered,
    ensures
        exists|i: int, j: int, k: int|
            i < j < k && #[trigger] Entry::begun(uid, gid).succeeds(events, i, EntryStage::Unshare)
                && #[trigger] Entry::begun(uid, gid).succeeds(events, j, EntryStage::WriteUidMap)
                && #[trigger] Entry::begun(uid, gid).succeeds(events, k, EntryStage::WriteGidMap),
    decreases events.len(),
{
    let begun = Entry::begun(uid, gid);
    let before = events.drop_last();
    let last = events.len() - 1;
    assert(events.take(last) =~= before);
    if begun.after_all(before).stage is Entered {
        law_root_needs_every_grant(uid, gid, before);
        let (i, j, k) = choose|i: int, j: int, k: int|
            i < j < k && #[trigger] begun.succeeds(before, i, EntryStage::Unshare)
                && #[trigger] begun.succeeds(before, j, EntryStage::WriteUidMap)
                && #[trigger] begun.succeeds(before, k, EntryStage::WriteGidMap);
        lemma_success_stays(uid, gid, events, i, EntryStage::Unshare);
        lemma_success_stays(uid, gid, events, j, EntryStage::WriteUidMap);
        lemma_success_stays(uid, gid, events, k, EntryStage::WriteGidMap);
    } else {
        lemma_group_follows_user(uid, gid, before);
        let (i, j) = choose|i: int, j: int|
            i < j && #[trigger] begun.succeeds(before, i, EntryStage::Unshare)
                && #[trigger] begun.succeeds(before, j, EntryStage::WriteUidMap);
        lemma_success_stays(uid, gid, events, i, EntryStage::Unshare);
        lemma_success_stays(uid, gid, events, j, EntryStage::WriteUidMap);
        assert(begun.succeeds(events, last, EntryStage::WriteGidMap));
    }
}

/// What happened before the last event also happened before it is counted in.
proof fn lemma_success_stays(uid: u32, gid: u32, events: Seq<EntryEvent>, i: int, stage: EntryStage)
    requires
        events.len() > 0,
        Entry::begun(uid, gid).succeeds(events.drop_last(), i, stage),
    ensures
        Entry::begun(uid, gid).succeeds(events, i, stage),
{
    assert(events.drop_last().take(i) =~= events.take(i));
}

/// The group is written only after the host's namespace was left and the user written.
proof fn lemma_group_follows_user(uid: u32, gid: u32, events: Seq<EntryEvent>)
    requires
        Entry::begun(uid, gid).after_all(events).stage is WriteGidMap,
    ensures
        exists|i: int, j: int|
            i < j && #[trigger] Entry::begun(uid, gid).succeeds(events, i, EntryStage::Unshare)
                && #[trigger] Entry::begun(uid, gid).succeeds(events, j, EntryStage::WriteUidMap),
    decreases events.len(),
{
    let begun = Entry::begun(uid, gid);
    let before = events.drop_last();
    let last = events.len() - 1;
    assert(events.take(last) =~= before);
    if begun.after_all(before).stage is WriteGidMap {
        lemma_group_follows_user(uid, gid, before);
        let (i, j) = choose|i: int, j: int|
            i < j && #[trigger] begun.succeeds(before, i, EntryStage::Unshare)
                && #[trigger] begun.succeeds(before, j, EntryStage::WriteUidMap);
        lemma_success_stays(uid, gid, events, i, EntryStage::Unshare);
        lemma_success_stays(uid, gid, events, j, EntryStage::WriteUidMap);
    } else {
        lemma_rest_follows_unshare(uid, gid, before);
        let i = choose|i: int| #[trigger] begun.succeeds(before, i, EntryStage::Unshare);
        lemma_success_stays(uid, gid, events, i, EntryStage::Unshare);
        assert(begun.succeeds(events, last, EntryStage::WriteUidMap));
    }
}

/// Nothing is written before the host's namespace was left.
proof fn lemma_rest_follows_unshare(uid: u32, gid: u32, events: Seq<EntryEvent>)
    requires
        ({
            let stage = Entry::begun(uid, gid).after_all(events).stage;
            stage is ProbeSetgroups || stage is DenySetgroups || stage is WriteUidMap
        }),
    ensures
        exists|i: int| #[trigger] Entry::begun(uid, gid).succeeds(events, i, EntryStage::Unshare),
    decreases events.len(),
{
    let begun = Entry::begun(uid, gid);
    let before = events.drop_last();
    let last = events.len() - 1;
    assert(events.take(last) =~= before);
    let stage = begun.after_all(before).stage;
    if stage is Unshare {
        assert(begun.succeeds(events, last, EntryStage::Unshare));
    } else {
        lemma_rest_follows_unshare(uid, gid, before);
        let i = choose|i: int| #[trigger] begun.succeeds(before, i, EntryStage::Unshare);
        lemma_success_stays(uid, gid, events, i, EntryStage::Unshare);
    }
}

/// An entry has a reason to report exactly if it failed.
pub proof fn law_failed_entry_has_a_reason(uid: u32, gid: u32, events: Seq<EntryEvent>)
    ensures
        Entry::begun(uid, gid).after_all(events).error is Some <==> Entry::begun(uid, gid).after_all(
            events,
        ).stage is Failed,
    decreases events.len(),
{
    if events.len() > 0 {
        law_failed_entry_has_a_reason(uid, gid, events.drop_last());
    }
}

/// An entry that ended stays as it is.
pub proof fn law_entry_ends(entry: Entry, events: Seq<EntryEvent>)
    requires
        entry.stage is Entered || entry.stage is Failed,
    ensures
        entry.after_all(events) == entry,
    decreases events.len(),
{
    if events.len() > 0 {
        law_entry_ends(entry, events.drop_last());
    }
}

/// The bits that ask for namespaces are those of the kernel, one for each kind, and the
/// flags of a sandbox are made of them: mounts, IPC, host name and processes in every case,
/// the network only if it is to be isolated, users never.
pub proof fn law_bits_are_those_of_the_kernel()
    ensures
        namespace_bit(Namespace::User) == 0x1000_0000,
        namespace_bit(Namespace::Mount) == 0x0002_0000,
        namespace_bit(Namespace::Ipc) == 0x0800_0000,
        namespace_bit(Namespace::Uts) == 0x0400_0000,
        namespace_bit(Namespace::Pid) == 0x2000_0000,
        namespace_bit(Namespace::Net) == 0x4000_0000,
        sandbox_bits(false) == 0x2c02_0000,
        sandbox_bits(true) == 0x6c02_0000,
{
    assert(0x0002_0000i32 | 0x0800_0000i32 | 0x0400_0000i32 | 0x2000_0000i32 == 0x2c02_0000i32)
        by (bit_vector);
    assert(0x2c02_0000i32 | 0x4000_0000i32 == 0x6c02_0000i32) by (bit_vector);
}

/// The line that maps a user or a group holds the number of root, that of the user or group
/// in decimal and the count of one, with a space between each two and the end of the line.
pub proof fn law_mapping_is_zero_id_one(id: u32)
    ensures
        root_mapping(id) == seq!['0', ' '] + decimal(id as nat) + seq![' ', '1', '\n'],
        root_mapping(id).len() == decimal(id as nat).len() + 5,
{
    reveal_strlit("0 ");
    reveal_strlit(" 1\n");
    assert("0 "@ =~= seq!['0', ' ']);
    assert(" 1\n"@ =~= seq![' ', '1', '\n']);
}

/// The files that the kernel reads are these.
pub proof fn law_files_of_the_kernel()
    ensures
        SETGROUPS_PATH@ == "/proc/self/setgroups"@,
        UID_MAP_PATH@ == "/proc/self/uid_map"@,
        GID_MAP_PATH@ == "/proc/self/gid_map"@,
{
}

/// Whatever happens, an entry is that of the user and the group it was begun with: so the
/// line that is pending for users names this user, and the one for groups this group.
pub proof fn law_entry_keeps_its_user_and_group(uid: u32, gid: u32, events: Seq<EntryEvent>)
    ensures
        Entry::begun(uid, gid) == (Entry { stage: EntryStage::Unshare, error: None, uid, gid }),
        Entry::begun(uid, gid).after_all(events).uid == uid,
        Entry::begun(uid, gid).after_all(events).gid == gid,
        root_mapping(Entry::begun(uid, gid).after_all(events).uid) == seq!['0', ' '] + decimal(
            uid as nat,
        ) + seq![' ', '1', '\n'],
        root_mapping(Entry::begun(uid, gid).after_all(events).gid) == seq!['0', ' '] + decimal(
            gid as nat,
        ) + seq![' ', '1', '\n'],
    decreases events.len(),
{
    law_mapping_is_zero_id_one(uid);
    law_mapping_is_zero_id_one(gid);
    if events.len() > 0 {
        law_entry_keeps_its_user_and_group(uid, gid, events.drop_last());
    }
}

/// The write that is pending after any events is for the user and the group that the entry
/// was begun with: the line for users holds this user, the line for groups this group, each
/// in decimal between `0` and `1`, and each goes to its own file. No other stage but that of
/// the groups' denial writes.
pub proof fn law_pending_write_names_the_given_ids(uid: u32, gid: u32, events: Seq<EntryEvent>)
    ensures
        ({
            let entry = Entry::begun(uid, gid).after_all(events);
            match entry.stage {
                EntryStage::DenySetgroups => entry.write() == Some(
                    ("/proc/self/setgroups"@, seq!['d', 'e', 'n', 'y']),
                ),
                EntryStage::WriteUidMap => entry.write() == Some(
                    (
                        "/proc/self/uid_map"@,
                        seq!['0', ' '] + decimal(uid as nat) + seq![' ', '1', '\n'],
                    ),
                ),
                EntryStage::WriteGidMap => entry.write() == Some(
                    (
                        "/proc/self/gid_map"@,
                        seq!['0', ' '] + decimal(gid as nat) + seq![' ', '1', '\n'],
                    ),
                ),
                _ => entry.write() is None,
            }
        }),
{
    law_entry_keeps_its_user_and_group(uid, gid, events);
    reveal_strlit("deny");
    assert("deny"@ =~= seq!['d', 'e', 'n', 'y']);
}

/// A step that worked leads to the next: users are left behind, the file for groups is
/// looked for and, if it is there, written to, then the two maps. The user, the group and
/// the absence of an error stay.
pub proof fn law_steps_that_work_lead_to_root(entry: Entry, found: bool)
    requires
        entry.error is None,
    ensures
        ({
            let done = entry.after(EntryEvent::Tried(Outcome::Done));
            let looked = entry.after(EntryEvent::Found(found));
            match entry.stage {
                EntryStage::Unshare => done == (Entry {
                    stage: EntryStage::ProbeSetgroups,
                    ..entry
                }) && looked == entry,
                EntryStage::ProbeSetgroups => done == entry && looked == (Entry {
                    stage: if found {
                        EntryStage::DenySetgroups
                    } else {
                        EntryStage::WriteUidMap
                    },
                    ..entry
                }),
                EntryStage::DenySetgroups => done == (Entry {
                    stage: EntryStage::WriteUidMap,
                    ..entry
                }) && looked == entry,
                EntryStage::WriteUidMap => done == (Entry {
                    stage: EntryStage::WriteGidMap,
                    ..entry
                }) && looked == entry,
                EntryStage::WriteGidMap => done == (Entry { stage: EntryStage::Entered, ..entry })
                    && looked == entry,
                EntryStage::Entered | EntryStage::Failed => done == entry && looked == entry,
            }
        }),
{
}

/// A step that failed ends the entry with what failed and why, except that groups may be
/// left as they are; once the entry is over, nothing changes any more.
pub proof fn law_steps_that_fail_say_why(entry: Entry, reason: String)
    requires
        entry.error is None,
    ensures
        ({
            let failed = entry.after(EntryEvent::Tried(Outcome::Failed(reason)));
            match entry.stage {
                EntryStage::Unshare => failed == (Entry {
                    stage: EntryStage::Failed,
                    error: Some("Falha "@ + "CLONE_NEWUSER"@ + ": "@ + reason@),
                    ..entry
                }),
                EntryStage::WriteUidMap => failed == (Entry {
                    stage: EntryStage::Failed,
                    error: Some("Falha "@ + "uid_map"@ + ": "@ + reason@),
                    ..entry
                }),
                EntryStage::WriteGidMap => failed == (Entry {
                    stage: EntryStage::Failed,
                    error: Some("Falha "@ + "gid_map"@ + ": "@ + reason@),
                    ..entry
                }),
                EntryStage::DenySetgroups => failed == (Entry {
                    stage: EntryStage::WriteUidMap,
                    ..entry
                }),
                EntryStage::ProbeSetgroups | EntryStage::Entered | EntryStage::Failed => failed
                    == entry,
            }
        }),
{
}

/// Once an entry has failed, its stage and its reason stay, whatever happens.
pub proof fn law_failed_entry_stays(entry: Entry, event: EntryEvent)
    requires
        entry.stage is Failed || entry.stage is Entered,
    ensures
        entry.after(event) == entry,
{
}

} // verus!
