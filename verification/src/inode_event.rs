use vstd::prelude::*;

verus! {

/// The tracepoints whose hits the inode probe counts.
#[derive(Clone, Copy, PartialEq, Eq, Structural)]
pub enum TracingEvent {
    Ext4MarkInodeDirty,
    Ext4AllocDaBlocks,
    Ext4AllocateBlocks,
    Ext4ExtMapBlocksEnter,
    Jbd2WriteSuperblock,
    BlockRqIssue,
}

/// The name under which an event is shown: its variant's name.
pub open spec fn event_name(e: TracingEvent) -> Seq<char> {
    match e {
        TracingEvent::Ext4MarkInodeDirty => "Ext4MarkInodeDirty"@,
        TracingEvent::Ext4AllocDaBlocks => "Ext4AllocDaBlocks"@,
        TracingEvent::Ext4AllocateBlocks => "Ext4AllocateBlocks"@,
        TracingEvent::Ext4ExtMapBlocksEnter => "Ext4ExtMapBlocksEnter"@,
        TracingEvent::Jbd2WriteSuperblock => "Jbd2WriteSuperblock"@,
        TracingEvent::BlockRqIssue => "BlockRqIssue"@,
    }
}

/// The number by which an event is stored in a key: its position in the
/// declaration, as the kernel side lays the enum out.
pub open spec fn event_code(e: TracingEvent) -> u32 {
    match e {
        TracingEvent::Ext4MarkInodeDirty => 0,
        TracingEvent::Ext4AllocDaBlocks => 1,
        TracingEvent::Ext4AllocateBlocks => 2,
        TracingEvent::Ext4ExtMapBlocksEnter => 3,
        TracingEvent::Jbd2WriteSuperblock => 4,
        TracingEvent::BlockRqIssue => 5,
    }
}

impl TracingEvent {
    /// The number by which this event is stored in a key.
    pub fn code(&self) -> (r: u32)
        ensures
            r == event_code(*self),
    {
        match self {
            TracingEvent::Ext4MarkInodeDirty => 0,
            TracingEvent::Ext4AllocDaBlocks => 1,
            TracingEvent::Ext4AllocateBlocks => 2,
            TracingEvent::Ext4ExtMapBlocksEnter => 3,
            TracingEvent::Jbd2WriteSuperblock => 4,
            TracingEvent::BlockRqIssue => 5,
        }
    }

    /// The event stored as `code`, or `None` for a number that stands for no
    /// event.
    pub fn from_code(code: u32) -> (r: Option<TracingEvent>)
        ensures
            r matches Some(e) ==> event_code(e) == code,
            r is None <==> code > 5,
    {
        match code {
            0 => Some(TracingEvent::Ext4MarkInodeDirty),
            1 => Some(TracingEvent::Ext4AllocDaBlocks),
            2 => Some(TracingEvent::Ext4AllocateBlocks),
            3 => Some(TracingEvent::Ext4ExtMapBlocksEnter),
            4 => Some(TracingEvent::Jbd2WriteSuperblock),
            5 => Some(TracingEvent::BlockRqIssue),
            _ => None,
        }
    }

    /// The text that shows this event.
    pub fn name(&self) -> (r: &'static str)
        ensures
            r@ == event_name(*self),
    {
        match self {
            TracingEvent::Ext4MarkInodeDirty => "Ext4MarkInodeDirty",
            TracingEvent::Ext4AllocDaBlocks => "Ext4AllocDaBlocks",
            TracingEvent::Ext4AllocateBlocks => "Ext4AllocateBlocks",
            TracingEvent::Ext4ExtMapBlocksEnter => "Ext4ExtMapBlocksEnter",
            TracingEvent::Jbd2WriteSuperblock => "Jbd2WriteSuperblock",
            TracingEvent::BlockRqIssue => "BlockRqIssue",
        }
    }
}

/// Distinct events are stored under distinct numbers, so reading back the
/// number of an event gives the event.
pub proof fn law_event_code_injective(a: TracingEvent, b: TracingEvent)
    ensures
        event_code(a) == event_code(b) ==> a == b,
        event_code(a) <= 5,
{
}

/// The key under which the inode probe counts hits: which thread, of which
/// process, running which command, hit which tracepoint.
#[derive(Clone, Copy)]
pub struct EventInfo {
    pub pid: u32,
    pub tgid: u32,
    pub comm: [u8; 16],
    pub event: TracingEvent,
}

impl EventInfo {
    /// A key with the given fields.
    pub fn new(pid: u32, tgid: u32, comm: [u8; 16], event: TracingEvent) -> (r: Self)
        ensures
            r.pid == pid,
            r.tgid == tgid,
            r.comm == comm,
            r.event == event,
    {
        EventInfo { pid, tgid, comm, event }
    }
}

/// Whether a command name starts with `code`: the editor's own processes,
/// whose entries the table listing leaves out.
pub open spec fn comm_starts_with_code(comm: Seq<u8>) -> bool {
    &&& comm.len() >= 4
    &&& comm[0] == 0x63u8
    &&& comm[1] == 0x6fu8
    &&& comm[2] == 0x64u8
    &&& comm[3] == 0x65u8
}

/// Whether an entry of the counter table is listed.
pub open spec fn entry_listed(e: (EventInfo, u64)) -> bool {
    !comm_starts_with_code(e.0.comm@)
}

fn starts_with_code(comm: &[u8; 16]) -> (r: bool)
    ensures
        r == comm_starts_with_code(comm@),
{
    comm[0] == 0x63u8 && comm[1] == 0x6fu8 && comm[2] == 0x64u8 && comm[3] == 0x65u8
}

/// The entries of `entries` that are listed, in their order.
pub open spec fn listed_entries(entries: Seq<(EventInfo, u64)>) -> Seq<(EventInfo, u64)> {
    entries.filter(|e: (EventInfo, u64)| entry_listed(e))
}

proof fn lemma_listed_entries_step(s: Seq<(EventInfo, u64)>)
    requires
        s.len() > 0,
    ensures
        listed_entries(s) == if entry_listed(s.last()) {
            listed_entries(s.drop_last()).push(s.last())
        } else {
            listed_entries(s.drop_last())
        },
{
    reveal(Seq::filter);
}

/// An entry is listed exactly when the first four bytes of its command are
/// not `code`, whatever its ids, event and count.
pub proof fn law_listed_by_command_bytes(entries: Seq<(EventInfo, u64)>)
    ensures
        listed_entries(entries) == entries.filter(|e: (EventInfo, u64)|
            !(e.0.comm@.subrange(0, 4) == seq![0x63u8, 0x6fu8, 0x64u8, 0x65u8])),
{
    let p1 = |e: (EventInfo, u64)| entry_listed(e);
    let p2 = |e: (EventInfo, u64)|
        !(e.0.comm@.subrange(0, 4) == seq![0x63u8, 0x6fu8, 0x64u8, 0x65u8]);
    assert forall|e: (EventInfo, u64)| #[trigger] p1(e) == p2(e) by {
        let c = e.0.comm@;
        assert(c.len() == 16);
        if c.subrange(0, 4) == seq![0x63u8, 0x6fu8, 0x64u8, 0x65u8] {
            assert(c[0] == c.subrange(0, 4)[0]);
            assert(c[1] == c.subrange(0, 4)[1]);
            assert(c[2] == c.subrange(0, 4)[2]);
            assert(c[3] == c.subrange(0, 4)[3]);
        }
        if comm_starts_with_code(c) {
            assert(c.subrange(0, 4) =~= seq![0x63u8, 0x6fu8, 0x64u8, 0x65u8]);
        }
    }
    assert(p1 =~= p2);
}

/// The listing of the counter table's entries, in the order in which they
/// were read: each entry but those of commands that start with `code`; and
/// whether the table had no entry at all (hidden ones count as entries).
pub fn table_listing(entries: &Vec<(EventInfo, u64)>) -> (r: (Vec<(EventInfo, u64)>, bool))
    ensures
        r.0@ == listed_entries(entries@),
        r.0@ == entries@.filter(|e: (EventInfo, u64)|
            !(e.0.comm@.subrange(0, 4) == seq![0x63u8, 0x6fu8, 0x64u8, 0x65u8])),
        r.1 == (entries@.len() == 0),
{
    let mut shown: Vec<(EventInfo, u64)> = Vec::new();
    let mut i: usize = 0;
    while i < entries.len()
        invariant
            i <= entries@.len(),
            shown@ == listed_entries(entries@.subrange(0, i as int)),
        decreases entries@.len() - i,
    {
        let e = entries[i];
        let ghost s = entries@.subrange(0, i + 1);
        proof {
            assert(s.drop_last() =~= entries@.subrange(0, i as int));
            assert(s.last() == e);
            lemma_listed_entries_step(s);
        }
        if !starts_with_code(&e.0.comm) {
            shown.push(e);
        }
        i = i + 1;
    }
    assert(entries@.subrange(0, entries@.len() as int) =~= entries@);
    proof {
        law_listed_by_command_bytes(entries@);
    }
    (shown, entries.len() == 0)
}

} // verus!
