use ebpf_trace::inode_event::{table_listing, EventInfo, TracingEvent};

fn comm(name: &[u8]) -> [u8; 16] {
    let mut c = [0u8; 16];
    c[..name.len()].copy_from_slice(name);
    c
}

#[test]
fn event_info_new_keeps_fields() {
    let e = EventInfo::new(7, 8, comm(b"dd"), TracingEvent::Jbd2WriteSuperblock);
    assert_eq!(e.pid, 7);
    assert_eq!(e.tgid, 8);
    assert_eq!(e.comm, comm(b"dd"));
    assert!(matches!(e.event, TracingEvent::Jbd2WriteSuperblock));
}

#[test]
fn event_names() {
    assert_eq!(TracingEvent::Ext4MarkInodeDirty.name(), "Ext4MarkInodeDirty");
    assert_eq!(TracingEvent::Ext4AllocDaBlocks.name(), "Ext4AllocDaBlocks");
    assert_eq!(TracingEvent::Ext4AllocateBlocks.name(), "Ext4AllocateBlocks");
    assert_eq!(TracingEvent::Ext4ExtMapBlocksEnter.name(), "Ext4ExtMapBlocksEnter");
    assert_eq!(TracingEvent::Jbd2WriteSuperblock.name(), "Jbd2WriteSuperblock");
    assert_eq!(TracingEvent::BlockRqIssue.name(), "BlockRqIssue");
}

#[test]
fn listing_hides_code_commands_and_keeps_order() {
    let entries = vec![
        (EventInfo::new(1, 1, comm(b"code"), TracingEvent::Ext4MarkInodeDirty), 3u64),
        (EventInfo::new(2, 2, comm(b"bash"), TracingEvent::Ext4AllocateBlocks), 5),
        (EventInfo::new(3, 3, comm(b"code-insiders"), TracingEvent::BlockRqIssue), 1),
        (EventInfo::new(4, 4, comm(b"cod"), TracingEvent::Ext4AllocDaBlocks), 9),
        (EventInfo::new(5, 5, comm(b"vscode"), TracingEvent::Jbd2WriteSuperblock), 2),
    ];
    let (shown, empty) = table_listing(&entries);
    assert!(!empty);
    let pids: Vec<u32> = shown.iter().map(|(k, _)| k.pid).collect();
    assert_eq!(pids, vec![2, 4, 5]);
    let counts: Vec<u64> = shown.iter().map(|(_, v)| *v).collect();
    assert_eq!(counts, vec![5, 9, 2]);
}

#[test]
fn listing_of_only_hidden_entries_is_not_empty_table() {
    let entries = vec![(EventInfo::new(1, 1, comm(b"code"), TracingEvent::Ext4MarkInodeDirty), 3u64)];
    let (shown, empty) = table_listing(&entries);
    assert!(shown.is_empty());
    assert!(!empty);
}

#[test]
fn listing_of_empty_table() {
    let (shown, empty) = table_listing(&Vec::new());
    assert!(shown.is_empty());
    assert!(empty);
}

#[test]
fn event_codes_round_trip() {
    let all = [
        TracingEvent::Ext4MarkInodeDirty,
        TracingEvent::Ext4AllocDaBlocks,
        TracingEvent::Ext4AllocateBlocks,
        TracingEvent::Ext4ExtMapBlocksEnter,
        TracingEvent::Jbd2WriteSuperblock,
        TracingEvent::BlockRqIssue,
    ];
    for (i, e) in all.iter().enumerate() {
        assert_eq!(e.code(), i as u32);
        let back = TracingEvent::from_code(e.code()).expect("known code");
        assert!(back == *e);
    }
    assert!(TracingEvent::from_code(6).is_none());
    assert!(TracingEvent::from_code(u32::MAX).is_none());
}
