use arcrelay_desktop::virtual_drag::{
    drag_progress, size_parts, ReadNeed, SeekOrigin, StreamState, utf16_units, validate_virtual_path, DragProgress, RemoteEntry,
    RemoteEntryKind, VirtualTree, MAX_VIRTUAL_DRAG_ENTRIES,
};

fn entry(name: &str, path: &str, kind: RemoteEntryKind, size: u64) -> RemoteEntry {
    RemoteEntry { name: name.into(), relative_path: path.into(), kind, size }
}

#[test]
fn folders_are_walked_in_the_order_found() {
    let mut tree = VirtualTree::new("docs/", RemoteEntryKind::Folder, 0).unwrap();
    assert_eq!(tree.entries[0].virtual_path, "docs");
    let (remote, virtual_path) = tree.next_folder().unwrap();
    assert_eq!((remote.as_str(), virtual_path.as_str()), ("docs/", "docs"));
    tree.add_children(
        &virtual_path,
        vec![entry("a.txt", "docs/a.txt", RemoteEntryKind::File, 5), entry("sub", "docs/sub", RemoteEntryKind::Folder, 0)],
    )
    .unwrap();
    assert_eq!(tree.entries[1].virtual_path, "docs\\a.txt");
    assert_eq!(tree.entries[2].virtual_path, "docs\\sub");
    let (remote, virtual_path) = tree.next_folder().unwrap();
    assert_eq!((remote.as_str(), virtual_path.as_str()), ("docs/sub", "docs\\sub"));
    tree.add_children(&virtual_path, vec![entry("b", "docs/sub/b", RemoteEntryKind::File, 1)]).unwrap();
    assert_eq!(tree.entries[3].virtual_path, "docs\\sub\\b");
    assert!(tree.next_folder().is_none());
    assert_eq!(tree.entries.len(), 4);
}

#[test]
fn files_and_limits() {
    let tree = VirtualTree::new("x/photo.jpg", RemoteEntryKind::File, 9).unwrap();
    assert_eq!(tree.entries.len(), 1);
    assert!(tree.pending.is_empty());
    assert!(VirtualTree::new("/", RemoteEntryKind::File, 0).is_err());
    let long = "n".repeat(300);
    assert!(VirtualTree::new(&long, RemoteEntryKind::File, 0).is_err());
    assert!(validate_virtual_path(&"a".repeat(259)).is_ok());
    assert_eq!(
        validate_virtual_path(&"a".repeat(260)),
        Err(format!("Windows virtual drag path is too long: {}", "a".repeat(260)))
    );
    assert_eq!(utf16_units("a😀"), 3);
    let mut tree = VirtualTree::new("big", RemoteEntryKind::Folder, 0).unwrap();
    let children: Vec<RemoteEntry> = (0..MAX_VIRTUAL_DRAG_ENTRIES)
        .map(|i| entry(&i.to_string(), "p", RemoteEntryKind::File, 0))
        .collect();
    assert_eq!(
        tree.add_children("big", children),
        Err("folder has too many entries for Windows virtual drag export".to_string())
    );
}

#[test]
fn sizes_and_drag_progress() {
    assert_eq!(size_parts(0x1_0000_0005), (1, 5));
    assert_eq!(size_parts(u64::MAX), (u32::MAX, u32::MAX));
    assert_eq!(drag_progress(true, true), DragProgress::Cancel);
    assert_eq!(drag_progress(false, false), DragProgress::Drop);
    assert_eq!(drag_progress(false, true), DragProgress::Continue);
}

#[test]
fn virtual_file_streams_read_what_arrived() {
    let mut s = StreamState::new(10);
    assert_eq!(s.read_need(0), ReadNeed::Nothing);
    assert_eq!(s.read_need(4), ReadNeed::Until(4));
    assert_eq!(s.read_need(400), ReadNeed::Until(10));
    assert!(s.needs_more(4));
    s.on_chunk(6);
    assert!(!s.needs_more(4));
    assert_eq!(s.take_read(4), Ok((0, 4)));
    assert_eq!(s.take_read(4), Ok((4, 2)));
    assert_eq!(s.on_end(), Err("download ended early: expected 10 bytes, received 6 bytes".to_string()));
    assert!(s.complete);
    assert!(s.take_read(1).is_err());
    assert!(s.claim_report());
    assert!(!s.claim_report());
    assert_eq!(s.seek(SeekOrigin::End, -3), Some(7));
    assert_eq!(s.seek(SeekOrigin::Current, -8), None);
    assert_eq!(s.position, 7);
    assert_eq!(s.seek(SeekOrigin::Start, 2), Some(2));
    let mut ok = StreamState::new(3);
    ok.on_chunk(3);
    assert_eq!(ok.on_end(), Ok(()));
    let mut failed = StreamState::new(3);
    failed.on_failure("closed".into());
    assert_eq!(failed.take_read(1), Err("closed".to_string()));
}

#[test]
fn refused_listings_leave_the_tree_as_it_is() {
    let mut tree = VirtualTree::new("docs", RemoteEntryKind::Folder, 0).unwrap();
    let (_, parent) = tree.next_folder().unwrap();
    let long = "n".repeat(260);
    let result = tree.add_children(
        &parent,
        vec![entry("sub", "docs/sub", RemoteEntryKind::Folder, 0), entry(&long, "docs/long", RemoteEntryKind::File, 1)],
    );
    assert_eq!(result, Err(format!("Windows virtual drag path is too long: docs\\{}", long)));
    assert_eq!(tree.entries.len(), 1);
    assert!(tree.pending.is_empty());
    tree.add_children(
        &parent,
        vec![
            entry("a", "docs/a", RemoteEntryKind::Folder, 0),
            entry("f", "docs/f", RemoteEntryKind::File, 3),
            entry("b", "docs/b", RemoteEntryKind::Folder, 0),
        ],
    )
    .unwrap();
    assert_eq!(tree.entries.len(), 4);
    let queued: Vec<(String, String)> = tree.pending.iter().cloned().collect();
    assert_eq!(
        queued,
        vec![("docs/a".to_string(), "docs\\a".to_string()), ("docs/b".to_string(), "docs\\b".to_string())]
    );
}

#[test]
fn a_full_tree_refuses_before_a_long_path() {
    let mut tree = VirtualTree::new("big", RemoteEntryKind::Folder, 0).unwrap();
    let mut children: Vec<RemoteEntry> = (0..MAX_VIRTUAL_DRAG_ENTRIES - 1)
        .map(|i| entry(&i.to_string(), "p", RemoteEntryKind::File, 0))
        .collect();
    children.push(entry(&"n".repeat(300), "p", RemoteEntryKind::File, 0));
    assert_eq!(
        tree.add_children("big", children),
        Err("folder has too many entries for Windows virtual drag export".to_string())
    );
}
