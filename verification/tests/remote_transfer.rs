use arcrelay_desktop::remote_transfer::{
    check_download_complete, check_thumbnail_received, drag_file_name, remote_parent, check_thumbnail_size, join_remote_path,
    remote_name, single_file_progress, thumbnail_media_type, TransferTracker,
    MAX_REMOTE_THUMBNAIL_BYTES,
};

#[test]
fn remote_paths_join_and_name() {
    assert_eq!(join_remote_path("", "a.txt"), "a.txt");
    assert_eq!(join_remote_path("docs", "a.txt"), "docs/a.txt");
    assert_eq!(join_remote_path("docs//", "a.txt"), "docs/a.txt");
    assert_eq!(join_remote_path("/", "a.txt"), "/a.txt");
    assert_eq!(remote_name("docs/report.pdf"), Ok("report.pdf".to_string()));
    assert_eq!(remote_name("docs/照片/"), Ok("照片".to_string()));
    assert_eq!(remote_name("single"), Ok("single".to_string()));
    assert_eq!(remote_name(""), Err("remote path has no usable name".to_string()));
    assert_eq!(remote_name("///"), Err("remote path has no usable name".to_string()));
}

#[test]
fn progress_counts_bytes_and_files() {
    let mut t = TransferTracker::new(&[10, 0, 5]);
    assert_eq!(t.total_bytes, 15);
    assert_eq!(t.total_files, 3);
    let p = t.during(4, "a");
    assert_eq!((p.bytes_transferred, p.files_transferred, p.total_files), (4, 0, 3));
    let p = t.file_done(10, "a");
    assert_eq!((p.bytes_transferred, p.files_transferred, p.current_name.as_str()), (10, 1, "a"));
    let p = t.file_done(0, "b");
    assert_eq!((p.bytes_transferred, p.files_transferred), (10, 2));
    let p = t.during(u64::MAX, "c");
    assert_eq!(p.bytes_transferred, u64::MAX);
    let p = t.file_done(5, "c");
    assert_eq!((p.bytes_transferred, p.files_transferred, p.total_bytes), (15, 3, 15));
    let empty = TransferTracker::new(&[]);
    assert_eq!((empty.total_bytes, empty.total_files), (0, 0));
}

#[test]
fn a_single_file_is_done_when_all_bytes_moved() {
    let p = single_file_progress(3, 9, "x");
    assert_eq!((p.bytes_transferred, p.total_bytes, p.files_transferred, p.total_files), (3, 9, 0, 1));
    assert_eq!(single_file_progress(9, 9, "x").files_transferred, 1);
}

#[test]
fn thumbnails_and_downloads_are_checked() {
    assert!(check_thumbnail_size(0).is_err());
    assert!(check_thumbnail_size(1).is_ok());
    assert!(check_thumbnail_size(MAX_REMOTE_THUMBNAIL_BYTES).is_ok());
    assert_eq!(
        check_thumbnail_size(MAX_REMOTE_THUMBNAIL_BYTES + 1),
        Err("remote peer returned an invalid thumbnail size".to_string())
    );
    assert!(check_thumbnail_received(5, 5).is_ok());
    assert_eq!(check_thumbnail_received(5, 4), Err("thumbnail transfer ended early".to_string()));
    assert_eq!(thumbnail_media_type(None), "image/png");
    assert_eq!(thumbnail_media_type(Some("image/jpeg".into())), "image/jpeg");
    assert!(check_download_complete(7, 7).is_ok());
    assert_eq!(
        check_download_complete(100, 42),
        Err("download ended early: expected 100 bytes, received 42 bytes".to_string())
    );
}

#[test]
fn dragged_entries_name_their_file_and_folder() {
    assert_eq!(drag_file_name("docs/a.txt"), "a.txt");
    assert_eq!(drag_file_name("/"), "remote file");
    assert_eq!(remote_parent("docs/sub/a.txt"), "docs/sub");
    assert_eq!(remote_parent("a.txt"), "");
    assert_eq!(remote_parent("/a.txt"), "");
}

use arcrelay_desktop::remote_transfer::{check_upload_selection, DownloadWalk};
use arcrelay_desktop::virtual_drag::{RemoteEntry, RemoteEntryKind};

fn entry(name: &str, path: &str, kind: RemoteEntryKind, size: u64) -> RemoteEntry {
    RemoteEntry { name: name.to_string(), relative_path: path.to_string(), kind, size }
}

#[test]
fn uploads_need_a_selection() {
    assert_eq!(check_upload_selection(0), Err("no files selected for upload".to_string()));
    assert_eq!(check_upload_selection(3), Ok(()));
}

#[test]
fn finishing_every_file_with_its_size_reports_the_totals() {
    let sizes = [7u64, 0, 13, 5];
    let mut t = TransferTracker::new(&sizes);
    let mut last = None;
    for size in sizes {
        last = Some(t.file_done(size, "f"));
    }
    let last = last.unwrap();
    assert_eq!(last.bytes_transferred, 25);
    assert_eq!(last.bytes_transferred, last.total_bytes);
    assert_eq!(last.files_transferred, last.total_files);
}

#[test]
fn folder_downloads_walk_breadth_first() {
    let mut walk = DownloadWalk::new();
    walk.take_listing(
        &vec![],
        vec![
            entry("sub", "docs/sub", RemoteEntryKind::Folder, 0),
            entry("a.txt", "docs/a.txt", RemoteEntryKind::File, 3),
            entry("more", "docs/more", RemoteEntryKind::Folder, 0),
        ],
    );
    assert_eq!(walk.files.len(), 1);
    assert_eq!(walk.files[0].local_segments, vec!["a.txt".to_string()]);
    let (remote, place) = walk.next_folder().unwrap();
    assert_eq!(remote, "docs/sub");
    assert_eq!(place, vec!["sub".to_string()]);
    walk.take_listing(&place, vec![entry("b.txt", "docs/sub/b.txt", RemoteEntryKind::File, 4)]);
    let (remote, place) = walk.next_folder().unwrap();
    assert_eq!(remote, "docs/more");
    walk.take_listing(&place, vec![entry("c.txt", "docs/more/c.txt", RemoteEntryKind::File, 5)]);
    assert!(walk.next_folder().is_none());
    let order: Vec<(&str, Vec<String>, u64)> =
        walk.files.iter().map(|f| (f.remote_path.as_str(), f.local_segments.clone(), f.size)).collect();
    assert_eq!(
        order,
        vec![
            ("docs/a.txt", vec!["a.txt".to_string()], 3),
            ("docs/sub/b.txt", vec!["sub".to_string(), "b.txt".to_string()], 4),
            ("docs/more/c.txt", vec!["more".to_string(), "c.txt".to_string()], 5),
        ]
    );
}

#[test]
fn joined_paths_are_named_by_what_was_joined() {
    for parent in ["", "docs", "docs/", "a/b//", "/"] {
        for name in ["x.txt", "照片", "report.final.pdf"] {
            assert_eq!(remote_name(&join_remote_path(parent, name)), Ok(name.to_string()));
        }
    }
    assert_eq!(remote_name("docs/a.txt/"), Ok("a.txt".to_string()));
}
