//! Transfers of files to and from a peer's shared folders: remote paths and
//! names, the progress reported while files move, and the checks on what
//! arrived.

use vstd::prelude::*;
use std::collections::VecDeque;
use crate::text::{chars_of, decimal, extend_chars, extend_range, push_decimal, string_from_chars, strings_view};
use crate::virtual_drag::{RemoteEntry, RemoteEntryKind};

verus! {

/// Largest thumbnail accepted from a peer.
pub const MAX_REMOTE_THUMBNAIL_BYTES: u64 = 2_097_152;

/// How far a transfer of one or more files has come.
#[derive(Debug, Clone, Default)]
pub struct RemoteFileTransferProgress {
    pub bytes_transferred: u64,
    pub total_bytes: u64,
    pub files_transferred: usize,
    pub total_files: usize,
    pub current_name: String,
}

/// `s` without the slashes that end it.
pub open spec fn trim_end_slashes(s: Seq<char>) -> Seq<char>
    decreases s.len(),
{
    if s.len() > 0 && s.last() == '/' {
        trim_end_slashes(s.drop_last())
    } else {
        s
    }
}

/// What follows the last slash of `s` (all of `s` when it has none).
pub open spec fn last_segment(s: Seq<char>) -> Seq<char>
    decreases s.len(),
{
    if s.len() == 0 {
        s
    } else if s.last() == '/' {
        Seq::empty()
    } else {
        last_segment(s.drop_last()).push(s.last())
    }
}

/// The path of `name` inside the remote folder `parent`.
pub open spec fn joined_remote_path(parent: Seq<char>, name: Seq<char>) -> Seq<char> {
    if parent.len() == 0 {
        name
    } else {
        trim_end_slashes(parent) + "/"@ + name
    }
}

/// A tail without slashes stays the tail of the last segment.
proof fn lemma_last_segment_append(x: Seq<char>, n: Seq<char>)
    requires
        forall|i: int| 0 <= i < n.len() ==> n[i] != '/',
    ensures
        last_segment(x + n) == last_segment(x) + n,
    decreases n.len(),
{
    if n.len() == 0 {
        assert(x + n =~= x);
        assert(last_segment(x) + n =~= last_segment(x));
    } else {
        lemma_last_segment_append(x, n.drop_last());
        assert((x + n).drop_last() =~= x + n.drop_last());
        assert((last_segment(x) + n.drop_last()).push(n.last()) =~= last_segment(x) + n);
    }
}

/// Joining and naming undo each other: the name of the path of `name`
/// inside any remote folder is `name`, when `name` is not empty and holds
/// no slash.
pub proof fn joined_paths_are_named_by_their_last_part(parent: Seq<char>, name: Seq<char>)
    requires
        name.len() > 0,
        forall|i: int| 0 <= i < name.len() ==> name[i] != '/',
    ensures
        last_segment(trim_end_slashes(joined_remote_path(parent, name))) == name,
{
    reveal_strlit("/");
    let joined = joined_remote_path(parent, name);
    let prefix = if parent.len() == 0 { Seq::<char>::empty() } else { trim_end_slashes(parent) + "/"@ };
    assert(joined =~= prefix + name);
    assert(joined.last() == name[name.len() - 1]);
    assert(trim_end_slashes(joined) == joined);
    lemma_last_segment_append(prefix, name);
    if parent.len() > 0 {
        assert(prefix.last() == '/');
    }
    assert(last_segment(prefix) =~= Seq::<char>::empty());
}

fn trimmed_len(v: &Vec<char>) -> (k: usize)
    ensures
        k <= v@.len(),
        trim_end_slashes(v@) == v@.take(k as int),
        k == 0 || v@[k - 1] != '/',
{
    let mut k = v.len();
    assert(v@.take(k as int) =~= v@);
    while k > 0 && v[k - 1] == '/'
        invariant
            k <= v@.len(),
            trim_end_slashes(v@) == trim_end_slashes(v@.take(k as int)),
        decreases k,
    {
        assert(v@.take(k as int).drop_last() =~= v@.take(k - 1));
        k = k - 1;
    }
    k
}

/// The path of `name` inside the remote folder `parent`: `parent`, without
/// the slashes that end it, a slash and `name`; just `name` at the top.
pub fn join_remote_path(parent: &str, name: &str) -> (s: String)
    ensures
        s@ == joined_remote_path(parent@, name@),
{
    let p = chars_of(parent);
    if p.len() == 0 {
        return string_from_chars(&chars_of(name));
    }
    let k = trimmed_len(&p);
    let mut v: Vec<char> = Vec::new();
    extend_range(&mut v, &p, 0, k);
    assert(p@.subrange(0, k as int) =~= p@.take(k as int));
    extend_chars(&mut v, &chars_of("/"));
    extend_chars(&mut v, &chars_of(name));
    assert(v@ =~= joined_remote_path(parent@, name@));
    string_from_chars(&v)
}

/// The name of the remote entry at `path`: its last part, once the slashes
/// that end it are gone. An error when that is empty.
pub fn remote_name(path: &str) -> (r: Result<String, String>)
    ensures
        match r {
            Ok(name) => name@ == last_segment(trim_end_slashes(path@)) && name@.len() > 0,
            Err(e) => last_segment(trim_end_slashes(path@)).len() == 0
                && e@ == "remote path has no usable name"@,
        },
{
    let p = chars_of(path);
    let k = trimmed_len(&p);
    let mut j = k;
    assert(last_segment(p@.take(k as int)) =~= last_segment(p@.take(j as int)) + p@.subrange(
        j as int,
        k as int,
    ));
    while j > 0 && p[j - 1] != '/'
        invariant
            j <= k <= p@.len(),
            last_segment(p@.take(k as int)) == last_segment(p@.take(j as int)) + p@.subrange(
                j as int,
                k as int,
            ),
        decreases j,
    {
        assert(p@.take(j as int).drop_last() =~= p@.take(j - 1));
        assert(p@.subrange(j - 1, k as int) =~= seq![p@[j - 1]] + p@.subrange(j as int, k as int));
        j = j - 1;
    }
    assert(last_segment(p@.take(j as int)) =~= Seq::<char>::empty());
    assert(last_segment(p@.take(k as int)) =~= p@.subrange(j as int, k as int));
    if j == k {
        return Err("remote path has no usable name".to_string());
    }
    let mut v: Vec<char> = Vec::new();
    extend_range(&mut v, &p, j, k);
    assert(v@ =~= p@.subrange(j as int, k as int));
    Ok(string_from_chars(&v))
}

/// The sum of `sizes`.
pub open spec fn sum_sizes(sizes: Seq<u64>) -> nat
    decreases sizes.len(),
{
    if sizes.len() == 0 {
        0
    } else {
        sum_sizes(sizes.drop_last()) + sizes.last() as nat
    }
}

/// `a + b`, or the largest `u64` when that is more.
pub open spec fn saturating(a: nat, b: nat) -> u64 {
    if a + b > u64::MAX {
        u64::MAX
    } else {
        (a + b) as u64
    }
}

/// The progress of a transfer of several files, one after the other: the
/// totals, the bytes and files that are done, and the sizes of the files.
#[derive(Clone, Copy)]
pub struct TransferTracker {
    pub total_bytes: u64,
    pub total_files: usize,
    pub completed_bytes: u64,
    pub files_done: usize,
    pub sizes: Ghost<Seq<u64>>,
}

impl TransferTracker {
    /// The counts agree with the sizes: the totals are those of all files,
    /// and the bytes done are those of the files done, in order.
    pub open spec fn consistent(self) -> bool {
        &&& self.total_files == self.sizes@.len()
        &&& self.total_bytes == sum_sizes(self.sizes@)
        &&& self.files_done <= self.total_files
        &&& self.completed_bytes == sum_sizes(self.sizes@.take(self.files_done as int))
    }
}

/// Finishing every file reports the totals: once a consistent tracker has
/// counted all its files done, its bytes done are the total bytes.
pub proof fn finishing_every_file_reports_the_totals(t: TransferTracker)
    requires
        t.consistent(),
        t.files_done == t.total_files,
    ensures
        t.completed_bytes == t.total_bytes,
{
    assert(t.sizes@.take(t.files_done as int) =~= t.sizes@);
}

impl TransferTracker {
    /// A transfer of files of `sizes` bytes, none of them done.
    pub fn new(sizes: &[u64]) -> (t: Self)
        requires
            sum_sizes(sizes@) <= u64::MAX,
        ensures
            t.total_bytes == sum_sizes(sizes@),
            t.total_files == sizes@.len(),
            t.completed_bytes == 0,
            t.files_done == 0,
            t.sizes@ == sizes@,
            t.consistent(),
    {
        let mut total: u64 = 0;
        let mut i: usize = 0;
        while i < sizes.len()
            invariant
                i <= sizes@.len(),
                sum_sizes(sizes@) <= u64::MAX,
                total == sum_sizes(sizes@.take(i as int)),
            decreases sizes@.len() - i,
        {
            assert(sizes@.take(i + 1).drop_last() =~= sizes@.take(i as int));
            proof {
                lemma_sum_prefix(sizes@, i as int + 1);
            }
            total = total + sizes[i];
            i = i + 1;
        }
        assert(sizes@.take(sizes@.len() as int) =~= sizes@);
        assert(sizes@.take(0) =~= Seq::<u64>::empty());
        TransferTracker {
            total_bytes: total,
            total_files: sizes.len(),
            completed_bytes: 0,
            files_done: 0,
            sizes: Ghost(sizes@),
        }
    }

    /// The progress while `current` bytes of the file `name` have moved.
    pub fn during(&self, current: u64, name: &str) -> (p: RemoteFileTransferProgress)
        ensures
            p.bytes_transferred == saturating(self.completed_bytes as nat, current as nat),
            p.total_bytes == self.total_bytes,
            p.files_transferred == self.files_done,
            p.total_files == self.total_files,
            p.current_name@ == name@,
    {
        RemoteFileTransferProgress {
            bytes_transferred: self.completed_bytes.saturating_add(current),
            total_bytes: self.total_bytes,
            files_transferred: self.files_done,
            total_files: self.total_files,
            current_name: name.to_string(),
        }
    }

    /// Counts the file `name` of `size` bytes as done and reports it.
    pub fn file_done(&mut self, size: u64, name: &str) -> (p: RemoteFileTransferProgress)
        requires
            old(self).files_done < old(self).total_files,
        ensures
            final(self).completed_bytes == saturating(old(self).completed_bytes as nat, size as nat),
            final(self).files_done == old(self).files_done + 1,
            final(self).total_bytes == old(self).total_bytes,
            final(self).total_files == old(self).total_files,
            p.bytes_transferred == final(self).completed_bytes,
            p.total_bytes == final(self).total_bytes,
            p.files_transferred == final(self).files_done,
            p.total_files == final(self).total_files,
            p.current_name@ == name@,
            final(self).sizes == old(self).sizes,
            old(self).consistent() && size == old(self).sizes@[old(self).files_done as int] ==> final(self).consistent(),
    {
        proof {
            if old(self).consistent() && size == old(self).sizes@[old(self).files_done as int] {
                let k = old(self).files_done as int;
                let sz = old(self).sizes@;
                assert(sz.take(k + 1).drop_last() =~= sz.take(k));
                lemma_sum_prefix(sz, k + 1);
            }
        }
        self.completed_bytes = self.completed_bytes.saturating_add(size);
        self.files_done = self.files_done + 1;
        self.during(0, name)
    }
}

proof fn lemma_sum_prefix(sizes: Seq<u64>, n: int)
    requires
        0 <= n <= sizes.len(),
    ensures
        sum_sizes(sizes.take(n)) <= sum_sizes(sizes),
    decreases sizes.len(),
{
    if n < sizes.len() {
        assert(sizes.drop_last().take(n) =~= sizes.take(n));
        lemma_sum_prefix(sizes.drop_last(), n);
    } else {
        assert(sizes.take(n) =~= sizes);
    }
}

/// The progress of a transfer of one file `name` of `total` bytes, of
/// which `current` have moved: the file counts as done once all have.
pub fn single_file_progress(current: u64, total: u64, name: &str) -> (p: RemoteFileTransferProgress)
    ensures
        p.bytes_transferred == current,
        p.total_bytes == total,
        p.files_transferred == (if current == total { 1usize } else { 0usize }),
        p.total_files == 1,
        p.current_name@ == name@,
{
    RemoteFileTransferProgress {
        bytes_transferred: current,
        total_bytes: total,
        files_transferred: if current == total { 1 } else { 0 },
        total_files: 1,
        current_name: name.to_string(),
    }
}

/// Checks the size that a peer announced for a thumbnail: more than
/// nothing and at most 2 MiB.
pub fn check_thumbnail_size(size: u64) -> (r: Result<(), String>)
    ensures
        r is Ok <==> 0 < size <= MAX_REMOTE_THUMBNAIL_BYTES,
        r matches Err(e) ==> e@ == "remote peer returned an invalid thumbnail size"@,
{
    if size == 0 || size > MAX_REMOTE_THUMBNAIL_BYTES {
        Err("remote peer returned an invalid thumbnail size".to_string())
    } else {
        Ok(())
    }
}

/// Checks that a thumbnail arrived whole.
pub fn check_thumbnail_received(expected: u64, received: usize) -> (r: Result<(), String>)
    ensures
        r is Ok <==> received == expected,
        r matches Err(e) ==> e@ == "thumbnail transfer ended early"@,
{
    if received as u64 == expected && (received as u128) == (expected as u128) {
        Ok(())
    } else {
        Err("thumbnail transfer ended early".to_string())
    }
}

/// The media type of a thumbnail: the one announced, PNG by default.
pub fn thumbnail_media_type(announced: Option<String>) -> (s: String)
    ensures
        s@ == match announced {
            Some(t) => t@,
            None => "image/png"@,
        },
{
    match announced {
        Some(t) => t,
        None => "image/png".to_string(),
    }
}

/// The error when a download stopped before all its bytes arrived.
pub open spec fn ended_early_text(expected: u64, received: u64) -> Seq<char> {
    "download ended early: expected "@ + decimal(expected as nat) + " bytes, received "@
        + decimal(received as nat) + " bytes"@
}

/// Checks that a download of `expected` bytes received all of them.
pub fn check_download_complete(expected: u64, received: u64) -> (r: Result<(), String>)
    ensures
        r is Ok <==> received == expected,
        r matches Err(e) ==> e@ == ended_early_text(expected, received),
{
    if received == expected {
        return Ok(());
    }
    let mut v = chars_of("download ended early: expected ");
    push_decimal(&mut v, expected);
    extend_chars(&mut v, &chars_of(" bytes, received "));
    push_decimal(&mut v, received);
    extend_chars(&mut v, &chars_of(" bytes"));
    assert(v@ =~= ended_early_text(expected, received));
    Err(string_from_chars(&v))
}

/// The name a dragged remote entry is downloaded under: its remote name,
/// or `remote file` when the path has none.
pub fn drag_file_name(path: &str) -> (s: String)
    ensures
        s@ == if last_segment(trim_end_slashes(path@)).len() > 0 {
            last_segment(trim_end_slashes(path@))
        } else {
            "remote file"@
        },
{
    match remote_name(path) {
        Ok(name) => name,
        Err(_) => "remote file".to_string(),
    }
}

/// The index of the last slash of `s`, or -1.
pub open spec fn last_slash(s: Seq<char>) -> int
    decreases s.len(),
{
    if s.len() == 0 {
        -1
    } else if s.last() == '/' {
        s.len() - 1
    } else {
        last_slash(s.drop_last())
    }
}

/// The remote folder that holds `path`: what comes before its last slash,
/// or nothing when it has none.
pub fn remote_parent(path: &str) -> (s: String)
    ensures
        s@ == if last_slash(path@) >= 0 { path@.take(last_slash(path@)) } else { Seq::<char>::empty() },
{
    let p = chars_of(path);
    let mut k = p.len();
    assert(p@.take(k as int) =~= p@);
    while k > 0 && p[k - 1] != '/'
        invariant
            k <= p@.len(),
            p@ == path@,
            last_slash(path@) == last_slash(p@.take(k as int)),
        decreases k,
    {
        assert(p@.take(k as int).drop_last() =~= p@.take(k - 1));
        k = k - 1;
    }
    if k == 0 {
        assert(p@.take(0) =~= Seq::<char>::empty());
        return String::new();
    }
    assert(last_slash(p@.take(k as int)) == k - 1);
    let mut v: Vec<char> = Vec::new();
    extend_range(&mut v, &p, 0, k - 1);
    assert(v@ =~= path@.take(k - 1));
    string_from_chars(&v)
}


/// Refuses an upload of nothing: `count` is the number of paths selected.
pub fn check_upload_selection(count: usize) -> (r: Result<(), String>)
    ensures
        r is Ok <==> count > 0,
        r matches Err(e) ==> e@ == "no files selected for upload"@,
{
    if count == 0 {
        return Err("no files selected for upload".to_string());
    }
    Ok(())
}

/// A file that a folder download fetches: its remote path, where it goes
/// (the names of the folders below the downloaded folder, then its own
/// name), its name and its size.
#[derive(Debug, Clone)]
pub struct DownloadItem {
    pub remote_path: String,
    pub local_segments: Vec<String>,
    pub name: String,
    pub size: u64,
}

pub open spec fn item_view(i: DownloadItem) -> (Seq<char>, Seq<Seq<char>>, Seq<char>, u64) {
    (i.remote_path@, strings_view(i.local_segments@), i.name@, i.size)
}

pub open spec fn items_view(v: Seq<DownloadItem>) -> Seq<(Seq<char>, Seq<Seq<char>>, Seq<char>, u64)> {
    v.map_values(|i: DownloadItem| item_view(i))
}

pub open spec fn folders_view(v: Seq<(String, Vec<String>)>) -> Seq<(Seq<char>, Seq<Seq<char>>)> {
    v.map_values(|f: (String, Vec<String>)| (f.0@, strings_view(f.1@)))
}

/// The files of the listing `entries` of the local folder `parent`, in
/// listing order.
pub open spec fn file_items(parent: Seq<Seq<char>>, entries: Seq<RemoteEntry>) -> Seq<(Seq<char>, Seq<Seq<char>>, Seq<char>, u64)>
    decreases entries.len(),
{
    if entries.len() == 0 {
        Seq::empty()
    } else {
        let rest = file_items(parent, entries.drop_last());
        let e = entries.last();
        if e.kind == RemoteEntryKind::File {
            rest.push((e.relative_path@, parent.push(e.name@), e.name@, e.size))
        } else {
            rest
        }
    }
}

/// The folders of the listing `entries` of the local folder `parent`, in
/// listing order: their remote paths and local places.
pub open spec fn folder_items(parent: Seq<Seq<char>>, entries: Seq<RemoteEntry>) -> Seq<(Seq<char>, Seq<Seq<char>>)>
    decreases entries.len(),
{
    if entries.len() == 0 {
        Seq::empty()
    } else {
        let rest = folder_items(parent, entries.drop_last());
        let e = entries.last();
        if e.kind == RemoteEntryKind::Folder {
            rest.push((e.relative_path@, parent.push(e.name@)))
        } else {
            rest
        }
    }
}

fn child_segments(parent: &Vec<String>, name: &String) -> (v: Vec<String>)
    ensures
        strings_view(v@) == strings_view(parent@).push(name@),
{
    let mut v: Vec<String> = Vec::new();
    let mut i: usize = 0;
    while i < parent.len()
        invariant
            i <= parent@.len(),
            v@.len() == i,
            strings_view(v@) == strings_view(parent@.take(i as int)),
        decreases parent@.len() - i,
    {
        let item = parent[i].clone();
        assert(item@ == parent@[i as int]@);
        let ghost before = v@;
        v.push(item);
        assert(parent@.take(i + 1) =~= parent@.take(i as int).push(parent@[i as int]));
        assert forall|k: int| 0 <= k < i + 1 implies #[trigger] strings_view(v@)[k] == strings_view(parent@.take(i + 1))[k] by {
            if k < i {
                assert(v@[k] == before[k]);
                assert(strings_view(before)[k] == strings_view(parent@.take(i as int))[k]);
            }
        }
        assert(strings_view(v@) =~= strings_view(parent@.take(i + 1)));
        i = i + 1;
    }
    assert(parent@.take(parent@.len() as int) =~= parent@);
    v.push(name.clone());
    assert(strings_view(v@) =~= strings_view(parent@).push(name@));
    v
}

/// A folder download walking the remote folders breadth first: the files
/// found so far, in the order they are fetched, and the folders still to be
/// listed (remote path and local place), in the order they were found.
pub struct DownloadWalk {
    pub files: Vec<DownloadItem>,
    pub pending: VecDeque<(String, Vec<String>)>,
}

impl DownloadWalk {
    /// A walk that has found nothing yet; the downloaded folder's own
    /// listing is taken in with `take_listing` at the empty place.
    pub fn new() -> (w: Self)
        ensures
            w.files@.len() == 0,
            w.pending@.len() == 0,
    {
        DownloadWalk { files: Vec::new(), pending: VecDeque::new() }
    }

    /// The next folder to create and list, if any: the first one found.
    pub fn next_folder(&mut self) -> (r: Option<(String, Vec<String>)>)
        ensures
            final(self).files@ == old(self).files@,
            old(self).pending@.len() == 0 ==> r is None && final(self).pending@ == old(self).pending@,
            old(self).pending@.len() > 0 ==> r == Some(old(self).pending@[0])
                && final(self).pending@ == old(self).pending@.drop_first(),
    {
        let r = self.pending.pop_front();
        proof {
            if old(self).pending@.len() > 0 {
                assert(self.pending@ =~= old(self).pending@.drop_first());
            }
        }
        r
    }

    /// Takes in the listing `entries` of the folder at local place `parent`:
    /// its files are fetched after those found before, and its folders are
    /// listed after those found before, both in listing order.
    pub fn take_listing(&mut self, parent: &Vec<String>, entries: Vec<RemoteEntry>)
        ensures
            items_view(final(self).files@) == items_view(old(self).files@) + file_items(strings_view(parent@), entries@),
            folders_view(final(self).pending@) == folders_view(old(self).pending@) + folder_items(
                strings_view(parent@),
                entries@,
            ),
    {
        let ghost p = strings_view(parent@);
        let ghost files0 = items_view(self.files@);
        let ghost pending0 = folders_view(self.pending@);
        let mut i: usize = 0;
        assert(entries@.take(0) =~= Seq::<RemoteEntry>::empty());
        assert(items_view(self.files@) =~= files0 + file_items(p, entries@.take(0)));
        assert(folders_view(self.pending@) =~= pending0 + folder_items(p, entries@.take(0)));
        while i < entries.len()
            invariant
                i <= entries@.len(),
                p == strings_view(parent@),
                items_view(self.files@) == files0 + file_items(p, entries@.take(i as int)),
                folders_view(self.pending@) == pending0 + folder_items(p, entries@.take(i as int)),
            decreases entries@.len() - i,
        {
            let e = &entries[i];
            let ghost before_files = self.files@;
            let ghost before_pending = self.pending@;
            assert(entries@.take(i + 1).drop_last() =~= entries@.take(i as int));
            assert(entries@.take(i + 1).last() == entries@[i as int]);
            let segments = child_segments(parent, &e.name);
            match e.kind {
                RemoteEntryKind::File => {
                    self.files.push(DownloadItem {
                        remote_path: e.relative_path.clone(),
                        local_segments: segments,
                        name: e.name.clone(),
                        size: e.size,
                    });
                    assert(items_view(self.files@) =~= items_view(before_files).push(item_view(self.files@.last())));
                    assert(folders_view(self.pending@) == folders_view(before_pending));
                },
                RemoteEntryKind::Folder => {
                    self.pending.push_back((e.relative_path.clone(), segments));
                    assert(folders_view(self.pending@) =~= folders_view(before_pending).push(
                        (e.relative_path@, strings_view(segments@)),
                    ));
                },
            }
            i = i + 1;
        }
        assert(entries@.take(entries@.len() as int) =~= entries@);
    }
}

} // verus!
