//! Dragging a peer's files out as virtual files on Windows: the tree of
//! entries that the drag offers, their paths and sizes as the shell wants
//! them, and when the drag ends.

use vstd::prelude::*;
use std::collections::VecDeque;
use crate::remote_transfer::{check_download_complete, ended_early_text, last_segment, remote_name, trim_end_slashes};
use crate::text::{chars_of, extend_chars, string_from_chars};

verus! {

/// Entries a virtual drag offers at most.
pub const MAX_VIRTUAL_DRAG_ENTRIES: usize = 10_000;
/// Longest virtual path, in UTF-16 code units.
pub const MAX_VIRTUAL_PATH_UNITS: usize = 259;

/// What a remote entry is.
#[derive(Debug, Clone, Copy, PartialEq, Eq)]
pub enum RemoteEntryKind {
    File,
    Folder,
}

/// An entry of a peer's shared folder, as a listing gives it.
#[derive(Debug, Clone)]
pub struct RemoteEntry {
    pub name: String,
    pub relative_path: String,
    pub kind: RemoteEntryKind,
    pub size: u64,
}

/// An entry that the drag offers, under its path in the drag.
#[derive(Debug, Clone)]
pub struct VirtualEntry {
    pub virtual_path: String,
    pub remote_path: String,
    pub kind: RemoteEntryKind,
    pub size: u64,
}

/// The UTF-16 code units of `s`.
pub open spec fn utf16_len(s: Seq<char>) -> nat
    decreases s.len(),
{
    if s.len() == 0 {
        0
    } else {
        utf16_len(s.drop_last()) + if (s.last() as u32) < 0x10000 { 1nat } else { 2nat }
    }
}

/// The UTF-16 length of `s`.
pub fn utf16_units(s: &str) -> (n: usize)
    ensures
        n == utf16_len(s@) || (n == usize::MAX && utf16_len(s@) >= usize::MAX),
{
    let c = chars_of(s);
    let mut n: usize = 0;
    let mut i: usize = 0;
    while i < c.len()
        invariant
            i <= c@.len(),
            c@ == s@,
            n == utf16_len(c@.take(i as int)) || (n == usize::MAX && utf16_len(c@.take(i as int)) >= usize::MAX),
        decreases c@.len() - i,
    {
        assert(c@.take(i + 1).drop_last() =~= c@.take(i as int));
        let w: usize = if (c[i] as u32) < 0x10000 { 1 } else { 2 };
        n = n.saturating_add(w);
        i = i + 1;
    }
    assert(c@.take(i as int) =~= c@);
    n
}

/// Checks that a virtual path fits the shell: at most 259 UTF-16 units.
pub fn validate_virtual_path(path: &str) -> (r: Result<(), String>)
    ensures
        r is Ok <==> utf16_len(path@) <= MAX_VIRTUAL_PATH_UNITS,
        r matches Err(e) ==> e@ == "Windows virtual drag path is too long: "@ + path@,
{
    if utf16_units(path) > MAX_VIRTUAL_PATH_UNITS {
        let mut v = chars_of("Windows virtual drag path is too long: ");
        extend_chars(&mut v, &chars_of(path));
        Err(string_from_chars(&v))
    } else {
        Ok(())
    }
}

/// The path in the drag of `name` inside the virtual folder `parent`.
pub open spec fn virtual_child(parent: Seq<char>, name: Seq<char>) -> Seq<char> {
    parent + "\\"@ + name
}

/// The size of a file as the shell's descriptor holds it: its high and its
/// low 32 bits.
pub fn size_parts(size: u64) -> (r: (u32, u32))
    ensures
        r.0 as int * 0x1_0000_0000 + r.1 as int == size as int,
{
    let high = (size / 0x1_0000_0000) as u32;
    let low = (size % 0x1_0000_0000) as u32;
    (high, low)
}

/// What becomes of a drag as the pointer moves.
#[derive(Debug, Clone, Copy, PartialEq, Eq)]
pub enum DragProgress {
    Cancel,
    Drop,
    Continue,
}

/// A drag is cancelled by Escape and dropped once the left button is up.
pub fn drag_progress(escape_pressed: bool, left_button_down: bool) -> (p: DragProgress)
    ensures
        p == if escape_pressed {
            DragProgress::Cancel
        } else if !left_button_down {
            DragProgress::Drop
        } else {
            DragProgress::Continue
        },
{
    if escape_pressed {
        DragProgress::Cancel
    } else if !left_button_down {
        DragProgress::Drop
    } else {
        DragProgress::Continue
    }
}

/// The entries that a virtual drag of a folder collects, folder by folder in
/// the order they were found, and the folders whose listings are still to
/// be taken in.
pub struct VirtualTree {
    pub entries: Vec<VirtualEntry>,
    /// Remote path and virtual path of each folder still to be listed.
    pub pending: VecDeque<(String, String)>,
}

impl VirtualTree {
    /// Starts the tree of the remote entry at `relative_path`: the entry
    /// itself, under its name. A file is all there is; a folder waits to
    /// be listed.
    pub fn new(relative_path: &str, kind: RemoteEntryKind, size: u64) -> (r: Result<Self, String>)
        ensures
            match r {
                Ok(t) => {
                    let name = last_segment(trim_end_slashes(relative_path@));
                    &&& name.len() > 0
                    &&& t.entries@.len() == 1
                    &&& t.entries@[0].virtual_path@ == name
                    &&& t.entries@[0].remote_path@ == relative_path@
                    &&& t.entries@[0].kind == kind
                    &&& t.entries@[0].size == size
                    &&& kind == RemoteEntryKind::File ==> t.pending@.len() == 0 && utf16_len(name) <= MAX_VIRTUAL_PATH_UNITS
                    &&& kind == RemoteEntryKind::Folder ==> t.pending@.len() == 1 && t.pending@[0].0@ == relative_path@
                        && t.pending@[0].1@ == name
                },
                Err(e) => last_segment(trim_end_slashes(relative_path@)).len() == 0
                    || (kind == RemoteEntryKind::File && utf16_len(last_segment(trim_end_slashes(relative_path@)))
                    > MAX_VIRTUAL_PATH_UNITS),
            },
    {
        let root = remote_name(relative_path)?;
        let mut entries: Vec<VirtualEntry> = Vec::new();
        entries.push(VirtualEntry {
            virtual_path: root.clone(),
            remote_path: relative_path.to_string(),
            kind,
            size,
        });
        let mut pending: VecDeque<(String, String)> = VecDeque::new();
        match kind {
            RemoteEntryKind::File => {
                validate_virtual_path(root.as_str())?;
            },
            RemoteEntryKind::Folder => {
                pending.push_back((relative_path.to_string(), root));
            },
        }
        Ok(VirtualTree { entries, pending })
    }

    /// The next folder to list, if any.
    pub fn next_folder(&mut self) -> (r: Option<(String, String)>)
        ensures
            final(self).entries@ == old(self).entries@,
            old(self).pending@.len() == 0 ==> r is None && final(self).pending@ == old(self).pending@,
            old(self).pending@.len() > 0 ==> r == Some(old(self).pending@[0])
                && final(self).pending@ == old(self).pending@.drop_first(),
    {
        let r = self.pending.pop_front();
        proof {
            if old(self).pending@.len() > 0 {
                assert(self.pending@ =~= old(self).pending@.drop_first());
            }
        }
        r
    }

    /// Takes in the listing `children` of the folder at `virtual_parent`:
    /// each child joins the entries under the folder's path, and each child
    /// folder waits to be listed after those found before. The children are
    /// looked at in order, and the first one refused refuses the listing: it
    /// is refused when the tree already holds the most entries, or else when
    /// its path is too long. A refused listing leaves the tree as it is.
    pub fn add_children(&mut self, virtual_parent: &str, children: Vec<RemoteEntry>) -> (r: Result<(), String>)
        ensures
            r is Ok <==> forall|k: int| 0 <= k < children@.len() ==>
                (#[trigger] child_refusal(old(self).entries@.len() as int, virtual_parent@, children@, k)) is None,
            r is Ok <==> listing_fits(old(self).entries@.len() as int, virtual_parent@, children@),
            r matches Err(e) ==> exists|k: int| 0 <= k < children@.len()
                && (forall|j: int| 0 <= j < k ==>
                    (#[trigger] child_refusal(old(self).entries@.len() as int, virtual_parent@, children@, j)) is None)
                && child_refusal(old(self).entries@.len() as int, virtual_parent@, children@, k) == Some(e@),
            r is Err ==> final(self).entries@ == old(self).entries@ && final(self).pending@ == old(self).pending@,
            r is Ok ==> {
                &&& final(self).entries@.len() == old(self).entries@.len() + children@.len()
                &&& forall|i: int| 0 <= i < old(self).entries@.len() ==> #[trigger] final(self).entries@[i] == old(self).entries@[i]
                &&& forall|i: int| 0 <= i < children@.len() ==> {
                    let e = #[trigger] final(self).entries@[old(self).entries@.len() + i];
                    &&& e.virtual_path@ == virtual_child(virtual_parent@, children@[i].name@)
                    &&& e.remote_path == children@[i].relative_path
                    &&& e.kind == children@[i].kind
                    &&& e.size == children@[i].size
                }
                &&& pending_view(final(self).pending@) == pending_view(old(self).pending@) + child_folders(
                    virtual_parent@,
                    children@,
                )
            },
    {
        let held = self.entries.len();
        let ghost n0 = held as int;
        let ghost parent = virtual_parent@;
        let mut paths: Vec<String> = Vec::new();
        let mut k: usize = 0;
        while k < children.len()
            invariant
                held == self.entries@.len(),
                self.entries@ == old(self).entries@,
                self.pending@ == old(self).pending@,
                n0 == held as int,
                parent == virtual_parent@,
                k <= children@.len(),
                paths@.len() == k,
                forall|j: int| 0 <= j < k ==> #[trigger] paths@[j]@ == virtual_child(parent, children@[j].name@),
                forall|j: int| 0 <= j < k ==> (#[trigger] child_refusal(n0, parent, children@, j)) is None,
            decreases children@.len() - k,
        {
            if held >= MAX_VIRTUAL_DRAG_ENTRIES || k >= MAX_VIRTUAL_DRAG_ENTRIES - held {
                let e = "folder has too many entries for Windows virtual drag export".to_string();
                assert(child_refusal(n0, parent, children@, k as int) == Some(e@));
                return Err(e);
            }
            let mut v = chars_of(virtual_parent);
            extend_chars(&mut v, &chars_of("\\"));
            extend_chars(&mut v, &chars_of(children[k].name.as_str()));
            let path = string_from_chars(&v);
            assert(path@ =~= virtual_child(parent, children@[k as int].name@));
            match validate_virtual_path(path.as_str()) {
                Ok(()) => {},
                Err(e) => {
                    assert(child_refusal(n0, parent, children@, k as int) == Some(e@));
                    return Err(e);
                },
            }
            assert(child_refusal(n0, parent, children@, k as int) is None);
            paths.push(path);
            k = k + 1;
        }
        proof {
            lemma_listing_fits(n0, parent, children@);
        }
        let ghost p0 = self.pending@;
        let mut i: usize = 0;
        assert(children@.take(0) =~= Seq::<RemoteEntry>::empty());
        assert(pending_view(self.pending@) =~= pending_view(p0) + child_folders(parent, children@.take(0)));
        while i < children.len()
            invariant
                i <= children@.len(),
                paths@.len() == children@.len(),
                n0 == old(self).entries@.len() as int,
                parent == virtual_parent@,
                forall|j: int| 0 <= j < children@.len() ==> #[trigger] paths@[j]@ == virtual_child(parent, children@[j].name@),
                self.entries@.len() == n0 + i,
                forall|j: int| 0 <= j < n0 ==> #[trigger] self.entries@[j] == old(self).entries@[j],
                forall|j: int| 0 <= j < i ==> {
                    let e = #[trigger] self.entries@[n0 + j];
                    &&& e.virtual_path@ == virtual_child(parent, children@[j].name@)
                    &&& e.remote_path == children@[j].relative_path
                    &&& e.kind == children@[j].kind
                    &&& e.size == children@[j].size
                },
                pending_view(self.pending@) == pending_view(p0) + child_folders(parent, children@.take(i as int)),
            decreases children@.len() - i,
        {
            let child = &children[i];
            let path = paths[i].clone();
            let ghost before = self.pending@;
            assert(children@.take(i + 1).drop_last() =~= children@.take(i as int));
            assert(children@.take(i + 1).last() == children@[i as int]);
            if matches!(child.kind, RemoteEntryKind::Folder) {
                self.pending.push_back((child.relative_path.clone(), path.clone()));
                assert(pending_view(self.pending@) =~= pending_view(before).push(
                    (child.relative_path@, virtual_child(parent, child.name@)),
                ));
            }
            self.entries.push(VirtualEntry {
                virtual_path: path,
                remote_path: child.relative_path.clone(),
                kind: child.kind,
                size: child.size,
            });
            i = i + 1;
        }
        assert(children@.take(children@.len() as int) =~= children@);
        Ok(())
    }
}

/// Why the `k`-th child of a listing, taken in while the tree holds `held`
/// entries, is refused, if it is: the tree is full, or else the child's path
/// in the drag is too long.
pub open spec fn child_refusal(held: int, parent: Seq<char>, children: Seq<RemoteEntry>, k: int) -> Option<Seq<char>> {
    if held + k >= MAX_VIRTUAL_DRAG_ENTRIES {
        Some("folder has too many entries for Windows virtual drag export"@)
    } else if utf16_len(virtual_child(parent, children[k].name@)) > MAX_VIRTUAL_PATH_UNITS {
        Some("Windows virtual drag path is too long: "@ + virtual_child(parent, children[k].name@))
    } else {
        None
    }
}

/// Whether a listing fits a tree that holds `held` entries: the tree then
/// holds at most the most entries, and every child's path is short enough.
pub open spec fn listing_fits(held: int, parent: Seq<char>, children: Seq<RemoteEntry>) -> bool {
    &&& (children.len() == 0 || held + children.len() <= MAX_VIRTUAL_DRAG_ENTRIES)
    &&& forall|i: int| 0 <= i < children.len() ==>
        #[trigger] utf16_len(virtual_child(parent, children[i].name@)) <= MAX_VIRTUAL_PATH_UNITS
}

proof fn lemma_listing_fits(held: int, parent: Seq<char>, children: Seq<RemoteEntry>)
    ensures
        (forall|k: int| 0 <= k < children.len() ==> (#[trigger] child_refusal(held, parent, children, k)) is None)
            <==> listing_fits(held, parent, children),
{
    if forall|k: int| 0 <= k < children.len() ==> (#[trigger] child_refusal(held, parent, children, k)) is None {
        if children.len() > 0 {
            assert(child_refusal(held, parent, children, children.len() - 1) is None);
        }
        assert forall|i: int| 0 <= i < children.len() implies
            #[trigger] utf16_len(virtual_child(parent, children[i].name@)) <= MAX_VIRTUAL_PATH_UNITS by {
            assert(child_refusal(held, parent, children, i) is None);
        }
    }
    if listing_fits(held, parent, children) {
        assert forall|k: int| 0 <= k < children.len() implies
            (#[trigger] child_refusal(held, parent, children, k)) is None by {
            assert(utf16_len(virtual_child(parent, children[k].name@)) <= MAX_VIRTUAL_PATH_UNITS);
        }
    }
}

/// Remote path and virtual path of each folder still to be listed.
pub open spec fn pending_view(q: Seq<(String, String)>) -> Seq<(Seq<char>, Seq<char>)> {
    q.map_values(|f: (String, String)| (f.0@, f.1@))
}

/// The folders of the listing `children` of the virtual folder `parent`,
/// in listing order: remote path and path in the drag.
pub open spec fn child_folders(parent: Seq<char>, children: Seq<RemoteEntry>) -> Seq<(Seq<char>, Seq<char>)>
    decreases children.len(),
{
    if children.len() == 0 {
        Seq::empty()
    } else {
        let rest = child_folders(parent, children.drop_last());
        let e = children.last();
        if e.kind == RemoteEntryKind::Folder {
            rest.push((e.relative_path@, virtual_child(parent, e.name@)))
        } else {
            rest
        }
    }
}

/// Where a seek of a virtual file's stream counts from.
#[derive(Debug, Clone, Copy, PartialEq, Eq)]
pub enum SeekOrigin {
    Start,
    Current,
    End,
}

/// What a read of a virtual file's stream needs first.
#[derive(Debug, Clone, Copy, PartialEq, Eq)]
pub enum ReadNeed {
    /// Nothing is read: nothing was asked for, or the end was reached.
    Nothing,
    /// The download must have reached this many bytes, or ended.
    Until(u64),
}

/// Where the stream of one virtual file stands: the file's size, where the
/// reader is, how much of the download arrived, whether it ended, how it
/// failed, and whether its outcome was reported.
pub struct StreamState {
    pub size: u64,
    pub position: u64,
    pub cached: u64,
    pub complete: bool,
    pub error: Option<String>,
    pub reported: bool,
}

impl StreamState {
    /// A stream of a file of `size` bytes, before anything arrived.
    pub fn new(size: u64) -> (s: Self)
        ensures
            s.size == size,
            s.position == 0,
            s.cached == 0,
            !s.complete,
            s.error is None,
            !s.reported,
    {
        StreamState { size, position: 0, cached: 0, complete: false, error: None, reported: false }
    }

    /// What a read of up to `want` bytes waits for: the download up to
    /// the reader's position plus `want`, at most the size.
    pub fn read_need(&self, want: usize) -> (n: ReadNeed)
        ensures
            n == if want == 0 || self.position >= self.size {
                ReadNeed::Nothing
            } else if self.position + want < self.size {
                ReadNeed::Until((self.position + want) as u64)
            } else {
                ReadNeed::Until(self.size)
            },
    {
        if want == 0 || self.position >= self.size {
            return ReadNeed::Nothing;
        }
        let end = self.position as u128 + want as u128;
        if end < self.size as u128 {
            ReadNeed::Until(end as u64)
        } else {
            ReadNeed::Until(self.size)
        }
    }

    /// Whether the download must go on before a read that needs `target`
    /// bytes: it has not reached them and has not ended.
    pub fn needs_more(&self, target: u64) -> (b: bool)
        ensures
            b == (self.cached < target && !self.complete),
    {
        self.cached < target && !self.complete
    }

    /// A chunk of `len` bytes arrived.
    pub fn on_chunk(&mut self, len: usize)
        ensures
            final(self).cached == if old(self).cached + len > u64::MAX { u64::MAX } else { (old(self).cached + len) as u64 },
            final(self).size == old(self).size,
            final(self).position == old(self).position,
            final(self).complete == old(self).complete,
            final(self).error == old(self).error,
            final(self).reported == old(self).reported,
    {
        self.cached = self.cached.saturating_add(len as u64);
    }

    /// The download failed with `error`: the stream ends with it.
    pub fn on_failure(&mut self, error: String)
        ensures
            final(self).complete,
            final(self).error == Some(error),
            final(self).size == old(self).size,
            final(self).position == old(self).position,
            final(self).cached == old(self).cached,
            final(self).reported == old(self).reported,
    {
        self.complete = true;
        self.error = Some(error);
    }

    /// The download ended: it succeeded when every byte arrived, else it
    /// failed for ending early.
    pub fn on_end(&mut self) -> (r: Result<(), String>)
        ensures
            final(self).complete,
            r is Ok <==> old(self).cached == old(self).size,
            r matches Err(e) ==> e@ == ended_early_text(old(self).size, old(self).cached)
                && final(self).error == Some(e),
            r is Ok ==> final(self).error == old(self).error,
            final(self).size == old(self).size,
            final(self).position == old(self).position,
            final(self).cached == old(self).cached,
            final(self).reported == old(self).reported,
    {
        self.complete = true;
        let r = check_download_complete(self.size, self.cached);
        match &r {
            Ok(()) => {},
            Err(e) => {
                self.error = Some(e.clone());
            },
        }
        r
    }

    /// Claims the report of the stream's outcome: true once.
    pub fn claim_report(&mut self) -> (claimed: bool)
        ensures
            claimed == !old(self).reported,
            final(self).reported,
            final(self).size == old(self).size,
            final(self).position == old(self).position,
            final(self).cached == old(self).cached,
            final(self).complete == old(self).complete,
            final(self).error == old(self).error,
    {
        let claimed = !self.reported;
        self.reported = true;
        claimed
    }

    /// Hands out up to `want` bytes at the reader's position from what
    /// arrived: the position they start at and their count, and moves the
    /// reader past them. The failure of the download, if any, comes back
    /// instead.
    pub fn take_read(&mut self, want: usize) -> (r: Result<(u64, usize), String>)
        ensures
            match old(self).error {
                Some(e) => r == Err::<(u64, usize), String>(e) && final(self).position == old(self).position,
                None => {
                    let available: int = if old(self).cached > old(self).position { old(self).cached - old(self).position } else { 0 };
                    let count: int = if available < want { available } else { want as int };
                    &&& r == Ok::<(u64, usize), String>((old(self).position, count as usize))
                    &&& final(self).position == old(self).position + count
                },
            },
            final(self).size == old(self).size,
            final(self).cached == old(self).cached,
            final(self).complete == old(self).complete,
            final(self).error == old(self).error,
            final(self).reported == old(self).reported,
    {
        match &self.error {
            Some(e) => return Err(e.clone()),
            None => {},
        }
        let available: u64 = if self.cached > self.position { self.cached - self.position } else { 0 };
        let count: usize = if (available as u128) < (want as u128) { available as usize } else { want };
        let start = self.position;
        self.position = self.position + count as u64;
        Ok((start, count))
    }

    /// Moves the reader `offset` bytes from `origin`. Refused when that
    /// falls before the start or past the largest position.
    pub fn seek(&mut self, origin: SeekOrigin, offset: i64) -> (r: Option<u64>)
        ensures
            ({
                let base: int = match origin {
                    SeekOrigin::Start => 0,
                    SeekOrigin::Current => old(self).position as int,
                    SeekOrigin::End => old(self).size as int,
                };
                let target = base + offset;
                if 0 <= target <= u64::MAX {
                    r == Some(target as u64) && final(self).position == target
                } else {
                    r is None && final(self).position == old(self).position
                }
            }),
            final(self).size == old(self).size,
            final(self).cached == old(self).cached,
            final(self).complete == old(self).complete,
            final(self).error == old(self).error,
            final(self).reported == old(self).reported,
    {
        let base: i128 = match origin {
            SeekOrigin::Start => 0,
            SeekOrigin::Current => self.position as i128,
            SeekOrigin::End => self.size as i128,
        };
        let target: i128 = base + offset as i128;
        if target >= 0 && target <= u64::MAX as i128 {
            self.position = target as u64;
            Some(target as u64)
        } else {
            None
        }
    }
}

} // verus!
