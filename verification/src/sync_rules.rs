//! Decisions of the desktop clipboard synchronization: who dials whom, which
//! peers host the desktop control service, request ids, and which local
//! records a peer still needs after reconciliation.

use vstd::prelude::*;
use vstd::string::StringExecFns;
use crate::text::{chars_equal, chars_less, chars_of, lemma_seq_less_total, lower_chars, lower_seq, seq_less, trim, trim_chars};

verus! {

/// Why a connection to a peer would be opened.
#[derive(Debug, Clone, Copy, PartialEq, Eq)]
pub enum ConnectionIntent {
    /// A background dial to a discovered, paired desktop.
    Automatic,
    /// A background dial after the elected side did not connect in time.
    AutomaticFallback,
    /// The user asked to connect.
    UserInitiated,
}

pub open spec fn should_start_spec(
    local_id: Seq<char>,
    peer_id: Seq<char>,
    paired: bool,
    auto_connect: bool,
    intent: ConnectionIntent,
) -> bool {
    local_id != peer_id && match intent {
        ConnectionIntent::UserInitiated => true,
        ConnectionIntent::Automatic => paired && auto_connect && seq_less(local_id, peer_id),
        ConnectionIntent::AutomaticFallback => paired && auto_connect,
    }
}

/// Whether this desktop opens a connection to `peer_id`: never to itself;
/// always when the user asks; in the background only to paired peers with
/// automatic connection on, and then, at first, only from the side whose id
/// sorts first.
pub fn should_start_connection(
    local_id: &str,
    peer_id: &str,
    paired: bool,
    auto_connect: bool,
    intent: ConnectionIntent,
) -> (b: bool)
    ensures
        b == should_start_spec(local_id@, peer_id@, paired, auto_connect, intent),
{
    let local = chars_of(local_id);
    let peer = chars_of(peer_id);
    if chars_equal(&local, &peer) {
        return false;
    }
    match intent {
        ConnectionIntent::UserInitiated => true,
        ConnectionIntent::Automatic => paired && auto_connect && chars_less(&local, &peer),
        ConnectionIntent::AutomaticFallback => paired && auto_connect,
    }
}

/// Two distinct paired desktops with automatic connection on elect exactly
/// one automatic dialer.
pub proof fn paired_desktops_elect_one_dialer(a: Seq<char>, b: Seq<char>)
    requires
        a != b,
    ensures
        should_start_spec(a, b, true, true, ConnectionIntent::Automatic) != should_start_spec(
            b,
            a,
            true,
            true,
            ConnectionIntent::Automatic,
        ),
{
    lemma_seq_less_total(a, b);
}

/// Without pairing, nothing is dialed in the background.
pub proof fn unpaired_desktops_are_never_dialed_automatically(
    a: Seq<char>,
    b: Seq<char>,
    auto_connect: bool,
    intent: ConnectionIntent,
)
    requires
        intent != ConnectionIntent::UserInitiated,
    ensures
        !should_start_spec(a, b, false, auto_connect, intent),
{
}

pub open spec fn desktop_platform(p: Seq<char>) -> bool {
    p == "macos"@ || p == "mac"@ || p == "darwin"@ || p == "osx"@ || p == "windows"@ || p
        == "win32"@ || p == "linux"@
}

/// Whether a peer of `platform` hosts the desktop control service: the
/// trimmed, ASCII-lower-cased name is one of the desktop platforms.
pub fn hosts_desktop_control_service(platform: &str) -> (b: bool)
    ensures
        b == desktop_platform(lower_seq(trim(platform@))),
{
    let name = lower_chars(&trim_chars(&chars_of(platform)));
    chars_equal(&name, &chars_of("macos")) || chars_equal(&name, &chars_of("mac"))
        || chars_equal(&name, &chars_of("darwin")) || chars_equal(&name, &chars_of("osx"))
        || chars_equal(&name, &chars_of("windows")) || chars_equal(&name, &chars_of("win32"))
        || chars_equal(&name, &chars_of("linux"))
}

/// A capability that paired desktops grant each other.
#[derive(Debug, Clone, Copy, PartialEq, Eq, Structural)]
pub enum Capability {
    ClipboardRead,
    ClipboardWrite,
    ClipboardSync,
    RemoteFilesRead,
    RemoteFilesWrite,
    CrossScreenInject,
    NearbyTransferSend,
    PrintSubmit,
}

/// Whether a grant lets this desktop use the capability on the peer
/// (outbound) or lets the peer use it here (inbound).
#[derive(Debug, Clone, Copy, PartialEq, Eq, Structural)]
pub enum GrantDirection {
    Outbound,
    Inbound,
}

/// One capability grant asked for when pairing.
#[derive(Debug, Clone, Copy, PartialEq, Eq, Structural)]
pub struct PairingGrant {
    pub capability: Capability,
    pub direction: GrantDirection,
}

/// The capabilities two desktops grant each other, in the order asked.
pub open spec fn desktop_capabilities() -> Seq<Capability> {
    seq![
        Capability::ClipboardRead,
        Capability::ClipboardWrite,
        Capability::ClipboardSync,
        Capability::RemoteFilesRead,
        Capability::RemoteFilesWrite,
        Capability::CrossScreenInject,
        Capability::NearbyTransferSend,
        Capability::PrintSubmit,
    ]
}

/// The grants a desktop asks for when pairing with another desktop: each
/// desktop capability, outbound then inbound.
pub fn desktop_pairing_grants() -> (v: Vec<PairingGrant>)
    ensures
        v@.len() == 2 * desktop_capabilities().len(),
        forall|i: int| 0 <= i < desktop_capabilities().len() ==> {
            &&& #[trigger] v@[2 * i] == PairingGrant { capability: desktop_capabilities()[i], direction: GrantDirection::Outbound }
            &&& v@[2 * i + 1] == PairingGrant { capability: desktop_capabilities()[i], direction: GrantDirection::Inbound }
        },
{
    let capabilities = vec![
        Capability::ClipboardRead,
        Capability::ClipboardWrite,
        Capability::ClipboardSync,
        Capability::RemoteFilesRead,
        Capability::RemoteFilesWrite,
        Capability::CrossScreenInject,
        Capability::NearbyTransferSend,
        Capability::PrintSubmit,
    ];
    assert(capabilities@ =~= desktop_capabilities());
    let mut v: Vec<PairingGrant> = Vec::new();
    let mut i: usize = 0;
    while i < capabilities.len()
        invariant
            i <= capabilities@.len(),
            capabilities@ == desktop_capabilities(),
            v@.len() == 2 * i,
            forall|j: int| 0 <= j < i ==> {
                &&& #[trigger] v@[2 * j] == PairingGrant { capability: capabilities@[j], direction: GrantDirection::Outbound }
                &&& v@[2 * j + 1] == PairingGrant { capability: capabilities@[j], direction: GrantDirection::Inbound }
            },
        decreases capabilities@.len() - i,
    {
        let capability = capabilities[i];
        v.push(PairingGrant { capability, direction: GrantDirection::Outbound });
        v.push(PairingGrant { capability, direction: GrantDirection::Inbound });
        i = i + 1;
    }
    v
}

/// The next request id: never zero, then advancing by one and staying at the
/// largest id once reached.
pub fn take_request_id(next: &mut u64) -> (id: u64)
    ensures
        id >= 1,
        id == (if *old(next) == 0 { 1 } else { *old(next) }),
        *final(next) == (if id == u64::MAX { u64::MAX } else { (id + 1) as u64 }),
{
    let value = if *next < 1 {
        1
    } else {
        *next
    };
    *next = value.saturating_add(1);
    value
}

/// Ids taken one after the other differ until the largest id is reached.
pub proof fn request_ids_increase(first: u64)
    requires
        first < u64::MAX,
    ensures
        ({
            let id = if first == 0 { 1u64 } else { first };
            let next = if id == u64::MAX { u64::MAX } else { (id + 1) as u64 };
            let id2 = if next == 0 { 1u64 } else { next };
            id < id2
        }),
{
}

// ---------------------------------------------------------------------------
// Reconciliation

/// A revision and the device that made it, ordered by revision, then by
/// device id.
pub type Stamp = (u64, String);

pub open spec fn stamp_ge(a: (u64, Seq<char>), b: (u64, Seq<char>)) -> bool {
    a.0 > b.0 || (a.0 == b.0 && !seq_less(a.1, b.1))
}

fn stamp_ge_exec(a_rev: u64, a_dev: &String, b_rev: u64, b_dev: &String) -> (r: bool)
    ensures
        r == stamp_ge((a_rev, a_dev@), (b_rev, b_dev@)),
{
    if a_rev != b_rev {
        return a_rev > b_rev;
    }
    !chars_less(&chars_of(a_dev.as_str()), &chars_of(b_dev.as_str()))
}

/// The versions that a synchronized clipboard record carries.
#[derive(Debug)]
pub struct RecordVersions {
    pub revision: u64,
    pub updated_by_device_id: String,
    pub favorite_revision: u64,
    pub favorite_updated_by_device_id: String,
    /// `(label id, revision, device)` of each label.
    pub labels: Vec<(String, u64, String)>,
    /// `(label id, revision, device)` of each label membership.
    pub label_memberships: Vec<(String, u64, String)>,
}

pub open spec fn entry_view(e: (String, u64, String)) -> (Seq<char>, u64, Seq<char>) {
    (e.0@, e.1, e.2@)
}

pub open spec fn entries_view(v: Seq<(String, u64, String)>) -> Seq<(Seq<char>, u64, Seq<char>)> {
    v.map_values(|e: (String, u64, String)| entry_view(e))
}

/// The version of `id` in `entries`: that of its last entry, as a map built
/// from them keeps.
pub open spec fn version_of(entries: Seq<(Seq<char>, u64, Seq<char>)>, id: Seq<char>) -> Option<(u64, Seq<char>)>
    decreases entries.len(),
{
    if entries.len() == 0 {
        None
    } else if entries.last().0 == id {
        Some((entries.last().1, entries.last().2))
    } else {
        version_of(entries.drop_last(), id)
    }
}

/// Every entry of `record` has a version in `known` at least as new.
pub open spec fn all_covered(known: Seq<(Seq<char>, u64, Seq<char>)>, record: Seq<(Seq<char>, u64, Seq<char>)>) -> bool {
    forall|i: int|
        0 <= i < record.len() ==> (version_of(known, (#[trigger] record[i]).0) matches Some(v)
            && stamp_ge(v, (record[i].1, record[i].2)))
}

/// What a peer reported to hold of one record.
#[derive(Debug)]
pub struct RemoteClipboardVersion {
    pub content: Stamp,
    pub favorite: Stamp,
    pub labels: Vec<(String, u64, String)>,
    pub memberships: Vec<(String, u64, String)>,
}

pub open spec fn has_current_content_spec(remote: RemoteClipboardVersion, record: RecordVersions) -> bool {
    stamp_ge((remote.content.0, remote.content.1@), (record.revision, record.updated_by_device_id@))
}

pub open spec fn covers_spec(remote: RemoteClipboardVersion, record: RecordVersions) -> bool {
    &&& has_current_content_spec(remote, record)
    &&& stamp_ge(
        (remote.favorite.0, remote.favorite.1@),
        (record.favorite_revision, record.favorite_updated_by_device_id@),
    )
    &&& all_covered(entries_view(remote.labels@), entries_view(record.labels@))
    &&& all_covered(entries_view(remote.memberships@), entries_view(record.label_memberships@))
}

fn copy_entries(v: &Vec<(String, u64, String)>) -> (r: Vec<(String, u64, String)>)
    ensures
        r@ == v@,
{
    let mut r: Vec<(String, u64, String)> = Vec::new();
    let mut i: usize = 0;
    while i < v.len()
        invariant
            i <= v@.len(),
            r@ == v@.take(i as int),
        decreases v@.len() - i,
    {
        let e = (v[i].0.clone(), v[i].1, v[i].2.clone());
        r.push(e);
        i = i + 1;
        assert(r@ =~= v@.take(i as int));
    }
    assert(v@.take(v@.len() as int) =~= v@);
    r
}

fn version_of_exec(entries: &Vec<(String, u64, String)>, id: &String) -> (r: Option<usize>)
    ensures
        match r {
            Some(i) => i < entries@.len() && version_of(entries_view(entries@), id@) == Some(
                (entries@[i as int].1, entries@[i as int].2@),
            ),
            None => version_of(entries_view(entries@), id@) is None,
        },
{
    let mut i: usize = entries.len();
    assert(entries_view(entries@).take(i as int) =~= entries_view(entries@));
    while i > 0
        invariant
            i <= entries@.len(),
            version_of(entries_view(entries@), id@) == version_of(entries_view(entries@).take(i as int), id@),
        decreases i,
    {
        assert(entries_view(entries@).take(i as int).drop_last() =~= entries_view(entries@).take(i - 1));
        if entries[i - 1].0 == *id {
            return Some(i - 1);
        }
        i = i - 1;
    }
    None
}

fn all_covered_exec(known: &Vec<(String, u64, String)>, record: &Vec<(String, u64, String)>) -> (r: bool)
    ensures
        r == all_covered(entries_view(known@), entries_view(record@)),
{
    let mut i: usize = 0;
    while i < record.len()
        invariant
            i <= record@.len(),
            forall|k: int|
                0 <= k < i ==> (version_of(entries_view(known@), (#[trigger] entries_view(record@)[k]).0) matches Some(v)
                    && stamp_ge(v, (entries_view(record@)[k].1, entries_view(record@)[k].2))),
        decreases record@.len() - i,
    {
        let entry = &record[i];
        let ok = match version_of_exec(known, &entry.0) {
            Some(j) => stamp_ge_exec(known[j].1, &known[j].2, entry.1, &entry.2),
            None => false,
        };
        if !ok {
            assert(!(version_of(entries_view(known@), entries_view(record@)[i as int].0) matches Some(v)
                && stamp_ge(v, (entries_view(record@)[i as int].1, entries_view(record@)[i as int].2))));
            return false;
        }
        i = i + 1;
    }
    true
}

impl RemoteClipboardVersion {
    /// The versions that a peer sent with one of its records.
    pub fn from_versions(record: &RecordVersions) -> (v: Self)
        ensures
            v.content.0 == record.revision,
            v.content.1@ == record.updated_by_device_id@,
            v.favorite.0 == record.favorite_revision,
            v.favorite.1@ == record.favorite_updated_by_device_id@,
            v.labels@ == record.labels@,
            v.memberships@ == record.label_memberships@,
    {
        RemoteClipboardVersion {
            content: (record.revision, record.updated_by_device_id.clone()),
            favorite: (record.favorite_revision, record.favorite_updated_by_device_id.clone()),
            labels: copy_entries(&record.labels),
            memberships: copy_entries(&record.label_memberships),
        }
    }

    /// Whether the peer holds the record's current content.
    pub fn has_current_content(&self, record: &RecordVersions) -> (b: bool)
        ensures
            b == has_current_content_spec(*self, *record),
    {
        stamp_ge_exec(self.content.0, &self.content.1, record.revision, &record.updated_by_device_id)
    }

    /// Whether the peer holds everything of the record: content, favorite
    /// flag, labels and label memberships, each at least as new.
    pub fn covers(&self, record: &RecordVersions) -> (b: bool)
        ensures
            b == covers_spec(*self, *record),
    {
        self.has_current_content(record) && stamp_ge_exec(
            self.favorite.0,
            &self.favorite.1,
            record.favorite_revision,
            &record.favorite_updated_by_device_id,
        ) && all_covered_exec(&self.labels, &record.labels) && all_covered_exec(
            &self.memberships,
            &record.label_memberships,
        )
    }
}

/// What to do with a local record when pushing a snapshot to a peer.
#[derive(Debug, Clone, Copy, PartialEq, Eq)]
pub enum SnapshotDecision {
    /// The peer already holds all of it.
    Skip,
    /// Send it; with its payload unless the peer holds its current content.
    Send { include_payload: bool },
}

/// The decision for `record`, given what the peer reported of it.
pub fn snapshot_decision(remote: Option<&RemoteClipboardVersion>, record: &RecordVersions) -> (d: SnapshotDecision)
    ensures
        d == match remote {
            Some(v) => if covers_spec(*v, *record) {
                SnapshotDecision::Skip
            } else {
                SnapshotDecision::Send { include_payload: !has_current_content_spec(*v, *record) }
            },
            None => SnapshotDecision::Send { include_payload: true },
        },
{
    match remote {
        Some(v) => if v.covers(record) {
            SnapshotDecision::Skip
        } else {
            SnapshotDecision::Send { include_payload: !v.has_current_content(record) }
        },
        None => SnapshotDecision::Send { include_payload: true },
    }
}

/// A peer that holds everything of a record also holds its current content.
pub proof fn covering_implies_current_content(remote: RemoteClipboardVersion, record: RecordVersions)
    requires
        covers_spec(remote, record),
    ensures
        has_current_content_spec(remote, record),
{
}

proof fn lemma_last_version(entries: Seq<(Seq<char>, u64, Seq<char>)>, i: int)
    requires
        0 <= i < entries.len(),
        forall|a: int, b: int| 0 <= a < b < entries.len() ==> (#[trigger] entries[a]).0 != (#[trigger] entries[b]).0,
    ensures
        version_of(entries, entries[i].0) == Some((entries[i].1, entries[i].2)),
    decreases entries.len(),
{
    if i < entries.len() - 1 {
        assert(entries.last().0 != entries[i].0);
        lemma_last_version(entries.drop_last(), i);
    }
}

proof fn lemma_stamp_ge_refl(a: (u64, Seq<char>))
    ensures
        stamp_ge(a, a),
{
    lemma_seq_less_total(a.1, a.1);
}

/// The versions a record carries cover that record, when its labels and
/// memberships each name a label once.
pub proof fn record_versions_cover_their_record(remote: RemoteClipboardVersion, record: RecordVersions)
    requires
        remote.content.0 == record.revision,
        remote.content.1@ == record.updated_by_device_id@,
        remote.favorite.0 == record.favorite_revision,
        remote.favorite.1@ == record.favorite_updated_by_device_id@,
        remote.labels@ == record.labels@,
        remote.memberships@ == record.label_memberships@,
        forall|a: int, b: int|
            0 <= a < b < record.labels@.len() ==> (#[trigger] record.labels@[a]).0@ != (#[trigger] record.labels@[b]).0@,
        forall|a: int, b: int|
            0 <= a < b < record.label_memberships@.len() ==> (#[trigger] record.label_memberships@[a]).0@
                != (#[trigger] record.label_memberships@[b]).0@,
    ensures
        covers_spec(remote, record),
{
    lemma_stamp_ge_refl((record.revision, record.updated_by_device_id@));
    lemma_stamp_ge_refl((record.favorite_revision, record.favorite_updated_by_device_id@));
    let lv = entries_view(record.labels@);
    let mv = entries_view(record.label_memberships@);
    assert forall|i: int| 0 <= i < lv.len() implies (version_of(lv, (#[trigger] lv[i]).0) matches Some(v)
        && stamp_ge(v, (lv[i].1, lv[i].2))) by {
        assert forall|a: int, b: int| 0 <= a < b < lv.len() implies (#[trigger] lv[a]).0 != (#[trigger] lv[b]).0 by {
            assert(lv[a].0 == record.labels@[a].0@ && lv[b].0 == record.labels@[b].0@);
        }
        lemma_last_version(lv, i);
        lemma_stamp_ge_refl((lv[i].1, lv[i].2));
    }
    assert forall|i: int| 0 <= i < mv.len() implies (version_of(mv, (#[trigger] mv[i]).0) matches Some(v)
        && stamp_ge(v, (mv[i].1, mv[i].2))) by {
        assert forall|a: int, b: int| 0 <= a < b < mv.len() implies (#[trigger] mv[a]).0 != (#[trigger] mv[b]).0 by {
            assert(mv[a].0 == record.label_memberships@[a].0@ && mv[b].0 == record.label_memberships@[b].0@);
        }
        lemma_last_version(mv, i);
        lemma_stamp_ge_refl((mv[i].1, mv[i].2));
    }
}

/// The version that `version_of` finds for `id` is that of an entry for `id`.
proof fn lemma_version_from_entry(entries: Seq<(Seq<char>, u64, Seq<char>)>, id: Seq<char>)
    ensures
        version_of(entries, id) matches Some(v) ==> exists|k: int|
            0 <= k < entries.len() && (#[trigger] entries[k]).0 == id && v == (entries[k].1, entries[k].2),
    decreases entries.len(),
{
    if entries.len() > 0 && entries.last().0 != id {
        lemma_version_from_entry(entries.drop_last(), id);
        if version_of(entries, id) is Some {
            let k = choose|k: int| 0 <= k < entries.drop_last().len() && (#[trigger] entries.drop_last()[k]).0 == id
                && version_of(entries, id)->Some_0 == (entries.drop_last()[k].1, entries.drop_last()[k].2);
            assert(entries[k] == entries.drop_last()[k]);
        }
    } else if entries.len() > 0 {
        assert(entries[entries.len() - 1] == entries.last());
    }
}

/// Whether the stamp `(rev, dev)` is older than `(label_rev, label_dev)`:
/// a lower revision, or the same revision by a device whose id sorts first.
pub open spec fn older_stamp(rev: u64, dev: Seq<char>, label_rev: u64, label_dev: Seq<char>) -> bool {
    rev < label_rev || (rev == label_rev && seq_less(dev, label_dev))
}

/// A peer that lacks a newer version of one of `entries` is behind on it:
/// when every entry of `known` for the id of `entries[i]` is older than that
/// entry (or there is none), `known` does not cover `entries`.
proof fn lemma_outdated_entry_is_not_covered(
    known: Seq<(String, u64, String)>,
    entries: Seq<(String, u64, String)>,
    i: int,
)
    requires
        0 <= i < entries.len(),
        forall|k: int| 0 <= k < known.len() && (#[trigger] known[k]).0@ == entries[i].0@ ==> older_stamp(
            known[k].1,
            known[k].2@,
            entries[i].1,
            entries[i].2@,
        ),
    ensures
        !all_covered(entries_view(known), entries_view(entries)),
{
    let kv = entries_view(known);
    let ev = entries_view(entries);
    lemma_version_from_entry(kv, ev[i].0);
    if version_of(kv, ev[i].0) is Some {
        let k = choose|k: int| 0 <= k < kv.len() && (#[trigger] kv[k]).0 == ev[i].0
            && version_of(kv, ev[i].0)->Some_0 == (kv[k].1, kv[k].2);
        assert(known[k].0@ == entries[i].0@);
        assert(older_stamp(known[k].1, known[k].2@, entries[i].1, entries[i].2@));
    }
    assert(!(version_of(kv, (ev[i]).0) matches Some(v) && stamp_ge(v, (ev[i].1, ev[i].2))));
}

/// A record whose label the peer holds only in an older version (or not at
/// all) is not covered by the peer, so a snapshot sends it: no label change
/// is held back from a peer that lacks it.
pub proof fn outdated_labels_are_sent(remote: RemoteClipboardVersion, record: RecordVersions, i: int)
    requires
        0 <= i < record.labels@.len(),
        forall|k: int| 0 <= k < remote.labels@.len() && (#[trigger] remote.labels@[k]).0@ == record.labels@[i].0@
            ==> older_stamp(remote.labels@[k].1, remote.labels@[k].2@, record.labels@[i].1, record.labels@[i].2@),
    ensures
        !covers_spec(remote, record),
{
    lemma_outdated_entry_is_not_covered(remote.labels@, record.labels@, i);
}

/// A record whose label membership the peer holds only in an older version
/// (or not at all) is not covered by the peer, so a snapshot sends it.
pub proof fn outdated_memberships_are_sent(remote: RemoteClipboardVersion, record: RecordVersions, i: int)
    requires
        0 <= i < record.label_memberships@.len(),
        forall|k: int| 0 <= k < remote.memberships@.len() && (#[trigger] remote.memberships@[k]).0@
            == record.label_memberships@[i].0@ ==> older_stamp(
            remote.memberships@[k].1,
            remote.memberships@[k].2@,
            record.label_memberships@[i].1,
            record.label_memberships@[i].2@,
        ),
    ensures
        !covers_spec(remote, record),
{
    lemma_outdated_entry_is_not_covered(remote.memberships@, record.label_memberships@, i);
}

/// A peer with an older content or favorite stamp does not cover the record;
/// with older content, the record is sent with its payload.
pub proof fn outdated_content_and_favorites_are_sent(remote: RemoteClipboardVersion, record: RecordVersions)
    requires
        older_stamp(remote.content.0, remote.content.1@, record.revision, record.updated_by_device_id@)
            || older_stamp(remote.favorite.0, remote.favorite.1@, record.favorite_revision, record.favorite_updated_by_device_id@),
    ensures
        !covers_spec(remote, record),
        older_stamp(remote.content.0, remote.content.1@, record.revision, record.updated_by_device_id@)
            ==> !has_current_content_spec(remote, record),
{
}

/// The cursor of the next history page: refused unless it moves forward.
pub fn next_page_cursor(cursor: u64, next: Option<u64>) -> (r: Result<Option<u64>, String>)
    ensures
        match next {
            None => r == Ok::<Option<u64>, String>(None),
            Some(n) => if n <= cursor {
                r matches Err(e) && e@ == "invalid remote clipboard pagination cursor"@
            } else {
                r == Ok::<Option<u64>, String>(Some(n))
            },
        },
{
    match next {
        None => Ok(None),
        Some(n) => if n <= cursor {
            Err(String::from_str("invalid remote clipboard pagination cursor"))
        } else {
            Ok(Some(n))
        },
    }
}

/// The intent of the background dials of discovery at `now_ms`: the
/// elected side dials first; once `fallback_at_ms` has come, either side may.
pub fn discovery_intent(now_ms: u64, fallback_at_ms: u64) -> (i: ConnectionIntent)
    ensures
        i == if now_ms >= fallback_at_ms { ConnectionIntent::AutomaticFallback } else { ConnectionIntent::Automatic },
{
    if now_ms >= fallback_at_ms {
        ConnectionIntent::AutomaticFallback
    } else {
        ConnectionIntent::Automatic
    }
}

/// Whether a connection to the peer `peer_id` of `platform` is started:
/// the peer hosts the desktop control service, the connection is due by
/// `should_start_connection`, the peer has not connected to this desktop
/// already, and no connection to it is active.
pub fn connection_admitted(
    platform: &str,
    local_id: &str,
    peer_id: &str,
    paired: bool,
    auto_connect: bool,
    intent: ConnectionIntent,
    has_incoming_transport: bool,
    already_active: bool,
) -> (b: bool)
    ensures
        b == (desktop_platform(lower_seq(trim(platform@))) && should_start_spec(local_id@, peer_id@, paired, auto_connect, intent)
            && !has_incoming_transport && !already_active),
{
    hosts_desktop_control_service(platform) && should_start_connection(local_id, peer_id, paired, auto_connect, intent)
        && !has_incoming_transport && !already_active
}

} // verus!
