//! The peer desktops as the user sees them: nearby desktops, desktops that
//! share files, candidates for a connection, and the outcome of merging the
//! clipboard with every connected desktop.

use vstd::prelude::*;
use vstd::multiset::Multiset;
use crate::sync_rules::{desktop_platform, hosts_desktop_control_service};
use crate::text::{
    chars_equal, chars_less, chars_of, contains_string, extend_chars, lemma_seq_less_total,
    lemma_seq_less_transitive, lower_seq, push_decimal, seq_less, string_from_chars, strings_view,
    trim,
};

verus! {

broadcast use vstd::seq_lib::group_to_multiset_ensures, vstd::multiset::group_multiset_axioms;

/// Whether key `a` orders before key `b`: by the first string, then by the
/// second.
pub open spec fn key_before(a: (Seq<char>, Seq<char>), b: (Seq<char>, Seq<char>)) -> bool {
    seq_less(a.0, b.0) || (a.0 == b.0 && seq_less(a.1, b.1))
}

/// A value listed in the order of a pair of strings.
pub trait ListingKey {
    /// The pair of strings that orders the value.
    spec fn listing_key(&self) -> (Seq<char>, Seq<char>);

    /// The characters of the key.
    fn key_chars(&self) -> (r: (Vec<char>, Vec<char>))
        ensures
            r.0@ == self.listing_key().0,
            r.1@ == self.listing_key().1,
    ;
}

/// `s` in ascending order of keys.
pub open spec fn in_key_order<T: ListingKey>(s: Seq<T>) -> bool {
    forall|i: int, j: int|
        0 <= i < j < s.len() ==> !key_before((#[trigger] s[j]).listing_key(), (#[trigger] s[i]).listing_key())
}

proof fn lemma_key_order(a: (Seq<char>, Seq<char>), b: (Seq<char>, Seq<char>), c: (Seq<char>, Seq<char>))
    ensures
        !(key_before(a, b) && key_before(b, a)),
        key_before(a, b) && key_before(b, c) ==> key_before(a, c),
{
    lemma_seq_less_total(a.0, b.0);
    lemma_seq_less_total(a.0, a.0);
    lemma_seq_less_total(a.1, b.1);
    lemma_seq_less_total(a.1, a.1);
    if seq_less(a.0, b.0) && seq_less(b.0, c.0) {
        lemma_seq_less_transitive(a.0, b.0, c.0);
    }
    if seq_less(a.1, b.1) && seq_less(b.1, c.1) {
        lemma_seq_less_transitive(a.1, b.1, c.1);
    }
}

fn is_key_before(a: &(Vec<char>, Vec<char>), b: &(Vec<char>, Vec<char>)) -> (r: bool)
    ensures
        r == key_before((a.0@, a.1@), (b.0@, b.1@)),
{
    if chars_less(&a.0, &b.0) {
        true
    } else if chars_equal(&a.0, &b.0) {
        chars_less(&a.1, &b.1)
    } else {
        false
    }
}

/// The values of `v` in ascending order of their keys.
pub fn sort_by_listing_key<T: ListingKey>(v: Vec<T>) -> (out: Vec<T>)
    ensures
        in_key_order(out@),
        out@.to_multiset() == v@.to_multiset(),
{
    let mut rest = v;
    let mut out: Vec<T> = Vec::new();
    let mut keys: Vec<(Vec<char>, Vec<char>)> = Vec::new();
    assert(out@.to_multiset() =~= Multiset::<T>::empty());
    assert(out@.to_multiset().add(rest@.to_multiset()) =~= v@.to_multiset());
    while rest.len() > 0
        invariant
            keys@.len() == out@.len(),
            forall|i: int|
                0 <= i < keys@.len() ==> (#[trigger] keys@[i]).0@ == out@[i].listing_key().0
                    && keys@[i].1@ == out@[i].listing_key().1,
            in_key_order(out@),
            out@.to_multiset().add(rest@.to_multiset()) == v@.to_multiset(),
        decreases rest@.len(),
    {
        let ghost before_rest = rest@;
        let x = rest.remove(0);
        assert(before_rest.remove(0) =~= rest@);
        let kx = x.key_chars();
        let mut p: usize = 0;
        while p < keys.len() && !is_key_before(&kx, &keys[p])
            invariant
                p <= keys@.len(),
                keys@.len() == out@.len(),
                forall|i: int|
                    0 <= i < keys@.len() ==> (#[trigger] keys@[i]).0@ == out@[i].listing_key().0
                        && keys@[i].1@ == out@[i].listing_key().1,
                kx.0@ == x.listing_key().0,
                kx.1@ == x.listing_key().1,
                forall|i: int| 0 <= i < p ==> !key_before(x.listing_key(), (#[trigger] out@[i]).listing_key()),
            decreases keys@.len() - p,
        {
            p = p + 1;
        }
        let ghost old_out = out@;
        let ghost old_keys = keys@;
        out.insert(p, x);
        keys.insert(p, kx);
        proof {
            let n = out@;
            assert(n == old_out.insert(p as int, x));
            assert forall|i: int, j: int| 0 <= i < j < n.len() implies !key_before(
                (#[trigger] n[j]).listing_key(),
                (#[trigger] n[i]).listing_key(),
            ) by {
                if j == p {
                    assert(n[i] == old_out[i]);
                } else if i == p {
                    assert(n[j] == old_out[j - 1]);
                    lemma_key_order(old_out[j - 1].listing_key(), x.listing_key(), old_out[p as int].listing_key());
                    if j - 1 > p {
                        assert(!key_before(old_out[j - 1].listing_key(), old_out[p as int].listing_key()));
                    }
                } else if j < p {
                    assert(n[i] == old_out[i] && n[j] == old_out[j]);
                } else if i < p {
                    assert(n[i] == old_out[i] && n[j] == old_out[j - 1]);
                } else {
                    assert(n[i] == old_out[i - 1] && n[j] == old_out[j - 1]);
                }
            }
            assert forall|i: int| 0 <= i < keys@.len() implies (#[trigger] keys@[i]).0@ == out@[i].listing_key().0
                && keys@[i].1@ == out@[i].listing_key().1 by {
                if i > p {
                    assert(keys@[i] == old_keys[i - 1]);
                }
            }
            assert(before_rest.to_multiset() == rest@.to_multiset().insert(x)) by {
                assert(before_rest[0] == x);
                assert(before_rest.remove(0).to_multiset() == before_rest.to_multiset().remove(x));
                assert(before_rest.to_multiset().count(x) > 0);
                assert(before_rest.to_multiset() =~= before_rest.to_multiset().remove(x).insert(x));
            }
            assert(out@.to_multiset() == old_out.to_multiset().insert(x));
            assert(out@.to_multiset().add(rest@.to_multiset()) =~= old_out.to_multiset().add(
                before_rest.to_multiset(),
            ));
        }
    }
    assert(rest@.to_multiset() =~= Multiset::<T>::empty());
    assert(out@.to_multiset().add(rest@.to_multiset()) =~= out@.to_multiset());
    out
}


/// A desktop found on the local network.
#[derive(Debug, Clone)]
pub struct NearbyDesktopView {
    pub device_id: String,
    pub device_name: String,
    pub host: String,
    pub paired: bool,
    pub connecting: bool,
}

impl ListingKey for NearbyDesktopView {
    open spec fn listing_key(&self) -> (Seq<char>, Seq<char>) {
        (self.device_name@, self.device_id@)
    }

    fn key_chars(&self) -> (r: (Vec<char>, Vec<char>)) {
        (chars_of(self.device_name.as_str()), chars_of(self.device_id.as_str()))
    }
}

/// A connected desktop that shares files.
#[derive(Debug, Clone)]
pub struct RemoteFileDeviceView {
    pub id: String,
    pub name: String,
}

impl ListingKey for RemoteFileDeviceView {
    open spec fn listing_key(&self) -> (Seq<char>, Seq<char>) {
        (self.name@, self.id@)
    }

    fn key_chars(&self) -> (r: (Vec<char>, Vec<char>)) {
        (chars_of(self.name.as_str()), chars_of(self.id.as_str()))
    }
}

/// A peer that discovery or pairing knows: its id, name, platform and
/// first address.
#[derive(Debug, Clone)]
pub struct DesktopCandidate {
    pub device_id: String,
    pub name: String,
    pub platform: String,
    pub first_address: Option<String>,
}

impl ListingKey for DesktopCandidate {
    open spec fn listing_key(&self) -> (Seq<char>, Seq<char>) {
        (self.device_id@, Seq::empty())
    }

    fn key_chars(&self) -> (r: (Vec<char>, Vec<char>)) {
        (chars_of(self.device_id.as_str()), Vec::new())
    }
}

/// The candidates of `s` whose platform hosts the desktop control service,
/// in order.
pub open spec fn desktop_hosts(s: Seq<DesktopCandidate>) -> Seq<DesktopCandidate>
    decreases s.len(),
{
    if s.len() == 0 {
        s
    } else if desktop_platform(lower_seq(trim(s.last().platform@))) {
        desktop_hosts(s.drop_last()).push(s.last())
    } else {
        desktop_hosts(s.drop_last())
    }
}

/// The peers that a connection can be opened to: those whose platform hosts
/// the desktop control service, in ascending order of device id.
pub fn connection_candidates(peers: Vec<DesktopCandidate>) -> (out: Vec<DesktopCandidate>)
    ensures
        in_key_order(out@),
        out@.to_multiset() == desktop_hosts(peers@).to_multiset(),
{
    let mut kept: Vec<DesktopCandidate> = Vec::new();
    let mut rest = peers;
    let ghost all = rest@;
    let total = rest.len();
    let mut taken: usize = 0;
    while rest.len() > 0
        invariant
            all.len() == total,
            taken + rest@.len() == all.len(),
            rest@ == all.skip(taken as int),
            kept@ == desktop_hosts(all.take(taken as int)),
        decreases rest@.len(),
    {
        let ghost before = rest@;
        let c = rest.remove(0);
        assert(c == all[taken as int]);
        assert(all.take(taken + 1).drop_last() =~= all.take(taken as int));
        assert(all.take(taken + 1).last() == c);
        if hosts_desktop_control_service(c.platform.as_str()) {
            kept.push(c);
        }
        taken = taken + 1;
        assert(rest@ =~= all.skip(taken as int));
    }
    assert(all.take(taken as int) =~= all);
    sort_by_listing_key(kept)
}

/// The view of a nearby desktop: paired and connecting when its id is among
/// `paired` and `connecting`; reached at its first address, if it has one.
pub fn nearby_desktop_view(peer: DesktopCandidate, paired: &Vec<String>, connecting: &Vec<String>) -> (v: NearbyDesktopView)
    ensures
        v.device_id@ == peer.device_id@,
        v.device_name@ == peer.name@,
        v.host@ == match peer.first_address {
            Some(a) => a@,
            None => Seq::<char>::empty(),
        },
        v.paired == strings_view(paired@).contains(peer.device_id@),
        v.connecting == strings_view(connecting@).contains(peer.device_id@),
{
    let is_paired = contains_string(paired, &peer.device_id);
    let is_connecting = contains_string(connecting, &peer.device_id);
    NearbyDesktopView {
        device_id: peer.device_id,
        device_name: peer.name,
        host: match peer.first_address {
            Some(a) => a,
            None => String::new(),
        },
        paired: is_paired,
        connecting: is_connecting,
    }
}

/// The nearby desktops in ascending order of name, then id.
pub fn nearby_desktops(views: Vec<NearbyDesktopView>) -> (out: Vec<NearbyDesktopView>)
    ensures
        in_key_order(out@),
        out@.to_multiset() == views@.to_multiset(),
{
    sort_by_listing_key(views)
}

/// The name under which a desktop that shares files is listed: the name it
/// advertises, else its id.
pub fn remote_file_device(id: String, advertised_name: Option<String>) -> (v: RemoteFileDeviceView)
    ensures
        v.id@ == id@,
        v.name@ == match advertised_name {
            Some(n) => n@,
            None => id@,
        },
{
    let name = match advertised_name {
        Some(n) => n,
        None => id.clone(),
    };
    RemoteFileDeviceView { id, name }
}

/// The desktops that share files, in ascending order of name, then id.
pub fn remote_file_devices(devices: Vec<RemoteFileDeviceView>) -> (out: Vec<RemoteFileDeviceView>)
    ensures
        in_key_order(out@),
        out@.to_multiset() == devices@.to_multiset(),
{
    sort_by_listing_key(devices)
}


/// How merging the clipboard with one connected desktop ended.
#[derive(Debug, Clone)]
pub enum PeerMergeOutcome {
    /// This many records were merged.
    Merged(usize),
    Failed(String),
    /// The connection closed before the request reached it.
    ConnectionClosed,
    /// The connection dropped the request.
    Cancelled,
    TimedOut,
}

/// The failure listed for desktop `peer`, if the merge with it failed.
pub open spec fn merge_failure(peer: Seq<char>, outcome: PeerMergeOutcome) -> Option<Seq<char>> {
    match outcome {
        PeerMergeOutcome::Merged(_) => None,
        PeerMergeOutcome::Failed(e) => Some(peer + ": "@ + e@),
        PeerMergeOutcome::ConnectionClosed => Some(peer + ": connection closed"@),
        PeerMergeOutcome::Cancelled => Some(peer + ": merge task was cancelled"@),
        PeerMergeOutcome::TimedOut => Some(peer + ": merge timed out"@),
    }
}

/// The records merged with the desktops of `s`.
pub open spec fn merged_total(s: Seq<(String, PeerMergeOutcome)>) -> nat
    decreases s.len(),
{
    if s.len() == 0 {
        0
    } else {
        merged_total(s.drop_last()) + match s.last().1 {
            PeerMergeOutcome::Merged(n) => n as nat,
            _ => 0nat,
        }
    }
}

/// The failures of the merges with the desktops of `s`, in order.
pub open spec fn merge_failures(s: Seq<(String, PeerMergeOutcome)>) -> Seq<Seq<char>>
    decreases s.len(),
{
    if s.len() == 0 {
        Seq::empty()
    } else {
        match merge_failure(s.last().0@, s.last().1) {
            Some(f) => merge_failures(s.drop_last()).push(f),
            None => merge_failures(s.drop_last()),
        }
    }
}

/// `parts` joined with `separator` between each two.
pub open spec fn joined(parts: Seq<Seq<char>>, separator: Seq<char>) -> Seq<char>
    decreases parts.len(),
{
    if parts.len() == 0 {
        Seq::empty()
    } else if parts.len() == 1 {
        parts[0]
    } else {
        joined(parts.drop_last(), separator) + separator + parts.last()
    }
}

/// Checks that a merge with every connected desktop can start:
/// synchronization is on and some paired desktop is online.
pub fn check_merge_request(enabled: bool, online_peers: usize) -> (r: Result<(), String>)
    ensures
        r is Ok <==> enabled && online_peers > 0,
        r matches Err(e) ==> e@ == if !enabled {
            "multi-device clipboard synchronization is disabled"@
        } else {
            "no paired desktop device is currently online"@
        },
{
    if !enabled {
        Err("multi-device clipboard synchronization is disabled".to_string())
    } else if online_peers == 0 {
        Err("no paired desktop device is currently online".to_string())
    } else {
        Ok(())
    }
}

proof fn lemma_merged_total_prefix(s: Seq<(String, PeerMergeOutcome)>, n: int)
    requires
        0 <= n <= s.len(),
    ensures
        merged_total(s.take(n)) <= merged_total(s),
    decreases s.len(),
{
    if n < s.len() {
        assert(s.drop_last().take(n) =~= s.take(n));
        lemma_merged_total_prefix(s.drop_last(), n);
    } else {
        assert(s.take(n) =~= s);
    }
}

/// The result of merging with every connected desktop: the records merged,
/// unless nothing was merged and some merge failed; then the failures,
/// joined by a full-width semicolon.
pub fn merge_result(results: &[(String, PeerMergeOutcome)]) -> (r: Result<usize, String>)
    requires
        merged_total(results@) <= usize::MAX,
    ensures
        match r {
            Ok(n) => n == merged_total(results@) && !(n == 0 && merge_failures(results@).len() > 0),
            Err(e) => merged_total(results@) == 0 && merge_failures(results@).len() > 0
                && e@ == joined(merge_failures(results@), "；"@),
        },
{
    let mut merged: usize = 0;
    let mut text: Vec<char> = Vec::new();
    let mut any_failure = false;
    let mut i: usize = 0;
    while i < results.len()
        invariant
            i <= results@.len(),
            merged_total(results@) <= usize::MAX,
            merged == merged_total(results@.take(i as int)),
            any_failure == (merge_failures(results@.take(i as int)).len() > 0),
            text@ == joined(merge_failures(results@.take(i as int)), "；"@),
        decreases results@.len() - i,
    {
        let ghost prefix = results@.take(i as int);
        assert(results@.take(i + 1).drop_last() =~= prefix);
        assert(results@.take(i + 1).last() == results@[i as int]);
        proof {
            lemma_merged_total_prefix(results@, i + 1);
        }
        let (peer, outcome) = (&results[i].0, &results[i].1);
        let failure: Option<Vec<char>> = match outcome {
            PeerMergeOutcome::Merged(n) => {
                merged = merged + *n;
                None
            },
            PeerMergeOutcome::Failed(e) => {
                let mut v = chars_of(peer.as_str());
                extend_chars(&mut v, &chars_of(": "));
                extend_chars(&mut v, &chars_of(e.as_str()));
                Some(v)
            },
            PeerMergeOutcome::ConnectionClosed => {
                let mut v = chars_of(peer.as_str());
                extend_chars(&mut v, &chars_of(": connection closed"));
                Some(v)
            },
            PeerMergeOutcome::Cancelled => {
                let mut v = chars_of(peer.as_str());
                extend_chars(&mut v, &chars_of(": merge task was cancelled"));
                Some(v)
            },
            PeerMergeOutcome::TimedOut => {
                let mut v = chars_of(peer.as_str());
                extend_chars(&mut v, &chars_of(": merge timed out"));
                Some(v)
            },
        };
        match failure {
            Some(f) => {
                assert(merge_failure(results@[i as int].0@, results@[i as int].1) == Some(f@));
                if any_failure {
                    extend_chars(&mut text, &chars_of("；"));
                }
                extend_chars(&mut text, &f);
                let ghost parts = merge_failures(results@.take(i + 1));
                assert(parts.drop_last() == merge_failures(prefix));
                if !any_failure {
                    assert(merge_failures(prefix).len() == 0);
                    assert(text@ =~= joined(parts, "；"@));
                } else {
                    assert(text@ =~= joined(parts, "；"@));
                }
                any_failure = true;
            },
            None => {
                assert(merge_failure(results@[i as int].0@, results@[i as int].1) is None);
            },
        }
        i = i + 1;
    }
    assert(results@.take(results@.len() as int) =~= results@);
    if merged == 0 && any_failure {
        Err(string_from_chars(&text))
    } else {
        Ok(merged)
    }
}

} // verus!
