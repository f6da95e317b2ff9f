//! The control session with a peer desktop: which features the client
//! offers, what the peer must support, how replies are checked, and how
//! frames that arrive are queued until the request they answer takes them.

use vstd::prelude::*;
use std::collections::HashMap;
use std::collections::VecDeque;
use crate::text::{chars_of, decimal, extend_chars, push_decimal, string_from_chars};

verus! {

/// A feature of the control protocol.
#[derive(Debug, Clone, Copy, PartialEq, Eq, Structural)]
pub enum ProtocolFeature {
    Subscriptions,
    Clipboard,
    ClipboardSync,
    Blobs,
    RemoteFiles,
    /// A feature that this client does not use.
    Other,
}

/// A feature with the range of versions that one side speaks.
#[derive(Debug, Clone, Copy, PartialEq, Eq, Structural)]
pub struct FeatureVersion {
    pub feature: ProtocolFeature,
    pub min_version: u32,
    pub max_version: u32,
}

/// The features offered in the client's hello: version 1 of each, and of
/// remote files the version `remote_file_version`.
pub open spec fn hello_features_spec(remote_file_version: u32) -> Seq<FeatureVersion> {
    seq![
        FeatureVersion { feature: ProtocolFeature::Subscriptions, min_version: 1, max_version: 1 },
        FeatureVersion { feature: ProtocolFeature::Clipboard, min_version: 1, max_version: 1 },
        FeatureVersion { feature: ProtocolFeature::ClipboardSync, min_version: 1, max_version: 1 },
        FeatureVersion { feature: ProtocolFeature::Blobs, min_version: 1, max_version: 1 },
        FeatureVersion {
            feature: ProtocolFeature::RemoteFiles,
            min_version: remote_file_version,
            max_version: remote_file_version,
        },
    ]
}

/// The features that the client offers in its hello.
pub fn hello_features(remote_file_version: u32) -> (v: Vec<FeatureVersion>)
    ensures
        v@ == hello_features_spec(remote_file_version),
{
    let v = vec![
        FeatureVersion { feature: ProtocolFeature::Subscriptions, min_version: 1, max_version: 1 },
        FeatureVersion { feature: ProtocolFeature::Clipboard, min_version: 1, max_version: 1 },
        FeatureVersion { feature: ProtocolFeature::ClipboardSync, min_version: 1, max_version: 1 },
        FeatureVersion { feature: ProtocolFeature::Blobs, min_version: 1, max_version: 1 },
        FeatureVersion {
            feature: ProtocolFeature::RemoteFiles,
            min_version: remote_file_version,
            max_version: remote_file_version,
        },
    ];
    assert(v@ =~= hello_features_spec(remote_file_version));
    v
}

/// Whether `offered` holds exactly `version` of `feature`.
pub open spec fn offers_exactly(offered: Seq<FeatureVersion>, feature: ProtocolFeature, version: u32) -> bool {
    exists|i: int|
        0 <= i < offered.len() && (#[trigger] offered[i]).feature == feature && offered[i].min_version
            == version && offered[i].max_version == version
}

fn find_exact(offered: &[FeatureVersion], feature: ProtocolFeature, version: u32) -> (b: bool)
    ensures
        b == offers_exactly(offered@, feature, version),
{
    let mut i: usize = 0;
    while i < offered.len()
        invariant
            i <= offered@.len(),
            forall|j: int|
                0 <= j < i ==> !((#[trigger] offered@[j]).feature == feature && offered@[j].min_version
                    == version && offered@[j].max_version == version),
        decreases offered@.len() - i,
    {
        let f = offered[i];
        if f.feature == feature && f.min_version == version && f.max_version == version {
            assert(offered@[i as int] == f);
            return true;
        }
        i = i + 1;
    }
    false
}

/// Checks the features that the peer welcomed the client with. Version 1 of
/// clipboard synchronization is required; the result says whether the peer
/// speaks exactly version `remote_file_version` of remote files.
pub fn negotiate_features(welcomed: &[FeatureVersion], remote_file_version: u32) -> (r: Result<bool, String>)
    ensures
        match r {
            Ok(remote_files) => offers_exactly(welcomed@, ProtocolFeature::ClipboardSync, 1)
                && remote_files == offers_exactly(welcomed@, ProtocolFeature::RemoteFiles, remote_file_version),
            Err(e) => !offers_exactly(welcomed@, ProtocolFeature::ClipboardSync, 1)
                && e@ == "remote peer does not support clipboard synchronization v1"@,
        },
{
    if !find_exact(welcomed, ProtocolFeature::ClipboardSync, 1) {
        return Err("remote peer does not support clipboard synchronization v1".to_string());
    }
    Ok(find_exact(welcomed, ProtocolFeature::RemoteFiles, remote_file_version))
}

/// The status that a reply carries.
#[derive(Debug, Clone)]
pub struct ControlStatus {
    pub code: i32,
    pub message: String,
}

/// The decimal notation of a signed number.
pub open spec fn signed_decimal(n: int) -> Seq<char> {
    if n < 0 {
        seq!['-'] + decimal((-n) as nat)
    } else {
        decimal(n as nat)
    }
}

/// What a reply's status means for `operation`, where `ok_code` is the code
/// of success: success, or the error to report.
pub open spec fn status_outcome(status: Option<ControlStatus>, operation: Seq<char>, ok_code: i32) -> Result<(), Seq<char>> {
    match status {
        None => Err(operation + " returned no status"@),
        Some(s) => if s.code == ok_code {
            Ok(())
        } else if s.message@.len() == 0 {
            Err(operation + " failed (error code "@ + signed_decimal(s.code as int) + ")"@)
        } else {
            Err(s.message@)
        },
    }
}

/// Checks the status of a reply to `operation`.
pub fn ensure_ok(status: Option<&ControlStatus>, operation: &str, ok_code: i32) -> (r: Result<(), String>)
    ensures
        match (r, status_outcome(match status { Some(s) => Some(*s), None => None }, operation@, ok_code)) {
            (Ok(()), Ok(())) => true,
            (Err(e), Err(expected)) => e@ == expected,
            _ => false,
        },
{
    match status {
        None => {
            let mut v = chars_of(operation);
            extend_chars(&mut v, &chars_of(" returned no status"));
            assert(v@ =~= operation@ + " returned no status"@);
            Err(string_from_chars(&v))
        },
        Some(s) => {
            if s.code == ok_code {
                Ok(())
            } else if chars_of(s.message.as_str()).len() == 0 {
                let mut v = chars_of(operation);
                extend_chars(&mut v, &chars_of(" failed (error code "));
                let ghost before = v@;
                if s.code < 0 {
                    v.push('-');
                    let magnitude: u64 = (0i64 - (s.code as i64)) as u64;
                    push_decimal(&mut v, magnitude);
                } else {
                    push_decimal(&mut v, s.code as u64);
                }
                assert(v@ =~= before + signed_decimal(s.code as int));
                extend_chars(&mut v, &chars_of(")"));
                assert(v@ =~= operation@ + " failed (error code "@ + signed_decimal(s.code as int) + ")"@);
                Err(string_from_chars(&v))
            } else {
                Err(s.message.clone())
            }
        },
    }
}

/// Whether a reply rejects the clipboard record that was sent, rather than
/// the connection: its status carries the invalid-argument code
/// `invalid_argument_code`.
pub fn clipboard_record_rejected(status: Option<&ControlStatus>, invalid_argument_code: i32) -> (b: bool)
    ensures
        b == match status {
            Some(s) => s.code == invalid_argument_code,
            None => false,
        },
{
    match status {
        Some(s) => s.code == invalid_argument_code,
        None => false,
    }
}

/// A frame that the peer sent on the control stream.
#[derive(Debug)]
pub enum ServerFrame<R, E> {
    /// The reply to request `request_id`.
    Response { request_id: u64, response: R },
    /// An event, with the clipboard record it carries if it carries one.
    Event(Option<E>),
    /// The peer closes the session, with the message of its status.
    GoAway(Option<String>),
    /// Anything else, which is ignored.
    Other,
}

/// Replies that no request took yet, by request id, and the clipboard
/// records that arrived as events, in order.
pub struct FrameQueue<R, E> {
    pub responses: HashMap<u64, R>,
    pub pending: VecDeque<E>,
}

impl<R, E> FrameQueue<R, E> {
    /// A queue that holds nothing.
    pub fn new() -> (q: Self)
        ensures
            q.responses@ == Map::<u64, R>::empty(),
            q.pending@ == Seq::<E>::empty(),
    {
        FrameQueue { responses: HashMap::new(), pending: VecDeque::new() }
    }

    /// Queues a frame. A reply is kept under its request id, replacing an
    /// earlier one; an event's record joins the end of the records; a
    /// frame that closes the session is an error with the peer's message.
    pub fn queue(&mut self, frame: ServerFrame<R, E>) -> (r: Result<(), String>)
        ensures
            match frame {
                ServerFrame::Response { request_id, response } => {
                    &&& r is Ok
                    &&& final(self).responses@ == old(self).responses@.insert(request_id, response)
                    &&& final(self).pending@ == old(self).pending@
                },
                ServerFrame::Event(record) => {
                    &&& r is Ok
                    &&& final(self).responses@ == old(self).responses@
                    &&& final(self).pending@ == match record {
                        Some(e) => old(self).pending@.push(e),
                        None => old(self).pending@,
                    }
                },
                ServerFrame::GoAway(message) => {
                    &&& r matches Err(e) && e@ == match message {
                        Some(m) => m@,
                        None => "remote peer closed the connection"@,
                    }
                    &&& final(self).responses@ == old(self).responses@
                    &&& final(self).pending@ == old(self).pending@
                },
                ServerFrame::Other => {
                    &&& r is Ok
                    &&& final(self).responses@ == old(self).responses@
                    &&& final(self).pending@ == old(self).pending@
                },
            },
    {
        broadcast use vstd::std_specs::hash::group_hash_axioms;
        match frame {
            ServerFrame::Response { request_id, response } => {
                self.responses.insert(request_id, response);
                Ok(())
            },
            ServerFrame::Event(record) => {
                match record {
                    Some(e) => self.pending.push_back(e),
                    None => {},
                }
                Ok(())
            },
            ServerFrame::GoAway(message) => match message {
                Some(m) => Err(m),
                None => Err("remote peer closed the connection".to_string()),
            },
            ServerFrame::Other => Ok(()),
        }
    }

    /// Takes the reply to request `request_id`, if it arrived.
    pub fn take_response(&mut self, request_id: u64) -> (r: Option<R>)
        ensures
            final(self).responses@ == old(self).responses@.remove(request_id),
            final(self).pending@ == old(self).pending@,
            r == if old(self).responses@.contains_key(request_id) {
                Some(old(self).responses@[request_id])
            } else {
                None::<R>
            },
    {
        broadcast use vstd::std_specs::hash::group_hash_axioms;
        let r = self.responses.remove(&request_id);
        proof {
            if !old(self).responses@.contains_key(request_id) {
                assert(self.responses@ =~= old(self).responses@.remove(request_id));
            }
        }
        r
    }

    /// Takes the earliest record that arrived as an event.
    pub fn next_record(&mut self) -> (r: Option<E>)
        ensures
            final(self).responses@ == old(self).responses@,
            old(self).pending@.len() == 0 ==> r is None && final(self).pending@ == old(self).pending@,
            old(self).pending@.len() > 0 ==> r == Some(old(self).pending@[0])
                && final(self).pending@ == old(self).pending@.drop_first(),
    {
        let r = self.pending.pop_front();
        proof {
            if old(self).pending@.len() > 0 {
                assert(self.pending@ =~= old(self).pending@.drop_first());
            }
        }
        r
    }
}

/// A reply that was queued is handed to the request it answers, and only
/// once: queuing reply `response` for `request_id` and then taking it gives
/// it back and leaves no reply for that request.
pub proof fn queued_reply_is_taken_once<R>(replies: Map<u64, R>, request_id: u64, response: R)
    ensures
        replies.insert(request_id, response).contains_key(request_id),
        replies.insert(request_id, response)[request_id] == response,
        !replies.insert(request_id, response).remove(request_id).contains_key(request_id),
{
}


/// Where setting up a control connection to a desktop stands.
#[derive(Debug, Clone, Copy, PartialEq, Eq, Structural)]
pub enum SetupStage {
    Pairing,
    Connecting,
    OpeningStream,
    AwaitingWelcome,
    AwaitingSubscription,
    InitialSync,
    Live,
    Ended,
}

/// What happened during the setup of a control connection.
#[derive(Debug)]
pub enum SetupEvent {
    /// The user confirmed the pairing code on both desktops.
    PairingCompleted,
    /// The session is authenticated; `initiated_here` tells whether this
    /// desktop opened it, or the peer's simultaneous connection won.
    SessionAuthenticated { initiated_here: bool },
    StreamOpened,
    /// The peer answered the hello with its features: the outcome of
    /// `negotiate_features` on them.
    Negotiated { outcome: Result<bool, String> },
    /// The peer answered the hello with something else.
    NoNegotiation,
    SubscriptionReady,
    /// The first reconciliation ended, however it went.
    InitialSyncFinished,
    /// An outside step failed with this message.
    Failed { message: String },
}

/// What the connection does next.
#[derive(Debug, PartialEq, Eq)]
pub enum SetupAction {
    Connect,
    OpenControlStream,
    SendHello,
    /// Subscribe to clipboard synchronization.
    Subscribe,
    /// Register the connection (and its remote files when the peer offers
    /// them) and run the first reconciliation.
    RegisterAndSync { remote_files: bool },
    /// Register the connection and announce it, without reconciling.
    RegisterAndAnnounce { remote_files: bool },
    /// Announce the connection, now live.
    Announce,
    /// Leave the session to the peer's inbound connection.
    Yield,
    /// Give up with this error.
    Abort(String),
    /// Nothing: the event does not belong to this stage.
    Ignore,
}

/// `SetupAction` with the error of `Abort` taken by its characters.
pub enum SetupActionView {
    Connect,
    OpenControlStream,
    SendHello,
    Subscribe,
    RegisterAndSync { remote_files: bool },
    RegisterAndAnnounce { remote_files: bool },
    Announce,
    Yield,
    Abort(Seq<char>),
    Ignore,
}

pub open spec fn action_view(a: SetupAction) -> SetupActionView {
    match a {
        SetupAction::Connect => SetupActionView::Connect,
        SetupAction::OpenControlStream => SetupActionView::OpenControlStream,
        SetupAction::SendHello => SetupActionView::SendHello,
        SetupAction::Subscribe => SetupActionView::Subscribe,
        SetupAction::RegisterAndSync { remote_files } => SetupActionView::RegisterAndSync { remote_files },
        SetupAction::RegisterAndAnnounce { remote_files } => SetupActionView::RegisterAndAnnounce { remote_files },
        SetupAction::Announce => SetupActionView::Announce,
        SetupAction::Yield => SetupActionView::Yield,
        SetupAction::Abort(m) => SetupActionView::Abort(m@),
        SetupAction::Ignore => SetupActionView::Ignore,
    }
}

/// The setup of a control connection: its stage, whether clipboard
/// synchronization is enabled, and whether the peer offers remote files.
#[derive(Debug, Clone, Copy, PartialEq, Eq, Structural)]
pub struct ConnectionSetup {
    pub stage: SetupStage,
    pub sync_enabled: bool,
    pub remote_files: bool,
}

/// The error of a peer that answered the hello without its features.
pub open spec fn no_negotiation_text() -> Seq<char> {
    "remote peer returned no control protocol negotiation result"@
}

/// The next state of `s` after event `e`, and its action: pair (when
/// asked), connect, open the control stream, send the hello and check the
/// features, then subscribe (only when synchronization is enabled),
/// register, reconcile and announce. A failure before the connection is live
/// ends the setup with its message; an event that does not belong to the
/// stage changes nothing.
pub open spec fn setup_step_spec(s: ConnectionSetup, e: SetupEvent) -> (ConnectionSetup, SetupActionView) {
    let ended = ConnectionSetup { stage: SetupStage::Ended, ..s };
    match e {
        SetupEvent::Failed { message } => if s.stage == SetupStage::Ended || s.stage == SetupStage::Live {
            (s, SetupActionView::Ignore)
        } else {
            (ended, SetupActionView::Abort(message@))
        },
        SetupEvent::PairingCompleted => if s.stage == SetupStage::Pairing {
            (ConnectionSetup { stage: SetupStage::Connecting, ..s }, SetupActionView::Connect)
        } else {
            (s, SetupActionView::Ignore)
        },
        SetupEvent::SessionAuthenticated { initiated_here } => if s.stage == SetupStage::Connecting {
            if initiated_here {
                (ConnectionSetup { stage: SetupStage::OpeningStream, ..s }, SetupActionView::OpenControlStream)
            } else {
                (ended, SetupActionView::Yield)
            }
        } else {
            (s, SetupActionView::Ignore)
        },
        SetupEvent::StreamOpened => if s.stage == SetupStage::OpeningStream {
            (ConnectionSetup { stage: SetupStage::AwaitingWelcome, ..s }, SetupActionView::SendHello)
        } else {
            (s, SetupActionView::Ignore)
        },
        SetupEvent::NoNegotiation => if s.stage == SetupStage::AwaitingWelcome {
            (ended, SetupActionView::Abort(no_negotiation_text()))
        } else {
            (s, SetupActionView::Ignore)
        },
        SetupEvent::Negotiated { outcome } => if s.stage == SetupStage::AwaitingWelcome {
            match outcome {
                Err(message) => (ended, SetupActionView::Abort(message@)),
                Ok(remote_files) => if s.sync_enabled {
                    (
                        ConnectionSetup { stage: SetupStage::AwaitingSubscription, remote_files, ..s },
                        SetupActionView::Subscribe,
                    )
                } else {
                    (
                        ConnectionSetup { stage: SetupStage::Live, remote_files, ..s },
                        SetupActionView::RegisterAndAnnounce { remote_files },
                    )
                },
            }
        } else {
            (s, SetupActionView::Ignore)
        },
        SetupEvent::SubscriptionReady => if s.stage == SetupStage::AwaitingSubscription {
            (
                ConnectionSetup { stage: SetupStage::InitialSync, ..s },
                SetupActionView::RegisterAndSync { remote_files: s.remote_files },
            )
        } else {
            (s, SetupActionView::Ignore)
        },
        SetupEvent::InitialSyncFinished => if s.stage == SetupStage::InitialSync {
            (ConnectionSetup { stage: SetupStage::Live, ..s }, SetupActionView::Announce)
        } else {
            (s, SetupActionView::Ignore)
        },
    }
}

impl ConnectionSetup {
    /// A setup that starts by pairing when `pair_first`, else by connecting
    /// to the discovered desktop, and its first action.
    pub fn start(pair_first: bool, sync_enabled: bool) -> (r: (ConnectionSetup, Option<SetupAction>))
        ensures
            r.0.sync_enabled == sync_enabled,
            !r.0.remote_files,
            pair_first ==> r.0.stage == SetupStage::Pairing && r.1 is None,
            !pair_first ==> r.0.stage == SetupStage::Connecting && r.1 == Some(SetupAction::Connect),
    {
        if pair_first {
            (ConnectionSetup { stage: SetupStage::Pairing, sync_enabled, remote_files: false }, None)
        } else {
            (
                ConnectionSetup { stage: SetupStage::Connecting, sync_enabled, remote_files: false },
                Some(SetupAction::Connect),
            )
        }
    }

    /// Takes event `e` (see `setup_step_spec`).
    pub fn step(&mut self, e: SetupEvent) -> (a: SetupAction)
        ensures
            (*final(self), action_view(a)) == setup_step_spec(*old(self), e),
    {
        let stage = self.stage;
        match e {
            SetupEvent::Failed { message } => {
                if stage == SetupStage::Ended || stage == SetupStage::Live {
                    SetupAction::Ignore
                } else {
                    self.stage = SetupStage::Ended;
                    SetupAction::Abort(message)
                }
            },
            SetupEvent::PairingCompleted => {
                if stage == SetupStage::Pairing {
                    self.stage = SetupStage::Connecting;
                    SetupAction::Connect
                } else {
                    SetupAction::Ignore
                }
            },
            SetupEvent::SessionAuthenticated { initiated_here } => {
                if stage == SetupStage::Connecting {
                    if initiated_here {
                        self.stage = SetupStage::OpeningStream;
                        SetupAction::OpenControlStream
                    } else {
                        self.stage = SetupStage::Ended;
                        SetupAction::Yield
                    }
                } else {
                    SetupAction::Ignore
                }
            },
            SetupEvent::StreamOpened => {
                if stage == SetupStage::OpeningStream {
                    self.stage = SetupStage::AwaitingWelcome;
                    SetupAction::SendHello
                } else {
                    SetupAction::Ignore
                }
            },
            SetupEvent::NoNegotiation => {
                if stage == SetupStage::AwaitingWelcome {
                    self.stage = SetupStage::Ended;
                    SetupAction::Abort("remote peer returned no control protocol negotiation result".to_string())
                } else {
                    SetupAction::Ignore
                }
            },
            SetupEvent::Negotiated { outcome } => {
                if stage == SetupStage::AwaitingWelcome {
                    match outcome {
                        Err(message) => {
                            self.stage = SetupStage::Ended;
                            SetupAction::Abort(message)
                        },
                        Ok(remote_files) => {
                            self.remote_files = remote_files;
                            if self.sync_enabled {
                                self.stage = SetupStage::AwaitingSubscription;
                                SetupAction::Subscribe
                            } else {
                                self.stage = SetupStage::Live;
                                SetupAction::RegisterAndAnnounce { remote_files }
                            }
                        },
                    }
                } else {
                    SetupAction::Ignore
                }
            },
            SetupEvent::SubscriptionReady => {
                if stage == SetupStage::AwaitingSubscription {
                    self.stage = SetupStage::InitialSync;
                    SetupAction::RegisterAndSync { remote_files: self.remote_files }
                } else {
                    SetupAction::Ignore
                }
            },
            SetupEvent::InitialSyncFinished => {
                if stage == SetupStage::InitialSync {
                    self.stage = SetupStage::Live;
                    SetupAction::Announce
                } else {
                    SetupAction::Ignore
                }
            },
        }
    }
}

/// Whether `s` waits for a subscription or reconciles only with
/// synchronization enabled.
pub open spec fn subscribes_only_when_enabled(s: ConnectionSetup) -> bool {
    (s.stage == SetupStage::AwaitingSubscription || s.stage == SetupStage::InitialSync) ==> s.sync_enabled
}

/// The features are negotiated before anything else goes over the control
/// stream: a subscription is asked for only right after a successful
/// negotiation and only when synchronization is enabled; the connection is
/// registered and announced without reconciling only right after a
/// successful negotiation with synchronization off, and registered for
/// reconciling only once the subscription is ready; it is announced after
/// reconciling only when that ended. Every step keeps subscriptions and
/// reconciliation to setups with synchronization enabled.
pub proof fn negotiation_comes_first(s: ConnectionSetup, e: SetupEvent)
    ensures
        ({
            let (n, a) = setup_step_spec(s, e);
            &&& (a is Subscribe ==> s.sync_enabled && s.stage == SetupStage::AwaitingWelcome && e is Negotiated
                && e->outcome is Ok)
            &&& (a is RegisterAndAnnounce ==> !s.sync_enabled && s.stage == SetupStage::AwaitingWelcome
                && e is Negotiated && e->outcome is Ok)
            &&& (a is RegisterAndSync ==> s.stage == SetupStage::AwaitingSubscription && e is SubscriptionReady)
            &&& (a is Announce ==> s.stage == SetupStage::InitialSync && e is InitialSyncFinished)
            &&& (subscribes_only_when_enabled(s) ==> subscribes_only_when_enabled(n))
        }),
{
}

/// What negotiation found decides the remote files that are registered,
/// whether synchronization is on or off: after a successful negotiation with
/// outcome `offers_files`, the registration that follows (at once without
/// synchronization, once the subscription is ready with it) registers the
/// peer's remote files exactly when the peer offers them.
pub proof fn registration_follows_the_negotiated_remote_files(s: ConnectionSetup, offers_files: bool)
    requires
        s.stage == SetupStage::AwaitingWelcome,
    ensures
        ({
            let (s1, a1) = setup_step_spec(s, SetupEvent::Negotiated { outcome: Ok(offers_files) });
            let (s2, a2) = setup_step_spec(s1, SetupEvent::SubscriptionReady);
            &&& s1.remote_files == offers_files
            &&& !s.sync_enabled ==> a1 == SetupActionView::RegisterAndAnnounce { remote_files: offers_files }
            &&& s.sync_enabled ==> a1 == SetupActionView::Subscribe
                && a2 == SetupActionView::RegisterAndSync { remote_files: offers_files }
        }),
{
}

} // verus!
