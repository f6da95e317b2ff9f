use arcrelay_desktop::control_session::{
    clipboard_record_rejected, ensure_ok, hello_features, negotiate_features, ControlStatus, FeatureVersion, FrameQueue,
    ProtocolFeature, ServerFrame,
};

fn fv(feature: ProtocolFeature, min_version: u32, max_version: u32) -> FeatureVersion {
    FeatureVersion { feature, min_version, max_version }
}

#[test]
fn hello_offers_version_one_and_the_remote_file_version() {
    let v = hello_features(3);
    assert_eq!(v.len(), 5);
    assert_eq!(v[2], fv(ProtocolFeature::ClipboardSync, 1, 1));
    assert_eq!(v[4], fv(ProtocolFeature::RemoteFiles, 3, 3));
}

#[test]
fn welcome_requires_clipboard_sync_v1() {
    let ok = vec![fv(ProtocolFeature::Blobs, 1, 1), fv(ProtocolFeature::ClipboardSync, 1, 1)];
    assert_eq!(negotiate_features(&ok, 2), Ok(false));
    let with_files = vec![fv(ProtocolFeature::ClipboardSync, 1, 1), fv(ProtocolFeature::RemoteFiles, 2, 2)];
    assert_eq!(negotiate_features(&with_files, 2), Ok(true));
    let wrong_files = vec![fv(ProtocolFeature::ClipboardSync, 1, 1), fv(ProtocolFeature::RemoteFiles, 1, 2)];
    assert_eq!(negotiate_features(&wrong_files, 2), Ok(false));
    let old = vec![fv(ProtocolFeature::ClipboardSync, 1, 2)];
    assert_eq!(
        negotiate_features(&old, 2),
        Err("remote peer does not support clipboard synchronization v1".to_string())
    );
    assert!(negotiate_features(&[], 2).is_err());
}

#[test]
fn statuses_become_errors_with_the_operation() {
    assert_eq!(ensure_ok(None, "fetch clipboard history", 0), Err("fetch clipboard history returned no status".to_string()));
    let ok = ControlStatus { code: 0, message: String::new() };
    assert_eq!(ensure_ok(Some(&ok), "x", 0), Ok(()));
    let coded = ControlStatus { code: 7, message: String::new() };
    assert_eq!(ensure_ok(Some(&coded), "upload", 0), Err("upload failed (error code 7)".to_string()));
    let negative = ControlStatus { code: -12, message: String::new() };
    assert_eq!(ensure_ok(Some(&negative), "upload", 0), Err("upload failed (error code -12)".to_string()));
    let min = ControlStatus { code: i32::MIN, message: String::new() };
    assert_eq!(ensure_ok(Some(&min), "op", 0), Err(format!("op failed (error code {})", i32::MIN)));
    let described = ControlStatus { code: 7, message: "quota exceeded".into() };
    assert_eq!(ensure_ok(Some(&described), "upload", 0), Err("quota exceeded".to_string()));
}

#[test]
fn replies_wait_for_their_request_and_records_keep_their_order() {
    let mut q: FrameQueue<&str, u32> = FrameQueue::new();
    assert_eq!(q.queue(ServerFrame::Response { request_id: 4, response: "four" }), Ok(()));
    assert_eq!(q.queue(ServerFrame::Event(Some(10))), Ok(()));
    assert_eq!(q.queue(ServerFrame::Event(None)), Ok(()));
    assert_eq!(q.queue(ServerFrame::Other), Ok(()));
    assert_eq!(q.queue(ServerFrame::Event(Some(11))), Ok(()));
    assert_eq!(q.take_response(3), None);
    assert_eq!(q.take_response(4), Some("four"));
    assert_eq!(q.take_response(4), None);
    assert_eq!(q.next_record(), Some(10));
    assert_eq!(q.next_record(), Some(11));
    assert_eq!(q.next_record(), None);
    assert_eq!(
        q.queue(ServerFrame::GoAway(None)),
        Err("remote peer closed the connection".to_string())
    );
    assert_eq!(q.queue(ServerFrame::GoAway(Some("bye".into()))), Err("bye".to_string()));
}

#[test]
fn clipboard_record_rejection_requires_explicit_invalid_argument_status() {
    let ok_code = 0;
    let internal_code = 13;
    let invalid_argument_code = 3;
    assert!(!clipboard_record_rejected(None, invalid_argument_code));
    for code in [ok_code, internal_code, 999] {
        assert!(!clipboard_record_rejected(
            Some(&ControlStatus { code, message: "invalid clipboard sync metadata".into() }),
            invalid_argument_code
        ));
    }
    assert!(clipboard_record_rejected(
        Some(&ControlStatus { code: invalid_argument_code, message: "a different validation message".into() }),
        invalid_argument_code
    ));
}

use arcrelay_desktop::control_session::{ConnectionSetup, SetupAction, SetupEvent, SetupStage};

#[test]
fn a_paired_connection_negotiates_then_subscribes_registers_and_announces() {
    let (mut setup, first) = ConnectionSetup::start(true, true);
    assert_eq!(first, None);
    assert_eq!(setup.step(SetupEvent::StreamOpened), SetupAction::Ignore);
    assert_eq!(setup.step(SetupEvent::PairingCompleted), SetupAction::Connect);
    assert_eq!(setup.step(SetupEvent::SessionAuthenticated { initiated_here: true }), SetupAction::OpenControlStream);
    assert_eq!(setup.step(SetupEvent::StreamOpened), SetupAction::SendHello);
    assert_eq!(setup.step(SetupEvent::SubscriptionReady), SetupAction::Ignore);
    assert_eq!(setup.step(SetupEvent::Negotiated { outcome: Ok(true) }), SetupAction::Subscribe);
    assert_eq!(setup.step(SetupEvent::SubscriptionReady), SetupAction::RegisterAndSync { remote_files: true });
    assert_eq!(setup.step(SetupEvent::InitialSyncFinished), SetupAction::Announce);
    assert_eq!(setup.stage, SetupStage::Live);
    assert_eq!(setup.step(SetupEvent::Failed { message: "late".to_string() }), SetupAction::Ignore);
}

#[test]
fn without_synchronization_nothing_is_subscribed() {
    let (mut setup, first) = ConnectionSetup::start(false, false);
    assert_eq!(first, Some(SetupAction::Connect));
    setup.step(SetupEvent::SessionAuthenticated { initiated_here: true });
    setup.step(SetupEvent::StreamOpened);
    assert_eq!(
        setup.step(SetupEvent::Negotiated { outcome: Ok(false) }),
        SetupAction::RegisterAndAnnounce { remote_files: false }
    );
    assert_eq!(setup.stage, SetupStage::Live);
}

#[test]
fn failed_negotiations_and_lost_races_end_the_setup() {
    let (mut a, _) = ConnectionSetup::start(false, true);
    assert_eq!(a.step(SetupEvent::SessionAuthenticated { initiated_here: false }), SetupAction::Yield);
    assert_eq!(a.stage, SetupStage::Ended);
    let (mut b, _) = ConnectionSetup::start(false, true);
    b.step(SetupEvent::SessionAuthenticated { initiated_here: true });
    b.step(SetupEvent::StreamOpened);
    assert_eq!(
        b.step(SetupEvent::NoNegotiation),
        SetupAction::Abort("remote peer returned no control protocol negotiation result".to_string())
    );
    let (mut c, _) = ConnectionSetup::start(false, true);
    c.step(SetupEvent::SessionAuthenticated { initiated_here: true });
    c.step(SetupEvent::StreamOpened);
    assert_eq!(
        c.step(SetupEvent::Negotiated {
            outcome: Err("remote peer does not support clipboard synchronization v1".to_string())
        }),
        SetupAction::Abort("remote peer does not support clipboard synchronization v1".to_string())
    );
    let (mut d, _) = ConnectionSetup::start(true, true);
    assert_eq!(
        d.step(SetupEvent::Failed { message: "pairing rejected".to_string() }),
        SetupAction::Abort("pairing rejected".to_string())
    );
}
