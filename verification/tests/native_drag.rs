use arcrelay_desktop::native_drag::{
    check_payload, offered_targets, validate_payload, DragTargets, LinuxDragSession, NativeDragOutcome, NativeDragPayload,
};

fn text_payload() -> NativeDragPayload {
    NativeDragPayload {
        files: vec![],
        text: Some("你好\nclipboard".into()),
        html: Some("<p>你好</p>".into()),
        preview_png: vec![1],
    }
}

#[test]
fn rich_text_is_one_drag_item_but_files_cannot_be_mixed_into_it() {
    let mut payload = text_payload();
    assert!(validate_payload(&payload).is_ok());
    payload.files.push("/tmp/test.png".into());
    assert_eq!(
        validate_payload(&payload),
        Err("file and text drag representations must be separate".to_string())
    );
}

#[test]
fn rejects_empty_payload_and_relative_export_paths() {
    let mut payload = text_payload();
    payload.text = None;
    payload.html = None;
    assert_eq!(validate_payload(&payload), Err("clipboard drag has no content".to_string()));
    payload.files.push("relative.png".into());
    assert_eq!(
        validate_payload(&payload),
        Err("clipboard drag file paths must be absolute".to_string())
    );
    payload.files = vec!["/tmp/absolute.png".into()];
    assert!(validate_payload(&payload).is_ok());
    payload.preview_png.clear();
    assert_eq!(validate_payload(&payload), Err("clipboard drag preview is missing".to_string()));
    assert_eq!(check_payload(&payload, false), Err("clipboard drag file paths must be absolute".to_string()));
}

#[test]
fn files_offer_uris_and_text_offers_text_and_html() {
    let mut payload = text_payload();
    assert_eq!(offered_targets(&payload), DragTargets { uris: false, text: true, html: true });
    payload.html = None;
    assert_eq!(offered_targets(&payload), DragTargets { uris: false, text: true, html: false });
    let files = NativeDragPayload { files: vec!["/tmp/a.png".into()], text: None, html: None, preview_png: vec![1] };
    assert_eq!(offered_targets(&files), DragTargets { uris: true, text: false, html: false });
}

#[test]
fn a_drag_counts_as_dropped_only_when_copied_data_went_out() {
    let mut session = LinuxDragSession::new();
    assert_eq!(session.end_outcome(true), NativeDragOutcome::Cancelled);
    session.record_data(false);
    assert_eq!(session.end_outcome(true), NativeDragOutcome::Cancelled);
    session.record_data(true);
    session.record_data(false);
    assert_eq!(session.end_outcome(true), NativeDragOutcome::Dropped);
    assert_eq!(session.end_outcome(false), NativeDragOutcome::Cancelled);
    session.record_failure();
    assert_eq!(session.end_outcome(true), NativeDragOutcome::Cancelled);
}
