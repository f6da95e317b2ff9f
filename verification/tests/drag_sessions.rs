use arcrelay_desktop::drag_assembly::{ClipboardDragKind, ClipboardDragOutcome};
use arcrelay_desktop::drag_sessions::{
    is_dragging, prepared_kind, window_after_drag, DragSessions, WindowAfterDrag,
    MAX_PREPARED, PREPARED_TTL_MS,
};

fn tokens(s: &DragSessions<u32>) -> Vec<String> {
    s.prepared.iter().map(|p| p.token.clone()).collect()
}

#[test]
fn preparing_keeps_at_most_four_and_drops_the_oldest() {
    let mut s: DragSessions<u32> = DragSessions::new();
    for (i, t) in ["a", "b", "c", "d"].iter().enumerate() {
        assert_eq!(s.add_prepared(t.to_string(), "clipboard".into(), 10 + i as u64, 0, i as u32), Ok(vec![]));
    }
    assert_eq!(s.prepared.len(), MAX_PREPARED);
    assert_eq!(s.add_prepared("e".into(), "clipboard".into(), 20, 0, 9), Ok(vec![0]));
    assert_eq!(tokens(&s), vec!["b", "c", "d", "e"]);
    assert_eq!(s.add_prepared("c".into(), "clipboard".into(), 21, 0, 7), Ok(vec![1, 2]));
    assert_eq!(tokens(&s), vec!["d", "e", "c"]);
    assert_eq!(
        s.add_prepared("x".into(), "clipboard".into(), 22, 5, 1),
        Err("clipboard drag preparation was cancelled".to_string())
    );
    let released = s.expire(13 + PREPARED_TTL_MS);
    assert_eq!(released, vec![3]);
    assert_eq!(tokens(&s), vec!["e", "c"]);
}

#[test]
fn starting_checks_owner_expiry_and_generation() {
    let mut s: DragSessions<u32> = DragSessions::new();
    assert!(s.check_request(1, 100).is_ok());
    assert!(s.check_request(0, 100).is_err());
    assert!(s.check_request(101, 100).is_err());
    s.add_prepared("t".into(), "clipboard".into(), 1_000, 0, 42).unwrap();
    assert!(s.check_start("t", "clipboard", 1_000).is_ok());
    assert_eq!(s.check_start("t", "main", 1_000), Err("clipboard drag expired; drag again".to_string()));
    assert!(s.check_start("t", "clipboard", 1_000 + PREPARED_TTL_MS).is_err());
    assert!(s.check_start("u", "clipboard", 1_000).is_err());
    assert_eq!(s.begin("u", 1_000), Err("clipboard drag was cancelled".to_string()));
    assert_eq!(s.begin("t", 1_500), Ok(42));
    assert!(is_dragging(&s));
    assert!(s.check_request(1, 100).is_err());
    s.add_prepared("v".into(), "clipboard".into(), 1_600, 0, 43).unwrap();
    assert_eq!(s.begin("v", 1_600), Err("another clipboard drag is active".to_string()));
    assert!(s.claim_end("t"));
    assert!(!s.claim_end("t"));
    assert!(s.end("t"));
    assert!(!is_dragging(&s));
    let (released, cancel_running) = s.invalidate();
    assert_eq!(released, vec![43]);
    assert!(!cancel_running);
    assert_eq!(s.generation, 1);
    s.add_prepared("w".into(), "clipboard".into(), 2_000, 1, 44).unwrap();
    s.generation = 2;
    assert_eq!(s.begin("w", 2_000), Err("clipboard drag expired; drag again".to_string()));
    assert!(s.prepared.is_empty());
}

#[test]
fn cancelling_takes_prepared_and_signals_running_drags() {
    let mut s: DragSessions<u32> = DragSessions::new();
    s.add_prepared("a".into(), "clipboard".into(), 0, 0, 1).unwrap();
    s.add_prepared("b".into(), "clipboard".into(), 0, 0, 2).unwrap();
    assert_eq!(s.cancel("a", "other"), (None, false));
    assert_eq!(s.cancel("a", "clipboard"), (Some(1), false));
    assert_eq!(s.begin("b", 0), Ok(2));
    assert_eq!(s.cancel("b", "clipboard"), (None, true));
    assert!(s.active.as_ref().unwrap().cancel_requested);
    let (_, signal) = s.invalidate();
    assert!(signal);
}

#[test]
fn kinds_and_window_after_a_drag() {
    assert_eq!(prepared_kind(0), (ClipboardDragKind::Text, 1));
    assert_eq!(prepared_kind(3), (ClipboardDragKind::Files, 3));
    assert_eq!(window_after_drag(true, true, ClipboardDragOutcome::Dropped, false), WindowAfterDrag::Sync);
    assert_eq!(window_after_drag(false, true, ClipboardDragOutcome::Cancelled, true), WindowAfterDrag::Hide);
    assert_eq!(window_after_drag(false, false, ClipboardDragOutcome::Dropped, false), WindowAfterDrag::Hide);
    assert_eq!(window_after_drag(false, false, ClipboardDragOutcome::Dropped, true), WindowAfterDrag::Keep);
    assert_eq!(window_after_drag(false, false, ClipboardDragOutcome::Failed, false), WindowAfterDrag::Keep);
}

#[test]
fn service_construction_needs_no_tokio_runtime() {
    let mut s: DragSessions<u32> = DragSessions::new();
    assert!(!is_dragging(&s));
    assert!(s.prepared.is_empty());
    let (dropped, was_dragging) = s.invalidate();
    assert!(dropped.is_empty());
    assert!(!was_dragging);
    assert_eq!(s.generation, 1);
}
