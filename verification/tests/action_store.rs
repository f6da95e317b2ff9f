use arcrelay_desktop::action_store::{
    backs_up_previous, corrupt_file_name, load_outcome, temporary_file_name, LoadOutcome,
};

#[test]
fn corrupt_catalog_is_not_treated_as_empty() {
    match load_outcome::<Vec<u32>>(Err("expected value".into()), None, "/cfg/quick_actions.json") {
        LoadOutcome::Corrupted(m) => assert_eq!(
            m,
            "action file is corrupted; original retained at /cfg/quick_actions.json: expected value"
        ),
        _ => panic!("a corrupt file must not load"),
    }
    assert!(matches!(load_outcome(Err("x".into()), Some(vec![1u32]), "p"), LoadOutcome::Recovered(v) if v == vec![1]));
    assert!(matches!(load_outcome::<Vec<u32>>(Ok(vec![]), None, "p"), LoadOutcome::Loaded(v) if v.is_empty()));
}

#[test]
fn backups_and_side_files() {
    assert!(backs_up_previous(true, true));
    assert!(!backs_up_previous(true, false));
    assert!(!backs_up_previous(false, true));
    let c = corrupt_file_name();
    assert!(c.starts_with("quick_actions.json.corrupt."));
    assert_eq!(c.len(), "quick_actions.json.corrupt.".len() + 36);
    let t = temporary_file_name(Some("quick_actions.json"));
    assert!(t.starts_with(".quick_actions.json.") && t.ends_with(".tmp"));
    let d = temporary_file_name(None);
    assert!(d.starts_with(".arcrelay-data.") && d.ends_with(".tmp"));
    assert_ne!(temporary_file_name(None), d);
}
