use arcrelay_desktop::peer_views::{
    check_merge_request, connection_candidates, merge_result, nearby_desktop_view, nearby_desktops,
    remote_file_device, remote_file_devices, DesktopCandidate, NearbyDesktopView, PeerMergeOutcome,
    RemoteFileDeviceView,
};

fn candidate(id: &str, name: &str, platform: &str, address: Option<&str>) -> DesktopCandidate {
    DesktopCandidate {
        device_id: id.into(),
        name: name.into(),
        platform: platform.into(),
        first_address: address.map(String::from),
    }
}

#[test]
fn candidates_are_desktops_in_id_order() {
    let peers = vec![
        candidate("c", "C", "linux", None),
        candidate("a", "A", "ios", None),
        candidate("b", "B", " MacOS ", None),
        candidate("0", "Z", "windows", None),
    ];
    let ids: Vec<String> = connection_candidates(peers).into_iter().map(|c| c.device_id).collect();
    assert_eq!(ids, vec!["0", "b", "c"]);
}

#[test]
fn nearby_desktops_show_pairing_and_sort_by_name_then_id() {
    let paired = vec!["b".to_string()];
    let connecting = vec!["c".to_string()];
    let views = vec![
        nearby_desktop_view(candidate("c", "Office", "linux", Some("10.0.0.3:443")), &paired, &connecting),
        nearby_desktop_view(candidate("b", "Home", "linux", None), &paired, &connecting),
        nearby_desktop_view(candidate("a", "Office", "linux", Some("10.0.0.1:443")), &paired, &connecting),
    ];
    assert!(views[1].paired && !views[1].connecting && views[1].host.is_empty());
    assert!(!views[0].paired && views[0].connecting && views[0].host == "10.0.0.3:443");
    let sorted: Vec<(String, String)> = nearby_desktops(views)
        .into_iter()
        .map(|v: NearbyDesktopView| (v.device_name, v.device_id))
        .collect();
    assert_eq!(
        sorted,
        vec![
            ("Home".to_string(), "b".to_string()),
            ("Office".to_string(), "a".to_string()),
            ("Office".to_string(), "c".to_string()),
        ]
    );
}

#[test]
fn file_sharing_devices_fall_back_to_their_id() {
    let devices = vec![
        remote_file_device("z-id".into(), None),
        remote_file_device("b-id".into(), Some("Laptop".into())),
        remote_file_device("a-id".into(), Some("Laptop".into())),
    ];
    assert_eq!(devices[0].name, "z-id");
    let sorted: Vec<RemoteFileDeviceView> = remote_file_devices(devices);
    let ids: Vec<&str> = sorted.iter().map(|d| d.id.as_str()).collect();
    assert_eq!(ids, vec!["a-id", "b-id", "z-id"]);
}

#[test]
fn merging_reports_records_or_joined_failures() {
    assert_eq!(
        check_merge_request(false, 3),
        Err("multi-device clipboard synchronization is disabled".to_string())
    );
    assert_eq!(check_merge_request(true, 0), Err("no paired desktop device is currently online".to_string()));
    assert!(check_merge_request(true, 1).is_ok());
    let results = vec![
        ("p1".to_string(), PeerMergeOutcome::Merged(3)),
        ("p2".to_string(), PeerMergeOutcome::TimedOut),
        ("p3".to_string(), PeerMergeOutcome::Merged(2)),
    ];
    assert_eq!(merge_result(&results), Ok(5));
    let failed = vec![
        ("p1".to_string(), PeerMergeOutcome::ConnectionClosed),
        ("p2".to_string(), PeerMergeOutcome::Merged(0)),
        ("p3".to_string(), PeerMergeOutcome::Failed("busy".into())),
        ("p4".to_string(), PeerMergeOutcome::Cancelled),
    ];
    assert_eq!(
        merge_result(&failed),
        Err("p1: connection closed；p3: busy；p4: merge task was cancelled".to_string())
    );
    assert_eq!(merge_result(&[]), Ok(0));
}
