use arcrelay_desktop::installed_apps::{check_known_app, icon_data_url, installed_app_views, ScannedApp};
use arcrelay_desktop::mcp_config::mcp_config;

fn app(name: &str, path: &str) -> ScannedApp {
    ScannedApp { name: name.into(), path: path.into(), identifier: Some(format!("id.{name}")), version: None }
}

#[test]
fn installed_apps_are_listed_once_in_name_order() {
    let views = installed_app_views(vec![
        app(" Zed ", "/Applications/Zed.app"),
        app("   ", "/Applications/Blank.app"),
        app("Ärger", "/Applications/Ärger.app"),
        app("alpha", "/Applications/Alpha.app"),
        app("ALPHA", "/applications/alpha.app"),
        app("Beta", ""),
        app("alpha", "/Applications/Alpha2.app"),
    ]);
    let listed: Vec<(&str, &str)> = views.iter().map(|v| (v.name.as_str(), v.path.as_str())).collect();
    assert_eq!(
        listed,
        vec![
            ("alpha", "/Applications/Alpha.app"),
            ("alpha", "/Applications/Alpha2.app"),
            ("Zed", "/Applications/Zed.app"),
            ("Ärger", "/Applications/Ärger.app"),
        ]
    );
    assert!(views.iter().all(|v| v.icon_data_url.is_none()));
    assert_eq!(views[2].identifier.as_deref(), Some("id. Zed "));
    assert!(check_known_app(&views, "/Applications/Zed.app").is_ok());
    assert_eq!(
        check_known_app(&views, "/Applications/Other.app"),
        Err("application is not in the installed application list".to_string())
    );
}

#[test]
fn icons_become_png_data_urls() {
    let url = icon_data_url(1, 1, &[255, 0, 0, 255]).unwrap();
    assert!(url.starts_with("data:image/png;base64,iVBOR"));
    assert_eq!(icon_data_url(2, 2, &[0; 4]), None);
}

#[test]
fn mcp_configuration_names_the_local_endpoint() {
    let c = mcp_config(8765, "t0k".into());
    assert_eq!(c.endpoint, "http://127.0.0.1:8765/mcp");
    assert_eq!(c.token, "t0k");
    assert_eq!(
        c.config_text,
        "[mcp_servers.arcrelay]\nurl = \"http://127.0.0.1:8765/mcp\"\nhttp_headers = { Authorization = \"Bearer t0k\" }"
    );
}
