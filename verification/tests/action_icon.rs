use arcrelay_desktop::action_icon::validate_custom_svg;

#[test]
fn accepts_simple_custom_svg() {
    validate_custom_svg(
        r#"<svg viewBox="0 0 24 24"><path fill="currentColor" d="M2 2h20v20H2z"/></svg>"#,
    )
    .unwrap();
}

#[test]
fn rejects_active_or_external_svg_content() {
    assert!(validate_custom_svg(r#"<svg><script>alert(1)</script></svg>"#).is_err());
    assert!(validate_custom_svg(r#"<svg><path onclick="alert(1)" d="M0 0"/></svg>"#).is_err());
    assert!(
        validate_custom_svg(r#"<svg><image href="https://example.com/icon.png"/></svg>"#)
            .is_err()
    );
}

#[test]
fn reports_why_an_icon_is_refused() {
    assert_eq!(validate_custom_svg("  ").unwrap_err(), "SVG icon cannot be empty");
    assert_eq!(
        validate_custom_svg(&format!("<svg>{}</svg>", "x".repeat(16 * 1024))).unwrap_err(),
        "SVG icon cannot exceed 16 KiB"
    );
    assert_eq!(
        validate_custom_svg("<html></html>").unwrap_err(),
        "icon file must be a standalone SVG document"
    );
    assert_eq!(
        validate_custom_svg("<svg><!DOCTYPE x></svg>").unwrap_err(),
        "icon file must be a standalone SVG document"
    );
    assert!(validate_custom_svg("<svg>")
        .unwrap_err()
        .starts_with("invalid SVG: "));
    assert_eq!(
        validate_custom_svg("<svgx/>").unwrap_err(),
        "icon root element must be <svg>"
    );
    assert_eq!(
        validate_custom_svg("<svg><ForeignObject/></svg>").unwrap_err(),
        "SVG icon cannot contain a <ForeignObject> element"
    );
    assert_eq!(
        validate_custom_svg(r#"<svg><rect fill="url(http://x)"/></svg>"#).unwrap_err(),
        "SVG icon contains an unsafe attribute: fill"
    );
    assert!(validate_custom_svg(r##"<svg><rect fill="url(#g)"/></svg>"##).is_ok());
}

use arcrelay_desktop::action_icon::{builtin_svg, normalize_action_icon, IconCatalog, BUILTIN_ICON_COUNT};
use arcrelay_desktop::quick_action::{ActionType, QuickAction};

const IDS: [&str; 18] = [
    "zap", "folder", "globe", "terminal", "keyboard", "scroll", "settings", "play", "radio", "link", "toggle",
    "crosshair", "smartphone", "masks", "edit", "circle", "grip", "close",
];

fn catalog() -> IconCatalog {
    IconCatalog::new(IDS.iter().map(|id| format!("<svg id=\"{id}\"/>")).collect()).unwrap()
}

fn action(icon_id: &str, icon_svg: &str) -> QuickAction {
    let mut action = QuickAction::new(
        "Open notes".to_string(),
        "Apps".to_string(),
        ActionType::LaunchApp { app_name: "Notes".to_string(), app_path: None },
        &catalog(),
    );
    action.icon_id = icon_id.to_string();
    action.icon_svg = icon_svg.to_string();
    action
}

#[test]
fn builtin_icons_are_exactly_the_catalog_ids() {
    let icons = catalog();
    assert_eq!(BUILTIN_ICON_COUNT, IDS.len());
    for id in IDS {
        assert_eq!(builtin_svg(&icons, id), Some(format!("<svg id=\"{id}\"/>")));
    }
    assert_eq!(builtin_svg(&icons, "custom"), None);
    assert_eq!(builtin_svg(&icons, " zap"), None);
    assert_eq!(builtin_svg(&icons, "Folder"), None);
    assert_eq!(builtin_svg(&icons, "toggle-left"), None);
    assert!(IconCatalog::new(vec![]).is_none());
    assert!(IconCatalog::new(vec!["<svg/>".to_string(); 19]).is_none());
}

#[test]
fn builtin_icon_ids_take_the_catalog_markup() {
    let icons = catalog();
    let mut a = action(" folder ", "<svg>old</svg>");
    assert_eq!(normalize_action_icon(&mut a, &icons), Ok(true));
    assert_eq!(a.icon_id, "folder");
    assert_eq!(a.icon_svg, "<svg id=\"folder\"/>");
    assert_eq!(normalize_action_icon(&mut a, &icons), Ok(false));
}
#[test]
fn custom_icons_keep_their_trimmed_markup_when_safe() {
    let icons = catalog();
    let mut a = action("custom", "  <svg viewBox=\"0 0 24 24\"><path d=\"M0 0\"/></svg>\n");
    assert_eq!(normalize_action_icon(&mut a, &icons), Ok(true));
    assert_eq!(a.icon_svg, "<svg viewBox=\"0 0 24 24\"><path d=\"M0 0\"/></svg>");
    assert_eq!(normalize_action_icon(&mut a, &icons), Ok(false));
}

#[test]
fn unsafe_custom_icons_and_unknown_ids_are_refused() {
    let icons = catalog();
    let mut a = action("custom", "<svg><script>alert(1)</script></svg>");
    assert_eq!(
        normalize_action_icon(&mut a, &icons),
        Err("SVG icon cannot contain a <script> element".to_string())
    );
    let mut b = action(" rocket ", " <svg/> ");
    assert_eq!(normalize_action_icon(&mut b, &icons), Err("select a valid SVG icon".to_string()));
    assert_eq!(b.icon_id, "rocket");
    assert_eq!(b.icon_svg, "<svg/>");
}
