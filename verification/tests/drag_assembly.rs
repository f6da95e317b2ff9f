use arcrelay_desktop::drag_assembly::{
    assemble, escape_html, ClipboardDragMode, ClipboardDragSelection, ClipboardExportRecord,
    ClipboardPayload, DragFile, MAX_TEXT_BYTES,
};

fn record(id: u64, payload: ClipboardPayload) -> ClipboardExportRecord {
    ClipboardExportRecord {
        id,
        content_hash: id.to_string(),
        sensitive: false,
        payload,
    }
}

fn no_files(n: usize) -> Vec<Result<Vec<String>, String>> {
    (0..n).map(|_| Ok(vec![])).collect()
}

fn run(
    records: Vec<ClipboardExportRecord>,
    mode: ClipboardDragMode,
    selection: Option<ClipboardDragSelection>,
) -> Result<arcrelay_desktop::drag_assembly::Assembly, String> {
    let n = records.len();
    assemble(records, mode, selection, no_files(n))
}

#[test]
fn text_modes_preserve_full_text_and_offer_html_only_when_requested() {
    let records = vec![
        record(1, ClipboardPayload::Text("first\nline".into())),
        record(
            2,
            ClipboardPayload::RichText {
                html: "<b>中文</b>".into(),
                plain_text: "中文".into(),
                rtf: None,
            },
        ),
    ];
    let auto = run(records.clone(), ClipboardDragMode::Auto, None).unwrap();
    assert_eq!(auto.text.as_deref(), Some("first\nline\n\n中文"));
    assert!(auto.html.unwrap().contains("<b>中文</b>"));
    let plain = run(records.clone(), ClipboardDragMode::PlainText, None).unwrap();
    assert!(plain.html.is_none());
    let file = run(records, ClipboardDragMode::TextFile, None).unwrap();
    assert!(file.text.is_none());
    assert_eq!(file.exports[0].bytes, "first\nline\n\n中文".as_bytes());
}

#[test]
fn multi_record_rich_text_has_one_document_and_one_complete_fragment() {
    let first = "<html><head><title>First</title></head><body><div class='one'><!--StartFragment--><b>第一条</b><!--EndFragment--></div></body></html>";
    let second = "<HTML><BODY title='a > b'><table><tbody><!--StartFragment--><tr><td>第二条</td></tr><!--EndFragment--></tbody></table></BODY></HTML>";
    let records = vec![
        record(
            1,
            ClipboardPayload::RichText {
                html: first.into(),
                plain_text: "第一条".into(),
                rtf: None,
            },
        ),
        record(
            2,
            ClipboardPayload::RichText {
                html: second.into(),
                plain_text: "第二条".into(),
                rtf: None,
            },
        ),
    ];
    let single = run(vec![records[0].clone()], ClipboardDragMode::Auto, None).unwrap();
    assert_eq!(single.html.as_deref(), Some(first));
    let combined = run(records, ClipboardDragMode::Auto, None).unwrap();
    assert_eq!(combined.text.as_deref(), Some("第一条\n\n第二条"));
    let combined = combined.html.unwrap();
    assert_eq!(combined.matches("<!--StartFragment-->").count(), 1);
    assert_eq!(combined.matches("<!--EndFragment-->").count(), 1);
    assert_eq!(combined.to_ascii_lowercase().matches("<html>").count(), 1);
    let start = combined.find("<!--StartFragment-->").unwrap() + "<!--StartFragment-->".len();
    let end = combined.find("<!--EndFragment-->").unwrap();
    assert_eq!(
        &combined[start..end],
        "<div class='one'><b>第一条</b></div><br><br><table><tbody><tr><td>第二条</td></tr></tbody></table>"
    );
}

#[test]
fn plain_and_txt_do_not_allocate_or_count_unused_escaped_html() {
    let large = "&".repeat(9 * 1024 * 1024);
    for mode in [
        ClipboardDragMode::Auto,
        ClipboardDragMode::PlainText,
        ClipboardDragMode::TextFile,
    ] {
        let result = run(
            vec![record(1, ClipboardPayload::Text(large.clone()))],
            mode,
            None,
        )
        .unwrap();
        assert!(result.html.is_none());
        if mode == ClipboardDragMode::TextFile {
            assert_eq!(result.exports[0].bytes, large.as_bytes());
        } else {
            assert_eq!(result.text.as_deref(), Some(large.as_str()));
        }
    }
    assert!(run(
        vec![record(1, ClipboardPayload::Text(large))],
        ClipboardDragMode::RichText,
        None
    )
    .is_err());
}

#[test]
fn text_budget_counts_actual_joined_output_and_file_exports() {
    let boundary = "a".repeat(MAX_TEXT_BYTES);
    let result = run(
        vec![record(1, ClipboardPayload::Text(boundary.clone()))],
        ClipboardDragMode::TextFile,
        None,
    )
    .unwrap();
    assert_eq!(result.exports[0].bytes.len(), MAX_TEXT_BYTES);
    assert!(run(
        vec![
            record(1, ClipboardPayload::Text(boundary)),
            record(2, ClipboardPayload::Text("b".into()))
        ],
        ClipboardDragMode::PlainText,
        None
    )
    .is_err());
    assert!(run(
        vec![
            record(1, ClipboardPayload::Text("a".repeat(MAX_TEXT_BYTES + 1))),
            record(
                2,
                ClipboardPayload::Image {
                    png: vec![1],
                    width: 1,
                    height: 1
                }
            )
        ],
        ClipboardDragMode::Auto,
        None
    )
    .is_err());
}

#[test]
fn mixed_records_export_text_and_original_image_as_files() {
    let source = vec![137, 80, 78, 71, 1, 2, 3];
    let result = run(
        vec![
            record(1, ClipboardPayload::Text("文本".into())),
            record(
                2,
                ClipboardPayload::Image {
                    png: source.clone(),
                    width: 9000,
                    height: 9000,
                },
            ),
        ],
        ClipboardDragMode::Auto,
        None,
    )
    .unwrap();
    assert_eq!(result.files.len(), 2);
    assert_eq!(result.exports[0].extension, "txt");
    assert_eq!(result.exports[1].bytes, source);
    assert!(result.text.is_none());
}

#[test]
fn selected_text_is_bound_to_a_live_record_and_remains_plain() {
    let records = vec![record(1, ClipboardPayload::Text("hello\nworld".into()))];
    let selected = run(
        records.clone(),
        ClipboardDragMode::Auto,
        Some(ClipboardDragSelection {
            id: 1,
            text: "hello world".into(),
        }),
    )
    .unwrap();
    assert_eq!(selected.text.as_deref(), Some("hello world"));
    assert!(selected.html.is_none());
    assert!(run(
        records.clone(),
        ClipboardDragMode::Auto,
        Some(ClipboardDragSelection {
            id: 2,
            text: "hello".into()
        })
    )
    .is_err());
    assert!(run(
        records,
        ClipboardDragMode::Auto,
        Some(ClipboardDragSelection {
            id: 1,
            text: String::new()
        })
    )
    .is_err());
}

#[test]
fn checked_file_lists_are_deduplicated_in_order() {
    let payload = ClipboardPayload::Files(vec!["a".into(), "dir".into(), "a".into()]);
    let result = assemble(
        vec![record(1, payload.clone()), record(2, payload)],
        ClipboardDragMode::Auto,
        None,
        vec![
            Ok(vec!["/x/a".into(), "/x/dir".into(), "/x/a".into()]),
            Ok(vec!["/x/dir".into(), "/x/b".into()]),
        ],
    )
    .unwrap();
    let paths: Vec<String> = result
        .files
        .iter()
        .map(|f| match f {
            DragFile::Existing(p) => p.clone(),
            DragFile::Export => "<export>".into(),
        })
        .collect();
    assert_eq!(paths, vec!["/x/a", "/x/dir", "/x/b"]);
    assert!(result.exports.is_empty());
}

#[test]
fn file_check_failures_and_empty_payloads_are_reported() {
    let files = record(1, ClipboardPayload::Files(vec!["gone".into()]));
    let failed = assemble(
        vec![files.clone()],
        ClipboardDragMode::Auto,
        None,
        vec![Err("original clipboard file was moved, deleted or is unavailable".into())],
    );
    assert_eq!(
        failed.unwrap_err(),
        "original clipboard file was moved, deleted or is unavailable"
    );
    let empty = run(
        vec![record(1, ClipboardPayload::Files(vec![]))],
        ClipboardDragMode::Auto,
        None,
    );
    assert_eq!(empty.unwrap_err(), "clipboard file list is empty");
    let image = run(
        vec![record(
            1,
            ClipboardPayload::Image {
                png: vec![],
                width: 0,
                height: 0,
            },
        )],
        ClipboardDragMode::Auto,
        None,
    );
    assert_eq!(image.unwrap_err(), "clipboard image is empty");
    let many: Vec<String> = (0..513).map(|i| format!("f{i}")).collect();
    let too_many = run(
        vec![record(1, ClipboardPayload::Files(many))],
        ClipboardDragMode::Auto,
        None,
    );
    assert_eq!(
        too_many.unwrap_err(),
        "too many clipboard files; select at most 512 files"
    );
}

#[test]
fn rich_mode_wraps_plain_text_in_an_escaped_pre_block() {
    let result = run(
        vec![record(1, ClipboardPayload::Text("a<b & c>".into()))],
        ClipboardDragMode::RichText,
        None,
    )
    .unwrap();
    assert_eq!(result.html.as_deref(), Some("<pre>a&lt;b &amp; c&gt;</pre>"));
    let two = run(
        vec![
            record(1, ClipboardPayload::Text("x".into())),
            record(2, ClipboardPayload::Text("y".into())),
        ],
        ClipboardDragMode::RichText,
        None,
    )
    .unwrap();
    assert_eq!(
        two.html.as_deref(),
        Some("<html><body><!--StartFragment--><pre>x</pre><br><br><pre>y</pre><!--EndFragment--></body></html>")
    );
    assert!(two.preview.is_none());
}

#[test]
fn escape_html_appends_within_the_limit_only() {
    let mut out = String::from("<p>");
    escape_html("1 < 2 & 3", &mut out, 64).unwrap();
    assert_eq!(out, "<p>1 &lt; 2 &amp; 3");
    let before = out.clone();
    assert_eq!(
        escape_html("&&&&", &mut out, 20).unwrap_err(),
        "clipboard text export exceeds 16 MiB"
    );
    assert_eq!(out, before);
}
