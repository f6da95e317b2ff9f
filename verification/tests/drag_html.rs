use arcrelay_desktop::drag_html::{append, fragment};

#[test]
fn selects_only_marked_content_and_retains_table_ancestors() {
    let source = "<html><body><p>outside</p><table class='样式'><tbody><!--StartFragment--><tr><td>中文</td></tr><!--EndFragment--></tbody></table><p>outside</p></body></html>";
    assert_eq!(
        fragment(source, 1024).unwrap(),
        "<table class='样式'><tbody><tr><td>中文</td></tr></tbody></table>"
    );
}

#[test]
fn full_documents_use_body_and_ignore_fake_markup_in_attributes_and_scripts() {
    let source = "<HTML><head><script>let s = '<body><!--StartFragment-->fake';</script></head><BODY title='a > b'><b>one</b><br><i>two</i></BODY></HTML>";
    assert_eq!(fragment(source, 1024).unwrap(), "<b>one</b><br><i>two</i>");
}

#[test]
fn nested_inline_selection_is_balanced_and_bounded() {
    assert_eq!(
        fragment(
            "<p><b><!--StartFragment-->hello</b> world<!--EndFragment--></p>",
            100
        )
        .unwrap(),
        "<p><b>hello</b> world</p>"
    );
    assert!(fragment("<p><!--StartFragment-->hello<!--EndFragment--></p>", 6).is_err());
}

#[test]
fn fragment_limit_counts_utf8_bytes_exactly() {
    // "<p>中文</p>" is 3 + 6 + 4 = 13 bytes.
    assert_eq!(fragment("<p>中文</p>", 13).unwrap(), "<p>中文</p>");
    assert!(fragment("<p>中文</p>", 12).is_err());
}

#[test]
fn unterminated_comment_ends_the_token_stream() {
    // The scanner stops at an unterminated comment; the text is kept verbatim.
    assert_eq!(fragment("<b>x<!-- open", 100).unwrap(), "<b>x<!-- open</b>");
}

#[test]
fn self_closing_and_void_elements_are_not_ancestors() {
    assert_eq!(
        fragment("<div><br><img src='a' /><!--StartFragment-->t<!--EndFragment--></div>", 100)
            .unwrap(),
        "<div>t</div>"
    );
}

#[test]
fn append_respects_the_byte_limit() {
    let mut output = String::from("ab");
    assert!(append(&mut output, "中", 5).is_ok());
    assert_eq!(output, "ab中");
    let error = append(&mut output, "c", 5).unwrap_err();
    assert_eq!(error, "clipboard text export exceeds 16 MiB");
    assert_eq!(output, "ab中");
}
