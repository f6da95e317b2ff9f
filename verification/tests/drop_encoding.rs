use arcrelay_desktop::drop_encoding::{file_drop, html, text, END_FRAGMENT, START_FRAGMENT};

fn units_of(bytes: &[u8]) -> Vec<u16> {
    bytes
        .chunks_exact(2)
        .map(|pair| u16::from_le_bytes([pair[0], pair[1]]))
        .collect()
}

#[test]
fn file_drop_preserves_unicode_special_characters_and_directory_paths() {
    let paths = [
        r"C:\图片\a #100%.png",
        r"\\server\share\folder 🖼",
        r"C:\目录\",
    ];
    let encoded = file_drop(
        &paths
            .iter()
            .map(|path| path.encode_utf16().collect())
            .collect::<Vec<_>>(),
    )
    .unwrap();
    assert_eq!(u32::from_le_bytes(encoded[..4].try_into().unwrap()), 20);
    assert_eq!(&encoded[4..16], &[0; 12]);
    assert_eq!(u32::from_le_bytes(encoded[16..20].try_into().unwrap()), 1);
    let units = units_of(&encoded[20..]);
    assert_eq!(&units[units.len() - 2..], &[0, 0]);
    let decoded = units[..units.len() - 1]
        .split_inclusive(|unit| *unit == 0)
        .map(|path| String::from_utf16(&path[..path.len() - 1]).unwrap())
        .collect::<Vec<_>>();
    assert_eq!(decoded, paths);
}

#[test]
fn file_drop_rejects_missing_and_embedded_nul_paths() {
    assert!(file_drop(&[]).is_err());
    assert!(file_drop(&[vec![]]).is_err());
    assert!(file_drop(&[vec![65, 0, 66]]).is_err());
}

#[test]
fn unicode_text_retains_full_content_with_windows_newlines_and_one_terminator() {
    let encoded = text("中文🖼\nsecond\r\nthird\rlast\n").unwrap();
    let units = units_of(&encoded);
    assert_eq!(units.last(), Some(&0));
    assert_eq!(
        String::from_utf16(&units[..units.len() - 1]).unwrap(),
        "中文🖼\r\nsecond\r\nthird\r\nlast\r\n"
    );
    assert!(text("a\0b").is_err());
}

fn assert_html_fragment(input: &str, expected: &str) -> String {
    let encoded = html(input).unwrap();
    assert_eq!(encoded.last(), Some(&0));
    let data = std::str::from_utf8(&encoded[..encoded.len() - 1]).unwrap();
    let offset = |name: &str| -> usize {
        data.lines()
            .find_map(|line| line.strip_prefix(&format!("{name}:")))
            .unwrap()
            .parse()
            .unwrap()
    };
    assert_eq!(offset("EndHTML"), encoded.len() - 1);
    assert_eq!(
        &data[offset("StartFragment")..offset("EndFragment")],
        expected
    );
    assert!(data[offset("StartHTML")..offset("StartFragment")].ends_with(START_FRAGMENT));
    assert!(data[offset("EndFragment")..offset("EndHTML")].starts_with(END_FRAGMENT));
    data[offset("StartHTML")..offset("EndHTML")].to_owned()
}

#[test]
fn html_offsets_are_utf8_bytes_with_unicode_before_and_inside_fragment() {
    let input = "<html><head><title>图片🖼</title></head><body><!--StartFragment--><b>中文 café 🖼</b><!--EndFragment--></body></html>";
    assert_eq!(assert_html_fragment(input, "<b>中文 café 🖼</b>"), input);
}

#[test]
fn html_wraps_fragments_and_preserves_document_context() {
    assert_html_fragment("<b>hello 中文</b>", "<b>hello 中文</b>");
    let input = "<HTML><HEAD><STYLE>b { color: red; }</STYLE></HEAD><BODY class='测试'><b>你好</b></BODY></HTML>";
    let context = assert_html_fragment(input, "<b>你好</b>");
    assert!(context.starts_with("<HTML><HEAD>"));
    assert_eq!(context.matches("<HTML>").count(), 1);
    assert!(html("a\0b").is_err());
}

#[test]
fn html_header_has_ten_digit_offsets() {
    let encoded = html("x").unwrap();
    let data = std::str::from_utf8(&encoded[..encoded.len() - 1]).unwrap();
    assert!(data.starts_with(
        "Version:1.0\r\nStartHTML:0000000105\r\nEndHTML:0000000170\r\nStartFragment:0000000137\r\nEndFragment:0000000138\r\n"
    ));
    assert_eq!(
        &data[105..],
        "<html><body><!--StartFragment-->x<!--EndFragment--></body></html>"
    );
}

#[test]
fn body_tag_must_be_followed_by_a_delimiter() {
    let context = assert_html_fragment("<bodyx>a</body>", "<bodyx>a</body>");
    assert!(context.starts_with("<html><body><!--StartFragment--><bodyx>"));
}

#[test]
fn text_pairs_carriage_returns_with_line_feeds_once() {
    let units = units_of(&text("\r\r\n\n").unwrap());
    assert_eq!(units, vec![13, 10, 13, 10, 13, 10, 0]);
    assert_eq!(text("").unwrap(), vec![0, 0]);
}
