use arcrelay_desktop::data_url::{jpeg_data_url, png_data_url};

#[test]
fn data_urls_carry_standard_base64_with_padding() {
    assert_eq!(png_data_url(b"abc"), "data:image/png;base64,YWJj");
    assert_eq!(png_data_url(b"ab"), "data:image/png;base64,YWI=");
    assert_eq!(jpeg_data_url(&[0xff, 0xfe]), "data:image/jpeg;base64,//4=");
    assert_eq!(jpeg_data_url(&[]), "data:image/jpeg;base64,");
}
