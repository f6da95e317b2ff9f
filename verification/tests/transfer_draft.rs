use base64::Engine as _;
use arcrelay_desktop::data_url::jpeg_data_url;
use arcrelay_desktop::transfer_draft::{
    check_staging_count, draft_thumbnail, file_kind, preview_eligible, staging_problem, wants_preview,
    FileKind,
};

#[test]
fn kinds_follow_the_extension() {
    assert_eq!(file_kind("PDF"), FileKind::Pdf);
    assert_eq!(file_kind("jpeg"), FileKind::Image);
    assert_eq!(file_kind("Avif"), FileKind::Image);
    assert_eq!(file_kind("7z"), FileKind::Archive);
    assert_eq!(file_kind("txt"), FileKind::File);
    assert_eq!(file_kind(""), FileKind::File);
}

#[test]
fn staging_limits_and_problems() {
    assert!(check_staging_count(256).is_ok());
    assert_eq!(check_staging_count(257), Err("at most 256 files can be added at once".to_string()));
    assert!(wants_preview(31));
    assert!(!wants_preview(32));
    assert_eq!(staging_problem(true, true), Some("symbolic links are unsupported; add the original file".to_string()));
    assert_eq!(
        staging_problem(false, false),
        Some("only regular files are supported; archive folders before adding them".to_string())
    );
    assert_eq!(staging_problem(false, true), None);
    assert!(preview_eligible(true, FileKind::Image, 8 * 1024 * 1024));
    assert!(!preview_eligible(true, FileKind::Image, 8 * 1024 * 1024 + 1));
    assert!(!preview_eligible(false, FileKind::Image, 1));
    assert!(!preview_eligible(true, FileKind::Pdf, 1));
}

#[test]
fn malformed_images_get_no_preview_and_good_ones_are_bounded() {
    assert_eq!(draft_thumbnail(b"not an image"), None);
    let mut png = Vec::new();
    {
        let image = image::RgbImage::new(400, 300);
        image::DynamicImage::ImageRgb8(image)
            .write_to(&mut std::io::Cursor::new(&mut png), image::ImageFormat::Png)
            .unwrap();
    }
    let url = draft_thumbnail(&png).unwrap();
    let encoded = url.strip_prefix("data:image/jpeg;base64,").unwrap();
    assert!(encoded.len() <= 4 * (48 * 1024 + 2) / 3);
    assert_eq!(jpeg_data_url(&[1, 2, 3]), "data:image/jpeg;base64,AQID");
}

#[test]
fn supported_images_get_a_bounded_optional_preview() {
    let mut png = Vec::new();
    image::DynamicImage::ImageRgb8(image::RgbImage::new(400, 300))
        .write_to(&mut std::io::Cursor::new(&mut png), image::ImageFormat::Png)
        .unwrap();
    assert!(preview_eligible(true, file_kind("png"), png.len() as u64));
    let data = draft_thumbnail(&png).unwrap();
    let bytes = base64::engine::general_purpose::STANDARD
        .decode(data.strip_prefix("data:image/jpeg;base64,").unwrap())
        .unwrap();
    let decoded = image::load_from_memory(&bytes).unwrap();
    assert!(decoded.width() <= 192 && decoded.height() <= 144);
    assert!(bytes.len() <= 48 * 1024);
    assert!(!preview_eligible(false, file_kind("png"), png.len() as u64));
}
