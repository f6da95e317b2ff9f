use arcrelay_desktop::clipboard_view::{
    build_clipboard_image_preview, build_clipboard_thumbnail, clear_clipboard_thumbnail_cache,
    clipboard_continuous_paste_active, history_limit, timeline_limit, updated_at_ms, ClipboardImageCaches,
    ContinuousPasteProgress, ContinuousPasteQueue, IMAGE_PREVIEW_MAX_DIMENSION,
};
use arcrelay_desktop::image_cache::{
    CachedClipboardImage, ClipboardImagePreviewCache, ClipboardThumbnailCache, IMAGE_PREVIEW_CACHE_BYTES,
    THUMBNAIL_CACHE_BYTES,
    THUMBNAIL_LIMIT,
};

fn source_png(width: u32, height: u32) -> Vec<u8> {
    let image = image::RgbaImage::from_pixel(width, height, image::Rgba([36, 94, 201, 255]));
    let mut encoded = Vec::new();
    image::ImageEncoder::write_image(
        image::codecs::png::PngEncoder::new(&mut encoded),
        image.as_raw(),
        width,
        height,
        image::ExtendedColorType::Rgba8,
    )
    .expect("encode source image");
    encoded
}

fn decoded_dimensions(bytes: &[u8]) -> (u32, u32) {
    let image = image::load_from_memory(bytes).expect("load preview");
    (image.width(), image.height())
}

fn cached(path: &str, bytes: usize) -> CachedClipboardImage {
    CachedClipboardImage { path: path.to_string(), bytes }
}

#[test]
fn high_resolution_preview_keeps_source_resolution_below_limit() {
    let png = source_png(1_600, 900);
    let thumbnail = build_clipboard_thumbnail(&png).expect("build thumbnail");
    let preview = build_clipboard_image_preview(&png).expect("build image preview");

    assert_eq!(decoded_dimensions(&thumbnail), (640, 360));
    assert_eq!(decoded_dimensions(&preview), (1_600, 900));
}

#[test]
fn high_resolution_preview_bounds_oversized_images() {
    let png = source_png(4_200, 420);
    let preview = build_clipboard_image_preview(&png).expect("build image preview");
    let (width, height) = decoded_dimensions(&preview);

    assert_eq!(width, IMAGE_PREVIEW_MAX_DIMENSION);
    assert!(height <= 410);
}

#[test]
fn images_that_do_not_decode_are_refused() {
    assert!(build_clipboard_thumbnail(b"not a png").is_err());
    assert!(build_clipboard_image_preview(b"not a png").is_err());
}

#[test]
fn thumbnails_are_evicted_least_recently_used_first() {
    let mut cache = ClipboardThumbnailCache::new();
    for id in 0..THUMBNAIL_LIMIT as u64 {
        assert!(cache.insert(id, cached(&format!("/t/{id}.png"), 10)).is_empty());
    }
    assert_eq!(cache.get(0), Some("/t/0.png".to_string()));
    let removed = cache.insert(100, cached("/t/100.png", 10));
    assert_eq!(removed.len(), 1);
    assert_eq!(removed[0].0, 1);
    assert_eq!(removed[0].1.path, "/t/1.png");
    assert_eq!(cache.get(1), None);
    assert_eq!(cache.get(0), Some("/t/0.png".to_string()));
    assert_eq!(cache.get(100), Some("/t/100.png".to_string()));
}

#[test]
fn replacing_an_image_hands_back_the_previous_file() {
    let mut cache = ClipboardThumbnailCache::new();
    cache.insert(7, cached("/t/7-a.png", 10));
    let removed = cache.insert(7, cached("/t/7-b.png", 12));
    assert_eq!(removed.len(), 1);
    assert_eq!(removed[0].1.path, "/t/7-a.png");
    assert_eq!(cache.get(7), Some("/t/7-b.png".to_string()));
    let cleared = cache.clear();
    assert_eq!(cleared.len(), 1);
    assert_eq!(cache.get(7), None);
}

#[test]
fn previews_larger_than_the_budget_are_not_kept() {
    let mut cache = ClipboardImagePreviewCache::new();
    let removed = cache.insert(1, cached("/p/1.png", IMAGE_PREVIEW_CACHE_BYTES + 1));
    assert_eq!(removed.len(), 1);
    assert_eq!(removed[0].1.path, "/p/1.png");
    assert_eq!(cache.get(1), None);
    for id in 2..7u64 {
        cache.insert(id, cached(&format!("/p/{id}.png"), 1));
    }
    assert_eq!(cache.get(2), None);
    assert_eq!(cache.get(6), Some("/p/6.png".to_string()));
}

#[test]
fn images_made_before_a_clear_are_not_stored_after_it() {
    let mut caches = ClipboardImageCaches::new();
    let (stored, removed) = caches.store_thumbnail(0, 1, cached("/t/1.png", 5));
    assert_eq!(stored, Some("/t/1.png".to_string()));
    assert!(removed.is_empty());
    let cleared = clear_clipboard_thumbnail_cache(&mut caches);
    assert_eq!(cleared.len(), 1);
    assert_eq!(caches.generation, 1);
    let (stored, removed) = caches.store_preview(0, 2, cached("/p/2.png", 5));
    assert_eq!(stored, None);
    assert_eq!(removed.len(), 1);
    assert_eq!(removed[0].1.path, "/p/2.png");
    let (stored, _) = caches.store_preview(1, 2, cached("/p/2b.png", 5));
    assert_eq!(stored, Some("/p/2b.png".to_string()));
}

#[test]
fn continuous_paste_walks_the_selection_once() {
    let mut queue = ContinuousPasteQueue::new();
    assert_eq!(queue.start(vec![]), Err("select at least one clipboard entry".to_string()));
    assert_eq!(queue.start(vec![10, 20]), Ok(ContinuousPasteProgress { current: 0, total: 2, active: true }));
    assert!(clipboard_continuous_paste_active(&queue));
    assert_eq!(queue.begin_next(), Some(10));
    assert_eq!(queue.begin_next(), None);
    queue.paste_failed();
    assert_eq!(queue.begin_next(), Some(10));
    assert_eq!(queue.paste_succeeded(), ContinuousPasteProgress { current: 1, total: 2, active: true });
    assert_eq!(queue.begin_next(), Some(20));
    assert_eq!(queue.paste_succeeded(), ContinuousPasteProgress { current: 2, total: 2, active: false });
    assert!(!clipboard_continuous_paste_active(&queue));
    assert_eq!(queue.begin_next(), None);
    assert_eq!(queue.progress(), ContinuousPasteProgress { current: 0, total: 0, active: false });
}

#[test]
fn stopping_forgets_the_queue() {
    let mut queue = ContinuousPasteQueue::new();
    queue.start(vec![1, 2, 3]).unwrap();
    queue.begin_next();
    assert_eq!(queue.stop(), ContinuousPasteProgress { current: 0, total: 0, active: false });
    assert_eq!(queue.begin_next(), None);
}

#[test]
fn page_sizes_are_clamped() {
    assert_eq!(timeline_limit(None), 30);
    assert_eq!(timeline_limit(Some(0)), 1);
    assert_eq!(timeline_limit(Some(45)), 45);
    assert_eq!(timeline_limit(Some(500)), 60);
    assert_eq!(history_limit(None), 60);
    assert_eq!(history_limit(Some(0)), 1);
    assert_eq!(history_limit(Some(1_000)), 120);
}

#[test]
fn the_update_time_is_the_later_of_capture_and_use() {
    assert_eq!(updated_at_ms(1_000, None), 1_000);
    assert_eq!(updated_at_ms(1_000, Some(2_000)), 2_000);
    assert_eq!(updated_at_ms(3_000, Some(2_000)), 3_000);
}

#[test]
fn an_oversized_thumbnail_is_not_kept_and_the_rest_keep_their_order() {
    let mut cache = ClipboardThumbnailCache::new();
    cache.insert(1, cached("/t/1.png", 10));
    cache.insert(2, cached("/t/2.png", 10));
    let removed = cache.insert(3, cached("/t/3.png", THUMBNAIL_CACHE_BYTES + 1));
    let paths: Vec<String> = removed.iter().map(|(_, c)| c.path.clone()).collect();
    assert_eq!(paths, vec!["/t/1.png", "/t/2.png", "/t/3.png"]);
    assert_eq!(cache.get(3), None);
}
