use arcrelay_desktop::blob_transfer::ClipboardContentKind::{Files, Html, Image, Text};
use arcrelay_desktop::blob_transfer::{
    blob_reference, check_reference, check_upload, payload_plan, random_bytes, text_of_blob,
    upload_chunks, BlobAssembler, PayloadPlan, MAX_IMAGE_BYTES,
};

#[test]
fn references_are_content_addressed() {
    let r = blob_reference(b"abc", "image/png");
    assert_eq!(r.size, 3);
    assert_eq!(r.blob_id, r.sha256);
    assert_eq!(r.blob_id.len(), 32);
    assert_eq!(
        r.sha256[..4],
        [0xba, 0x78, 0x16, 0xbf],
        "SHA-256 of \"abc\""
    );
    assert!(check_reference(&r, "image/png", MAX_IMAGE_BYTES).is_ok());
    assert!(check_reference(&r, "text/rtf", MAX_IMAGE_BYTES).is_err());
    assert!(check_reference(&r, "image/png", 2).is_err());
    let mut broken = r.clone();
    broken.sha256[0] ^= 1;
    assert_eq!(
        check_reference(&broken, "image/png", MAX_IMAGE_BYTES).unwrap_err(),
        "invalid synchronized clipboard blob reference"
    );
}

#[test]
fn uploads_are_bounded() {
    assert!(check_upload(1, 10, "text/html").is_ok());
    assert_eq!(
        check_upload(0, 10, "text/html").unwrap_err(),
        "synchronized blob is empty or exceeds the limit: text/html"
    );
    assert!(check_upload(11, 10, "text/html").is_err());
}

#[test]
fn chunks_cover_the_blob_once() {
    let plan = upload_chunks(10, 4);
    let spans: Vec<(u64, usize, bool)> = plan
        .iter()
        .map(|c| (c.offset, c.len, c.end_of_upload))
        .collect();
    assert_eq!(spans, vec![(0, 4, false), (4, 4, false), (8, 2, true)]);
    assert_eq!(upload_chunks(8, 4).len(), 2);
    assert!(upload_chunks(8, 4)[1].end_of_upload);
    assert!(upload_chunks(0, 4).is_empty());
}

#[test]
fn received_blobs_are_checked_in_order_and_by_digest() {
    let data = b"hello world".to_vec();
    let reference = blob_reference(&data, "text/html; charset=utf-8");
    let mut a = BlobAssembler::new(reference.size);
    assert_eq!(a.accept(0, &data[..5], false), Ok(false));
    assert_eq!(
        a.accept(3, &data[5..], true).unwrap_err(),
        "invalid synchronized blob chunk offset"
    );
    assert_eq!(a.accept(5, &data[5..], true), Ok(true));
    assert_eq!(a.finish(&reference).unwrap(), data);

    let mut b = BlobAssembler::new(4);
    assert_eq!(
        b.accept(0, b"12345", true).unwrap_err(),
        "synchronized blob exceeds its declared size"
    );
    let mut c = BlobAssembler::new(reference.size);
    c.accept(0, b"hello_world", true).unwrap();
    assert_eq!(
        c.finish(&reference).unwrap_err(),
        "synchronized blob integrity check failed"
    );
}

#[test]
fn text_blobs_must_be_utf8() {
    assert_eq!(text_of_blob("中文".as_bytes().to_vec(), "text/rtf").unwrap(), "中文");
    assert_eq!(
        text_of_blob(vec![0xff, 0xfe], "text/rtf").unwrap_err(),
        "synchronized text/rtf is not UTF-8"
    );
    assert_eq!(random_bytes(16).len(), 16);
}

#[test]
fn payloads_follow_the_record_kind() {
    assert_eq!(
        payload_plan(false, false, Text, true, false, false, false),
        Ok(PayloadPlan::Nothing)
    );
    assert_eq!(
        payload_plan(true, true, Image, false, false, false, true),
        Ok(PayloadPlan::Nothing)
    );
    assert_eq!(
        payload_plan(true, false, Html, true, true, true, false),
        Ok(PayloadPlan::RichText { with_rtf: true })
    );
    assert_eq!(
        payload_plan(true, false, Image, false, false, false, false).unwrap_err(),
        "local synchronized image content is missing"
    );
    assert_eq!(
        payload_plan(true, false, Files, false, false, false, false),
        Ok(PayloadPlan::Nothing)
    );
}

#[test]
fn an_upload_received_chunk_by_chunk_is_the_same_blob() {
    let data: Vec<u8> = (0u8..=250).collect();
    let reference = blob_reference(&data, "image/png");
    let mut assembler = BlobAssembler::new(reference.size);
    let plan = upload_chunks(data.len(), 64);
    assert_eq!(plan.len(), 4);
    for c in &plan {
        let start = c.offset as usize;
        let last = assembler.accept(c.offset, &data[start..start + c.len], c.end_of_upload).unwrap();
        assert_eq!(last, c.end_of_upload);
    }
    assert_eq!(assembler.finish(&reference).unwrap(), data);
}
