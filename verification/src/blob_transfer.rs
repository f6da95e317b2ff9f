//! Blobs of synchronized clipboard records (rich text and images): their
//! content-addressed references, how they are cut into chunks, and the
//! checks applied while one is received.

use vstd::prelude::*;
use vstd::string::StringExecFns;
use vstd::slice::slice_to_vec;
use crate::text::{chars_of, string_from_chars};

verus! {

/// Largest image synchronized.
pub const MAX_IMAGE_BYTES: usize = 20 * 1024 * 1024;

/// Largest HTML or RTF document synchronized.
pub const MAX_RICH_TEXT_BLOB_BYTES: usize = 16 * 1024 * 1024;

/// The SHA-256 digest of `bytes`.
pub uninterp spec fn sha256_of(bytes: Seq<u8>) -> Seq<u8>;

/// `sha2::Sha256::digest`: the 32-byte SHA-256 digest of `bytes`. Claimed:
/// a function of `bytes` (`sha256_of`) that is 32 bytes long, the digest
/// size of the algorithm.
#[verifier::external_body]
fn sha256(bytes: &[u8]) -> (d: Vec<u8>)
    ensures
        d@ == sha256_of(bytes@),
        d@.len() == 32,
{
    <sha2::Sha256 as sha2::Digest>::digest(bytes).to_vec()
}

/// `rand::rngs::OsRng` filling `length` bytes. Claimed: `length` bytes come
/// back; which ones is left open.
#[verifier::external_body]
fn os_random_bytes(length: usize) -> (v: Vec<u8>)
    ensures
        v@.len() == length,
{
    let mut bytes = vec![0; length];
    rand::RngCore::fill_bytes(&mut rand::rngs::OsRng, &mut bytes);
    bytes
}

/// `length` random bytes from the operating system.
pub fn random_bytes(length: usize) -> (v: Vec<u8>)
    ensures
        v@.len() == length,
{
    os_random_bytes(length)
}

/// `String::from_utf8`: the text of `bytes` when they are valid UTF-8.
/// Claimed, as std documents: `Ok` exactly for valid UTF-8, holding the
/// decoded characters.
#[verifier::external_body]
fn string_from_utf8(bytes: Vec<u8>) -> (r: Option<String>)
    ensures
        match r {
            Some(s) => vstd::utf8::valid_utf8(bytes@) && s@ == vstd::utf8::decode_utf8(bytes@),
            None => !vstd::utf8::valid_utf8(bytes@),
        },
{
    String::from_utf8(bytes).ok()
}

/// A content-addressed reference to a blob.
#[derive(Debug, Clone, PartialEq, Eq)]
pub struct BlobRef {
    pub blob_id: Vec<u8>,
    pub size: u64,
    pub media_type: String,
    pub sha256: Vec<u8>,
}

/// Refuses an empty blob or one over `maximum` bytes.
pub fn check_upload(len: usize, maximum: usize, media_type: &str) -> (r: Result<(), String>)
    ensures
        (len == 0 || len > maximum) ==> (r matches Err(e) && e@ == "synchronized blob is empty or exceeds the limit: "@ + media_type@),
        !(len == 0 || len > maximum) ==> r is Ok,
{
    if len == 0 || len > maximum {
        let mut message = String::from_str("synchronized blob is empty or exceeds the limit: ");
        message.append(media_type);
        return Err(message);
    }
    Ok(())
}

/// The reference under which `bytes` is uploaded: named by its digest.
pub fn blob_reference(bytes: &[u8], media_type: &str) -> (r: BlobRef)
    ensures
        r.blob_id@ == sha256_of(bytes@),
        r.sha256@ == sha256_of(bytes@),
        r.size == bytes@.len(),
        r.media_type@ == media_type@,
{
    let digest = sha256(bytes);
    let id = slice_to_vec(digest.as_slice());
    BlobRef { blob_id: id, size: bytes.len() as u64, media_type: String::from_str(media_type), sha256: digest }
}

/// One chunk of an upload: where it starts, how long it is, whether it is last.
#[derive(Debug, Clone, Copy, PartialEq, Eq)]
pub struct ChunkPlan {
    pub offset: u64,
    pub len: usize,
    pub end_of_upload: bool,
}

pub open spec fn chunk_spec(total: int, chunk: int, index: int) -> ChunkPlan {
    let offset = index * chunk;
    let len = if total - offset < chunk { total - offset } else { chunk };
    ChunkPlan { offset: offset as u64, len: len as usize, end_of_upload: offset + len == total }
}

/// The chunks of a `total`-byte upload in pieces of at most `chunk` bytes,
/// in order; together they cover the blob exactly once.
pub fn upload_chunks(total: usize, chunk: usize) -> (v: Vec<ChunkPlan>)
    requires
        chunk > 0,
        total <= u64::MAX,
    ensures
        forall|i: int| 0 <= i < v@.len() ==> #[trigger] v@[i] == chunk_spec(total as int, chunk as int, i),
        total == 0 ==> v@.len() == 0,
        total > 0 ==> v@.len() > 0 && (v@.len() - 1) * chunk < total && total <= v@.len() * chunk,
{
    let mut v: Vec<ChunkPlan> = Vec::new();
    let mut offset: usize = 0;
    assert(v@.len() * chunk == 0) by (nonlinear_arith)
        requires
            v@.len() == 0,
    ;
    while offset < total
        invariant
            chunk > 0,
            total <= u64::MAX,
            offset <= total,
            offset < total ==> offset == v@.len() * chunk,
            offset == total && v@.len() > 0 ==> (v@.len() - 1) * chunk < total && total <= v@.len() * chunk,
            v@.len() == 0 ==> offset == 0,
            forall|i: int| 0 <= i < v@.len() ==> #[trigger] v@[i] == chunk_spec(total as int, chunk as int, i),
        decreases total - offset,
    {
        let len = if total - offset < chunk {
            total - offset
        } else {
            chunk
        };
        let ghost k = v@.len() as int;
        assert(offset == k * chunk);
        let c = ChunkPlan { offset: offset as u64, len, end_of_upload: offset + len == total };
        assert(c == chunk_spec(total as int, chunk as int, k));
        v.push(c);
        offset = offset + len;
        proof {
            if offset < total {
                assert(len == chunk);
                assert(offset == (k + 1) * chunk) by (nonlinear_arith)
                    requires
                        offset == k * chunk + chunk,
                ;
            } else {
                assert(k * chunk < total);
                assert(total <= (k + 1) * chunk) by (nonlinear_arith)
                    requires
                        total == k * chunk + len,
                        len <= chunk,
                ;
            }
        }
    }
    v
}

pub open spec fn reference_valid(r: BlobRef, media_type: Seq<char>, maximum: nat) -> bool {
    &&& r.size != 0
    &&& r.size <= maximum
    &&& r.blob_id@.len() == 32
    &&& r.sha256@ == r.blob_id@
    &&& r.media_type@ == media_type
}

fn bytes_equal(a: &Vec<u8>, b: &Vec<u8>) -> (r: bool)
    ensures
        r == (a@ == b@),
{
    if a.len() != b.len() {
        return false;
    }
    let mut i: usize = 0;
    while i < a.len()
        invariant
            i <= a@.len(),
            a@.len() == b@.len(),
            forall|k: int| 0 <= k < i ==> a@[k] == b@[k],
        decreases a@.len() - i,
    {
        if a[i] != b[i] {
            return false;
        }
        i = i + 1;
    }
    assert(a@ =~= b@);
    true
}

/// Refuses a reference that cannot name a blob of `media_type` of at most
/// `maximum` bytes.
pub fn check_reference(reference: &BlobRef, media_type: &str, maximum: usize) -> (r: Result<(), String>)
    ensures
        reference_valid(*reference, media_type@, maximum as nat) ==> r is Ok,
        !reference_valid(*reference, media_type@, maximum as nat) ==> (r matches Err(e) && e@
            == "invalid synchronized clipboard blob reference"@),
{
    if reference.size == 0 || reference.size > maximum as u64 || reference.blob_id.len() != 32
        || !bytes_equal(&reference.sha256, &reference.blob_id) || !crate::text::chars_equal(
        &chars_of(reference.media_type.as_str()),
        &chars_of(media_type),
    ) {
        return Err(String::from_str("invalid synchronized clipboard blob reference"));
    }
    Ok(())
}

/// A blob being received chunk by chunk.
pub struct BlobAssembler {
    pub size: u64,
    pub bytes: Vec<u8>,
}

impl BlobAssembler {
    pub fn new(size: u64) -> (a: Self)
        ensures
            a.size == size,
            a.bytes@.len() == 0,
    {
        BlobAssembler { size, bytes: Vec::new() }
    }

    /// Takes the next chunk; `Ok(true)` when it was the last one. Refuses a
    /// chunk out of place, or one that goes past the declared size.
    pub fn accept(&mut self, offset: u64, data: &[u8], end_of_blob: bool) -> (r: Result<bool, String>)
        requires
            old(self).bytes@.len() <= old(self).size,
        ensures
            offset != old(self).bytes@.len() ==> (r matches Err(e) && e@ == "invalid synchronized blob chunk offset"@)
                && final(self).bytes@ == old(self).bytes@,
            offset == old(self).bytes@.len() && old(self).bytes@.len() + data@.len() > old(self).size ==> (r matches Err(e)
                && e@ == "synchronized blob exceeds its declared size"@),
            offset == old(self).bytes@.len() && old(self).bytes@.len() + data@.len() <= old(self).size ==> r
                == Ok::<bool, String>(end_of_blob) && final(self).bytes@ == old(self).bytes@ + data@,
            final(self).size == old(self).size,
            r is Ok ==> final(self).bytes@.len() <= final(self).size,
    {
        if offset != self.bytes.len() as u64 {
            return Err(String::from_str("invalid synchronized blob chunk offset"));
        }
        if data.len() as u64 > self.size - self.bytes.len() as u64 {
            return Err(String::from_str("synchronized blob exceeds its declared size"));
        }
        let mut i: usize = 0;
        let ghost start = self.bytes@;
        while i < data.len()
            invariant
                i <= data@.len(),
                self.bytes@ == start + data@.take(i as int),
                self.size == old(self).size,
                start.len() + data@.len() <= self.size,
            decreases data@.len() - i,
        {
            self.bytes.push(data[i]);
            i = i + 1;
            assert(self.bytes@ =~= start + data@.take(i as int));
        }
        assert(data@.take(data@.len() as int) =~= data@);
        Ok(end_of_blob)
    }

    /// The received blob, when it has its declared size and digest.
    pub fn finish(self, reference: &BlobRef) -> (r: Result<Vec<u8>, String>)
        ensures
            (self.bytes@.len() == reference.size && sha256_of(self.bytes@) == reference.sha256@) ==> r
                == Ok::<Vec<u8>, String>(self.bytes),
            !(self.bytes@.len() == reference.size && sha256_of(self.bytes@) == reference.sha256@) ==> (r matches Err(e)
                && e@ == "synchronized blob integrity check failed"@),
    {
        if self.bytes.len() as u64 != reference.size {
            return Err(String::from_str("synchronized blob integrity check failed"));
        }
        let digest = sha256(self.bytes.as_slice());
        if !bytes_equal(&digest, &reference.sha256) {
            return Err(String::from_str("synchronized blob integrity check failed"));
        }
        Ok(self.bytes)
    }
}

/// The chunks of an upload follow each other without gap or overlap: each
/// one that is not last starts the next where it ends, and the last one ends
/// at the end of the blob and says so.
pub proof fn upload_chunks_tile_the_blob(total: int, chunk: int, k: int)
    requires
        chunk > 0,
        0 < total <= usize::MAX,
        total <= u64::MAX,
        0 <= k,
        k * chunk < total,
    ensures
        (k + 1) * chunk < total ==> chunk_spec(total, chunk, k).offset + chunk_spec(total, chunk, k).len
            == chunk_spec(total, chunk, k + 1).offset && !chunk_spec(total, chunk, k).end_of_upload,
        (k + 1) * chunk >= total ==> chunk_spec(total, chunk, k).offset + chunk_spec(total, chunk, k).len
            == total && chunk_spec(total, chunk, k).end_of_upload,
{
    assert((k + 1) * chunk == k * chunk + chunk) by (nonlinear_arith);
    assert(k * chunk >= 0) by (nonlinear_arith)
        requires
            k >= 0,
            chunk > 0,
    ;
}

/// Receiving the chunks of an upload in order rebuilds the blob: the `k`-th
/// chunk starts where the bytes received so far (the first `k * chunk`
/// bytes of the blob) end, so it is accepted at its place; its bytes extend
/// them to the next prefix of the blob; and it is marked last exactly when
/// that prefix is the whole blob.
pub proof fn chunked_upload_rebuilds_the_blob(blob: Seq<u8>, chunk: int, k: int)
    requires
        chunk > 0,
        0 < blob.len() <= u64::MAX,
        blob.len() <= usize::MAX,
        0 <= k,
        k * chunk < blob.len(),
    ensures
        ({
            let c = chunk_spec(blob.len() as int, chunk, k);
            let received = blob.take(k * chunk);
            &&& c.offset == received.len()
            &&& received + blob.subrange(c.offset as int, c.offset + c.len) == blob.take(c.offset + c.len)
            &&& c.end_of_upload <==> blob.take(c.offset + c.len) == blob
        }),
{
    assert(k * chunk >= 0) by (nonlinear_arith)
        requires
            k >= 0,
            chunk > 0,
    ;
    let c = chunk_spec(blob.len() as int, chunk, k);
    let end = c.offset + c.len;
    assert(c.offset == k * chunk);
    assert(end <= blob.len());
    assert(blob.take(k * chunk) + blob.subrange(c.offset as int, end) =~= blob.take(end));
    if blob.take(end) == blob {
        assert(blob.take(end).len() == blob.len());
    }
    if end == blob.len() {
        assert(blob.take(end) =~= blob);
    }
}

/// The text of a received text blob.
pub fn text_of_blob(bytes: Vec<u8>, media_type: &str) -> (r: Result<String, String>)
    ensures
        vstd::utf8::valid_utf8(bytes@) ==> (r matches Ok(s) && s@ == vstd::utf8::decode_utf8(bytes@)),
        !vstd::utf8::valid_utf8(bytes@) ==> (r matches Err(e) && e@ == "synchronized "@ + media_type@ + " is not UTF-8"@),
{
    match string_from_utf8(bytes) {
        Some(s) => Ok(s),
        None => {
            let mut message = String::from_str("synchronized ");
            message.append(media_type);
            message.append(" is not UTF-8");
            Err(message)
        },
    }
}

/// Kinds of clipboard content.
#[derive(Debug, Clone, Copy, PartialEq, Eq)]
pub enum ClipboardContentKind {
    Text,
    Html,
    Image,
    Files,
}

/// What a record sent to a peer carries besides its metadata.
#[derive(Debug, Clone, Copy, PartialEq, Eq)]
pub enum PayloadPlan {
    /// Metadata only.
    Nothing,
    /// The text itself.
    Text,
    /// The plain text, the HTML uploaded as a blob, and the RTF too when present.
    RichText { with_rtf: bool },
    /// The PNG uploaded as a blob.
    Image,
}

/// What to send of a record: nothing when the payload is not wanted, the
/// record is deleted or holds files; otherwise its content, which must be there.
pub fn payload_plan(
    include_payload: bool,
    deleted: bool,
    kind: ClipboardContentKind,
    has_text: bool,
    has_html: bool,
    has_rtf: bool,
    has_png: bool,
) -> (r: Result<PayloadPlan, String>)
    ensures
        (!include_payload || deleted || kind == ClipboardContentKind::Files) ==> r == Ok::<PayloadPlan, String>(PayloadPlan::Nothing),
        (include_payload && !deleted) ==> match kind {
            ClipboardContentKind::Text => if has_text { r == Ok::<PayloadPlan, String>(PayloadPlan::Text) } else {
                r matches Err(e) && e@ == "local synchronized text content is missing"@
            },
            ClipboardContentKind::Html => if has_html {
                r == Ok::<PayloadPlan, String>(PayloadPlan::RichText { with_rtf: has_rtf })
            } else {
                r matches Err(e) && e@ == "local synchronized HTML content is missing"@
            },
            ClipboardContentKind::Image => if has_png { r == Ok::<PayloadPlan, String>(PayloadPlan::Image) } else {
                r matches Err(e) && e@ == "local synchronized image content is missing"@
            },
            ClipboardContentKind::Files => r == Ok::<PayloadPlan, String>(PayloadPlan::Nothing),
        },
{
    if !include_payload || deleted {
        return Ok(PayloadPlan::Nothing);
    }
    match kind {
        ClipboardContentKind::Text => if has_text {
            Ok(PayloadPlan::Text)
        } else {
            Err(String::from_str("local synchronized text content is missing"))
        },
        ClipboardContentKind::Html => if has_html {
            Ok(PayloadPlan::RichText { with_rtf: has_rtf })
        } else {
            Err(String::from_str("local synchronized HTML content is missing"))
        },
        ClipboardContentKind::Image => if has_png {
            Ok(PayloadPlan::Image)
        } else {
            Err(String::from_str("local synchronized image content is missing"))
        },
        ClipboardContentKind::Files => Ok(PayloadPlan::Nothing),
    }
}

} // verus!
