use vstd::prelude::*;
use vstd::utf8::encode_utf8;
use crate::text::{chars_of, decimal, lemma_leading_exact, leading, owned, push_decimal, string_of, trim, trim_ws};

verus! {

/// The boundary between the parts of a camera's MJPEG stream.
pub const BOUNDARY: &'static str = "frame";

/// The header of one stream part that carries a JPEG of `len` bytes.
pub open spec fn part_header(len: nat) -> Seq<char> {
    "--frame\r\nContent-Type: image/jpeg\r\nContent-Length: "@ + decimal(len) + "\r\n\r\n"@
}

/// One part of the `multipart/x-mixed-replace` stream: its header, the
/// JPEG and a closing line break, as bytes (the header in UTF-8).
pub open spec fn spec_stream_part(frame: Seq<u8>) -> Seq<u8> {
    encode_utf8(part_header(frame.len())) + frame + encode_utf8("\r\n"@)
}

fn push_bytes(v: &mut Vec<u8>, b: &[u8])
    ensures
        final(v)@ == old(v)@ + b@,
{
    let mut i: usize = 0;
    let ghost start = v@;
    while i < b.len()
        invariant
            i <= b@.len(),
            v@ == start + b@.take(i as int),
        decreases b@.len() - i,
    {
        v.push(b[i]);
        i = i + 1;
        assert(v@ =~= start + b@.take(i as int));
    }
    assert(b@.take(b@.len() as int) =~= b@);
}

/// Frames a JPEG as one part of a camera's MJPEG stream.
pub fn stream_part(frame: &[u8]) -> (r: Vec<u8>)
    ensures
        r@ == spec_stream_part(frame@),
{
    let mut header = owned("--frame\r\nContent-Type: image/jpeg\r\nContent-Length: ");
    push_decimal(&mut header, frame.len() as u64);
    header.append("\r\n\r\n");
    let mut r: Vec<u8> = Vec::new();
    push_bytes(&mut r, header.as_str().as_bytes());
    push_bytes(&mut r, frame);
    push_bytes(&mut r, "\r\n".as_bytes());
    r
}

/// The `Content-Type` of a camera stream.
pub open spec fn spec_stream_content_type() -> Seq<char> {
    "multipart/x-mixed-replace; boundary="@ + BOUNDARY@
}

/// The `Content-Type` header value of a camera's MJPEG stream.
pub fn stream_content_type() -> (r: String)
    ensures
        r@ == spec_stream_content_type(),
{
    let mut r = owned("multipart/x-mixed-replace; boundary=");
    r.append(BOUNDARY);
    r
}

pub open spec fn not_comma() -> spec_fn(char) -> bool {
    |c: char| c != ','
}

/// The client address an `X-Forwarded-For` header names first: the text
/// before its first comma, without surrounding white space.
pub open spec fn spec_forwarded_client(header: Seq<char>) -> Seq<char> {
    trim_ws(header.take(leading(header, not_comma()) as int))
}

/// The first entry of an `X-Forwarded-For` header, trimmed; the caller reads
/// it as an address.
pub fn forwarded_client(header: &str) -> (r: String)
    ensures
        r@ == spec_forwarded_client(header@),
{
    let v = chars_of(header);
    let mut k: usize = 0;
    while k < v.len() && v[k] != ','
        invariant
            k <= v.len(),
            v@ == header@,
            forall|j: int| 0 <= j < k ==> v@[j] != ',',
        decreases v.len() - k,
    {
        k = k + 1;
    }
    proof {
        assert forall|j: int| 0 <= j < k implies (not_comma())(#[trigger] v@[j]) by {}
        lemma_leading_exact(v@, not_comma(), k as int);
        assert(v@.subrange(0, k as int) =~= v@.take(k as int));
    }
    let first = string_of(&v, 0, k);
    trim(first.as_str())
}

} // verus!
