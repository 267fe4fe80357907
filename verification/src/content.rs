//! Content classification: sniff a MIME type from the bytes themselves, and
//! fall back on the declared `Content-Type` header, the `"error"` marker, or
//! the `"none"` marker. Best-effort, for display and handling hints only.

use vstd::prelude::*;
use crate::headers::decoded_header;

verus! {

/// The MIME type that byte-content sniffing detects, if any. Sniffing is a
/// pure function of the bytes (magic-number matching), so its result carries
/// a name rather than a spelled-out table of signatures.
pub uninterp spec fn sniffed_mime(bytes: Seq<u8>) -> Option<Seq<char>>;

/// Relies on `infer::get`: magic-number detection over the raw bytes, a pure
/// function of the bytes alone; `Type::mime_type` is the detected type's
/// canonical MIME string.
#[verifier::external_body]
fn sniff_mime(value: &[u8]) -> (r: Option<String>)
    ensures
        r matches Some(s) ==> sniffed_mime(value@) == Some(s@),
        r is None ==> sniffed_mime(value@) is None,
{
    infer::get(value).map(|t| String::from(t.mime_type()))
}

/// The content type recorded for a secret: the sniffed MIME type when the
/// bytes are recognizable; otherwise the declared `Content-Type` header
/// (degrading to `"error"` when undecodable); otherwise the marker `"none"`.
pub open spec fn content_type_of(value: Seq<u8>, ct_header: Option<Seq<u8>>) -> Seq<char> {
    match sniffed_mime(value) {
        Some(m) => m,
        None => match ct_header {
            Some(bytes) => decoded_header(bytes),
            None => "none"@,
        },
    }
}

/// Classify the payload, consulting the declared `Content-Type` header only
/// when sniffing detects nothing.
pub fn classify_content(value: &[u8], ct_header: &Option<Vec<u8>>) -> (r: String)
    ensures
        r@ == content_type_of(value@, ct_header.deep_view()),
{
    match sniff_mime(value) {
        Some(m) => m,
        None => match ct_header {
            Some(bytes) => {
                let s = crate::headers::decode_header_value(bytes.as_slice());
                proof {
                    assert(bytes.deep_view() =~= bytes@);
                }
                s
            },
            None => String::from_str("none"),
        },
    }
}

} // verus!
