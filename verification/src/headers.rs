//! Request headers as the library sees them, and their decoding.
//!
//! A header value arrives as raw bytes. It decodes to a string exactly when
//! every byte is visible ASCII (or a tab), the same condition the HTTP layer
//! applies; anything else degrades to the literal marker `"error"`, and an
//! absent header stays absent.

use vstd::prelude::*;

verus! {

/// The headers the creation step reads, each as the raw bytes of the header
/// value, or `None` where the request did not carry the header.
pub struct RequestHeaders {
    pub content_type: Option<Vec<u8>>,
    pub user_agent: Option<Vec<u8>>,
    pub x_forwarded_for: Option<Vec<u8>>,
}

impl RequestHeaders {
    /// A header map with none of the three headers present.
    pub fn empty() -> (r: RequestHeaders)
        ensures
            r.content_type is None,
            r.user_agent is None,
            r.x_forwarded_for is None,
    {
        RequestHeaders { content_type: None, user_agent: None, x_forwarded_for: None }
    }
}

/// A byte a header value may hold and still count as text: visible ASCII,
/// space, or tab.
pub open spec fn is_header_byte(b: u8) -> bool {
    (32 <= b < 127) || b == 9
}

/// True when the whole header value counts as text.
pub open spec fn is_header_text(bytes: Seq<u8>) -> bool {
    forall|i: int| 0 <= i < bytes.len() ==> is_header_byte(#[trigger] bytes[i])
}

/// What a present header value decodes to: its bytes read as characters when
/// they all count as text, and the literal marker `"error"` otherwise.
pub open spec fn decoded_header(bytes: Seq<u8>) -> Seq<char> {
    if is_header_text(bytes) {
        bytes.map_values(|b: u8| b as char)
    } else {
        "error"@
    }
}

/// What an optional header decodes to: absent stays absent.
pub open spec fn captured_header(h: Option<Seq<u8>>) -> Option<Seq<char>> {
    match h {
        Some(bytes) => Some(decoded_header(bytes)),
        None => None,
    }
}

/// Relies on `String::from_utf8`: bytes below 0x80 are valid UTF-8 and decode
/// to exactly one character per byte, with the same code.
#[verifier::external_body]
fn ascii_to_string(v: &[u8]) -> (r: String)
    requires
        forall|i: int| 0 <= i < v@.len() ==> v@[i] < 0x80,
    ensures
        r@ == v@.map_values(|b: u8| b as char),
{
    String::from_utf8(v.to_vec()).unwrap()
}

/// Decode one present header value, substituting the `"error"` marker where
/// the bytes are not header text.
pub fn decode_header_value(v: &[u8]) -> (r: String)
    ensures
        r@ == decoded_header(v@),
{
    let mut i: usize = 0;
    while i < v.len()
        invariant
            0 <= i <= v@.len(),
            forall|j: int| 0 <= j < i ==> is_header_byte(#[trigger] v@[j]),
        decreases v@.len() - i,
    {
        let b = v[i];
        if !((32 <= b && b < 127) || b == 9) {
            assert(!is_header_text(v@));
            return String::from_str("error");
        }
        i = i + 1;
    }
    assert(is_header_text(v@));
    ascii_to_string(v)
}

/// Decode an optional header: absent headers stay absent, present ones decode
/// as above.
pub fn capture_header(h: &Option<Vec<u8>>) -> (r: Option<String>)
    ensures
        r.deep_view() == captured_header(h.deep_view()),
{
    match h {
        Some(v) => {
            let s = decode_header_value(v.as_slice());
            proof {
                assert(v.deep_view() =~= v@);
            }
            Some(s)
        },
        None => None,
    }
}

} // verus!
