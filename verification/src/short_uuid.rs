//! A UUID written as 22 characters of URL-safe base64 without padding.

use base64::Engine;
use vstd::prelude::*;

verus! {

/// The URL-safe, unpadded base64 text of a byte string, as the `base64`
/// crate's `URL_SAFE_NO_PAD` engine writes it.
pub uninterp spec fn base64_text(bytes: Seq<u8>) -> Seq<char>;

/// The bytes that a text decodes to under the `URL_SAFE_NO_PAD` engine, or
/// `None` where the engine rejects the text.
pub uninterp spec fn base64_bytes(text: Seq<char>) -> Option<Seq<u8>>;

/// A character of the URL-safe base64 alphabet.
pub open spec fn is_base64_char(c: char) -> bool {
    ('A' <= c <= 'Z') || ('a' <= c <= 'z') || ('0' <= c <= '9') || c == '-' || c == '_'
}

/// Length of the unpadded base64 text of `n` bytes.
pub open spec fn base64_len(n: int) -> int {
    (n / 3) * 4 + if n % 3 == 0 {
        0int
    } else {
        n % 3 + 1
    }
}

/// Calls `Engine::encode` of `base64::prelude::BASE64_URL_SAFE_NO_PAD`.
///
/// Trusted: the result is the named encoding of `bytes`; it decodes back to
/// `bytes`; it has four characters for every three bytes and two or three for
/// a remainder of one or two; and it holds characters of the URL-safe
/// alphabet only. The call panics where that length does not fit in a
/// `usize`, so such inputs are left out.
#[verifier::external_body]
fn base64_encode(bytes: &[u8]) -> (text: String)
    requires
        base64_len(bytes@.len() as int) <= usize::MAX,
    ensures
        text@ == base64_text(bytes@),
        base64_bytes(text@) == Some(bytes@),
        text@.len() == base64_len(bytes@.len() as int),
        forall|i: int| 0 <= i < text@.len() ==> is_base64_char(#[trigger] text@[i]),
{
    base64::prelude::BASE64_URL_SAFE_NO_PAD.encode(bytes)
}

/// Calls `Engine::decode` of `base64::prelude::BASE64_URL_SAFE_NO_PAD`.
///
/// Trusted: the result is the named decoding of `text`, `None` standing for
/// every decode error.
#[verifier::external_body]
fn base64_decode(text: &str) -> (bytes: Option<Vec<u8>>)
    ensures
        match bytes {
            Some(b) => base64_bytes(text@) == Some(b@),
            None => base64_bytes(text@) is None,
        },
{
    base64::prelude::BASE64_URL_SAFE_NO_PAD.decode(text).ok()
}

/// A UUID, held as its sixteen bytes in network order.
#[derive(Debug, Clone, Copy, PartialEq, Eq)]
pub struct ShortUuid(pub [u8; 16]);

impl View for ShortUuid {
    type V = Seq<u8>;

    open spec fn view(&self) -> Seq<u8> {
        self.0@
    }
}

/// The UUID that a text stands for: the text must decode to exactly
/// sixteen bytes.
pub open spec fn short_uuid_of_text(text: Seq<char>) -> Option<Seq<u8>> {
    match base64_bytes(text) {
        Some(bytes) => if bytes.len() == 16 {
            Some(bytes)
        } else {
            None
        },
        None => None,
    }
}

impl ShortUuid {
    /// The UUID made of `bytes`, if there are sixteen of them.
    pub fn from_slice(bytes: &[u8]) -> (uuid: Option<ShortUuid>)
        ensures
            uuid is Some <==> bytes@.len() == 16,
            uuid matches Some(u) ==> u@ == bytes@,
    {
        if bytes.len() != 16 {
            return None;
        }
        let mut raw: [u8; 16] = [0u8; 16];
        let mut i: usize = 0;
        while i < 16
            invariant
                i <= 16,
                bytes@.len() == 16,
                forall|j: int| 0 <= j < i ==> raw@[j] == bytes@[j],
            decreases 16 - i,
        {
            raw[i] = bytes[i];
            i = i + 1;
        }
        assert(raw@ =~= bytes@);
        Some(ShortUuid(raw))
    }

    /// The text of this UUID: 22 characters of the URL-safe alphabet.
    pub fn to_text(&self) -> (text: String)
        ensures
            text@ == base64_text(self@),
            short_uuid_of_text(text@) == Some(self@),
            text@.len() == 22,
            forall|i: int| 0 <= i < text@.len() ==> is_base64_char(#[trigger] text@[i]),
    {
        base64_encode(self.0.as_slice())
    }

    /// Reads a UUID from its text.
    pub fn try_from(value: &str) -> (uuid: Option<ShortUuid>)
        ensures
            uuid is Some <==> short_uuid_of_text(value@) is Some,
            uuid matches Some(u) ==> short_uuid_of_text(value@) == Some(u@),
    {
        match base64_decode(value) {
            Some(bytes) => ShortUuid::from_slice(bytes.as_slice()),
            None => None,
        }
    }

    /// Whether two UUIDs hold the same bytes.
    pub fn same(&self, other: &ShortUuid) -> (eq: bool)
        ensures
            eq == (self@ == other@),
    {
        let mut i: usize = 0;
        while i < 16
            invariant
                i <= 16,
                forall|j: int| 0 <= j < i ==> self.0@[j] == other.0@[j],
            decreases 16 - i,
        {
            if self.0[i] != other.0[i] {
                return false;
            }
            i = i + 1;
        }
        assert(self.0@ =~= other.0@);
        true
    }
}

} // verus!
