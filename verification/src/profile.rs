//! Profile identifiers: the key under which clients subscribe.

use crate::error::{AppError, AppErrorView};
use crate::short_uuid::{base64_text, is_base64_char, short_uuid_of_text, ShortUuid};
use crate::text::{chars_of, push_char};
use vstd::prelude::*;
use vstd::string::StringExecFns;

verus! {

/// Identifies one profile.
#[derive(Debug, PartialEq, Eq)]
pub enum ProfileId {
    /// A 6-character alphanumeric string.
    Short(String),
    /// A base64-encoded UUID, kept for profiles made before short codes.
    Legacy(ShortUuid),
}

/// Mathematical model of a [`ProfileId`].
pub enum ProfileIdView {
    Short(Seq<char>),
    Legacy(Seq<u8>),
}

impl View for ProfileId {
    type V = ProfileIdView;

    open spec fn view(&self) -> ProfileIdView {
        match *self {
            ProfileId::Short(code) => ProfileIdView::Short(code@),
            ProfileId::Legacy(uuid) => ProfileIdView::Legacy(uuid@),
        }
    }
}

/// An ASCII letter or digit.
pub open spec fn is_alphanumeric(c: char) -> bool {
    ('A' <= c <= 'Z') || ('a' <= c <= 'z') || ('0' <= c <= '9')
}

/// Exactly six ASCII letters or digits.
pub open spec fn is_short_code(text: Seq<char>) -> bool {
    text.len() == 6 && forall|i: int| 0 <= i < text.len() ==> is_alphanumeric(#[trigger] text[i])
}

/// A well-formed identifier: a short code is six letters or digits, a legacy
/// identifier is sixteen bytes.
pub open spec fn valid_id(id: ProfileIdView) -> bool {
    match id {
        ProfileIdView::Short(code) => is_short_code(code),
        ProfileIdView::Legacy(bytes) => bytes.len() == 16,
    }
}

/// The text of an identifier, as it appears in URLs, channel names and
/// messages.
pub open spec fn id_text(id: ProfileIdView) -> Seq<char> {
    match id {
        ProfileIdView::Short(code) => code,
        ProfileIdView::Legacy(bytes) => base64_text(bytes),
    }
}

/// The identifier that a text stands for. A short code is tried first.
pub open spec fn parse_id(text: Seq<char>) -> Option<ProfileIdView> {
    if is_short_code(text) {
        Some(ProfileIdView::Short(text))
    } else {
        match short_uuid_of_text(text) {
            Some(bytes) => Some(ProfileIdView::Legacy(bytes)),
            None => None,
        }
    }
}

/// The reason given when a text is no identifier.
pub open spec fn invalid_id_reason(text: Seq<char>) -> Seq<char> {
    "Invalid profile id: "@ + text
        + ". Must be a base-64 encoded UUID or a 6-character alphanumeric string."@
}

/// Whether `c` is an ASCII letter or digit.
pub fn char_is_alphanumeric(c: char) -> (yes: bool)
    ensures
        yes == is_alphanumeric(c),
{
    ('A' <= c && c <= 'Z') || ('a' <= c && c <= 'z') || ('0' <= c && c <= '9')
}

/// Whether `text` is six ASCII letters or digits.
pub fn text_is_short_code(text: &str) -> (yes: bool)
    ensures
        yes == is_short_code(text@),
{
    let chars = chars_of(text);
    if chars.len() != 6 {
        return false;
    }
    let mut i: usize = 0;
    while i < 6
        invariant
            i <= 6,
            chars@.len() == 6,
            chars@ == text@,
            forall|j: int| 0 <= j < i ==> is_alphanumeric(#[trigger] chars@[j]),
        decreases 6 - i,
    {
        if !char_is_alphanumeric(chars[i]) {
            return false;
        }
        i = i + 1;
    }
    true
}

/// An upper-case ASCII letter or a digit.
pub open spec fn is_code_char(c: char) -> bool {
    ('A' <= c <= 'Z') || ('0' <= c <= '9')
}

/// The character that a random alphanumeric byte gives in a new short code:
/// itself, in upper case.
pub open spec fn code_char(byte: u8) -> char {
    if 'a' as u8 <= byte <= 'z' as u8 {
        (byte - 32) as char
    } else {
        byte as char
    }
}

/// Whether `rustrict` finds a text inappropriate.
pub uninterp spec fn rustrict_inappropriate(text: Seq<char>) -> bool;

/// Calls `rand::Rng::sample` with `rand::distr::Alphanumeric` on the
/// thread's generator.
///
/// Trusted: the byte is an ASCII letter or digit. Which one is random.
#[verifier::external_body]
fn random_alphanumeric() -> (byte: u8)
    ensures
        is_alphanumeric(byte as char),
{
    rand::Rng::sample(&mut rand::rng(), rand::distr::Alphanumeric)
}

/// Calls `rustrict::CensorStr::is_inappropriate`.
///
/// Trusted: the result is the named verdict on `text`.
#[verifier::external_body]
fn is_inappropriate(text: &str) -> (yes: bool)
    ensures
        yes == rustrict_inappropriate(text@),
{
    rustrict::CensorStr::is_inappropriate(text)
}

/// The code spelled by six bytes. Alphanumeric bytes spell a short code of
/// upper-case letters and digits.
pub fn code_from_bytes(bytes: &[u8; 6]) -> (code: String)
    ensures
        code@ == spelled(bytes@),
        (forall|i: int| 0 <= i < 6 ==> is_alphanumeric(#[trigger] bytes@[i] as char)) ==> is_short_code(
            code@,
        ) && forall|i: int| 0 <= i < 6 ==> is_code_char(#[trigger] code@[i]),
{
    let mut code = String::new();
    let mut i: usize = 0;
    while i < 6
        invariant
            i <= 6,
            code@.len() == i,
            forall|j: int| 0 <= j < i ==> code@[j] == code_char(#[trigger] bytes@[j]),
        decreases 6 - i,
    {
        let byte = bytes[i];
        let c = if 97 <= byte && byte <= 122 {
            (byte - 32) as char
        } else {
            byte as char
        };
        push_char(&mut code, c);
        i = i + 1;
    }
    assert(code@ =~= spelled(bytes@));
    proof {
        if forall|i: int| 0 <= i < 6 ==> is_alphanumeric(#[trigger] bytes@[i] as char) {
            assert forall|j: int| 0 <= j < 6 implies is_code_char(#[trigger] code@[j])
                && is_alphanumeric(code@[j]) by {
                assert(is_alphanumeric(bytes@[j] as char));
                assert(code@[j] == code_char(bytes@[j]));
            }
        }
    }
    code
}

/// What becomes of a freshly drawn code: it is dropped when it is
/// inappropriate or already names a profile, and is the new profile's
/// identifier otherwise.
pub fn accept_code(code: String, inappropriate: bool, taken: bool) -> (id: Option<ProfileId>)
    ensures
        id is Some <==> !inappropriate && !taken,
        id matches Some(found) ==> found@ == ProfileIdView::Short(code@),
{
    if inappropriate || taken {
        None
    } else {
        Some(ProfileId::Short(code))
    }
}

/// What screening makes of a code: nothing when the code is inappropriate,
/// the code itself otherwise.
pub open spec fn screened(code: Seq<char>) -> Option<Seq<char>> {
    if rustrict_inappropriate(code) {
        None
    } else {
        Some(code)
    }
}

/// The code that six bytes spell.
pub open spec fn spelled(bytes: Seq<u8>) -> Seq<char> {
    Seq::new(6, |i: int| code_char(bytes[i]))
}

/// Six bytes, each an ASCII letter or digit.
pub open spec fn alphanumeric_bytes(bytes: Seq<u8>) -> bool {
    bytes.len() == 6 && forall|i: int| 0 <= i < 6 ==> is_alphanumeric(#[trigger] bytes[i] as char)
}

pub open spec fn code_view(code: Option<String>) -> Option<Seq<char>> {
    match code {
        Some(text) => Some(text@),
        None => None,
    }
}

/// Screens a code for a new profile: `None` exactly when the code is
/// inappropriate.
pub fn screen_code(code: String) -> (kept: Option<String>)
    ensures
        code_view(kept) == screened(code@),
{
    if is_inappropriate(code.as_str()) {
        None
    } else {
        Some(code)
    }
}

/// Draws a code for a new profile: six random alphanumeric bytes are
/// spelled in upper case and the code is screened. `None` when the draw is
/// inappropriate; the caller draws again, as it does when the code is
/// taken.
pub fn draw_code() -> (code: Option<String>)
    ensures
        exists|bytes: Seq<u8>|
            alphanumeric_bytes(bytes) && code_view(code) == screened(#[trigger] spelled(bytes)),
        code matches Some(text) ==> {
            &&& is_short_code(text@)
            &&& forall|i: int| 0 <= i < 6 ==> is_code_char(#[trigger] text@[i])
            &&& !rustrict_inappropriate(text@)
        },
{
    let mut bytes: [u8; 6] = [48u8; 6];
    let mut i: usize = 0;
    while i < 6
        invariant
            i <= 6,
            forall|j: int| 0 <= j < i ==> is_alphanumeric(#[trigger] bytes@[j] as char),
            forall|j: int| i <= j < 6 ==> (#[trigger] bytes@[j]) == 48u8,
        decreases 6 - i,
    {
        bytes[i] = random_alphanumeric();
        i = i + 1;
    }
    let spelling = code_from_bytes(&bytes);
    let code = screen_code(spelling);
    proof {
        assert(alphanumeric_bytes(bytes@));
        assert(spelling@ == spelled(bytes@));
        assert(code_view(code) == screened(spelled(bytes@)));
    }
    code
}

/// Where the archive behind a profile's code is downloaded from.
pub open spec fn download_url_of(code: Seq<char>) -> Seq<char> {
    "https://thunderstore.io/api/experimental/legacyprofile/get/"@ + code + "/"@
}

/// The download URL of a profile, given its code in the archive store. A
/// profile without a code cannot be served: that is an internal error.
pub fn download_url(code: Option<&str>) -> (url: Result<String, AppError>)
    ensures
        match code {
            Some(text) => url matches Ok(found) && found@ == download_url_of(text@),
            None => url matches Err(err) && err@ == AppErrorView::Internal,
        },
{
    match code {
        Some(text) => Ok(
            String::from_str("https://thunderstore.io/api/experimental/legacyprofile/get/").concat(
                text,
            ).concat("/"),
        ),
        None => Err(AppError::Internal),
    }
}

impl Clone for ProfileId {
    fn clone(&self) -> (copy: ProfileId)
        ensures
            copy@ == self@,
    {
        match self {
            ProfileId::Short(code) => ProfileId::Short(code.clone()),
            ProfileId::Legacy(uuid) => ProfileId::Legacy(*uuid),
        }
    }
}

impl ProfileId {
    /// See [`valid_id`].
    pub open spec fn wf(&self) -> bool {
        valid_id(self@)
    }

    /// The text of this identifier. For a well-formed identifier the text
    /// reads back as the identifier, holds no `:` and is not empty.
    pub fn as_str(&self) -> (text: String)
        ensures
            text@ == id_text(self@),
            self.wf() ==> parse_id(text@) == Some(self@),
            self.wf() ==> forall|i: int| 0 <= i < text@.len() ==> is_base64_char(#[trigger] text@[i]),
            self.wf() ==> text@.len() > 0,
    {
        match self {
            ProfileId::Short(code) => {
                let text = code.clone();
                assert(self.wf() ==> forall|i: int|
                    0 <= i < text@.len() ==> is_alphanumeric(text@[i]) && is_base64_char(
                        #[trigger] text@[i],
                    ));
                text
            },
            ProfileId::Legacy(uuid) => {
                let text = uuid.to_text();
                assert(!is_short_code(text@));
                text
            },
        }
    }

    /// Reads an identifier from its text: six letters or digits make a short
    /// code, the base64 text of sixteen bytes makes a legacy identifier, and
    /// anything else is a bad request.
    pub fn try_from(value: String) -> (parsed: Result<ProfileId, AppError>)
        ensures
            match parsed {
                Ok(id) => parse_id(value@) == Some(id@) && id.wf(),
                Err(err) => parse_id(value@) is None && err@ == (AppErrorView::BadRequest {
                    reason: Some(invalid_id_reason(value@)),
                }),
            },
    {
        if text_is_short_code(value.as_str()) {
            return Ok(ProfileId::Short(value));
        }
        match ShortUuid::try_from(value.as_str()) {
            Some(uuid) => Ok(ProfileId::Legacy(uuid)),
            None => {
                let reason = String::from_str("Invalid profile id: ").concat(
                    value.as_str(),
                ).concat(
                    ". Must be a base-64 encoded UUID or a 6-character alphanumeric string.",
                );
                Err(AppError::bad_request(reason))
            },
        }
    }

    /// Whether two identifiers are the same.
    pub fn same(&self, other: &ProfileId) -> (eq: bool)
        ensures
            eq == (self@ == other@),
    {
        match self {
            ProfileId::Short(a) => match other {
                ProfileId::Short(b) => {
                    let eq = *a == *b;
                    assert(eq == (a@ == b@));
                    eq
                },
                ProfileId::Legacy(_) => false,
            },
            ProfileId::Legacy(a) => match other {
                ProfileId::Short(_) => false,
                ProfileId::Legacy(b) => a.same(b),
            },
        }
    }
}

} // verus!
