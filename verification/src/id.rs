//! Session identifiers and their text form.

use vstd::prelude::*;

verus! {

/// Identifies one upload session. The number is the 128-bit value of the
/// session's UUID.
#[derive(Clone, Copy, Debug, PartialEq, Eq, Structural, Hash)]
pub struct SessionId(pub u128);

/// `uuid::Error`, the error of `uuid::Uuid::parse_str`. Opaque: only its
/// presence is looked at.
#[verifier::external_type_specification]
#[verifier::external_body]
pub struct ExUuidError(uuid::Error);

/// The text that `uuid` prints for the UUID with the given 128-bit value:
/// what `Display` of `uuid::Uuid` writes for `Uuid::from_u128(raw)`.
pub uninterp spec fn uuid_text(raw: u128) -> Seq<char>;

/// The 128-bit value that `uuid::Uuid::parse_str` reads from a text, if it
/// accepts the text.
pub uninterp spec fn uuid_parse(text: Seq<char>) -> Option<u128>;

/// Calls `Display` of `uuid::Uuid` on `Uuid::from_u128(raw)`. Trusted: the
/// result is the text named `uuid_text(raw)`; nothing is claimed of its shape.
#[verifier::external_body]
fn print_uuid(raw: u128) -> (text: String)
    ensures
        text@ == uuid_text(raw),
{
    uuid::Uuid::from_u128(raw).to_string()
}

/// Calls `uuid::Uuid::parse_str` and hands back the value of the UUID it
/// read. Trusted: success and the value are those named by `uuid_parse`.
#[verifier::external_body]
fn parse_uuid(text: &str) -> (parsed: Result<u128, uuid::Error>)
    ensures
        match parsed {
            Ok(raw) => uuid_parse(text@) == Some(raw),
            Err(_) => uuid_parse(text@) is None,
        },
{
    uuid::Uuid::parse_str(text).map(|u| u.as_u128())
}

/// The version field of the UUID with the given 128-bit value: the high
/// four bits of its seventh byte.
pub open spec fn uuid_version(raw: u128) -> u128 {
    (raw >> 76) & 0xf
}

/// The variant field of the UUID with the given 128-bit value: the high two
/// bits of its ninth byte.
pub open spec fn uuid_variant(raw: u128) -> u128 {
    (raw >> 62) & 0x3
}

/// Calls `uuid::Uuid::now_v7`, which draws on the clock and on random bits.
/// Trusted: the UUID has the version 7 and the variant of RFC 4122 (binary
/// 10), which `uuid` writes into every UUID it makes this way. Nothing is
/// claimed of the other bits.
#[verifier::external_body]
fn draw_v7() -> (raw: u128)
    ensures
        uuid_version(raw) == 7,
        uuid_variant(raw) == 2,
{
    uuid::Uuid::now_v7().as_u128()
}

/// Calls `uuid::Uuid::new_v4`, which draws random bits. Trusted: the UUID
/// has the version 4 and the variant of RFC 4122 (binary 10), which `uuid`
/// writes over the random bits. Nothing is claimed of the other bits.
#[verifier::external_body]
fn draw_v4() -> (raw: u128)
    ensures
        uuid_version(raw) == 4,
        uuid_variant(raw) == 2,
{
    uuid::Uuid::new_v4().as_u128()
}

impl SessionId {
    /// The text form of the identifier, as clients see it.
    pub open spec fn text(self) -> Seq<char> {
        uuid_text(self.0)
    }

    /// The identifier that a text stands for, if it stands for one.
    pub open spec fn read(text: Seq<char>) -> Option<SessionId> {
        match uuid_parse(text) {
            Some(raw) => Some(SessionId(raw)),
            None => None,
        }
    }

    /// The text form of the identifier.
    pub fn to_text(&self) -> (text: String)
        ensures
            text@ == self.text(),
    {
        print_uuid(self.0)
    }

    /// Reads an identifier from its text form. A text that is no UUID gives
    /// `None`.
    pub fn parse(text: &str) -> (id: Option<SessionId>)
        ensures
            id == SessionId::read(text@),
    {
        match parse_uuid(text) {
            Ok(raw) => Some(SessionId(raw)),
            Err(_) => None,
        }
    }

    /// The path of the session's destination file.
    pub open spec fn path(self) -> Seq<char> {
        "./data/"@ + self.text()
    }

    /// The path of the session's destination file: a fixed directory and
    /// the text form of the id.
    pub fn destination(&self) -> (path: String)
        ensures
            path@ == self.path(),
    {
        let text = self.to_text();
        "./data/".to_owned().concat(text.as_str())
    }

    /// The version of the identifier's UUID.
    pub open spec fn version(self) -> u128 {
        uuid_version(self.0)
    }

    /// Whether the identifier's UUID has the layout of RFC 4122.
    pub open spec fn is_rfc4122(self) -> bool {
        uuid_variant(self.0) == 2
    }

    /// A new time-ordered identifier: a UUID of version 7, made of the
    /// current time and random bits.
    pub fn generate() -> (id: SessionId)
        ensures
            id.version() == 7,
            id.is_rfc4122(),
    {
        SessionId(draw_v7())
    }

    /// A new random identifier: a UUID of version 4. It is used to
    /// correlate a log entry with an error response.
    pub fn random() -> (id: SessionId)
        ensures
            id.version() == 4,
            id.is_rfc4122(),
    {
        SessionId(draw_v4())
    }
}

} // verus!
