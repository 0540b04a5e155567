//! Universally unique identifiers, held as their sixteen bytes. The uuid crate
//! mints, parses and renders them.

use crate::text;
use vstd::prelude::*;

verus! {

/// A universally unique identifier, as its bytes.
#[derive(Clone, Copy, Debug, PartialEq, Eq, PartialOrd, Ord, Hash)]
pub struct Uuid {
    pub bytes: [u8; 16],
}

/// Whether sixteen bytes carry version 7 and the RFC 4122 variant.
pub open spec fn is_version_7(bytes: Seq<u8>) -> bool {
    &&& bytes.len() == 16
    &&& bytes[6] / 16 == 7
    &&& bytes[8] / 64 == 2
}

/// The hyphenated form of sixteen bytes: groups of 4, 2, 2, 2 and 6.
pub open spec fn uuid_text(bytes: Seq<u8>) -> Seq<char> {
    text::hex(bytes.subrange(0, 4)) + "-"@ + text::hex(bytes.subrange(4, 6)) + "-"@ + text::hex(
        bytes.subrange(6, 8),
    ) + "-"@ + text::hex(bytes.subrange(8, 10)) + "-"@ + text::hex(bytes.subrange(10, 16))
}

/// What `Uuid::parse_str` of the uuid crate makes of a string: the sixteen
/// bytes, or the text of the error.
pub uninterp spec fn parsed_uuid(s: Seq<char>) -> Result<Seq<u8>, Seq<char>>;

/// `Uuid::now_v7` of the uuid crate. The bytes rest on the clock and on chance;
/// every outcome carries version 7 and the RFC 4122 variant.
#[verifier::external_body]
fn uuid_now_v7() -> (r: [u8; 16])
    ensures
        is_version_7(r@),
{
    uuid::Uuid::now_v7().into_bytes()
}

/// `Uuid::parse_str` of the uuid crate. What it answers is named, not
/// described.
#[verifier::external_body]
fn uuid_parse_str(s: &str) -> (r: Result<[u8; 16], String>)
    ensures
        match r {
            Ok(bytes) => (parsed_uuid(s@) matches Ok(b) && b == bytes@),
            Err(e) => (parsed_uuid(s@) matches Err(t) && t == e@),
        },
{
    match uuid::Uuid::parse_str(s) {
        Ok(id) => Ok(id.into_bytes()),
        Err(e) => Err(e.to_string()),
    }
}

/// The `Display` of the uuid crate's `Uuid`: the hyphenated form, which
/// `Uuid::parse_str` reads back as the same bytes.
#[verifier::external_body]
fn uuid_display(bytes: [u8; 16]) -> (r: String)
    ensures
        r@ == uuid_text(bytes@),
        parsed_uuid(r@) is Ok,
        parsed_uuid(r@)->Ok_0 == bytes@,
{
    uuid::Uuid::from_bytes(bytes).to_string()
}

impl Uuid {
    /// A new identifier, version 7.
    pub fn now_v7() -> (r: Uuid)
        ensures
            is_version_7(r.bytes@),
    {
        Uuid { bytes: uuid_now_v7() }
    }

    /// The identifier with these bytes.
    pub fn from_bytes(bytes: [u8; 16]) -> (r: Uuid)
        ensures
            r.bytes == bytes,
    {
        Uuid { bytes }
    }

    /// The identifier that a string denotes, or why it denotes none.
    pub fn parse_str(s: &str) -> (r: Result<Uuid, String>)
        ensures
            match r {
                Ok(id) => (parsed_uuid(s@) matches Ok(b) && b == id.bytes@),
                Err(e) => (parsed_uuid(s@) matches Err(t) && t == e@),
            },
    {
        match uuid_parse_str(s) {
            Ok(bytes) => Ok(Uuid { bytes }),
            Err(e) => Err(e),
        }
    }

    /// The hyphenated form, which [`Uuid::parse_str`] reads back.
    pub fn to_string(&self) -> (r: String)
        ensures
            r@ == uuid_text(self.bytes@),
            parsed_uuid(r@) is Ok,
            parsed_uuid(r@)->Ok_0 == self.bytes@,
    {
        uuid_display(self.bytes)
    }
}

} // verus!
