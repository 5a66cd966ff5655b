//! The 128-bit identifier of a user or a session.

use vstd::prelude::*;
use vstd::utf8::encode_utf8;
use vstd::std_specs::convert::FromSpecImpl;

verus! {

/// The hyphenated lower-case notation of the identifier with these sixteen
/// bytes, as the `uuid` crate writes it.
pub uninterp spec fn uuid_text(bytes: Seq<u8>) -> Seq<char>;

/// Whether these are the bytes of a random identifier: the version, in the
/// upper half of the seventh byte, is four, and the variant, in the two upper
/// bits of the ninth byte, is the standard one. The other 122 bits are free.
pub open spec fn random_version(bytes: Seq<u8>) -> bool {
    &&& bytes.len() == 16
    &&& bytes[6] & 0xf0 == 0x40
    &&& bytes[8] & 0xc0 == 0x80
}

/// Draws a random identifier with `uuid::Uuid::new_v4` and takes its bytes.
/// Trusted: the bytes carry version and variant of a random identifier.
/// Nothing is claimed of the other bits: two draws may or may not differ.
#[verifier::external_body]
fn random_bytes() -> (r: [u8; 16])
    ensures
        random_version(r@),
{
    uuid::Uuid::new_v4().into_bytes()
}

/// Formats the bytes with `uuid::Uuid::from_bytes` and the `Display` of the
/// result. Trusted: the text is the one named by [`uuid_text`].
#[verifier::external_body]
fn hyphenated(bytes: &[u8; 16]) -> (r: String)
    ensures
        r@ == uuid_text(bytes@),
{
    uuid::Uuid::from_bytes(*bytes).to_string()
}

/// An identifier, as its sixteen bytes.
#[derive(Debug, Clone, Copy)]
pub struct Uuid(pub [u8; 16]);

impl View for Uuid {
    type V = Seq<u8>;

    open spec fn view(&self) -> Seq<u8> {
        self.0@
    }
}

impl Uuid {
    /// Takes the sixteen bytes of an identifier.
    pub fn parse(bytes: [u8; 16]) -> (r: Self)
        ensures
            r@ == bytes@,
    {
        Uuid(bytes)
    }

    /// A fresh random identifier: its bytes are drawn at random, but for the
    /// bits that mark it as a random identifier.
    pub fn generate() -> (r: Self)
        ensures
            random_version(r@),
    {
        Self::parse(random_bytes())
    }

    /// The identifier in hyphenated notation.
    pub fn to_text(&self) -> (r: String)
        ensures
            r@ == uuid_text(self@),
    {
        hyphenated(&self.0)
    }

    /// Takes sixteen bytes as an identifier.
    pub fn from_slice(bytes: &[u8]) -> (r: Self)
        requires
            bytes@.len() == 16,
        ensures
            r@ == bytes@,
    {
        let mut taken = [0u8;16];
        let mut i: usize = 0;
        while i < 16
            invariant
                i <= 16,
                bytes@.len() == 16,
                forall|j: int| 0 <= j < i ==> taken@[j] == bytes@[j],
            decreases 16 - i,
        {
            taken[i] = bytes[i];
            i = i + 1;
        }
        assert(taken@ =~= bytes@);
        Uuid(taken)
    }

    /// Takes the sixteen bytes of `value` as an identifier.
    pub fn from_vec(value: Vec<u8>) -> (r: Self)
        requires
            value@.len() == 16,
        ensures
            r@ == value@,
    {
        Self::from_slice(value.as_slice())
    }

    /// Takes the bytes of a text of sixteen bytes as an identifier.
    pub fn from_string(value: String) -> (r: Self)
        requires
            encode_utf8(value@).len() == 16,
        ensures
            r@ == encode_utf8(value@),
    {
        Self::from_slice(value.as_str().as_bytes())
    }

    /// The sixteen bytes.
    pub fn into_bytes(self) -> (r: [u8; 16])
        ensures
            r@ == self@,
    {
        self.0
    }
}

impl From<[u8; 16]> for Uuid {
    fn from(value: [u8; 16]) -> (r: Uuid) {
        Uuid(value)
    }
}

impl FromSpecImpl<[u8; 16]> for Uuid {
    open spec fn obeys_from_spec() -> bool {
        true
    }

    open spec fn from_spec(value: [u8; 16]) -> Uuid {
        Uuid(value)
    }
}

} // verus!
