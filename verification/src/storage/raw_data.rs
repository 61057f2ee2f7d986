use vstd::prelude::*;
use vstd::utf8::{decode_utf8, valid_utf8};

verus! {

/// An error of a storage operation.
#[derive(Debug)]
pub enum StorageError {
    /// The namespace does not exist, or the operation is not supported on it.
    NoNamespace(String),
    /// The stored bytes are not valid UTF-8.
    InvalidUtf8,
    /// Reading or writing the backing file failed.
    Io(String),
    /// The backing file does not hold a JSON object of byte arrays.
    Json(String),
}

/// A value as stored: a sequence of bytes.
#[derive(Debug, Clone, PartialEq, Eq)]
pub struct RawData {
    bytes: Vec<u8>,
}

impl View for RawData {
    type V = Seq<u8>;

    closed spec fn view(&self) -> Seq<u8> {
        self.bytes@
    }
}

/// `String::from_utf8`: decodes bytes as UTF-8.
///
/// Claimed: the result is `Ok` exactly when the bytes are valid UTF-8 in the
/// sense of `vstd::utf8::valid_utf8`, and then its characters are their decoding.
#[verifier::external_body]
fn string_from_utf8(bytes: Vec<u8>) -> (r: Option<String>)
    ensures
        match r {
            Some(s) => valid_utf8(bytes@) && s@ == decode_utf8(bytes@),
            None => !valid_utf8(bytes@),
        },
{
    String::from_utf8(bytes).ok()
}

impl RawData {
    /// Wraps the given bytes.
    pub fn from_bytes(bytes: Vec<u8>) -> (r: Self)
        ensures
            r@ == bytes@,
    {
        RawData { bytes }
    }

    /// The UTF-8 encoding of a string.
    pub fn from_str(s: &str) -> (r: Self)
        ensures
            r@ == vstd::utf8::encode_utf8(s@),
    {
        RawData { bytes: vstd::slice::slice_to_vec(s.as_bytes()) }
    }

    /// A copy of the bytes.
    pub fn to_bytes(&self) -> (r: Vec<u8>)
        ensures
            r@ == self@,
    {
        let r = self.bytes.clone();
        assert(r@ =~= self.bytes@);
        r
    }

    /// An equal copy of this value.
    pub fn duplicate(&self) -> (r: Self)
        ensures
            r@ == self@,
    {
        RawData { bytes: self.to_bytes() }
    }

    /// The bytes decoded as UTF-8; `InvalidUtf8` when they are not valid UTF-8.
    pub fn to_string(&self) -> (r: Result<String, StorageError>)
        ensures
            match r {
                Ok(s) => valid_utf8(self@) && s@ == decode_utf8(self@),
                Err(e) => !valid_utf8(self@) && e is InvalidUtf8,
            },
    {
        match string_from_utf8(self.to_bytes()) {
            Some(s) => Ok(s),
            None => Err(StorageError::InvalidUtf8),
        }
    }
}

impl From<Vec<u8>> for RawData {
    fn from(bytes: Vec<u8>) -> (r: Self)
        ensures
            r@ == bytes@,
    {
        RawData { bytes }
    }
}

impl vstd::std_specs::convert::FromSpecImpl<Vec<u8>> for RawData {
    open spec fn obeys_from_spec() -> bool {
        true
    }

    closed spec fn from_spec(v: Vec<u8>) -> Self {
        RawData { bytes: v }
    }
}

impl From<String> for RawData {
    fn from(s: String) -> (r: Self)
        ensures
            r@ == vstd::utf8::encode_utf8(s@),
    {
        RawData::from_str(s.as_str())
    }
}

// Two vectors with the same elements need not be equal values in specifications
// (their capacities may differ), so the conversion from a string is described by
// its view, in the `ensures` of `from` above, and not by a `from_spec` value.
impl vstd::std_specs::convert::FromSpecImpl<String> for RawData {
    open spec fn obeys_from_spec() -> bool {
        false
    }

    open spec fn from_spec(v: String) -> Self {
        arbitrary()
    }
}

/// Stored text reads back as the same text: the UTF-8 encoding of a string is
/// valid UTF-8 and decodes to the string.
pub proof fn law_text_round_trip(s: Seq<char>)
    ensures
        valid_utf8(vstd::utf8::encode_utf8(s)),
        decode_utf8(vstd::utf8::encode_utf8(s)) == s,
{
    vstd::utf8::encode_utf8_valid_utf8(s);
    vstd::utf8::encode_utf8_decode_utf8(s);
}

} // verus!
