//! Keys as they appear in configuration: base64 text of 32 raw bytes.
use vstd::prelude::*;

verus! {

/// A WireGuard key: 32 raw bytes.
pub type WgKey = [u8; 32];

/// Whether two keys are the same bytes.
pub fn keys_equal(a: &WgKey, b: &WgKey) -> (r: bool)
    ensures
        r == (*a == *b),
{
    let mut i: usize = 0;
    while i < 32
        invariant
            i <= 32,
            forall|j: int| 0 <= j < i ==> #[trigger] a@[j] == b@[j],
        decreases 32 - i,
    {
        if a[i] != b[i] {
            return false;
        }
        i = i + 1;
    }
    assert(*a =~= *b);
    true
}

#[verifier::external_type_specification]
#[verifier::external_body]
pub struct ExDecodeError(base64::DecodeError);

/// What the standard base64 alphabet (with padding) decodes `s` to, or
/// `None` where `s` is not valid base64.
pub uninterp spec fn base64_decoded(s: Seq<char>) -> Option<Seq<u8>>;

/// Relies on base64::decode (standard alphabet): the decoded bytes, or an
/// error where the text is not valid base64. It depends on the text alone,
/// and panics only where the text's length plus 3 overflows `usize`, which
/// no string reaches.
#[verifier::external_body]
fn decode_base64(s: &str) -> (r: Result<Vec<u8>, base64::DecodeError>)
    ensures
        r is Ok <==> base64_decoded(s@) is Some,
        r matches Ok(v) ==> base64_decoded(s@) == Some(v@),
{
    base64::decode(s)
}

/// Why a configured key was rejected.
#[derive(Clone, Copy, Debug, PartialEq, Eq)]
pub enum KeyError {
    /// The text is not valid base64.
    InvalidBase64,
    /// The text decodes to this many bytes instead of 32.
    WrongLength { len: usize },
}

/// Builds a key from exactly 32 decoded bytes; any other length is rejected
/// with `WrongLength`.
pub fn key_from_bytes(bytes: &[u8]) -> (r: Result<WgKey, KeyError>)
    ensures
        bytes@.len() == 32 <==> r is Ok,
        r matches Ok(k) ==> k@ == bytes@,
        r matches Err(e) ==> e == (KeyError::WrongLength { len: bytes@.len() as usize }),
{
    if bytes.len() != 32 {
        return Err(KeyError::WrongLength { len: bytes.len() });
    }
    let mut key: WgKey = [0u8; 32];
    let mut i: usize = 0;
    while i < 32
        invariant
            bytes@.len() == 32,
            i <= 32,
            forall|j: int| 0 <= j < i ==> #[trigger] key@[j] == bytes@[j],
        decreases 32 - i,
    {
        key[i] = bytes[i];
        i = i + 1;
    }
    assert(key@ =~= bytes@);
    Ok(key)
}

/// Parses a key written as base64 text. Fails with `InvalidBase64` where the
/// text is not base64, and with `WrongLength` where it does not decode to
/// exactly 32 bytes.
pub fn base64_to_key(s: &str) -> (r: Result<WgKey, KeyError>)
    ensures
        base64_decoded(s@) is None <==> r == Err::<WgKey, KeyError>(KeyError::InvalidBase64),
        base64_decoded(s@) matches Some(d) ==> {
            &&& (r is Ok <==> d.len() == 32)
            &&& r matches Ok(k) ==> k@ == d
            &&& r matches Err(e) ==> e == (KeyError::WrongLength { len: d.len() as usize })
        },
{
    match decode_base64(s) {
        Ok(data) => key_from_bytes(data.as_slice()),
        Err(_) => Err(KeyError::InvalidBase64),
    }
}

} // verus!
