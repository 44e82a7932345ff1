//! gRPC metadata keys and values made by tonic, kept with the bytes they
//! hold.

use tonic::metadata::errors::{InvalidMetadataKey, InvalidMetadataValue};
use tonic::metadata::{Ascii, MetadataKey, MetadataValue};
use vstd::prelude::*;
use vstd::utf8::encode_utf8;

verus! {

#[verifier::external_type_specification]
#[verifier::external_body]
pub struct ExInvalidMetadataKey(InvalidMetadataKey);

#[verifier::external_type_specification]
#[verifier::external_body]
pub struct ExInvalidMetadataValue(InvalidMetadataValue);

/// tonic's ASCII metadata key, `MetadataKey<Ascii>`, held opaque: tonic's
/// generic type cannot be declared here, as the bound on its parameter
/// names a trait that tonic does not export.
#[verifier::external_body]
pub struct RawKey(pub MetadataKey<Ascii>);

/// tonic's ASCII metadata value, `MetadataValue<Ascii>`, held opaque for the
/// same reason as `RawKey`.
#[verifier::external_body]
pub struct RawValue(pub MetadataValue<Ascii>);

/// `b` with ASCII upper case letters mapped to lower case.
pub open spec fn ascii_lower(b: u8) -> u8 {
    if 65 <= b && b <= 90 {
        (b + 32) as u8
    } else {
        b
    }
}

/// The bytes with ASCII upper case letters mapped to lower case.
pub open spec fn lowercase(bytes: Seq<u8>) -> Seq<u8> {
    bytes.map_values(|b: u8| ascii_lower(b))
}

/// A byte that a header name may hold: a letter, a digit, or one of
/// ``!"#$%&'*+-.^_`|~``.
pub open spec fn header_name_byte(b: u8) -> bool {
    ||| 33 <= b <= 39
    ||| b == 42 || b == 43 || b == 45 || b == 46
    ||| 48 <= b <= 57
    ||| 65 <= b <= 90
    ||| 94 <= b <= 122
    ||| b == 124 || b == 126
}

/// The bytes form a header name as http's `HeaderName::from_bytes` accepts
/// it: one to 65535 bytes, each a header name byte.
pub open spec fn header_name_ok(name: Seq<u8>) -> bool {
    &&& 1 <= name.len() <= 65535
    &&& forall|i: int| 0 <= i < name.len() ==> header_name_byte(#[trigger] name[i])
}

/// The name ends in `-bin`, in any case: the suffix of binary metadata keys.
pub open spec fn binary_key_suffix(name: Seq<u8>) -> bool {
    let n = name.len();
    &&& n >= 4
    &&& name[n - 4] == 45
    &&& ascii_lower(name[n - 3]) == 98
    &&& ascii_lower(name[n - 2]) == 105
    &&& ascii_lower(name[n - 1]) == 110
}

fn is_header_name_byte(b: u8) -> (res: bool)
    ensures
        res == header_name_byte(b),
{
    (33u8 <= b && b <= 39u8) || b == 42u8 || b == 43u8 || b == 45u8 || b == 46u8 || (48u8 <= b
        && b <= 57u8) || (65u8 <= b && b <= 90u8) || (94u8 <= b && b <= 122u8) || b == 124u8 || b
        == 126u8
}

/// Whether the bytes form a header name.
pub fn header_name_valid(name: &[u8]) -> (ok: bool)
    ensures
        ok == header_name_ok(name@),
{
    let n = name.len();
    if n < 1 || n > 65535 {
        return false;
    }
    let mut i: usize = 0;
    while i < n
        invariant
            n == name@.len(),
            0 <= i <= n,
            forall|j: int| 0 <= j < i ==> header_name_byte(#[trigger] name@[j]),
        decreases n - i,
    {
        if !is_header_name_byte(name[i]) {
            return false;
        }
        i = i + 1;
    }
    true
}

fn ascii_lower_byte(b: u8) -> (l: u8)
    ensures
        l == ascii_lower(b),
{
    if 65u8 <= b && b <= 90u8 {
        b + 32
    } else {
        b
    }
}

/// Whether the bytes end in `-bin`, in any case.
pub fn has_binary_key_suffix(name: &[u8]) -> (res: bool)
    ensures
        res == binary_key_suffix(name@),
{
    let n = name.len();
    if n < 4 {
        return false;
    }
    name[n - 4] == 45u8 && ascii_lower_byte(name[n - 3]) == 98u8 && ascii_lower_byte(name[n - 2])
        == 105u8 && ascii_lower_byte(name[n - 1]) == 110u8
}

/// An ASCII metadata key made by tonic, with the bytes of its name.
pub struct AsciiKey {
    raw: RawKey,
    bytes: Ghost<Seq<u8>>,
}

impl AsciiKey {
    /// The bytes of the key's name.
    pub closed spec fn bytes(self) -> Seq<u8> {
        self.bytes@
    }

    /// The tonic key.
    pub closed spec fn raw_spec(self) -> RawKey {
        self.raw
    }

    /// The tonic key, to hand to tonic's metadata map.
    pub fn into_raw(self) -> (res: RawKey)
        ensures
            res == self.raw_spec(),
    {
        self.raw
    }
}

/// An ASCII metadata value made by tonic, with the bytes it holds.
pub struct AsciiValue {
    raw: RawValue,
    bytes: Ghost<Seq<u8>>,
}

impl AsciiValue {
    /// The bytes of the value.
    pub closed spec fn bytes(self) -> Seq<u8> {
        self.bytes@
    }

    /// The tonic value.
    pub closed spec fn raw_spec(self) -> RawValue {
        self.raw
    }

    /// The tonic value, to hand to tonic's metadata map.
    pub fn into_raw(self) -> (res: RawValue)
        ensures
            res == self.raw_spec(),
    {
        self.raw
    }
}

/// Makes an ASCII metadata key with tonic's `MetadataKey::from_bytes`,
/// which goes through http's `HeaderName::from_bytes`: `Ok` exactly where
/// the bytes form a header name, and then a key named by the bytes in lower
/// case (http's header name table maps upper case letters to lower case and
/// keeps every other name byte). tonic panics on an accepted name that ends
/// in `-bin` (a binary key), which `requires` leaves out.
#[verifier::external_body]
pub fn metadata_key_from_bytes(name: &[u8]) -> (res: Result<AsciiKey, InvalidMetadataKey>)
    requires
        !(header_name_ok(name@) && binary_key_suffix(name@)),
    ensures
        res is Ok <==> header_name_ok(name@),
        res matches Ok(key) ==> key.bytes() == lowercase(name@),
{
    match MetadataKey::from_bytes(name) {
        Ok(key) => Ok(AsciiKey { raw: RawKey(key), bytes: Ghost(lowercase(name@)) }),
        Err(error) => Err(error),
    }
}

/// A byte that an ASCII metadata value may hold: anything from space up,
/// but DEL, and horizontal tab.
pub open spec fn metadata_value_byte(b: u8) -> bool {
    (b >= 32 && b != 127) || b == 9
}

/// Every byte of the UTF-8 encoding of `value` may stand in a metadata value.
pub open spec fn metadata_value_accepts(value: Seq<char>) -> bool {
    forall|i: int| 0 <= i < encode_utf8(value).len() ==> metadata_value_byte(#[trigger] encode_utf8(value)[i])
}

/// Makes an ASCII metadata value with tonic's `MetadataValue::try_from`,
/// which checks each byte as http's `HeaderValue::from_str` does and then
/// keeps a copy of the bytes.
#[verifier::external_body]
pub fn metadata_value_from_string(value: &String) -> (res: Result<AsciiValue, InvalidMetadataValue>)
    ensures
        res is Ok <==> metadata_value_accepts(value@),
        res matches Ok(v) ==> v.bytes() == encode_utf8(value@),
{
    match MetadataValue::try_from(value) {
        Ok(v) => Ok(AsciiValue { raw: RawValue(v), bytes: Ghost(encode_utf8(value@)) }),
        Err(error) => Err(error),
    }
}

} // verus!
