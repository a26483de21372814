use vstd::prelude::*;
use vstd::utf8::encode_utf8;

verus! {

/// The `width` low bytes of `n`, most significant first.
pub open spec fn be_bytes(n: nat, width: nat) -> Seq<u8>
    decreases width,
{
    if width == 0 {
        seq![]
    } else {
        be_bytes(n / 256, (width - 1) as nat).push((n % 256) as u8)
    }
}

/// The CBOR head of major type `major` with argument `n`, in its shortest form.
pub open spec fn cbor_head(major: nat, n: nat) -> Seq<u8> {
    if n <= 23 {
        seq![(major * 32 + n) as u8]
    } else if n <= 0xff {
        seq![(major * 32 + 24) as u8] + be_bytes(n, 1)
    } else if n <= 0xffff {
        seq![(major * 32 + 25) as u8] + be_bytes(n, 2)
    } else if n <= 0xffff_ffff {
        seq![(major * 32 + 26) as u8] + be_bytes(n, 4)
    } else {
        seq![(major * 32 + 27) as u8] + be_bytes(n, 8)
    }
}

/// A CBOR text string: its head (major type 3, the UTF-8 length) and its UTF-8 bytes.
pub open spec fn cbor_text(s: Seq<char>) -> Seq<u8> {
    cbor_head(3, encode_utf8(s).len()) + encode_utf8(s)
}

/// A CBOR map (major type 5) with the single entry `key` to `value`, both text.
pub open spec fn cbor_single_entry_map(key: Seq<char>, value: Seq<char>) -> Seq<u8> {
    cbor_head(5, 1) + cbor_text(key) + cbor_text(value)
}

#[verifier::external_type_specification]
#[verifier::external_body]
pub struct ExIoError(std::io::Error);

#[verifier::external_type_specification]
#[verifier::external_body]
#[verifier::reject_recursive_types(T)]
pub struct ExEncodeError<T>(ciborium::ser::Error<T>);

/// Relies on `ciborium::ser::into_writer` on a one-entry `HashMap<String, String>`
/// written into a `Vec<u8>`. serde hands the map over with its exact length, and
/// ciborium writes the map head with that length, then for each string a text
/// head with its byte length and its bytes, every head in shortest form. The only
/// failures it can report come from the writer, and a `Vec<u8>` never fails to
/// take bytes.
#[verifier::external_body]
pub(crate) fn write_text_map(key: &str, value: &str) -> (r: Result<Vec<u8>, ciborium::ser::Error<std::io::Error>>)
    ensures
        r is Ok,
        r matches Ok(b) ==> b@ == cbor_single_entry_map(key@, value@),
{
    let mut entry: std::collections::HashMap<String, String> = std::collections::HashMap::new();
    entry.insert(key.to_string(), value.to_string());
    let mut buffer: Vec<u8> = Vec::new();
    ciborium::ser::into_writer(&entry, &mut buffer).map(|()| buffer)
}

} // verus!
