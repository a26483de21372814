use vstd::prelude::*;

verus! {

#[verifier::external_type_specification]
#[verifier::external_body]
pub struct ExCvss2(nvd_cvss::v2::CVSS);

#[verifier::external_type_specification]
#[verifier::external_body]
pub struct ExCvss3(nvd_cvss::v3::CVSS);

#[verifier::external_type_specification]
#[verifier::external_body]
pub struct ExCvss4(nvd_cvss::v4::CVSS);

/// What the version 2 parser says of the vector text `s`: `None` where it
/// accepts it, else the text of its error.
pub uninterp spec fn v2_rejection(s: Seq<char>) -> Option<Seq<char>>;

/// The model that the version 2 parser makes of the vector text `s`, where it
/// accepts it.
pub uninterp spec fn v2_model(s: Seq<char>) -> nvd_cvss::v2::CVSS;

/// The CBOR bytes that ciborium writes for the version 2 model `m`.
pub uninterp spec fn v2_encoding(m: nvd_cvss::v2::CVSS) -> Seq<u8>;

/// What the version 3 parser says of the vector text `s`: `None` where it
/// accepts it, else the text of its error.
pub uninterp spec fn v3_rejection(s: Seq<char>) -> Option<Seq<char>>;

/// The model that the version 3 parser makes of the vector text `s`, where it
/// accepts it.
pub uninterp spec fn v3_model(s: Seq<char>) -> nvd_cvss::v3::CVSS;

/// The CBOR bytes that ciborium writes for the version 3 model `m`.
pub uninterp spec fn v3_encoding(m: nvd_cvss::v3::CVSS) -> Seq<u8>;

/// What the version 4 parser says of the vector text `s`: `None` where it
/// accepts it, else the text of its error.
pub uninterp spec fn v4_rejection(s: Seq<char>) -> Option<Seq<char>>;

/// The model that the version 4 parser makes of the vector text `s`, where it
/// accepts it.
pub uninterp spec fn v4_model(s: Seq<char>) -> nvd_cvss::v4::CVSS;

/// The CBOR bytes that ciborium writes for the version 4 model `m`.
pub uninterp spec fn v4_encoding(m: nvd_cvss::v4::CVSS) -> Seq<u8>;

/// Relies on `nvd_cvss::v2::CVSS::from_str`, a pure function of the text, with
/// its `CVSSError` turned into the error's `Display` text. Every variant of
/// `CVSSError` displays fixed words before its fields, so that text is never
/// empty.
#[verifier::external_body]
pub(crate) fn parse_v2(s: &str) -> (r: Result<nvd_cvss::v2::CVSS, String>)
    ensures
        r is Ok <==> v2_rejection(s@) is None,
        r matches Ok(m) ==> m == v2_model(s@),
        r matches Err(m) ==> v2_rejection(s@) == Some(m@) && m@.len() > 0,
{
    <nvd_cvss::v2::CVSS as std::str::FromStr>::from_str(s).map_err(|e| e.to_string())
}

/// Relies on `nvd_cvss::v3::CVSS::from_str`, a pure function of the text, with
/// its `CVSSError` turned into the error's `Display` text. Every variant of
/// `CVSSError` displays fixed words before its fields, so that text is never
/// empty.
#[verifier::external_body]
pub(crate) fn parse_v3(s: &str) -> (r: Result<nvd_cvss::v3::CVSS, String>)
    ensures
        r is Ok <==> v3_rejection(s@) is None,
        r matches Ok(m) ==> m == v3_model(s@),
        r matches Err(m) ==> v3_rejection(s@) == Some(m@) && m@.len() > 0,
{
    <nvd_cvss::v3::CVSS as std::str::FromStr>::from_str(s).map_err(|e| e.to_string())
}

/// Relies on `nvd_cvss::v4::CVSS::from_str`, a pure function of the text, with
/// its `CVSSError` turned into the error's `Display` text. Every variant of
/// `CVSSError` displays fixed words before its fields, so that text is never
/// empty.
#[verifier::external_body]
pub(crate) fn parse_v4(s: &str) -> (r: Result<nvd_cvss::v4::CVSS, String>)
    ensures
        r is Ok <==> v4_rejection(s@) is None,
        r matches Ok(m) ==> m == v4_model(s@),
        r matches Err(m) ==> v4_rejection(s@) == Some(m@) && m@.len() > 0,
{
    <nvd_cvss::v4::CVSS as std::str::FromStr>::from_str(s).map_err(|e| e.to_string())
}

/// Relies on `ciborium::ser::into_writer` with the `Serialize` that nvd_cvss
/// derives for `v2::CVSS`: a struct without flattened fields, which ciborium
/// opens with a definite-length map head. The bytes depend on the model alone,
/// and the only failures ciborium reports here come from the writer, which for a
/// `Vec<u8>` never fails.
#[verifier::external_body]
pub(crate) fn write_v2(m: &nvd_cvss::v2::CVSS) -> (r: Result<Vec<u8>, ciborium::ser::Error<std::io::Error>>)
    ensures
        r is Ok,
        r matches Ok(b) ==> b@ == v2_encoding(*m),
{
    let mut buffer: Vec<u8> = Vec::new();
    ciborium::ser::into_writer(m, &mut buffer).map(|()| buffer)
}

/// Relies on `ciborium::ser::into_writer` with the `Serialize` that nvd_cvss
/// derives for `v3::CVSS`: a struct with flattened fields, which serde writes
/// through a map of unknown length, so ciborium opens it with an
/// indefinite-length map head. Every flattened field is a struct, so flattening
/// cannot fail; the bytes depend on the model alone, and the only failures
/// ciborium reports here come from the writer, which for a `Vec<u8>` never fails.
#[verifier::external_body]
pub(crate) fn write_v3(m: &nvd_cvss::v3::CVSS) -> (r: Result<Vec<u8>, ciborium::ser::Error<std::io::Error>>)
    ensures
        r is Ok,
        r matches Ok(b) ==> b@ == v3_encoding(*m),
{
    let mut buffer: Vec<u8> = Vec::new();
    ciborium::ser::into_writer(m, &mut buffer).map(|()| buffer)
}

/// Relies on `ciborium::ser::into_writer` with the `Serialize` that nvd_cvss
/// derives for `v4::CVSS`: a struct with flattened fields, which serde writes
/// through a map of unknown length, so ciborium opens it with an
/// indefinite-length map head. Every flattened field is a struct, so flattening
/// cannot fail; the bytes depend on the model alone, and the only failures
/// ciborium reports here come from the writer, which for a `Vec<u8>` never fails.
#[verifier::external_body]
pub(crate) fn write_v4(m: &nvd_cvss::v4::CVSS) -> (r: Result<Vec<u8>, ciborium::ser::Error<std::io::Error>>)
    ensures
        r is Ok,
        r matches Ok(b) ==> b@ == v4_encoding(*m),
{
    let mut buffer: Vec<u8> = Vec::new();
    ciborium::ser::into_writer(m, &mut buffer).map(|()| buffer)
}

} // verus!
