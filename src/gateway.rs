use vstd::prelude::*;
use vstd::utf8::{decode_utf8, valid_utf8};
use crate::cbor::{cbor_single_entry_map, write_text_map};
use crate::cvss::{
    parse_v2, parse_v3, parse_v4, v2_encoding, v2_model, v2_rejection, v3_encoding, v3_model,
    v3_rejection, v4_encoding, v4_model, v4_rejection, write_v2, write_v3, write_v4,
};

verus! {

/// The CVSS protocol versions that the gateway serves.
#[derive(Clone, Copy, Debug, PartialEq, Eq, Structural)]
pub enum CvssVersion {
    V2,
    V3,
    V4,
}

/// Failures that abort a call without producing an envelope.
#[derive(Clone, Copy, Debug, PartialEq, Eq, Structural)]
pub enum GatewayError {
    /// The input bytes are not well-formed UTF-8.
    InputEncoding,
    /// The encoder could not write the chosen value.
    Serialization,
}

/// A vector parsed under one protocol version, tagged with that version.
pub enum ScoreModel {
    V2(nvd_cvss::v2::CVSS),
    V3(nvd_cvss::v3::CVSS),
    V4(nvd_cvss::v4::CVSS),
}

impl ScoreModel {
    /// The protocol version the model was parsed under.
    pub open spec fn version(&self) -> CvssVersion {
        match self {
            ScoreModel::V2(_) => CvssVersion::V2,
            ScoreModel::V3(_) => CvssVersion::V3,
            ScoreModel::V4(_) => CvssVersion::V4,
        }
    }

    /// The CBOR bytes of the model, as the encoder writes them.
    pub open spec fn encoding(&self) -> Seq<u8> {
        match self {
            ScoreModel::V2(m) => v2_encoding(*m),
            ScoreModel::V3(m) => v3_encoding(*m),
            ScoreModel::V4(m) => v4_encoding(*m),
        }
    }
}

/// What the parser of `version` says of the text `s`: `None` where it accepts
/// it, else its error message.
pub open spec fn rejection(version: CvssVersion, s: Seq<char>) -> Option<Seq<char>> {
    match version {
        CvssVersion::V2 => v2_rejection(s),
        CvssVersion::V3 => v3_rejection(s),
        CvssVersion::V4 => v4_rejection(s),
    }
}

/// The encoding of the model that the parser of `version` makes of the
/// accepted text `s`.
pub open spec fn model_encoding(version: CvssVersion, s: Seq<char>) -> Seq<u8> {
    match version {
        CvssVersion::V2 => v2_encoding(v2_model(s)),
        CvssVersion::V3 => v3_encoding(v3_model(s)),
        CvssVersion::V4 => v4_encoding(v4_model(s)),
    }
}

/// The text that `input` holds, where it is well-formed UTF-8.
pub open spec fn text_of(input: Seq<u8>) -> Option<Seq<char>> {
    if valid_utf8(input) {
        Some(decode_utf8(input))
    } else {
        None
    }
}

/// The envelope that reports a parse failure: the map `{"error": message}`.
pub open spec fn error_envelope(message: Seq<char>) -> Seq<u8> {
    cbor_single_entry_map("error"@, message)
}

/// The envelope for a parser's outcome: the encoded model where the text was
/// accepted, else the error descriptor carrying the parser's message.
pub open spec fn envelope(outcome: Result<Seq<u8>, Seq<char>>) -> Seq<u8> {
    match outcome {
        Ok(encoded) => encoded,
        Err(message) => error_envelope(message),
    }
}

/// What the parser of `version` makes of the text `s`: the encoding of its
/// model, or its error message.
pub open spec fn parse_outcome(version: CvssVersion, s: Seq<char>) -> Result<Seq<u8>, Seq<char>> {
    match rejection(version, s) {
        Some(message) => Err(message),
        None => Ok(model_encoding(version, s)),
    }
}

/// The result of the gateway for `version` on `input`: an abort on malformed
/// UTF-8, else the envelope for the parser's outcome.
pub open spec fn gateway_result(version: CvssVersion, input: Seq<u8>) -> Result<
    Seq<u8>,
    GatewayError,
> {
    match text_of(input) {
        None => Err(GatewayError::InputEncoding),
        Some(s) => Ok(envelope(parse_outcome(version, s))),
    }
}

/// Every error message that the parser of `version` gives for the text in
/// `input` is non-empty.
pub open spec fn message_nonempty(version: CvssVersion, input: Seq<u8>) -> bool {
    match text_of(input) {
        Some(s) => match rejection(version, s) {
            Some(message) => message.len() > 0,
            None => true,
        },
        None => true,
    }
}

/// What a call of the gateway for `version` on `input` returns: exactly
/// `gateway_result`, whose error descriptors never carry an empty message.
pub open spec fn gateway_allowed(
    version: CvssVersion,
    input: Seq<u8>,
    r: Result<Seq<u8>, GatewayError>,
) -> bool {
    r == gateway_result(version, input) && message_nonempty(version, input)
}

/// The bytes of a result, seen as a sequence.
pub open spec fn result_view(r: Result<Vec<u8>, GatewayError>) -> Result<Seq<u8>, GatewayError> {
    match r {
        Ok(b) => Ok(b@),
        Err(e) => Err(e),
    }
}

/// Relies on `std::str::from_utf8`: it accepts exactly the well-formed UTF-8
/// byte sequences and returns the text they encode.
#[verifier::external_body]
fn utf8_text(bytes: &[u8]) -> (r: Option<&str>)
    ensures
        r is Some <==> valid_utf8(bytes@),
        r matches Some(s) ==> s@ == decode_utf8(bytes@),
{
    std::str::from_utf8(bytes).ok()
}

/// Parses `text` as a vector of protocol `version`.
pub fn parse(version: CvssVersion, text: &str) -> (r: Result<ScoreModel, String>)
    ensures
        r is Ok <==> rejection(version, text@) is None,
        r matches Ok(m) ==> m.version() == version && m.encoding() == model_encoding(
            version,
            text@,
        ),
        r matches Err(message) ==> rejection(version, text@) == Some(message@)
            && message@.len() > 0,
{
    match version {
        CvssVersion::V2 => match parse_v2(text) {
            Ok(m) => Ok(ScoreModel::V2(m)),
            Err(message) => Err(message),
        },
        CvssVersion::V3 => match parse_v3(text) {
            Ok(m) => Ok(ScoreModel::V3(m)),
            Err(message) => Err(message),
        },
        CvssVersion::V4 => match parse_v4(text) {
            Ok(m) => Ok(ScoreModel::V4(m)),
            Err(message) => Err(message),
        },
    }
}

/// Takes what the encoder wrote: its bytes whole, or a serialization failure,
/// so that no partial output leaves the gateway.
pub fn settle(written: Result<Vec<u8>, ciborium::ser::Error<std::io::Error>>) -> (r: Result<
    Vec<u8>,
    GatewayError,
>)
    ensures
        written matches Ok(b) ==> r matches Ok(c) && c@ == b@,
        written is Err ==> r == Err::<Vec<u8>, GatewayError>(GatewayError::Serialization),
{
    match written {
        Ok(b) => Ok(b),
        Err(_) => Err(GatewayError::Serialization),
    }
}

/// Encodes a parsed model as CBOR, as the map of its fields.
pub fn encode_model(model: &ScoreModel) -> (r: Result<Vec<u8>, GatewayError>)
    ensures
        r matches Ok(b) && b@ == model.encoding(),
{
    let written = match model {
        ScoreModel::V2(m) => write_v2(m),
        ScoreModel::V3(m) => write_v3(m),
        ScoreModel::V4(m) => write_v4(m),
    };
    settle(written)
}

/// Encodes the error descriptor `{"error": message}` as CBOR.
pub fn encode_error(message: &str) -> (r: Result<Vec<u8>, GatewayError>)
    ensures
        r matches Ok(b) && b@ == error_envelope(message@),
{
    settle(write_text_map("error", message))
}

/// Turns a parser's outcome into the envelope: the encoded model, or the
/// encoded error descriptor carrying the parser's message.
pub fn respond(parsed: Result<ScoreModel, String>) -> (r: Result<Vec<u8>, GatewayError>)
    ensures
        r matches Ok(b) && b@ == envelope(
            match parsed {
                Ok(model) => Ok(model.encoding()),
                Err(message) => Err(message@),
            },
        ),
{
    match parsed {
        Ok(model) => encode_model(&model),
        Err(message) => encode_error(message.as_str()),
    }
}

/// The gateway: decodes `input` as UTF-8 text, parses it under `version` and
/// returns the envelope for the outcome.
pub fn decode_and_encode(version: CvssVersion, input: &[u8]) -> (r: Result<Vec<u8>, GatewayError>)
    ensures
        gateway_allowed(version, input@, result_view(r)),
{
    match utf8_text(input) {
        None => Err(GatewayError::InputEncoding),
        Some(text) => respond(parse(version, text)),
    }
}

/// The gateway for protocol version 2.
pub fn v2(input: &[u8]) -> (r: Result<Vec<u8>, GatewayError>)
    ensures
        gateway_allowed(CvssVersion::V2, input@, result_view(r)),
{
    decode_and_encode(CvssVersion::V2, input)
}

/// The gateway for protocol version 3.
pub fn v3(input: &[u8]) -> (r: Result<Vec<u8>, GatewayError>)
    ensures
        gateway_allowed(CvssVersion::V3, input@, result_view(r)),
{
    decode_and_encode(CvssVersion::V3, input)
}

/// The gateway for protocol version 4.
pub fn v4(input: &[u8]) -> (r: Result<Vec<u8>, GatewayError>)
    ensures
        gateway_allowed(CvssVersion::V4, input@, result_view(r)),
{
    decode_and_encode(CvssVersion::V4, input)
}

} // verus!
