use vstd::prelude::*;
use vstd::utf8::valid_utf8;
use crate::cbor::{cbor_head, cbor_text};
use crate::gateway::{
    gateway_allowed, model_encoding, rejection, text_of, CvssVersion, GatewayError,
};

verus! {

/// Two calls of the gateway with the same version and the same input give the
/// same result, byte for byte.
pub proof fn determinism(
    version: CvssVersion,
    input: Seq<u8>,
    first: Result<Seq<u8>, GatewayError>,
    second: Result<Seq<u8>, GatewayError>,
)
    requires
        gateway_allowed(version, input, first),
        gateway_allowed(version, input, second),
    ensures
        first == second,
{
}

/// A text that the parser accepts is answered with the encoding of the very
/// model that the parser made of it, and the call succeeds.
pub proof fn success_carries_the_model(
    version: CvssVersion,
    input: Seq<u8>,
    s: Seq<char>,
    r: Result<Seq<u8>, GatewayError>,
)
    requires
        gateway_allowed(version, input, r),
        text_of(input) == Some(s),
        rejection(version, s) is None,
    ensures
        r == Ok::<Seq<u8>, GatewayError>(model_encoding(version, s)),
{
}

/// A vector that the parser rejects is answered with a CBOR map of exactly one
/// entry, whose key is the text `"error"` and whose value is a non-empty text.
pub proof fn uniform_error_shape(
    version: CvssVersion,
    input: Seq<u8>,
    r: Result<Seq<u8>, GatewayError>,
)
    requires
        gateway_allowed(version, input, r),
        text_of(input) matches Some(s) && rejection(version, s) is Some,
    ensures
        r is Ok,
        r->Ok_0[0] == 0xa1,
        exists|message: Seq<char>|
            message.len() > 0 && r->Ok_0 == cbor_head(5, 1) + cbor_text("error"@) + cbor_text(
                message,
            ),
{
    let s = text_of(input)->Some_0;
    let message = rejection(version, s)->Some_0;
    assert(r->Ok_0 == cbor_head(5, 1) + cbor_text("error"@) + cbor_text(message));
}

/// Input that is not well-formed UTF-8 aborts the call: no envelope comes back.
pub proof fn utf8_boundary(version: CvssVersion, input: Seq<u8>, r: Result<Seq<u8>, GatewayError>)
    requires
        !valid_utf8(input),
        gateway_allowed(version, input, r),
    ensures
        r == Err::<Seq<u8>, GatewayError>(GatewayError::InputEncoding),
{
}

} // verus!
