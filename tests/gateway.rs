use std::collections::HashMap;
use std::str::FromStr;

use ciborium::value::Value;
use nvd_cvss::v3::attack_complexity::AttackComplexityType;
use nvd_cvss::v3::attack_vector::AttackVectorType;
use nvd_cvss::v3::privileges_required::PrivilegesRequiredType;
use nvd_cvss::v3::scope::ScopeType;
use nvd_cvss::v3::user_interaction::UserInteractionType;
use cvss_gateway::gateway::{
    decode_and_encode, encode_error, encode_model, parse, respond, settle, v2, v3, v4, CvssVersion,
    GatewayError, ScoreModel,
};

const V2_VECTOR: &str = "CVSS:2.0/AV:L/AC:L/Au:N/C:C/I:C/A:C";
const V3_VECTOR: &str = "CVSS:3.1/AV:N/AC:L/PR:N/UI:N/S:U/C:H/I:H/A:H";
const V4_VECTOR: &str = "CVSS:4.0/AV:A/AC:H/AT:P/PR:L/UI:P/VC:H/VI:H/VA:H/SC:H/SI:H/SA:H/E:A";

fn error_map(bytes: &[u8]) -> HashMap<String, String> {
    ciborium::de::from_reader(bytes).expect("an error descriptor")
}

fn map_entries(bytes: &[u8]) -> Vec<(Value, Value)> {
    match ciborium::de::from_reader::<Value, _>(bytes).expect("a CBOR value") {
        Value::Map(entries) => entries,
        other => panic!("not a map: {:?}", other),
    }
}

fn entry<'a>(entries: &'a [(Value, Value)], key: &str) -> Option<&'a Value> {
    entries
        .iter()
        .find(|(k, _)| k == &Value::Text(key.to_string()))
        .map(|(_, v)| v)
}

fn expected_error_envelope(message: &str) -> Vec<u8> {
    let mut out = vec![0xa1, 0x65];
    out.extend_from_slice(b"error");
    let len = message.len();
    if len <= 23 {
        out.push(0x60 + len as u8);
    } else if len <= 0xff {
        out.push(0x78);
        out.push(len as u8);
    } else {
        out.push(0x79);
        out.extend_from_slice(&(len as u16).to_be_bytes());
    }
    out.extend_from_slice(message.as_bytes());
    out
}

#[test]
fn v3_vector_gives_its_metrics() {
    let out = v3(V3_VECTOR.as_bytes()).expect("an envelope");
    let entries = map_entries(&out);
    assert_eq!(entry(&entries, "attackVector"), Some(&Value::Text("NETWORK".to_string())));
    assert_eq!(entry(&entries, "vectorString"), Some(&Value::Text(V3_VECTOR.to_string())));
    assert!(entry(&entries, "error").is_none());
    let model: nvd_cvss::v3::CVSS = ciborium::de::from_reader(&out[..]).expect("a v3 model");
    assert_eq!(model.exploit_ability.attack_vector, AttackVectorType::Network);
    assert_eq!(model.exploit_ability.attack_complexity, AttackComplexityType::Low);
    assert_eq!(model.exploit_ability.privileges_required, PrivilegesRequiredType::None);
    assert_eq!(model.exploit_ability.user_interaction, UserInteractionType::None);
    assert_eq!(model.scope, ScopeType::Unchanged);
    assert_eq!(model.base_score, 9.8);
}

#[test]
fn round_trip_v2() {
    let out = v2(V2_VECTOR.as_bytes()).expect("an envelope");
    let decoded: nvd_cvss::v2::CVSS = ciborium::de::from_reader(&out[..]).expect("a v2 model");
    assert_eq!(decoded, nvd_cvss::v2::CVSS::from_str(V2_VECTOR).unwrap());
}

#[test]
fn round_trip_v3() {
    let out = v3(V3_VECTOR.as_bytes()).expect("an envelope");
    let decoded: nvd_cvss::v3::CVSS = ciborium::de::from_reader(&out[..]).expect("a v3 model");
    assert_eq!(decoded, nvd_cvss::v3::CVSS::from_str(V3_VECTOR).unwrap());
}

#[test]
fn round_trip_v4() {
    let out = v4(V4_VECTOR.as_bytes()).expect("an envelope");
    // The v4 model flattens several groups that share field names, so its
    // encoding holds repeated keys and cannot be read back into the model;
    // compare with the model's own encoding instead.
    let model = nvd_cvss::v4::CVSS::from_str(V4_VECTOR).unwrap();
    let mut direct = Vec::new();
    ciborium::ser::into_writer(&model, &mut direct).unwrap();
    assert_eq!(out, direct);
    let entries = map_entries(&out);
    assert_eq!(entry(&entries, "vectorString"), Some(&Value::Text(model.vector_string.clone())));
}

#[test]
fn same_input_gives_same_bytes() {
    for (version, text) in [
        (CvssVersion::V2, V2_VECTOR),
        (CvssVersion::V3, V3_VECTOR),
        (CvssVersion::V4, V4_VECTOR),
        (CvssVersion::V3, "not a vector"),
    ] {
        let first = decode_and_encode(version, text.as_bytes());
        let second = decode_and_encode(version, text.as_bytes());
        assert_eq!(first, second);
        assert!(first.is_ok());
    }
}

#[test]
fn garbage_to_v3_gives_error_descriptor() {
    let out = v3(b"not a vector").expect("an envelope");
    let map = error_map(&out);
    assert_eq!(map.len(), 1);
    let expected = nvd_cvss::v3::CVSS::from_str("not a vector").unwrap_err().to_string();
    assert_eq!(map.get("error"), Some(&expected));
    assert_eq!(out, expected_error_envelope(&expected));
}

#[test]
fn lone_continuation_byte_aborts_every_version() {
    let input = [0x80u8];
    assert_eq!(v2(&input), Err(GatewayError::InputEncoding));
    assert_eq!(v3(&input), Err(GatewayError::InputEncoding));
    assert_eq!(v4(&input), Err(GatewayError::InputEncoding));
}

#[test]
fn truncated_multibyte_sequence_aborts() {
    let mut input = V3_VECTOR.as_bytes().to_vec();
    input.push(0xe2);
    input.push(0x82);
    assert_eq!(v3(&input), Err(GatewayError::InputEncoding));
}

#[test]
fn empty_input_to_v2_is_an_error_descriptor() {
    let out = v2(b"").expect("an envelope");
    assert_eq!(out, expected_error_envelope("invalid prefix for ``"));
    let map = error_map(&out);
    assert_eq!(map.len(), 1);
    assert_eq!(map["error"], "invalid prefix for ``");
}

#[test]
fn v4_vector_to_v2_is_an_error_descriptor() {
    let out = v2(V4_VECTOR.as_bytes()).expect("an envelope");
    let map = error_map(&out);
    assert_eq!(map.len(), 1);
    assert!(!map["error"].is_empty());
}

#[test]
fn v3_vector_to_v2_is_an_error_descriptor() {
    let out = v2(V3_VECTOR.as_bytes()).expect("an envelope");
    let map = error_map(&out);
    assert_eq!(map.len(), 1);
    let expected = nvd_cvss::v2::CVSS::from_str(V3_VECTOR).unwrap_err().to_string();
    assert_eq!(map["error"], expected);
}

#[test]
fn error_envelope_short_message_bytes() {
    let out = encode_error("ab").expect("an envelope");
    assert_eq!(out, vec![0xa1, 0x65, b'e', b'r', b'r', b'o', b'r', 0x62, b'a', b'b']);
}

#[test]
fn error_envelope_long_message_uses_one_byte_length() {
    let message = "x".repeat(30);
    let out = encode_error(&message).expect("an envelope");
    assert_eq!(&out[..9], &[0xa1, 0x65, b'e', b'r', b'r', b'o', b'r', 0x78, 30]);
    assert_eq!(out.len(), 9 + 30);
    assert_eq!(out, expected_error_envelope(&message));
}

#[test]
fn error_envelope_two_byte_length() {
    let message = "é".repeat(200);
    let out = encode_error(&message).expect("an envelope");
    assert_eq!(&out[7..10], &[0x79, 0x01, 0x90]);
    assert_eq!(out, expected_error_envelope(&message));
}

#[test]
fn respond_to_rejection_carries_the_message() {
    let out = respond(Err("bad vector".to_string())).expect("an envelope");
    assert_eq!(out, expected_error_envelope("bad vector"));
}

#[test]
fn parse_tags_the_model_with_its_version() {
    assert!(matches!(parse(CvssVersion::V2, V2_VECTOR), Ok(ScoreModel::V2(_))));
    assert!(matches!(parse(CvssVersion::V3, V3_VECTOR), Ok(ScoreModel::V3(_))));
    assert!(matches!(parse(CvssVersion::V4, V4_VECTOR), Ok(ScoreModel::V4(_))));
}

#[test]
fn parse_reports_the_parser_message() {
    let expected = nvd_cvss::v4::CVSS::from_str("CVSS:4.0").unwrap_err().to_string();
    match parse(CvssVersion::V4, "CVSS:4.0") {
        Err(message) => assert_eq!(message, expected),
        Ok(_) => panic!("accepted a vector without metrics"),
    }
}

#[test]
fn encoded_models_open_a_map() {
    for (version, text) in [
        (CvssVersion::V2, V2_VECTOR),
        (CvssVersion::V3, V3_VECTOR),
        (CvssVersion::V4, V4_VECTOR),
    ] {
        let model = parse(version, text).ok().expect("a model");
        let out = encode_model(&model).expect("an encoding");
        assert!((0xa0..=0xbf).contains(&out[0]));
    }
}

#[test]
fn settle_keeps_written_bytes() {
    assert_eq!(settle(Ok(vec![0xa0])), Ok(vec![0xa0]));
}

#[test]
fn settle_turns_encoder_failure_into_serialization_error() {
    let failure: ciborium::ser::Error<std::io::Error> =
        ciborium::ser::Error::Value("unsupported".to_string());
    assert_eq!(settle(Err(failure)), Err(GatewayError::Serialization));
}

#[test]
fn encode_model_writes_the_model_encoding() {
    let model = parse(CvssVersion::V2, V2_VECTOR).ok().expect("a model");
    let mut direct = Vec::new();
    ciborium::ser::into_writer(&nvd_cvss::v2::CVSS::from_str(V2_VECTOR).unwrap(), &mut direct)
        .unwrap();
    assert_eq!(encode_model(&model), Ok(direct.clone()));
    assert_eq!(respond(Ok(model)), Ok(direct));
}
