use morde_rs::surrealdb::{claims_from_json, decode_payload_insecurely, DecodeError};

// The payload segment of FULL_TOKEN is the unpadded URL-safe base64 of
// {"iat":1700000000,"nbf":1700000000,"exp":1,"iss":"surreal","jti":"tok-1",
//  "NS":"ns1","DB":"db1","AC":"admin","ID":"user:alice"}.
const FULL_TOKEN: &str = "h.eyJpYXQiOjE3MDAwMDAwMDAsIm5iZiI6MTcwMDAwMDAwMCwiZXhwIjoxLCJpc3MiOiJzdXJyZWFsIiwianRpIjoidG9rLTEiLCJOUyI6Im5zMSIsIkRCIjoiZGIxIiwiQUMiOiJhZG1pbiIsIklEIjoidXNlcjphbGljZSJ9.sig";

#[test]
fn fewer_than_two_segments_is_malformed() {
    assert_eq!(
        decode_payload_insecurely("").unwrap_err(),
        DecodeError::MalformedToken
    );
    assert_eq!(
        decode_payload_insecurely("no-dots-here").unwrap_err(),
        DecodeError::MalformedToken
    );
}

#[test]
fn bad_base64_is_invalid_encoding() {
    assert_eq!(
        decode_payload_insecurely("h.!!!.s").unwrap_err(),
        DecodeError::InvalidEncoding
    );
    // '+' belongs to the standard alphabet, not the URL-safe one.
    assert_eq!(
        decode_payload_insecurely("h.a+b.s").unwrap_err(),
        DecodeError::InvalidEncoding
    );
}

#[test]
fn missing_claim_fields_is_invalid_payload() {
    // "e30" decodes to "{}": a JSON object with every claim field absent.
    assert_eq!(
        decode_payload_insecurely("h.e30.s").unwrap_err(),
        DecodeError::InvalidPayload
    );
    // Only the timestamps are present.
    assert_eq!(
        decode_payload_insecurely("h.eyJpYXQiOjUsIm5iZiI6NiwiZXhwIjo3fQ.s").unwrap_err(),
        DecodeError::InvalidPayload
    );
}

#[test]
fn non_json_payload_is_invalid_payload() {
    // "aGVsbG8" decodes to "hello", which is not a JSON document.
    assert_eq!(
        decode_payload_insecurely("h.aGVsbG8.s").unwrap_err(),
        DecodeError::InvalidPayload
    );
}

#[test]
fn decodes_claims_from_middle_segment() {
    let claims = decode_payload_insecurely(FULL_TOKEN).unwrap();
    assert_eq!(claims.iat, 1700000000);
    assert_eq!(claims.nbf, 1700000000);
    assert_eq!(claims.exp, 1);
    assert_eq!(claims.iss, "surreal");
    assert_eq!(claims.jti, "tok-1");
    assert_eq!(claims.ns, "ns1");
    assert_eq!(claims.db, "db1");
    assert_eq!(claims.ac, serde_json::Value::String("admin".to_string()));
    assert_eq!(claims.id, "user:alice");
}

#[test]
fn expired_token_still_decodes() {
    // exp is 1, far in the past: decoding performs no time-based validation.
    let claims = decode_payload_insecurely(FULL_TOKEN).unwrap();
    assert_eq!(claims.exp, 1);
}

#[test]
fn wrongly_typed_claim_field_is_invalid_payload() {
    let text = "{\"iat\":\"late\",\"nbf\":6,\"exp\":7,\"iss\":\"i\",\"jti\":\"j\",\"NS\":\"n\",\"DB\":\"d\",\"AC\":1,\"ID\":\"u\"}";
    let v: serde_json::Value = serde_json::from_str(text).unwrap();
    assert_eq!(claims_from_json(&v).unwrap_err(), DecodeError::InvalidPayload);
}

#[test]
fn claims_read_exact_values_and_any_access_shape() {
    let text = "{\"iat\":1,\"nbf\":2,\"exp\":3,\"iss\":\"i\",\"jti\":\"j\",\"NS\":\"n\",\"DB\":\"d\",\"AC\":{\"role\":\"admin\"},\"ID\":\"u\"}";
    let v: serde_json::Value = serde_json::from_str(text).unwrap();
    let claims = claims_from_json(&v).unwrap();
    assert_eq!(claims.iat, 1);
    assert_eq!(claims.nbf, 2);
    assert_eq!(claims.exp, 3);
    assert_eq!(claims.iss, "i");
    assert_eq!(claims.jti, "j");
    assert_eq!(claims.ns, "n");
    assert_eq!(claims.db, "d");
    assert_eq!(claims.id, "u");
    let role = claims.ac.get("role").and_then(|x| x.as_str());
    assert_eq!(role, Some("admin"));
}
