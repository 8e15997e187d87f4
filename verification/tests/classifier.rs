use oxxy::classifier::{
    classify, classify_findings, forwarding_content_type, ClassificationResult, JSON, PROTOBUF,
};
use oxxy::shapes::LogMessage;

fn sample_record() -> LogMessage {
    LogMessage::from_parts(
        vec![("job".to_string(), "x".to_string())],
        vec![("1690000000000000000".to_string(), "hello".to_string())],
    )
}

#[test]
fn decoded_text_is_structured() {
    let raw = b"{\"stream\":{\"job\":\"x\"},\"values\":[[\"1690000000000000000\",\"hello\"]]}";
    let record = sample_record();
    let verdict = classify(raw, Some(&record));
    assert_eq!(verdict, ClassificationResult::Structured);
    assert_eq!(verdict.content_type(), "application/json");
}

#[test]
fn bytes_that_are_no_text_are_opaque() {
    let raw = b"\x80\x05\xf0\xc2\n\xfd\x04\nG";
    let verdict = classify(raw, None);
    assert_eq!(verdict, ClassificationResult::Opaque);
    assert_eq!(verdict.content_type(), "application/x-protobuf");
}

#[test]
fn bytes_that_are_no_text_are_opaque_whatever_was_decoded() {
    let record = sample_record();
    assert_eq!(classify(&[0xff, 0xfe], Some(&record)), ClassificationResult::Opaque);
}

#[test]
fn text_that_is_no_record_is_opaque() {
    assert_eq!(classify(b"not json", None), ClassificationResult::Opaque);
    assert_eq!(classify(b"{\"streams\":[]}", None), ClassificationResult::Opaque);
    assert_eq!(classify(b"", None), ClassificationResult::Opaque);
}

#[test]
fn findings_decide_the_classification() {
    assert_eq!(classify_findings(true, true), ClassificationResult::Structured);
    assert_eq!(classify_findings(true, false), ClassificationResult::Opaque);
    assert_eq!(classify_findings(false, true), ClassificationResult::Opaque);
    assert_eq!(classify_findings(false, false), ClassificationResult::Opaque);
}

#[test]
fn media_types_are_spelled_as_the_gateway_expects() {
    assert_eq!(JSON, "application/json");
    assert_eq!(PROTOBUF, "application/x-protobuf");
    assert_eq!(ClassificationResult::Structured.content_type(), JSON);
    assert_eq!(ClassificationResult::Opaque.content_type(), PROTOBUF);
}

#[test]
fn text_goes_out_as_json_and_the_rest_as_protobuf() {
    assert_eq!(forwarding_content_type(true), "application/json");
    assert_eq!(forwarding_content_type(false), "application/x-protobuf");
}

#[test]
fn classification_depends_on_the_bytes_alone() {
    let raw = b"{\"stream\":{},\"values\":[]}".to_vec();
    let record = LogMessage::from_parts(vec![], vec![]);
    let first = classify(&raw, Some(&record));
    let second = classify(&raw.clone(), Some(&record));
    assert_eq!(first, second);
}
