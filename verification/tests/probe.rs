use oxxy::probe::{decimal, probe_payload};

const DOCUMENT: &str = r#"{
  "streams": [
    {
      "stream": {
        "hostname": "zoomer",
        "hw_id": "f4:5c:89:c2:a6:07",
        "sw_version": "v2.3.5",
        "level": "info"
      },
      "values": [
        [
          "$TS$",
          "2024-08-22T13:00:00Z [INFO] - collected data"
        ],
        [
          "$TS$",
          "2024-08-22T13:00:00Z [INFO] - conditions nominal"
        ]
      ]
    }
  ]
}"#;

#[test]
fn decimal_writes_single_digits() {
    assert_eq!(decimal(0), b"0".to_vec());
    assert_eq!(decimal(7), b"7".to_vec());
    assert_eq!(decimal(9), b"9".to_vec());
}

#[test]
fn decimal_writes_the_most_significant_digit_first() {
    assert_eq!(decimal(10), b"10".to_vec());
    assert_eq!(decimal(1203), b"1203".to_vec());
    assert_eq!(decimal(1724331600000000000), b"1724331600000000000".to_vec());
}

#[test]
fn decimal_writes_the_largest_value() {
    assert_eq!(decimal(u128::MAX), b"340282366920938463463374607431768211455".to_vec());
}

#[test]
fn probe_document_carries_the_time_twice() {
    let nanos: u128 = 1724331600123456789;
    let expected = DOCUMENT.replace("$TS$", &nanos.to_string());
    assert_eq!(probe_payload(nanos), expected.into_bytes());
}

#[test]
fn probe_document_at_the_epoch() {
    let expected = DOCUMENT.replace("$TS$", "0");
    assert_eq!(probe_payload(0), expected.into_bytes());
}

#[test]
fn probe_document_is_json() {
    let payload = probe_payload(1724331600123456789);
    let document: serde_json::Value = serde_json::from_slice(&payload).unwrap();
    let lines = &document["streams"][0]["values"];
    assert_eq!(lines[0][0].as_str(), Some("1724331600123456789"));
    assert_eq!(lines[1][0].as_str(), Some("1724331600123456789"));
    assert_eq!(document["streams"][0]["stream"]["hostname"].as_str(), Some("zoomer"));
}
