use oxxy::shapes::LogMessage;

fn pair(left: &str, right: &str) -> (String, String) {
    (left.to_string(), right.to_string())
}

#[test]
fn record_keeps_labels_and_lines() {
    let record = LogMessage::from_parts(
        vec![pair("job", "x"), pair("level", "info")],
        vec![pair("1690000000000000000", "hello"), pair("1690000000000000001", "world")],
    );
    assert_eq!(record.label_count(), 2);
    assert_eq!(record.label("job"), Some(&"x".to_string()));
    assert_eq!(record.label("level"), Some(&"info".to_string()));
    assert_eq!(record.label("host"), None);
    assert_eq!(record.value_count(), 2);
}

#[test]
fn lines_keep_their_order() {
    let record = LogMessage::from_parts(
        vec![],
        vec![pair("3", "c"), pair("1", "a"), pair("2", "b"), pair("1", "a")],
    );
    assert_eq!(record.value_count(), 4);
    assert_eq!(record.value(0), Some((&"3".to_string(), &"c".to_string())));
    assert_eq!(record.value(1), Some((&"1".to_string(), &"a".to_string())));
    assert_eq!(record.value(2), Some((&"2".to_string(), &"b".to_string())));
    assert_eq!(record.value(3), Some((&"1".to_string(), &"a".to_string())));
    assert_eq!(record.value(4), None);
}

#[test]
fn a_label_given_twice_keeps_the_later_value() {
    let record = LogMessage::from_parts(
        vec![pair("job", "old"), pair("host", "zoomer"), pair("job", "new")],
        vec![],
    );
    assert_eq!(record.label_count(), 2);
    assert_eq!(record.label("job"), Some(&"new".to_string()));
    assert_eq!(record.label("host"), Some(&"zoomer".to_string()));
}

#[test]
fn empty_record_has_nothing() {
    let record = LogMessage::from_parts(vec![], vec![]);
    assert_eq!(record.label_count(), 0);
    assert_eq!(record.value_count(), 0);
    assert_eq!(record.label(""), None);
    assert_eq!(record.value(0), None);
}

#[test]
fn label_names_are_compared_whole() {
    let record = LogMessage::from_parts(vec![pair("job", "x"), pair("", "blank")], vec![]);
    assert_eq!(record.label("jo"), None);
    assert_eq!(record.label("jobs"), None);
    assert_eq!(record.label("Job"), None);
    assert_eq!(record.label(""), Some(&"blank".to_string()));
}

#[test]
fn record_comes_apart_into_what_it_holds() {
    let record = LogMessage::from_parts(
        vec![pair("job", "old"), pair("host", "zoomer"), pair("job", "new")],
        vec![pair("1", "a"), pair("2", "b")],
    );
    let (stream, values) = record.into_parts();
    assert_eq!(stream, vec![pair("job", "new"), pair("host", "zoomer")]);
    assert_eq!(values, vec![pair("1", "a"), pair("2", "b")]);
}

#[test]
fn clone_holds_the_same_record() {
    let record = LogMessage::from_parts(vec![pair("job", "x")], vec![pair("1", "hello")]);
    let copy = record.clone();
    assert_eq!(copy.label("job"), Some(&"x".to_string()));
    assert_eq!(copy.value(0), Some((&"1".to_string(), &"hello".to_string())));
    assert_eq!(copy.into_parts(), record.into_parts());
}
