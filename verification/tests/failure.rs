use voice_assistant::failure::{Expected, Failure};

#[test]
fn a_local_failure_is_reported_by_its_description() {
    let failure = Failure::Io("No such file or directory (os error 2)".to_string());
    assert_eq!(failure.message(), "No such file or directory (os error 2)");
}

#[test]
fn a_transport_failure_is_reported_by_its_description() {
    let failure = Failure::Transport("connection refused".to_string());
    assert_eq!(failure.message(), "connection refused");
}

#[test]
fn a_refusal_is_reported_with_the_body_it_came_with() {
    let failure = Failure::Remote("{\"error\": \"bad key\"}".to_string());
    assert_eq!(failure.message(), "{\"error\": \"bad key\"}");
    assert_eq!(Failure::Remote("busy".to_string()).message(), "busy");
    assert_eq!(Failure::Remote(String::new()).message(), "");
}

#[test]
fn a_parse_failure_is_reported_by_its_description() {
    let failure = Failure::Parse("expected value at line 1 column 1".to_string());
    assert_eq!(failure.message(), "expected value at line 1 column 1");
}

#[test]
fn a_missing_part_is_reported_by_name() {
    assert_eq!(Failure::Missing(Expected::Text).message(), "missing field `text`");
    assert_eq!(Failure::Missing(Expected::Choices).message(), "missing field `choices`");
    assert_eq!(Failure::Missing(Expected::FirstChoice).message(), "no element in `choices`");
    assert_eq!(Failure::Missing(Expected::Message).message(), "missing field `message`");
    assert_eq!(Failure::Missing(Expected::Content).message(), "missing field `content`");
    assert_eq!(Expected::Text.message(), "missing field `text`");
}

#[test]
fn an_event_out_of_order_is_reported_as_such() {
    assert_eq!(Failure::OutOfOrder.message(), "unexpected event");
}

#[test]
fn a_copy_of_a_failure_equals_it() {
    let failure = Failure::Remote("busy".to_string());
    assert_eq!(failure.clone(), failure);
    assert_eq!(Failure::Missing(Expected::Content).clone(), Failure::Missing(Expected::Content));
    assert_eq!(Failure::OutOfOrder.clone(), Failure::OutOfOrder);
}
