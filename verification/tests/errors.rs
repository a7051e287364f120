use dms_sdk::text::push_decimal;
use dms_sdk::SdkError;

#[test]
fn sdk_error_messages() {
    assert_eq!(SdkError::Transport("down".into()).message(), "transport error: down");
    assert_eq!(SdkError::Serialization("bad".into()).message(), "serialization error: bad");
    assert_eq!(SdkError::Auth("empty access token".into()).message(), "auth error: empty access token");
    assert_eq!(SdkError::InvalidInput("x".into()).message(), "invalid input: x");
    assert_eq!(
        SdkError::Api { status: 404, message: "not found".into() }.message(),
        "api error 404: not found"
    );
}

#[test]
fn api_status_is_printed_in_decimal() {
    for (status, text) in [
        (0u16, "api error 0: "),
        (7, "api error 7: "),
        (10, "api error 10: "),
        (400, "api error 400: "),
        (9999, "api error 9999: "),
        (10000, "api error 10000: "),
        (65535, "api error 65535: "),
    ] {
        assert_eq!(SdkError::Api { status, message: String::new() }.message(), text);
    }
}

#[test]
fn api_constructor_fills_both_fields() {
    match SdkError::api(418, "teapot".to_string()) {
        SdkError::Api { status, message } => {
            assert_eq!(status, 418);
            assert_eq!(message, "teapot");
        }
        other => panic!("unexpected: {:?}", other),
    }
}

#[test]
fn push_decimal_appends() {
    let mut out = String::from("n=");
    push_decimal(&mut out, 120);
    push_decimal(&mut out, 0);
    push_decimal(&mut out, 65535);
    assert_eq!(out, "n=120065535");
}
