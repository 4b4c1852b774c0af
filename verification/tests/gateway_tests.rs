use stripe_testbed::error::ApiError;
use stripe_testbed::model::{has_latest_charge, settlement_ready, ChargeRecord};
use stripe_testbed::remote::{interpret_response, parse_document};
use stripe_testbed::settings::{config_api_key, PaymentSettings};

fn charge_from(text: &str) -> ChargeRecord {
    let doc = parse_document(text).expect("well-formed JSON");
    ChargeRecord::of_doc(&doc)
}

#[test]
fn remote_error_preserves_status_and_body() {
    let body = "{\"error\":{\"message\":\"card declined\"}}";
    match interpret_response(402, body.to_string()) {
        Err(ApiError::Remote { status, body: b }) => {
            assert_eq!(status, 402);
            assert_eq!(b, body);
        }
        _ => panic!("expected a remote error"),
    }
}

#[test]
fn success_status_parses_body() {
    let doc =
        interpret_response(200, "{\"status\":\"succeeded\",\"id\":\"pi_1\"}".to_string())
            .expect("a success body parses");
    assert_eq!(doc.str_field_or("status", "unknown"), "succeeded");
    assert_eq!(doc.str_field_or("id", ""), "pi_1");
    assert_eq!(doc.str_field_or("absent", "fallback"), "fallback");
}

#[test]
fn malformed_success_body_is_parse_error() {
    match interpret_response(200, "{not json".to_string()) {
        Err(ApiError::Parse(detail)) => assert!(!detail.is_empty()),
        _ => panic!("expected a parse error"),
    }
}

#[test]
fn integer_fields_come_back_exact() {
    let doc = parse_document("{\"amount\":1000,\"net\":-5,\"text\":\"x\"}").unwrap();
    assert_eq!(doc.int_field("amount"), Some(1000));
    assert_eq!(doc.int_field("net"), Some(-5));
    assert_eq!(doc.int_field("text"), None);
    assert_eq!(doc.int_field("absent"), None);
}

#[test]
fn readiness_needs_a_present_amount() {
    let absent = charge_from("{\"status\":\"succeeded\",\"latest_charge\":null}");
    assert!(!settlement_ready(&absent));
    let null_amount = charge_from(
        "{\"status\":\"succeeded\",\"latest_charge\":{\"balance_transaction\":{\"amount\":null}}}",
    );
    assert!(!settlement_ready(&null_amount));
    let zero = charge_from(
        "{\"status\":\"succeeded\",\"latest_charge\":{\"balance_transaction\":{\"amount\":0}}}",
    );
    assert!(settlement_ready(&zero));
    let positive = charge_from(
        "{\"status\":\"succeeded\",\"latest_charge\":{\"balance_transaction\":{\"amount\":1200}}}",
    );
    assert!(settlement_ready(&positive));
}

#[test]
fn a_charge_is_there_only_when_not_null() {
    let absent = parse_document("{\"id\":\"pi_1\"}").unwrap();
    assert!(!has_latest_charge(&absent));
    let null = parse_document("{\"latest_charge\":null}").unwrap();
    assert!(!has_latest_charge(&null));
    let by_id = parse_document("{\"latest_charge\":\"ch_1\"}").unwrap();
    assert!(has_latest_charge(&by_id));
    let expanded = parse_document("{\"latest_charge\":{\"id\":\"ch_1\"}}").unwrap();
    assert!(has_latest_charge(&expanded));
}

#[test]
fn absent_fields_fall_back_in_the_charge_copy() {
    let c = charge_from("{}");
    assert_eq!(c.id, "");
    assert_eq!(c.status, "unknown");
    assert!(c.settlement.is_none());
}

#[test]
fn missing_poll_settings_yield_defaults() {
    let doc = parse_document("{\"stripe_api_key\":\"test_key_value\"}").unwrap();
    let s = PaymentSettings::of_config_doc(&doc).expect("defaults apply");
    assert_eq!(s.check_interval, 5);
    assert_eq!(s.max_attempts, 6);
    assert_eq!(config_api_key(&doc).expect("key given"), "test_key_value");
}

#[test]
fn null_poll_settings_yield_defaults() {
    let doc = parse_document("{\"payment_settings\":null}").unwrap();
    let s = PaymentSettings::of_config_doc(&doc).unwrap();
    assert_eq!(s.check_interval, 5);
    assert_eq!(s.max_attempts, 6);
}

#[test]
fn partial_poll_settings_fill_missing_fields() {
    let doc = parse_document("{\"payment_settings\":{\"max_attempts\":3}}").unwrap();
    let s = PaymentSettings::of_config_doc(&doc).unwrap();
    assert_eq!(s.check_interval, 5);
    assert_eq!(s.max_attempts, 3);
}

#[test]
fn partial_settings_fill_defaults_field_by_field() {
    let s = PaymentSettings::from_partial(None, Some(9));
    assert_eq!(s.check_interval, 5);
    assert_eq!(s.max_attempts, 9);
    let t = PaymentSettings::from_partial(Some(2), None);
    assert_eq!(t.check_interval, 2);
    assert_eq!(t.max_attempts, 6);
    let d = PaymentSettings::from_partial(None, None);
    assert_eq!(d.check_interval, 5);
    assert_eq!(d.max_attempts, 6);
}

#[test]
fn ill_typed_settings_are_a_config_error() {
    let doc = parse_document("{\"payment_settings\":{\"max_attempts\":\"six\"}}").unwrap();
    match PaymentSettings::of_config_doc(&doc) {
        Err(ApiError::Config(m)) => {
            assert_eq!(
                m,
                "missing or invalid configuration field: payment_settings.max_attempts"
            );
        }
        _ => panic!("expected a config error"),
    }
}

#[test]
fn missing_api_key_is_a_config_error() {
    let doc = parse_document("{}").unwrap();
    match config_api_key(&doc) {
        Err(ApiError::Config(m)) => {
            assert_eq!(m, "missing or invalid configuration field: stripe_api_key");
        }
        _ => panic!("expected a config error"),
    }
}
