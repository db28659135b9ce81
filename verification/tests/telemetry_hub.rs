use kal::kalval::{KalError, KalVal, KeyExprType};
use kal::telemetry::TelemetryHub;

#[test]
fn fourth_sample_blocks_until_one_is_drained() {
    let mut hub = TelemetryHub::new(3);
    assert_eq!(hub.capacity(), 3);
    assert!(hub.try_send(KalVal::Relay(true)).is_ok());
    assert!(hub.try_send(KalVal::Temperature(1900)).is_ok());
    assert!(hub.try_send(KalVal::Humidity(5000)).is_ok());
    assert_eq!(hub.len(), 3);

    // The consumer is paused: the fourth sample is refused, handed back to
    // its producer rather than dropped, and the hub is untouched.
    assert_eq!(hub.try_send(KalVal::Led(false)), Err(KalVal::Led(false)));
    assert_eq!(hub.len(), 3);

    // One drain unblocks the producer and its retry succeeds.
    assert_eq!(hub.recv(), Some(KalVal::Relay(true)));
    assert!(hub.try_send(KalVal::Led(false)).is_ok());

    // Dequeue order matches enqueue order.
    assert_eq!(hub.recv(), Some(KalVal::Temperature(1900)));
    assert_eq!(hub.recv(), Some(KalVal::Humidity(5000)));
    assert_eq!(hub.recv(), Some(KalVal::Led(false)));
    assert_eq!(hub.recv(), None);
    assert_eq!(hub.len(), 0);
}

#[test]
fn boolean_payloads_are_literal_strings() {
    assert_eq!(KalVal::Relay(true).as_string().unwrap().as_str(), "true");
    assert_eq!(KalVal::Relay(false).as_string().unwrap().as_str(), "false");
    assert_eq!(KalVal::Led(true).as_string().unwrap().as_str(), "true");
    assert_eq!(KalVal::Led(false).as_string().unwrap().as_str(), "false");
}

#[test]
fn numeric_payloads_have_exactly_two_decimals() {
    assert_eq!(KalVal::Temperature(1900).as_string().unwrap().as_str(), "19.00");
    assert_eq!(KalVal::Temperature(2050).as_string().unwrap().as_str(), "20.50");
    assert_eq!(KalVal::Humidity(5575).as_string().unwrap().as_str(), "55.75");
    assert_eq!(KalVal::DewPoint(1234).as_string().unwrap().as_str(), "12.34");
    assert_eq!(KalVal::Temperature(0).as_string().unwrap().as_str(), "0.00");
    assert_eq!(KalVal::Temperature(5).as_string().unwrap().as_str(), "0.05");
    assert_eq!(KalVal::Temperature(-5).as_string().unwrap().as_str(), "-0.05");
    assert_eq!(KalVal::Temperature(-2150).as_string().unwrap().as_str(), "-21.50");
    assert_eq!(KalVal::Temperature(10000000).as_string().unwrap().as_str(), "100000.00");
}

#[test]
fn too_wide_readings_report_a_capacity_error() {
    // "21474836.47" is eleven characters: one more than the wire string holds.
    assert_eq!(KalVal::Temperature(i32::MAX).as_string(), Err(KalError::Capacity));
    assert_eq!(KalVal::Temperature(i32::MIN).as_string(), Err(KalError::Capacity));
    // Ten characters still fit.
    assert_eq!(
        KalVal::Temperature(99999999).as_string().unwrap().as_str(),
        "999999.99"
    );
    assert_eq!(
        KalVal::Temperature(999999999).as_string().unwrap().as_str(),
        "9999999.99"
    );
    assert_eq!(KalVal::Temperature(1000000000).as_string(), Err(KalError::Capacity));
}

#[test]
fn topics_split_by_namespace_and_variant() {
    let cmnd = KeyExprType::Command;
    let tele = KeyExprType::Telemetry;
    assert_eq!(KalVal::Led(true).as_keyexpr(&cmnd), "kal/cmnd/led");
    assert_eq!(KalVal::Relay(false).as_keyexpr(&cmnd), "kal/cmnd/relay");
    assert_eq!(KalVal::Temperature(0).as_keyexpr(&tele), "kal/tele/temperature");
    assert_eq!(KalVal::Humidity(0).as_keyexpr(&tele), "kal/tele/humidity");
    assert_eq!(KalVal::DewPoint(0).as_keyexpr(&tele), "kal/tele/dewpoint");
    // The payload never changes the topic, and the namespaces never collide.
    for v in [
        KalVal::Led(true),
        KalVal::Led(false),
        KalVal::Relay(true),
        KalVal::Temperature(-100),
        KalVal::Humidity(9999),
        KalVal::DewPoint(0),
    ] {
        assert_ne!(v.as_keyexpr(&cmnd), v.as_keyexpr(&tele));
        assert!(v.as_keyexpr(&cmnd).starts_with("kal/cmnd/"));
        assert!(v.as_keyexpr(&tele).starts_with("kal/tele/"));
    }
}
