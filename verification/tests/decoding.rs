use kal::relay::{handle_reply, RelayCmnd, RelayCmndError};
use kal::schedule::Mode;
use kal::togglable::Togglable;

#[test]
fn lenient_on_synonyms() {
    for payload in [
        b"ON".as_slice(),
        b"On".as_slice(),
        b"on".as_slice(),
        b"TRUE".as_slice(),
        b"True".as_slice(),
        b"true".as_slice(),
        b"1".as_slice(),
    ] {
        assert_eq!(Togglable::from_bytes(payload), Togglable::On);
    }
}

#[test]
fn lenient_off_synonyms() {
    for payload in [
        b"OFF".as_slice(),
        b"Off".as_slice(),
        b"off".as_slice(),
        b"FALSE".as_slice(),
        b"False".as_slice(),
        b"false".as_slice(),
        b"0".as_slice(),
    ] {
        assert_eq!(Togglable::from_bytes(payload), Togglable::Off);
    }
}

#[test]
fn lenient_everything_else_is_toggle() {
    for payload in [
        b"".as_slice(),
        b"TOGGLE".as_slice(),
        b"tRue".as_slice(),
        b"2".as_slice(),
        b"onn".as_slice(),
        b"oN".as_slice(),
        b"yes".as_slice(),
    ] {
        assert_eq!(Togglable::from_bytes(payload), Togglable::Toggle);
    }
}

#[test]
fn strict_accepts_exact_tokens_only() {
    assert_eq!(RelayCmnd::try_from(b"ON").unwrap(), RelayCmnd::On);
    assert_eq!(RelayCmnd::try_from(b"OFF").unwrap(), RelayCmnd::Off);
    assert_eq!(RelayCmnd::try_from(b"TOGGLE").unwrap(), RelayCmnd::Toggle);
}

#[test]
fn strict_rejects_everything_else_with_the_payload() {
    for payload in [
        b"On".as_slice(),
        b"on".as_slice(),
        b"".as_slice(),
        b"1".as_slice(),
        b"ONN".as_slice(),
        b"toggle".as_slice(),
    ] {
        match RelayCmnd::try_from(payload) {
            Ok(c) => panic!("unexpectedly decoded {:?} from {:?}", c, payload),
            Err(RelayCmndError::InvalidPayload(p)) => assert_eq!(p, payload),
        }
    }
}

#[test]
fn togglable_from_bool_and_option() {
    assert_eq!(Togglable::from(true), Togglable::On);
    assert_eq!(Togglable::from(false), Togglable::Off);
    assert_eq!(Togglable::from(Some(true)), Togglable::On);
    assert_eq!(Togglable::from(Some(false)), Togglable::Off);
    assert_eq!(Togglable::from(None::<bool>), Togglable::Toggle);
    assert_eq!(Togglable::default(), Togglable::Off);
}

#[test]
fn togglable_text_forms() {
    assert_eq!(Togglable::On.as_str(), "true");
    assert_eq!(Togglable::Off.as_str(), "false");
    assert_eq!(Togglable::Toggle.as_str(), "toggle");
}

#[test]
fn mode_tokens() {
    assert_eq!(Mode::from_bytes(b"Auto"), Some(Mode::Auto));
    assert_eq!(Mode::from_bytes(b"On"), Some(Mode::On));
    assert_eq!(Mode::from_bytes(b"Off"), Some(Mode::Off));
    assert_eq!(Mode::from_bytes(b"auto"), None);
    assert_eq!(Mode::from_bytes(b"ON"), None);
    assert_eq!(Mode::from_bytes(b""), None);
    assert_eq!(Mode::default(), Mode::Auto);
}

#[test]
fn error_reply_contributes_no_command() {
    match handle_reply(false, b"ON") {
        Ok(None) => {}
        other => panic!("unexpected {:?}", other),
    }
}

#[test]
fn ok_reply_is_decoded_strictly() {
    match handle_reply(true, b"TOGGLE") {
        Ok(Some(RelayCmnd::Toggle)) => {}
        other => panic!("unexpected {:?}", other),
    }
    match handle_reply(true, b"toggle") {
        Err(RelayCmndError::InvalidPayload(p)) => assert_eq!(p, b"toggle"),
        other => panic!("unexpected {:?}", other),
    }
}

#[test]
fn led_reply_decodes_leniently_and_ignores_error_replies() {
    assert_eq!(Togglable::from_reply(false, b"on"), None);
    assert_eq!(Togglable::from_reply(true, b"on"), Some(Togglable::On));
    assert_eq!(Togglable::from_reply(true, b"garbage"), Some(Togglable::Toggle));
}
