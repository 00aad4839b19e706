use multifon::client::Error;
use multifon::{Routing, Status, API};

#[test]
fn routing_token_round_trip() {
    for t in ["GSM", "SIP", "SIP+GSM", "gsm", "sip+gsm"] {
        let m = Routing::parse(t).unwrap();
        assert_eq!(Routing::parse(m.as_str()), Ok(m));
    }
}

#[test]
fn routing_ordinal_round_trip() {
    for o in 0..3 {
        assert_eq!(Routing::from_ordinal(o).unwrap().ordinal(), o);
    }
    assert_eq!(Routing::from_ordinal(1), Ok(Routing::Sip));
    assert_eq!(Routing::SipGsm.ordinal(), 2);
}

#[test]
fn routing_parse_ignores_case() {
    let a = Routing::parse("sip").unwrap();
    let b = Routing::parse("Sip").unwrap();
    let c = Routing::parse("SIP").unwrap();
    assert_eq!(a, Routing::Sip);
    assert_eq!(a, b);
    assert_eq!(b, c);
    assert_eq!(Routing::parse("Sip+gSm"), Ok(Routing::SipGsm));
}

#[test]
fn routing_parse_rejects_unknown() {
    assert_eq!(
        Routing::parse("bogus"),
        Err(Error::InvalidValue("invalid value: bogus".to_string()))
    );
    assert!(matches!(Routing::parse(""), Err(Error::InvalidValue(_))));
    assert!(matches!(Routing::parse("SIP "), Err(Error::InvalidValue(_))));
    assert!(matches!(Routing::parse("SI"), Err(Error::InvalidValue(_))));
    assert!(matches!(Routing::parse("SIP+GSM+"), Err(Error::InvalidValue(_))));
}

#[test]
fn routing_rejects_unknown_ordinal() {
    assert!(matches!(Routing::from_ordinal(3), Err(Error::InvalidValue(_))));
    assert!(matches!(Routing::from_ordinal(-1), Err(Error::InvalidValue(_))));
}

#[test]
fn routing_tokens_and_default() {
    assert_eq!(Routing::Gsm.as_str(), "GSM");
    assert_eq!(Routing::Sip.as_str(), "SIP");
    assert_eq!(Routing::SipGsm.as_str(), "SIP+GSM");
    assert_eq!(Routing::default(), Routing::Gsm);
}

#[test]
fn status_codec() {
    assert_eq!(Status::Active.as_str(), "active");
    assert_eq!(Status::Blocked.as_str(), "blocked");
    assert_eq!(Status::from_ordinal(0), Ok(Status::Active));
    assert_eq!(Status::from_ordinal(1), Ok(Status::Blocked));
    assert!(matches!(Status::from_ordinal(2), Err(Error::InvalidValue(_))));
    assert_eq!(Status::Blocked.ordinal(), 1);
    assert_eq!(Status::Active.ordinal(), 0);
    assert_eq!(Status::default(), Status::Active);
}

#[test]
fn api_codec() {
    assert_eq!(API::Multifon.value(), "https://sm.megafon.ru/sm/client");
    assert_eq!(API::Emotion.value(), "https://emotion.megalabs.ru/sm/client");
    assert_eq!(API::parse("multifon"), Ok(API::Multifon));
    assert_eq!(API::parse("EMOTION"), Ok(API::Emotion));
    assert_eq!(API::parse(API::Emotion.as_str()), Ok(API::Emotion));
    assert_eq!(
        API::parse("megafon"),
        Err(Error::InvalidValue("invalid value: megafon".to_string()))
    );
    assert_eq!(API::default(), API::Multifon);
}

#[test]
fn parse_follows_unicode_upper_case() {
    assert_eq!(Routing::parse("\u{17f}ip"), Ok(Routing::Sip));
    assert_eq!(Routing::parse("s\u{131}p"), Ok(Routing::Sip));
    assert_eq!(Routing::parse("\u{17f}\u{131}p+g\u{17f}m"), Ok(Routing::SipGsm));
    assert_eq!(API::parse("mult\u{131}fon"), Ok(API::Multifon));
    assert_eq!(API::parse("emot\u{131}on"), Ok(API::Emotion));
    assert!(matches!(Routing::parse("\u{131}ip"), Err(Error::InvalidValue(_))));
    assert!(matches!(Routing::parse("s\u{ec}p"), Err(Error::InvalidValue(_))));
    for t in ["\u{17f}ip", "s\u{131}p", "gsm"] {
        assert_eq!(t.to_uppercase() == "SIP" || t.to_uppercase() == "GSM", Routing::parse(t).is_ok());
    }
}
