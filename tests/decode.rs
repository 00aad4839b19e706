use multifon::client::{decode_reply, Error, Query};
use multifon::xml::{document_of, XmlEvent};
use multifon::response::{
    self, decode_balance, decode_lines, decode_profile, decode_routing, decode_set_lines,
    decode_set_password, decode_set_routing, decode_status,
};
use multifon::{Client, Routing, Status};

fn client() -> Client {
    Client::new("user".to_string(), "secret".to_string(), None, None)
}

fn bad_login() -> Error {
    Error::API(response::Error { code: 500, description: "bad login".to_string() })
}

fn is_decode_error<T>(r: &Result<T, Error>) -> bool {
    matches!(r, Err(Error::Deserialization(_)))
}

#[test]
fn balance_body_decodes() {
    let body = b"<response><result><code>200</code></result><balance>12.5</balance></response>";
    let reply = decode_balance(body).unwrap();
    assert_eq!(reply.result.code, 200);
    assert_eq!(reply.result.description, "");
    let text = reply.balance.unwrap();
    assert_eq!(text, "12.5");
    let value: f64 = text.parse().unwrap();
    assert_eq!(value, 12.5);
}

#[test]
fn balance_absent_field() {
    let body = b"<response><result><code>200</code></result></response>";
    assert!(decode_balance(body).unwrap().balance.is_none());
}

#[test]
fn set_routing_body_with_echo_fails() {
    let body = b"<response><result><code>200</code></result><routing>1</routing></response>";
    let reply = decode_set_routing(body);
    assert_eq!(reply.as_ref().unwrap().routing, Some(Routing::Sip));
    assert_eq!(client().set_routing(reply), Err(Error::SetFailed("routing".to_string())));
}

#[test]
fn set_routing_body_without_echo_succeeds() {
    let body = b"<response><result><code>200</code></result></response>";
    let reply = decode_set_routing(body);
    assert_eq!(reply.as_ref().unwrap().routing, None);
    assert_eq!(client().set_routing(reply), Ok(()));
}

#[test]
fn remote_error_body_under_every_schema() {
    let body = b"<response><result><code>500</code><description>bad login</description></result></response>";
    assert_eq!(decode_balance(body).unwrap_err(), bad_login());
    assert_eq!(decode_routing(body).unwrap_err(), bad_login());
    assert_eq!(decode_set_routing(body).unwrap_err(), bad_login());
    assert_eq!(decode_status(body).unwrap_err(), bad_login());
    assert_eq!(decode_profile(body).unwrap_err(), bad_login());
    assert_eq!(decode_lines(body).unwrap_err(), bad_login());
    assert_eq!(decode_set_lines(body).unwrap_err(), bad_login());
    assert_eq!(decode_set_password(body).unwrap_err(), bad_login());
    let mut c = client();
    assert_eq!(c.set_password("newpw", decode_set_password(body)), Err(bad_login()));
    assert_eq!(c.set_lines(decode_set_lines(body)), Err(bad_login()));
}

#[test]
fn remote_error_wins_over_bad_payload() {
    let body = b"<response><result><code>500</code><description>bad login</description></result><routing>x</routing><status>9</status><ParallelCallsSipOut>many</ParallelCallsSipOut></response>";
    assert_eq!(decode_routing(body).unwrap_err(), bad_login());
    assert_eq!(decode_set_routing(body).unwrap_err(), bad_login());
    assert_eq!(decode_status(body).unwrap_err(), bad_login());
    assert_eq!(decode_lines(body).unwrap_err(), bad_login());
    assert_eq!(decode_set_lines(body).unwrap_err(), bad_login());
}

#[test]
fn malformed_bodies() {
    assert!(is_decode_error(&decode_balance(b"<response><result><code>200</code></result>")));
    assert!(is_decode_error(&decode_balance(b"not xml at all")));
    assert!(is_decode_error(&decode_balance(b"")));
    assert!(is_decode_error(&decode_balance(b"<response><balance>1</balance></response>")));
    assert!(is_decode_error(&decode_balance(
        b"<response><result><description>x</description></result></response>"
    )));
    assert!(is_decode_error(&decode_balance(
        b"<response><result><code>ok</code></result></response>"
    )));
    assert!(is_decode_error(&decode_balance(
        b"<response><result><code>99999999999</code></result></response>"
    )));
    assert!(is_decode_error(&decode_lines(
        b"<response><result><code>200</code></result><ParallelCallsSipOut>two</ParallelCallsSipOut></response>"
    )));
    assert!(is_decode_error(&decode_routing(
        b"<response><result><code>200</code></result><routing>7</routing></response>"
    )));
    assert!(is_decode_error(&decode_status(
        b"<response><result><code>200</code></result><status>2</status></response>"
    )));
    assert!(is_decode_error(&decode_profile(
        b"<response><result><code>200</code></result><msisdn>&bogus;</msisdn></response>"
    )));
}

#[test]
fn unknown_elements_are_skipped() {
    let body = b"<response><extra><a><b><c>1</c></b><d/></a></extra><result><code>200</code><server>x</server></result><msisdn>7926</msisdn></response>";
    assert_eq!(decode_profile(body).unwrap().value(), "7926");
    let first = b"<response><result><code>200</code></result><routing>1</routing><routing>2</routing></response>";
    assert_eq!(decode_routing(first).unwrap().value(), Routing::Sip);
}

#[test]
fn routing_body_decodes() {
    let body = b"<?xml version=\"1.0\" encoding=\"UTF-8\"?>\n<response>\n  <result>\n    <code>200</code>\n    <description>OK</description>\n  </result>\n  <routing>2</routing>\n</response>\n";
    let reply = decode_routing(body).unwrap();
    assert_eq!(reply.value(), Routing::SipGsm);
    assert_eq!(reply.result.description, "OK");
    let absent = decode_routing(b"<response><result><code>200</code></result></response>");
    assert_eq!(absent.unwrap().value(), Routing::Gsm);
}

#[test]
fn status_body_decodes() {
    let body = b"<response><result><code>200</code></result><status>1</status><expires>2024-01-31</expires></response>";
    let reply = decode_status(body).unwrap();
    assert_eq!(reply.value(), Status::Blocked);
    assert_eq!(reply.expires, Some("2024-01-31".to_string()));
    let body = b"<response><result><code>200</code></result><status>0</status></response>";
    let reply = decode_status(body).unwrap();
    assert_eq!(reply.value(), Status::Active);
    assert_eq!(reply.expires, None);
}

#[test]
fn profile_body_decodes() {
    let body = b"<response><result><code>200</code></result><msisdn>79261234567</msisdn></response>";
    assert_eq!(decode_profile(body).unwrap().value(), "79261234567");
    let empty = decode_profile(b"<response><result><code>200</code></result></response>");
    assert_eq!(empty.unwrap().value(), "");
}

#[test]
fn lines_bodies_decode() {
    let body = b"<response><result><code>200</code></result><ParallelCallsSipOut>3</ParallelCallsSipOut></response>";
    assert_eq!(decode_lines(body).unwrap().value(), 3);
    let neg = b"<response><result><code>200</code></result><ParallelCallsSipOut>-2</ParallelCallsSipOut></response>";
    assert_eq!(decode_lines(neg).unwrap().value(), -2);
    assert_eq!(decode_set_lines(body).unwrap().lines, Some(3));
    assert_eq!(client().set_lines(decode_set_lines(body)), Err(Error::SetFailed("lines".to_string())));
    let applied = b"<response><result><code>200</code></result></response>";
    assert_eq!(decode_lines(applied).unwrap().value(), 0);
    assert_eq!(client().set_lines(decode_set_lines(applied)), Ok(()));
}

#[test]
fn entities_and_cdata_in_text() {
    let body = b"<response><result><code>401</code><description>login &amp; password &lt;wrong&gt;</description></result></response>";
    assert_eq!(
        decode_set_password(body).unwrap_err(),
        Error::API(response::Error {
            code: 401,
            description: "login & password <wrong>".to_string()
        })
    );
    let body = b"<response><result><code>200</code></result><msisdn><![CDATA[7926]]></msisdn></response>";
    assert_eq!(decode_profile(body).unwrap().value(), "7926");
}

#[test]
fn password_body_round() {
    let mut c = client();
    let ok = b"<response><result><code>200</code></result></response>";
    assert_eq!(c.set_password("newpw", decode_set_password(ok)), Ok(()));
    let req = c.request(&multifon::client::Query::Profile);
    assert_eq!(req.query[1].1, multifon::client::Value::Text("newpw".to_string()));
}

fn balance_body(text: &str) -> Vec<u8> {
    format!("<response><result><code>200</code></result><balance>{}</balance></response>", text)
        .into_bytes()
}

#[test]
fn balance_must_be_a_number() {
    for bad in ["abc", "1.2.3", "", "1e", "+", ".", "--1", "1,5", "12.5 RUB"] {
        assert!(is_decode_error(&decode_balance(&balance_body(bad))), "{}", bad);
    }
    for good in ["-3", ".5", "5.", "1e3", "+0.25", "2.5E-2", " 7 "] {
        let reply = decode_balance(&balance_body(good)).unwrap();
        let text = reply.balance.unwrap();
        assert_eq!(text, good.trim());
        assert!(text.parse::<f64>().is_ok());
    }
}

#[test]
fn character_references_resolve() {
    let body = b"<response><result><code>200</code></result><msisdn>&#55;&#x39;&#X41;</msisdn></response>";
    assert!(is_decode_error(&decode_profile(body)));
    let body = b"<response><result><code>200</code></result><msisdn>&#55;&#x39;&#x4a;1</msisdn></response>";
    assert_eq!(decode_profile(body).unwrap().value(), "79J1");
    for bad in ["&#0;", "&#xD800;", "&#+5;", "&#x;", "&#99999999999;", "&#x110000;"] {
        let body = format!(
            "<response><result><code>200</code></result><msisdn>{}</msisdn></response>",
            bad
        );
        assert!(is_decode_error(&decode_profile(body.as_bytes())), "{}", bad);
    }
}

#[test]
fn comments_and_declarations_are_ignored() {
    let body = b"<?xml version=\"1.0\"?><!DOCTYPE response><!-- c --><response><?pi x?><result><code>200</code><!-- note --></result><msisdn>7<!-- a -->9</msisdn></response>";
    assert_eq!(decode_profile(body).unwrap().value(), "79");
}

#[test]
fn document_from_given_events() {
    let ev = |k: &str, s: &str| match k {
        "open" => XmlEvent::Open(s.to_string()),
        "close" => XmlEvent::Close(s.to_string()),
        "text" => XmlEvent::Text(s.to_string()),
        "cdata" => XmlEvent::CData(s.to_string()),
        _ => XmlEvent::Reference(s.to_string()),
    };
    let events = vec![
        XmlEvent::Markup,
        ev("open", "response"),
        ev("open", "result"),
        ev("open", "code"),
        ev("text", " 200 "),
        ev("close", "code"),
        ev("close", "result"),
        ev("open", "msisdn"),
        ev("cdata", "79"),
        ev("ref", "amp"),
        ev("ref", "#x41"),
        ev("close", "msisdn"),
        XmlEvent::Markup,
        ev("close", "response"),
    ];
    let doc = document_of(events).unwrap();
    assert_eq!(doc.len(), 2);
    assert_eq!(doc[0].name, "result");
    assert_eq!(doc[0].kids, vec![("code".to_string(), "200".to_string())]);
    assert_eq!(doc[1].name, "msisdn");
    assert_eq!(doc[1].text, "79&A");
    assert!(document_of(vec![ev("open", "response")]).is_none());
    assert!(document_of(vec![ev("close", "response")]).is_none());
    assert!(document_of(vec![]).is_none());
    let two_roots = vec![XmlEvent::Empty("a".to_string()), XmlEvent::Empty("b".to_string())];
    assert!(document_of(two_roots).is_none());
}

#[test]
fn any_schema_reports_the_remote_failure() {
    let body = b"<response><result><code>500</code><description>bad login</description></result><routing>x</routing><balance>abc</balance><status>7</status><ParallelCallsSipOut>z</ParallelCallsSipOut></response>";
    let queries = [
        Query::Balance,
        Query::Routing,
        Query::SetRouting(Routing::Sip),
        Query::Status,
        Query::Profile,
        Query::Lines,
        Query::SetLines(2),
        Query::SetPassword("pw".to_string()),
    ];
    for q in queries.iter() {
        assert_eq!(decode_reply(q, body).unwrap_err(), bad_login());
    }
    let ok = b"<response><result><code>200</code></result><routing>2</routing></response>";
    match decode_reply(&Query::Routing, ok).unwrap() {
        multifon::client::Reply::Routing(r) => assert_eq!(r.value(), Routing::SipGsm),
        other => panic!("unexpected reply {:?}", other),
    }
    assert!(is_decode_error(&decode_reply(&Query::Balance, &balance_body("x"))));
}
