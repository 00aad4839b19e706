use multifon::client::{check_status, validate, Error, Query, Value};
use multifon::response::{self, SetLines, SetPassword, SetRouting, XMLResult, XMLResultChecker};
use multifon::{Client, Routing, Status, API, DEFAULT_TIMEOUT};

fn envelope(code: i32, description: &str) -> XMLResult {
    XMLResult { code, description: description.to_string() }
}

fn client() -> Client {
    Client::new("user".to_string(), "secret".to_string(), None, None)
}

fn password_sent(c: &Client) -> Value {
    c.request(&Query::Balance).query[1].1.clone()
}

fn remote(code: i32, description: &str) -> Error {
    Error::API(response::Error { code, description: description.to_string() })
}

#[test]
fn success_envelope_passes() {
    assert!(validate(Ok(envelope(200, ""))).is_ok());
    assert_eq!(envelope(200, "").check(), Ok(()));
}

#[test]
fn set_routing_echo_is_failure() {
    let reply = SetRouting { result: envelope(200, ""), routing: Some(Routing::Sip) };
    assert_eq!(
        client().set_routing(Ok(reply)),
        Err(Error::SetFailed("routing".to_string()))
    );
}

#[test]
fn set_routing_without_echo_succeeds() {
    let reply = SetRouting { result: envelope(200, ""), routing: None };
    assert_eq!(client().set_routing(Ok(reply)), Ok(()));
}

#[test]
fn remote_error_under_every_schema() {
    let c = client();
    let e = remote(500, "bad login");
    let routing = response::Routing { result: envelope(500, "bad login"), routing: Routing::Sip };
    assert_eq!(validate(Ok(routing)).unwrap_err(), e);
    let status = response::Status {
        result: envelope(500, "bad login"),
        status: Status::Blocked,
        expires: Some("2030-01-01".to_string()),
    };
    assert_eq!(validate(Ok(status)).unwrap_err(), e);
    let profile = response::Profile { result: envelope(500, "bad login"), msisdn: String::new() };
    assert_eq!(validate(Ok(profile)).unwrap_err(), e);
    let lines = response::Lines { result: envelope(500, "bad login"), lines: 2 };
    assert_eq!(validate(Ok(lines)).unwrap_err(), e);
    let set_routing = SetRouting { result: envelope(500, "bad login"), routing: Some(Routing::Gsm) };
    assert_eq!(c.set_routing(Ok(set_routing)), Err(e.clone()));
    let set_lines = SetLines { result: envelope(500, "bad login"), lines: Some(3) };
    assert_eq!(c.set_lines(Ok(set_lines)), Err(e.clone()));
    assert_eq!(validate(Ok(envelope(500, "bad login"))).unwrap_err(), e);
    assert_eq!(
        envelope(404, "").check(),
        Err(response::Error { code: 404, description: String::new() })
    );
}

#[test]
fn transport_failure_keeps_credentials() {
    let mut c = client();
    let e = Error::Transport("operation timed out".to_string());
    assert_eq!(c.set_password("newpw", Err(e.clone())), Err(e));
    assert_eq!(password_sent(&c), Value::Text("secret".to_string()));
    assert_eq!(c.get_login(), "user");
}

#[test]
fn new_password_used_after_success() {
    let mut c = client();
    let reply = SetPassword { result: envelope(200, "") };
    assert_eq!(c.set_password("newpw", Ok(reply)), Ok(()));
    assert_eq!(password_sent(&c), Value::Text("newpw".to_string()));
    let req = c.request(&Query::SetRouting(Routing::Sip));
    assert_eq!(req.query[1].1, Value::Text("newpw".to_string()));
}

#[test]
fn old_password_kept_after_failure() {
    let mut c = client();
    let reply = SetPassword { result: envelope(401, "denied") };
    assert_eq!(c.set_password("newpw", Ok(reply)), Err(remote(401, "denied")));
    assert_eq!(password_sent(&c), Value::Text("secret".to_string()));
    let e = Error::Deserialization("missing field `result`".to_string());
    assert_eq!(c.set_password("newpw", Err(e.clone())), Err(e));
    assert_eq!(password_sent(&c), Value::Text("secret".to_string()));
}

#[test]
fn request_layout() {
    let c = client();
    let req = c.request(&Query::SetRouting(Routing::SipGsm));
    assert_eq!(req.url, "https://sm.megafon.ru/sm/client/routing");
    assert_eq!(req.timeout, DEFAULT_TIMEOUT);
    assert_eq!(
        req.query,
        vec![
            ("login".to_string(), Value::Text("user".to_string())),
            ("password".to_string(), Value::Text("secret".to_string())),
            ("routing".to_string(), Value::Int(2)),
        ]
    );
    let req = c.request(&Query::SetLines(3));
    assert_eq!(req.url, "https://sm.megafon.ru/sm/client/lines");
    assert_eq!(req.query[2], ("lines".to_string(), Value::Int(3)));
    let req = c.request(&Query::SetPassword("pw2".to_string()));
    assert_eq!(req.url, "https://sm.megafon.ru/sm/client/password");
    assert_eq!(req.query[2], ("new_password".to_string(), Value::Text("pw2".to_string())));
    for (q, path) in [
        (Query::Balance, "balance"),
        (Query::Routing, "routing"),
        (Query::Status, "status"),
        (Query::Profile, "profile"),
        (Query::Lines, "lines"),
    ] {
        let req = c.request(&q);
        assert_eq!(req.url, format!("https://sm.megafon.ru/sm/client/{}", path));
        assert_eq!(req.query.len(), 2);
    }
}

#[test]
fn api_selection_and_timeout() {
    let mut c = Client::new("a".to_string(), "b".to_string(), Some(API::Emotion), Some(5));
    let req = c.request(&Query::Profile);
    assert_eq!(req.url, "https://emotion.megalabs.ru/sm/client/profile");
    assert_eq!(req.timeout, 5);
    c.set_api(API::Multifon);
    assert_eq!(c.request(&Query::Profile).url, "https://sm.megafon.ru/sm/client/profile");
    assert_eq!(c.get_login(), "a");
}

#[test]
fn http_status_range() {
    assert_eq!(check_status(200), Ok(()));
    assert_eq!(check_status(204), Ok(()));
    assert_eq!(check_status(299), Ok(()));
    assert_eq!(check_status(199), Err(Error::StatusCode(199)));
    assert_eq!(check_status(300), Err(Error::StatusCode(300)));
    assert_eq!(check_status(503), Err(Error::StatusCode(503)));
}

#[test]
fn set_lines_protocol() {
    let c = client();
    let echoed = SetLines { result: envelope(200, ""), lines: Some(2) };
    assert_eq!(c.set_lines(Ok(echoed)), Err(Error::SetFailed("lines".to_string())));
    let applied = SetLines { result: envelope(200, ""), lines: None };
    assert_eq!(c.set_lines(Ok(applied)), Ok(()));
    let e = Error::StatusCode(500);
    assert_eq!(c.set_lines(Err(e.clone())), Err(e));
}

#[test]
fn payload_getters() {
    let r = response::Routing { result: envelope(200, ""), routing: Routing::SipGsm };
    assert_eq!(r.value(), Routing::SipGsm);
    let s = response::Status { result: envelope(200, ""), status: Status::Blocked, expires: None };
    assert_eq!(s.value(), Status::Blocked);
    let p = response::Profile { result: envelope(200, ""), msisdn: "79990001122".to_string() };
    assert_eq!(p.value(), "79990001122");
    let l = response::Lines { result: envelope(200, ""), lines: 4 };
    assert_eq!(l.value(), 4);
    let v = validate(Ok(l)).unwrap();
    assert_eq!(v.lines, 4);
}
