//! The client: credentials, request building, and the validation of replies,
//! including the confirmation protocol of the "set" operations.
use vstd::prelude::*;
use vstd::string::StringExecFns;

use crate::codec::{api_url, routing_ordinal, Routing, API};
use crate::response;
use crate::response::{
    decode_balance, decode_lines, decode_profile, decode_routing, decode_set_lines,
    decode_set_password, decode_set_routing, decode_status, early_outcome, echoed_routing,
    int_field, is_malformed, routing_field, stage, status_field, text_field, Stage,
    XMLResultChecker,
};
use crate::xml::{is_decimal, NodeV};

verus! {

/// Seconds a request may take when the caller sets no timeout.
pub const DEFAULT_TIMEOUT: u64 = 32;

/// Every way an operation can fail.
#[derive(Debug, Clone, PartialEq, Eq)]
pub enum Error {
    /// The request did not complete: DNS, TLS, a timeout, a reset connection.
    Transport(String),
    /// The HTTP status was outside the success range; the body was not read.
    StatusCode(u16),
    /// The body did not have the shape of the expected response.
    Deserialization(String),
    /// The envelope carried a code other than 200.
    API(response::Error),
    /// A "set" operation was answered with the current value: nothing changed.
    SetFailed(String),
    /// A token or an ordinal outside the known set.
    InvalidValue(String),
}

pub type Result<T> = core::result::Result<T, Error>;

/// A query-string value.
#[derive(Debug, Clone, PartialEq, Eq)]
pub enum Value {
    Text(String),
    Int(i32),
}

pub enum ValueView {
    Text(Seq<char>),
    Int(i32),
}

pub open spec fn value_view(v: Value) -> ValueView {
    match v {
        Value::Text(s) => ValueView::Text(s@),
        Value::Int(n) => ValueView::Int(n),
    }
}

pub open spec fn query_view(q: Seq<(String, Value)>) -> Seq<(Seq<char>, ValueView)> {
    q.map_values(|p: (String, Value)| (p.0@, value_view(p.1)))
}

/// An operation of the API, with the arguments it sends.
#[derive(Debug, Clone)]
pub enum Query {
    Balance,
    Routing,
    SetRouting(Routing),
    Status,
    Profile,
    Lines,
    SetLines(i32),
    SetPassword(String),
}

pub open spec fn query_path(q: Query) -> Seq<char> {
    match q {
        Query::Balance => "balance"@,
        Query::Routing | Query::SetRouting(_) => "routing"@,
        Query::Status => "status"@,
        Query::Profile => "profile"@,
        Query::Lines | Query::SetLines(_) => "lines"@,
        Query::SetPassword(_) => "password"@,
    }
}

pub open spec fn query_params(q: Query) -> Seq<(Seq<char>, ValueView)> {
    match q {
        Query::SetRouting(m) => seq![("routing"@, ValueView::Int(routing_ordinal(m)))],
        Query::SetLines(n) => seq![("lines"@, ValueView::Int(n))],
        Query::SetPassword(p) => seq![("new_password"@, ValueView::Text(p@))],
        _ => seq![],
    }
}

impl Query {
    fn path(&self) -> (r: &'static str)
        ensures
            r@ == query_path(*self),
    {
        match self {
            Query::Balance => "balance",
            Query::Routing | Query::SetRouting(_) => "routing",
            Query::Status => "status",
            Query::Profile => "profile",
            Query::Lines | Query::SetLines(_) => "lines",
            Query::SetPassword(_) => "password",
        }
    }
}

/// What to send: a POST with no body to `url`, with `query` as its query string.
#[derive(Debug, Clone)]
pub struct HttpRequest {
    pub url: String,
    pub query: Vec<(String, Value)>,
    /// Seconds allowed for the whole exchange.
    pub timeout: u64,
}

pub struct ClientView {
    pub login: Seq<char>,
    pub password: Seq<char>,
    pub api: API,
    pub timeout: u64,
}

/// The query string of `q` sent by a client in state `c`: the credentials first.
pub open spec fn request_query(c: ClientView, q: Query) -> Seq<(Seq<char>, ValueView)> {
    seq![("login"@, ValueView::Text(c.login)), ("password"@, ValueView::Text(c.password))]
        + query_params(q)
}

/// A reply after the shared envelope check.
pub open spec fn validated<T: XMLResultChecker>(decoded: Result<T>) -> Result<T> {
    match decoded {
        Err(e) => Err(e),
        Ok(v) => match v.envelope().outcome() {
            Ok(_) => Ok(v),
            Err(e) => Err(Error::API(e)),
        },
    }
}

/// Success exactly for the statuses 200 to 299.
pub open spec fn status_outcome(code: u16) -> Result<()> {
    if 200 <= code && code <= 299 {
        Ok(())
    } else {
        Err(Error::StatusCode(code))
    }
}

/// Judges the HTTP status of a reply before its body is read.
pub fn check_status(code: u16) -> (r: Result<()>)
    ensures
        r == status_outcome(code),
{
    if 200 <= code && code <= 299 {
        Ok(())
    } else {
        Err(Error::StatusCode(code))
    }
}

/// Checks the envelope of a decoded reply; a failure to obtain or decode the
/// reply passes through as it is.
pub fn validate<T: XMLResultChecker>(decoded: Result<T>) -> (r: Result<T>)
    ensures
        r == validated(decoded),
{
    match decoded {
        Err(e) => Err(e),
        Ok(v) => match v.check() {
            Ok(()) => Ok(v),
            Err(e) => Err(Error::API(e)),
        },
    }
}

/// The outcome of a "set" operation whose validated reply is `checked`:
/// `true` there means the reply echoed the field back, so nothing changed.
pub open spec fn set_outcome(r: Result<()>, checked: Result<bool>, field: Seq<char>) -> bool {
    match checked {
        Err(e) => r == Err::<(), Error>(e),
        Ok(echoed) => if echoed {
            r is Err && r->Err_0 is SetFailed && r->Err_0->SetFailed_0@ == field
        } else {
            r == Ok::<(), Error>(())
        },
    }
}

pub open spec fn routing_echoed(reply: Result<response::SetRouting>) -> Result<bool> {
    match validated(reply) {
        Ok(v) => Ok(v.routing is Some),
        Err(e) => Err(e),
    }
}

pub open spec fn lines_echoed(reply: Result<response::SetLines>) -> Result<bool> {
    match validated(reply) {
        Ok(v) => Ok(v.lines is Some),
        Err(e) => Err(e),
    }
}

/// The result of a password change whose reply is `reply`.
pub open spec fn password_outcome(reply: Result<response::SetPassword>) -> Result<()> {
    match validated(reply) {
        Ok(_) => Ok(()),
        Err(e) => Err(e),
    }
}

/// The client state after a password change to `pw` answered by `reply`:
/// the password is replaced only when the change is confirmed.
pub open spec fn after_password_change(
    c: ClientView,
    pw: Seq<char>,
    reply: Result<response::SetPassword>,
) -> ClientView {
    if validated(reply) is Ok {
        ClientView { password: pw, ..c }
    } else {
        c
    }
}

/// An account of the API: its credentials, deployment and timeout.
pub struct Client {
    login: String,
    password: String,
    api: API,
    timeout: u64,
}

impl View for Client {
    type V = ClientView;

    closed spec fn view(&self) -> ClientView {
        ClientView {
            login: self.login@,
            password: self.password@,
            api: self.api,
            timeout: self.timeout,
        }
    }
}

impl Client {
    /// A client for `api` (the Multifon deployment by default) with `timeout`
    /// seconds per request (`DEFAULT_TIMEOUT` by default).
    pub fn new(login: String, password: String, api: Option<API>, timeout: Option<u64>) -> (r:
        Client)
        ensures
            r@ == (ClientView {
                login: login@,
                password: password@,
                api: match api {
                    Some(a) => a,
                    None => API::Multifon,
                },
                timeout: match timeout {
                    Some(t) => t,
                    None => DEFAULT_TIMEOUT,
                },
            }),
    {
        let api = match api {
            Some(a) => a,
            None => API::default(),
        };
        let timeout = match timeout {
            Some(t) => t,
            None => DEFAULT_TIMEOUT,
        };
        Client { login, password, api, timeout }
    }

    pub fn get_login(&self) -> (r: &str)
        ensures
            r@ == self@.login,
    {
        self.login.as_str()
    }

    /// Selects another deployment; nothing else changes.
    pub fn set_api(&mut self, api: API)
        ensures
            final(self)@ == (ClientView { api, ..old(self)@ }),
    {
        self.api = api;
    }

    /// The request that performs `q`: the deployment's base URL, a slash and the
    /// operation's path; the login and password, then the operation's arguments.
    pub fn request(&self, q: &Query) -> (r: HttpRequest)
        ensures
            r.url@ == api_url(self@.api) + "/"@ + query_path(*q),
            query_view(r.query@) == request_query(self@, *q),
            r.timeout == self@.timeout,
    {
        let url = String::from_str(self.api.value()).concat("/").concat(q.path());
        let mut query: Vec<(String, Value)> = Vec::new();
        query.push((String::from_str("login"), Value::Text(self.login.clone())));
        query.push((String::from_str("password"), Value::Text(self.password.clone())));
        match q {
            Query::SetRouting(m) => {
                query.push((String::from_str("routing"), Value::Int(m.ordinal())));
            },
            Query::SetLines(n) => {
                query.push((String::from_str("lines"), Value::Int(*n)));
            },
            Query::SetPassword(p) => {
                query.push((String::from_str("new_password"), Value::Text(p.clone())));
            },
            _ => {},
        }
        assert(query_view(query@) =~= request_query(self@, *q));
        HttpRequest { url, query, timeout: self.timeout }
    }

    /// Completes a routing change. A reply that passes the envelope check but
    /// still carries the routing field reports the routing left in force: the
    /// change was refused, which is `SetFailed("routing")`.
    pub fn set_routing(&self, reply: Result<response::SetRouting>) -> (r: Result<()>)
        ensures
            set_outcome(r, routing_echoed(reply), "routing"@),
    {
        let res = validate(reply)?;
        if res.routing.is_some() {
            return Err(Error::SetFailed(String::from_str("routing")));
        }
        Ok(())
    }

    /// Completes a change of the number of lines; as for routing, an echoed
    /// `ParallelCallsSipOut` field means the change was refused.
    pub fn set_lines(&self, reply: Result<response::SetLines>) -> (r: Result<()>)
        ensures
            set_outcome(r, lines_echoed(reply), "lines"@),
    {
        let res = validate(reply)?;
        if res.lines.is_some() {
            return Err(Error::SetFailed(String::from_str("lines")));
        }
        Ok(())
    }

    /// Completes a change of the password to `password`: the stored password is
    /// replaced only when the reply confirms the change.
    pub fn set_password(&mut self, password: &str, reply: Result<response::SetPassword>) -> (r:
        Result<()>)
        ensures
            r == password_outcome(reply),
            final(self)@ == after_password_change(old(self)@, password@, reply),
    {
        validate(reply)?;
        self.password = String::from_str(password);
        Ok(())
    }
}

/// Under every response shape, a decoded reply whose envelope code is not 200
/// is the remote failure with that code and description, whatever its payload.
pub proof fn lemma_remote_failure_wins<T: XMLResultChecker>(v: T)
    requires
        v.envelope().code != response::SUCCESS_CODE,
    ensures
        validated(Ok::<T, Error>(v)) == Err::<T, Error>(
            Error::API(
                response::Error { code: v.envelope().code, description: v.envelope().description },
            ),
        ),
{
}

/// A transport failure, a timeout among them, is reported as it is, and the
/// stored credentials stay unchanged.
pub proof fn lemma_transport_failure_keeps_credentials(c: ClientView, pw: Seq<char>, m: String)
    ensures
        password_outcome(Err(Error::Transport(m))) == Err::<(), Error>(Error::Transport(m)),
        after_password_change(c, pw, Err(Error::Transport(m))) == c,
{
}

/// After a confirmed password change every later request carries the new
/// password; after a failed one, the old password.
pub proof fn lemma_new_password_is_used(
    c: ClientView,
    pw: Seq<char>,
    reply: Result<response::SetPassword>,
    q: Query,
)
    ensures
        request_query(after_password_change(c, pw, reply), q)[1] == (
        "password"@,
        ValueView::Text(if password_outcome(reply) is Ok {
            pw
        } else {
            c.password
        }),
        ),
{
}

/// A decoded reply to any operation.
#[derive(Debug)]
pub enum Reply {
    Balance(response::Balance),
    Routing(response::Routing),
    SetRouting(response::SetRouting),
    Status(response::Status),
    Profile(response::Profile),
    Lines(response::Lines),
    SetLines(response::SetLines),
    SetPassword(response::SetPassword),
}

/// The reply shape that answers `q`.
pub open spec fn answers(r: Reply, q: Query) -> bool {
    match q {
        Query::Balance => r is Balance,
        Query::Routing => r is Routing,
        Query::SetRouting(_) => r is SetRouting,
        Query::Status => r is Status,
        Query::Profile => r is Profile,
        Query::Lines => r is Lines,
        Query::SetLines(_) => r is SetLines,
        Query::SetPassword(_) => r is SetPassword,
    }
}

/// The payload of an accepted document is readable under the schema of `q`.
pub open spec fn payload_readable(q: Query, doc: Seq<NodeV>) -> bool {
    match q {
        Query::Balance => match text_field(doc, "balance"@) {
            Some(t) => is_decimal(t),
            None => true,
        },
        Query::Routing => routing_field(doc) is Some,
        Query::SetRouting(_) => echoed_routing(doc) is Some,
        Query::Status => status_field(doc) is Some,
        Query::Lines | Query::SetLines(_) => int_field(doc, "ParallelCallsSipOut"@) is Some,
        Query::Profile | Query::SetPassword(_) => true,
    }
}

/// Decodes a body under the schema of the operation `q`. Under every schema a
/// body whose envelope carries a code other than 200 gives that remote
/// failure, whatever its payload holds.
pub fn decode_reply(q: &Query, body: &[u8]) -> (r: Result<Reply>)
    ensures
        match stage(body@) {
            Stage::Accepted(doc, _) => (r is Ok <==> payload_readable(*q, doc)) && (r is Err
                ==> is_malformed(r)) && (r matches Ok(v) ==> answers(v, *q)),
            s => early_outcome(r, s),
        },
{
    match q {
        Query::Balance => Ok(Reply::Balance(decode_balance(body)?)),
        Query::Routing => Ok(Reply::Routing(decode_routing(body)?)),
        Query::SetRouting(_) => Ok(Reply::SetRouting(decode_set_routing(body)?)),
        Query::Status => Ok(Reply::Status(decode_status(body)?)),
        Query::Profile => Ok(Reply::Profile(decode_profile(body)?)),
        Query::Lines => Ok(Reply::Lines(decode_lines(body)?)),
        Query::SetLines(_) => Ok(Reply::SetLines(decode_set_lines(body)?)),
        Query::SetPassword(_) => Ok(Reply::SetPassword(decode_set_password(body)?)),
    }
}

} // verus!
