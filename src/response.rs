//! Decoded responses: the common result envelope and each operation's payload.
use vstd::prelude::*;

use vstd::string::StringExecFns;

use crate::client;
use crate::codec;
use crate::xml::{
    body_document, check_decimal, find_kid, is_decimal, find_node, int_text, kid_text, node_named, nodes_view, parse_document,
    parse_i32, Node, NodeV,
};

verus! {

/// The envelope code that means success.
pub const SUCCESS_CODE: i32 = 200;

/// A failure reported by the remote API in the result envelope.
#[derive(Debug, Clone, PartialEq, Eq)]
pub struct Error {
    pub code: i32,
    pub description: String,
}

/// The result envelope carried by every response.
#[derive(Debug, Clone)]
pub struct XMLResult {
    pub code: i32,
    /// Empty when the response has none.
    pub description: String,
}

impl XMLResult {
    /// Success exactly when the code is 200; otherwise the code with its description.
    pub open spec fn outcome(&self) -> Result<(), Error> {
        if self.code == SUCCESS_CODE {
            Ok(())
        } else {
            Err(Error { code: self.code, description: self.description })
        }
    }
}

/// The one routine that judges an envelope, shared by every response shape.
fn check_envelope(e: &XMLResult) -> (r: Result<(), Error>)
    ensures
        r == e.outcome(),
{
    if e.code == SUCCESS_CODE {
        Ok(())
    } else {
        Err(Error { code: e.code, description: e.description.clone() })
    }
}

/// A response that embeds a result envelope, which must be checked before the
/// payload means anything.
pub trait XMLResultChecker {
    spec fn envelope(&self) -> XMLResult;

    fn check(&self) -> (r: Result<(), Error>)
        ensures
            r == self.envelope().outcome(),
    ;
}

impl XMLResultChecker for XMLResult {
    open spec fn envelope(&self) -> XMLResult {
        *self
    }

    fn check(&self) -> (r: Result<(), Error>) {
        check_envelope(self)
    }
}

/// Reply to a balance query. The balance is kept as the decimal number the
/// server sent, as text; `None` when the field is absent, which stands for zero.
#[derive(Debug, Clone)]
pub struct Balance {
    pub result: XMLResult,
    pub balance: Option<String>,
}

impl XMLResultChecker for Balance {
    open spec fn envelope(&self) -> XMLResult {
        self.result
    }

    fn check(&self) -> (r: Result<(), Error>) {
        check_envelope(&self.result)
    }
}

/// Reply to a routing query.
#[derive(Debug, Clone)]
pub struct Routing {
    pub result: XMLResult,
    pub routing: codec::Routing,
}

impl Routing {
    pub fn value(&self) -> (r: codec::Routing)
        ensures
            r == self.routing,
    {
        self.routing
    }
}

impl XMLResultChecker for Routing {
    open spec fn envelope(&self) -> XMLResult {
        self.result
    }

    fn check(&self) -> (r: Result<(), Error>) {
        check_envelope(&self.result)
    }
}

/// Reply to a routing change: the field is present only when the change was
/// not applied, and then holds the routing still in force.
#[derive(Debug, Clone)]
pub struct SetRouting {
    pub result: XMLResult,
    pub routing: Option<codec::Routing>,
}

impl XMLResultChecker for SetRouting {
    open spec fn envelope(&self) -> XMLResult {
        self.result
    }

    fn check(&self) -> (r: Result<(), Error>) {
        check_envelope(&self.result)
    }
}

/// Reply to a status query; `expires` is passed through unparsed.
#[derive(Debug, Clone)]
pub struct Status {
    pub result: XMLResult,
    pub status: codec::Status,
    pub expires: Option<String>,
}

impl Status {
    pub fn value(&self) -> (r: codec::Status)
        ensures
            r == self.status,
    {
        self.status
    }
}

impl XMLResultChecker for Status {
    open spec fn envelope(&self) -> XMLResult {
        self.result
    }

    fn check(&self) -> (r: Result<(), Error>) {
        check_envelope(&self.result)
    }
}

/// Reply to a profile query: the account's phone number.
#[derive(Debug, Clone)]
pub struct Profile {
    pub result: XMLResult,
    pub msisdn: String,
}

impl Profile {
    pub fn value(&self) -> (r: &str)
        ensures
            r@ == self.msisdn@,
    {
        self.msisdn.as_str()
    }
}

impl XMLResultChecker for Profile {
    open spec fn envelope(&self) -> XMLResult {
        self.result
    }

    fn check(&self) -> (r: Result<(), Error>) {
        check_envelope(&self.result)
    }
}

/// Reply to a query of the number of parallel SIP lines.
#[derive(Debug, Clone)]
pub struct Lines {
    pub result: XMLResult,
    pub lines: i32,
}

impl Lines {
    pub fn value(&self) -> (r: i32)
        ensures
            r == self.lines,
    {
        self.lines
    }
}

impl XMLResultChecker for Lines {
    open spec fn envelope(&self) -> XMLResult {
        self.result
    }

    fn check(&self) -> (r: Result<(), Error>) {
        check_envelope(&self.result)
    }
}

/// Reply to a change of the number of lines: the field is present only when
/// the change was not applied.
#[derive(Debug, Clone)]
pub struct SetLines {
    pub result: XMLResult,
    pub lines: Option<i32>,
}

impl XMLResultChecker for SetLines {
    open spec fn envelope(&self) -> XMLResult {
        self.result
    }

    fn check(&self) -> (r: Result<(), Error>) {
        check_envelope(&self.result)
    }
}

/// Reply to a password change: the envelope alone.
#[derive(Debug, Clone)]
pub struct SetPassword {
    pub result: XMLResult,
}

impl XMLResultChecker for SetPassword {
    open spec fn envelope(&self) -> XMLResult {
        self.result
    }

    fn check(&self) -> (r: Result<(), Error>) {
        check_envelope(&self.result)
    }
}

/// The envelope of a document: the `code` of the `result` element, which
/// must be a decimal `i32`, and its `description`, empty when absent.
pub open spec fn envelope_of(doc: Seq<NodeV>) -> Option<(i32, Seq<char>)> {
    match find_node(doc, "result"@, 0) {
        None => None,
        Some(r) => match find_kid(r.kids, "code"@, 0) {
            None => None,
            Some(c) => match int_text(c) {
                None => None,
                Some(code) => Some(
                    (
                        code,
                        match find_kid(r.kids, "description"@, 0) {
                            Some(d) => d,
                            None => seq![],
                        },
                    ),
                ),
            },
        },
    }
}

/// How far a body gets before its payload is read.
pub enum Stage {
    /// Not a document, or no readable envelope.
    Malformed,
    /// A well-formed envelope with a code other than 200.
    Remote(i32, Seq<char>),
    /// Code 200: the document and the description.
    Accepted(Seq<NodeV>, Seq<char>),
}

pub open spec fn stage(body: Seq<u8>) -> Stage {
    match body_document(body) {
        None => Stage::Malformed,
        Some(doc) => match envelope_of(doc) {
            None => Stage::Malformed,
            Some(e) => if e.0 == SUCCESS_CODE {
                Stage::Accepted(doc, e.1)
            } else {
                Stage::Remote(e.0, e.1)
            },
        },
    }
}

/// A decoding error.
pub open spec fn is_malformed<T>(r: Result<T, client::Error>) -> bool {
    r is Err && r->Err_0 is Deserialization
}

/// The outcome of a decoder on a body that stops short of its payload: a
/// remote failure wins over whatever the payload holds.
pub open spec fn early_outcome<T>(r: Result<T, client::Error>, s: Stage) -> bool {
    match s {
        Stage::Malformed => is_malformed(r),
        Stage::Remote(c, d) => r is Err && r->Err_0 is API && r->Err_0->API_0.code == c
            && r->Err_0->API_0.description@ == d,
        Stage::Accepted(_, _) => true,
    }
}

/// An envelope that reports success with description `d`.
pub open spec fn accepted(e: XMLResult, d: Seq<char>) -> bool {
    e.code == SUCCESS_CODE && e.description@ == d
}

/// The text of the first element named `n`, if any.
pub open spec fn text_field(doc: Seq<NodeV>, n: Seq<char>) -> Option<Seq<char>> {
    match find_node(doc, n, 0) {
        Some(x) => Some(x.text),
        None => None,
    }
}

/// An optional integer element: `Some(None)` when absent, `None` when its
/// text is not a decimal `i32`.
pub open spec fn int_field(doc: Seq<NodeV>, n: Seq<char>) -> Option<Option<i32>> {
    match find_node(doc, n, 0) {
        None => Some(None),
        Some(x) => match int_text(x.text) {
            Some(v) => Some(Some(v)),
            None => None,
        },
    }
}

pub open spec fn opt_view(o: Option<String>) -> Option<Seq<char>> {
    match o {
        Some(s) => Some(s@),
        None => None,
    }
}

fn malformed() -> (e: client::Error)
    ensures
        e is Deserialization,
{
    client::Error::Deserialization(String::from_str("response body does not match its schema"))
}

fn read_envelope(doc: &Vec<Node>) -> (r: Option<XMLResult>)
    ensures
        match envelope_of(nodes_view(doc@)) {
            Some(e) => r is Some && r->Some_0.code == e.0 && r->Some_0.description@ == e.1,
            None => r is None,
        },
{
    let i = node_named(doc, "result")?;
    let code = parse_i32(kid_text(&doc[i], "code")?.as_str())?;
    let description = match kid_text(&doc[i], "description") {
        Some(d) => d,
        None => String::new(),
    };
    Some(XMLResult { code, description })
}

fn text_of(doc: &Vec<Node>, n: &str) -> (r: Option<String>)
    ensures
        opt_view(r) == text_field(nodes_view(doc@), n@),
{
    match node_named(doc, n) {
        Some(i) => Some(doc[i].text.clone()),
        None => None,
    }
}

fn int_of(doc: &Vec<Node>, n: &str) -> (r: Option<Option<i32>>)
    ensures
        r == int_field(nodes_view(doc@), n@),
{
    match node_named(doc, n) {
        Some(i) => match parse_i32(doc[i].text.as_str()) {
            Some(v) => Some(Some(v)),
            None => None,
        },
        None => Some(None),
    }
}

/// Reads a body up to its envelope: the document and the envelope where the
/// code is 200, the remote failure where it is not.
fn open_reply(body: &[u8]) -> (r: Result<(Vec<Node>, XMLResult), client::Error>)
    ensures
        match stage(body@) {
            Stage::Accepted(doc, d) => r is Ok && nodes_view(r->Ok_0.0@) == doc && accepted(
                r->Ok_0.1,
                d,
            ),
            s => early_outcome(r, s),
        },
{
    let doc = match parse_document(body) {
        Some(d) => d,
        None => return Err(malformed()),
    };
    let result = match read_envelope(&doc) {
        Some(e) => e,
        None => return Err(malformed()),
    };
    match check_envelope(&result) {
        Ok(()) => Ok((doc, result)),
        Err(e) => Err(client::Error::API(e)),
    }
}

pub fn decode_balance(body: &[u8]) -> (r: Result<Balance, client::Error>)
    ensures
        match stage(body@) {
            Stage::Accepted(doc, d) => match text_field(doc, "balance"@) {
                Some(t) => if is_decimal(t) {
                    r is Ok && accepted(r->Ok_0.result, d) && opt_view(r->Ok_0.balance) == Some(t)
                } else {
                    is_malformed(r)
                },
                None => r is Ok && accepted(r->Ok_0.result, d) && r->Ok_0.balance is None,
            },
            s => early_outcome(r, s),
        },
{
    let (doc, result) = open_reply(body)?;
    let balance = text_of(&doc, "balance");
    if let Some(t) = &balance {
        if !check_decimal(t.as_str()) {
            return Err(malformed());
        }
    }
    Ok(Balance { result, balance })
}

/// The routing a reply reports: `GSM` when absent.
pub open spec fn routing_field(doc: Seq<NodeV>) -> Option<codec::Routing> {
    match int_field(doc, "routing"@) {
        None => None,
        Some(None) => Some(codec::Routing::Gsm),
        Some(Some(o)) => codec::routing_of_ordinal(o),
    }
}

pub fn decode_routing(body: &[u8]) -> (r: Result<Routing, client::Error>)
    ensures
        match stage(body@) {
            Stage::Accepted(doc, d) => match routing_field(doc) {
                Some(m) => r is Ok && accepted(r->Ok_0.result, d) && r->Ok_0.routing == m,
                None => is_malformed(r),
            },
            s => early_outcome(r, s),
        },
{
    let (doc, result) = open_reply(body)?;
    let routing = match int_of(&doc, "routing") {
        None => return Err(malformed()),
        Some(None) => codec::Routing::default(),
        Some(Some(o)) => match codec::Routing::from_ordinal(o) {
            Ok(m) => m,
            Err(_) => return Err(malformed()),
        },
    };
    Ok(Routing { result, routing })
}

/// The routing echoed by a reply to a routing change, if any.
pub open spec fn echoed_routing(doc: Seq<NodeV>) -> Option<Option<codec::Routing>> {
    match int_field(doc, "routing"@) {
        None => None,
        Some(None) => Some(None),
        Some(Some(o)) => match codec::routing_of_ordinal(o) {
            Some(m) => Some(Some(m)),
            None => None,
        },
    }
}

pub fn decode_set_routing(body: &[u8]) -> (r: Result<SetRouting, client::Error>)
    ensures
        match stage(body@) {
            Stage::Accepted(doc, d) => match echoed_routing(doc) {
                Some(m) => r is Ok && accepted(r->Ok_0.result, d) && r->Ok_0.routing == m,
                None => is_malformed(r),
            },
            s => early_outcome(r, s),
        },
{
    let (doc, result) = open_reply(body)?;
    let routing = match int_of(&doc, "routing") {
        None => return Err(malformed()),
        Some(None) => None,
        Some(Some(o)) => match codec::Routing::from_ordinal(o) {
            Ok(m) => Some(m),
            Err(_) => return Err(malformed()),
        },
    };
    Ok(SetRouting { result, routing })
}

/// The status a reply reports: active when absent.
pub open spec fn status_field(doc: Seq<NodeV>) -> Option<codec::Status> {
    match int_field(doc, "status"@) {
        None => None,
        Some(None) => Some(codec::Status::Active),
        Some(Some(o)) => codec::status_of_ordinal(o),
    }
}

pub fn decode_status(body: &[u8]) -> (r: Result<Status, client::Error>)
    ensures
        match stage(body@) {
            Stage::Accepted(doc, d) => match status_field(doc) {
                Some(st) => r is Ok && accepted(r->Ok_0.result, d) && r->Ok_0.status == st
                    && opt_view(r->Ok_0.expires) == text_field(doc, "expires"@),
                None => is_malformed(r),
            },
            s => early_outcome(r, s),
        },
{
    let (doc, result) = open_reply(body)?;
    let status = match int_of(&doc, "status") {
        None => return Err(malformed()),
        Some(None) => codec::Status::default(),
        Some(Some(o)) => match codec::Status::from_ordinal(o) {
            Ok(st) => st,
            Err(_) => return Err(malformed()),
        },
    };
    Ok(Status { result, status, expires: text_of(&doc, "expires") })
}

pub fn decode_profile(body: &[u8]) -> (r: Result<Profile, client::Error>)
    ensures
        match stage(body@) {
            Stage::Accepted(doc, d) => r is Ok && accepted(r->Ok_0.result, d) && r->Ok_0.msisdn@
                == (match text_field(doc, "msisdn"@) {
                Some(t) => t,
                None => seq![],
            }),
            s => early_outcome(r, s),
        },
{
    let (doc, result) = open_reply(body)?;
    let msisdn = match text_of(&doc, "msisdn") {
        Some(t) => t,
        None => String::new(),
    };
    Ok(Profile { result, msisdn })
}

pub fn decode_lines(body: &[u8]) -> (r: Result<Lines, client::Error>)
    ensures
        match stage(body@) {
            Stage::Accepted(doc, d) => match int_field(doc, "ParallelCallsSipOut"@) {
                Some(n) => r is Ok && accepted(r->Ok_0.result, d) && r->Ok_0.lines == (match n {
                    Some(v) => v,
                    None => 0i32,
                }),
                None => is_malformed(r),
            },
            s => early_outcome(r, s),
        },
{
    let (doc, result) = open_reply(body)?;
    let lines = match int_of(&doc, "ParallelCallsSipOut") {
        None => return Err(malformed()),
        Some(None) => 0,
        Some(Some(v)) => v,
    };
    Ok(Lines { result, lines })
}

pub fn decode_set_lines(body: &[u8]) -> (r: Result<SetLines, client::Error>)
    ensures
        match stage(body@) {
            Stage::Accepted(doc, d) => match int_field(doc, "ParallelCallsSipOut"@) {
                Some(n) => r is Ok && accepted(r->Ok_0.result, d) && r->Ok_0.lines == n,
                None => is_malformed(r),
            },
            s => early_outcome(r, s),
        },
{
    let (doc, result) = open_reply(body)?;
    let lines = match int_of(&doc, "ParallelCallsSipOut") {
        None => return Err(malformed()),
        Some(n) => n,
    };
    Ok(SetLines { result, lines })
}

pub fn decode_set_password(body: &[u8]) -> (r: Result<SetPassword, client::Error>)
    ensures
        match stage(body@) {
            Stage::Accepted(_, d) => r is Ok && accepted(r->Ok_0.result, d),
            s => early_outcome(r, s),
        },
{
    let (_, result) = open_reply(body)?;
    Ok(SetPassword { result })
}

} // verus!
