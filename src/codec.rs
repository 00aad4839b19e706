//! Human-readable tokens and wire ordinals of the API's enumerations.
use vstd::prelude::*;
use vstd::string::StrSliceExecFns;
use vstd::string::StringExecFns;

use crate::client::Error;

verus! {

/// `a` upper-cases (as `char::to_uppercase` does) to the upper-case letter or
/// symbol `t` of a token: `t` itself, its ASCII lower-case letter, or one of
/// the two letters outside ASCII whose upper case is an ASCII letter, the
/// long s (to `S`) and the dotless i (to `I`).
pub open spec fn char_matches(a: char, t: char) -> bool {
    a == t || ('a' <= a && a <= 'z' && (t as u32) + 32 == (a as u32)) || (a == '\u{17f}' && t
        == 'S') || (a == '\u{131}' && t == 'I')
}

/// The upper case of `s` is the token `t`.
pub open spec fn text_matches(s: Seq<char>, t: Seq<char>) -> bool {
    s.len() == t.len() && forall|i: int| 0 <= i < s.len() ==> #[trigger] char_matches(s[i], t[i])
}

fn same_token(s: &str, t: &str) -> (r: bool)
    ensures
        r == text_matches(s@, t@),
{
    let n = s.unicode_len();
    if n != t.unicode_len() {
        return false;
    }
    let mut i: usize = 0;
    while i < n
        invariant
            n == s@.len(),
            n == t@.len(),
            i <= n,
            forall|j: int| 0 <= j < i ==> #[trigger] char_matches(s@[j], t@[j]),
        decreases n - i,
    {
        let a = s.get_char(i);
        let c = t.get_char(i);
        if !(a == c || ('a' <= a && a <= 'z' && (c as u32) + 32 == (a as u32)) || (a == '\u{17f}'
            && c == 'S') || (a == '\u{131}' && c == 'I')) {
            assert(!char_matches(s@[i as int], t@[i as int]));
            return false;
        }
        i = i + 1;
    }
    true
}

/// The error for a token or ordinal outside the known set: `invalid value: <input>`.
fn invalid_value(s: &str) -> (e: Error)
    ensures
        e is InvalidValue,
        e->InvalidValue_0@ == "invalid value: "@ + s@,
{
    Error::InvalidValue(String::from_str("invalid value: ").concat(s))
}

/// Call routing of the account.
#[derive(Debug, Clone, Copy, PartialEq, Eq, Structural)]
pub enum Routing {
    Gsm,
    Sip,
    SipGsm,
}

pub open spec fn routing_token(m: Routing) -> Seq<char> {
    match m {
        Routing::Gsm => "GSM"@,
        Routing::Sip => "SIP"@,
        Routing::SipGsm => "SIP+GSM"@,
    }
}

pub open spec fn routing_of_text(s: Seq<char>) -> Option<Routing> {
    if text_matches(s, "GSM"@) {
        Some(Routing::Gsm)
    } else if text_matches(s, "SIP"@) {
        Some(Routing::Sip)
    } else if text_matches(s, "SIP+GSM"@) {
        Some(Routing::SipGsm)
    } else {
        None
    }
}

pub open spec fn routing_ordinal(m: Routing) -> i32 {
    match m {
        Routing::Gsm => 0,
        Routing::Sip => 1,
        Routing::SipGsm => 2,
    }
}

pub open spec fn routing_of_ordinal(o: i32) -> Option<Routing> {
    if o == 0 {
        Some(Routing::Gsm)
    } else if o == 1 {
        Some(Routing::Sip)
    } else if o == 2 {
        Some(Routing::SipGsm)
    } else {
        None
    }
}

impl Routing {
    /// Parses `GSM`, `SIP` or `SIP+GSM`, in any case: the text whose upper case
    /// is one of the tokens.
    pub fn parse(s: &str) -> (r: Result<Routing, Error>)
        ensures
            match routing_of_text(s@) {
                Some(m) => r == Ok::<Routing, Error>(m),
                None => r is Err && r->Err_0 is InvalidValue && r->Err_0->InvalidValue_0@
                    == "invalid value: "@ + s@,
            },
    {
        if same_token(s, "GSM") {
            Ok(Routing::Gsm)
        } else if same_token(s, "SIP") {
            Ok(Routing::Sip)
        } else if same_token(s, "SIP+GSM") {
            Ok(Routing::SipGsm)
        } else {
            Err(invalid_value(s))
        }
    }

    /// The canonical token.
    pub fn as_str(&self) -> (r: &'static str)
        ensures
            r@ == routing_token(*self),
    {
        match self {
            Routing::Gsm => "GSM",
            Routing::Sip => "SIP",
            Routing::SipGsm => "SIP+GSM",
        }
    }

    /// The ordinal that stands for this mode on the wire.
    pub fn ordinal(&self) -> (r: i32)
        ensures
            r == routing_ordinal(*self),
    {
        match self {
            Routing::Gsm => 0,
            Routing::Sip => 1,
            Routing::SipGsm => 2,
        }
    }

    /// Decodes a wire ordinal; only 0, 1 and 2 are known.
    pub fn from_ordinal(o: i32) -> (r: Result<Routing, Error>)
        ensures
            match routing_of_ordinal(o) {
                Some(m) => r == Ok::<Routing, Error>(m),
                None => r is Err && r->Err_0 is InvalidValue,
            },
    {
        if o == 0 {
            Ok(Routing::Gsm)
        } else if o == 1 {
            Ok(Routing::Sip)
        } else if o == 2 {
            Ok(Routing::SipGsm)
        } else {
            Err(Error::InvalidValue(String::from_str("invalid value: ordinal")))
        }
    }

    /// The mode a response reports when it omits the field.
    pub fn default() -> (r: Routing)
        ensures
            r == Routing::Gsm,
    {
        Routing::Gsm
    }
}

/// Parsing the canonical token of a mode gives that mode back, so a parsed
/// token survives being rendered and parsed again.
pub proof fn lemma_routing_token_round_trip(t: Seq<char>)
    requires
        routing_of_text(t) is Some,
    ensures
        routing_of_text(routing_token(routing_of_text(t)->Some_0)) == routing_of_text(t),
{
    reveal_strlit("GSM");
    reveal_strlit("SIP");
    reveal_strlit("SIP+GSM");
    assert(!char_matches("SIP"@[0], "GSM"@[0]));
    assert(!char_matches("SIP+GSM"@[0], "GSM"@[0]));
    assert(text_matches("GSM"@, "GSM"@));
    assert(text_matches("SIP"@, "SIP"@));
    assert(text_matches("SIP+GSM"@, "SIP+GSM"@));
}

/// Decoding a known ordinal and encoding the mode again gives the ordinal back.
pub proof fn lemma_routing_ordinal_round_trip(o: i32)
    requires
        0 <= o <= 2,
    ensures
        routing_of_ordinal(o) is Some,
        routing_ordinal(routing_of_ordinal(o)->Some_0) == o,
{
}

/// Account status.
#[derive(Debug, Clone, Copy, PartialEq, Eq, Structural)]
pub enum Status {
    Active,
    Blocked,
}

pub open spec fn status_token(s: Status) -> Seq<char> {
    match s {
        Status::Active => "active"@,
        Status::Blocked => "blocked"@,
    }
}

pub open spec fn status_of_ordinal(o: i32) -> Option<Status> {
    if o == 0 {
        Some(Status::Active)
    } else if o == 1 {
        Some(Status::Blocked)
    } else {
        None
    }
}

impl Status {
    /// The human-readable token, `active` or `blocked`.
    pub fn as_str(&self) -> (r: &'static str)
        ensures
            r@ == status_token(*self),
    {
        match self {
            Status::Active => "active",
            Status::Blocked => "blocked",
        }
    }

    /// The ordinal that stands for this status on the wire.
    pub fn ordinal(&self) -> (r: i32)
        ensures
            r == (if *self == Status::Active { 0i32 } else { 1i32 }),
    {
        match self {
            Status::Active => 0,
            Status::Blocked => 1,
        }
    }

    /// Decodes a wire ordinal; only 0 and 1 are known.
    pub fn from_ordinal(o: i32) -> (r: Result<Status, Error>)
        ensures
            match status_of_ordinal(o) {
                Some(s) => r == Ok::<Status, Error>(s),
                None => r is Err && r->Err_0 is InvalidValue,
            },
    {
        if o == 0 {
            Ok(Status::Active)
        } else if o == 1 {
            Ok(Status::Blocked)
        } else {
            Err(Error::InvalidValue(String::from_str("invalid value: ordinal")))
        }
    }

    /// The status a response reports when it omits the field.
    pub fn default() -> (r: Status)
        ensures
            r == Status::Active,
    {
        Status::Active
    }
}

/// The deployments of the API.
#[derive(Debug, Clone, Copy, PartialEq, Eq, Structural)]
pub enum API {
    Multifon,
    Emotion,
}

pub open spec fn api_url(a: API) -> Seq<char> {
    match a {
        API::Multifon => "https://sm.megafon.ru/sm/client"@,
        API::Emotion => "https://emotion.megalabs.ru/sm/client"@,
    }
}

pub open spec fn api_name(a: API) -> Seq<char> {
    match a {
        API::Multifon => "MULTIFON"@,
        API::Emotion => "EMOTION"@,
    }
}

pub open spec fn api_of_text(s: Seq<char>) -> Option<API> {
    if text_matches(s, "MULTIFON"@) {
        Some(API::Multifon)
    } else if text_matches(s, "EMOTION"@) {
        Some(API::Emotion)
    } else {
        None
    }
}

impl API {
    /// The base URL of the deployment.
    pub fn value(&self) -> (r: &'static str)
        ensures
            r@ == api_url(*self),
    {
        match self {
            API::Multifon => "https://sm.megafon.ru/sm/client",
            API::Emotion => "https://emotion.megalabs.ru/sm/client",
        }
    }

    /// The name of the deployment, `multifon` or `emotion`.
    pub fn as_str(&self) -> (r: &'static str)
        ensures
            r@ == (match *self {
                API::Multifon => "multifon"@,
                API::Emotion => "emotion"@,
            }),
    {
        match self {
            API::Multifon => "multifon",
            API::Emotion => "emotion",
        }
    }

    /// Parses `multifon` or `emotion`, in any case.
    pub fn parse(s: &str) -> (r: Result<API, Error>)
        ensures
            match api_of_text(s@) {
                Some(a) => r == Ok::<API, Error>(a),
                None => r is Err && r->Err_0 is InvalidValue && r->Err_0->InvalidValue_0@
                    == "invalid value: "@ + s@,
            },
    {
        if same_token(s, "MULTIFON") {
            Ok(API::Multifon)
        } else if same_token(s, "EMOTION") {
            Ok(API::Emotion)
        } else {
            Err(invalid_value(s))
        }
    }

    /// The deployment used when none is chosen.
    pub fn default() -> (r: API)
        ensures
            r == API::Multifon,
    {
        API::Multifon
    }
}

} // verus!
