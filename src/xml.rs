//! The shape of a response body: the elements under the document's root,
//! read from the events of an XML pull parser.
use vstd::prelude::*;
use vstd::string::StrSliceExecFns;
use vstd::string::StringExecFns;

use quick_xml::events::Event;

verus! {

/// One event of the pull parser, with names and text as strings.
#[derive(Debug, Clone)]
pub enum XmlEvent {
    /// A start tag `<name>`.
    Open(String),
    /// An end tag `</name>`.
    Close(String),
    /// An empty element `<name/>`.
    Empty(String),
    /// Character data between the tags.
    Text(String),
    /// The content of a CDATA section.
    CData(String),
    /// An entity or character reference `&name;`, by its name.
    Reference(String),
    /// A comment, declaration, processing instruction or doctype.
    Markup,
}

pub enum Ev {
    Open(Seq<char>),
    Close(Seq<char>),
    Empty(Seq<char>),
    Text(Seq<char>),
    CData(Seq<char>),
    Reference(Seq<char>),
    /// A comment, declaration, processing instruction or doctype.
    Markup,
}

pub open spec fn ev_view(e: XmlEvent) -> Ev {
    match e {
        XmlEvent::Open(n) => Ev::Open(n@),
        XmlEvent::Close(n) => Ev::Close(n@),
        XmlEvent::Empty(n) => Ev::Empty(n@),
        XmlEvent::Text(t) => Ev::Text(t@),
        XmlEvent::CData(t) => Ev::CData(t@),
        XmlEvent::Reference(n) => Ev::Reference(n@),
        XmlEvent::Markup => Ev::Markup,
    }
}

pub open spec fn evs_view(v: Seq<XmlEvent>) -> Seq<Ev> {
    v.map_values(|e: XmlEvent| ev_view(e))
}

/// The events that quick-xml reads from `body`, up to the end of input;
/// `None` where it reports an error.
pub uninterp spec fn xml_events(body: Seq<u8>) -> Option<Seq<Ev>>;

/// Relies on `quick_xml::Reader::read_event` over a byte slice, called until
/// `Event::Eof`: the events of the body in order, or `None` at the first error.
#[verifier::external_body]
fn read_events(body: &[u8]) -> (r: Option<Vec<XmlEvent>>)
    ensures
        match r {
            Some(v) => xml_events(body@) == Some(evs_view(v@)),
            None => xml_events(body@) is None,
        },
{
    let mut reader = quick_xml::Reader::from_reader(body);
    let mut out = Vec::new();
    loop {
        out.push(match reader.read_event().ok()? {
            Event::Start(e) => XmlEvent::Open(e.name().0.to_string()),
            Event::End(e) => XmlEvent::Close(e.to_string()),
            Event::Empty(e) => XmlEvent::Empty(e.name().0.to_string()),
            Event::Text(t) => XmlEvent::Text(t.to_string()),
            Event::CData(t) => XmlEvent::CData(t.to_string()),
            Event::GeneralRef(n) => XmlEvent::Reference(n.to_string()),
            Event::Eof => return Some(out),
            _ => XmlEvent::Markup,
        });
    }
}

} // verus!

verus! {

pub open spec fn is_space(c: char) -> bool {
    c == ' ' || c == '\t' || c == '\n' || c == '\r'
}

pub open spec fn trim_front(s: Seq<char>) -> Seq<char>
    decreases s.len(),
{
    if s.len() > 0 && is_space(s[0]) {
        trim_front(s.drop_first())
    } else {
        s
    }
}

pub open spec fn trim_back(s: Seq<char>) -> Seq<char>
    decreases s.len(),
{
    if s.len() > 0 && is_space(s.last()) {
        trim_back(s.drop_last())
    } else {
        s
    }
}

/// The text without the XML whitespace at either end.
pub open spec fn trim(s: Seq<char>) -> Seq<char> {
    trim_back(trim_front(s))
}

fn space_at(s: &String, i: usize) -> (r: bool)
    requires
        i < s@.len(),
    ensures
        r == is_space(s@[i as int]),
{
    let c = s.as_str().get_char(i);
    c == ' ' || c == '\t' || c == '\n' || c == '\r'
}

fn trim_text(s: &String) -> (r: String)
    ensures
        r@ == trim(s@),
{
    let n = s.as_str().unicode_len();
    let mut a: usize = 0;
    assert(s@.subrange(0, n as int) =~= s@);
    while a < n && space_at(s, a)
        invariant
            n == s@.len(),
            a <= n,
            trim_front(s@) == trim_front(s@.subrange(a as int, n as int)),
        decreases n - a,
    {
        assert(s@.subrange(a as int, n as int).drop_first() =~= s@.subrange(a as int + 1, n as int));
        a = a + 1;
    }
    let ghost front = s@.subrange(a as int, n as int);
    assert(trim_front(front) == front);
    let mut b: usize = n;
    while b > a && space_at(s, b - 1)
        invariant
            n == s@.len(),
            a <= b <= n,
            front == s@.subrange(a as int, n as int),
            trim_back(front) == trim_back(s@.subrange(a as int, b as int)),
        decreases b - a,
    {
        assert(s@.subrange(a as int, b as int).drop_last() =~= s@.subrange(a as int, b - 1));
        b = b - 1;
    }
    let ghost back = s@.subrange(a as int, b as int);
    assert(trim_back(back) == back);
    String::from_str(s.as_str().substring_char(a, b))
}

/// An element under the root: its name, its text, and its own child
/// elements as (name, text) pairs.
pub struct NodeV {
    pub name: Seq<char>,
    pub text: Seq<char>,
    pub kids: Seq<(Seq<char>, Seq<char>)>,
}

/// The state of a scan over the events: the depth of the open element (the
/// root is depth 1; what lies below a grandchild of the root is skipped), whether the root has closed, whether the body has been
/// found malformed, the finished children of the root, the child being read
/// and the grandchild being read.
pub struct Scan {
    pub depth: int,
    pub done: bool,
    pub failed: bool,
    pub children: Seq<NodeV>,
    pub cur: NodeV,
    pub kid: (Seq<char>, Seq<char>),
}

pub open spec fn empty_node(n: Seq<char>) -> NodeV {
    NodeV { name: n, text: seq![], kids: seq![] }
}

pub open spec fn scan_start() -> Scan {
    Scan {
        depth: 0,
        done: false,
        failed: false,
        children: seq![],
        cur: empty_node(seq![]),
        kid: (seq![], seq![]),
    }
}

/// The text of the five entities that XML predefines.
pub open spec fn entity(n: Seq<char>) -> Option<Seq<char>> {
    if n == "lt"@ {
        Some("<"@)
    } else if n == "gt"@ {
        Some(">"@)
    } else if n == "amp"@ {
        Some("&"@)
    } else if n == "apos"@ {
        Some("'"@)
    } else if n == "quot"@ {
        Some("\""@)
    } else {
        None
    }
}

pub open spec fn hex_value(c: char) -> int {
    if '0' <= c && c <= '9' {
        (c as u32) as int - ('0' as u32) as int
    } else if 'a' <= c && c <= 'f' {
        (c as u32) as int - ('a' as u32) as int + 10
    } else if 'A' <= c && c <= 'F' {
        (c as u32) as int - ('A' as u32) as int + 10
    } else {
        -1
    }
}

/// The value of `c` as a digit in base 16 (`hex`) or 10; -1 where it is none.
pub open spec fn radix_digit(c: char, hex: bool) -> int {
    if hex {
        hex_value(c)
    } else if is_digit(c) {
        digit_value(c)
    } else {
        -1
    }
}

pub open spec fn radix_value(s: Seq<char>, hex: bool) -> int
    decreases s.len(),
{
    if s.len() == 0 {
        0
    } else {
        radix_value(s.drop_last(), hex) * (if hex {
            16int
        } else {
            10int
        }) + radix_digit(s.last(), hex)
    }
}

/// The number that a character reference `#<decimal>` or `#x<hex>` names,
/// where its digits are all digits of the base and their value fits a `u32`.
pub open spec fn char_ref_code(n: Seq<char>) -> Option<int> {
    if n.len() > 0 && n[0] == '#' {
        let rest = n.skip(1);
        let hex = rest.len() > 0 && rest[0] == 'x';
        let ds = if hex {
            rest.skip(1)
        } else {
            rest
        };
        if ds.len() > 0 && (forall|i: int| 0 <= i < ds.len() ==> #[trigger] radix_digit(ds[i], hex) >= 0)
            && radix_value(ds, hex) <= u32::MAX {
            Some(radix_value(ds, hex))
        } else {
            None
        }
    } else {
        None
    }
}

/// A Unicode scalar value other than zero.
pub open spec fn is_scalar(v: int) -> bool {
    0 < v <= 0x10FFFF && !(0xD800 <= v <= 0xDFFF)
}

/// The character whose code is `v`.
pub open spec fn char_of(v: int) -> char {
    (v as u32) as char
}

/// Relies on quick-xml's `BytesRef::resolve_char_ref`: for a reference
/// `#<decimal>` or `#x<hex>` without a sign, the character with that code,
/// an error where the number is malformed, zero or no scalar value, and no
/// character for any other name. The character is handed back as a string.
#[verifier::external_body]
fn resolve_char_ref(n: &str) -> (r: Option<String>)
    ensures
        r is Some <==> (char_ref_code(n@) is Some && is_scalar(char_ref_code(n@)->Some_0)),
        r matches Some(t) ==> t@.len() == 1 && char_ref_code(n@) == Some(t@[0] as u32 as int),
{
    quick_xml::events::BytesRef::new(n).resolve_char_ref().ok().flatten().map(String::from)
}

/// The text that a reference stands for: a predefined entity or a character.
pub open spec fn reference_text(n: Seq<char>) -> Option<Seq<char>> {
    match entity(n) {
        Some(t) => Some(t),
        None => match char_ref_code(n) {
            Some(v) => if is_scalar(v) {
                Some(seq![char_of(v)])
            } else {
                None
            },
            None => None,
        },
    }
}

pub open spec fn fail(s: Scan) -> Scan {
    Scan { failed: true, ..s }
}

/// Text counts inside a child or a grandchild of the root, and nowhere else.
pub open spec fn add_text(s: Scan, t: Seq<char>) -> Scan {
    if s.depth == 2 {
        Scan { cur: NodeV { text: s.cur.text + t, ..s.cur }, ..s }
    } else if s.depth == 3 {
        Scan { kid: (s.kid.0, s.kid.1 + t), ..s }
    } else {
        s
    }
}

pub open spec fn step(s: Scan, e: Ev) -> Scan {
    if s.failed {
        s
    } else {
        match e {
            Ev::Open(n) => if s.depth == 0 {
                if s.done {
                    fail(s)
                } else {
                    Scan { depth: 1, ..s }
                }
            } else if s.depth == 1 {
                Scan { depth: 2, cur: empty_node(n), ..s }
            } else if s.depth == 2 {
                Scan { depth: 3, kid: (n, seq![]), ..s }
            } else {
                Scan { depth: s.depth + 1, ..s }
            },
            Ev::Empty(n) => if s.depth == 0 {
                if s.done {
                    fail(s)
                } else {
                    Scan { done: true, ..s }
                }
            } else if s.depth == 1 {
                Scan { children: s.children.push(empty_node(n)), ..s }
            } else if s.depth == 2 {
                Scan { cur: NodeV { kids: s.cur.kids.push((n, seq![])), ..s.cur }, ..s }
            } else {
                s
            },
            Ev::Close(_) => if s.depth > 3 {
                Scan { depth: s.depth - 1, ..s }
            } else if s.depth == 3 {
                Scan {
                    depth: 2,
                    cur: NodeV { kids: s.cur.kids.push((s.kid.0, trim(s.kid.1))), ..s.cur },
                    kid: (seq![], seq![]),
                    ..s
                }
            } else if s.depth == 2 {
                Scan {
                    depth: 1,
                    children: s.children.push(NodeV { text: trim(s.cur.text), ..s.cur }),
                    cur: empty_node(seq![]),
                    ..s
                }
            } else if s.depth == 1 {
                Scan { depth: 0, done: true, ..s }
            } else {
                fail(s)
            },
            Ev::Text(t) => add_text(s, t),
            Ev::CData(t) => add_text(s, t),
            Ev::Reference(n) => match reference_text(n) {
                Some(t) => add_text(s, t),
                None => fail(s),
            },
            Ev::Markup => s,
        }
    }
}

pub open spec fn scan(evs: Seq<Ev>) -> Scan
    decreases evs.len(),
{
    if evs.len() == 0 {
        scan_start()
    } else {
        step(scan(evs.drop_last()), evs.last())
    }
}

/// The children of the root, where the events make one complete document.
pub open spec fn document(evs: Seq<Ev>) -> Option<Seq<NodeV>> {
    let s = scan(evs);
    if !s.failed && s.done && s.depth == 0 {
        Some(s.children)
    } else {
        None
    }
}

pub open spec fn body_document(body: Seq<u8>) -> Option<Seq<NodeV>> {
    match xml_events(body) {
        Some(evs) => document(evs),
        None => None,
    }
}

/// An element under the root, as read from the body.
#[derive(Debug)]
pub struct Node {
    pub name: String,
    pub text: String,
    pub kids: Vec<(String, String)>,
}

pub open spec fn kids_view(v: Seq<(String, String)>) -> Seq<(Seq<char>, Seq<char>)> {
    v.map_values(|p: (String, String)| (p.0@, p.1@))
}

impl View for Node {
    type V = NodeV;

    open spec fn view(&self) -> NodeV {
        NodeV { name: self.name@, text: self.text@, kids: kids_view(self.kids@) }
    }
}

pub open spec fn nodes_view(v: Seq<Node>) -> Seq<NodeV> {
    v.map_values(|n: Node| n@)
}

impl Node {
    fn empty(name: String) -> (r: Node)
        ensures
            r@ == empty_node(name@),
    {
        let r = Node { name, text: String::new(), kids: Vec::new() };
        assert(kids_view(r.kids@) =~= seq![]);
        r
    }
}

struct Scanner {
    depth: u64,
    done: bool,
    failed: bool,
    children: Vec<Node>,
    cur: Node,
    kid_name: String,
    kid_text: String,
}

impl View for Scanner {
    type V = Scan;

    closed spec fn view(&self) -> Scan {
        Scan {
            depth: self.depth as int,
            done: self.done,
            failed: self.failed,
            children: nodes_view(self.children@),
            cur: self.cur@,
            kid: (self.kid_name@, self.kid_text@),
        }
    }
}

fn entity_text(n: &String) -> (r: Option<&'static str>)
    ensures
        match entity(n@) {
            Some(t) => r is Some && r->Some_0@ == t,
            None => r is None,
        },
{
    if *n == String::from_str("lt") {
        Some("<")
    } else if *n == String::from_str("gt") {
        Some(">")
    } else if *n == String::from_str("amp") {
        Some("&")
    } else if *n == String::from_str("apos") {
        Some("'")
    } else if *n == String::from_str("quot") {
        Some("\"")
    } else {
        None
    }
}

impl Scanner {
    fn new() -> (r: Scanner)
        ensures
            r@ == scan_start(),
    {
        let r = Scanner {
            depth: 0,
            done: false,
            failed: false,
            children: Vec::new(),
            cur: Node::empty(String::new()),
            kid_name: String::new(),
            kid_text: String::new(),
        };
        assert(nodes_view(r.children@) =~= seq![]);
        r
    }

    fn add_text(&mut self, t: &str)
        requires
            !old(self).failed,
        ensures
            final(self)@ == add_text(old(self)@, t@),
            final(self).depth == old(self).depth,
    {
        if self.depth == 2 {
            self.cur.text.append(t);
        } else if self.depth == 3 {
            self.kid_text.append(t);
        }
    }

    fn feed(&mut self, e: XmlEvent)
        requires
            old(self).depth < u64::MAX,
        ensures
            final(self)@ == step(old(self)@, ev_view(e)),
            final(self).depth <= old(self).depth + 1,
    {
        if self.failed {
            return;
        }
        match e {
            XmlEvent::Open(n) => {
                if self.depth == 0 {
                    if self.done {
                        self.failed = true;
                    } else {
                        self.depth = 1;
                    }
                } else if self.depth == 1 {
                    self.cur = Node::empty(n);
                    self.depth = 2;
                } else if self.depth == 2 {
                    self.kid_name = n;
                    self.kid_text = String::new();
                    self.depth = 3;
                } else {
                    self.depth = self.depth + 1;
                }
            },
            XmlEvent::Empty(n) => {
                if self.depth == 0 {
                    if self.done {
                        self.failed = true;
                    } else {
                        self.done = true;
                    }
                } else if self.depth == 1 {
                    let ghost before = self.children@;
                    self.children.push(Node::empty(n));
                    assert(nodes_view(self.children@) =~= nodes_view(before).push(
                        self.children@.last()@,
                    ));
                } else if self.depth == 2 {
                    let ghost before = self.cur.kids@;
                    self.cur.kids.push((n, String::new()));
                    assert(kids_view(self.cur.kids@) =~= kids_view(before).push(
                        (self.cur.kids@.last().0@, seq![]),
                    ));
                }
            },
            XmlEvent::Close(_) => {
                if self.depth > 3 {
                    self.depth = self.depth - 1;
                } else if self.depth == 3 {
                    let mut name = String::new();
                    let mut text = String::new();
                    std::mem::swap(&mut name, &mut self.kid_name);
                    std::mem::swap(&mut text, &mut self.kid_text);
                    let text = trim_text(&text);
                    let ghost before = self.cur.kids@;
                    self.cur.kids.push((name, text));
                    assert(kids_view(self.cur.kids@) =~= kids_view(before).push(
                        (name@, text@),
                    ));
                    self.depth = 2;
                } else if self.depth == 2 {
                    let mut node = Node::empty(String::new());
                    std::mem::swap(&mut node, &mut self.cur);
                    node.text = trim_text(&node.text);
                    let ghost before = self.children@;
                    let ghost finished = node@;
                    self.children.push(node);
                    assert(nodes_view(self.children@) =~= nodes_view(before).push(finished));
                    self.depth = 1;
                } else if self.depth == 1 {
                    self.depth = 0;
                    self.done = true;
                } else {
                    self.failed = true;
                }
            },
            XmlEvent::Text(t) => {
                self.add_text(t.as_str());
            },
            XmlEvent::CData(t) => {
                self.add_text(t.as_str());
            },
            XmlEvent::Reference(n) => {
                match entity_text(&n) {
                    Some(t) => self.add_text(t),
                    None => match resolve_char_ref(n.as_str()) {
                        Some(t) => {
                            let ghost v = t@[0] as u32 as int;
                            proof {
                                vstd::utf8::char_u32_cast(t@[0], t@[0] as u32);
                            }
                            assert(char_of(v) == t@[0]);
                            assert(t@ =~= seq![char_of(v)]);
                            self.add_text(t.as_str());
                        },
                        None => {
                            self.failed = true;
                        },
                    },
                }
            },
            XmlEvent::Markup => {},
        }
    }
}

/// Reads the children of the root from a response body.
pub fn parse_document(body: &[u8]) -> (r: Option<Vec<Node>>)
    ensures
        match body_document(body@) {
            Some(d) => r is Some && nodes_view(r->Some_0@) == d,
            None => r is None,
        },
{
    match read_events(body) {
        Some(v) => document_of(v),
        None => None,
    }
}

/// Reads the children of the root from the events of a body.
pub fn document_of(events: Vec<XmlEvent>) -> (r: Option<Vec<Node>>)
    ensures
        match document(evs_view(events@)) {
            Some(d) => r is Some && nodes_view(r->Some_0@) == d,
            None => r is None,
        },
{
    let ghost evs = evs_view(events@);
    let mut s = Scanner::new();
    let mut i: usize = 0;
    let n = events.len();
    let mut events = events;
    while i < n
        invariant
            n == evs.len(),
            i <= n,
            events@.len() == n - i,
            evs_view(events@) == evs.skip(i as int),
            s@ == scan(evs.take(i as int)),
            s.depth <= i,
        decreases n - i,
    {
        let ghost rest = events@;
        let e = events.remove(0);
        assert(evs_view(rest)[0] == ev_view(e));
        assert(evs_view(events@) =~= evs.skip(i as int + 1)) by {
            assert(events@ =~= rest.subrange(1, rest.len() as int));
            assert forall|k: int| 0 <= k < events@.len() implies evs_view(events@)[k] == evs.skip(
                i as int + 1,
            )[k] by {
                assert(evs_view(rest)[k + 1] == ev_view(rest[k + 1]));
                assert(evs.skip(i as int)[k + 1] == evs.skip(i as int + 1)[k]);
            }
        }
        assert(evs.take(i as int + 1).drop_last() =~= evs.take(i as int));
        assert(evs.take(i as int + 1).last() == evs[i as int]);
        s.feed(e);
        i = i + 1;
    }
    assert(evs.take(n as int) =~= evs);
    if !s.failed && s.done && s.depth == 0 {
        Some(s.children)
    } else {
        None
    }
}

} // verus!

verus! {

pub open spec fn is_digit(c: char) -> bool {
    '0' <= c && c <= '9'
}

pub open spec fn digit_value(c: char) -> int {
    (c as u32) as int - ('0' as u32) as int
}

/// The value of a string of decimal digits.
pub open spec fn digits_value(s: Seq<char>) -> int
    decreases s.len(),
{
    if s.len() == 0 {
        0
    } else {
        digits_value(s.drop_last()) * 10 + digit_value(s.last())
    }
}

pub open spec fn all_digits(s: Seq<char>) -> bool {
    forall|i: int| 0 <= i < s.len() ==> #[trigger] is_digit(s[i])
}

pub open spec fn has_sign(s: Seq<char>) -> bool {
    s.len() > 0 && (s[0] == '-' || s[0] == '+')
}

/// A decimal `i32` as std's `str::parse` reads it: an optional sign, then one
/// or more digits, with a value in range.
pub open spec fn int_text(s: Seq<char>) -> Option<i32> {
    let d = if has_sign(s) {
        s.skip(1)
    } else {
        s
    };
    let v = if s.len() > 0 && s[0] == '-' {
        -digits_value(d)
    } else {
        digits_value(d)
    };
    if d.len() > 0 && all_digits(d) && i32::MIN <= v && v <= i32::MAX {
        Some(v as i32)
    } else {
        None
    }
}

pub fn parse_i32(s: &str) -> (r: Option<i32>)
    ensures
        r == int_text(s@),
{
    let n = s.unicode_len();
    if n == 0 {
        return None;
    }
    let first = s.get_char(0);
    let negative = first == '-';
    let start: usize = if first == '-' || first == '+' {
        1
    } else {
        0
    };
    if start == n {
        return None;
    }
    let ghost d = s@.subrange(start as int, n as int);
    assert(d =~= if has_sign(s@) {
        s@.skip(1)
    } else {
        s@
    });
    let mut v: i64 = 0;
    let mut big = false;
    let mut k: usize = start;
    while k < n
        invariant
            n == s@.len(),
            start <= k <= n,
            d == s@.subrange(start as int, n as int),
            d == (if has_sign(s@) {
                s@.skip(1)
            } else {
                s@
            }),
            negative == (s@[0] == '-'),
            all_digits(s@.subrange(start as int, k as int)),
            !big ==> v == digits_value(s@.subrange(start as int, k as int)),
            !big ==> 0 <= v <= 2147483648,
            big ==> digits_value(s@.subrange(start as int, k as int)) > 2147483648,
        decreases n - k,
    {
        let c = s.get_char(k);
        let ghost pre = s@.subrange(start as int, k as int);
        let ghost next = s@.subrange(start as int, k as int + 1);
        assert(next.drop_last() =~= pre);
        assert(next.last() == c);
        if !('0' <= c && c <= '9') {
            assert(!all_digits(d)) by {
                assert(d[k - start] == c);
                assert(!is_digit(d[k - start]));
            }
            return None;
        }
        assert(all_digits(next)) by {
            assert forall|j: int| 0 <= j < next.len() implies #[trigger] is_digit(next[j]) by {
                if j < pre.len() {
                    assert(next[j] == pre[j]);
                }
            }
        }
        if !big {
            let dv = (c as u32 - '0' as u32) as i64;
            assert(dv == digit_value(c));
            v = v * 10 + dv;
            if v > 2147483648 {
                big = true;
            }
        } else {
            assert(digit_value(c) >= 0);
            assert(digits_value(next) == digits_value(pre) * 10 + digit_value(c));
        }
        k = k + 1;
    }
    assert(s@.subrange(start as int, n as int) == d);
    if big {
        return None;
    }
    if negative {
        Some((0 - v) as i32)
    } else if v <= 2147483647 {
        Some(v as i32)
    } else {
        None
    }
}

/// The first element named `n` at or after position `i`.
pub open spec fn find_node(ns: Seq<NodeV>, n: Seq<char>, i: int) -> Option<NodeV>
    decreases ns.len() - i,
{
    if i < 0 || i >= ns.len() {
        None
    } else if ns[i].name == n {
        Some(ns[i])
    } else {
        find_node(ns, n, i + 1)
    }
}

/// The text of the first child named `n` at or after position `i`.
pub open spec fn find_kid(ks: Seq<(Seq<char>, Seq<char>)>, n: Seq<char>, i: int) -> Option<
    Seq<char>,
>
    decreases ks.len() - i,
{
    if i < 0 || i >= ks.len() {
        None
    } else if ks[i].0 == n {
        Some(ks[i].1)
    } else {
        find_kid(ks, n, i + 1)
    }
}

/// Finds the first element under the root named `n`.
pub fn node_named(ns: &Vec<Node>, n: &str) -> (r: Option<usize>)
    ensures
        match find_node(nodes_view(ns@), n@, 0) {
            Some(v) => r is Some && r->Some_0 < ns.len() && ns@[r->Some_0 as int]@ == v,
            None => r is None,
        },
{
    let key = String::from_str(n);
    let mut i: usize = 0;
    while i < ns.len()
        invariant
            i <= ns.len(),
            key@ == n@,
            find_node(nodes_view(ns@), n@, 0) == find_node(nodes_view(ns@), n@, i as int),
        decreases ns.len() - i,
    {
        assert(nodes_view(ns@)[i as int] == ns@[i as int]@);
        if ns[i].name == key {
            return Some(i);
        }
        i = i + 1;
    }
    None
}

/// Finds the text of the first child of `node` named `n`.
pub fn kid_text(node: &Node, n: &str) -> (r: Option<String>)
    ensures
        match find_kid(node@.kids, n@, 0) {
            Some(t) => r is Some && r->Some_0@ == t,
            None => r is None,
        },
{
    let key = String::from_str(n);
    let mut i: usize = 0;
    while i < node.kids.len()
        invariant
            i <= node.kids.len(),
            key@ == n@,
            find_kid(node@.kids, n@, 0) == find_kid(node@.kids, n@, i as int),
        decreases node.kids.len() - i,
    {
        assert(node@.kids[i as int] == (node.kids@[i as int].0@, node.kids@[i as int].1@));
        if node.kids[i].0 == key {
            return Some(node.kids[i].1.clone());
        }
        i = i + 1;
    }
    None
}

/// One step of the automaton that reads a decimal number: an optional sign,
/// digits with at most one point and at least one digit, then an optional
/// exponent `e` or `E` with an optional sign and at least one digit. States:
/// 0 start, 1 sign, 2 integer digits, 3 point after digits, 4 point first,
/// 5 fraction digits, 6 exponent mark, 7 exponent sign, 8 exponent digits,
/// 9 rejected.
pub open spec fn decimal_step(q: int, c: char) -> int {
    let sign = c == '+' || c == '-';
    let exp = c == 'e' || c == 'E';
    if is_digit(c) {
        if q == 0 || q == 1 || q == 2 {
            2
        } else if q == 3 || q == 4 || q == 5 {
            5
        } else if q == 6 || q == 7 || q == 8 {
            8
        } else {
            9
        }
    } else if sign {
        if q == 0 {
            1
        } else if q == 6 {
            7
        } else {
            9
        }
    } else if c == '.' {
        if q == 0 || q == 1 {
            4
        } else if q == 2 {
            3
        } else {
            9
        }
    } else if exp && (q == 2 || q == 3 || q == 5) {
        6
    } else {
        9
    }
}

pub open spec fn decimal_run(s: Seq<char>) -> int
    decreases s.len(),
{
    if s.len() == 0 {
        0
    } else {
        decimal_step(decimal_run(s.drop_last()), s.last())
    }
}

/// `s` is a decimal number such as `12.5`, `-3`, `.5` or `1e3`.
pub open spec fn is_decimal(s: Seq<char>) -> bool {
    let q = decimal_run(s);
    q == 2 || q == 3 || q == 5 || q == 8
}

pub fn check_decimal(s: &str) -> (r: bool)
    ensures
        r == is_decimal(s@),
{
    let n = s.unicode_len();
    let mut q: u8 = 0;
    let mut i: usize = 0;
    while i < n
        invariant
            n == s@.len(),
            i <= n,
            q as int == decimal_run(s@.take(i as int)),
            q <= 9,
        decreases n - i,
    {
        let c = s.get_char(i);
        assert(s@.take(i as int + 1).drop_last() =~= s@.take(i as int));
        assert(s@.take(i as int + 1).last() == c);
        let sign = c == '+' || c == '-';
        let exp = c == 'e' || c == 'E';
        q = if '0' <= c && c <= '9' {
            if q <= 2 {
                2
            } else if q <= 5 {
                5
            } else if q <= 8 {
                8
            } else {
                9
            }
        } else if sign {
            if q == 0 {
                1
            } else if q == 6 {
                7
            } else {
                9
            }
        } else if c == '.' {
            if q <= 1 {
                4
            } else if q == 2 {
                3
            } else {
                9
            }
        } else if exp && (q == 2 || q == 3 || q == 5) {
            6
        } else {
            9
        };
        i = i + 1;
    }
    assert(s@.take(n as int) =~= s@);
    q == 2 || q == 3 || q == 5 || q == 8
}

} // verus!
