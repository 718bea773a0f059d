use vstd::prelude::*;
use vstd::string::*;

verus! {

/// One header line of a message: a name and a value.
#[derive(Debug)]
pub struct Header {
    pub name: String,
    pub value: String,
}

/// The protocol version that a message was sent with.
#[derive(Clone, Copy, Debug, PartialEq, Eq, Structural)]
pub enum HttpVersion {
    Http10,
    Http11,
}

/// A parsed request: what the pipeline reads of it, as plain values.
#[derive(Debug)]
pub struct HttpRequest {
    pub method: String,
    pub target: String,
    pub version: HttpVersion,
    pub headers: Vec<Header>,
    pub body: Vec<u8>,
}

/// A response, from the origin or made up by the proxy.
#[derive(Debug)]
pub struct HttpResponse {
    pub status: u16,
    pub version: HttpVersion,
    pub headers: Vec<Header>,
    pub body: Vec<u8>,
}

/// What an interceptor reports of a message that passed it while it was enabled.
#[derive(Debug)]
pub enum LogRecord {
    /// A request passed, with this method and target.
    Request { method: String, target: String },
    /// A response passed, with this version and status.
    Response { version: HttpVersion, status: u16 },
}

/// A report as plain values.
pub enum LogRecordView {
    Request { method: Seq<char>, target: Seq<char> },
    Response { version: HttpVersion, status: u16 },
}

impl View for LogRecord {
    type V = LogRecordView;

    open spec fn view(&self) -> LogRecordView {
        match self {
            LogRecord::Request { method, target } => LogRecordView::Request {
                method: method@,
                target: target@,
            },
            LogRecord::Response { version, status } => LogRecordView::Response {
                version: *version,
                status: *status,
            },
        }
    }
}

/// What a report holds, where there is one: `None` stands for no report, and
/// for nothing else.
pub open spec fn record_view(record: Option<LogRecord>) -> Option<LogRecordView> {
    match record {
        Some(r) => Some(r@),
        None => None,
    }
}

} // verus!

verus! {

/// An upper-case letter of ASCII.
pub open spec fn is_upper(c: char) -> bool {
    'A' <= c && c <= 'Z'
}

/// Two characters that are the same but for the case of an ASCII letter.
pub open spec fn same_letter(a: char, b: char) -> bool {
    a == b || (is_upper(a) && a as u32 + 32 == b as u32) || (is_upper(b) && b as u32 + 32
        == a as u32)
}

/// Two names that are the same but for the case of their ASCII letters: how
/// header names are compared.
pub open spec fn names_match(a: Seq<char>, b: Seq<char>) -> bool {
    a.len() == b.len() && forall|i: int| 0 <= i < a.len() ==> same_letter(#[trigger] a[i], b[i])
}

fn letters_match(a: char, b: char) -> (same: bool)
    ensures
        same == same_letter(a, b),
{
    a == b || ('A' <= a && a <= 'Z' && a as u32 + 32 == b as u32) || ('A' <= b && b <= 'Z'
        && b as u32 + 32 == a as u32)
}

/// Compares two names without regard to the case of ASCII letters.
pub fn same_name(a: &str, b: &str) -> (same: bool)
    ensures
        same == names_match(a@, b@),
{
    let n: usize = a.unicode_len();
    if n != b.unicode_len() {
        return false;
    }
    let mut i: usize = 0;
    while i < n
        invariant
            i <= n,
            n == a@.len(),
            n == b@.len(),
            forall|j: int| 0 <= j < i ==> same_letter(#[trigger] a@[j], b@[j]),
        decreases n - i,
    {
        if !letters_match(a.get_char(i), b.get_char(i)) {
            return false;
        }
        i = i + 1;
    }
    true
}

/// Where the first header of the given name stands among `headers`, if there
/// is one.
pub open spec fn first_header(headers: Seq<Header>, name: Seq<char>) -> Option<int>
    decreases headers.len(),
{
    if headers.len() == 0 {
        None
    } else if first_header(headers.drop_last(), name) is Some {
        first_header(headers.drop_last(), name)
    } else if names_match(headers.last().name@, name) {
        Some(headers.len() - 1)
    } else {
        None
    }
}

/// Finds the first header of the given name.
pub fn find_header(headers: &Vec<Header>, name: &str) -> (found: Option<usize>)
    ensures
        match found {
            Some(at) => first_header(headers@, name@) == Some(at as int) && at < headers@.len(),
            None => first_header(headers@, name@) is None,
        },
{
    let mut i: usize = 0;
    while i < headers.len()
        invariant
            i <= headers@.len(),
            first_header(headers@.take(i as int), name@) is None,
        decreases headers@.len() - i,
    {
        assert(headers@.take(i + 1).drop_last() == headers@.take(i as int));
        if same_name(headers[i].name.as_str(), name) {
            proof {
                lemma_first_header_extends(headers@, name@, i + 1);
            }
            return Some(i);
        }
        i = i + 1;
    }
    assert(headers@.take(i as int) == headers@);
    None
}

/// A header found among the first `upto` headers is the first of its name
/// among all of them.
proof fn lemma_first_header_extends(headers: Seq<Header>, name: Seq<char>, upto: int)
    requires
        0 <= upto <= headers.len(),
        first_header(headers.take(upto), name) is Some,
    ensures
        first_header(headers, name) == first_header(headers.take(upto), name),
    decreases headers.len() - upto,
{
    if upto < headers.len() {
        assert(headers.take(upto + 1).drop_last() == headers.take(upto));
        lemma_first_header_extends(headers, name, upto + 1);
    } else {
        assert(headers.take(upto) == headers);
    }
}

} // verus!
