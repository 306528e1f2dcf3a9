//! Decomposition of the error text a server sends back: pick out its header,
//! status and message parts, and strip the punctuation noise the wire format
//! leaves in them.

use vstd::prelude::*;
use vstd::string::*;
use crate::textparse::{first_tag, has_tag, string_from_chars, take_until_split};

pub use crate::error::{error_check, is_a_error};

verus! {

/// The kind of server error the text was recognised as.
#[derive(Debug)]
pub enum NuIoxErrorType {
    TableNotFound,
}

/// A server error report, decomposed into its parts.
#[derive(Debug)]
pub struct NuIoxError {
    /// The raw text as it arrived.
    pub start: String,
    pub error_type: NuIoxErrorType,
    /// The part before "status: ", with colons removed.
    pub header: String,
    /// The part from "status: " up to ", message: ".
    pub status: String,
    /// The part from ", message: " up to ", details: ", with punctuation
    /// noise removed.
    pub message: String,
}

/// The tag that opens the details part of a report.
pub open spec fn details_tag() -> Seq<char> {
    ", details: "@
}

/// The tag that opens the message part of a report.
pub open spec fn message_tag() -> Seq<char> {
    ", message: "@
}

/// The tag that opens the status part of a report.
pub open spec fn header_tag() -> Seq<char> {
    "status: "@
}

/// Everything before the details tag: the part of the report worth reading.
pub open spec fn spec_details(data: Seq<char>) -> Seq<char> {
    data.subrange(0, first_tag(data, details_tag()))
}

/// The message part: the details from the message tag on.
pub open spec fn spec_message_raw(data: Seq<char>) -> Seq<char> {
    spec_details(data).subrange(
        first_tag(spec_details(data), message_tag()),
        spec_details(data).len() as int,
    )
}

/// What is left of the details before the message tag.
pub open spec fn spec_remainder(data: Seq<char>) -> Seq<char> {
    spec_details(data).subrange(0, first_tag(spec_details(data), message_tag()))
}

/// The status part: the remainder from the status tag on.
pub open spec fn spec_status(data: Seq<char>) -> Seq<char> {
    spec_remainder(data).subrange(
        first_tag(spec_remainder(data), header_tag()),
        spec_remainder(data).len() as int,
    )
}

/// The header part: what stands before the status tag.
pub open spec fn spec_header_raw(data: Seq<char>) -> Seq<char> {
    spec_remainder(data).subrange(0, first_tag(spec_remainder(data), header_tag()))
}

/// A character the wire format leaves as noise in the message part.
pub open spec fn is_message_noise(c: char) -> bool {
    c == '(' || c == ')' || c == ',' || c == '"' || c == ';' || c == '\''
}

/// The message part with its noise characters removed, order kept.
pub open spec fn strip_message_noise(s: Seq<char>) -> Seq<char>
    decreases s.len(),
{
    if s.len() == 0 {
        Seq::empty()
    } else if is_message_noise(s.last()) {
        strip_message_noise(s.drop_last())
    } else {
        strip_message_noise(s.drop_last()).push(s.last())
    }
}

/// The sequence with its colons removed, order kept.
pub open spec fn strip_colons(s: Seq<char>) -> Seq<char>
    decreases s.len(),
{
    if s.len() == 0 {
        Seq::empty()
    } else if s.last() == ':' {
        strip_colons(s.drop_last())
    } else {
        strip_colons(s.drop_last()).push(s.last())
    }
}

/// Remove the punctuation noise from a message string.
pub fn remove_slash_from_string(s: &String) -> (r: String)
    ensures
        r@ == strip_message_noise(s@),
{
    let text = s.as_str();
    let n = text.unicode_len();
    let mut kept: Vec<char> = Vec::new();
    let mut i: usize = 0;
    while i < n
        invariant
            n == s@.len(),
            text@ == s@,
            i <= n,
            kept@ == strip_message_noise(s@.subrange(0, i as int)),
        decreases n - i,
    {
        let c = text.get_char(i);
        if !(c == '(' || c == ')' || c == ',' || c == '"' || c == ';' || c == '\'') {
            kept.push(c);
        }
        proof {
            let t = s@.subrange(0, i + 1);
            assert(t.drop_last() =~= s@.subrange(0, i as int));
        }
        i += 1;
    }
    proof {
        assert(s@.subrange(0, n as int) =~= s@);
    }
    string_from_chars(&kept)
}

/// Remove the colons from a header string.
pub fn remove_colon_from_string(s: &String) -> (r: String)
    ensures
        r@ == strip_colons(s@),
{
    let text = s.as_str();
    let n = text.unicode_len();
    let mut kept: Vec<char> = Vec::new();
    let mut i: usize = 0;
    while i < n
        invariant
            n == s@.len(),
            text@ == s@,
            i <= n,
            kept@ == strip_colons(s@.subrange(0, i as int)),
        decreases n - i,
    {
        let c = text.get_char(i);
        if !(c == ':') {
            kept.push(c);
        }
        proof {
            let t = s@.subrange(0, i + 1);
            assert(t.drop_last() =~= s@.subrange(0, i as int));
        }
        i += 1;
    }
    proof {
        assert(s@.subrange(0, n as int) =~= s@);
    }
    string_from_chars(&kept)
}

/// Split a report at the details tag: what comes before it, and the rest.
fn remove_details<'a>(s: &'a str) -> (r: Option<(&'a str, &'a str)>)
    ensures
        r is Some <==> has_tag(s@, details_tag()),
        r matches Some((pre, rest)) ==> {
            &&& pre@ == s@.subrange(0, first_tag(s@, details_tag()))
            &&& rest@ == s@.subrange(first_tag(s@, details_tag()), s@.len() as int)
        },
{
    proof {
        reveal_strlit(", details: ");
    }
    take_until_split(s, ", details: ")
}

/// Split at the message tag: what comes before it, and the rest.
fn get_message<'a>(s: &'a str) -> (r: Option<(&'a str, &'a str)>)
    ensures
        r is Some <==> has_tag(s@, message_tag()),
        r matches Some((pre, rest)) ==> {
            &&& pre@ == s@.subrange(0, first_tag(s@, message_tag()))
            &&& rest@ == s@.subrange(first_tag(s@, message_tag()), s@.len() as int)
        },
{
    proof {
        reveal_strlit(", message: ");
    }
    take_until_split(s, ", message: ")
}

/// Split at the status tag: what comes before it, and the rest.
fn get_header<'a>(s: &'a str) -> (r: Option<(&'a str, &'a str)>)
    ensures
        r is Some <==> has_tag(s@, header_tag()),
        r matches Some((pre, rest)) ==> {
            &&& pre@ == s@.subrange(0, first_tag(s@, header_tag()))
            &&& rest@ == s@.subrange(first_tag(s@, header_tag()), s@.len() as int)
        },
{
    proof {
        reveal_strlit("status: ");
    }
    take_until_split(s, "status: ")
}

impl NuIoxError {
    /// Decompose a report into header, status and message. The three tags
    /// must be present, message before status within the part before the
    /// details tag; a report without them is not of the shape this
    /// decomposition reads.
    pub fn build(data: &str) -> (r: Self)
        requires
            has_tag(data@, details_tag()),
            has_tag(spec_details(data@), message_tag()),
            has_tag(spec_remainder(data@), header_tag()),
        ensures
            r.start@ == data@,
            r.error_type is TableNotFound,
            r.header@ == strip_colons(spec_header_raw(data@)),
            r.status@ == spec_status(data@),
            r.message@ == strip_message_noise(spec_message_raw(data@)),
    {
        let details = remove_details(data).unwrap().0;
        let (remainder, message0) = get_message(details).unwrap();
        let (header0, status0) = get_header(remainder).unwrap();

        let header1 = remove_colon_from_string(&String::from_str(header0));
        let message1 = remove_slash_from_string(&String::from_str(message0));

        Self {
            start: String::from_str(data),
            error_type: NuIoxErrorType::TableNotFound,
            header: header1,
            status: String::from_str(status0),
            message: message1,
        }
    }
}

/// The shell command whose output is being handled.
#[derive(Clone, Copy, Debug)]
pub enum CommandType {
    Sql,
    Write,
    WriteFile,
}

/// Carries one command's raw output text.
#[derive(Debug)]
pub struct NuIoxErrorHandler {
    pub ctype: CommandType,
    pub error: String,
}

impl NuIoxErrorHandler {
    pub fn new(ctype: CommandType, error: String) -> (r: Self)
        ensures
            r.ctype == ctype,
            r.error == error,
    {
        Self { ctype, error }
    }

    /// Hand the raw output on unchanged; deciding whether it is an error or
    /// a table is the caller's affair.
    pub fn nu_iox_error_check(&self) -> (r: Result<String, nu_protocol::ShellError>)
        ensures
            r matches Ok(m) && m@ == self.error@,
    {
        Ok(self.error.clone())
    }

    /// Produce a generic shell error carrying the two given texts, spanned
    /// at the call's head; always an error.
    pub fn nu_iox_error_generic(&self, str01: &str, str02: &str, call: &nu_protocol::ast::Call) -> (r:
        Result<String, nu_protocol::ShellError>)
        ensures
            r is Err,
    {
        Err(crate::shell::generic_shell_error(str01, str02, call))
    }
}

} // verus!
