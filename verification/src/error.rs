//! Handler for the output a shell command got back from the server: it hands
//! the raw text on, and tells apart text that starts as an error report from
//! text that does not.

use vstd::prelude::*;
use nom::IResult;

verus! {

#[verifier::external_type_specification]
#[verifier::external_body]
#[verifier::reject_recursive_types(E)]
pub struct ExNomErr<E>(nom::Err<E>);

#[verifier::external_type_specification]
#[verifier::external_body]
#[verifier::reject_recursive_types(I)]
pub struct ExNomError<I>(nom::error::Error<I>);

/// The shell command whose output is being handled.
#[derive(Clone, Copy, Debug)]
pub enum CommandType {
    Sql,
    Write,
    WriteFile,
}

/// Carries one command's raw output text.
#[derive(Debug)]
pub struct NuIoxErrorHandler {
    pub ctype: CommandType,
    pub error: String,
}

impl NuIoxErrorHandler {
    pub fn new(ctype: CommandType, error: String) -> (r: Self)
        ensures
            r.ctype == ctype,
            r.error == error,
    {
        Self { ctype, error }
    }

    /// Hand the raw output on unchanged; deciding whether it is an error or
    /// a table is the caller's affair.
    pub fn nu_iox_error_check(&self) -> (r: Result<String, nu_protocol::ShellError>)
        ensures
            r matches Ok(m) && m@ == self.error@,
    {
        Ok(self.error.clone())
    }

    /// Produce a specimen shell error, to see what one looks like to the
    /// shell; always an error.
    pub fn nu_iox_error_test(&self, call: &nu_protocol::ast::Call) -> (r: Result<
        String,
        nu_protocol::ShellError,
    >)
        ensures
            r is Err,
    {
        Err(
            crate::shell::unsupported_input_error(
                "Drop nth accepts only positive integers",
                call,
            ),
        )
    }
}

/// A character the word "Error" is drawn from.
pub open spec fn is_error_token(c: char) -> bool {
    c == 'E' || c == 'r' || c == 'o'
}

/// Where the run of "Error"-characters that starts at `i` ends.
pub open spec fn error_token_run_from(s: Seq<char>, i: int) -> int
    decreases s.len() - i when 0 <= i
{
    if i >= s.len() || !is_error_token(s[i]) {
        i
    } else {
        error_token_run_from(s, i + 1)
    }
}

/// The length of the longest prefix of `s` drawn from the characters of
/// "Error".
pub open spec fn error_token_run(s: Seq<char>) -> int {
    error_token_run_from(s, 0)
}

/// Relies on nom's `is_a` (complete): splits off the longest prefix drawn
/// from the characters of "Error", and fails exactly when that prefix is
/// empty — the input is empty or starts with some other character.
#[verifier::external_body]
pub fn is_a_error(s: &str) -> (r: IResult<&str, &str>)
    ensures
        r is Ok <==> (s@.len() > 0 && is_error_token(s@[0])),
        r matches Ok((rest, taken)) ==> {
            &&& taken@ == s@.subrange(0, error_token_run(s@))
            &&& rest@ == s@.subrange(error_token_run(s@), s@.len() as int)
        },
{
    let remote_query: &'static str = "Error";
    nom::bytes::complete::is_a(remote_query)(s)
}

/// True when the text does not begin like the word "Error": the parse above
/// failed, so the output is not an error report.
pub fn error_check(s: &str) -> (r: bool)
    ensures
        r == !(s@.len() > 0 && is_error_token(s@[0])),
{
    let result = is_a_error(s);
    match result {
        Ok(_) => false,
        Err(_) => true,
    }
}

} // verus!
