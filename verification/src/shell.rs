//! Declarations of the shell types the error handlers speak of, and the
//! construction of shell errors, which only the outside crate can do.

use vstd::prelude::*;

verus! {

#[verifier::external_type_specification]
#[verifier::external_body]
pub struct ExShellError(nu_protocol::ShellError);

#[verifier::external_type_specification]
#[verifier::external_body]
pub struct ExCall(nu_protocol::ast::Call);

/// Relies on `nu_protocol::ShellError::UnsupportedInput`: builds the
/// unsupported-input shell error with the given message, labelled at the
/// call's head span.
#[verifier::external_body]
pub(crate) fn unsupported_input_error(msg: &str, call: &nu_protocol::ast::Call) -> (r:
    nu_protocol::ShellError) {
    nu_protocol::ShellError::UnsupportedInput {
        msg: msg.to_string(),
        input: "value originates from here".to_string(),
        msg_span: call.head,
        input_span: call.head,
    }
}

/// Relies on `nu_protocol::shell_error::generic::GenericError::new`: builds a
/// generic shell error from a title and a message, spanned at the call's
/// head, with no help text and no inner errors.
#[verifier::external_body]
pub(crate) fn generic_shell_error(title: &str, msg: &str, call: &nu_protocol::ast::Call) -> (r:
    nu_protocol::ShellError) {
    nu_protocol::ShellError::Generic(
        nu_protocol::shell_error::generic::GenericError::new(
            title.to_string(),
            msg.to_string(),
            call.head,
        ),
    )
}

} // verus!
