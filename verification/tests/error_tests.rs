use iox_resolver::error::{error_check, is_a_error, CommandType, NuIoxErrorHandler};
use nu_protocol::ast::Call;
use nu_protocol::Span;

#[test]
fn is_a_error_splits_off_the_error_prefix() {
    assert_eq!(is_a_error("Error: table"), Ok((": table", "Error")));
    assert_eq!(is_a_error("Erroroo stuff"), Ok((" stuff", "Erroroo")));
}

#[test]
fn is_a_error_fails_when_the_text_starts_otherwise() {
    assert!(is_a_error("hello").is_err());
    assert!(is_a_error("").is_err());
    assert!(is_a_error(" Error").is_err());
}

#[test]
fn error_check_is_true_exactly_when_no_error_prefix_starts_the_text() {
    assert!(!error_check("Error: table not found"));
    assert!(!error_check("rror oddly trimmed"));
    assert!(error_check("a,b,c\n1,2,3"));
    assert!(error_check(""));
    assert!(error_check(" Error with leading space"));
}

#[test]
fn sql_handler_hands_the_output_on_unchanged() {
    let handler = NuIoxErrorHandler::new(CommandType::Sql, "result".to_string());
    assert_eq!(handler.nu_iox_error_check().unwrap(), "result");
}

#[test]
fn test_error_is_always_an_unsupported_input_error() {
    let handler = NuIoxErrorHandler::new(CommandType::WriteFile, String::new());
    let call = Call::new(Span::new(0, 0));
    let r = handler.nu_iox_error_test(&call);
    assert!(matches!(
        r,
        Err(nu_protocol::ShellError::UnsupportedInput { msg, .. })
            if msg == "Drop nth accepts only positive integers"
    ));
}
