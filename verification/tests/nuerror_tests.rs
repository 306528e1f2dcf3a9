use iox_resolver::nuerror::{
    remove_colon_from_string, remove_slash_from_string, NuIoxError, NuIoxErrorHandler,
    NuIoxErrorType,
};
use iox_resolver::nuerror::CommandType;
use nu_protocol::ast::Call;
use nu_protocol::Span;

#[test]
fn build_decomposes_a_report_into_its_parts() {
    let data = "Error header: status: 404 Not Found, message: (\"sensors missing\"), details: x";
    let e = NuIoxError::build(data);
    assert_eq!(e.start, data);
    assert!(matches!(e.error_type, NuIoxErrorType::TableNotFound));
    assert_eq!(e.header, "Error header ");
    assert_eq!(e.status, "status: 404 Not Found");
    assert_eq!(e.message, " message: sensors missing");
}

#[test]
fn build_keeps_only_the_part_before_the_details_tag() {
    let data = "h: status: s, message: m, details: status: hidden, message: hidden";
    let e = NuIoxError::build(data);
    assert_eq!(e.status, "status: s");
    assert_eq!(e.header, "h ");
    assert_eq!(e.message, " message: m");
}

#[test]
fn remove_slash_strips_punctuation_noise_and_keeps_order() {
    assert_eq!(remove_slash_from_string(&"(a,b);'c'\"d\"".to_string()), "abcd");
    assert_eq!(remove_slash_from_string(&"plain".to_string()), "plain");
    assert_eq!(remove_slash_from_string(&"".to_string()), "");
}

#[test]
fn remove_colon_strips_colons_and_keeps_order() {
    assert_eq!(remove_colon_from_string(&"a:b:c:".to_string()), "abc");
    assert_eq!(remove_colon_from_string(&"no colons".to_string()), "no colons");
}

#[test]
fn handler_hands_the_output_on_unchanged() {
    let handler = NuIoxErrorHandler::new(CommandType::Write, "a,b,c\n1,2,3".to_string());
    assert_eq!(handler.nu_iox_error_check().unwrap(), "a,b,c\n1,2,3");
}

#[test]
fn generic_error_is_always_an_error() {
    let handler = NuIoxErrorHandler::new(CommandType::Sql, String::new());
    let call = Call::new(Span::new(0, 0));
    let r = handler.nu_iox_error_generic("title", "message", &call);
    assert!(matches!(r, Err(nu_protocol::ShellError::Generic(_))));
}
