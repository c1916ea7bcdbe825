use onlyweb::document::{field_pointer, ErrorDocument, ErrorObject, Source};
use onlyweb::failure::{DecodeFailure, Failure, RoutingFailure};
use onlyweb::payload::Field;
use onlyweb::rules::Check;
use onlyweb::status::{status_text, BAD_REQUEST, METHOD_NOT_ALLOWED, NOT_FOUND, OK};
use onlyweb::validation::Violation;

fn populated(source: &Source) -> usize {
    [&source.pointer, &source.header, &source.parameter].iter().filter(|l| l.is_some()).count()
}

#[test]
fn status_constants() {
    assert_eq!(OK, 200);
    assert_eq!(BAD_REQUEST, 400);
    assert_eq!(NOT_FOUND, 404);
    assert_eq!(METHOD_NOT_ALLOWED, 405);
}

#[test]
fn status_text_is_decimal() {
    assert_eq!(status_text(0), "0");
    assert_eq!(status_text(7), "7");
    assert_eq!(status_text(9), "9");
    assert_eq!(status_text(10), "10");
    assert_eq!(status_text(99), "99");
    assert_eq!(status_text(100), "100");
    assert_eq!(status_text(200), "200");
    assert_eq!(status_text(400), "400");
    assert_eq!(status_text(404), "404");
    assert_eq!(status_text(405), "405");
    assert_eq!(status_text(413), "413");
    assert_eq!(status_text(415), "415");
    assert_eq!(status_text(422), "422");
    assert_eq!(status_text(1000), "1000");
    assert_eq!(status_text(12345), "12345");
    assert_eq!(status_text(65535), "65535");
}

#[test]
fn status_text_parses_back() {
    for code in [0u16, 1, 9, 10, 11, 100, 101, 199, 200, 404, 599, 999, 1000, 9999, 10000, 65535] {
        assert_eq!(status_text(code).parse::<u16>(), Ok(code));
        assert_eq!(status_text(code), code.to_string());
    }
}

#[test]
fn pointer_is_prefix_and_name() {
    assert_eq!(field_pointer("username"), "/data/attributes/username");
    assert_eq!(field_pointer("password"), "/data/attributes/password");
    assert_eq!(field_pointer(""), "/data/attributes/");
    assert_eq!(field_pointer("a/b"), "/data/attributes/a/b");
}

#[test]
fn pointers_of_the_two_fields_differ() {
    let username = field_pointer(Field::Username.name());
    let password = field_pointer(Field::Password.name());
    assert_ne!(username, password);
    assert!(username.ends_with("username"));
    assert!(password.ends_with("password"));
}

#[test]
fn routing_failure_status_code_and_phrase() {
    assert_eq!(RoutingFailure::NotFound.status(), 404);
    assert_eq!(RoutingFailure::MethodNotAllowed.status(), 405);
    assert_eq!(RoutingFailure::NotFound.code(), "not_found");
    assert_eq!(RoutingFailure::MethodNotAllowed.code(), "method_not_allowed");
    assert_eq!(RoutingFailure::NotFound.phrase(), "Ресурс не найден");
    assert_eq!(RoutingFailure::MethodNotAllowed.phrase(), "Метод не поддерживается");
}

#[test]
fn routing_failure_from_status() {
    assert_eq!(RoutingFailure::from_status(404), Some(RoutingFailure::NotFound));
    assert_eq!(RoutingFailure::from_status(405), Some(RoutingFailure::MethodNotAllowed));
    for status in [0u16, 200, 400, 403, 406, 422, 500, 65535] {
        assert_eq!(RoutingFailure::from_status(status), None);
    }
}

#[test]
fn error_of_a_decode_failure() {
    let failure = DecodeFailure {
        status: 422,
        message: "Failed to deserialize the JSON body into the target type".to_string(),
    };
    assert_eq!(
        ErrorObject::from_decode_failure(&failure),
        ErrorObject {
            source: None,
            title: String::new(),
            detail: "Failed to deserialize the JSON body into the target type".to_string(),
            code: None,
            status: "422".to_string(),
        }
    );
}

#[test]
fn error_of_a_violation() {
    let violation = Violation {
        field: Field::Password,
        check: Check::MinLength(10),
        message: Some("too short".to_string()),
    };
    assert_eq!(
        ErrorObject::from_violation(&violation),
        ErrorObject {
            source: Some(Source {
                pointer: Some("/data/attributes/password".to_string()),
                header: None,
                parameter: None,
            }),
            title: String::new(),
            detail: "too short".to_string(),
            code: None,
            status: String::new(),
        }
    );
}

#[test]
fn error_of_a_violation_without_message() {
    let violation = Violation { field: Field::Username, check: Check::Required, message: None };
    let error = ErrorObject::from_violation(&violation);
    assert_eq!(error.detail, "Invalid value");
    assert_eq!(
        error.source,
        Some(Source {
            pointer: Some("/data/attributes/username".to_string()),
            header: None,
            parameter: None,
        })
    );
}

#[test]
fn error_of_not_found() {
    assert_eq!(
        ErrorObject::from_routing_failure(RoutingFailure::NotFound),
        ErrorObject {
            source: None,
            title: "Ресурс не найден".to_string(),
            detail: "Ресурс не найден".to_string(),
            code: Some("not_found".to_string()),
            status: "404".to_string(),
        }
    );
}

#[test]
fn error_of_method_not_allowed() {
    assert_eq!(
        ErrorObject::from_routing_failure(RoutingFailure::MethodNotAllowed),
        ErrorObject {
            source: None,
            title: "Метод не поддерживается".to_string(),
            detail: "Метод не поддерживается".to_string(),
            code: Some("method_not_allowed".to_string()),
            status: "405".to_string(),
        }
    );
}

#[test]
fn document_of_a_decode_failure_has_one_error() {
    let failure = DecodeFailure { status: 400, message: "bad".to_string() };
    let document = ErrorDocument::build(&Failure::Decode(failure.clone()));
    assert_eq!(document.errors, vec![ErrorObject::from_decode_failure(&failure)]);
    assert_eq!(document.errors[0].source, None);
    assert_eq!(document.errors[0].status, "400");
    assert_eq!(document.errors[0].detail, "bad");
}

#[test]
fn document_of_a_routing_failure_has_one_error() {
    for failure in [RoutingFailure::NotFound, RoutingFailure::MethodNotAllowed] {
        let document = ErrorDocument::build(&Failure::Routing(failure));
        assert_eq!(document.errors, vec![ErrorObject::from_routing_failure(failure)]);
        assert_eq!(document.errors[0].status.parse::<u16>(), Ok(failure.status()));
        assert_eq!(document.errors[0].title, document.errors[0].detail);
    }
}

#[test]
fn document_of_violations_keeps_count_and_order() {
    let violations = vec![
        Violation {
            field: Field::Username,
            check: Check::Required,
            message: Some("u".to_string()),
        },
        Violation { field: Field::Password, check: Check::Required, message: None },
        Violation {
            field: Field::Username,
            check: Check::MinLength(3),
            message: Some("again".to_string()),
        },
    ];
    let document = ErrorDocument::build(&Failure::Validation(violations.clone()));
    assert_eq!(document, ErrorDocument::from_violations(&violations));
    assert_eq!(document.errors.len(), 3);
    assert_eq!(document.errors[0].detail, "u");
    assert_eq!(document.errors[1].detail, "Invalid value");
    assert_eq!(document.errors[2].detail, "again");
    for (error, violation) in document.errors.iter().zip(violations.iter()) {
        assert_eq!(error, &ErrorObject::from_violation(violation));
        assert_eq!(error.status, "");
        assert_eq!(error.title, "");
        assert_eq!(error.code, None);
        assert_eq!(populated(error.source.as_ref().unwrap()), 1);
    }
}

#[test]
fn document_of_no_violations_is_empty() {
    let document = ErrorDocument::build(&Failure::Validation(Vec::new()));
    assert!(document.errors.is_empty());
}
