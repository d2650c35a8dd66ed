use hydration::error::Error;

#[test]
fn default_error_is_the_unknown_error() {
    let err = Error::default();
    assert_eq!(
        format!("{:?}", err),
        "Error { code: \"UNKNOWN\", status: 500, message: \"Unknown error has happened.\" }"
    );
}

#[test]
fn new_error_keeps_default_status_and_message() {
    let err = Error::new("NO_USER".to_string());
    assert_eq!(
        format!("{:?}", err),
        "Error { code: \"NO_USER\", status: 500, message: \"Unknown error has happened.\" }"
    );
}

#[test]
fn status_and_message_can_be_chained() {
    let mut err = Error::new("NO_USER".to_string());
    err.status(404).message("User not found".to_string());
    assert_eq!(
        format!("{:?}", err),
        "Error { code: \"NO_USER\", status: 404, message: \"User not found\" }"
    );
}

#[test]
fn status_leaves_code_and_message() {
    let mut err = Error::default();
    err.status(418);
    assert_eq!(
        format!("{:?}", err),
        "Error { code: \"UNKNOWN\", status: 418, message: \"Unknown error has happened.\" }"
    );
}

#[test]
fn message_leaves_code_and_status() {
    let mut err = Error::default();
    err.message("gone".to_string());
    assert_eq!(format!("{:?}", err), "Error { code: \"UNKNOWN\", status: 500, message: \"gone\" }");
}
