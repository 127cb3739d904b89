use syncserver::error::{
    ApiError, ApiErrorKind, DbError, ErrorClass, ErrorLocation, ErrorResponse, TokenserverError,
};

#[test]
fn locations_have_their_names() {
    assert_eq!(ErrorLocation::Header.to_string(), "header");
    assert_eq!(ErrorLocation::Url.to_string(), "url");
    assert_eq!(ErrorLocation::Body.to_string(), "body");
    assert_eq!(ErrorLocation::Internal.to_string(), "internal");
    assert_eq!(ErrorLocation::Body.as_str(), "body");
    assert_eq!(ErrorLocation::default(), ErrorLocation::Header);
}

#[test]
fn default_error_is_unauthorized() {
    assert_eq!(
        TokenserverError::default(),
        TokenserverError {
            status: "error",
            location: ErrorLocation::Header,
            name: String::new(),
            description: "Unauthorized",
            http_status: 401,
            context: "Unauthorized".to_owned(),
        }
    );
}

#[test]
fn errors_of_the_token_service() {
    assert_eq!(
        TokenserverError::invalid_generation(),
        TokenserverError {
            status: "invalid-generation",
            location: ErrorLocation::Body,
            context: "Invalid generation".to_owned(),
            ..TokenserverError::default()
        }
    );
    assert_eq!(
        TokenserverError::invalid_keys_changed_at(),
        TokenserverError {
            status: "invalid-keysChangedAt",
            location: ErrorLocation::Body,
            context: "Invalid keys_changed_at".to_owned(),
            ..TokenserverError::default()
        }
    );
    assert_eq!(
        TokenserverError::invalid_key_id("bad key"),
        TokenserverError {
            status: "invalid-key-id",
            description: "bad key",
            context: "bad key".to_owned(),
            ..TokenserverError::default()
        }
    );
    assert_eq!(
        TokenserverError::invalid_credentials("bad creds"),
        TokenserverError {
            status: "invalid-credentials",
            location: ErrorLocation::Body,
            description: "bad creds",
            context: "bad creds".to_owned(),
            ..TokenserverError::default()
        }
    );
    assert_eq!(
        TokenserverError::invalid_client_state("bad state"),
        TokenserverError {
            status: "invalid-client-state",
            description: "bad state",
            name: "X-Client-State".to_owned(),
            context: "bad state".to_owned(),
            ..TokenserverError::default()
        }
    );
    assert_eq!(
        TokenserverError::internal_error(),
        TokenserverError {
            status: "internal-error",
            location: ErrorLocation::Internal,
            description: "Server error",
            http_status: 500,
            context: "Internal error".to_owned(),
            ..TokenserverError::default()
        }
    );
    assert_eq!(
        TokenserverError::resource_unavailable(),
        TokenserverError {
            location: ErrorLocation::Body,
            description: "Resource is not available",
            http_status: 503,
            context: "Resource is not available".to_owned(),
            ..TokenserverError::default()
        }
    );
    assert_eq!(
        TokenserverError::unsupported("no such app", "application".to_owned()),
        TokenserverError {
            status: "error",
            location: ErrorLocation::Url,
            description: "no such app",
            name: "application".to_owned(),
            http_status: 404,
            context: "no such app".to_owned(),
        }
    );
    assert_eq!(
        TokenserverError::unauthorized("nope"),
        TokenserverError {
            location: ErrorLocation::Body,
            description: "nope",
            context: "nope".to_owned(),
            ..TokenserverError::default()
        }
    );
    assert_eq!(TokenserverError::internal_error().message(), "Internal error");
}

#[test]
fn status_of_an_api_error_is_that_of_its_kind() {
    let e = ApiError::from_application(TokenserverError::unsupported("d", "n".to_owned()));
    assert_eq!(e.status_code(), 404);
    assert!(matches!(e.kind(), ApiErrorKind::Application(_)));
    let e = ApiError::from_kind(ApiErrorKind::Application(TokenserverError::internal_error()));
    assert_eq!(e.status_code(), 500);
    let db = DbError { status: 503, backtrace: "trace".to_owned(), description: "pool".to_owned() };
    let e = ApiError::from_database(db.clone());
    assert_eq!(e.status_code(), 503);
    assert_eq!(e.backtrace(), "trace");
    assert_eq!(e.kind().message(), "Database error: pool");
    let e = ApiError::from_kind(ApiErrorKind::Database(db));
    assert_eq!(e.status_code(), 503);
    assert_eq!(e.backtrace(), "trace");
}

#[test]
fn application_error_captures_a_backtrace() {
    let e = ApiError::from_application(TokenserverError::default());
    assert!(!e.backtrace().is_empty());
    assert_eq!(e.kind().message(), "Unauthorized");
    let e = DbError::internal("broken");
    assert_eq!(e.status, 500);
    assert_eq!(e.description, "broken");
    assert!(!e.backtrace.is_empty());
}

#[test]
fn envelope_of_an_application_error() {
    let error = TokenserverError::invalid_client_state("Unacceptable client-state value");
    let envelope = ErrorResponse::from_tokenserver_error(&error);
    assert_eq!(envelope.status, "invalid-client-state");
    assert_eq!(envelope.errors[0].location, ErrorLocation::Header);
    assert_eq!(envelope.errors[0].name, "X-Client-State");
    assert_eq!(envelope.errors[0].description, "Unacceptable client-state value");
    assert_eq!(
        envelope.to_json(),
        "{\"status\":\"invalid-client-state\",\"errors\":[{\"location\":\"header\",\"name\":\"X-Client-State\",\"description\":\"Unacceptable client-state value\"}]}"
    );
    let api = ApiError::from_application(error);
    assert_eq!(api.message(), envelope.to_json());
}

#[test]
fn envelope_of_a_database_error_discloses_nothing() {
    let db = DbError {
        status: 500,
        backtrace: "secret trace".to_owned(),
        description: "secret table missing".to_owned(),
    };
    let api = ApiError::from_database(db);
    let envelope = ErrorResponse::from_api_error(&api);
    assert_eq!(envelope.status, "error");
    assert_eq!(envelope.errors[0].location, ErrorLocation::Header);
    assert_eq!(envelope.errors[0].name, "");
    assert_eq!(envelope.errors[0].description, "Database error");
    assert_eq!(
        api.message(),
        "{\"status\":\"error\",\"errors\":[{\"location\":\"header\",\"name\":\"\",\"description\":\"Database error\"}]}"
    );
    assert!(!api.message().contains("secret"));
}

#[test]
fn envelope_escapes_its_strings() {
    let error = TokenserverError::unsupported(
        "a \"quoted\" \\ path",
        "tab\there\nline\u{1}\u{1f}\u{7f}\u{e9}/".to_owned(),
    );
    let text = ErrorResponse::from_tokenserver_error(&error).to_json();
    assert_eq!(
        text,
        "{\"status\":\"error\",\"errors\":[{\"location\":\"url\",\"name\":\"tab\\there\\nline\\u0001\\u001f\u{7f}\u{e9}/\",\"description\":\"a \\\"quoted\\\" \\\\ path\"}]}"
    );
    let parsed: serde_json::Value = serde_json::from_str(&text).expect("valid JSON");
    assert_eq!(parsed["errors"][0]["name"], "tab\there\nline\u{1}\u{1f}\u{7f}\u{e9}/");
    assert_eq!(parsed["errors"][0]["description"], "a \"quoted\" \\ path");
    assert_eq!(parsed["status"], "error");
}

#[test]
fn classes_of_the_taxonomy() {
    assert!(!ErrorClass::UserInput.is_reportable());
    assert!(ErrorClass::ResourceExhaustion.is_reportable());
    assert!(ErrorClass::Internal.is_reportable());
    assert!(ErrorClass::Dependency { reportable: true }.is_reportable());
    assert!(!ErrorClass::Dependency { reportable: false }.is_reportable());
    assert!(ErrorClass::UserInput.is_always_labeled());
    assert!(ErrorClass::ResourceExhaustion.is_always_labeled());
    assert!(!ErrorClass::Internal.is_always_labeled());
    assert!(ErrorClass::UserInput.has_status(400));
    assert!(ErrorClass::UserInput.has_status(499));
    assert!(!ErrorClass::UserInput.has_status(500));
    assert!(ErrorClass::ResourceExhaustion.has_status(503));
    assert!(!ErrorClass::ResourceExhaustion.has_status(500));
    assert!(ErrorClass::Internal.has_status(500));
    assert!(!ErrorClass::Internal.has_status(503));
    assert!(ErrorClass::Dependency { reportable: false }.has_status(502));
    assert_eq!(ErrorClass::of_status(401), Some(ErrorClass::UserInput));
    assert_eq!(ErrorClass::of_status(404), Some(ErrorClass::UserInput));
    assert_eq!(ErrorClass::of_status(503), Some(ErrorClass::ResourceExhaustion));
    assert_eq!(ErrorClass::of_status(500), Some(ErrorClass::Internal));
    assert_eq!(ErrorClass::of_status(502), None);
    assert_eq!(ErrorClass::of_status(200), None);
    assert_eq!(ErrorClass::for_status(404), ErrorClass::UserInput);
    assert_eq!(ErrorClass::for_status(503), ErrorClass::ResourceExhaustion);
    assert_eq!(ErrorClass::for_status(500), ErrorClass::Internal);
    assert_eq!(ErrorClass::for_status(502), ErrorClass::Internal);
}

#[test]
fn errors_are_classed_by_their_status() {
    assert_eq!(TokenserverError::default().class(), ErrorClass::UserInput);
    assert_eq!(TokenserverError::unsupported("d", String::new()).class(), ErrorClass::UserInput);
    assert_eq!(TokenserverError::internal_error().class(), ErrorClass::Internal);
    assert_eq!(TokenserverError::resource_unavailable().class(), ErrorClass::ResourceExhaustion);
    let user = ApiError::from_application(TokenserverError::invalid_generation());
    assert_eq!(user.class(), ErrorClass::UserInput);
    assert!(!user.class().is_reportable());
    let db = DbError { status: 500, backtrace: String::new(), description: "x".to_owned() };
    assert_eq!(ApiError::from_database(db).class(), ErrorClass::Internal);
    let pool = DbError { status: 503, backtrace: String::new(), description: "x".to_owned() };
    let pool = ApiError::from_database(pool);
    assert_eq!(pool.class(), ErrorClass::ResourceExhaustion);
    assert!(pool.class().is_reportable());
}
