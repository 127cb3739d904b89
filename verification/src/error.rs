//! The error taxonomy: where an error was found, the errors of the token
//! service, the errors of the database, and the envelope that a client sees.

use crate::json::{json_string, quote};
use vstd::prelude::*;
use vstd::string::*;

verus! {

/// The status of a request that is not authorized.
pub const UNAUTHORIZED: u16 = 401;

/// The status of a request for what is not there.
pub const NOT_FOUND: u16 = 404;

/// The status of a failure of the service.
pub const INTERNAL_SERVER_ERROR: u16 = 500;

/// The status of a service that cannot answer now.
pub const SERVICE_UNAVAILABLE: u16 = 503;

/// The part of the request in which an error was found.
#[derive(Clone, Copy, Debug, PartialEq, Eq, Structural)]
pub enum ErrorLocation {
    Header,
    Url,
    Body,
    Internal,
}

impl ErrorLocation {
    /// The name of the location in an error envelope.
    pub open spec fn name(self) -> Seq<char> {
        match self {
            ErrorLocation::Header => "header"@,
            ErrorLocation::Url => "url"@,
            ErrorLocation::Body => "body"@,
            ErrorLocation::Internal => "internal"@,
        }
    }

    /// The name of the location in an error envelope.
    pub fn as_str(&self) -> (s: &'static str)
        ensures
            s@ == self.name(),
    {
        match self {
            ErrorLocation::Header => "header",
            ErrorLocation::Url => "url",
            ErrorLocation::Body => "body",
            ErrorLocation::Internal => "internal",
        }
    }

    /// The name of the location, as text of its own.
    pub fn to_string(&self) -> (s: String)
        ensures
            s@ == self.name(),
    {
        self.as_str().to_owned()
    }
}

impl Default for ErrorLocation {
    fn default() -> (l: ErrorLocation)
        ensures
            l == ErrorLocation::Header,
    {
        ErrorLocation::Header
    }
}

/// An error of the token service, as the client is told of it, with the
/// context that only the error report carries.
#[derive(Clone, Debug, PartialEq)]
pub struct TokenserverError {
    pub status: &'static str,
    pub location: ErrorLocation,
    pub name: String,
    pub description: &'static str,
    pub http_status: u16,
    /// For internal use only: what tells similar errors apart in a report.
    pub context: String,
}

impl TokenserverError {
    /// The error has the parts given.
    pub open spec fn is(
        &self,
        status: Seq<char>,
        location: ErrorLocation,
        name: Seq<char>,
        description: Seq<char>,
        http_status: u16,
        context: Seq<char>,
    ) -> bool {
        &&& self.status@ == status
        &&& self.location == location
        &&& self.name@ == name
        &&& self.description@ == description
        &&& self.http_status == http_status
        &&& self.context@ == context
    }

    /// The generation of the request is not valid.
    pub fn invalid_generation() -> (e: TokenserverError)
        ensures
            e.is(
                "invalid-generation"@,
                ErrorLocation::Body,
                Seq::empty(),
                "Unauthorized"@,
                UNAUTHORIZED,
                "Invalid generation"@,
            ),
    {
        TokenserverError {
            status: "invalid-generation",
            location: ErrorLocation::Body,
            name: String::new(),
            description: "Unauthorized",
            http_status: UNAUTHORIZED,
            context: "Invalid generation".to_owned(),
        }
    }

    /// The time at which the keys were changed is not valid.
    pub fn invalid_keys_changed_at() -> (e: TokenserverError)
        ensures
            e.is(
                "invalid-keysChangedAt"@,
                ErrorLocation::Body,
                Seq::empty(),
                "Unauthorized"@,
                UNAUTHORIZED,
                "Invalid keys_changed_at"@,
            ),
    {
        TokenserverError {
            status: "invalid-keysChangedAt",
            location: ErrorLocation::Body,
            name: String::new(),
            description: "Unauthorized",
            http_status: UNAUTHORIZED,
            context: "Invalid keys_changed_at".to_owned(),
        }
    }

    /// The key id of the request is not valid.
    pub fn invalid_key_id(description: &'static str) -> (e: TokenserverError)
        ensures
            e.is(
                "invalid-key-id"@,
                ErrorLocation::Header,
                Seq::empty(),
                description@,
                UNAUTHORIZED,
                description@,
            ),
    {
        TokenserverError {
            status: "invalid-key-id",
            location: ErrorLocation::Header,
            name: String::new(),
            description,
            http_status: UNAUTHORIZED,
            context: description.to_owned(),
        }
    }

    /// The credentials of the request are not valid.
    pub fn invalid_credentials(description: &'static str) -> (e: TokenserverError)
        ensures
            e.is(
                "invalid-credentials"@,
                ErrorLocation::Body,
                Seq::empty(),
                description@,
                UNAUTHORIZED,
                description@,
            ),
    {
        TokenserverError {
            status: "invalid-credentials",
            location: ErrorLocation::Body,
            name: String::new(),
            description,
            http_status: UNAUTHORIZED,
            context: description.to_owned(),
        }
    }

    /// The client state of the request is not valid.
    pub fn invalid_client_state(description: &'static str) -> (e: TokenserverError)
        ensures
            e.is(
                "invalid-client-state"@,
                ErrorLocation::Header,
                "X-Client-State"@,
                description@,
                UNAUTHORIZED,
                description@,
            ),
    {
        TokenserverError {
            status: "invalid-client-state",
            location: ErrorLocation::Header,
            name: "X-Client-State".to_owned(),
            description,
            http_status: UNAUTHORIZED,
            context: description.to_owned(),
        }
    }

    /// The service failed.
    pub fn internal_error() -> (e: TokenserverError)
        ensures
            e.is(
                "internal-error"@,
                ErrorLocation::Internal,
                Seq::empty(),
                "Server error"@,
                INTERNAL_SERVER_ERROR,
                "Internal error"@,
            ),
    {
        TokenserverError {
            status: "internal-error",
            location: ErrorLocation::Internal,
            name: String::new(),
            description: "Server error",
            http_status: INTERNAL_SERVER_ERROR,
            context: "Internal error".to_owned(),
        }
    }

    /// A resource that the request needs is not available.
    pub fn resource_unavailable() -> (e: TokenserverError)
        ensures
            e.is(
                "error"@,
                ErrorLocation::Body,
                Seq::empty(),
                "Resource is not available"@,
                SERVICE_UNAVAILABLE,
                "Resource is not available"@,
            ),
    {
        TokenserverError {
            status: "error",
            location: ErrorLocation::Body,
            name: String::new(),
            description: "Resource is not available",
            http_status: SERVICE_UNAVAILABLE,
            context: "Resource is not available".to_owned(),
        }
    }

    /// The request asks for something that the service does not offer.
    pub fn unsupported(description: &'static str, name: String) -> (e: TokenserverError)
        ensures
            e.is("error"@, ErrorLocation::Url, name@, description@, NOT_FOUND, description@),
    {
        TokenserverError {
            status: "error",
            location: ErrorLocation::Url,
            name,
            description,
            http_status: NOT_FOUND,
            context: description.to_owned(),
        }
    }

    /// The request is not authorized.
    pub fn unauthorized(description: &'static str) -> (e: TokenserverError)
        ensures
            e.is(
                "error"@,
                ErrorLocation::Body,
                Seq::empty(),
                description@,
                UNAUTHORIZED,
                description@,
            ),
    {
        TokenserverError {
            status: "error",
            location: ErrorLocation::Body,
            name: String::new(),
            description,
            http_status: UNAUTHORIZED,
            context: description.to_owned(),
        }
    }

    /// What the error reads as in a report: its context.
    pub fn message(&self) -> (m: String)
        ensures
            m@ == self.context@,
    {
        self.context.clone()
    }

    /// The class of the error, which follows from its status.
    pub fn class(&self) -> (c: ErrorClass)
        ensures
            c == ErrorClass::of_failure(self.http_status),
    {
        ErrorClass::for_status(self.http_status)
    }
}

impl Default for TokenserverError {
    fn default() -> (e: TokenserverError)
        ensures
            e.is(
                "error"@,
                ErrorLocation::Header,
                Seq::empty(),
                "Unauthorized"@,
                UNAUTHORIZED,
                "Unauthorized"@,
            ),
    {
        TokenserverError {
            status: "error",
            location: ErrorLocation::Header,
            name: String::new(),
            description: "Unauthorized",
            http_status: UNAUTHORIZED,
            context: "Unauthorized".to_owned(),
        }
    }
}

/// An error of the database, with the status that a client is to see and
/// the backtrace that was captured with it.
#[derive(Clone, Debug, PartialEq)]
pub struct DbError {
    pub status: u16,
    pub backtrace: String,
    pub description: String,
}

/// Captures the stack of the caller with `backtrace::Backtrace::new` and
/// gives it as text, in the alternate debug form. Nothing is stated of the
/// text: it depends on where the call is made.
#[verifier::external_body]
fn capture_backtrace() -> String {
    format!("{:#?}", backtrace::Backtrace::new())
}

impl DbError {
    /// An internal error of the database, with the backtrace of this call.
    pub fn internal(description: &str) -> (e: DbError)
        ensures
            e.status == INTERNAL_SERVER_ERROR,
            e.description@ == description@,
    {
        DbError {
            status: INTERNAL_SERVER_ERROR,
            backtrace: capture_backtrace(),
            description: description.to_owned(),
        }
    }

    /// What the error reads as.
    pub fn message(&self) -> (m: String)
        ensures
            m@ == self.description@,
    {
        self.description.clone()
    }
}

/// The two kinds of error that a request can end in.
#[derive(Debug)]
pub enum ApiErrorKind {
    Application(TokenserverError),
    Database(DbError),
}

impl ApiErrorKind {
    /// The status that the kind asks for.
    pub open spec fn http_status(&self) -> u16 {
        match self {
            ApiErrorKind::Application(e) => e.http_status,
            ApiErrorKind::Database(e) => e.status,
        }
    }

    /// What the kind reads as.
    pub open spec fn text(&self) -> Seq<char> {
        match self {
            ApiErrorKind::Application(e) => e.context@,
            ApiErrorKind::Database(e) => "Database error: "@ + e.description@,
        }
    }

    /// What the kind reads as.
    pub fn message(&self) -> (m: String)
        ensures
            m@ == self.text(),
    {
        match self {
            ApiErrorKind::Application(e) => e.message(),
            ApiErrorKind::Database(e) => {
                let mut m = "Database error: ".to_owned();
                m.append(e.description.as_str());
                m
            },
        }
    }
}

/// An error of a request. Its status is that of its kind.
#[derive(Debug)]
pub struct ApiError {
    kind: ApiErrorKind,
    status: u16,
    backtrace: String,
}

impl ApiError {
    #[verifier::type_invariant]
    spec fn status_follows_kind(&self) -> bool {
        self.status == self.kind.http_status()
    }

    /// The kind of the error.
    pub closed spec fn spec_kind(&self) -> ApiErrorKind {
        self.kind
    }

    /// The backtrace that was captured with the error.
    pub closed spec fn spec_backtrace(&self) -> String {
        self.backtrace
    }

    /// The error of the kind given. Its status is that of the kind. An
    /// error of the database keeps the backtrace of the database; for an
    /// error of the application the backtrace of this call is captured.
    pub fn from_kind(kind: ApiErrorKind) -> (e: ApiError)
        ensures
            e.spec_kind() == kind,
            kind matches ApiErrorKind::Database(d) ==> e.spec_backtrace() == d.backtrace,
    {
        match kind {
            ApiErrorKind::Application(error) => {
                let status = error.http_status;
                ApiError {
                    kind: ApiErrorKind::Application(error),
                    status,
                    backtrace: capture_backtrace(),
                }
            },
            ApiErrorKind::Database(error) => {
                let status = error.status;
                let backtrace = error.backtrace.clone();
                ApiError { kind: ApiErrorKind::Database(error), status, backtrace }
            },
        }
    }

    /// The error of the application given.
    pub fn from_application(error: TokenserverError) -> (e: ApiError)
        ensures
            e.spec_kind() == ApiErrorKind::Application(error),
    {
        ApiError::from_kind(ApiErrorKind::Application(error))
    }

    /// The error of the database given.
    pub fn from_database(error: DbError) -> (e: ApiError)
        ensures
            e.spec_kind() == ApiErrorKind::Database(error),
            e.spec_backtrace() == error.backtrace,
    {
        ApiError::from_kind(ApiErrorKind::Database(error))
    }

    /// The kind of the error.
    pub fn kind(&self) -> (k: &ApiErrorKind)
        ensures
            *k == self.spec_kind(),
    {
        &self.kind
    }

    /// The status that the client sees: that of the kind of the error.
    pub fn status_code(&self) -> (s: u16)
        ensures
            s == self.spec_kind().http_status(),
    {
        proof {
            use_type_invariant(self);
        }
        self.status
    }

    /// The class of the error, which follows from its status.
    pub fn class(&self) -> (c: ErrorClass)
        ensures
            c == ErrorClass::of_failure(self.spec_kind().http_status()),
    {
        ErrorClass::for_status(self.status_code())
    }

    /// The backtrace that was captured with the error.
    pub fn backtrace(&self) -> (b: &String)
        ensures
            *b == self.spec_backtrace(),
    {
        &self.backtrace
    }

    /// What the error reads as: its envelope, as JSON.
    pub fn message(&self) -> (m: String)
        ensures
            m@ == envelope_text(response_of(self.spec_kind())),
    {
        ErrorResponse::from_api_error(self).to_json()
    }
}

/// One error of an envelope.
#[derive(Debug)]
pub struct ErrorInstance {
    pub location: ErrorLocation,
    pub name: String,
    pub description: &'static str,
}

/// The envelope in which a client is told of an error. It holds nothing
/// of the context, the backtrace or the text of a database error.
#[derive(Debug)]
pub struct ErrorResponse {
    pub status: &'static str,
    pub errors: [ErrorInstance; 1],
}

/// An envelope, as values.
pub struct ErrorResponseView {
    pub status: Seq<char>,
    pub location: ErrorLocation,
    pub name: Seq<char>,
    pub description: Seq<char>,
}

impl View for ErrorResponse {
    type V = ErrorResponseView;

    open spec fn view(&self) -> ErrorResponseView {
        ErrorResponseView {
            status: self.status@,
            location: self.errors[0].location,
            name: self.errors[0].name@,
            description: self.errors[0].description@,
        }
    }
}

/// The envelope of an error of the token service.
pub open spec fn response_of_application(error: TokenserverError) -> ErrorResponseView {
    ErrorResponseView {
        status: error.status@,
        location: error.location,
        name: error.name@,
        description: error.description@,
    }
}

/// The envelope of an error: that of the application's error, or, for an
/// error of the database, one that says no more than that.
pub open spec fn response_of(kind: ApiErrorKind) -> ErrorResponseView {
    match kind {
        ApiErrorKind::Application(error) => response_of_application(error),
        ApiErrorKind::Database(_) => ErrorResponseView {
            status: "error"@,
            location: ErrorLocation::Header,
            name: Seq::empty(),
            description: "Database error"@,
        },
    }
}

/// The JSON text of an envelope: an object with the status and the list
/// of the one error, which has its location, name and description.
pub open spec fn envelope_text(r: ErrorResponseView) -> Seq<char> {
    "{\"status\":"@ + json_string(r.status) + ",\"errors\":[{\"location\":"@ + json_string(
        r.location.name(),
    ) + ",\"name\":"@ + json_string(r.name) + ",\"description\":"@ + json_string(
        r.description,
    ) + "}]}"@
}

impl ErrorResponse {
    /// The envelope of an error of the token service.
    pub fn from_tokenserver_error(error: &TokenserverError) -> (r: ErrorResponse)
        ensures
            r@ == response_of_application(*error),
    {
        ErrorResponse {
            status: error.status,
            errors: [
                ErrorInstance {
                    location: error.location,
                    name: error.name.clone(),
                    description: error.description,
                },
            ],
        }
    }

    /// The envelope of an error of a request.
    pub fn from_api_error(error: &ApiError) -> (r: ErrorResponse)
        ensures
            r@ == response_of(error.spec_kind()),
    {
        match error.kind() {
            ApiErrorKind::Application(e) => ErrorResponse::from_tokenserver_error(e),
            ApiErrorKind::Database(_) => ErrorResponse {
                status: "error",
                errors: [
                    ErrorInstance {
                        location: ErrorLocation::Header,
                        name: String::new(),
                        description: "Database error",
                    },
                ],
            },
        }
    }

    /// The envelope as JSON.
    pub fn to_json(&self) -> (text: String)
        ensures
            text@ == envelope_text(self@),
    {
        let mut text = "{\"status\":".to_owned();
        text.append(quote(self.status).as_str());
        text.append(",\"errors\":[{\"location\":");
        text.append(quote(self.errors[0].location.as_str()).as_str());
        text.append(",\"name\":");
        text.append(quote(self.errors[0].name.as_str()).as_str());
        text.append(",\"description\":");
        text.append(quote(self.errors[0].description).as_str());
        text.append("}]}");
        text
    }
}

/// The text of an optional string.
pub open spec fn text_of(s: Option<String>) -> Option<Seq<char>> {
    match s {
        Some(t) => Some(t@),
        None => None,
    }
}

/// The classes of failure, by whose fault they are.
#[derive(Clone, Copy, Debug, PartialEq, Eq, Structural)]
pub enum ErrorClass {
    /// The request was at fault: it was malformed, or over its quota.
    UserInput,
    /// The pool was exhausted, or timed out.
    ResourceExhaustion,
    /// The service or its database failed.
    Internal,
    /// Something the service depends on failed, and says itself whether
    /// that is worth a report.
    Dependency { reportable: bool },
}

impl ErrorClass {
    /// Errors of the class reach the error tracker: never those of the
    /// user, always those of the pool and of the service, and those of a
    /// dependency as the dependency says.
    pub open spec fn reportable(self) -> bool {
        match self {
            ErrorClass::UserInput => false,
            ErrorClass::ResourceExhaustion => true,
            ErrorClass::Internal => true,
            ErrorClass::Dependency { reportable } => reportable,
        }
    }

    /// Errors of the class are always counted under a label.
    pub open spec fn always_labeled(self) -> bool {
        self == ErrorClass::UserInput || self == ErrorClass::ResourceExhaustion
    }

    /// The class maps to the status `status`: an error of the user to a
    /// status from 400 to 499, an exhausted pool to 503, and a failure of
    /// the service to 500. A dependency states its own.
    pub open spec fn maps_to(self, status: u16) -> bool {
        match self {
            ErrorClass::UserInput => 400 <= status < 500,
            ErrorClass::ResourceExhaustion => status == SERVICE_UNAVAILABLE,
            ErrorClass::Internal => status == INTERNAL_SERVER_ERROR,
            ErrorClass::Dependency { .. } => 400 <= status < 600,
        }
    }

    /// The class that an error has by its status alone: an error of the
    /// user for a status from 400 to 499, an exhausted pool for 503, and a
    /// failure of the service for 500. Another status tells nothing.
    pub open spec fn by_status(status: u16) -> Option<ErrorClass> {
        if 400 <= status < 500 {
            Some(ErrorClass::UserInput)
        } else if status == SERVICE_UNAVAILABLE {
            Some(ErrorClass::ResourceExhaustion)
        } else if status == INTERNAL_SERVER_ERROR {
            Some(ErrorClass::Internal)
        } else {
            None
        }
    }

    /// The class that an error has by its status alone.
    pub fn of_status(status: u16) -> (class: Option<ErrorClass>)
        ensures
            class == ErrorClass::by_status(status),
            class matches Some(c) ==> c.maps_to(status),
    {
        if 400 <= status && status < 500 {
            Some(ErrorClass::UserInput)
        } else if status == SERVICE_UNAVAILABLE {
            Some(ErrorClass::ResourceExhaustion)
        } else if status == INTERNAL_SERVER_ERROR {
            Some(ErrorClass::Internal)
        } else {
            None
        }
    }

    /// The class of a failure of the service's own with the status
    /// `status`: what the status tells, and a failure of the service where
    /// it tells nothing.
    pub open spec fn of_failure(status: u16) -> ErrorClass {
        match ErrorClass::by_status(status) {
            Some(class) => class,
            None => ErrorClass::Internal,
        }
    }

    /// The class of a failure of the service's own with the status
    /// `status`.
    pub fn for_status(status: u16) -> (class: ErrorClass)
        ensures
            class == ErrorClass::of_failure(status),
            !class.reportable() <==> 400 <= status < 500,
    {
        match ErrorClass::of_status(status) {
            Some(class) => class,
            None => ErrorClass::Internal,
        }
    }

    /// Whether errors of the class reach the error tracker.
    pub fn is_reportable(&self) -> (b: bool)
        ensures
            b == self.reportable(),
    {
        match self {
            ErrorClass::UserInput => false,
            ErrorClass::ResourceExhaustion => true,
            ErrorClass::Internal => true,
            ErrorClass::Dependency { reportable } => *reportable,
        }
    }

    /// Whether errors of the class are always counted under a label.
    pub fn is_always_labeled(&self) -> (b: bool)
        ensures
            b == self.always_labeled(),
    {
        match self {
            ErrorClass::UserInput => true,
            ErrorClass::ResourceExhaustion => true,
            _ => false,
        }
    }

    /// Whether the class maps to the status `status`.
    pub fn has_status(&self, status: u16) -> (b: bool)
        ensures
            b == self.maps_to(status),
    {
        match self {
            ErrorClass::UserInput => 400 <= status && status < 500,
            ErrorClass::ResourceExhaustion => status == SERVICE_UNAVAILABLE,
            ErrorClass::Internal => status == INTERNAL_SERVER_ERROR,
            ErrorClass::Dependency { .. } => 400 <= status && status < 600,
        }
    }
}

/// What the reporter asks of an error: whether the error tracker should
/// hear of it, under which counter it is counted, and the backtrace that
/// was captured with it.
pub trait MetricError {
    /// Whether the error is to reach the error tracker.
    fn is_reportable(&self) -> bool;

    /// The counter to increment for each occurrence of the error.
    fn metric_label(&self) -> Option<String>;

    /// The backtrace that was captured with the error.
    fn backtrace(&self) -> String;
}

} // verus!
