use vstd::prelude::*;
use vstd::std_specs::convert::FromSpecImpl;
use vstd::string::StringExecFns;

verus! {

/// The body sent with every failed request.
#[derive(Debug)]
pub struct ErrorResponse {
    pub error: String,
    pub message: String,
}

/// Why a session token was not accepted.
#[derive(Clone, Copy, Debug, PartialEq, Eq, Hash, Structural)]
pub enum AuthError {
    ExpiredToken,
    InvalidToken,
    MissingToken,
}

/// Every way a request can fail. Each failure is rendered as exactly one
/// status, one machine code and one message.
#[derive(Debug, PartialEq, Eq)]
pub enum AppError {
    Auth(AuthError),
    /// The store failed; the text is the store's own account of it and is
    /// never shown to the caller.
    Database(String),
    UserNotFound,
    UserAlreadyExists,
    InvalidCredentials,
    UserNotValidated,
    Forbidden(String),
    Internal,
    TenantNotFound,
    ServiceUnavailable,
    /// All field failures of a request, joined into one text.
    Validation(String),
}

/// The mathematical value of an [`AppError`]: the same failure, its texts
/// as sequences of characters.
pub enum Failure {
    Auth(AuthError),
    Database(Seq<char>),
    UserNotFound,
    UserAlreadyExists,
    InvalidCredentials,
    UserNotValidated,
    Forbidden(Seq<char>),
    Internal,
    TenantNotFound,
    ServiceUnavailable,
    Validation(Seq<char>),
}

impl Failure {
    /// What the caller sees of the failure: status, code and message.
    pub open spec fn rendered(self) -> (u16, Seq<char>, Seq<char>) {
        match self {
            Failure::Auth(AuthError::ExpiredToken) => (401, "TOKEN_EXPIRED"@, "Token has expired"@),
            Failure::Auth(AuthError::InvalidToken) => (
                401,
                "INVALID_TOKEN"@,
                "Invalid authentication token"@,
            ),
            Failure::Auth(AuthError::MissingToken) => (
                401,
                "MISSING_TOKEN"@,
                "Authentication token required"@,
            ),
            Failure::Database(_) => (500, "DATABASE_ERROR"@, "Database operation failed"@),
            Failure::UserNotFound => (404, "USER_NOT_FOUND"@, "User not found"@),
            Failure::UserAlreadyExists => (
                409,
                "USER_ALREADY_EXISTS"@,
                "User already exists for this tenant"@,
            ),
            Failure::InvalidCredentials => (
                401,
                "INVALID_CREDENTIALS"@,
                "Invalid email or password"@,
            ),
            Failure::UserNotValidated => (
                403,
                "USER_NOT_VALIDATED"@,
                "User account is not validated"@,
            ),
            Failure::Forbidden(reason) => (403, "FORBIDDEN"@, "Forbidden: "@ + reason),
            Failure::Internal => (500, "INTERNAL_ERROR"@, "Internal server error"@),
            Failure::TenantNotFound => (404, "TENANT_NOT_FOUND"@, "Tenant not found"@),
            Failure::ServiceUnavailable => (
                503,
                "SERVICE_UNAVAILABLE"@,
                "Service is currently unavailable"@,
            ),
            Failure::Validation(failures) => (400, "VALIDATION_ERROR"@, failures),
        }
    }
}

impl View for AppError {
    type V = Failure;

    open spec fn view(&self) -> Failure {
        match *self {
            AppError::Auth(cause) => Failure::Auth(cause),
            AppError::Database(cause) => Failure::Database(cause@),
            AppError::UserNotFound => Failure::UserNotFound,
            AppError::UserAlreadyExists => Failure::UserAlreadyExists,
            AppError::InvalidCredentials => Failure::InvalidCredentials,
            AppError::UserNotValidated => Failure::UserNotValidated,
            AppError::Forbidden(reason) => Failure::Forbidden(reason@),
            AppError::Internal => Failure::Internal,
            AppError::TenantNotFound => Failure::TenantNotFound,
            AppError::ServiceUnavailable => Failure::ServiceUnavailable,
            AppError::Validation(failures) => Failure::Validation(failures@),
        }
    }
}

/// The mathematical value of a result: that of what it holds.
pub open spec fn outcome<T: View, E: View>(result: Result<T, E>) -> Result<T::V, E::V> {
    match result {
        Ok(value) => Ok(value@),
        Err(error) => Err(error@),
    }
}

/// The mathematical value of a result that holds nothing.
pub open spec fn outcome_of_unit(result: Result<(), AppError>) -> Result<(), Failure> {
    match result {
        Ok(_) => Ok(()),
        Err(error) => Err(error@),
    }
}

/// The mathematical value of a result that holds a flag.
pub open spec fn outcome_of_flag(result: Result<bool, AppError>) -> Result<bool, Failure> {
    match result {
        Ok(flag) => Ok(flag),
        Err(error) => Err(error@),
    }
}

impl AuthError {
    pub open spec fn description(self) -> Seq<char> {
        match self {
            AuthError::ExpiredToken => "Token expired"@,
            AuthError::InvalidToken => "Invalid token"@,
            AuthError::MissingToken => "Missing token"@,
        }
    }

    pub fn to_string(&self) -> (text: String)
        ensures
            text@ == self.description(),
    {
        match self {
            AuthError::ExpiredToken => "Token expired".to_string(),
            AuthError::InvalidToken => "Invalid token".to_string(),
            AuthError::MissingToken => "Missing token".to_string(),
        }
    }
}

impl AppError {
    /// The HTTP status of the failure.
    pub open spec fn status(self) -> u16 {
        self@.rendered().0
    }

    /// The machine-readable code of the failure.
    pub open spec fn code(self) -> Seq<char> {
        self@.rendered().1
    }

    /// The message shown to the caller.
    pub open spec fn message_text(self) -> Seq<char> {
        self@.rendered().2
    }

    /// The text of the failure as it is written to a log.
    pub open spec fn description(self) -> Seq<char> {
        match self {
            AppError::Auth(cause) => "Authentication failed: "@ + cause.description(),
            AppError::Database(cause) => "Database error: "@ + cause@,
            AppError::UserNotFound => "User not found"@,
            AppError::UserAlreadyExists => "User already exists for tenant"@,
            AppError::InvalidCredentials => "Invalid credentials"@,
            AppError::UserNotValidated => "User not validated"@,
            AppError::Forbidden(reason) => "Forbidden: "@ + reason@,
            AppError::Internal => "Internal server error"@,
            AppError::TenantNotFound => "Tenant not found"@,
            AppError::ServiceUnavailable => "Service unavailable"@,
            AppError::Validation(failures) => "Validation error: "@ + failures@,
        }
    }

    pub fn status_code(&self) -> (status: u16)
        ensures
            status == self.status(),
    {
        match self {
            AppError::Auth(_) => 401,
            AppError::Database(_) => 500,
            AppError::UserNotFound => 404,
            AppError::UserAlreadyExists => 409,
            AppError::InvalidCredentials => 401,
            AppError::UserNotValidated => 403,
            AppError::Forbidden(_) => 403,
            AppError::Internal => 500,
            AppError::TenantNotFound => 404,
            AppError::ServiceUnavailable => 503,
            AppError::Validation(_) => 400,
        }
    }

    pub fn error_code(&self) -> (code: &'static str)
        ensures
            code@ == self.code(),
    {
        match self {
            AppError::Auth(AuthError::ExpiredToken) => "TOKEN_EXPIRED",
            AppError::Auth(AuthError::InvalidToken) => "INVALID_TOKEN",
            AppError::Auth(AuthError::MissingToken) => "MISSING_TOKEN",
            AppError::Database(_) => "DATABASE_ERROR",
            AppError::UserNotFound => "USER_NOT_FOUND",
            AppError::UserAlreadyExists => "USER_ALREADY_EXISTS",
            AppError::InvalidCredentials => "INVALID_CREDENTIALS",
            AppError::UserNotValidated => "USER_NOT_VALIDATED",
            AppError::Forbidden(_) => "FORBIDDEN",
            AppError::Internal => "INTERNAL_ERROR",
            AppError::TenantNotFound => "TENANT_NOT_FOUND",
            AppError::ServiceUnavailable => "SERVICE_UNAVAILABLE",
            AppError::Validation(_) => "VALIDATION_ERROR",
        }
    }

    pub fn message(&self) -> (message: String)
        ensures
            message@ == self.message_text(),
    {
        match self {
            AppError::Auth(AuthError::ExpiredToken) => "Token has expired".to_string(),
            AppError::Auth(AuthError::InvalidToken) => "Invalid authentication token".to_string(),
            AppError::Auth(AuthError::MissingToken) => "Authentication token required".to_string(),
            AppError::Database(_) => "Database operation failed".to_string(),
            AppError::UserNotFound => "User not found".to_string(),
            AppError::UserAlreadyExists => "User already exists for this tenant".to_string(),
            AppError::InvalidCredentials => "Invalid email or password".to_string(),
            AppError::UserNotValidated => "User account is not validated".to_string(),
            AppError::Forbidden(reason) => "Forbidden: ".to_string().concat(reason.as_str()),
            AppError::Internal => "Internal server error".to_string(),
            AppError::TenantNotFound => "Tenant not found".to_string(),
            AppError::ServiceUnavailable => "Service is currently unavailable".to_string(),
            AppError::Validation(failures) => failures.clone(),
        }
    }

    pub fn to_string(&self) -> (text: String)
        ensures
            text@ == self.description(),
    {
        match self {
            AppError::Auth(cause) => {
                let detail = cause.to_string();
                "Authentication failed: ".to_string().concat(detail.as_str())
            },
            AppError::Database(cause) => "Database error: ".to_string().concat(cause.as_str()),
            AppError::UserNotFound => "User not found".to_string(),
            AppError::UserAlreadyExists => "User already exists for tenant".to_string(),
            AppError::InvalidCredentials => "Invalid credentials".to_string(),
            AppError::UserNotValidated => "User not validated".to_string(),
            AppError::Forbidden(reason) => "Forbidden: ".to_string().concat(reason.as_str()),
            AppError::Internal => "Internal server error".to_string(),
            AppError::TenantNotFound => "Tenant not found".to_string(),
            AppError::ServiceUnavailable => "Service unavailable".to_string(),
            AppError::Validation(failures) => "Validation error: ".to_string().concat(
                failures.as_str(),
            ),
        }
    }

    /// The status and the body that the failure is answered with.
    pub fn into_response(self) -> (rendered: (u16, ErrorResponse))
        ensures
            rendered.0 == self.status(),
            rendered.1.error@ == self.code(),
            rendered.1.message@ == self.message_text(),
    {
        let status = self.status_code();
        let error = self.error_code().to_string();
        let message = self.message();
        (status, ErrorResponse { error, message })
    }

    /// Whether two failures are of the same kind, whatever texts they carry.
    pub open spec fn same_kind(self, other: AppError) -> bool {
        match (self, other) {
            (AppError::Auth(first), AppError::Auth(second)) => first == second,
            (AppError::Database(_), AppError::Database(_)) => true,
            (AppError::UserNotFound, AppError::UserNotFound) => true,
            (AppError::UserAlreadyExists, AppError::UserAlreadyExists) => true,
            (AppError::InvalidCredentials, AppError::InvalidCredentials) => true,
            (AppError::UserNotValidated, AppError::UserNotValidated) => true,
            (AppError::Forbidden(_), AppError::Forbidden(_)) => true,
            (AppError::Internal, AppError::Internal) => true,
            (AppError::TenantNotFound, AppError::TenantNotFound) => true,
            (AppError::ServiceUnavailable, AppError::ServiceUnavailable) => true,
            (AppError::Validation(_), AppError::Validation(_)) => true,
            _ => false,
        }
    }

    /// How long the code of the failure is and what it begins with.
    proof fn lemma_code_shape(self)
        ensures
            match self {
                AppError::Auth(AuthError::ExpiredToken) => self.code().len() == 13
                    && self.code()[0] == 'T',
                AppError::Auth(AuthError::InvalidToken) => self.code().len() == 13
                    && self.code()[0] == 'I',
                AppError::Auth(AuthError::MissingToken) => self.code().len() == 13
                    && self.code()[0] == 'M',
                AppError::Database(_) => self.code().len() == 14 && self.code()[0] == 'D',
                AppError::UserNotFound => self.code().len() == 14 && self.code()[0] == 'U',
                AppError::UserAlreadyExists => self.code().len() == 19 && self.code()[0] == 'U',
                AppError::InvalidCredentials => self.code().len() == 19 && self.code()[0] == 'I',
                AppError::UserNotValidated => self.code().len() == 18,
                AppError::Forbidden(_) => self.code().len() == 9,
                AppError::Internal => self.code().len() == 14 && self.code()[0] == 'I',
                AppError::TenantNotFound => self.code().len() == 16 && self.code()[0] == 'T',
                AppError::ServiceUnavailable => self.code().len() == 19 && self.code()[0] == 'S',
                AppError::Validation(_) => self.code().len() == 16 && self.code()[0] == 'V',
            },
    {
        reveal_strlit("TOKEN_EXPIRED");
        reveal_strlit("INVALID_TOKEN");
        reveal_strlit("MISSING_TOKEN");
        reveal_strlit("DATABASE_ERROR");
        reveal_strlit("USER_NOT_FOUND");
        reveal_strlit("USER_ALREADY_EXISTS");
        reveal_strlit("INVALID_CREDENTIALS");
        reveal_strlit("USER_NOT_VALIDATED");
        reveal_strlit("FORBIDDEN");
        reveal_strlit("INTERNAL_ERROR");
        reveal_strlit("TENANT_NOT_FOUND");
        reveal_strlit("SERVICE_UNAVAILABLE");
        reveal_strlit("VALIDATION_ERROR");
    }

    /// The code names the kind of a failure: no two kinds share a code. So
    /// the code alone tells the status, and every failure is answered with
    /// one of seven statuses between 400 and 503.
    pub proof fn lemma_code_names_kind(self, other: AppError)
        ensures
            self.code() == other.code() <==> self.same_kind(other),
            self.code() == other.code() ==> self.status() == other.status(),
            self.status() == 400 || self.status() == 401 || self.status() == 403 || self.status()
                == 404 || self.status() == 409 || self.status() == 500 || self.status() == 503,
    {
        self.lemma_code_shape();
        other.lemma_code_shape();
    }

    /// What the store says of its failure never reaches the caller: every
    /// failure of the store is rendered alike.
    pub proof fn lemma_store_failure_is_opaque(first: Seq<char>, second: Seq<char>)
        ensures
            Failure::Database(first).rendered() == Failure::Database(second).rendered(),
    {
    }
}

impl Clone for AppError {
    fn clone(&self) -> (copy: AppError)
        ensures
            copy@ == self@,
    {
        match self {
            AppError::Auth(cause) => AppError::Auth(*cause),
            AppError::Database(cause) => AppError::Database(cause.clone()),
            AppError::UserNotFound => AppError::UserNotFound,
            AppError::UserAlreadyExists => AppError::UserAlreadyExists,
            AppError::InvalidCredentials => AppError::InvalidCredentials,
            AppError::UserNotValidated => AppError::UserNotValidated,
            AppError::Forbidden(reason) => AppError::Forbidden(reason.clone()),
            AppError::Internal => AppError::Internal,
            AppError::TenantNotFound => AppError::TenantNotFound,
            AppError::ServiceUnavailable => AppError::ServiceUnavailable,
            AppError::Validation(failures) => AppError::Validation(failures.clone()),
        }
    }
}

impl From<AuthError> for AppError {
    fn from(cause: AuthError) -> (error: AppError) {
        AppError::Auth(cause)
    }
}

impl FromSpecImpl<AuthError> for AppError {
    open spec fn obeys_from_spec() -> bool {
        true
    }

    open spec fn from_spec(cause: AuthError) -> AppError {
        AppError::Auth(cause)
    }
}

} // verus!
