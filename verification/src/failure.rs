//! The closed failures of the control application: a stable code, the class
//! that decides the exit status, and the stage that was reached.

use crate::client::{Diagnostic, DiagnosticKind, DiagnosticView};
use vstd::prelude::*;
use vstd::string::*;

verus! {

#[derive(Clone, Copy, Debug, PartialEq, Eq, Structural)]
pub enum ErrorClass {
    Input,
    Auth,
    Typed,
    Transport,
    Untrusted,
}

impl ErrorClass {
    /// How the class is called in a diagnostic.
    pub open spec fn text(self) -> Seq<char> {
        match self {
            ErrorClass::Input => "input"@,
            ErrorClass::Auth => "auth"@,
            ErrorClass::Typed => "typed"@,
            ErrorClass::Transport => "transport"@,
            ErrorClass::Untrusted => "untrusted"@,
        }
    }

    /// The exit status of a run that ends in the class.
    pub open spec fn status(self) -> i32 {
        match self {
            ErrorClass::Input => 2,
            ErrorClass::Auth => 3,
            ErrorClass::Typed => 4,
            ErrorClass::Transport => 5,
            ErrorClass::Untrusted => 6,
        }
    }

    #[must_use]
    pub fn as_str(self) -> (r: &'static str)
        ensures
            r@ == self.text(),
    {
        match self {
            ErrorClass::Input => "input",
            ErrorClass::Auth => "auth",
            ErrorClass::Typed => "typed",
            ErrorClass::Transport => "transport",
            ErrorClass::Untrusted => "untrusted",
        }
    }
}

#[derive(Clone, Copy, Debug, PartialEq, Eq, Structural)]
pub enum ErrorStage {
    Input,
    Runtime,
    Discovery,
    Callback,
    TokenExchange,
    Jwks,
    IdToken,
    Api,
    Transport,
}

impl ErrorStage {
    /// How the stage is called in a diagnostic.
    pub open spec fn text(self) -> Seq<char> {
        match self {
            ErrorStage::Input => "input"@,
            ErrorStage::Runtime => "runtime"@,
            ErrorStage::Discovery => "discovery"@,
            ErrorStage::Callback => "callback"@,
            ErrorStage::TokenExchange => "token_exchange"@,
            ErrorStage::Jwks => "jwks"@,
            ErrorStage::IdToken => "id_token"@,
            ErrorStage::Api => "api"@,
            ErrorStage::Transport => "transport"@,
        }
    }

    #[must_use]
    pub fn as_str(self) -> (r: &'static str)
        ensures
            r@ == self.text(),
    {
        match self {
            ErrorStage::Input => "input",
            ErrorStage::Runtime => "runtime",
            ErrorStage::Discovery => "discovery",
            ErrorStage::Callback => "callback",
            ErrorStage::TokenExchange => "token_exchange",
            ErrorStage::Jwks => "jwks",
            ErrorStage::IdToken => "id_token",
            ErrorStage::Api => "api",
            ErrorStage::Transport => "transport",
        }
    }
}

/// What a failure tells.
pub struct FailureView {
    pub code: Seq<char>,
    pub class: ErrorClass,
    pub stage: ErrorStage,
    pub request_id: Option<Seq<char>>,
    pub retryable: bool,
}

impl FailureView {
    /// The same failure, reached at another stage.
    pub open spec fn at(self, stage: ErrorStage) -> FailureView {
        FailureView { stage, ..self }
    }
}

/// A failure of the input the user gave.
pub open spec fn input_failure(code: Seq<char>) -> FailureView {
    FailureView {
        code,
        class: ErrorClass::Input,
        stage: ErrorStage::Input,
        request_id: None,
        retryable: false,
    }
}

/// A failure to authenticate.
pub open spec fn auth_failure(code: Seq<char>) -> FailureView {
    FailureView {
        code,
        class: ErrorClass::Auth,
        stage: ErrorStage::IdToken,
        request_id: None,
        retryable: false,
    }
}

/// A failure to reach a service.
pub open spec fn transport_failure(code: Seq<char>, retryable: bool) -> FailureView {
    FailureView {
        code,
        class: ErrorClass::Transport,
        stage: ErrorStage::Transport,
        request_id: None,
        retryable,
    }
}

/// An answer that cannot be trusted.
pub open spec fn untrusted_failure(code: Seq<char>) -> FailureView {
    FailureView {
        code,
        class: ErrorClass::Untrusted,
        stage: ErrorStage::Transport,
        request_id: None,
        retryable: false,
    }
}

/// The class of a documented API diagnostic.
pub open spec fn diagnostic_class(kind: DiagnosticKind) -> ErrorClass {
    match kind {
        DiagnosticKind::Unauthorized | DiagnosticKind::Forbidden => ErrorClass::Auth,
        DiagnosticKind::Validation
        | DiagnosticKind::NotFound
        | DiagnosticKind::Conflict => ErrorClass::Typed,
        DiagnosticKind::RateLimited | DiagnosticKind::Upstream => ErrorClass::Transport,
        DiagnosticKind::Malformed | DiagnosticKind::UnknownStatus => ErrorClass::Untrusted,
    }
}

/// The failure that a documented API diagnostic stands for.
pub open spec fn diagnosed(diagnostic: DiagnosticView) -> FailureView {
    FailureView {
        code: diagnostic.kind.code_text(),
        class: diagnostic_class(diagnostic.kind),
        stage: ErrorStage::Api,
        request_id: diagnostic.request_id,
        retryable: diagnostic.retryable,
    }
}

/// One closed failure.
#[derive(Debug)]
pub struct AppError {
    code: &'static str,
    class: ErrorClass,
    stage: ErrorStage,
    request_id: Option<String>,
    retryable: bool,
}

impl View for AppError {
    type V = FailureView;

    closed spec fn view(&self) -> FailureView {
        FailureView {
            code: self.code@,
            class: self.class,
            stage: self.stage,
            request_id: match self.request_id {
                Some(id) => Some(id@),
                None => None,
            },
            retryable: self.retryable,
        }
    }
}

/// The parts of a failure's diagnostic document.
#[derive(Debug)]
pub struct RenderedError {
    pub category: &'static str,
    pub stage: &'static str,
    pub code: &'static str,
    pub retryable: bool,
    pub request_id: Option<String>,
}

impl AppError {
    #[must_use]
    pub fn input(code: &'static str) -> (r: Self)
        ensures
            r@ == input_failure(code@),
    {
        AppError {
            code,
            class: ErrorClass::Input,
            stage: ErrorStage::Input,
            request_id: None,
            retryable: false,
        }
    }

    #[must_use]
    pub fn auth(code: &'static str) -> (r: Self)
        ensures
            r@ == auth_failure(code@),
    {
        AppError {
            code,
            class: ErrorClass::Auth,
            stage: ErrorStage::IdToken,
            request_id: None,
            retryable: false,
        }
    }

    #[must_use]
    pub fn transport(code: &'static str, retryable: bool) -> (r: Self)
        ensures
            r@ == transport_failure(code@, retryable),
    {
        AppError {
            code,
            class: ErrorClass::Transport,
            stage: ErrorStage::Transport,
            request_id: None,
            retryable,
        }
    }

    #[must_use]
    pub fn untrusted(code: &'static str) -> (r: Self)
        ensures
            r@ == untrusted_failure(code@),
    {
        AppError {
            code,
            class: ErrorClass::Untrusted,
            stage: ErrorStage::Transport,
            request_id: None,
            retryable: false,
        }
    }

    #[must_use]
    pub fn from_diagnostic(value: &Diagnostic) -> (r: Self)
        ensures
            r@ == diagnosed(value@),
    {
        let class = match value.kind() {
            DiagnosticKind::Unauthorized | DiagnosticKind::Forbidden => ErrorClass::Auth,
            DiagnosticKind::Validation
            | DiagnosticKind::NotFound
            | DiagnosticKind::Conflict => ErrorClass::Typed,
            DiagnosticKind::RateLimited | DiagnosticKind::Upstream => ErrorClass::Transport,
            DiagnosticKind::Malformed | DiagnosticKind::UnknownStatus => ErrorClass::Untrusted,
        };
        let request_id = match value.request_id() {
            Some(id) => Some(id.to_owned()),
            None => None,
        };
        AppError {
            code: value.kind().code(),
            class,
            stage: ErrorStage::Api,
            request_id,
            retryable: value.retryable(),
        }
    }

    #[must_use]
    pub fn at(self, stage: ErrorStage) -> (r: Self)
        ensures
            r@ == self@.at(stage),
    {
        AppError {
            code: self.code,
            class: self.class,
            stage,
            request_id: self.request_id,
            retryable: self.retryable,
        }
    }

    #[must_use]
    pub fn code(&self) -> (r: &'static str)
        ensures
            r@ == self@.code,
    {
        self.code
    }

    #[must_use]
    pub fn stage(&self) -> (r: ErrorStage)
        ensures
            r == self@.stage,
    {
        self.stage
    }

    #[must_use]
    pub fn exit_code(&self) -> (r: i32)
        ensures
            r == self@.class.status(),
    {
        match self.class {
            ErrorClass::Input => 2,
            ErrorClass::Auth => 3,
            ErrorClass::Typed => 4,
            ErrorClass::Transport => 5,
            ErrorClass::Untrusted => 6,
        }
    }

    #[must_use]
    pub fn render(&self) -> (r: RenderedError)
        ensures
            r.category@ == self@.class.text(),
            r.stage@ == self@.stage.text(),
            r.code@ == self@.code,
            r.retryable == self@.retryable,
            match self@.request_id {
                Some(id) => r.request_id is Some && r.request_id->0@ == id,
                None => r.request_id is None,
            },
    {
        let request_id = match &self.request_id {
            Some(id) => Some(id.clone()),
            None => None,
        };
        RenderedError {
            category: self.class.as_str(),
            stage: self.stage.as_str(),
            code: self.code,
            retryable: self.retryable,
            request_id,
        }
    }
}

/// What comes of one step that runs against the login deadline: a step that
/// did not finish timed out at its stage, and a failure in it is one of its stage.
pub fn within_stage<T>(outcome: Option<Result<T, AppError>>, stage: ErrorStage) -> (r: Result<
    T,
    AppError,
>)
    ensures
        match outcome {
            None => r is Err && r->Err_0@ == auth_failure("login_timeout"@).at(stage),
            Some(Ok(value)) => r == Ok::<T, AppError>(value),
            Some(Err(error)) => r is Err && r->Err_0@ == error@.at(stage),
        },
{
    match outcome {
        None => Err(AppError::auth("login_timeout").at(stage)),
        Some(Ok(value)) => Ok(value),
        Some(Err(error)) => Err(error.at(stage)),
    }
}

/// An API failure keeps what the diagnostic says of another try: only a busy
/// or failing service, or a conflict that says so, is retryable, and the
/// exit status follows from the diagnostic alone.
pub proof fn law_api_failures_keep_their_exit_class(diagnostic: DiagnosticView)
    ensures
        diagnosed(diagnostic).retryable == diagnostic.retryable,
        diagnosed(diagnostic).stage == ErrorStage::Api,
        diagnosed(diagnostic).class.status() == match diagnostic.kind {
            DiagnosticKind::Unauthorized | DiagnosticKind::Forbidden => 3int,
            DiagnosticKind::Validation
            | DiagnosticKind::NotFound
            | DiagnosticKind::Conflict => 4,
            DiagnosticKind::RateLimited | DiagnosticKind::Upstream => 5,
            DiagnosticKind::Malformed | DiagnosticKind::UnknownStatus => 6,
        },
{
}

/// Exit statuses tell the classes apart, and none of them is success.
pub proof fn law_exit_statuses_are_distinct(a: ErrorClass, b: ErrorClass)
    ensures
        a.status() == b.status() ==> a == b,
        a.status() != 0,
{
}

} // verus!
