//! How a request ends: with an outcome or a failure, and the one envelope
//! that carries either across the boundary.
use crate::service::{ServiceError, ServiceErrorView};
use crate::snapshot::{LogEntrySnapshot, LogEntryView, ServiceSnapshot, ServiceSnapshotView};
use crate::text::{debug_quoted, quoted};
use vstd::prelude::*;
use vstd::string::*;

verus! {

/// The supervisor's subcommand that a failed status query is reported under.
pub const STATUS_COMMAND: &'static str = "status";

/// Why a request failed.
#[derive(Debug, PartialEq, Eq)]
pub enum HelperError {
    /// The service name is empty or holds a character that no name may hold.
    InvalidService(String),
    /// Nothing defines the service: nothing stands at `path`.
    DefinitionMissing { service: String, path: String },
    /// The service has its enabled marker already.
    AlreadyEnabled(String),
    /// The service has no enabled marker.
    NotEnabled(String),
    /// The supervisor's `command` failed for `service`.
    SvFailure { command: String, service: String, message: String },
    /// The host could not do what was asked at `path`.
    Io { path: String, source: String },
    /// The log of the service cannot be had.
    LogUnavailable(String),
    /// The authority asked the caller to confirm, and the caller did not.
    AuthorizationChallenged,
    /// The authority refused.
    AuthorizationDenied,
    /// The action asked for is none that is known.
    UnsupportedAction(String),
    /// Anything else.
    Other(String),
}

/// The mathematical value of a [`HelperError`].
pub ghost enum HelperErrorView {
    InvalidService(Seq<char>),
    DefinitionMissing { service: Seq<char>, path: Seq<char> },
    AlreadyEnabled(Seq<char>),
    NotEnabled(Seq<char>),
    SvFailure { command: Seq<char>, service: Seq<char>, message: Seq<char> },
    Io { path: Seq<char>, source: Seq<char> },
    LogUnavailable(Seq<char>),
    AuthorizationChallenged,
    AuthorizationDenied,
    UnsupportedAction(Seq<char>),
    Other(Seq<char>),
}

impl DeepView for HelperError {
    type V = HelperErrorView;

    open spec fn deep_view(&self) -> HelperErrorView {
        match *self {
            HelperError::InvalidService(name) => HelperErrorView::InvalidService(name@),
            HelperError::DefinitionMissing { service, path } => HelperErrorView::DefinitionMissing {
                service: service@,
                path: path@,
            },
            HelperError::AlreadyEnabled(name) => HelperErrorView::AlreadyEnabled(name@),
            HelperError::NotEnabled(name) => HelperErrorView::NotEnabled(name@),
            HelperError::SvFailure { command, service, message } => HelperErrorView::SvFailure {
                command: command@,
                service: service@,
                message: message@,
            },
            HelperError::Io { path, source } => HelperErrorView::Io {
                path: path@,
                source: source@,
            },
            HelperError::LogUnavailable(name) => HelperErrorView::LogUnavailable(name@),
            HelperError::AuthorizationChallenged => HelperErrorView::AuthorizationChallenged,
            HelperError::AuthorizationDenied => HelperErrorView::AuthorizationDenied,
            HelperError::UnsupportedAction(action) => HelperErrorView::UnsupportedAction(action@),
            HelperError::Other(text) => HelperErrorView::Other(text@),
        }
    }
}

impl View for HelperError {
    type V = HelperErrorView;

    open spec fn view(&self) -> HelperErrorView {
        self.deep_view()
    }
}

impl HelperErrorView {
    /// The exit code that a one-shot run ends with on this failure.
    pub open spec fn exit_code(self) -> i32 {
        match self {
            HelperErrorView::InvalidService(_) => 2,
            HelperErrorView::DefinitionMissing { .. } => 3,
            HelperErrorView::AlreadyEnabled(_) => 4,
            HelperErrorView::NotEnabled(_) => 5,
            HelperErrorView::SvFailure { .. } => 6,
            HelperErrorView::Io { .. } => 7,
            _ => 1,
        }
    }

    /// The message that a person reads for this failure.
    pub open spec fn message(self) -> Seq<char> {
        match self {
            HelperErrorView::InvalidService(name) => "invalid service name: "@ + name,
            HelperErrorView::DefinitionMissing { service, path } => "service definition missing: "@
                + service + " ("@ + path + ")"@,
            HelperErrorView::AlreadyEnabled(name) => "service already enabled: "@ + name,
            HelperErrorView::NotEnabled(name) => "service is not enabled: "@ + name,
            HelperErrorView::SvFailure { command, service, message } => "command `"@ + command
                + "` failed for "@ + service + ": "@ + message,
            HelperErrorView::Io { path, source } => "I/O error at "@ + debug_quoted(path) + ": "@
                + source,
            HelperErrorView::LogUnavailable(name) => "log stream unavailable for "@ + name,
            HelperErrorView::AuthorizationChallenged => "Authentication was dismissed or failed"@,
            HelperErrorView::AuthorizationDenied => "Authorization denied"@,
            HelperErrorView::UnsupportedAction(action) => "Unsupported action '"@ + action + "'"@,
            HelperErrorView::Other(text) => text,
        }
    }
}

impl ServiceErrorView {
    /// This failure of a query as the failure of the request that made it. A
    /// failed supervisor command is the status command.
    pub open spec fn helper_error(self) -> HelperErrorView {
        match self {
            ServiceErrorView::InvalidServiceName(name) => HelperErrorView::InvalidService(name),
            ServiceErrorView::Io { source, path } => HelperErrorView::Io { path, source },
            ServiceErrorView::SvCommand { service, message } => HelperErrorView::SvFailure {
                command: STATUS_COMMAND@,
                service,
                message,
            },
            ServiceErrorView::LogUnavailable(service) => HelperErrorView::LogUnavailable(service),
            ServiceErrorView::Other(text) => HelperErrorView::Other(text),
        }
    }
}

impl HelperError {
    /// The exit code that a one-shot run ends with on this failure: 2 for an
    /// invalid name, 3 for a missing definition, 4 for a service that is
    /// enabled already, 5 for one that is not, 6 for a failed supervisor
    /// command, 7 for a failure of the host, 1 for everything else.
    pub fn exit_code(&self) -> (code: i32)
        ensures
            code == self@.exit_code(),
    {
        match self {
            HelperError::InvalidService(_) => 2,
            HelperError::DefinitionMissing { .. } => 3,
            HelperError::AlreadyEnabled(_) => 4,
            HelperError::NotEnabled(_) => 5,
            HelperError::SvFailure { .. } => 6,
            HelperError::Io { .. } => 7,
            _ => 1,
        }
    }

    /// The message that a person reads for this failure.
    pub fn message(&self) -> (r: String)
        ensures
            r@ == self@.message(),
    {
        match self {
            HelperError::InvalidService(name) => {
                let mut r = String::from_str("invalid service name: ");
                r.append(name.as_str());
                r
            },
            HelperError::DefinitionMissing { service, path } => {
                let mut r = String::from_str("service definition missing: ");
                r.append(service.as_str());
                r.append(" (");
                r.append(path.as_str());
                r.append(")");
                r
            },
            HelperError::AlreadyEnabled(name) => {
                let mut r = String::from_str("service already enabled: ");
                r.append(name.as_str());
                r
            },
            HelperError::NotEnabled(name) => {
                let mut r = String::from_str("service is not enabled: ");
                r.append(name.as_str());
                r
            },
            HelperError::SvFailure { command, service, message } => {
                let mut r = String::from_str("command `");
                r.append(command.as_str());
                r.append("` failed for ");
                r.append(service.as_str());
                r.append(": ");
                r.append(message.as_str());
                r
            },
            HelperError::Io { path, source } => {
                let mut r = String::from_str("I/O error at ");
                let q = quoted(path.as_str());
                r.append(q.as_str());
                r.append(": ");
                r.append(source.as_str());
                r
            },
            HelperError::LogUnavailable(name) => {
                let mut r = String::from_str("log stream unavailable for ");
                r.append(name.as_str());
                r
            },
            HelperError::AuthorizationChallenged => String::from_str(
                "Authentication was dismissed or failed",
            ),
            HelperError::AuthorizationDenied => String::from_str("Authorization denied"),
            HelperError::UnsupportedAction(action) => {
                let mut r = String::from_str("Unsupported action '");
                r.append(action.as_str());
                r.append("'");
                r
            },
            HelperError::Other(text) => text.clone(),
        }
    }
}

impl From<ServiceError> for HelperError {
    fn from(value: ServiceError) -> (r: Self)
        ensures
            r@ == value@.helper_error(),
    {
        match value {
            ServiceError::InvalidServiceName(name) => HelperError::InvalidService(name),
            ServiceError::Io { source, path } => HelperError::Io { path, source },
            ServiceError::SvCommand { service, message } => HelperError::SvFailure {
                command: String::from_str(STATUS_COMMAND),
                service,
                message,
            },
            ServiceError::LogUnavailable(service) => HelperError::LogUnavailable(service),
            ServiceError::Other(text) => HelperError::Other(text),
        }
    }
}

impl vstd::std_specs::convert::FromSpecImpl<ServiceError> for HelperError {
    /// The conversion makes a text of its own, so it is described by the view
    /// of its result, in the contract of `from`, and not by a value.
    open spec fn obeys_from_spec() -> bool {
        false
    }

    open spec fn from_spec(value: ServiceError) -> Self {
        choose|r: HelperError| r@ == value@.helper_error()
    }
}

/// What a successful request hands back besides its message.
#[derive(Debug, PartialEq, Eq)]
pub enum OutcomeData {
    /// The services of the machine, in the order of their names.
    Services(Vec<ServiceSnapshot>),
    /// The lines of a log.
    Log(Vec<LogEntrySnapshot>),
    /// The description of one service.
    Description { service: String, description: Option<String> },
}

/// The mathematical value of an [`OutcomeData`].
pub ghost enum OutcomeDataView {
    Services(Seq<ServiceSnapshotView>),
    Log(Seq<LogEntryView>),
    Description { service: Seq<char>, description: Option<Seq<char>> },
}

impl DeepView for OutcomeData {
    type V = OutcomeDataView;

    open spec fn deep_view(&self) -> OutcomeDataView {
        match *self {
            OutcomeData::Services(services) => OutcomeDataView::Services(services.deep_view()),
            OutcomeData::Log(lines) => OutcomeDataView::Log(lines.deep_view()),
            OutcomeData::Description { service, description } => OutcomeDataView::Description {
                service: service@,
                description: description.deep_view(),
            },
        }
    }
}

impl View for OutcomeData {
    type V = OutcomeDataView;

    open spec fn view(&self) -> OutcomeDataView {
        self.deep_view()
    }
}

/// What a successful request ends with.
#[derive(Debug, PartialEq, Eq)]
pub struct CommandOutcome {
    pub message: Option<String>,
    pub data: Option<OutcomeData>,
}

/// The mathematical value of a [`CommandOutcome`].
pub ghost struct CommandOutcomeView {
    pub message: Option<Seq<char>>,
    pub data: Option<OutcomeDataView>,
}

impl DeepView for CommandOutcome {
    type V = CommandOutcomeView;

    open spec fn deep_view(&self) -> CommandOutcomeView {
        CommandOutcomeView { message: self.message.deep_view(), data: self.data.deep_view() }
    }
}

impl View for CommandOutcome {
    type V = CommandOutcomeView;

    open spec fn view(&self) -> CommandOutcomeView {
        self.deep_view()
    }
}

impl CommandOutcomeView {
    /// An outcome that is a message and nothing else.
    pub open spec fn message(text: Seq<char>) -> CommandOutcomeView {
        CommandOutcomeView { message: Some(text), data: None }
    }

    /// An outcome that is data and nothing else.
    pub open spec fn data(data: OutcomeDataView) -> CommandOutcomeView {
        CommandOutcomeView { message: None, data: Some(data) }
    }
}

impl CommandOutcome {
    /// An outcome that is a message and nothing else.
    pub fn message(message: String) -> (r: Self)
        ensures
            r@ == CommandOutcomeView::message(message@),
    {
        CommandOutcome { message: Some(message), data: None }
    }

    /// An outcome with the message and the data given.
    pub fn with(message: Option<String>, data: Option<OutcomeData>) -> (r: Self)
        ensures
            r@ == (CommandOutcomeView { message: message.deep_view(), data: data.deep_view() }),
    {
        CommandOutcome { message, data }
    }
}

/// Whether a request succeeded. On the wire the two are `ok` and `error`.
#[derive(Debug, Clone, Copy, PartialEq, Eq, Structural)]
pub enum ResponseStatus {
    Succeeded,
    Failed,
}

impl ResponseStatus {
    /// The word that stands for this status on the wire.
    pub open spec fn name(self) -> Seq<char> {
        match self {
            ResponseStatus::Succeeded => "ok"@,
            ResponseStatus::Failed => "error"@,
        }
    }

    /// The word that stands for this status on the wire.
    pub fn as_str(self) -> (r: &'static str)
        ensures
            r@ == self.name(),
    {
        match self {
            ResponseStatus::Succeeded => "ok",
            ResponseStatus::Failed => "error",
        }
    }
}

/// The envelope in which every result crosses the boundary.
#[derive(Debug, PartialEq, Eq)]
pub struct HelperResponse {
    pub status: ResponseStatus,
    pub message: Option<String>,
    pub data: Option<OutcomeData>,
}

/// The mathematical value of a [`HelperResponse`].
pub ghost struct HelperResponseView {
    pub status: ResponseStatus,
    pub message: Option<Seq<char>>,
    pub data: Option<OutcomeDataView>,
}

impl DeepView for HelperResponse {
    type V = HelperResponseView;

    open spec fn deep_view(&self) -> HelperResponseView {
        HelperResponseView {
            status: self.status,
            message: self.message.deep_view(),
            data: self.data.deep_view(),
        }
    }
}

impl View for HelperResponse {
    type V = HelperResponseView;

    open spec fn view(&self) -> HelperResponseView {
        self.deep_view()
    }
}

/// The envelope for the result of a request: a success carries the outcome's
/// message and data, a failure the failure's message and no data.
pub open spec fn envelope(result: Result<CommandOutcomeView, HelperErrorView>) -> HelperResponseView {
    match result {
        Ok(outcome) => HelperResponseView {
            status: ResponseStatus::Succeeded,
            message: outcome.message,
            data: outcome.data,
        },
        Err(error) => HelperResponseView {
            status: ResponseStatus::Failed,
            message: Some(error.message()),
            data: None,
        },
    }
}

/// The exit code of a one-shot run for the result of its request: 0 for a
/// success, the failure's own code otherwise.
pub open spec fn exit_status(result: Result<CommandOutcomeView, HelperErrorView>) -> i32 {
    match result {
        Ok(_) => 0,
        Err(error) => error.exit_code(),
    }
}

impl HelperResponse {
    /// The envelope of a success.
    pub fn ok_with(outcome: CommandOutcome) -> (r: Self)
        ensures
            r@ == envelope(Ok(outcome@)),
    {
        HelperResponse { status: ResponseStatus::Succeeded, message: outcome.message, data: outcome.data }
    }

    /// The envelope of a failure with the message given.
    pub fn error(message: String) -> (r: Self)
        ensures
            r@ == (HelperResponseView {
                status: ResponseStatus::Failed,
                message: Some(message@),
                data: None,
            }),
    {
        HelperResponse { status: ResponseStatus::Failed, message: Some(message), data: None }
    }

    /// The envelope for the result of a request, and the exit code that a
    /// one-shot run ends with on it.
    pub fn from_result(result: Result<CommandOutcome, HelperError>) -> (r: (Self, i32))
        ensures
            r.0@ == envelope(crate::service::result_view(result)),
            r.1 == exit_status(crate::service::result_view(result)),
    {
        match result {
            Ok(outcome) => (HelperResponse::ok_with(outcome), 0),
            Err(error) => {
                let code = error.exit_code();
                (HelperResponse::error(error.message()), code)
            },
        }
    }
}

} // verus!
