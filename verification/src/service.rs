//! What is known of one service, and how a query about services can fail.
use crate::status::{RuntimeStateView, ServiceRuntimeState};
use crate::text::{debug_quoted, quoted};
use vstd::prelude::*;
use vstd::string::*;

verus! {

/// The mathematical value of a result: that of what it holds.
pub open spec fn result_view<T: DeepView, E: DeepView>(r: Result<T, E>) -> Result<T::V, E::V> {
    match r {
        Ok(value) => Ok(value.deep_view()),
        Err(error) => Err(error.deep_view()),
    }
}

/// Whether a service is started when the machine boots.
#[derive(Debug, Clone, Copy, PartialEq, Eq, Structural)]
pub enum DesiredState {
    AutoStart,
    Manual,
}

impl DesiredState {
    /// The desired state that goes with an enabled marker being there or not.
    pub open spec fn of(enabled: bool) -> DesiredState {
        if enabled {
            DesiredState::AutoStart
        } else {
            DesiredState::Manual
        }
    }

    /// The desired state that goes with an enabled marker being there or not.
    pub fn from_enabled(enabled: bool) -> (r: DesiredState)
        ensures
            r == DesiredState::of(enabled),
    {
        if enabled {
            DesiredState::AutoStart
        } else {
            DesiredState::Manual
        }
    }
}

/// A snapshot of one service.
#[derive(Debug, PartialEq, Eq)]
pub struct ServiceInfo {
    pub name: String,
    pub definition_path: String,
    pub enabled: bool,
    pub desired_state: DesiredState,
    pub runtime_state: ServiceRuntimeState,
    pub description: Option<String>,
}

/// The mathematical value of a [`ServiceInfo`].
pub ghost struct ServiceInfoView {
    pub name: Seq<char>,
    pub definition_path: Seq<char>,
    pub enabled: bool,
    pub desired_state: DesiredState,
    pub runtime_state: RuntimeStateView,
    pub description: Option<Seq<char>>,
}

impl ServiceInfoView {
    /// The desired state of a snapshot follows from its enabled flag: both
    /// come from the one look for the service's enabled marker.
    pub open spec fn consistent(self) -> bool {
        self.desired_state == DesiredState::of(self.enabled)
    }
}

impl DeepView for ServiceInfo {
    type V = ServiceInfoView;

    open spec fn deep_view(&self) -> ServiceInfoView {
        ServiceInfoView {
            name: self.name@,
            definition_path: self.definition_path@,
            enabled: self.enabled,
            desired_state: self.desired_state,
            runtime_state: self.runtime_state@,
            description: self.description.deep_view(),
        }
    }
}

impl View for ServiceInfo {
    type V = ServiceInfoView;

    open spec fn view(&self) -> ServiceInfoView {
        self.deep_view()
    }
}

/// A copy of an optional text.
pub fn clone_text(text: &Option<String>) -> (r: Option<String>)
    ensures
        r == *text,
{
    match text {
        Some(t) => Some(t.clone()),
        None => None,
    }
}

impl Clone for ServiceInfo {
    fn clone(&self) -> (r: Self)
        ensures
            r@ == self@,
    {
        ServiceInfo {
            name: self.name.clone(),
            definition_path: self.definition_path.clone(),
            enabled: self.enabled,
            desired_state: self.desired_state,
            runtime_state: self.runtime_state.clone(),
            description: clone_text(&self.description),
        }
    }
}

/// One line of a service's log.
#[derive(Debug, PartialEq, Eq)]
pub struct ServiceLogEntry {
    pub timestamp_unix: Option<i64>,
    pub timestamp_nanos: Option<u32>,
    pub timestamp_raw: Option<String>,
    pub message: String,
}

/// The mathematical value of a [`ServiceLogEntry`].
pub ghost struct ServiceLogEntryView {
    pub timestamp_unix: Option<i64>,
    pub timestamp_nanos: Option<u32>,
    pub timestamp_raw: Option<Seq<char>>,
    pub message: Seq<char>,
}

impl DeepView for ServiceLogEntry {
    type V = ServiceLogEntryView;

    open spec fn deep_view(&self) -> ServiceLogEntryView {
        ServiceLogEntryView {
            timestamp_unix: self.timestamp_unix,
            timestamp_nanos: self.timestamp_nanos,
            timestamp_raw: self.timestamp_raw.deep_view(),
            message: self.message@,
        }
    }
}

impl View for ServiceLogEntry {
    type V = ServiceLogEntryView;

    open spec fn view(&self) -> ServiceLogEntryView {
        self.deep_view()
    }
}

/// Why a query about services failed.
#[derive(Debug, PartialEq, Eq)]
pub enum ServiceError {
    /// The host could not read or run what stands at `path`; `source` is its
    /// own account of the failure.
    Io { source: String, path: String },
    /// The supervisor's command reported a failure for `service`.
    SvCommand { service: String, message: String },
    /// The name holds a character that no service name may hold, or is empty.
    InvalidServiceName(String),
    /// The log of the service cannot be had.
    LogUnavailable(String),
    /// Anything else.
    Other(String),
}

/// The mathematical value of a [`ServiceError`].
pub ghost enum ServiceErrorView {
    Io { source: Seq<char>, path: Seq<char> },
    SvCommand { service: Seq<char>, message: Seq<char> },
    InvalidServiceName(Seq<char>),
    LogUnavailable(Seq<char>),
    Other(Seq<char>),
}

impl DeepView for ServiceError {
    type V = ServiceErrorView;

    open spec fn deep_view(&self) -> ServiceErrorView {
        match *self {
            ServiceError::Io { source, path } => ServiceErrorView::Io {
                source: source@,
                path: path@,
            },
            ServiceError::SvCommand { service, message } => ServiceErrorView::SvCommand {
                service: service@,
                message: message@,
            },
            ServiceError::InvalidServiceName(name) => ServiceErrorView::InvalidServiceName(name@),
            ServiceError::LogUnavailable(service) => ServiceErrorView::LogUnavailable(service@),
            ServiceError::Other(text) => ServiceErrorView::Other(text@),
        }
    }
}

impl View for ServiceError {
    type V = ServiceErrorView;

    open spec fn view(&self) -> ServiceErrorView {
        self.deep_view()
    }
}

impl ServiceErrorView {
    /// The message that a person reads for this error.
    pub open spec fn message(self) -> Seq<char> {
        match self {
            ServiceErrorView::Io { source, path } => "I/O error while accessing "@ + debug_quoted(
                path,
            ) + ": "@ + source,
            ServiceErrorView::SvCommand { service, message } => "sv command failed for service "@
                + service + ": "@ + message,
            ServiceErrorView::InvalidServiceName(name) => "invalid service name: "@ + name,
            ServiceErrorView::LogUnavailable(service) => "log stream unavailable for "@ + service,
            ServiceErrorView::Other(text) => text,
        }
    }
}

impl ServiceError {
    /// The error for a failure of the host at `path`, which `source` describes.
    pub fn from_io(path: &str, source: &str) -> (e: ServiceError)
        ensures
            e@ == (ServiceErrorView::Io { source: source@, path: path@ }),
    {
        ServiceError::Io { source: String::from_str(source), path: String::from_str(path) }
    }

    /// The message that a person reads for this error.
    pub fn message(&self) -> (r: String)
        ensures
            r@ == self@.message(),
    {
        match self {
            ServiceError::Io { source, path } => {
                let mut r = String::from_str("I/O error while accessing ");
                let q = quoted(path.as_str());
                r.append(q.as_str());
                r.append(": ");
                r.append(source.as_str());
                r
            },
            ServiceError::SvCommand { service, message } => {
                let mut r = String::from_str("sv command failed for service ");
                r.append(service.as_str());
                r.append(": ");
                r.append(message.as_str());
                r
            },
            ServiceError::InvalidServiceName(name) => {
                let mut r = String::from_str("invalid service name: ");
                r.append(name.as_str());
                r
            },
            ServiceError::LogUnavailable(service) => {
                let mut r = String::from_str("log stream unavailable for ");
                r.append(service.as_str());
                r
            },
            ServiceError::Other(text) => text.clone(),
        }
    }
}

} // verus!
