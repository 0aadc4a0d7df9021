//! A control plane for the services of a process supervisor: it reads the
//! supervisor's status text, enumerates the services of a machine, carries
//! out actions on them and wraps every result in one envelope. The library
//! decides; the host it runs on performs one effect at a time.
pub mod action;
pub mod client;
pub mod enumeration;
pub mod helper;
pub mod host;
pub mod laws;
pub mod manager;
pub mod outcome;
pub mod query;
pub mod service;
pub mod snapshot;
pub mod status;
pub mod text;
pub mod world;

pub use action::ActionKind;
pub use client::{DaemonProcessResponse, DescriptionSnapshot};
pub use helper::{HelperContext, Progress, Purpose, Task};
pub use host::{CommandOutput, DirEntry, Effect, Reply};
pub use manager::ServiceManager;
pub use outcome::{CommandOutcome, HelperError, HelperResponse, OutcomeData, ResponseStatus};
pub use query::{Answer, Listing, Query, QueryStep};
pub use service::{DesiredState, ServiceError, ServiceInfo, ServiceLogEntry};
pub use snapshot::{
    LogEntry, LogEntrySnapshot, ServiceSnapshot, SnapshotDesiredState, SnapshotRuntimeState,
};
pub use status::ServiceRuntimeState;
