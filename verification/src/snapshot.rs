//! The shapes in which services and log lines cross the wire, and the
//! conversions between them and the library's own types.
use crate::service::{
    clone_text, DesiredState, ServiceInfo, ServiceInfoView, ServiceLogEntry, ServiceLogEntryView,
};
use crate::status::{RuntimeStateView, ServiceRuntimeState};
use vstd::prelude::*;
use vstd::std_specs::convert::FromSpec;
use vstd::string::*;

verus! {

/// The desired state of a service on the wire.
#[derive(Debug, Clone, Copy, PartialEq, Eq, Structural)]
pub enum SnapshotDesiredState {
    AutoStart,
    Manual,
}

/// The runtime state of a service on the wire, with every time in whole
/// seconds.
#[derive(Debug, PartialEq, Eq)]
pub enum SnapshotRuntimeState {
    Running { pid: u32, uptime_seconds: u64 },
    Down { since_seconds: u64, normally_up: bool },
    Failed { pid: u32, uptime_seconds: u64, exit_code: i32 },
    Unknown { raw: String },
}

/// The mathematical value of a [`SnapshotRuntimeState`].
pub ghost enum SnapshotRuntimeStateView {
    Running { pid: u32, uptime_seconds: u64 },
    Down { since_seconds: u64, normally_up: bool },
    Failed { pid: u32, uptime_seconds: u64, exit_code: i32 },
    Unknown { raw: Seq<char> },
}

impl DeepView for SnapshotRuntimeState {
    type V = SnapshotRuntimeStateView;

    open spec fn deep_view(&self) -> SnapshotRuntimeStateView {
        match *self {
            SnapshotRuntimeState::Running {
                pid,
                uptime_seconds,
            } => SnapshotRuntimeStateView::Running { pid, uptime_seconds },
            SnapshotRuntimeState::Down {
                since_seconds,
                normally_up,
            } => SnapshotRuntimeStateView::Down { since_seconds, normally_up },
            SnapshotRuntimeState::Failed {
                pid,
                uptime_seconds,
                exit_code,
            } => SnapshotRuntimeStateView::Failed { pid, uptime_seconds, exit_code },
            SnapshotRuntimeState::Unknown { raw } => SnapshotRuntimeStateView::Unknown {
                raw: raw@,
            },
        }
    }
}

impl View for SnapshotRuntimeState {
    type V = SnapshotRuntimeStateView;

    open spec fn view(&self) -> SnapshotRuntimeStateView {
        self.deep_view()
    }
}

/// One service on the wire.
#[derive(Debug, PartialEq, Eq)]
pub struct ServiceSnapshot {
    pub name: String,
    pub definition_path: String,
    pub enabled: bool,
    pub desired_state: SnapshotDesiredState,
    pub runtime_state: SnapshotRuntimeState,
    pub description: Option<String>,
}

/// The mathematical value of a [`ServiceSnapshot`].
pub ghost struct ServiceSnapshotView {
    pub name: Seq<char>,
    pub definition_path: Seq<char>,
    pub enabled: bool,
    pub desired_state: SnapshotDesiredState,
    pub runtime_state: SnapshotRuntimeStateView,
    pub description: Option<Seq<char>>,
}

impl DeepView for ServiceSnapshot {
    type V = ServiceSnapshotView;

    open spec fn deep_view(&self) -> ServiceSnapshotView {
        ServiceSnapshotView {
            name: self.name@,
            definition_path: self.definition_path@,
            enabled: self.enabled,
            desired_state: self.desired_state,
            runtime_state: self.runtime_state@,
            description: self.description.deep_view(),
        }
    }
}

impl View for ServiceSnapshot {
    type V = ServiceSnapshotView;

    open spec fn view(&self) -> ServiceSnapshotView {
        self.deep_view()
    }
}

/// One log line on the wire.
#[derive(Debug, PartialEq, Eq)]
pub struct LogEntrySnapshot {
    pub unix_seconds: Option<i64>,
    pub nanos: Option<u32>,
    pub raw: Option<String>,
    pub message: String,
}

/// The mathematical value of a [`LogEntrySnapshot`] and of a [`LogEntry`].
pub ghost struct LogEntryView {
    pub unix_seconds: Option<i64>,
    pub nanos: Option<u32>,
    pub raw: Option<Seq<char>>,
    pub message: Seq<char>,
}

impl DeepView for LogEntrySnapshot {
    type V = LogEntryView;

    open spec fn deep_view(&self) -> LogEntryView {
        LogEntryView {
            unix_seconds: self.unix_seconds,
            nanos: self.nanos,
            raw: self.raw.deep_view(),
            message: self.message@,
        }
    }
}

impl View for LogEntrySnapshot {
    type V = LogEntryView;

    open spec fn view(&self) -> LogEntryView {
        self.deep_view()
    }
}

/// One log line as a client of the service sees it.
#[derive(Debug, PartialEq, Eq)]
pub struct LogEntry {
    pub unix_seconds: Option<i64>,
    pub nanos: Option<u32>,
    pub raw: Option<String>,
    pub message: String,
}

impl DeepView for LogEntry {
    type V = LogEntryView;

    open spec fn deep_view(&self) -> LogEntryView {
        LogEntryView {
            unix_seconds: self.unix_seconds,
            nanos: self.nanos,
            raw: self.raw.deep_view(),
            message: self.message@,
        }
    }
}

impl View for LogEntry {
    type V = LogEntryView;

    open spec fn view(&self) -> LogEntryView {
        self.deep_view()
    }
}

impl Clone for LogEntry {
    fn clone(&self) -> (r: Self)
        ensures
            r == *self,
    {
        LogEntry {
            unix_seconds: self.unix_seconds,
            nanos: self.nanos,
            raw: clone_text(&self.raw),
            message: self.message.clone(),
        }
    }
}

impl RuntimeStateView {
    /// This state as it goes on the wire.
    pub open spec fn snapshot(self) -> SnapshotRuntimeStateView {
        match self {
            RuntimeStateView::Running { pid, uptime } => SnapshotRuntimeStateView::Running {
                pid,
                uptime_seconds: uptime,
            },
            RuntimeStateView::Down { since, normally_up } => SnapshotRuntimeStateView::Down {
                since_seconds: since,
                normally_up,
            },
            RuntimeStateView::Failed { pid, uptime, exit_code } => SnapshotRuntimeStateView::Failed {
                pid,
                uptime_seconds: uptime,
                exit_code,
            },
            RuntimeStateView::Unknown { raw } => SnapshotRuntimeStateView::Unknown { raw },
        }
    }
}

impl ServiceInfoView {
    /// This service as it goes on the wire.
    pub open spec fn snapshot(self) -> ServiceSnapshotView {
        ServiceSnapshotView {
            name: self.name,
            definition_path: self.definition_path,
            enabled: self.enabled,
            desired_state: match self.desired_state {
                DesiredState::AutoStart => SnapshotDesiredState::AutoStart,
                DesiredState::Manual => SnapshotDesiredState::Manual,
            },
            runtime_state: self.runtime_state.snapshot(),
            description: self.description,
        }
    }
}

impl ServiceLogEntryView {
    /// This log line as it goes on the wire.
    pub open spec fn snapshot(self) -> LogEntryView {
        LogEntryView {
            unix_seconds: self.timestamp_unix,
            nanos: self.timestamp_nanos,
            raw: self.timestamp_raw,
            message: self.message,
        }
    }
}

impl From<DesiredState> for SnapshotDesiredState {
    fn from(value: DesiredState) -> (r: Self) {
        match value {
            DesiredState::AutoStart => SnapshotDesiredState::AutoStart,
            DesiredState::Manual => SnapshotDesiredState::Manual,
        }
    }
}

impl vstd::std_specs::convert::FromSpecImpl<DesiredState> for SnapshotDesiredState {
    open spec fn obeys_from_spec() -> bool {
        true
    }

    open spec fn from_spec(value: DesiredState) -> Self {
        match value {
            DesiredState::AutoStart => SnapshotDesiredState::AutoStart,
            DesiredState::Manual => SnapshotDesiredState::Manual,
        }
    }
}

impl From<SnapshotDesiredState> for DesiredState {
    fn from(value: SnapshotDesiredState) -> (r: Self) {
        match value {
            SnapshotDesiredState::AutoStart => DesiredState::AutoStart,
            SnapshotDesiredState::Manual => DesiredState::Manual,
        }
    }
}

impl vstd::std_specs::convert::FromSpecImpl<SnapshotDesiredState> for DesiredState {
    open spec fn obeys_from_spec() -> bool {
        true
    }

    open spec fn from_spec(value: SnapshotDesiredState) -> Self {
        match value {
            SnapshotDesiredState::AutoStart => DesiredState::AutoStart,
            SnapshotDesiredState::Manual => DesiredState::Manual,
        }
    }
}

impl<'a> From<&'a ServiceRuntimeState> for SnapshotRuntimeState {
    fn from(value: &'a ServiceRuntimeState) -> (r: Self) {
        match value {
            ServiceRuntimeState::Running { pid, uptime } => SnapshotRuntimeState::Running {
                pid: *pid,
                uptime_seconds: *uptime,
            },
            ServiceRuntimeState::Down { since, normally_up } => SnapshotRuntimeState::Down {
                since_seconds: *since,
                normally_up: *normally_up,
            },
            ServiceRuntimeState::Failed { pid, uptime, exit_code } => SnapshotRuntimeState::Failed {
                pid: *pid,
                uptime_seconds: *uptime,
                exit_code: *exit_code,
            },
            ServiceRuntimeState::Unknown { raw } => SnapshotRuntimeState::Unknown {
                raw: raw.clone(),
            },
        }
    }
}

impl<'a> vstd::std_specs::convert::FromSpecImpl<&'a ServiceRuntimeState> for SnapshotRuntimeState {
    open spec fn obeys_from_spec() -> bool {
        true
    }

    open spec fn from_spec(value: &'a ServiceRuntimeState) -> Self {
        match *value {
            ServiceRuntimeState::Running { pid, uptime } => SnapshotRuntimeState::Running {
                pid,
                uptime_seconds: uptime,
            },
            ServiceRuntimeState::Down { since, normally_up } => SnapshotRuntimeState::Down {
                since_seconds: since,
                normally_up,
            },
            ServiceRuntimeState::Failed { pid, uptime, exit_code } => SnapshotRuntimeState::Failed {
                pid,
                uptime_seconds: uptime,
                exit_code,
            },
            ServiceRuntimeState::Unknown { raw } => SnapshotRuntimeState::Unknown { raw },
        }
    }
}

impl From<SnapshotRuntimeState> for ServiceRuntimeState {
    fn from(value: SnapshotRuntimeState) -> (r: Self) {
        match value {
            SnapshotRuntimeState::Running { pid, uptime_seconds } => ServiceRuntimeState::Running {
                pid,
                uptime: uptime_seconds,
            },
            SnapshotRuntimeState::Down { since_seconds, normally_up } => ServiceRuntimeState::Down {
                since: since_seconds,
                normally_up,
            },
            SnapshotRuntimeState::Failed {
                pid,
                uptime_seconds,
                exit_code,
            } => ServiceRuntimeState::Failed { pid, uptime: uptime_seconds, exit_code },
            SnapshotRuntimeState::Unknown { raw } => ServiceRuntimeState::Unknown { raw },
        }
    }
}

impl vstd::std_specs::convert::FromSpecImpl<SnapshotRuntimeState> for ServiceRuntimeState {
    open spec fn obeys_from_spec() -> bool {
        true
    }

    open spec fn from_spec(value: SnapshotRuntimeState) -> Self {
        match value {
            SnapshotRuntimeState::Running { pid, uptime_seconds } => ServiceRuntimeState::Running {
                pid,
                uptime: uptime_seconds,
            },
            SnapshotRuntimeState::Down { since_seconds, normally_up } => ServiceRuntimeState::Down {
                since: since_seconds,
                normally_up,
            },
            SnapshotRuntimeState::Failed {
                pid,
                uptime_seconds,
                exit_code,
            } => ServiceRuntimeState::Failed { pid, uptime: uptime_seconds, exit_code },
            SnapshotRuntimeState::Unknown { raw } => ServiceRuntimeState::Unknown { raw },
        }
    }
}

impl<'a> From<&'a ServiceInfo> for ServiceSnapshot {
    fn from(info: &'a ServiceInfo) -> (r: Self) {
        ServiceSnapshot {
            name: info.name.clone(),
            definition_path: info.definition_path.clone(),
            enabled: info.enabled,
            desired_state: SnapshotDesiredState::from(info.desired_state),
            runtime_state: SnapshotRuntimeState::from(&info.runtime_state),
            description: clone_text(&info.description),
        }
    }
}

impl<'a> vstd::std_specs::convert::FromSpecImpl<&'a ServiceInfo> for ServiceSnapshot {
    open spec fn obeys_from_spec() -> bool {
        true
    }

    open spec fn from_spec(info: &'a ServiceInfo) -> Self {
        ServiceSnapshot {
            name: info.name,
            definition_path: info.definition_path,
            enabled: info.enabled,
            desired_state: <SnapshotDesiredState as FromSpec<DesiredState>>::from_spec(
                info.desired_state,
            ),
            runtime_state: <SnapshotRuntimeState as FromSpec<&ServiceRuntimeState>>::from_spec(
                &info.runtime_state,
            ),
            description: info.description,
        }
    }
}

impl From<ServiceSnapshot> for ServiceInfo {
    fn from(snapshot: ServiceSnapshot) -> (r: Self) {
        ServiceInfo {
            name: snapshot.name,
            definition_path: snapshot.definition_path,
            enabled: snapshot.enabled,
            desired_state: DesiredState::from(snapshot.desired_state),
            runtime_state: ServiceRuntimeState::from(snapshot.runtime_state),
            description: snapshot.description,
        }
    }
}

impl vstd::std_specs::convert::FromSpecImpl<ServiceSnapshot> for ServiceInfo {
    open spec fn obeys_from_spec() -> bool {
        true
    }

    open spec fn from_spec(snapshot: ServiceSnapshot) -> Self {
        ServiceInfo {
            name: snapshot.name,
            definition_path: snapshot.definition_path,
            enabled: snapshot.enabled,
            desired_state: <DesiredState as FromSpec<SnapshotDesiredState>>::from_spec(
                snapshot.desired_state,
            ),
            runtime_state: <ServiceRuntimeState as FromSpec<SnapshotRuntimeState>>::from_spec(
                snapshot.runtime_state,
            ),
            description: snapshot.description,
        }
    }
}

impl From<ServiceLogEntry> for LogEntrySnapshot {
    fn from(entry: ServiceLogEntry) -> (r: Self) {
        LogEntrySnapshot {
            unix_seconds: entry.timestamp_unix,
            nanos: entry.timestamp_nanos,
            raw: entry.timestamp_raw,
            message: entry.message,
        }
    }
}

impl vstd::std_specs::convert::FromSpecImpl<ServiceLogEntry> for LogEntrySnapshot {
    open spec fn obeys_from_spec() -> bool {
        true
    }

    open spec fn from_spec(entry: ServiceLogEntry) -> Self {
        LogEntrySnapshot {
            unix_seconds: entry.timestamp_unix,
            nanos: entry.timestamp_nanos,
            raw: entry.timestamp_raw,
            message: entry.message,
        }
    }
}

impl From<LogEntrySnapshot> for LogEntry {
    fn from(snapshot: LogEntrySnapshot) -> (r: Self) {
        LogEntry {
            unix_seconds: snapshot.unix_seconds,
            nanos: snapshot.nanos,
            raw: snapshot.raw,
            message: snapshot.message,
        }
    }
}

impl vstd::std_specs::convert::FromSpecImpl<LogEntrySnapshot> for LogEntry {
    open spec fn obeys_from_spec() -> bool {
        true
    }

    open spec fn from_spec(snapshot: LogEntrySnapshot) -> Self {
        LogEntry {
            unix_seconds: snapshot.unix_seconds,
            nanos: snapshot.nanos,
            raw: snapshot.raw,
            message: snapshot.message,
        }
    }
}

/// Every service of `services` as it goes on the wire, in the same order.
pub fn snapshots_of(services: &Vec<ServiceInfo>) -> (r: Vec<ServiceSnapshot>)
    ensures
        r.deep_view() == services.deep_view().map_values(|info: ServiceInfoView| info.snapshot()),
        r@.len() == services@.len(),
        forall|i: int|
            0 <= i < r@.len() ==> #[trigger] r@[i] == ServiceSnapshot::from_spec(&services@[i]),
{
    let mut r: Vec<ServiceSnapshot> = Vec::new();
    let mut i: usize = 0;
    while i < services.len()
        invariant
            i <= services.len(),
            r@.len() == i,
            forall|j: int| 0 <= j < i ==> #[trigger] r@[j] == ServiceSnapshot::from_spec(
                &services@[j],
            ),
        decreases services.len() - i,
    {
        r.push(ServiceSnapshot::from(&services[i]));
        i += 1;
    }
    assert(r.deep_view() =~= services.deep_view().map_values(
        |info: ServiceInfoView| info.snapshot(),
    ));
    r
}

/// Every line of `lines` as it goes on the wire, in the same order.
pub fn log_snapshots_of(lines: Vec<ServiceLogEntry>) -> (r: Vec<LogEntrySnapshot>)
    ensures
        r.deep_view() == lines.deep_view().map_values(
            |line: ServiceLogEntryView| line.snapshot(),
        ),
        r@.len() == lines@.len(),
        forall|i: int|
            0 <= i < r@.len() ==> #[trigger] r@[i] == LogEntrySnapshot::from_spec(lines@[i]),
{
    let ghost all = lines@;
    let mut r: Vec<LogEntrySnapshot> = Vec::new();
    for line in it: lines.into_iter()
        invariant
            it.seq() == all,
            r@.len() == it.index(),
            forall|j: int| 0 <= j < r@.len() ==> #[trigger] r@[j] == LogEntrySnapshot::from_spec(
                all[j],
            ),
    {
        r.push(LogEntrySnapshot::from(line));
    }
    assert(r.deep_view() =~= all.map_values(|line: ServiceLogEntry| line.deep_view()).map_values(
        |line: ServiceLogEntryView| line.snapshot(),
    ));
    assert(all.map_values(|line: ServiceLogEntry| line.deep_view()) =~= Seq::new(
        all.len(),
        |i: int| all[i].deep_view(),
    ));
    r
}

/// Every service of `snapshots` as the library holds it, in the same order.
pub fn services_of(snapshots: Vec<ServiceSnapshot>) -> (r: Vec<ServiceInfo>)
    ensures
        r@.len() == snapshots@.len(),
        forall|i: int| 0 <= i < r@.len() ==> #[trigger] r@[i] == ServiceInfo::from_spec(snapshots@[i]),
{
    let ghost all = snapshots@;
    let mut r: Vec<ServiceInfo> = Vec::new();
    for snapshot in it: snapshots.into_iter()
        invariant
            it.seq() == all,
            r@.len() == it.index(),
            forall|j: int| 0 <= j < r@.len() ==> #[trigger] r@[j] == ServiceInfo::from_spec(all[j]),
    {
        r.push(ServiceInfo::from(snapshot));
    }
    r
}

/// Every line of `snapshots` as a client sees it, in the same order.
pub fn log_entries_of(snapshots: Vec<LogEntrySnapshot>) -> (r: Vec<LogEntry>)
    ensures
        r@.len() == snapshots@.len(),
        forall|i: int| 0 <= i < r@.len() ==> #[trigger] r@[i] == LogEntry::from_spec(snapshots@[i]),
{
    let ghost all = snapshots@;
    let mut r: Vec<LogEntry> = Vec::new();
    for snapshot in it: snapshots.into_iter()
        invariant
            it.seq() == all,
            r@.len() == it.index(),
            forall|j: int| 0 <= j < r@.len() ==> #[trigger] r@[j] == LogEntry::from_spec(all[j]),
    {
        r.push(LogEntry::from(snapshot));
    }
    r
}

/// Encoding a service for the wire and decoding it again gives the service
/// back: the same name, path, enabled flag, desired state, description, and
/// the same runtime state with the same numbers.
pub proof fn law_service_round_trip(info: ServiceInfo)
    ensures
        ServiceInfo::from_spec(ServiceSnapshot::from_spec(&info)) == info,
{
}

/// Decoding a service from the wire and encoding it again gives the same
/// snapshot back.
pub proof fn law_snapshot_round_trip(snapshot: ServiceSnapshot)
    ensures
        ServiceSnapshot::from_spec(&ServiceInfo::from_spec(snapshot)) == snapshot,
{
}

/// On the wire a service keeps what it is: the view of the encoded service is
/// the encoding of its view.
pub proof fn law_snapshot_view(info: ServiceInfo)
    ensures
        ServiceSnapshot::from_spec(&info)@ == info@.snapshot(),
{
}

} // verus!
