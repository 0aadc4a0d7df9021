//! The requests that the privileged helper serves: actions on a service, the
//! list of services, a log, a description. Each is carried out one effect at
//! a time; the authorization gate stands before the actions of the bus
//! service.
use crate::action::ActionKind;
use crate::host::{CommandOutput, CommandOutputView, Effect, EffectView, Reply, ReplyView};
use crate::manager::{valid_service_name, ManagerView, ServiceManager};
use crate::outcome::{
    CommandOutcome, CommandOutcomeView, HelperError, HelperErrorView, OutcomeData, OutcomeDataView,
};
use crate::query::{
    Answer, AnswerView, Query, QueryStep, QueryStepView, QueryView, UNEXPECTED_REPLY,
};
use crate::service::{result_view, ServiceInfoView, ServiceLogEntryView};
use crate::snapshot::{log_snapshots_of, snapshots_of};
use crate::text::{trim, trimmed};
use vstd::prelude::*;
use vstd::string::*;

verus! {

/// The action under which the authority asks the caller to confirm anew.
pub const POLKIT_ACTION_REQUIRE_PASSWORD: &'static str = "tech.geektoshi.Runkit.require_password";

/// The action under which the authority accepts an earlier confirmation.
pub const POLKIT_ACTION_ALLOW_CACHE: &'static str = "tech.geektoshi.Runkit.cached";

/// The key under which the authority is told the service.
pub const DETAIL_SERVICE: &'static str = "service";

/// The key under which the authority is told the operation.
pub const DETAIL_OPERATION: &'static str = "operation";

/// What a query is made for.
#[derive(Debug, PartialEq, Eq)]
pub enum Purpose {
    /// The list of all services.
    List,
    /// The log of a service.
    Logs,
    /// The description of `service`.
    Describe { service: String },
}

/// The mathematical value of a [`Purpose`].
pub ghost enum PurposeView {
    List,
    Logs,
    Describe { service: Seq<char> },
}

impl DeepView for Purpose {
    type V = PurposeView;

    open spec fn deep_view(&self) -> PurposeView {
        match *self {
            Purpose::List => PurposeView::List,
            Purpose::Logs => PurposeView::Logs,
            Purpose::Describe { service } => PurposeView::Describe { service: service@ },
        }
    }
}

impl View for Purpose {
    type V = PurposeView;

    open spec fn view(&self) -> PurposeView {
        self.deep_view()
    }
}

/// A request that waits for the host's reply.
#[derive(Debug, PartialEq, Eq)]
pub enum Task {
    /// The authority is being asked whether the caller may do `kind`.
    Authorize { kind: ActionKind, service: String },
    /// The supervisor runs `subcommand` for `service`.
    Supervise { subcommand: String, service: String },
    /// Enabling: the definition of `service` is being looked for.
    EnableDefinition { service: String },
    /// Enabling: the enabled marker of `service` is being looked for.
    EnableMarker { service: String },
    /// Enabling: the enabled marker of `service` is being made.
    EnableLink { service: String },
    /// Disabling: the enabled marker of `service` is being looked for.
    DisableMarker { service: String },
    /// Disabling: the enabled marker of `service` is being removed.
    DisableRemove { service: String },
    /// A query of the manager is under way.
    Asking { purpose: Purpose, query: Query },
}

/// The mathematical value of a [`Task`].
pub ghost enum TaskView {
    Authorize { kind: ActionKind, service: Seq<char> },
    Supervise { subcommand: Seq<char>, service: Seq<char> },
    EnableDefinition { service: Seq<char> },
    EnableMarker { service: Seq<char> },
    EnableLink { service: Seq<char> },
    DisableMarker { service: Seq<char> },
    DisableRemove { service: Seq<char> },
    Asking { purpose: PurposeView, query: QueryView },
}

impl DeepView for Task {
    type V = TaskView;

    open spec fn deep_view(&self) -> TaskView {
        match *self {
            Task::Authorize { kind, service } => TaskView::Authorize { kind, service: service@ },
            Task::Supervise { subcommand, service } => TaskView::Supervise {
                subcommand: subcommand@,
                service: service@,
            },
            Task::EnableDefinition { service } => TaskView::EnableDefinition { service: service@ },
            Task::EnableMarker { service } => TaskView::EnableMarker { service: service@ },
            Task::EnableLink { service } => TaskView::EnableLink { service: service@ },
            Task::DisableMarker { service } => TaskView::DisableMarker { service: service@ },
            Task::DisableRemove { service } => TaskView::DisableRemove { service: service@ },
            Task::Asking { purpose, query } => TaskView::Asking {
                purpose: purpose@,
                query: query@,
            },
        }
    }
}

impl View for Task {
    type V = TaskView;

    open spec fn view(&self) -> TaskView {
        self.deep_view()
    }
}

/// Where a request stands: finished, or waiting for the host.
#[derive(Debug, PartialEq, Eq)]
pub enum Progress {
    /// The request has ended, well or not.
    Finished(Result<CommandOutcome, HelperError>),
    /// The host is to perform the effect and hand its reply, with the task,
    /// to [`HelperContext::resume`].
    Waiting(Task, Effect),
}

/// The mathematical value of a [`Progress`].
pub ghost enum ProgressView {
    Finished(Result<CommandOutcomeView, HelperErrorView>),
    Waiting(TaskView, EffectView),
}

impl DeepView for Progress {
    type V = ProgressView;

    open spec fn deep_view(&self) -> ProgressView {
        match *self {
            Progress::Finished(result) => ProgressView::Finished(result_view(result)),
            Progress::Waiting(task, effect) => ProgressView::Waiting(task@, effect@),
        }
    }
}

impl View for Progress {
    type V = ProgressView;

    open spec fn view(&self) -> ProgressView {
        self.deep_view()
    }
}

/// A request that has failed.
pub open spec fn failed(error: HelperErrorView) -> ProgressView {
    ProgressView::Finished(Err(error))
}

/// A request that has ended with a message.
pub open spec fn succeeded(message: Seq<char>) -> ProgressView {
    ProgressView::Finished(Ok(CommandOutcomeView::message(message)))
}

/// What a failed supervisor command says for itself: standard error without
/// the white space around it, if anything is left of it. Where nothing is
/// left, a process that ended in failure is described by the way it ended;
/// one that ended well, and so has failed only by writing white space to
/// standard error, by that white space as it was written.
pub open spec fn failure_message(output: CommandOutputView) -> Seq<char> {
    if trimmed(output.stderr).len() > 0 {
        trimmed(output.stderr)
    } else if !output.success {
        "exit status "@ + output.status
    } else {
        output.stderr
    }
}

/// What a supervisor command that has run means for the request. It has
/// failed if the process says so, or if standard error holds any character at
/// all, white space included, whatever the exit code. The failure carries
/// [`failure_message`]. A success carries standard output without the white
/// space around it, or a sentence of its own where nothing is left of it.
pub open spec fn supervise_result(
    subcommand: Seq<char>,
    service: Seq<char>,
    output: CommandOutputView,
) -> Result<CommandOutcomeView, HelperErrorView> {
    let stdout = trimmed(output.stdout);
    if !output.success || output.stderr.len() > 0 {
        Err(
            HelperErrorView::SvFailure {
                command: subcommand,
                service,
                message: failure_message(output),
            },
        )
    } else {
        Ok(
            CommandOutcomeView::message(
                if stdout.len() == 0 {
                    subcommand + " command executed for "@ + service
                } else {
                    stdout
                },
            ),
        )
    }
}

/// What the answer to a query means for the request that it was made for.
pub open spec fn answer_outcome(purpose: PurposeView, answer: AnswerView) -> Result<
    CommandOutcomeView,
    HelperErrorView,
> {
    match (purpose, answer) {
        (PurposeView::List, AnswerView::Services(services)) => Ok(
            CommandOutcomeView::data(
                OutcomeDataView::Services(
                    services.map_values(|info: ServiceInfoView| info.snapshot()),
                ),
            ),
        ),
        (PurposeView::Logs, AnswerView::Log(lines)) => Ok(
            CommandOutcomeView::data(
                OutcomeDataView::Log(
                    lines.map_values(|line: ServiceLogEntryView| line.snapshot()),
                ),
            ),
        ),
        (PurposeView::Describe { service }, AnswerView::Description(description)) => Ok(
            CommandOutcomeView::data(OutcomeDataView::Description { service, description }),
        ),
        _ => Err(HelperErrorView::Other(UNEXPECTED_REPLY@)),
    }
}

/// The request's progress for a step of the query that it makes.
pub open spec fn lift(purpose: PurposeView, step: QueryStepView) -> ProgressView {
    match step {
        QueryStepView::Ask(query, effect) => ProgressView::Waiting(
            TaskView::Asking { purpose, query },
            effect,
        ),
        QueryStepView::Done(Ok(answer)) => ProgressView::Finished(answer_outcome(purpose, answer)),
        QueryStepView::Done(Err(error)) => failed(error.helper_error()),
    }
}

/// The action under which the authority is asked.
pub open spec fn authorization_action(allow_cached: bool) -> Seq<char> {
    if allow_cached {
        POLKIT_ACTION_ALLOW_CACHE@
    } else {
        POLKIT_ACTION_REQUIRE_PASSWORD@
    }
}

/// The mathematical value of a [`HelperContext`].
pub ghost struct ContextView {
    pub manager: ManagerView,
}

impl ContextView {
    /// The first step of a supervisor command: the name is checked, then the
    /// command is asked for.
    pub open spec fn call_sv(self, subcommand: Seq<char>, service: Seq<char>) -> ProgressView {
        if valid_service_name(service) {
            ProgressView::Waiting(
                TaskView::Supervise { subcommand, service },
                EffectView::RunCommand { program: self.manager.sv_command, subcommand, service },
            )
        } else {
            failed(HelperErrorView::InvalidService(service))
        }
    }

    /// The first step of enabling: the name is checked, then the definition
    /// is looked for.
    pub open spec fn enable(self, service: Seq<char>) -> ProgressView {
        if valid_service_name(service) {
            ProgressView::Waiting(
                TaskView::EnableDefinition { service },
                EffectView::CheckExists { path: self.manager.definition_path(service) },
            )
        } else {
            failed(HelperErrorView::InvalidService(service))
        }
    }

    /// The first step of disabling: the name is checked, then the enabled
    /// marker is looked for.
    pub open spec fn disable(self, service: Seq<char>) -> ProgressView {
        if valid_service_name(service) {
            ProgressView::Waiting(
                TaskView::DisableMarker { service },
                EffectView::CheckExists { path: self.manager.enabled_path(service) },
            )
        } else {
            failed(HelperErrorView::InvalidService(service))
        }
    }

    /// The first step of an action.
    pub open spec fn perform_action(self, kind: ActionKind, service: Seq<char>) -> ProgressView {
        match kind {
            ActionKind::Enable => self.enable(service),
            ActionKind::Disable => self.disable(service),
            _ => self.call_sv(kind.subcommand().unwrap(), service),
        }
    }

    /// The first step of a request for the list of services.
    pub open spec fn list(self) -> ProgressView {
        lift(PurposeView::List, self.manager.list_services())
    }

    /// The first step of a request for a log.
    pub open spec fn logs(self, service: Seq<char>, lines: usize) -> ProgressView {
        lift(PurposeView::Logs, self.manager.tail_logs(service, lines))
    }

    /// The first step of a request for a description.
    pub open spec fn describe(self, service: Seq<char>) -> ProgressView {
        lift(PurposeView::Describe { service }, self.manager.service_description(service))
    }

    /// The first step of an action that the bus service is asked for: an
    /// action of no known name is refused at once; for any other the
    /// authority is asked.
    pub open spec fn authorize(
        self,
        action: Seq<char>,
        service: Seq<char>,
        allow_cached: bool,
    ) -> ProgressView {
        match ActionKind::named(action) {
            Some(kind) => ProgressView::Waiting(
                TaskView::Authorize { kind, service },
                EffectView::CheckAuthorization {
                    action_id: authorization_action(allow_cached),
                    service,
                    operation: kind.name(),
                },
            ),
            None => failed(HelperErrorView::UnsupportedAction(action)),
        }
    }

    /// What follows the authority's decision: the action, if the caller is
    /// authorized; a failure otherwise.
    pub open spec fn after_authorize(
        self,
        kind: ActionKind,
        service: Seq<char>,
        reply: ReplyView,
    ) -> ProgressView {
        match reply {
            ReplyView::Authorization { is_authorized, is_challenge } => if is_authorized {
                self.perform_action(kind, service)
            } else if is_challenge {
                failed(HelperErrorView::AuthorizationChallenged)
            } else {
                failed(HelperErrorView::AuthorizationDenied)
            },
            ReplyView::Failed(why) => failed(HelperErrorView::Other(why)),
            _ => failed(HelperErrorView::Other(UNEXPECTED_REPLY@)),
        }
    }

    /// What follows a supervisor command.
    pub open spec fn after_supervise(
        self,
        subcommand: Seq<char>,
        service: Seq<char>,
        reply: ReplyView,
    ) -> ProgressView {
        match reply {
            ReplyView::Output(output) => ProgressView::Finished(
                supervise_result(subcommand, service, output),
            ),
            ReplyView::Failed(why) => failed(
                HelperErrorView::Io { path: self.manager.sv_command, source: why },
            ),
            _ => failed(HelperErrorView::Other(UNEXPECTED_REPLY@)),
        }
    }

    /// Enabling, once it is known whether the service is defined.
    pub open spec fn after_enable_definition(self, service: Seq<char>, reply: ReplyView) -> ProgressView {
        match reply {
            ReplyView::Exists(true) => ProgressView::Waiting(
                TaskView::EnableMarker { service },
                EffectView::CheckExists { path: self.manager.enabled_path(service) },
            ),
            ReplyView::Exists(false) => failed(
                HelperErrorView::DefinitionMissing {
                    service,
                    path: self.manager.definition_path(service),
                },
            ),
            _ => failed(HelperErrorView::Other(UNEXPECTED_REPLY@)),
        }
    }

    /// Enabling, once it is known whether the service is enabled already.
    pub open spec fn after_enable_marker(self, service: Seq<char>, reply: ReplyView) -> ProgressView {
        match reply {
            ReplyView::Exists(true) => failed(HelperErrorView::AlreadyEnabled(service)),
            ReplyView::Exists(false) => ProgressView::Waiting(
                TaskView::EnableLink { service },
                EffectView::CreateSymlink {
                    target: self.manager.definition_path(service),
                    link: self.manager.enabled_path(service),
                },
            ),
            _ => failed(HelperErrorView::Other(UNEXPECTED_REPLY@)),
        }
    }

    /// Enabling, once the host has tried to make the marker.
    pub open spec fn after_enable_link(self, service: Seq<char>, reply: ReplyView) -> ProgressView {
        match reply {
            ReplyView::Done => succeeded("Enabled service "@ + service),
            ReplyView::Failed(why) => failed(
                HelperErrorView::Io { path: self.manager.enabled_path(service), source: why },
            ),
            _ => failed(HelperErrorView::Other(UNEXPECTED_REPLY@)),
        }
    }

    /// Disabling, once it is known whether the service is enabled.
    pub open spec fn after_disable_marker(self, service: Seq<char>, reply: ReplyView) -> ProgressView {
        match reply {
            ReplyView::Exists(true) => ProgressView::Waiting(
                TaskView::DisableRemove { service },
                EffectView::RemoveFile { path: self.manager.enabled_path(service) },
            ),
            ReplyView::Exists(false) => failed(HelperErrorView::NotEnabled(service)),
            _ => failed(HelperErrorView::Other(UNEXPECTED_REPLY@)),
        }
    }

    /// Disabling, once the host has tried to remove the marker.
    pub open spec fn after_disable_remove(self, service: Seq<char>, reply: ReplyView) -> ProgressView {
        match reply {
            ReplyView::Done => succeeded("Disabled service "@ + service),
            ReplyView::Failed(why) => failed(
                HelperErrorView::Io { path: self.manager.enabled_path(service), source: why },
            ),
            _ => failed(HelperErrorView::Other(UNEXPECTED_REPLY@)),
        }
    }

    /// What follows the host's reply to the effect that `task` waits for.
    pub open spec fn resume(self, task: TaskView, reply: ReplyView) -> ProgressView {
        match task {
            TaskView::Authorize { kind, service } => self.after_authorize(kind, service, reply),
            TaskView::Supervise { subcommand, service } => self.after_supervise(
                subcommand,
                service,
                reply,
            ),
            TaskView::EnableDefinition { service } => self.after_enable_definition(service, reply),
            TaskView::EnableMarker { service } => self.after_enable_marker(service, reply),
            TaskView::EnableLink { service } => self.after_enable_link(service, reply),
            TaskView::DisableMarker { service } => self.after_disable_marker(service, reply),
            TaskView::DisableRemove { service } => self.after_disable_remove(service, reply),
            TaskView::Asking { purpose, query } => lift(purpose, self.manager.resume(query, reply)),
        }
    }
}

/// Serves the helper's requests on the services of one manager.
#[derive(Debug)]
pub struct HelperContext {
    manager: ServiceManager,
}

impl View for HelperContext {
    type V = ContextView;

    closed spec fn view(&self) -> ContextView {
        ContextView { manager: self.manager@ }
    }
}

impl Default for HelperContext {
    fn default() -> (context: Self)
        ensures
            context@.manager == (ManagerView {
                definitions_dir: crate::manager::DEFAULT_SERVICE_DIR@,
                enabled_dir: crate::manager::DEFAULT_ENABLED_DIR@,
                sv_command: crate::manager::DEFAULT_SV_COMMAND@,
            }),
    {
        HelperContext { manager: ServiceManager::default() }
    }
}

fn fail(error: HelperError) -> (progress: Progress)
    ensures
        progress@ == failed(error@),
{
    Progress::Finished(Err(error))
}

fn unexpected_reply() -> (progress: Progress)
    ensures
        progress@ == failed(HelperErrorView::Other(UNEXPECTED_REPLY@)),
{
    fail(HelperError::Other(String::from_str(UNEXPECTED_REPLY)))
}

/// Reads what a supervisor command left behind.
pub fn interpret_supervise(subcommand: &str, service: &str, output: &CommandOutput) -> (r: Result<
    CommandOutcome,
    HelperError,
>)
    ensures
        result_view(r) == supervise_result(subcommand@, service@, output@),
{
    if !output.success || output.stderr.as_str().unicode_len() > 0 {
        let stderr = trim(output.stderr.as_str());
        let message = if stderr.unicode_len() > 0 {
            String::from_str(stderr)
        } else if !output.success {
            let mut text = String::from_str("exit status ");
            text.append(output.status.as_str());
            text
        } else {
            output.stderr.clone()
        };
        return Err(
            HelperError::SvFailure {
                command: String::from_str(subcommand),
                service: String::from_str(service),
                message,
            },
        );
    }
    let stdout = trim(output.stdout.as_str());
    let message = if stdout.unicode_len() == 0 {
        let mut text = String::from_str(subcommand);
        text.append(" command executed for ");
        text.append(service);
        text
    } else {
        String::from_str(stdout)
    };
    Ok(CommandOutcome::message(message))
}

fn answer_to_outcome(purpose: Purpose, answer: Answer) -> (r: Result<CommandOutcome, HelperError>)
    ensures
        result_view(r) == answer_outcome(purpose@, answer@),
{
    match (purpose, answer) {
        (Purpose::List, Answer::Services(services)) => Ok(
            CommandOutcome::with(None, Some(OutcomeData::Services(snapshots_of(&services)))),
        ),
        (Purpose::Logs, Answer::Log(lines)) => Ok(
            CommandOutcome::with(None, Some(OutcomeData::Log(log_snapshots_of(lines)))),
        ),
        (Purpose::Describe { service }, Answer::Description(description)) => Ok(
            CommandOutcome::with(None, Some(OutcomeData::Description { service, description })),
        ),
        _ => Err(HelperError::Other(String::from_str(UNEXPECTED_REPLY))),
    }
}

fn lift_step(purpose: Purpose, step: QueryStep) -> (progress: Progress)
    ensures
        progress@ == lift(purpose@, step@),
{
    match step {
        QueryStep::Ask(query, effect) => Progress::Waiting(Task::Asking { purpose, query }, effect),
        QueryStep::Done(Ok(answer)) => Progress::Finished(answer_to_outcome(purpose, answer)),
        QueryStep::Done(Err(error)) => fail(HelperError::from(error)),
    }
}

impl HelperContext {
    /// A context that serves the services of `manager`.
    pub fn new(manager: ServiceManager) -> (context: Self)
        ensures
            context@.manager == manager@,
    {
        HelperContext { manager }
    }

    /// The manager whose services this context serves.
    pub fn manager(&self) -> (manager: &ServiceManager)
        ensures
            manager@ == self@.manager,
    {
        &self.manager
    }

    /// Begins the action `action` on `service`. Starting, stopping,
    /// restarting, reloading, checking and running once go to the supervisor
    /// as `up`, `down`, `restart`, `reload`, `check` and `once`; enabling and
    /// disabling make and remove the enabled marker. A name that is not valid
    /// is refused before anything is asked of the host.
    pub fn perform_action(&self, action: ActionKind, service: &str) -> (progress: Progress)
        ensures
            progress@ == self@.perform_action(action, service@),
    {
        match action {
            ActionKind::Enable => self.enable(service),
            ActionKind::Disable => self.disable(service),
            _ => match action.supervisor_subcommand() {
                Some(subcommand) => self.call_sv(subcommand, service),
                None => unexpected_reply(),
            },
        }
    }

    /// Begins the request for the list of all services.
    pub fn list(&self) -> (progress: Progress)
        ensures
            progress@ == self@.list(),
    {
        lift_step(Purpose::List, self.manager.list_services())
    }

    /// Begins the request for the last `lines` lines of the log of `service`.
    pub fn logs(&self, service: &str, lines: usize) -> (progress: Progress)
        ensures
            progress@ == self@.logs(service@, lines),
    {
        lift_step(Purpose::Logs, self.manager.tail_logs(service, lines))
    }

    /// Begins the request for the description of `service`.
    pub fn describe(&self, service: &str) -> (progress: Progress)
        ensures
            progress@ == self@.describe(service@),
    {
        lift_step(
            Purpose::Describe { service: String::from_str(service) },
            self.manager.service_description(service),
        )
    }

    /// Begins an action that a caller of the bus service asks for by name. An
    /// action of no known name is refused without the authority being asked.
    /// For any other the authority is asked, under the action that accepts an
    /// earlier confirmation if `allow_cached` is set and under the one that
    /// asks anew if not, and is told the service and the operation.
    pub fn authorize(&self, action: &str, service: &str, allow_cached: bool) -> (progress: Progress)
        ensures
            progress@ == self@.authorize(action@, service@, allow_cached),
    {
        match ActionKind::parse(action) {
            Some(kind) => Progress::Waiting(
                Task::Authorize { kind, service: String::from_str(service) },
                Effect::CheckAuthorization {
                    action_id: String::from_str(
                        if allow_cached {
                            POLKIT_ACTION_ALLOW_CACHE
                        } else {
                            POLKIT_ACTION_REQUIRE_PASSWORD
                        },
                    ),
                    service: String::from_str(service),
                    operation: String::from_str(kind.as_str()),
                },
            ),
            None => fail(HelperError::UnsupportedAction(String::from_str(action))),
        }
    }

    fn call_sv(&self, subcommand: &str, service: &str) -> (progress: Progress)
        ensures
            progress@ == self@.call_sv(subcommand@, service@),
    {
        match self.manager.validate_service_name(service) {
            Err(e) => fail(HelperError::from(e)),
            Ok(_) => Progress::Waiting(
                Task::Supervise {
                    subcommand: String::from_str(subcommand),
                    service: String::from_str(service),
                },
                Effect::RunCommand {
                    program: String::from_str(self.manager.sv_command_path()),
                    subcommand: String::from_str(subcommand),
                    service: String::from_str(service),
                },
            ),
        }
    }

    fn enable(&self, service: &str) -> (progress: Progress)
        ensures
            progress@ == self@.enable(service@),
    {
        match self.manager.validate_service_name(service) {
            Err(e) => fail(HelperError::from(e)),
            Ok(_) => Progress::Waiting(
                Task::EnableDefinition { service: String::from_str(service) },
                Effect::CheckExists { path: self.manager.definition_path(service) },
            ),
        }
    }

    fn disable(&self, service: &str) -> (progress: Progress)
        ensures
            progress@ == self@.disable(service@),
    {
        match self.manager.validate_service_name(service) {
            Err(e) => fail(HelperError::from(e)),
            Ok(_) => Progress::Waiting(
                Task::DisableMarker { service: String::from_str(service) },
                Effect::CheckExists { path: self.manager.enabled_path(service) },
            ),
        }
    }

    fn after_authorize(&self, kind: ActionKind, service: String, reply: Reply) -> (progress:
        Progress)
        ensures
            progress@ == self@.after_authorize(kind, service@, reply@),
    {
        match reply {
            Reply::Authorization { is_authorized, is_challenge } => if is_authorized {
                self.perform_action(kind, service.as_str())
            } else if is_challenge {
                fail(HelperError::AuthorizationChallenged)
            } else {
                fail(HelperError::AuthorizationDenied)
            },
            Reply::Failed(why) => fail(HelperError::Other(why)),
            _ => unexpected_reply(),
        }
    }

    fn after_supervise(&self, subcommand: String, service: String, reply: Reply) -> (progress:
        Progress)
        ensures
            progress@ == self@.after_supervise(subcommand@, service@, reply@),
    {
        match reply {
            Reply::Output(output) => Progress::Finished(
                interpret_supervise(subcommand.as_str(), service.as_str(), &output),
            ),
            Reply::Failed(why) => fail(
                HelperError::Io {
                    path: String::from_str(self.manager.sv_command_path()),
                    source: why,
                },
            ),
            _ => unexpected_reply(),
        }
    }

    fn after_enable_definition(&self, service: String, reply: Reply) -> (progress: Progress)
        ensures
            progress@ == self@.after_enable_definition(service@, reply@),
    {
        match reply {
            Reply::Exists(true) => {
                let path = self.manager.enabled_path(service.as_str());
                Progress::Waiting(Task::EnableMarker { service }, Effect::CheckExists { path })
            },
            Reply::Exists(false) => {
                let path = self.manager.definition_path(service.as_str());
                fail(HelperError::DefinitionMissing { service, path })
            },
            _ => unexpected_reply(),
        }
    }

    fn after_enable_marker(&self, service: String, reply: Reply) -> (progress: Progress)
        ensures
            progress@ == self@.after_enable_marker(service@, reply@),
    {
        match reply {
            Reply::Exists(true) => fail(HelperError::AlreadyEnabled(service)),
            Reply::Exists(false) => {
                let target = self.manager.definition_path(service.as_str());
                let link = self.manager.enabled_path(service.as_str());
                Progress::Waiting(
                    Task::EnableLink { service },
                    Effect::CreateSymlink { target, link },
                )
            },
            _ => unexpected_reply(),
        }
    }

    fn after_enable_link(&self, service: String, reply: Reply) -> (progress: Progress)
        ensures
            progress@ == self@.after_enable_link(service@, reply@),
    {
        match reply {
            Reply::Done => {
                let mut message = String::from_str("Enabled service ");
                message.append(service.as_str());
                Progress::Finished(Ok(CommandOutcome::message(message)))
            },
            Reply::Failed(why) => fail(
                HelperError::Io { path: self.manager.enabled_path(service.as_str()), source: why },
            ),
            _ => unexpected_reply(),
        }
    }

    fn after_disable_marker(&self, service: String, reply: Reply) -> (progress: Progress)
        ensures
            progress@ == self@.after_disable_marker(service@, reply@),
    {
        match reply {
            Reply::Exists(true) => {
                let path = self.manager.enabled_path(service.as_str());
                Progress::Waiting(Task::DisableRemove { service }, Effect::RemoveFile { path })
            },
            Reply::Exists(false) => fail(HelperError::NotEnabled(service)),
            _ => unexpected_reply(),
        }
    }

    fn after_disable_remove(&self, service: String, reply: Reply) -> (progress: Progress)
        ensures
            progress@ == self@.after_disable_remove(service@, reply@),
    {
        match reply {
            Reply::Done => {
                let mut message = String::from_str("Disabled service ");
                message.append(service.as_str());
                Progress::Finished(Ok(CommandOutcome::message(message)))
            },
            Reply::Failed(why) => fail(
                HelperError::Io { path: self.manager.enabled_path(service.as_str()), source: why },
            ),
            _ => unexpected_reply(),
        }
    }

    /// Goes on with `task` from the host's `reply` to the effect it waited
    /// for. A reply of another kind than the effect calls for ends the
    /// request with [`HelperError::Other`].
    pub fn resume(&self, task: Task, reply: Reply) -> (progress: Progress)
        ensures
            progress@ == self@.resume(task@, reply@),
    {
        match task {
            Task::Authorize { kind, service } => self.after_authorize(kind, service, reply),
            Task::Supervise { subcommand, service } => self.after_supervise(
                subcommand,
                service,
                reply,
            ),
            Task::EnableDefinition { service } => self.after_enable_definition(service, reply),
            Task::EnableMarker { service } => self.after_enable_marker(service, reply),
            Task::EnableLink { service } => self.after_enable_link(service, reply),
            Task::DisableMarker { service } => self.after_disable_marker(service, reply),
            Task::DisableRemove { service } => self.after_disable_remove(service, reply),
            Task::Asking { purpose, query } => lift_step(purpose, self.manager.resume(query, reply)),
        }
    }
}

} // verus!
