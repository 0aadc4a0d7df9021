//! The manager's questions, asked one effect at a time: the status of a
//! service, its description, its log, and the list of all services.
use crate::host::{
    join, join_path, CommandOutput, CommandOutputView, DirEntry, DirEntryView, Effect, EffectView,
    Reply, ReplyView,
};
use crate::manager::{
    hidden_name, insert_by_name, insert_sorted, service_info, valid_service_name, ManagerView,
    ServiceManager, HIDDEN_PREFIX,
};
use crate::service::{
    result_view, ServiceError, ServiceErrorView, ServiceInfo, ServiceInfoView, ServiceLogEntry,
    ServiceLogEntryView,
};
use crate::status::{status_of, RuntimeStateView, ServiceRuntimeState};
use crate::text::{
    decimal_text, first_line_of, has_prefix, leading_line, render_i32, trim, trimmed,
};
use vstd::prelude::*;
use vstd::string::*;

verus! {

/// The subcommand that asks the supervisor for a service's status.
pub const STATUS_SUBCOMMAND: &'static str = "status";

/// What an operation ends with when the host answers something that was not
/// asked.
pub const UNEXPECTED_REPLY: &'static str = "unexpected reply from the host";

/// How many files may hold a service's description.
pub const DESCRIPTION_CANDIDATES: usize = 3;

/// The name of the `i`-th file that may hold a service's description.
pub open spec fn candidate_name(i: int) -> Seq<char> {
    if i == 0 {
        "description"@
    } else if i == 1 {
        "README"@
    } else {
        "README.md"@
    }
}

/// The name of the `i`-th file that may hold a service's description.
pub fn candidate(i: usize) -> (name: &'static str)
    ensures
        name@ == candidate_name(i as int),
{
    if i == 0 {
        "description"
    } else if i == 1 {
        "README"
    } else {
        "README.md"
    }
}

/// The description that a file's text gives: the first line of the text
/// without the white space around it, if anything is left of it.
pub open spec fn description_in(contents: Option<Seq<char>>) -> Option<Seq<char>> {
    match contents {
        Some(text) => if trimmed(text).len() > 0 {
            Some(leading_line(trimmed(text)))
        } else {
            None
        },
        None => None,
    }
}

/// The description that a file's text gives.
pub fn read_description(contents: &Option<String>) -> (r: Option<String>)
    ensures
        r.deep_view() == description_in(contents.deep_view()),
{
    match contents {
        Some(text) => {
            let body = trim(text.as_str());
            if body.unicode_len() > 0 {
                Some(String::from_str(first_line_of(body)))
            } else {
                None
            }
        },
        None => None,
    }
}

/// How a command that printed nothing is said to have ended: by its exit
/// code, or in the host's words where it had none.
pub open spec fn exit_description(output: CommandOutputView) -> Seq<char> {
    match output.code {
        Some(code) => "exit status "@ + decimal_text(code as int),
        None => output.status,
    }
}

/// What a failure says of a standard error that is not empty: the text
/// without the white space around it, or the text as it was written where it
/// is white space throughout.
pub open spec fn captured_error(stderr: Seq<char>) -> Seq<char> {
    if trimmed(stderr).len() > 0 {
        trimmed(stderr)
    } else {
        stderr
    }
}

/// What the output of the status command says of `service`. A standard error
/// that holds any character at all, white space included, is a failure
/// whatever the exit code and whatever standard output holds; the failure
/// carries [`captured_error`]. A standard output of which nothing is left
/// once the white space around it is taken off, one with no character in it
/// included, is a failure too, which says how the command ended. Any other
/// standard output is read as a status text.
pub open spec fn status_result(service: Seq<char>, output: CommandOutputView) -> Result<
    RuntimeStateView,
    ServiceErrorView,
> {
    if output.stderr.len() > 0 {
        Err(ServiceErrorView::SvCommand { service, message: captured_error(output.stderr) })
    } else if trimmed(output.stdout).len() == 0 {
        Err(
            ServiceErrorView::SvCommand {
                service,
                message: "sv status returned no output ("@ + exit_description(output) + ")"@,
            },
        )
    } else {
        Ok(status_of(output.stdout))
    }
}

/// What a failure says of the standard error `stderr`.
pub fn capture_error(stderr: &str) -> (r: String)
    ensures
        r@ == captured_error(stderr@),
{
    let text = trim(stderr);
    if text.unicode_len() > 0 {
        String::from_str(text)
    } else {
        String::from_str(stderr)
    }
}

/// Reads the output of the status command for `service`.
pub fn interpret_status(service: &str, output: &CommandOutput) -> (r: Result<
    ServiceRuntimeState,
    ServiceError,
>)
    ensures
        result_view(r) == status_result(service@, output@),
{
    if output.stderr.as_str().unicode_len() > 0 {
        return Err(
            ServiceError::SvCommand {
                service: String::from_str(service),
                message: capture_error(output.stderr.as_str()),
            },
        );
    }
    if trim(output.stdout.as_str()).unicode_len() == 0 {
        let mut message = String::from_str("sv status returned no output (");
        match output.code {
            Some(code) => {
                message.append("exit status ");
                let digits = render_i32(code);
                message.append(digits.as_str());
            },
            None => {
                message.append(output.status.as_str());
            },
        }
        message.append(")");
        assert(message@ =~= "sv status returned no output ("@ + exit_description(output@) + ")"@);
        return Err(ServiceError::SvCommand { service: String::from_str(service), message });
    }
    Ok(ServiceRuntimeState::from_sv_status(output.stdout.as_str()))
}

/// The entries of the definitions directory and how far the enumeration has
/// come through them.
#[derive(Debug, PartialEq, Eq)]
pub struct Listing {
    /// What the directory holds.
    pub entries: Vec<DirEntry>,
    /// The entry that is being looked at.
    pub next: usize,
    /// The services found before it, in the order of their names.
    pub found: Vec<ServiceInfo>,
}

/// The mathematical value of a [`Listing`].
pub ghost struct ListingView {
    pub entries: Seq<DirEntryView>,
    pub next: int,
    pub found: Seq<ServiceInfoView>,
}

impl DeepView for Listing {
    type V = ListingView;

    open spec fn deep_view(&self) -> ListingView {
        ListingView {
            entries: self.entries.deep_view(),
            next: self.next as int,
            found: self.found.deep_view(),
        }
    }
}

impl View for Listing {
    type V = ListingView;

    open spec fn view(&self) -> ListingView {
        self.deep_view()
    }
}

impl ListingView {
    /// The name of the entry that is being looked at.
    pub open spec fn current_name(self) -> Option<Seq<char>> {
        if 0 <= self.next < self.entries.len() {
            self.entries[self.next].name
        } else {
            None
        }
    }
}

/// A question that waits for the host's reply.
#[derive(Debug, PartialEq, Eq)]
pub enum Query {
    /// The status command runs for `service`.
    Status { service: String },
    /// The `candidate`-th file under `path` is being read for a description.
    Describe { path: String, candidate: usize },
    /// The log of `service` is being read.
    Logs { service: String },
    /// The definitions directory is being listed.
    Definitions,
    /// The enabled marker of the current entry is being looked for.
    Enabled { listing: Listing },
    /// The status command runs for the current entry.
    State { listing: Listing, enabled: bool },
    /// The `candidate`-th description file of the current entry is being read.
    Description { listing: Listing, enabled: bool, state: ServiceRuntimeState, candidate: usize },
}

/// The mathematical value of a [`Query`].
pub ghost enum QueryView {
    Status { service: Seq<char> },
    Describe { path: Seq<char>, candidate: usize },
    Logs { service: Seq<char> },
    Definitions,
    Enabled { listing: ListingView },
    State { listing: ListingView, enabled: bool },
    Description { listing: ListingView, enabled: bool, state: RuntimeStateView, candidate: usize },
}

impl DeepView for Query {
    type V = QueryView;

    open spec fn deep_view(&self) -> QueryView {
        match *self {
            Query::Status { service } => QueryView::Status { service: service@ },
            Query::Describe { path, candidate } => QueryView::Describe { path: path@, candidate },
            Query::Logs { service } => QueryView::Logs { service: service@ },
            Query::Definitions => QueryView::Definitions,
            Query::Enabled { listing } => QueryView::Enabled { listing: listing@ },
            Query::State { listing, enabled } => QueryView::State { listing: listing@, enabled },
            Query::Description { listing, enabled, state, candidate } => QueryView::Description {
                listing: listing@,
                enabled,
                state: state@,
                candidate,
            },
        }
    }
}

impl View for Query {
    type V = QueryView;

    open spec fn view(&self) -> QueryView {
        self.deep_view()
    }
}

/// What a question is answered with.
#[derive(Debug, PartialEq, Eq)]
pub enum Answer {
    /// The runtime state of the service asked about.
    State(ServiceRuntimeState),
    /// The description of the service asked about, if it has one.
    Description(Option<String>),
    /// The lines of the log asked for.
    Log(Vec<ServiceLogEntry>),
    /// All services, in the order of their names.
    Services(Vec<ServiceInfo>),
}

/// The mathematical value of an [`Answer`].
pub ghost enum AnswerView {
    State(RuntimeStateView),
    Description(Option<Seq<char>>),
    Log(Seq<ServiceLogEntryView>),
    Services(Seq<ServiceInfoView>),
}

impl DeepView for Answer {
    type V = AnswerView;

    open spec fn deep_view(&self) -> AnswerView {
        match *self {
            Answer::State(state) => AnswerView::State(state@),
            Answer::Description(text) => AnswerView::Description(text.deep_view()),
            Answer::Log(lines) => AnswerView::Log(lines.deep_view()),
            Answer::Services(services) => AnswerView::Services(services.deep_view()),
        }
    }
}

impl View for Answer {
    type V = AnswerView;

    open spec fn view(&self) -> AnswerView {
        self.deep_view()
    }
}

/// Where a question stands: answered, or waiting for the host.
#[derive(Debug, PartialEq, Eq)]
pub enum QueryStep {
    /// The question is answered, or has failed.
    Done(Result<Answer, ServiceError>),
    /// The host is to perform the effect and hand its reply, with the query,
    /// to [`ServiceManager::resume`].
    Ask(Query, Effect),
}

/// The mathematical value of a [`QueryStep`].
pub ghost enum QueryStepView {
    Done(Result<AnswerView, ServiceErrorView>),
    Ask(QueryView, EffectView),
}

impl DeepView for QueryStep {
    type V = QueryStepView;

    open spec fn deep_view(&self) -> QueryStepView {
        match *self {
            QueryStep::Done(result) => QueryStepView::Done(result_view(result)),
            QueryStep::Ask(query, effect) => QueryStepView::Ask(query@, effect@),
        }
    }
}

impl View for QueryStep {
    type V = QueryStepView;

    open spec fn view(&self) -> QueryStepView {
        self.deep_view()
    }
}

/// The failure that ends a question when the host's reply was not asked for.
pub open spec fn unexpected() -> QueryStepView {
    QueryStepView::Done(Err(ServiceErrorView::Other(UNEXPECTED_REPLY@)))
}

/// An entry that stands for a service: a directory with a readable name that
/// is not hidden.
pub open spec fn visible(entry: DirEntryView) -> bool {
    entry.is_dir && entry.name is Some && !hidden_name(entry.name.unwrap())
}

/// The first entry at or after `from` that stands for a service, or the
/// number of entries if there is none.
pub open spec fn next_visible(entries: Seq<DirEntryView>, from: int) -> int
    decreases entries.len() - from,
{
    if from < 0 || from >= entries.len() {
        entries.len() as int
    } else if visible(entries[from]) {
        from
    } else {
        next_visible(entries, from + 1)
    }
}

impl ManagerView {
    /// The first step of a status question: the name is checked, then the
    /// status command is asked for.
    pub open spec fn status(self, service: Seq<char>) -> QueryStepView {
        if valid_service_name(service) {
            QueryStepView::Ask(
                QueryView::Status { service },
                EffectView::RunCommand {
                    program: self.sv_command,
                    subcommand: STATUS_SUBCOMMAND@,
                    service,
                },
            )
        } else {
            QueryStepView::Done(Err(ServiceErrorView::InvalidServiceName(service)))
        }
    }

    /// The first step of a question for a description.
    pub open spec fn service_description(self, service: Seq<char>) -> QueryStepView {
        if valid_service_name(service) {
            QueryStepView::Ask(
                QueryView::Describe { path: self.definition_path(service), candidate: 0 },
                EffectView::ReadText {
                    path: join_path(self.definition_path(service), candidate_name(0)),
                },
            )
        } else {
            QueryStepView::Done(Err(ServiceErrorView::InvalidServiceName(service)))
        }
    }

    /// The first step of a question for a log: at least one line is asked for.
    pub open spec fn tail_logs(self, service: Seq<char>, lines: usize) -> QueryStepView {
        if valid_service_name(service) {
            QueryStepView::Ask(
                QueryView::Logs { service },
                EffectView::TailLog {
                    service,
                    lines: if lines < 1 {
                        1
                    } else {
                        lines
                    },
                },
            )
        } else {
            QueryStepView::Done(Err(ServiceErrorView::InvalidServiceName(service)))
        }
    }

    /// The first step of an enumeration.
    pub open spec fn list_services(self) -> QueryStepView {
        QueryStepView::Ask(
            QueryView::Definitions,
            EffectView::ListDirectory { path: self.definitions_dir },
        )
    }

    /// Goes on with the first service at or after entry `from`: asks for its
    /// enabled marker, or ends the enumeration if no service is left.
    pub open spec fn advance(
        self,
        entries: Seq<DirEntryView>,
        from: int,
        found: Seq<ServiceInfoView>,
    ) -> QueryStepView {
        let next = next_visible(entries, from);
        if next < entries.len() {
            QueryStepView::Ask(
                QueryView::Enabled { listing: ListingView { entries, next, found } },
                EffectView::CheckExists { path: self.enabled_path(entries[next].name.unwrap()) },
            )
        } else {
            QueryStepView::Done(Ok(AnswerView::Services(found)))
        }
    }

    /// What follows the reply to the status command.
    pub open spec fn after_status(self, service: Seq<char>, reply: ReplyView) -> QueryStepView {
        match reply {
            ReplyView::Output(output) => QueryStepView::Done(
                match status_result(service, output) {
                    Ok(state) => Ok(AnswerView::State(state)),
                    Err(e) => Err(e),
                },
            ),
            ReplyView::Failed(why) => QueryStepView::Done(
                Err(ServiceErrorView::Io { source: why, path: self.sv_command }),
            ),
            _ => unexpected(),
        }
    }

    /// What follows the reading of one description file.
    pub open spec fn after_describe(
        self,
        path: Seq<char>,
        candidate: usize,
        reply: ReplyView,
    ) -> QueryStepView {
        match reply {
            ReplyView::Text(contents) => match description_in(contents) {
                Some(text) => QueryStepView::Done(Ok(AnswerView::Description(Some(text)))),
                None => if candidate + 1 < DESCRIPTION_CANDIDATES {
                    QueryStepView::Ask(
                        QueryView::Describe { path, candidate: (candidate + 1) as usize },
                        EffectView::ReadText {
                            path: join_path(path, candidate_name(candidate + 1)),
                        },
                    )
                } else {
                    QueryStepView::Done(Ok(AnswerView::Description(None)))
                },
            },
            _ => unexpected(),
        }
    }

    /// What follows the reading of a log.
    pub open spec fn after_logs(self, service: Seq<char>, reply: ReplyView) -> QueryStepView {
        match reply {
            ReplyView::Log(Some(lines)) => QueryStepView::Done(Ok(AnswerView::Log(lines))),
            ReplyView::Log(None) => QueryStepView::Done(
                Err(ServiceErrorView::LogUnavailable(service)),
            ),
            _ => unexpected(),
        }
    }

    /// What follows the listing of the definitions directory.
    pub open spec fn after_definitions(self, reply: ReplyView) -> QueryStepView {
        match reply {
            ReplyView::Entries(entries) => self.advance(entries, 0, Seq::empty()),
            ReplyView::Failed(why) => QueryStepView::Done(
                Err(ServiceErrorView::Io { source: why, path: self.definitions_dir }),
            ),
            _ => unexpected(),
        }
    }

    /// What follows the look for the current entry's enabled marker: its name
    /// is checked, then the status command is asked for.
    pub open spec fn after_enabled(self, listing: ListingView, reply: ReplyView) -> QueryStepView {
        match (reply, listing.current_name()) {
            (ReplyView::Exists(enabled), Some(name)) => if valid_service_name(name) {
                QueryStepView::Ask(
                    QueryView::State { listing, enabled },
                    EffectView::RunCommand {
                        program: self.sv_command,
                        subcommand: STATUS_SUBCOMMAND@,
                        service: name,
                    },
                )
            } else {
                QueryStepView::Done(Err(ServiceErrorView::InvalidServiceName(name)))
            },
            _ => unexpected(),
        }
    }

    /// What follows the status command for the current entry: a failure ends
    /// the whole enumeration.
    pub open spec fn after_state(
        self,
        listing: ListingView,
        enabled: bool,
        reply: ReplyView,
    ) -> QueryStepView {
        match (reply, listing.current_name()) {
            (ReplyView::Output(output), Some(name)) => match status_result(name, output) {
                Ok(state) => QueryStepView::Ask(
                    QueryView::Description { listing, enabled, state, candidate: 0 },
                    EffectView::ReadText {
                        path: join_path(self.definition_path(name), candidate_name(0)),
                    },
                ),
                Err(e) => QueryStepView::Done(Err(e)),
            },
            (ReplyView::Failed(why), Some(_)) => QueryStepView::Done(
                Err(ServiceErrorView::Io { source: why, path: self.sv_command }),
            ),
            _ => unexpected(),
        }
    }

    /// The enumeration once the current entry is done: its snapshot joins the
    /// services found, and the next service is looked at.
    pub open spec fn record(
        self,
        listing: ListingView,
        name: Seq<char>,
        enabled: bool,
        state: RuntimeStateView,
        description: Option<Seq<char>>,
    ) -> QueryStepView {
        match service_info(name, self.definition_path(name), enabled, state, description) {
            Some(info) => self.advance(
                listing.entries,
                listing.next + 1,
                insert_by_name(listing.found, info),
            ),
            None => self.advance(listing.entries, listing.next + 1, listing.found),
        }
    }

    /// What follows the reading of one description file of the current entry.
    pub open spec fn after_description(
        self,
        listing: ListingView,
        enabled: bool,
        state: RuntimeStateView,
        candidate: usize,
        reply: ReplyView,
    ) -> QueryStepView {
        match (reply, listing.current_name()) {
            (ReplyView::Text(contents), Some(name)) => match description_in(contents) {
                Some(text) => self.record(listing, name, enabled, state, Some(text)),
                None => if candidate + 1 < DESCRIPTION_CANDIDATES {
                    QueryStepView::Ask(
                        QueryView::Description {
                            listing,
                            enabled,
                            state,
                            candidate: (candidate + 1) as usize,
                        },
                        EffectView::ReadText {
                            path: join_path(
                                self.definition_path(name),
                                candidate_name(candidate + 1),
                            ),
                        },
                    )
                } else {
                    self.record(listing, name, enabled, state, None)
                },
            },
            _ => unexpected(),
        }
    }

    /// What follows the host's reply to the effect that `query` waits for.
    pub open spec fn resume(self, query: QueryView, reply: ReplyView) -> QueryStepView {
        match query {
            QueryView::Status { service } => self.after_status(service, reply),
            QueryView::Describe { path, candidate } => self.after_describe(
                path,
                candidate,
                reply,
            ),
            QueryView::Logs { service } => self.after_logs(service, reply),
            QueryView::Definitions => self.after_definitions(reply),
            QueryView::Enabled { listing } => self.after_enabled(listing, reply),
            QueryView::State { listing, enabled } => self.after_state(listing, enabled, reply),
            QueryView::Description { listing, enabled, state, candidate } => self.after_description(
                listing,
                enabled,
                state,
                candidate,
                reply,
            ),
        }
    }
}

fn unexpected_reply() -> (step: QueryStep)
    ensures
        step@ == unexpected(),
{
    QueryStep::Done(Err(ServiceError::Other(String::from_str(UNEXPECTED_REPLY))))
}

/// The name of the entry that `listing` is looking at.
fn current_name(listing: &Listing) -> (name: Option<String>)
    ensures
        name.deep_view() == listing@.current_name(),
{
    if listing.next < listing.entries.len() {
        assert(listing.entries.deep_view()[listing.next as int]
            == listing.entries@[listing.next as int]@);
        match &listing.entries[listing.next].name {
            Some(name) => Some(name.clone()),
            None => None,
        }
    } else {
        None
    }
}

fn is_visible(entry: &DirEntry) -> (r: bool)
    ensures
        r == visible(entry@),
{
    if !entry.is_dir {
        return false;
    }
    match &entry.name {
        Some(name) => !has_prefix(name.as_str(), HIDDEN_PREFIX),
        None => false,
    }
}

impl ServiceManager {
    /// Asks for the runtime state of `service`. A name that is not valid is
    /// refused before anything is asked of the host.
    pub fn status(&self, service: &str) -> (step: QueryStep)
        ensures
            step@ == self@.status(service@),
    {
        match self.validate_service_name(service) {
            Err(e) => QueryStep::Done(Err(e)),
            Ok(_) => QueryStep::Ask(
                Query::Status { service: String::from_str(service) },
                Effect::RunCommand {
                    program: String::from_str(self.sv_command_path()),
                    subcommand: String::from_str(STATUS_SUBCOMMAND),
                    service: String::from_str(service),
                },
            ),
        }
    }

    /// Asks for the description of `service`: the first line of the first of
    /// its description files that holds more than white space.
    pub fn service_description(&self, service: &str) -> (step: QueryStep)
        ensures
            step@ == self@.service_description(service@),
    {
        match self.validate_service_name(service) {
            Err(e) => QueryStep::Done(Err(e)),
            Ok(_) => {
                let path = self.definition_path(service);
                let file = join(path.as_str(), candidate(0));
                QueryStep::Ask(
                    Query::Describe { path, candidate: 0 },
                    Effect::ReadText { path: file },
                )
            },
        }
    }

    /// Asks for the last `lines` lines of the log of `service`, and for one
    /// line where `lines` is 0.
    pub fn tail_logs(&self, service: &str, lines: usize) -> (step: QueryStep)
        ensures
            step@ == self@.tail_logs(service@, lines),
    {
        match self.validate_service_name(service) {
            Err(e) => QueryStep::Done(Err(e)),
            Ok(_) => QueryStep::Ask(
                Query::Logs { service: String::from_str(service) },
                Effect::TailLog {
                    service: String::from_str(service),
                    lines: if lines < 1 {
                        1
                    } else {
                        lines
                    },
                },
            ),
        }
    }

    /// Asks for every service of the machine. The answer holds one snapshot
    /// for each directory under the definitions directory whose name is not
    /// hidden, in the order of the names' bytes; it fails as a whole if the
    /// directory cannot be listed or the status of one service cannot be had.
    pub fn list_services(&self) -> (step: QueryStep)
        ensures
            step@ == self@.list_services(),
    {
        QueryStep::Ask(
            Query::Definitions,
            Effect::ListDirectory { path: String::from_str(self.definitions_dir()) },
        )
    }

    fn advance(&self, entries: Vec<DirEntry>, from: usize, found: Vec<ServiceInfo>) -> (step:
        QueryStep)
        ensures
            step@ == self@.advance(entries.deep_view(), from as int, found.deep_view()),
    {
        let mut next: usize = from;
        while next < entries.len() && !is_visible(&entries[next])
            invariant
                from <= next,
                next_visible(entries.deep_view(), from as int) == next_visible(
                    entries.deep_view(),
                    next as int,
                ),
            decreases entries.len() - next,
        {
            assert(entries.deep_view()[next as int] == entries@[next as int]@);
            next += 1;
        }
        if next < entries.len() {
            assert(entries.deep_view()[next as int] == entries@[next as int]@);
            let path = match &entries[next].name {
                Some(name) => self.enabled_path(name.as_str()),
                None => String::new(),
            };
            QueryStep::Ask(
                Query::Enabled { listing: Listing { entries, next, found } },
                Effect::CheckExists { path },
            )
        } else {
            QueryStep::Done(Ok(Answer::Services(found)))
        }
    }

    fn after_status(&self, service: String, reply: Reply) -> (step: QueryStep)
        ensures
            step@ == self@.after_status(service@, reply@),
    {
        match reply {
            Reply::Output(output) => match interpret_status(service.as_str(), &output) {
                Ok(state) => QueryStep::Done(Ok(Answer::State(state))),
                Err(e) => QueryStep::Done(Err(e)),
            },
            Reply::Failed(why) => QueryStep::Done(
                Err(ServiceError::Io { source: why, path: String::from_str(self.sv_command_path()) }),
            ),
            _ => unexpected_reply(),
        }
    }

    fn after_describe(&self, path: String, candidate_index: usize, reply: Reply) -> (step:
        QueryStep)
        ensures
            step@ == self@.after_describe(path@, candidate_index, reply@),
    {
        match reply {
            Reply::Text(contents) => match read_description(&contents) {
                Some(text) => QueryStep::Done(Ok(Answer::Description(Some(text)))),
                None => if candidate_index < DESCRIPTION_CANDIDATES - 1 {
                    let file = join(path.as_str(), candidate(candidate_index + 1));
                    QueryStep::Ask(
                        Query::Describe { path, candidate: candidate_index + 1 },
                        Effect::ReadText { path: file },
                    )
                } else {
                    QueryStep::Done(Ok(Answer::Description(None)))
                },
            },
            _ => unexpected_reply(),
        }
    }

    fn after_logs(&self, service: String, reply: Reply) -> (step: QueryStep)
        ensures
            step@ == self@.after_logs(service@, reply@),
    {
        match reply {
            Reply::Log(Some(lines)) => QueryStep::Done(Ok(Answer::Log(lines))),
            Reply::Log(None) => QueryStep::Done(Err(ServiceError::LogUnavailable(service))),
            _ => unexpected_reply(),
        }
    }

    fn after_definitions(&self, reply: Reply) -> (step: QueryStep)
        ensures
            step@ == self@.after_definitions(reply@),
    {
        match reply {
            Reply::Entries(entries) => {
                let found: Vec<ServiceInfo> = Vec::new();
                assert(found.deep_view() =~= Seq::<ServiceInfoView>::empty());
                self.advance(entries, 0, found)
            },
            Reply::Failed(why) => QueryStep::Done(
                Err(ServiceError::Io { source: why, path: String::from_str(self.definitions_dir()) }),
            ),
            _ => unexpected_reply(),
        }
    }

    fn after_enabled(&self, listing: Listing, reply: Reply) -> (step: QueryStep)
        ensures
            step@ == self@.after_enabled(listing@, reply@),
    {
        match (reply, current_name(&listing)) {
            (Reply::Exists(enabled), Some(name)) => match self.validate_service_name(
                name.as_str(),
            ) {
                Err(e) => QueryStep::Done(Err(e)),
                Ok(_) => QueryStep::Ask(
                    Query::State { listing, enabled },
                    Effect::RunCommand {
                        program: String::from_str(self.sv_command_path()),
                        subcommand: String::from_str(STATUS_SUBCOMMAND),
                        service: name,
                    },
                ),
            },
            _ => unexpected_reply(),
        }
    }

    fn after_state(&self, listing: Listing, enabled: bool, reply: Reply) -> (step: QueryStep)
        ensures
            step@ == self@.after_state(listing@, enabled, reply@),
    {
        match (reply, current_name(&listing)) {
            (Reply::Output(output), Some(name)) => match interpret_status(
                name.as_str(),
                &output,
            ) {
                Ok(state) => {
                    let path = self.definition_path(name.as_str());
                    let file = join(path.as_str(), candidate(0));
                    QueryStep::Ask(
                        Query::Description { listing, enabled, state, candidate: 0 },
                        Effect::ReadText { path: file },
                    )
                },
                Err(e) => QueryStep::Done(Err(e)),
            },
            (Reply::Failed(why), Some(_)) => QueryStep::Done(
                Err(ServiceError::Io { source: why, path: String::from_str(self.sv_command_path()) }),
            ),
            _ => unexpected_reply(),
        }
    }

    fn record(
        &self,
        listing: Listing,
        name: String,
        enabled: bool,
        state: ServiceRuntimeState,
        description: Option<String>,
    ) -> (step: QueryStep)
        requires
            listing.next < listing.entries.len(),
        ensures
            step@ == self@.record(listing@, name@, enabled, state@, description.deep_view()),
    {
        let Listing { entries, next, found } = listing;
        let mut found = found;
        let path = self.definition_path(name.as_str());
        match self.build_service_info(name.as_str(), path.as_str(), enabled, state, description) {
            Some(info) => {
                insert_sorted(&mut found, info);
            },
            None => {},
        }
        self.advance(entries, next + 1, found)
    }

    fn after_description(
        &self,
        listing: Listing,
        enabled: bool,
        state: ServiceRuntimeState,
        candidate_index: usize,
        reply: Reply,
    ) -> (step: QueryStep)
        ensures
            step@ == self@.after_description(listing@, enabled, state@, candidate_index, reply@),
    {
        match (reply, current_name(&listing)) {
            (Reply::Text(contents), Some(name)) => match read_description(&contents) {
                Some(text) => self.record(listing, name, enabled, state, Some(text)),
                None => if candidate_index < DESCRIPTION_CANDIDATES - 1 {
                    let path = self.definition_path(name.as_str());
                    let file = join(path.as_str(), candidate(candidate_index + 1));
                    QueryStep::Ask(
                        Query::Description {
                            listing,
                            enabled,
                            state,
                            candidate: candidate_index + 1,
                        },
                        Effect::ReadText { path: file },
                    )
                } else {
                    self.record(listing, name, enabled, state, None)
                },
            },
            _ => unexpected_reply(),
        }
    }

    /// Goes on with `query` from the host's `reply` to the effect it waited
    /// for. A reply of another kind than the effect calls for ends the
    /// question with [`ServiceError::Other`].
    pub fn resume(&self, query: Query, reply: Reply) -> (step: QueryStep)
        ensures
            step@ == self@.resume(query@, reply@),
    {
        match query {
            Query::Status { service } => self.after_status(service, reply),
            Query::Describe { path, candidate } => self.after_describe(path, candidate, reply),
            Query::Logs { service } => self.after_logs(service, reply),
            Query::Definitions => self.after_definitions(reply),
            Query::Enabled { listing } => self.after_enabled(listing, reply),
            Query::State { listing, enabled } => self.after_state(listing, enabled, reply),
            Query::Description { listing, enabled, state, candidate } => self.after_description(
                listing,
                enabled,
                state,
                candidate,
                reply,
            ),
        }
    }
}

} // verus!
