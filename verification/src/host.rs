//! What the library asks of the machine it runs on, and what the machine
//! answers. The library itself touches no file and starts no process: it
//! hands out one [`Effect`] at a time and goes on from the [`Reply`].
use crate::service::{ServiceLogEntry, ServiceLogEntryView};
use vstd::prelude::*;
use vstd::string::*;

verus! {

/// One entry of a directory.
#[derive(Debug, PartialEq, Eq)]
pub struct DirEntry {
    /// The entry's name; `None` where it is no valid text.
    pub name: Option<String>,
    /// Whether the entry is a directory, or a link to one.
    pub is_dir: bool,
}

/// The mathematical value of a [`DirEntry`].
pub ghost struct DirEntryView {
    pub name: Option<Seq<char>>,
    pub is_dir: bool,
}

impl DeepView for DirEntry {
    type V = DirEntryView;

    open spec fn deep_view(&self) -> DirEntryView {
        DirEntryView { name: self.name.deep_view(), is_dir: self.is_dir }
    }
}

impl View for DirEntry {
    type V = DirEntryView;

    open spec fn view(&self) -> DirEntryView {
        self.deep_view()
    }
}

/// What a finished command left behind.
#[derive(Debug, PartialEq, Eq)]
pub struct CommandOutput {
    /// Whether the process reported success.
    pub success: bool,
    /// Its exit code, if it ended with one.
    pub code: Option<i32>,
    /// How the host describes the way the process ended.
    pub status: String,
    /// What it wrote to standard output, as text.
    pub stdout: String,
    /// What it wrote to standard error, as text.
    pub stderr: String,
}

/// The mathematical value of a [`CommandOutput`].
pub ghost struct CommandOutputView {
    pub success: bool,
    pub code: Option<i32>,
    pub status: Seq<char>,
    pub stdout: Seq<char>,
    pub stderr: Seq<char>,
}

impl DeepView for CommandOutput {
    type V = CommandOutputView;

    open spec fn deep_view(&self) -> CommandOutputView {
        CommandOutputView {
            success: self.success,
            code: self.code,
            status: self.status@,
            stdout: self.stdout@,
            stderr: self.stderr@,
        }
    }
}

impl View for CommandOutput {
    type V = CommandOutputView;

    open spec fn view(&self) -> CommandOutputView {
        self.deep_view()
    }
}

/// One thing for the host to do.
#[derive(Debug, PartialEq, Eq)]
pub enum Effect {
    /// List the entries of the directory at `path`.
    ListDirectory { path: String },
    /// Say whether anything stands at `path`.
    CheckExists { path: String },
    /// Read the file at `path` as text.
    ReadText { path: String },
    /// Run `program` with the two arguments `subcommand` and `service`, and
    /// wait for it.
    RunCommand { program: String, subcommand: String, service: String },
    /// Make `link` a symbolic link to `target`.
    CreateSymlink { target: String, link: String },
    /// Remove the file or link at `path`.
    RemoveFile { path: String },
    /// Give the last `lines` lines of the log of `service`.
    TailLog { service: String, lines: usize },
    /// Ask the authority whether the caller may do `operation` on `service`
    /// under the action `action_id`.
    CheckAuthorization { action_id: String, service: String, operation: String },
}

/// The mathematical value of an [`Effect`].
pub ghost enum EffectView {
    ListDirectory { path: Seq<char> },
    CheckExists { path: Seq<char> },
    ReadText { path: Seq<char> },
    RunCommand { program: Seq<char>, subcommand: Seq<char>, service: Seq<char> },
    CreateSymlink { target: Seq<char>, link: Seq<char> },
    RemoveFile { path: Seq<char> },
    TailLog { service: Seq<char>, lines: usize },
    CheckAuthorization { action_id: Seq<char>, service: Seq<char>, operation: Seq<char> },
}

impl DeepView for Effect {
    type V = EffectView;

    open spec fn deep_view(&self) -> EffectView {
        match *self {
            Effect::ListDirectory { path } => EffectView::ListDirectory { path: path@ },
            Effect::CheckExists { path } => EffectView::CheckExists { path: path@ },
            Effect::ReadText { path } => EffectView::ReadText { path: path@ },
            Effect::RunCommand { program, subcommand, service } => EffectView::RunCommand {
                program: program@,
                subcommand: subcommand@,
                service: service@,
            },
            Effect::CreateSymlink { target, link } => EffectView::CreateSymlink {
                target: target@,
                link: link@,
            },
            Effect::RemoveFile { path } => EffectView::RemoveFile { path: path@ },
            Effect::TailLog { service, lines } => EffectView::TailLog { service: service@, lines },
            Effect::CheckAuthorization {
                action_id,
                service,
                operation,
            } => EffectView::CheckAuthorization {
                action_id: action_id@,
                service: service@,
                operation: operation@,
            },
        }
    }
}

impl View for Effect {
    type V = EffectView;

    open spec fn view(&self) -> EffectView {
        self.deep_view()
    }
}

/// What the host answers to an [`Effect`].
#[derive(Debug, PartialEq, Eq)]
pub enum Reply {
    /// The entries of the directory, to [`Effect::ListDirectory`].
    Entries(Vec<DirEntry>),
    /// Whether the path exists, to [`Effect::CheckExists`].
    Exists(bool),
    /// The file's text, or `None` where it cannot be read as text, to
    /// [`Effect::ReadText`].
    Text(Option<String>),
    /// What the command left behind, to [`Effect::RunCommand`].
    Output(CommandOutput),
    /// The link was made or the file removed.
    Done,
    /// The log's lines, or `None` where the log cannot be had, to
    /// [`Effect::TailLog`].
    Log(Option<Vec<ServiceLogEntry>>),
    /// The authority's decision, to [`Effect::CheckAuthorization`].
    Authorization { is_authorized: bool, is_challenge: bool },
    /// The host could not do it, and says why.
    Failed(String),
}

/// The mathematical value of a [`Reply`].
pub ghost enum ReplyView {
    Entries(Seq<DirEntryView>),
    Exists(bool),
    Text(Option<Seq<char>>),
    Output(CommandOutputView),
    Done,
    Log(Option<Seq<ServiceLogEntryView>>),
    Authorization { is_authorized: bool, is_challenge: bool },
    Failed(Seq<char>),
}

impl DeepView for Reply {
    type V = ReplyView;

    open spec fn deep_view(&self) -> ReplyView {
        match *self {
            Reply::Entries(entries) => ReplyView::Entries(entries.deep_view()),
            Reply::Exists(exists) => ReplyView::Exists(exists),
            Reply::Text(text) => ReplyView::Text(text.deep_view()),
            Reply::Output(output) => ReplyView::Output(output@),
            Reply::Done => ReplyView::Done,
            Reply::Log(lines) => ReplyView::Log(lines.deep_view()),
            Reply::Authorization { is_authorized, is_challenge } => ReplyView::Authorization {
                is_authorized,
                is_challenge,
            },
            Reply::Failed(why) => ReplyView::Failed(why@),
        }
    }
}

impl View for Reply {
    type V = ReplyView;

    open spec fn view(&self) -> ReplyView {
        self.deep_view()
    }
}

/// `dir` with `name` under it: the two joined by a slash, unless `dir` is
/// empty or ends in one.
pub open spec fn join_path(dir: Seq<char>, name: Seq<char>) -> Seq<char> {
    if dir.len() == 0 || dir.last() == '/' {
        dir + name
    } else {
        dir + seq!['/'] + name
    }
}

/// The path of `name` under the directory `dir`.
pub fn join(dir: &str, name: &str) -> (path: String)
    ensures
        path@ == join_path(dir@, name@),
{
    let n = dir.unicode_len();
    let mut path = String::from_str(dir);
    if n > 0 && dir.get_char(n - 1) != '/' {
        proof {
            reveal_strlit("/");
            assert("/"@ =~= seq!['/']);
        }
        path.append("/");
    }
    path.append(name);
    path
}

} // verus!
