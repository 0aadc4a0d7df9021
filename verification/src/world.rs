//! A model of the host, for stating what a whole request does: what exists,
//! what can be listed, read and run, and how each effect changes it. Nothing
//! here runs; the model only gives the laws of the library something to speak
//! of.
use crate::helper::{ContextView, ProgressView};
use crate::host::{CommandOutputView, DirEntryView, EffectView, ReplyView};
use crate::service::ServiceLogEntryView;
use vstd::prelude::*;

verus! {

/// The state of a host.
pub ghost struct World {
    /// The paths at which something stands.
    pub paths: Set<Seq<char>>,
    /// The symbolic links, each with what it points to.
    pub links: Map<Seq<char>, Seq<char>>,
    /// The directories that can be listed, each with its entries.
    pub directories: Map<Seq<char>, Seq<DirEntryView>>,
    /// The files that can be read as text, each with its text.
    pub texts: Map<Seq<char>, Seq<char>>,
    /// The commands that can be run, by program, subcommand and service, each
    /// with what it leaves behind.
    pub commands: Map<(Seq<char>, Seq<char>, Seq<char>), CommandOutputView>,
    /// The logs that can be had, by service.
    pub logs: Map<Seq<char>, Seq<ServiceLogEntryView>>,
    /// The authority's decisions, by action, service and operation: whether
    /// the caller is authorized, and whether it was challenged.
    pub decisions: Map<(Seq<char>, Seq<char>, Seq<char>), (bool, bool)>,
    /// What the host says when it cannot do what was asked.
    pub failure: Seq<char>,
}

/// The last `n` entries of `s`, or all of `s` if it has fewer.
pub open spec fn last_entries<A>(s: Seq<A>, n: int) -> Seq<A> {
    if n >= s.len() {
        s
    } else {
        s.skip(s.len() - n)
    }
}

impl World {
    /// What the host answers to `effect`, and the state it is in afterwards.
    /// Only making and removing a link change the state: a link can be made
    /// where nothing stands yet, and removed where something stands.
    pub open spec fn answer(self, effect: EffectView) -> (World, ReplyView) {
        match effect {
            EffectView::ListDirectory { path } => if self.directories.contains_key(path) {
                (self, ReplyView::Entries(self.directories[path]))
            } else {
                (self, ReplyView::Failed(self.failure))
            },
            EffectView::CheckExists { path } => (self, ReplyView::Exists(self.paths.contains(path))),
            EffectView::ReadText { path } => if self.texts.contains_key(path) {
                (self, ReplyView::Text(Some(self.texts[path])))
            } else {
                (self, ReplyView::Text(None))
            },
            EffectView::RunCommand { program, subcommand, service } => if self.commands.contains_key(
                (program, subcommand, service),
            ) {
                (self, ReplyView::Output(self.commands[(program, subcommand, service)]))
            } else {
                (self, ReplyView::Failed(self.failure))
            },
            EffectView::CreateSymlink { target, link } => if self.paths.contains(link) {
                (self, ReplyView::Failed(self.failure))
            } else {
                (
                    World {
                        paths: self.paths.insert(link),
                        links: self.links.insert(link, target),
                        ..self
                    },
                    ReplyView::Done,
                )
            },
            EffectView::RemoveFile { path } => if self.paths.contains(path) {
                (
                    World { paths: self.paths.remove(path), links: self.links.remove(path), ..self },
                    ReplyView::Done,
                )
            } else {
                (self, ReplyView::Failed(self.failure))
            },
            EffectView::TailLog { service, lines } => if self.logs.contains_key(service) {
                (self, ReplyView::Log(Some(last_entries(self.logs[service], lines as int))))
            } else {
                (self, ReplyView::Log(None))
            },
            EffectView::CheckAuthorization {
                action_id,
                service,
                operation,
            } => if self.decisions.contains_key((action_id, service, operation)) {
                (
                    self,
                    ReplyView::Authorization {
                        is_authorized: self.decisions[(action_id, service, operation)].0,
                        is_challenge: self.decisions[(action_id, service, operation)].1,
                    },
                )
            } else {
                (self, ReplyView::Failed(self.failure))
            },
        }
    }
}

/// Where a request stands, and the host with it, after the host has answered
/// up to `steps` of its effects.
pub open spec fn run(context: ContextView, progress: ProgressView, world: World, steps: nat) -> (
    ProgressView,
    World,
)
    decreases steps,
{
    match progress {
        ProgressView::Waiting(task, effect) => if steps == 0 {
            (progress, world)
        } else {
            let (next, reply) = world.answer(effect);
            run(context, context.resume(task, reply), next, (steps - 1) as nat)
        },
        ProgressView::Finished(_) => (progress, world),
    }
}

} // verus!
