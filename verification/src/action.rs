//! The actions that a caller may ask for by name.
use crate::text::same_text;
use vstd::prelude::*;
use vstd::string::*;

verus! {

/// A privileged action on one service.
#[derive(Debug, Clone, Copy, PartialEq, Eq, Structural)]
pub enum ActionKind {
    Start,
    Stop,
    Restart,
    Reload,
    Check,
    Once,
    Enable,
    Disable,
}

impl ActionKind {
    /// The name by which a caller asks for this action.
    pub open spec fn name(self) -> Seq<char> {
        match self {
            ActionKind::Start => "start"@,
            ActionKind::Stop => "stop"@,
            ActionKind::Restart => "restart"@,
            ActionKind::Reload => "reload"@,
            ActionKind::Check => "check"@,
            ActionKind::Once => "once"@,
            ActionKind::Enable => "enable"@,
            ActionKind::Disable => "disable"@,
        }
    }

    /// The action that `name` asks for, if it names one.
    pub open spec fn named(name: Seq<char>) -> Option<ActionKind> {
        if name == "start"@ {
            Some(ActionKind::Start)
        } else if name == "stop"@ {
            Some(ActionKind::Stop)
        } else if name == "restart"@ {
            Some(ActionKind::Restart)
        } else if name == "reload"@ {
            Some(ActionKind::Reload)
        } else if name == "check"@ {
            Some(ActionKind::Check)
        } else if name == "once"@ {
            Some(ActionKind::Once)
        } else if name == "enable"@ {
            Some(ActionKind::Enable)
        } else if name == "disable"@ {
            Some(ActionKind::Disable)
        } else {
            None
        }
    }

    /// The supervisor's subcommand that carries this action out; `None` for
    /// enabling and disabling, which the supervisor has no part in.
    pub open spec fn subcommand(self) -> Option<Seq<char>> {
        match self {
            ActionKind::Start => Some("up"@),
            ActionKind::Stop => Some("down"@),
            ActionKind::Restart => Some("restart"@),
            ActionKind::Reload => Some("reload"@),
            ActionKind::Check => Some("check"@),
            ActionKind::Once => Some("once"@),
            ActionKind::Enable => None,
            ActionKind::Disable => None,
        }
    }

    /// The action that `name` asks for, if it names one.
    pub fn parse(name: &str) -> (r: Option<Self>)
        ensures
            r == ActionKind::named(name@),
    {
        if same_text(name, "start") {
            Some(ActionKind::Start)
        } else if same_text(name, "stop") {
            Some(ActionKind::Stop)
        } else if same_text(name, "restart") {
            Some(ActionKind::Restart)
        } else if same_text(name, "reload") {
            Some(ActionKind::Reload)
        } else if same_text(name, "check") {
            Some(ActionKind::Check)
        } else if same_text(name, "once") {
            Some(ActionKind::Once)
        } else if same_text(name, "enable") {
            Some(ActionKind::Enable)
        } else if same_text(name, "disable") {
            Some(ActionKind::Disable)
        } else {
            None
        }
    }

    /// The name by which a caller asks for this action.
    pub fn as_str(self) -> (r: &'static str)
        ensures
            r@ == self.name(),
    {
        match self {
            ActionKind::Start => "start",
            ActionKind::Stop => "stop",
            ActionKind::Restart => "restart",
            ActionKind::Reload => "reload",
            ActionKind::Check => "check",
            ActionKind::Once => "once",
            ActionKind::Enable => "enable",
            ActionKind::Disable => "disable",
        }
    }

    /// The supervisor's subcommand that carries this action out.
    pub fn supervisor_subcommand(self) -> (r: Option<&'static str>)
        ensures
            r.deep_view() == self.subcommand(),
    {
        match self {
            ActionKind::Start => Some("up"),
            ActionKind::Stop => Some("down"),
            ActionKind::Restart => Some("restart"),
            ActionKind::Reload => Some("reload"),
            ActionKind::Check => Some("check"),
            ActionKind::Once => Some("once"),
            ActionKind::Enable => None,
            ActionKind::Disable => None,
        }
    }

    /// Every action is found again by its own name.
    pub proof fn law_name_round_trip(self)
        ensures
            ActionKind::named(self.name()) == Some(self),
    {
        reveal_strlit("start");
        reveal_strlit("stop");
        reveal_strlit("restart");
        reveal_strlit("reload");
        reveal_strlit("check");
        reveal_strlit("once");
        reveal_strlit("enable");
        reveal_strlit("disable");
        assert("start"@.len() == 5 && "start"@[0] == 's');
        assert("stop"@.len() == 4 && "stop"@[0] == 's');
        assert("restart"@.len() == 7 && "restart"@[0] == 'r');
        assert("reload"@.len() == 6 && "reload"@[0] == 'r');
        assert("check"@.len() == 5 && "check"@[0] == 'c');
        assert("once"@.len() == 4 && "once"@[0] == 'o');
        assert("enable"@.len() == 6 && "enable"@[0] == 'e');
        assert("disable"@.len() == 7 && "disable"@[0] == 'd');
    }
}

} // verus!
