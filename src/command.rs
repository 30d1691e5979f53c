use vstd::prelude::*;
use crate::status::ComposeStatus;
use crate::text::text_eq;

verus! {

/// An operation that can be carried out on every project of a batch.
#[derive(PartialEq, Eq, Structural, Clone, Copy, Debug)]
pub enum ComposeCommand {
    Start,
    Stop,
    Restart,
    Logs,
    Unknown,
}

/// The operation that a command name stands for.
pub open spec fn command_named(name: Seq<char>) -> ComposeCommand {
    if name == "start"@ {
        ComposeCommand::Start
    } else if name == "stop"@ {
        ComposeCommand::Stop
    } else if name == "restart"@ {
        ComposeCommand::Restart
    } else if name == "logs"@ {
        ComposeCommand::Logs
    } else {
        ComposeCommand::Unknown
    }
}

/// The arguments handed to the compose tool for an operation; none for
/// `Unknown`.
pub open spec fn subcommand_of(c: ComposeCommand) -> Option<Seq<char>> {
    match c {
        ComposeCommand::Start => Some("up -d"@),
        ComposeCommand::Stop => Some("down"@),
        ComposeCommand::Restart => Some("restart"@),
        ComposeCommand::Logs => Some("logs"@),
        ComposeCommand::Unknown => None,
    }
}

/// The state a project must be in for the operation to apply to it.
pub open spec fn required_status(c: ComposeCommand) -> ComposeStatus {
    match c {
        ComposeCommand::Start => ComposeStatus::Stop,
        _ => ComposeStatus::Start,
    }
}

/// The state an operation aims to bring a project to, where it changes the
/// state at all.
pub open spec fn target_status(c: ComposeCommand) -> Option<ComposeStatus> {
    match c {
        ComposeCommand::Start => Some(ComposeStatus::Start),
        ComposeCommand::Stop => Some(ComposeStatus::Stop),
        _ => None,
    }
}

/// The verb under which an operation is announced to the user.
pub open spec fn verb_of(c: ComposeCommand) -> Seq<char> {
    match c {
        ComposeCommand::Start => "启动"@,
        ComposeCommand::Stop => "关闭"@,
        ComposeCommand::Restart => "重启"@,
        ComposeCommand::Logs => "日志"@,
        ComposeCommand::Unknown => "未知命令"@,
    }
}

impl ComposeCommand {
    /// The operation named by `name`; `Unknown` for any other name.
    pub fn parse(name: &str) -> (r: ComposeCommand)
        ensures
            r == command_named(name@),
    {
        if text_eq(name, "start") {
            ComposeCommand::Start
        } else if text_eq(name, "stop") {
            ComposeCommand::Stop
        } else if text_eq(name, "restart") {
            ComposeCommand::Restart
        } else if text_eq(name, "logs") {
            ComposeCommand::Logs
        } else {
            ComposeCommand::Unknown
        }
    }

    /// The arguments handed to the compose tool for this operation.
    pub fn subcommand(&self) -> (r: Option<&'static str>)
        ensures
            match subcommand_of(*self) {
                Some(s) => r is Some && r->Some_0@ == s,
                None => r is None,
            },
    {
        match self {
            ComposeCommand::Start => Some("up -d"),
            ComposeCommand::Stop => Some("down"),
            ComposeCommand::Restart => Some("restart"),
            ComposeCommand::Logs => Some("logs"),
            ComposeCommand::Unknown => None,
        }
    }

    /// The state a project must be in for this operation to apply to it.
    pub fn required_status(&self) -> (r: ComposeStatus)
        ensures
            r == required_status(*self),
    {
        match self {
            ComposeCommand::Start => ComposeStatus::Stop,
            _ => ComposeStatus::Start,
        }
    }

    /// The verb under which this operation is announced to the user.
    pub fn verb(&self) -> (r: &'static str)
        ensures
            r@ == verb_of(*self),
    {
        match self {
            ComposeCommand::Start => "启动",
            ComposeCommand::Stop => "关闭",
            ComposeCommand::Restart => "重启",
            ComposeCommand::Logs => "日志",
            ComposeCommand::Unknown => "未知命令",
        }
    }
}

} // verus!
