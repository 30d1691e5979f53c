use vstd::prelude::*;

verus! {

/// The message of the error raised when a batch is asked for with no projects.
pub const NO_PROJECTS: &'static str = "没有找到任何项目";

/// The message of the error raised for a command that names no operation.
pub const UNKNOWN_COMMAND: &'static str = "未知命令";

/// The prefix of the error raised when an external process cannot be launched.
pub const LAUNCH_FAILED: &'static str = "执行命令失败: ";

/// An error of the library: a message meant for the user.
#[derive(Debug)]
pub struct ComposeError {
    pub err: String,
}

impl ComposeError {
    pub fn new(err: &str) -> (r: ComposeError)
        ensures
            r.err@ == err@,
    {
        ComposeError { err: String::from_str(err) }
    }

    /// The message carried by the error.
    pub fn message(&self) -> (r: &str)
        ensures
            r@ == self.err@,
    {
        self.err.as_str()
    }

    /// A copy of the error with the same message.
    pub fn duplicate(&self) -> (r: ComposeError)
        ensures
            r.err@ == self.err@,
    {
        ComposeError { err: self.err.clone() }
    }

    /// The error for an external process that could not be launched, given
    /// the operating system's description of the failure.
    pub fn launch_failed(reason: &str) -> (r: ComposeError)
        ensures
            r.err@ == LAUNCH_FAILED@ + reason@,
    {
        let mut err = String::from_str(LAUNCH_FAILED);
        err.append(reason);
        ComposeError { err }
    }
}

/// Builds an error that carries `error` as its message.
pub fn ba_error(error: &str) -> (r: ComposeError)
    ensures
        r.err@ == error@,
{
    ComposeError::new(error)
}

} // verus!
