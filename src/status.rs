use vstd::prelude::*;

verus! {

/// Whether a project's containers are up.
#[derive(PartialEq, Eq, Structural, Clone, Copy, Debug)]
pub enum ComposeStatus {
    Start,
    Stop,
}

/// The state that a probe's captured output stands for: no output means
/// that nothing runs, any output at all means that something does.
pub open spec fn probe_status(output: Seq<char>) -> ComposeStatus {
    if output.len() == 0 {
        ComposeStatus::Stop
    } else {
        ComposeStatus::Start
    }
}

/// The state that a probe's captured output stands for.
pub fn status_of_output(output: &str) -> (r: ComposeStatus)
    ensures
        r == probe_status(output@),
{
    if output.is_empty() {
        ComposeStatus::Stop
    } else {
        ComposeStatus::Start
    }
}

/// The label under which a state is shown.
pub open spec fn status_label(s: ComposeStatus) -> Seq<char> {
    match s {
        ComposeStatus::Start => "Start"@,
        ComposeStatus::Stop => "Stop"@,
    }
}

impl ComposeStatus {
    /// The label under which the state is shown.
    pub fn label(&self) -> (r: &'static str)
        ensures
            r@ == status_label(*self),
    {
        match self {
            ComposeStatus::Start => "Start",
            ComposeStatus::Stop => "Stop",
        }
    }
}

} // verus!
