use vstd::prelude::*;
use crate::error::{ComposeError, NO_PROJECTS};
use crate::project::{after_probe, DockerCompose};

verus! {

/// The outcome of one external operation on one project: its captured
/// output, or the reason it could not be launched.
pub type Outcome = Result<String, ComposeError>;

/// Runs `runner` once on every project, in order, and collects every outcome,
/// failures included, at the index of its project. No project is an error.
pub fn run_batch<F>(projects: &Vec<DockerCompose>, runner: &F) -> (r: Result<
    Vec<Outcome>,
    ComposeError,
>) where F: Fn(&DockerCompose) -> Outcome
    requires
        forall|i: int| 0 <= i < projects@.len() ==> runner.requires((&projects@[i],)),
    ensures
        r is Err <==> projects@.len() == 0,
        r matches Err(e) ==> e.err@ == NO_PROJECTS@,
        r matches Ok(outcomes) ==> {
            &&& outcomes@.len() == projects@.len()
            &&& forall|i: int|
                0 <= i < projects@.len() ==> runner.ensures((&projects@[i],), #[trigger] outcomes@[i])
        },
{
    if projects.len() == 0 {
        return Err(ComposeError::new(NO_PROJECTS));
    }
    let mut outcomes: Vec<Outcome> = Vec::new();
    let mut i: usize = 0;
    while i < projects.len()
        invariant
            i <= projects@.len(),
            outcomes@.len() == i,
            forall|k: int| 0 <= k < projects@.len() ==> runner.requires((&projects@[k],)),
            forall|k: int| 0 <= k < i ==> runner.ensures((&projects@[k],), #[trigger] outcomes@[k]),
        decreases projects.len() - i,
    {
        let outcome = runner(&projects[i]);
        outcomes.push(outcome);
        i = i + 1;
    }
    Ok(outcomes)
}

/// Takes in one probe outcome per project, at the same index: captured output
/// sets the project's state, a launch failure leaves it. No project is an
/// error.
pub fn refresh_composes_status(composes: &mut Vec<DockerCompose>, outcomes: &Vec<Outcome>) -> (r:
    Result<(), ComposeError>)
    requires
        outcomes@.len() == old(composes)@.len(),
    ensures
        r is Err <==> old(composes)@.len() == 0,
        r matches Err(e) ==> e.err@ == NO_PROJECTS@,
        final(composes)@.len() == old(composes)@.len(),
        forall|i: int|
            0 <= i < old(composes)@.len() ==> (#[trigger] final(composes)@[i])@ == after_probe(
                old(composes)@[i]@,
                outcomes@[i],
            ),
{
    if composes.len() == 0 {
        return Err(ComposeError::new(NO_PROJECTS));
    }
    let mut i: usize = 0;
    while i < composes.len()
        invariant
            i <= composes@.len(),
            composes@.len() == old(composes)@.len(),
            outcomes@.len() == composes@.len(),
            forall|k: int| 0 <= k < i ==> (#[trigger] composes@[k])@ == after_probe(
                old(composes)@[k]@,
                outcomes@[k],
            ),
            forall|k: int| i <= k < composes@.len() ==> #[trigger] composes@[k] == old(composes)@[k],
        decreases composes.len() - i,
    {
        let _ = composes[i].refresh_status(&outcomes[i]);
        i = i + 1;
    }
    Ok(())
}

} // verus!
