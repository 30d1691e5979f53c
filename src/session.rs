use vstd::prelude::*;
use crate::batch::{refresh_composes_status, Outcome};
use crate::command::{command_named, required_status, target_status, ComposeCommand};
use crate::confirm::{confirms, is_yes, trimmed};
use crate::error::{ComposeError, NO_PROJECTS, UNKNOWN_COMMAND};
use crate::locate::views;
use crate::project::{after_probe, DockerCompose, ProjectView};
use crate::text::text_eq;

verus! {

/// What a run of the program was asked to do.
#[derive(PartialEq, Eq, Structural, Clone, Copy, Debug)]
pub enum Plan {
    /// Probe every project and show the table.
    Status,
    /// Carry out an operation on the projects it applies to.
    Run(ComposeCommand),
    /// Start every project of a fixed list, without a first probe.
    StartList,
}

/// The plan that a command name stands for; none for a name that is neither
/// an operation nor one of the meta-commands `status` and `start_list`.
pub open spec fn plan_named(name: Seq<char>) -> Option<Plan> {
    if command_named(name) != ComposeCommand::Unknown {
        Some(Plan::Run(command_named(name)))
    } else if name == "status"@ {
        Some(Plan::Status)
    } else if name == "start_list"@ {
        Some(Plan::StartList)
    } else {
        None
    }
}

/// The operation that a plan carries out, if any.
pub open spec fn plan_command(p: Plan) -> ComposeCommand {
    match p {
        Plan::Status => ComposeCommand::Unknown,
        Plan::Run(c) => c,
        Plan::StartList => ComposeCommand::Start,
    }
}

/// The plan named by a command; an error for an unknown command.
pub fn plan_of(name: &str) -> (r: Result<Plan, ComposeError>)
    ensures
        match plan_named(name@) {
            Some(p) => r matches Ok(q) && q == p,
            None => r matches Err(e) && e.err@ == UNKNOWN_COMMAND@,
        },
{
    let c = ComposeCommand::parse(name);
    if c != ComposeCommand::Unknown {
        Ok(Plan::Run(c))
    } else if text_eq(name, "status") {
        Ok(Plan::Status)
    } else if text_eq(name, "start_list") {
        Ok(Plan::StartList)
    } else {
        Err(ComposeError::new(UNKNOWN_COMMAND))
    }
}

/// The projects of `ps` that `c` applies to, in order.
pub open spec fn selection(ps: Seq<ProjectView>, c: ComposeCommand) -> Seq<ProjectView>
    decreases ps.len(),
{
    if ps.len() == 0 {
        Seq::empty()
    } else {
        let rest = selection(ps.drop_last(), c);
        if ps.last().status == required_status(c) {
            rest.push(ps.last())
        } else {
            rest
        }
    }
}

/// The projects after one probe outcome each, at the same index.
pub open spec fn after_probes(ps: Seq<ProjectView>, os: Seq<Outcome>) -> Seq<ProjectView> {
    Seq::new(ps.len(), |i: int| after_probe(ps[i], os[i]))
}

/// Copies of the projects that `command` applies to, in order.
pub fn select_for(projects: &Vec<DockerCompose>, command: &ComposeCommand) -> (r: Vec<
    DockerCompose,
>)
    ensures
        views(r@) == selection(views(projects@), *command),
{
    let need = command.required_status();
    let mut found: Vec<DockerCompose> = Vec::new();
    let mut i: usize = 0;
    while i < projects.len()
        invariant
            i <= projects@.len(),
            need == required_status(*command),
            views(found@) == selection(views(projects@).subrange(0, i as int), *command),
        decreases projects.len() - i,
    {
        proof {
            let pre = views(projects@).subrange(0, i + 1);
            assert(pre.drop_last() =~= views(projects@).subrange(0, i as int));
            assert(pre.last() == projects@[i as int]@);
        }
        if projects[i].status == need {
            let p = projects[i].duplicate();
            let ghost before = found@;
            found.push(p);
            assert(views(found@) =~= views(before).push(p@));
        }
        i = i + 1;
    }
    assert(views(projects@).subrange(0, projects@.len() as int) =~= views(projects@));
    found
}

/// Copies of all the projects, in order.
fn copy_all(projects: &Vec<DockerCompose>) -> (r: Vec<DockerCompose>)
    ensures
        views(r@) == views(projects@),
{
    let mut copies: Vec<DockerCompose> = Vec::new();
    let mut i: usize = 0;
    while i < projects.len()
        invariant
            i <= projects@.len(),
            views(copies@) =~= views(projects@).subrange(0, i as int),
        decreases projects.len() - i,
    {
        let p = projects[i].duplicate();
        let ghost before = copies@;
        copies.push(p);
        assert(views(copies@) =~= views(before).push(p@));
        i = i + 1;
    }
    assert(views(copies@) =~= views(projects@));
    copies
}

/// Where a run of the pipeline stands.
#[derive(PartialEq, Eq, Structural, Clone, Copy, Debug)]
pub enum Stage {
    /// Every project is to be probed.
    Probing,
    /// The selected projects wait for the user's consent.
    Confirming,
    /// The operation is to be carried out on the selected projects.
    Executing,
    /// Every project is to be probed again after the operation.
    Reprobing,
    /// The table of all projects is to be shown.
    Presenting,
    /// No project matched; this is to be reported.
    NoMatch,
    /// Nothing is left to do.
    Done,
}

/// What the program around the pipeline is to do next.
#[derive(PartialEq, Eq, Structural, Clone, Copy, Debug)]
pub enum Action {
    /// Probe every project and hand back one outcome per project.
    ProbeAll,
    /// Show the selected projects, ask the user and hand back the answer.
    AskConfirm,
    /// Carry out the operation on every selected project and hand back one
    /// outcome per selected project.
    Execute(ComposeCommand),
    /// Show every project with its state.
    ShowAll,
    /// Report that no project matched.
    ReportNoMatch,
    /// Stop.
    Finish,
}

/// What the program around the pipeline hands back after an action.
pub enum Event {
    /// The outcomes of a batch, one per project, at the same index.
    Outcomes(Vec<Outcome>),
    /// The line the user typed.
    Answer(String),
    /// Something was shown to the user.
    Shown,
}

/// The event hands back a batch of `n` outcomes.
pub open spec fn batch_of_len(e: Event, n: nat) -> bool {
    match e {
        Event::Outcomes(o) => o@.len() == n,
        _ => false,
    }
}

/// The outcomes that an event hands back; none for another event.
pub open spec fn outcomes_of(e: Event) -> Seq<Outcome> {
    match e {
        Event::Outcomes(o) => o@,
        _ => Seq::empty(),
    }
}

/// The line that an event hands back; nothing for another event.
pub open spec fn answer_of(e: Event) -> Seq<char> {
    match e {
        Event::Answer(a) => a@,
        _ => Seq::empty(),
    }
}

/// The action that stands next at a stage.
pub open spec fn action_at(stage: Stage, plan: Plan) -> Action {
    match stage {
        Stage::Probing => Action::ProbeAll,
        Stage::Confirming => Action::AskConfirm,
        Stage::Executing => Action::Execute(plan_command(plan)),
        Stage::Reprobing => Action::ProbeAll,
        Stage::Presenting => Action::ShowAll,
        Stage::NoMatch => Action::ReportNoMatch,
        Stage::Done => Action::Finish,
    }
}

/// One run of the pipeline: locate, probe, select, confirm, act, probe
/// again, show.
pub struct Session {
    pub plan: Plan,
    /// Every located project, with its last known state.
    pub projects: Vec<DockerCompose>,
    /// The projects that the operation is to be carried out on.
    pub selected: Vec<DockerCompose>,
    pub stage: Stage,
}

impl Session {
    /// A run of `plan` over `projects`. A fixed start list skips the first
    /// probe and selects every project; the other plans begin by probing. No
    /// project is an error.
    pub fn new(plan: Plan, projects: Vec<DockerCompose>) -> (r: Result<Session, ComposeError>)
        ensures
            r is Err <==> projects@.len() == 0,
            r matches Err(e) ==> e.err@ == NO_PROJECTS@,
            r matches Ok(s) ==> {
                &&& s.plan == plan
                &&& s.projects == projects
                &&& plan == Plan::StartList ==> s.stage == Stage::Confirming && views(s.selected@)
                    == views(projects@)
                &&& plan != Plan::StartList ==> s.stage == Stage::Probing && s.selected@.len()
                    == 0
            },
    {
        if projects.len() == 0 {
            return Err(ComposeError::new(NO_PROJECTS));
        }
        if plan == Plan::StartList {
            let selected = copy_all(&projects);
            Ok(Session { plan, projects, selected, stage: Stage::Confirming })
        } else {
            Ok(Session { plan, projects, selected: Vec::new(), stage: Stage::Probing })
        }
    }

    /// What is to be done next.
    pub fn action(&self) -> (r: Action)
        ensures
            r == action_at(self.stage, self.plan),
    {
        match self.stage {
            Stage::Probing => Action::ProbeAll,
            Stage::Confirming => Action::AskConfirm,
            Stage::Executing => match self.plan {
                Plan::Status => Action::Execute(ComposeCommand::Unknown),
                Plan::Run(c) => Action::Execute(c),
                Plan::StartList => Action::Execute(ComposeCommand::Start),
            },
            Stage::Reprobing => Action::ProbeAll,
            Stage::Presenting => Action::ShowAll,
            Stage::NoMatch => Action::ReportNoMatch,
            Stage::Done => Action::Finish,
        }
    }

    /// Takes in what came of the pending action and moves on; an event that
    /// does not answer the pending action is refused and changes nothing.
    /// A probe sets the states, and selects the projects the operation
    /// applies to; an answer other than `y` or `yes` ends the run; the
    /// operation itself changes no state; logs end the run once fetched.
    pub fn step(&mut self, event: &Event) -> (accepted: bool)
        ensures
            !accepted ==> *final(self) == *old(self),
            final(self).plan == old(self).plan,
            old(self).stage == Stage::Done ==> !accepted,
            old(self).stage == Stage::Probing ==> (accepted <==> batch_of_len(
                *event,
                old(self).projects@.len(),
            )),
            old(self).stage == Stage::Probing && accepted ==> {
                &&& views(final(self).projects@) == after_probes(
                    views(old(self).projects@),
                    outcomes_of(*event),
                )
                &&& match old(self).plan {
                    Plan::Run(c) => {
                        &&& views(final(self).selected@) == selection(
                            views(final(self).projects@),
                            c,
                        )
                        &&& final(self).stage == if final(self).selected@.len() == 0 {
                            Stage::NoMatch
                        } else {
                            Stage::Confirming
                        }
                    },
                    _ => final(self).stage == Stage::Presenting && final(self).selected == old(
                        self,
                    ).selected,
                }
            },
            old(self).stage == Stage::Confirming ==> (accepted <==> event is Answer),
            old(self).stage == Stage::Confirming && accepted ==> {
                &&& final(self).projects == old(self).projects
                &&& final(self).selected == old(self).selected
                &&& final(self).stage == stage_after_answer(answer_of(*event))
            },
            old(self).stage == Stage::Executing ==> (accepted <==> batch_of_len(
                *event,
                old(self).selected@.len(),
            )),
            old(self).stage == Stage::Executing && accepted ==> {
                &&& final(self).projects == old(self).projects
                &&& final(self).selected == old(self).selected
                &&& final(self).stage == if plan_command(old(self).plan) == ComposeCommand::Logs {
                    Stage::Done
                } else {
                    Stage::Reprobing
                }
            },
            old(self).stage == Stage::Reprobing ==> (accepted <==> batch_of_len(
                *event,
                old(self).projects@.len(),
            )),
            old(self).stage == Stage::Reprobing && accepted ==> {
                &&& views(final(self).projects@) == after_probes(
                    views(old(self).projects@),
                    outcomes_of(*event),
                )
                &&& final(self).selected == old(self).selected
                &&& final(self).stage == Stage::Presenting
            },
            old(self).stage == Stage::Presenting || old(self).stage == Stage::NoMatch ==> (accepted
                <==> event is Shown),
            (old(self).stage == Stage::Presenting || old(self).stage == Stage::NoMatch) && accepted
                ==> {
                &&& final(self).projects == old(self).projects
                &&& final(self).selected == old(self).selected
                &&& final(self).stage == Stage::Done
            },
    {
        match self.stage {
            Stage::Probing | Stage::Reprobing => {
                match event {
                    Event::Outcomes(o) => {
                        if o.len() != self.projects.len() {
                            return false;
                        }
                        let reprobe = self.stage == Stage::Reprobing;
                        self.take_probes(o);
                        if reprobe {
                            self.stage = Stage::Presenting;
                        } else {
                            match self.plan {
                                Plan::Run(c) => {
                                    let selected = select_for(&self.projects, &c);
                                    let none = selected.len() == 0;
                                    self.selected = selected;
                                    self.stage = if none {
                                        Stage::NoMatch
                                    } else {
                                        Stage::Confirming
                                    };
                                },
                                _ => {
                                    self.stage = Stage::Presenting;
                                },
                            }
                        }
                        true
                    },
                    _ => false,
                }
            },
            Stage::Confirming => {
                match event {
                    Event::Answer(a) => {
                        self.stage = if is_yes(a.as_str()) {
                            Stage::Executing
                        } else {
                            Stage::Done
                        };
                        true
                    },
                    _ => false,
                }
            },
            Stage::Executing => {
                match event {
                    Event::Outcomes(o) => {
                        if o.len() != self.selected.len() {
                            return false;
                        }
                        let logs = match self.plan {
                            Plan::Run(ComposeCommand::Logs) => true,
                            _ => false,
                        };
                        self.stage = if logs {
                            Stage::Done
                        } else {
                            Stage::Reprobing
                        };
                        true
                    },
                    _ => false,
                }
            },
            Stage::Presenting | Stage::NoMatch => {
                match event {
                    Event::Shown => {
                        self.stage = Stage::Done;
                        true
                    },
                    _ => false,
                }
            },
            Stage::Done => false,
        }
    }

    /// Sets the state of every project from its probe outcome.
    fn take_probes(&mut self, outcomes: &Vec<Outcome>)
        requires
            outcomes@.len() == old(self).projects@.len(),
        ensures
            views(final(self).projects@) == after_probes(views(old(self).projects@), outcomes@),
            final(self).plan == old(self).plan,
            final(self).selected == old(self).selected,
            final(self).stage == old(self).stage,
    {
        let _ = refresh_composes_status(&mut self.projects, outcomes);
        assert(views(self.projects@) =~= after_probes(views(old(self).projects@), outcomes@));
    }
}

/// The stage a run reaches once the user has answered `answer`.
pub open spec fn stage_after_answer(answer: Seq<char>) -> Stage {
    if confirms(trimmed(answer)) {
        Stage::Executing
    } else {
        Stage::Done
    }
}

/// Declining leaves nothing to carry out: after any answer other than `y` or
/// `yes` the pending action is to stop, so no operation and no probe is
/// launched, whatever the plan.
pub proof fn lemma_declined_run_invokes_nothing(plan: Plan, answer: Seq<char>)
    requires
        !confirms(trimmed(answer)),
    ensures
        action_at(stage_after_answer(answer), plan) == Action::Finish,
        !(action_at(stage_after_answer(answer), plan) is Execute),
        action_at(stage_after_answer(answer), plan) != Action::ProbeAll,
{
}

/// Every project that an operation applies to is in the state it requires.
proof fn lemma_selection_required(ps: Seq<ProjectView>, c: ComposeCommand)
    ensures
        forall|i: int|
            0 <= i < selection(ps, c).len() ==> (#[trigger] selection(ps, c)[i]).status
                == required_status(c),
    decreases ps.len(),
{
    if ps.len() > 0 {
        lemma_selection_required(ps.drop_last(), c);
    }
}

/// An operation never selects a project that is already in the state it
/// aims for: start never selects a started project, stop never a stopped
/// one.
pub proof fn lemma_selection_needs_change(ps: Seq<ProjectView>, c: ComposeCommand)
    ensures
        forall|i: int|
            0 <= i < selection(ps, c).len() ==> target_status(c) != Some(
                (#[trigger] selection(ps, c)[i]).status,
            ),
{
    lemma_selection_required(ps, c);
}

} // verus!
