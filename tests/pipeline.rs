use std::cell::RefCell;

use auto_docker_compose::command::ComposeCommand;
use auto_docker_compose::error::{NO_PROJECTS, UNKNOWN_COMMAND};
use auto_docker_compose::session::{plan_of, select_for};
use auto_docker_compose::{
    is_yes, run_batch, Action, ComposeError, ComposeStatus, DockerCompose, Event, Outcome, Plan,
    Session, Stage,
};

fn project(name: &str) -> DockerCompose {
    DockerCompose::build(name, name, &vec!["docker-compose.yml".to_string()]).unwrap()
}

fn probe_with(session: &Session, running: &[&str]) -> Vec<Outcome> {
    let runner = |p: &DockerCompose| -> Outcome {
        if running.contains(&p.docker_name.as_str()) {
            Ok("container 1\n".to_string())
        } else {
            Ok(String::new())
        }
    };
    run_batch(&session.projects, &runner).unwrap()
}

#[test]
fn start_confirmed_runs_up_once_for_stopped_project() {
    let mut s = Session::new(Plan::Run(ComposeCommand::Start), vec![project("a")]).unwrap();
    assert_eq!(s.action(), Action::ProbeAll);
    let probes = probe_with(&s, &[]);
    assert!(s.step(&Event::Outcomes(probes)));
    assert_eq!(s.projects[0].status, ComposeStatus::Stop);
    assert_eq!(s.action(), Action::AskConfirm);
    assert_eq!(s.selected.len(), 1);
    assert_eq!(s.selected[0].docker_name, "a");
    assert!(s.step(&Event::Answer("y".to_string())));
    let command = match s.action() {
        Action::Execute(c) => c,
        other => panic!("unexpected action {:?}", other),
    };
    assert_eq!(command, ComposeCommand::Start);
    let launched = RefCell::new(Vec::new());
    let runner = |p: &DockerCompose| -> Outcome {
        let line = p.command_line(&command)?;
        launched.borrow_mut().push(line);
        Ok(String::new())
    };
    let out = run_batch(&s.selected, &runner).unwrap();
    assert_eq!(launched.borrow().clone(), vec!["cd 'a' && docker compose up -d".to_string()]);
    assert!(s.step(&Event::Outcomes(out)));
    assert_eq!(s.action(), Action::ProbeAll);
    let probes = probe_with(&s, &["a"]);
    assert!(s.step(&Event::Outcomes(probes)));
    assert_eq!(s.projects[0].status, ComposeStatus::Start);
    assert_eq!(s.action(), Action::ShowAll);
    assert!(s.step(&Event::Shown));
    assert_eq!(s.action(), Action::Finish);
}

fn session_waiting_for_answer() -> Session {
    let mut s = Session::new(
        Plan::Run(ComposeCommand::Stop),
        vec![project("a"), project("b")],
    )
    .unwrap();
    let probes = probe_with(&s, &["a", "b"]);
    assert!(s.step(&Event::Outcomes(probes)));
    assert_eq!(s.stage, Stage::Confirming);
    s
}

#[test]
fn declining_ends_without_invocations() {
    for answer in ["n", "", "sure", "Y", "yes please", "no"] {
        let mut s = session_waiting_for_answer();
        assert!(s.step(&Event::Answer(answer.to_string())));
        assert_eq!(s.stage, Stage::Done);
        assert_eq!(s.action(), Action::Finish);
        assert!(!s.step(&Event::Outcomes(Vec::new())));
        assert!(!s.step(&Event::Answer("y".to_string())));
        assert_eq!(s.action(), Action::Finish);
    }
}

#[test]
fn accepting_with_whitespace() {
    for answer in ["y\n", "  yes  ", "yes\r\n"] {
        let mut s = session_waiting_for_answer();
        assert!(s.step(&Event::Answer(answer.to_string())));
        assert_eq!(s.action(), Action::Execute(ComposeCommand::Stop));
    }
}

#[test]
fn start_skips_started_projects() {
    let mut s = Session::new(
        Plan::Run(ComposeCommand::Start),
        vec![project("a"), project("b"), project("c")],
    )
    .unwrap();
    let probes = probe_with(&s, &["b"]);
    assert!(s.step(&Event::Outcomes(probes)));
    let names: Vec<String> = s.selected.iter().map(|p| p.docker_name.clone()).collect();
    assert_eq!(names, vec!["a".to_string(), "c".to_string()]);
    assert!(s.selected.iter().all(|p| p.status == ComposeStatus::Stop));
}

#[test]
fn nothing_to_stop_reports_no_match() {
    let mut s = Session::new(Plan::Run(ComposeCommand::Stop), vec![project("a")]).unwrap();
    let probes = probe_with(&s, &[]);
    assert!(s.step(&Event::Outcomes(probes)));
    assert_eq!(s.action(), Action::ReportNoMatch);
    assert!(s.step(&Event::Shown));
    assert_eq!(s.action(), Action::Finish);
}

#[test]
fn status_plan_probes_then_shows() {
    let mut s = Session::new(Plan::Status, vec![project("a"), project("b")]).unwrap();
    let probes = probe_with(&s, &["b"]);
    assert!(s.step(&Event::Outcomes(probes)));
    assert_eq!(s.action(), Action::ShowAll);
    assert_eq!(s.projects[1].status, ComposeStatus::Start);
}

#[test]
fn logs_end_after_fetching() {
    let mut s = Session::new(Plan::Run(ComposeCommand::Logs), vec![project("a")]).unwrap();
    let probes = probe_with(&s, &["a"]);
    assert!(s.step(&Event::Outcomes(probes)));
    assert!(s.step(&Event::Answer("yes".to_string())));
    assert_eq!(s.action(), Action::Execute(ComposeCommand::Logs));
    assert!(s.step(&Event::Outcomes(vec![Ok("log line".to_string())])));
    assert_eq!(s.action(), Action::Finish);
}

#[test]
fn start_list_asks_first() {
    let s = Session::new(Plan::StartList, vec![project("a"), project("b")]).unwrap();
    assert_eq!(s.action(), Action::AskConfirm);
    assert_eq!(s.selected.len(), 2);
}

#[test]
fn failed_probe_keeps_default_state() {
    let mut s = Session::new(Plan::Run(ComposeCommand::Start), vec![project("a")]).unwrap();
    assert!(s.step(&Event::Outcomes(vec![Err(ComposeError::new("no shell"))])));
    assert_eq!(s.projects[0].status, ComposeStatus::Stop);
    assert_eq!(s.action(), Action::AskConfirm);
}

#[test]
fn mismatched_events_are_refused() {
    let mut s = Session::new(Plan::Status, vec![project("a")]).unwrap();
    assert!(!s.step(&Event::Outcomes(Vec::new())));
    assert!(!s.step(&Event::Answer("y".to_string())));
    assert!(!s.step(&Event::Shown));
    assert_eq!(s.stage, Stage::Probing);
}

#[test]
fn session_needs_projects() {
    let e = Session::new(Plan::Status, Vec::new()).err().unwrap();
    assert_eq!(e.err, NO_PROJECTS);
}

#[test]
fn plans_by_name() {
    assert_eq!(plan_of("start").unwrap(), Plan::Run(ComposeCommand::Start));
    assert_eq!(plan_of("stop").unwrap(), Plan::Run(ComposeCommand::Stop));
    assert_eq!(plan_of("restart").unwrap(), Plan::Run(ComposeCommand::Restart));
    assert_eq!(plan_of("logs").unwrap(), Plan::Run(ComposeCommand::Logs));
    assert_eq!(plan_of("status").unwrap(), Plan::Status);
    assert_eq!(plan_of("start_list").unwrap(), Plan::StartList);
    assert_eq!(plan_of("Start").unwrap_err().err, UNKNOWN_COMMAND);
    assert_eq!(plan_of("").unwrap_err().err, UNKNOWN_COMMAND);
}

#[test]
fn selection_by_required_state() {
    let mut ps = vec![project("a"), project("b")];
    ps[0].status = ComposeStatus::Start;
    let stop = select_for(&ps, &ComposeCommand::Stop);
    assert_eq!(stop.len(), 1);
    assert_eq!(stop[0].docker_name, "a");
    let restart = select_for(&ps, &ComposeCommand::Restart);
    assert_eq!(restart[0].docker_name, "a");
    let start = select_for(&ps, &ComposeCommand::Start);
    assert_eq!(start.len(), 1);
    assert_eq!(start[0].docker_name, "b");
}

#[test]
fn yes_answers() {
    assert!(is_yes("y"));
    assert!(is_yes("yes"));
    assert!(is_yes(" yes\n"));
    assert!(is_yes("\ty "));
    assert!(!is_yes("n"));
    assert!(!is_yes(""));
    assert!(!is_yes("YES"));
    assert!(!is_yes("y e s"));
}
