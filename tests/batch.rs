use auto_docker_compose::error::{LAUNCH_FAILED, NO_PROJECTS};
use auto_docker_compose::status::status_of_output;
use auto_docker_compose::{
    refresh_composes_status, run_batch, ComposeError, ComposeStatus, DockerCompose, Outcome,
};

fn project(name: &str) -> DockerCompose {
    DockerCompose::build(name, &format!("/srv/{}", name), &vec!["docker-compose.yml".to_string()])
        .unwrap()
}

#[test]
fn batch_keeps_order_when_second_task_fails() {
    let ps = vec![project("one"), project("two"), project("three")];
    let runner = |p: &DockerCompose| -> Outcome {
        if p.docker_name == "two" {
            Err(ComposeError::launch_failed("No such file or directory"))
        } else {
            Ok(format!("done {}", p.docker_name))
        }
    };
    let out = run_batch(&ps, &runner).unwrap();
    assert_eq!(out.len(), 3);
    assert_eq!(out[0].as_ref().unwrap(), "done one");
    assert_eq!(
        out[1].as_ref().unwrap_err().err,
        format!("{}No such file or directory", LAUNCH_FAILED)
    );
    assert_eq!(out[2].as_ref().unwrap(), "done three");
}

#[test]
fn batch_length_matches_for_all_failures() {
    let ps = vec![project("a"), project("b")];
    let out = run_batch(&ps, &|_p: &DockerCompose| -> Outcome { Err(ComposeError::new("x")) })
        .unwrap();
    assert_eq!(out.len(), 2);
    assert!(out.iter().all(|o| o.is_err()));
}

#[test]
fn empty_batch_is_an_error() {
    let calls = std::cell::Cell::new(0);
    let runner = |_p: &DockerCompose| -> Outcome {
        calls.set(calls.get() + 1);
        Ok(String::new())
    };
    let e = run_batch(&Vec::new(), &runner).unwrap_err();
    assert_eq!(e.err, NO_PROJECTS);
    assert_eq!(calls.get(), 0);
}

#[test]
fn probe_output_decides_state() {
    assert_eq!(status_of_output(""), ComposeStatus::Stop);
    assert_eq!(status_of_output("UID PID\n"), ComposeStatus::Start);
    assert_eq!(status_of_output(" "), ComposeStatus::Start);
}

#[test]
fn probe_batch_with_canned_runner() {
    let mut ps = vec![project("up"), project("down"), project("broken")];
    ps[2].status = ComposeStatus::Start;
    let runner = |p: &DockerCompose| -> Outcome {
        match p.docker_name.as_str() {
            "up" => Ok("web 1234\n".to_string()),
            "down" => Ok(String::new()),
            _ => Err(ComposeError::launch_failed("denied")),
        }
    };
    let out = run_batch(&ps, &runner).unwrap();
    refresh_composes_status(&mut ps, &out).unwrap();
    assert_eq!(ps[0].status, ComposeStatus::Start);
    assert_eq!(ps[1].status, ComposeStatus::Stop);
    assert_eq!(ps[2].status, ComposeStatus::Start);
    assert_eq!(ps[0].docker_name, "up");
}

#[test]
fn refresh_of_no_projects_is_an_error() {
    let mut ps: Vec<DockerCompose> = Vec::new();
    let e = refresh_composes_status(&mut ps, &Vec::new()).unwrap_err();
    assert_eq!(e.err, NO_PROJECTS);
}

#[test]
fn refresh_status_hands_back_launch_failure() {
    let mut p = project("a");
    p.status = ComposeStatus::Start;
    let r = p.refresh_status(&Err(ComposeError::new("boom")));
    assert_eq!(r.unwrap_err().message(), "boom");
    assert_eq!(p.status, ComposeStatus::Start);
    assert!(p.refresh_status(&Ok(String::new())).is_ok());
    assert_eq!(p.status, ComposeStatus::Stop);
}
