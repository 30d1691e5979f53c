use vstd::prelude::*;
use crate::command::{subcommand_of, ComposeCommand};
use crate::error::{ComposeError, UNKNOWN_COMMAND};
use crate::status::{probe_status, status_of_output, ComposeStatus};
use crate::text::text_eq;

verus! {

/// A file name that marks a directory as a compose project.
pub open spec fn is_descriptor(name: Seq<char>) -> bool {
    name == "docker-compose.yaml"@ || name == "docker-compose.yml"@
}

/// Some file of the listing marks its directory as a compose project.
pub open spec fn has_descriptor(files: Seq<String>) -> bool {
    exists|i: int| 0 <= i < files.len() && is_descriptor(#[trigger] files[i]@)
}

/// The shell command that runs the compose tool with `args` in `path`.
pub open spec fn shell_line(path: Seq<char>, args: Seq<char>) -> Seq<char> {
    "cd '"@ + path + "' && docker compose "@ + args
}

/// What a project is: its name, its directory and its last known state.
pub ghost struct ProjectView {
    pub name: Seq<char>,
    pub path: Seq<char>,
    pub status: ComposeStatus,
}

/// The same project with its state replaced by what a probe outcome shows; a
/// probe that could not be launched leaves the state as it was.
pub open spec fn after_probe(p: ProjectView, outcome: Result<String, ComposeError>) -> ProjectView {
    match outcome {
        Ok(out) => ProjectView { status: probe_status(out@), ..p },
        Err(_) => p,
    }
}

/// A directory recognized as a compose project.
pub struct DockerCompose {
    pub docker_name: String,
    pub path: String,
    pub status: ComposeStatus,
}

impl View for DockerCompose {
    type V = ProjectView;

    open spec fn view(&self) -> ProjectView {
        ProjectView { name: self.docker_name@, path: self.path@, status: self.status }
    }
}

/// Whether the names of the files in a directory include a compose
/// descriptor.
pub fn is_compose_dir(files: &Vec<String>) -> (r: bool)
    ensures
        r == has_descriptor(files@),
{
    let mut i: usize = 0;
    while i < files.len()
        invariant
            i <= files@.len(),
            forall|j: int| 0 <= j < i ==> !is_descriptor(#[trigger] files@[j]@),
        decreases files.len() - i,
    {
        let name = files[i].as_str();
        if text_eq(name, "docker-compose.yaml") || text_eq(name, "docker-compose.yml") {
            return true;
        }
        i = i + 1;
    }
    false
}

impl DockerCompose {
    /// The project in directory `path`, named `name`, whose files are named
    /// `files`; none where no file is a compose descriptor. A new project is
    /// taken to be stopped until it is probed.
    pub fn build(name: &str, path: &str, files: &Vec<String>) -> (r: Option<DockerCompose>)
        ensures
            r is Some <==> has_descriptor(files@),
            r matches Some(p) ==> p@ == (ProjectView {
                name: name@,
                path: path@,
                status: ComposeStatus::Stop,
            }),
    {
        if is_compose_dir(files) {
            Some(DockerCompose {
                docker_name: String::from_str(name),
                path: String::from_str(path),
                status: ComposeStatus::Stop,
            })
        } else {
            None
        }
    }

    /// A copy of the project.
    pub fn duplicate(&self) -> (r: DockerCompose)
        ensures
            r@ == self@,
    {
        DockerCompose {
            docker_name: self.docker_name.clone(),
            path: self.path.clone(),
            status: self.status,
        }
    }

    /// The shell command that inspects which containers of the project run.
    pub fn probe_line(&self) -> (r: String)
        ensures
            r@ == shell_line(self.path@, "top"@),
    {
        let mut line = String::from_str("cd '");
        line.append(self.path.as_str());
        line.append("' && docker compose ");
        line.append("top");
        line
    }

    /// The shell command that carries out `command` on the project; an error
    /// for `Unknown`.
    pub fn command_line(&self, command: &ComposeCommand) -> (r: Result<String, ComposeError>)
        ensures
            match subcommand_of(*command) {
                Some(args) => r matches Ok(line) && line@ == shell_line(self.path@, args),
                None => r matches Err(e) && e.err@ == UNKNOWN_COMMAND@,
            },
    {
        match command.subcommand() {
            Some(args) => {
                let mut line = String::from_str("cd '");
                line.append(self.path.as_str());
                line.append("' && docker compose ");
                line.append(args);
                Ok(line)
            },
            None => Err(ComposeError::new(UNKNOWN_COMMAND)),
        }
    }

    /// Takes in the outcome of a probe: captured output sets the state, a
    /// launch failure leaves it and is handed back.
    pub fn refresh_status(&mut self, outcome: &Result<String, ComposeError>) -> (r: Result<
        (),
        ComposeError,
    >)
        ensures
            final(self)@ == after_probe(old(self)@, *outcome),
            r is Ok <==> outcome is Ok,
            r matches Err(e) ==> outcome matches Err(o) && e.err@ == o.err@,
    {
        match outcome {
            Ok(out) => {
                self.status = status_of_output(out.as_str());
                Ok(())
            },
            Err(e) => Err(e.duplicate()),
        }
    }
}

} // verus!
