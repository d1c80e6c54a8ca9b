//! Opening a new window: another process of the running executable, told
//! through its environment which project to show.
//!
//! The library decides; the caller performs. `create_new_window` is handed
//! what has happened so far and answers with what is to be done next, until
//! it answers with the result of the whole operation.

use vstd::prelude::*;
use crate::project::{project_name, project_name_of};

verus! {

/// What has happened so far while a new window is being opened. `P` is
/// whatever the caller knows the running executable by.
#[derive(Debug, PartialEq, Eq)]
pub enum LaunchEvent<P> {
    /// A new window was asked for; nothing has been done yet.
    Requested,
    /// The running executable was found: this is it.
    ExecutableResolved(P),
    /// The path of the running executable could not be had; the text is the
    /// system's own account of why.
    ExecutableUnresolved(String),
    /// The new process was created.
    Spawned,
    /// The system refused to create the process; the text is its own account
    /// of why.
    SpawnFailed(String),
}

/// What is to be done next while a new window is being opened.
#[derive(Debug, PartialEq, Eq)]
pub enum LaunchAction<P> {
    /// Find the path of the running executable.
    ResolveExecutable,
    /// Start this executable as a new process, with these variables added
    /// to its environment, and do not wait for it.
    Spawn(P, Vec<(String, String)>),
    /// The operation is over, with this result.
    Finish(Result<String, String>),
}

/// The environment variable that carries the project's path to a new window.
pub open spec fn project_path_variable() -> Seq<char> {
    "CLAUDIA_PROJECT_PATH"@
}

/// The environment variable that carries the project's display name to a new
/// window.
pub open spec fn project_name_variable() -> Seq<char> {
    "CLAUDIA_PROJECT_NAME"@
}

/// What `create_new_window` returns once the new process exists.
pub open spec fn launch_token() -> Seq<char> {
    "new-instance"@
}

/// The error reported when the running executable's path cannot be had.
pub open spec fn executable_failure(detail: Seq<char>) -> Seq<char> {
    "Failed to get current executable: "@ + detail
}

/// The error reported when the new process cannot be created.
pub open spec fn spawn_failure(detail: Seq<char>) -> Seq<char> {
    "Failed to spawn new instance: "@ + detail
}

/// The variables that tell a new window about the project at `path`, whose
/// display name is `name`: the path first, then the name.
pub open spec fn project_environment_of(path: Seq<char>, name: Seq<char>) -> Seq<
    (Seq<char>, Seq<char>),
> {
    seq![(project_path_variable(), path), (project_name_variable(), name)]
}

/// The variables added to the environment of a new window for a project
/// context: none when no project is active.
pub open spec fn environment_of(project_path: Option<Seq<char>>) -> Seq<(Seq<char>, Seq<char>)> {
    match project_path {
        Some(path) => project_environment_of(path, project_name_of(path)),
        None => Seq::empty(),
    }
}

/// Builds the variables that tell a new window about the project at `path`,
/// whose display name is `name`.
pub fn project_environment(path: &str, name: &str) -> (environment: Vec<(String, String)>)
    ensures
        environment.deep_view() == project_environment_of(path@, name@),
{
    let mut environment: Vec<(String, String)> = Vec::new();
    environment.push(("CLAUDIA_PROJECT_PATH".to_string(), path.to_string()));
    environment.push(("CLAUDIA_PROJECT_NAME".to_string(), name.to_string()));
    assert(environment.deep_view() =~= project_environment_of(path@, name@));
    environment
}

/// Builds the variables added to the environment of a new window.
pub fn launch_environment(project_path: &Option<String>) -> (environment: Vec<(String, String)>)
    ensures
        environment.deep_view() == environment_of(project_path.deep_view()),
        project_path is None ==> environment@.len() == 0,
{
    match project_path {
        Some(path) => {
            let name = project_name(path.as_str());
            project_environment(path.as_str(), name.as_str())
        },
        None => {
            let environment: Vec<(String, String)> = Vec::new();
            assert(environment.deep_view() =~= Seq::empty());
            environment
        },
    }
}

/// Decides the next step of opening a new window for `project_path`.
///
/// The running executable is resolved first. If that fails, the operation
/// ends with an error and no process is started. Otherwise that same
/// executable is started with the project's variables, and the operation
/// ends with the launch token, or with an error if the system refused.
pub fn create_new_window<P>(project_path: &Option<String>, event: LaunchEvent<P>) -> (action:
    LaunchAction<P>)
    ensures
        event is Requested ==> action is ResolveExecutable,
        event matches LaunchEvent::ExecutableResolved(executable) ==> (action matches LaunchAction::Spawn(
            program,
            environment,
        ) && program == executable && environment.deep_view() == environment_of(
            project_path.deep_view(),
        )),
        event matches LaunchEvent::ExecutableUnresolved(detail) ==> (action matches LaunchAction::Finish(
            Err(message),
        ) && message@ == executable_failure(detail@)),
        event is Spawned ==> (action matches LaunchAction::Finish(Ok(token)) && token@
            == launch_token()),
        event matches LaunchEvent::SpawnFailed(detail) ==> (action matches LaunchAction::Finish(
            Err(message),
        ) && message@ == spawn_failure(detail@)),
        action is Spawn <==> event is ExecutableResolved,
        action matches LaunchAction::Finish(Ok(_)) <==> event is Spawned,
        action matches LaunchAction::Finish(Err(_)) <==> (event is ExecutableUnresolved
            || event is SpawnFailed),
{
    match event {
        LaunchEvent::Requested => LaunchAction::ResolveExecutable,
        LaunchEvent::ExecutableResolved(executable) => LaunchAction::Spawn(
            executable,
            launch_environment(project_path),
        ),
        LaunchEvent::ExecutableUnresolved(detail) => LaunchAction::Finish(
            Err("Failed to get current executable: ".to_string().concat(detail.as_str())),
        ),
        LaunchEvent::Spawned => LaunchAction::Finish(Ok("new-instance".to_string())),
        LaunchEvent::SpawnFailed(detail) => LaunchAction::Finish(
            Err("Failed to spawn new instance: ".to_string().concat(detail.as_str())),
        ),
    }
}

} // verus!
