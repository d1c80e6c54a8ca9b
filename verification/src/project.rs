//! The project a window works on, and the names derived from it.
//!
//! A project is known by its path alone. Its display name is the final
//! component of that path, and the title of the primary window is built from
//! the display name.

use vstd::prelude::*;

verus! {

/// The final component of `path` as `std::path::Path::file_name` gives it,
/// read as text: `None` where the path has no such component. The path syntax
/// is that of the platform the library is built for.
pub uninterp spec fn path_file_name(path: Seq<char>) -> Option<Seq<char>>;

/// Calls `std::path::Path::file_name` on `path` and hands the component back
/// as an owned string. Trusted: the result is `path_file_name` of the path;
/// nothing more is claimed about which part of the path it is.
#[verifier::external_body]
fn final_component(path: &str) -> (component: Option<String>)
    ensures
        component.deep_view() == path_file_name(path@),
{
    match std::path::Path::new(path).file_name() {
        Some(name) => name.to_str().map(String::from),
        None => None,
    }
}

/// The application's own name: what a window is called when no project name
/// can be had.
pub open spec fn app_name() -> Seq<char> {
    "Claudia"@
}

/// The display name chosen from the final component of a project path: the
/// component itself, or the application's name where there is none.
pub open spec fn name_or_default(component: Option<Seq<char>>) -> Seq<char> {
    match component {
        Some(name) => name,
        None => app_name(),
    }
}

/// The display name of the project at `path`.
pub open spec fn project_name_of(path: Seq<char>) -> Seq<char> {
    name_or_default(path_file_name(path))
}

/// The title of a window that shows the project called `name`: the name,
/// then the application's name set off by a dash.
pub open spec fn project_title(name: Seq<char>) -> Seq<char> {
    name + " - Claudia"@
}

/// The title of the primary window for a project context: the project's
/// display name followed by the application's name, or the application's
/// name alone when no project is active.
pub open spec fn title_of(project_path: Option<Seq<char>>) -> Seq<char> {
    match project_path {
        Some(path) => project_title(project_name_of(path)),
        None => app_name(),
    }
}

/// Chooses the display name from the final component of a project path.
pub fn display_name(component: Option<String>) -> (name: String)
    ensures
        name@ == name_or_default(component.deep_view()),
{
    match component {
        Some(name) => name,
        None => "Claudia".to_string(),
    }
}

/// The display name of the project at `path`: the path's final component, or
/// the application's name where the path has none.
pub fn project_name(path: &str) -> (name: String)
    ensures
        name@ == project_name_of(path@),
{
    display_name(final_component(path))
}

/// Builds the title of a window that shows the project called `name`.
pub fn title_for_project(name: &str) -> (title: String)
    ensures
        title@ == project_title(name@),
{
    name.to_string().concat(" - Claudia")
}

/// Computes the primary window's title for a project context.
pub fn window_title(project_path: &Option<String>) -> (title: String)
    ensures
        title@ == title_of(project_path.deep_view()),
{
    match project_path {
        Some(path) => title_for_project(project_name(path.as_str()).as_str()),
        None => "Claudia".to_string(),
    }
}

} // verus!
