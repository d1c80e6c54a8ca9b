//! The primary window: keeping its title in step with the active project,
//! closing it, and listing the windows that are open.
//!
//! The windows belong to the windowing runtime. The functions here decide
//! what is asked of it and what its answers amount to; the caller does the
//! asking.

use vstd::prelude::*;
use crate::project::{title_of, window_title};

verus! {

/// What the windowing runtime has answered so far during an operation on the
/// primary window. `W` is whatever the runtime hands out for a window.
#[derive(Debug, PartialEq, Eq)]
pub enum WindowEvent<W> {
    /// The operation was asked for; the runtime has not been asked anything.
    Requested,
    /// The runtime has a window under the label that was looked up: this one.
    Found(W),
    /// The runtime has no window under the label that was looked up.
    NotFound,
    /// The runtime carried out what was asked of the window.
    Applied,
    /// The runtime refused what was asked of the window; the text is its own
    /// account of why.
    Refused(String),
}

/// What is to be done next during an operation on the primary window.
#[derive(Debug, PartialEq, Eq)]
pub enum WindowAction<W> {
    /// Look up the window with this label.
    Find(String),
    /// Give this window this title.
    SetTitle(W, String),
    /// Ask this window to close.
    Close(W),
    /// The operation is over, with this result.
    Finish(Result<(), String>),
}

/// The label under which the runtime knows the primary window.
pub open spec fn main_window_label() -> Seq<char> {
    "main"@
}

/// The error reported when the runtime has no primary window.
pub open spec fn window_not_found() -> Seq<char> {
    "Main window not found"@
}

/// The error reported when the runtime refuses a new title.
pub open spec fn title_failure(detail: Seq<char>) -> Seq<char> {
    "Failed to update window title: "@ + detail
}

/// The error reported when the runtime refuses to close the window.
pub open spec fn close_failure(detail: Seq<char>) -> Seq<char> {
    "Failed to close window: "@ + detail
}

/// The title that a window shows once the runtime has carried out `action`
/// on it, having shown `shown` before: a new title replaces the old one, and
/// nothing else touches it.
pub open spec fn title_after<W>(action: WindowAction<W>, shown: Seq<char>) -> Seq<char> {
    match action {
        WindowAction::SetTitle(_, title) => title@,
        _ => shown,
    }
}

/// Decides the next step of bringing the primary window's title in step with
/// `project_path`.
///
/// The primary window is looked up first. If there is none, the operation
/// ends with an error and no title is set. Otherwise the window that was
/// found is given the title that belongs to the project context, and the
/// operation ends with success, or with an error if the runtime refused the
/// title.
pub fn update_window_title<W>(project_path: &Option<String>, event: WindowEvent<W>) -> (action:
    WindowAction<W>)
    ensures
        event is Requested ==> (action matches WindowAction::Find(label) && label@
            == main_window_label()),
        event is NotFound ==> (action matches WindowAction::Finish(Err(message)) && message@
            == window_not_found()),
        event matches WindowEvent::Found(window) ==> (action matches WindowAction::SetTitle(
            target,
            title,
        ) && target == window && title@ == title_of(project_path.deep_view())),
        event is Applied ==> action == WindowAction::<W>::Finish(Ok(())),
        event matches WindowEvent::Refused(detail) ==> (action matches WindowAction::Finish(
            Err(message),
        ) && message@ == title_failure(detail@)),
        action is SetTitle <==> event is Found,
        action matches WindowAction::Finish(Ok(_)) <==> event is Applied,
        action matches WindowAction::Finish(Err(_)) <==> (event is NotFound || event is Refused),
        !(action is Close),
{
    match event {
        WindowEvent::Requested => WindowAction::Find("main".to_string()),
        WindowEvent::NotFound => WindowAction::Finish(Err("Main window not found".to_string())),
        WindowEvent::Found(window) => WindowAction::SetTitle(window, window_title(project_path)),
        WindowEvent::Applied => WindowAction::Finish(Ok(())),
        WindowEvent::Refused(detail) => WindowAction::Finish(
            Err("Failed to update window title: ".to_string().concat(detail.as_str())),
        ),
    }
}

/// Decides the next step of closing the primary window.
///
/// The primary window is looked up first. If there is none, the operation
/// ends with an error and nothing is closed. Otherwise the window that was
/// found is asked to close, and the operation ends with success, or with an
/// error if the runtime refused.
pub fn close_window<W>(event: WindowEvent<W>) -> (action: WindowAction<W>)
    ensures
        event is Requested ==> (action matches WindowAction::Find(label) && label@
            == main_window_label()),
        event is NotFound ==> (action matches WindowAction::Finish(Err(message)) && message@
            == window_not_found()),
        event matches WindowEvent::Found(window) ==> action == WindowAction::Close(window),
        event is Applied ==> action == WindowAction::<W>::Finish(Ok(())),
        event matches WindowEvent::Refused(detail) ==> (action matches WindowAction::Finish(
            Err(message),
        ) && message@ == close_failure(detail@)),
        action is Close <==> event is Found,
        action matches WindowAction::Finish(Ok(_)) <==> event is Applied,
        action matches WindowAction::Finish(Err(_)) <==> (event is NotFound || event is Refused),
        !(action is SetTitle),
{
    match event {
        WindowEvent::Requested => WindowAction::Find("main".to_string()),
        WindowEvent::NotFound => WindowAction::Finish(Err("Main window not found".to_string())),
        WindowEvent::Found(window) => WindowAction::Close(window),
        WindowEvent::Applied => WindowAction::Finish(Ok(())),
        WindowEvent::Refused(detail) => WindowAction::Finish(
            Err("Failed to close window: ".to_string().concat(detail.as_str())),
        ),
    }
}

/// Lists the windows that are open, given the labels under which the runtime
/// reports them: every label is returned as it was reported, once for each
/// time it was reported, and the operation never fails.
pub fn list_windows(open: Vec<String>) -> (windows: Result<Vec<String>, String>)
    ensures
        windows == Ok::<Vec<String>, String>(open),
{
    Ok(open)
}

/// Synchronizing the title is idempotent. Let `first` and `second` be what
/// two synchronizations with one project context ask of a window that showed
/// `shown`, the second after the first. Then the second leaves the title
/// that the first set, and that title is the one that belongs to the context,
/// whatever the window showed before.
pub proof fn title_sync_is_idempotent<W>(
    project_path: Option<Seq<char>>,
    first: WindowAction<W>,
    second: WindowAction<W>,
    shown: Seq<char>,
)
    requires
        first matches WindowAction::SetTitle(_, title) && title@ == title_of(project_path),
        second matches WindowAction::SetTitle(_, title) && title@ == title_of(project_path),
    ensures
        title_after(second, title_after(first, shown)) == title_after(first, shown),
        title_after(first, shown) == title_of(project_path),
{
}

} // verus!
