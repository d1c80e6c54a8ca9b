use claudia_windows::{close_window, list_windows, update_window_title, WindowAction, WindowEvent};

#[test]
fn title_update_looks_up_main_window_first() {
    assert_eq!(
        update_window_title::<u32>(&None, WindowEvent::Requested),
        WindowAction::Find("main".to_string())
    );
}

#[test]
fn title_update_fails_without_main_window() {
    assert_eq!(
        update_window_title::<u32>(&Some("/home/user/my-app".to_string()), WindowEvent::NotFound),
        WindowAction::Finish(Err("Main window not found".to_string()))
    );
    assert_eq!(
        update_window_title::<u32>(&None, WindowEvent::NotFound),
        WindowAction::Finish(Err("Main window not found".to_string()))
    );
}

#[test]
fn title_update_sets_project_title() {
    assert_eq!(
        update_window_title(&Some("/home/user/my-app".to_string()), WindowEvent::Found(7u32)),
        WindowAction::SetTitle(7u32, "my-app - Claudia".to_string())
    );
}

#[test]
fn title_update_sets_application_name_without_project() {
    assert_eq!(
        update_window_title(&None, WindowEvent::Found(7u32)),
        WindowAction::SetTitle(7u32, "Claudia".to_string())
    );
}

#[test]
fn title_update_succeeds_once_applied() {
    assert_eq!(
        update_window_title::<u32>(&None, WindowEvent::Applied),
        WindowAction::Finish(Ok(()))
    );
}

#[test]
fn title_update_reports_refusal() {
    assert_eq!(
        update_window_title::<u32>(&None, WindowEvent::Refused("window is gone".to_string())),
        WindowAction::Finish(Err("Failed to update window title: window is gone".to_string()))
    );
}

#[test]
fn title_update_applied_twice_asks_for_same_title() {
    let project = Some("/home/user/my-app".to_string());
    let first = update_window_title(&project, WindowEvent::Found(7u32));
    let second = update_window_title(&project, WindowEvent::Found(7u32));
    assert_eq!(first, second);
    assert_eq!(second, WindowAction::SetTitle(7u32, "my-app - Claudia".to_string()));
}

#[test]
fn title_update_runs_to_success() {
    let project = Some("/srv/site".to_string());
    let mut titles = Vec::new();
    let mut event = WindowEvent::Requested;
    let result = loop {
        event = match update_window_title(&project, event) {
            WindowAction::Find(label) => {
                assert_eq!(label, "main");
                WindowEvent::Found(7u32)
            }
            WindowAction::SetTitle(window, title) => {
                titles.push((window, title));
                WindowEvent::Applied
            }
            WindowAction::Close(_) => panic!("a title update closes nothing"),
            WindowAction::Finish(result) => break result,
        };
    };
    assert_eq!(result, Ok(()));
    assert_eq!(titles, vec![(7u32, "site - Claudia".to_string())]);
}

#[test]
fn close_looks_up_main_window_first() {
    assert_eq!(
        close_window::<u32>(WindowEvent::Requested),
        WindowAction::Find("main".to_string())
    );
}

#[test]
fn close_fails_without_main_window() {
    assert_eq!(
        close_window::<u32>(WindowEvent::NotFound),
        WindowAction::Finish(Err("Main window not found".to_string()))
    );
}

#[test]
fn close_asks_found_window_to_close() {
    assert_eq!(close_window(WindowEvent::Found(7u32)), WindowAction::Close(7u32));
    assert_ne!(close_window(WindowEvent::Found(7u32)), WindowAction::Close(8u32));
}

#[test]
fn close_succeeds_once_applied() {
    assert_eq!(close_window::<u32>(WindowEvent::Applied), WindowAction::Finish(Ok(())));
}

#[test]
fn close_reports_refusal() {
    assert_eq!(
        close_window::<u32>(WindowEvent::Refused("unsaved changes".to_string())),
        WindowAction::Finish(Err("Failed to close window: unsaved changes".to_string()))
    );
}

#[test]
fn close_runs_to_success() {
    let mut closed = Vec::new();
    let mut event = WindowEvent::Requested;
    let result = loop {
        event = match close_window(event) {
            WindowAction::Find(label) => {
                assert_eq!(label, "main");
                WindowEvent::Found(7u32)
            }
            WindowAction::Close(window) => {
                closed.push(window);
                WindowEvent::Applied
            }
            WindowAction::SetTitle(_, _) => panic!("closing sets no title"),
            WindowAction::Finish(result) => break result,
        };
    };
    assert_eq!(result, Ok(()));
    assert_eq!(closed, vec![7u32]);
}

#[test]
fn close_without_main_window_closes_nothing() {
    let mut closed = 0;
    let mut event: WindowEvent<u32> = WindowEvent::Requested;
    let result = loop {
        event = match close_window(event) {
            WindowAction::Find(_) => WindowEvent::NotFound,
            WindowAction::Close(_) => {
                closed += 1;
                WindowEvent::Applied
            }
            WindowAction::SetTitle(_, _) => panic!("closing sets no title"),
            WindowAction::Finish(result) => break result,
        };
    };
    assert_eq!(closed, 0);
    assert_eq!(result, Err("Main window not found".to_string()));
}

#[test]
fn list_of_no_windows_is_empty() {
    assert_eq!(list_windows(Vec::new()), Ok(Vec::new()));
}

#[test]
fn list_returns_each_open_window_once() {
    let listed = list_windows(vec!["main".to_string(), "secondary".to_string()])
        .expect("listing never fails");
    assert_eq!(listed.len(), 2);
    assert_eq!(listed.iter().filter(|label| label.as_str() == "main").count(), 1);
    assert_eq!(listed.iter().filter(|label| label.as_str() == "secondary").count(), 1);
}

#[test]
fn list_keeps_labels_as_reported() {
    let reported = vec!["secondary".to_string(), "main".to_string(), "third".to_string()];
    assert_eq!(list_windows(reported.clone()), Ok(reported));
}
