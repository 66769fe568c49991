use fugo::app::{
    handle_key_event, App, AppMessage, AppState, Key, KeyCode, Task, DELETE_FAILURE_MESSAGE,
    FIND_FAILURE_MESSAGE,
};
use fugo::deleter::{first_step, next_step, DeleterError, DeletionStep, StepOutcome};
use fugo::finder::{discover, FinderError, GoInstallation, RootCandidate};

fn press(code: KeyCode) -> Key {
    Key { code, control_only: false, pressed: true }
}

fn confirming_app() -> App {
    let (mut app, _) = App::new();
    app.handle_message(AppMessage::GoFound(Ok(GoInstallation {
        versions: vec!["go version go1.22.0 darwin/arm64".to_string()],
        path_to_delete: "/usr/local/go".to_string(),
    })));
    app
}

fn type_text(app: &mut App, text: &str) {
    for c in text.chars() {
        assert!(handle_key_event(press(KeyCode::Char(c)), app).is_none());
    }
}

fn submit(text: &str) -> (App, Option<Task>) {
    let mut app = confirming_app();
    type_text(&mut app, text);
    let task = handle_key_event(press(KeyCode::Enter), &mut app);
    (app, task)
}

#[test]
fn new_session_is_loading_and_discovers() {
    let (app, task) = App::new();
    assert_eq!(app.state, AppState::Loading);
    assert!(!app.should_quit);
    assert!(app.go_versions.is_empty());
    assert!(app.input.is_empty());
    assert_eq!(app.spinner_frame, 0);
    assert!(app.error_message.is_none());
    assert!(!app.deletion_complete);
    assert!(matches!(task, Task::Discover));
}

#[test]
fn spinner_cycles_through_eight_frames() {
    let (mut app, _) = App::new();
    for expected in [1usize, 2, 3, 4, 5, 6, 7, 0, 1] {
        app.on_tick();
        assert_eq!(app.spinner_frame, expected);
    }
    app.spinner_frame = usize::MAX;
    app.on_tick();
    assert_eq!(app.spinner_frame, 0);
}

#[test]
fn found_installation_moves_to_confirm() {
    let app = confirming_app();
    assert_eq!(app.state, AppState::Confirm);
    assert_eq!(app.go_versions, vec!["go version go1.22.0 darwin/arm64".to_string()]);
    assert_eq!(app.go_install_path, "/usr/local/go");
}

#[test]
fn confirmation_ignores_case() {
    for word in ["yes", "YES", "Yes", "yEs"] {
        let (app, task) = submit(word);
        assert_eq!(app.state, AppState::Deleting);
        assert!(!app.should_quit);
        match task {
            Some(Task::Delete(path)) => assert_eq!(path, "/usr/local/go"),
            _ => panic!("expected a deletion task"),
        }
    }
}

#[test]
fn other_input_quits_without_deleting() {
    for word in ["y", "yep", "", "no", "yes "] {
        let (app, task) = submit(word);
        assert!(task.is_none());
        assert!(app.should_quit);
        assert_eq!(app.state, AppState::Confirm);
    }
}

#[test]
fn apply_confirmation_takes_lowercased_input() {
    let mut app = confirming_app();
    assert!(matches!(app.apply_confirmation("yes"), Some(Task::Delete(_))));
    let mut app2 = confirming_app();
    assert!(app2.apply_confirmation("YES").is_none());
    assert!(app2.should_quit);
    assert_eq!(app.state, AppState::Deleting);
}

#[test]
fn backspace_removes_last_character() {
    let mut app = confirming_app();
    type_text(&mut app, "yesx");
    handle_key_event(press(KeyCode::Backspace), &mut app);
    assert_eq!(app.input, "yes");
    let mut empty = confirming_app();
    handle_key_event(press(KeyCode::Backspace), &mut empty);
    assert_eq!(empty.input, "");
    let task = handle_key_event(press(KeyCode::Enter), &mut app);
    assert!(matches!(task, Some(Task::Delete(_))));
}

#[test]
fn typing_outside_confirm_is_ignored() {
    let (mut app, _) = App::new();
    handle_key_event(press(KeyCode::Char('y')), &mut app);
    assert!(handle_key_event(press(KeyCode::Enter), &mut app).is_none());
    assert_eq!(app.input, "");
    assert!(!app.should_quit);
    assert_eq!(app.state, AppState::Loading);
}

#[test]
fn released_keys_are_ignored() {
    let mut app = confirming_app();
    let release = Key { code: KeyCode::Char('q'), control_only: false, pressed: false };
    assert!(handle_key_event(release, &mut app).is_none());
    assert!(!app.should_quit);
}

#[test]
fn quit_keys_end_the_session() {
    let mut a = confirming_app();
    handle_key_event(press(KeyCode::Char('q')), &mut a);
    assert!(a.should_quit);
    let mut b = confirming_app();
    handle_key_event(press(KeyCode::Esc), &mut b);
    assert!(b.should_quit);
    let (mut c, _) = App::new();
    handle_key_event(Key { code: KeyCode::Char('c'), control_only: true, pressed: true }, &mut c);
    assert!(c.should_quit);
    let mut d = confirming_app();
    handle_key_event(press(KeyCode::Char('c')), &mut d);
    assert!(!d.should_quit);
    assert_eq!(d.input, "c");
}

#[test]
fn complete_only_listens_to_quit_keys() {
    let (mut app, _) = App::new();
    app.handle_message(AppMessage::GoFound(Err(FinderError::NotFound)));
    handle_key_event(press(KeyCode::Char('x')), &mut app);
    handle_key_event(Key { code: KeyCode::Char('c'), control_only: true, pressed: true }, &mut app);
    assert!(!app.should_quit);
    handle_key_event(press(KeyCode::Enter), &mut app);
    assert!(app.should_quit);
}

#[test]
fn repeated_submits_dispatch_one_deletion() {
    let (mut app, first) = submit("yes");
    assert!(matches!(first, Some(Task::Delete(_))));
    for _ in 0..5 {
        assert!(handle_key_event(press(KeyCode::Enter), &mut app).is_none());
        type_text(&mut app, "yes");
    }
    assert_eq!(app.state, AppState::Deleting);
    app.handle_message(AppMessage::GoDeleted(Ok(())));
    assert!(handle_key_event(press(KeyCode::Char('y')), &mut app).is_none());
    assert_eq!(app.state, AppState::Complete);
}

#[test]
fn deletion_failure_reports_message() {
    let (mut app, _) = submit("yes");
    app.handle_message(AppMessage::GoDeleted(Err(DeleterError::RemoveDir("busy".to_string()))));
    assert_eq!(app.state, AppState::Complete);
    assert_eq!(app.error_message.as_deref(), Some(DELETE_FAILURE_MESSAGE));
    assert_eq!(DELETE_FAILURE_MESSAGE, "Failed to delete Go installations");
    assert!(!app.deletion_complete);
}

#[test]
fn scenario_no_root_completes_with_message() {
    let c = vec![
        RootCandidate { path: "/usr/local/go".to_string(), is_dir: false },
        RootCandidate { path: "/usr/local/Cellar/go".to_string(), is_dir: false },
    ];
    let result = discover(&c, None, &vec![]);
    assert!(matches!(result, Err(FinderError::NotFound)));
    let (mut app, _) = App::new();
    app.handle_message(AppMessage::GoFound(result));
    assert_eq!(app.state, AppState::Complete);
    assert_eq!(app.error_message.as_deref(), Some("Failed to find Go installations"));
    assert_eq!(FIND_FAILURE_MESSAGE, "Failed to find Go installations");
}

#[test]
fn scenario_declined_confirmation_deletes_nothing() {
    let c = vec![RootCandidate { path: "/usr/local/go".to_string(), is_dir: true }];
    let result = discover(&c, Some("go version go1.22.0 darwin/arm64\n".to_string()), &vec![]);
    let (mut app, _) = App::new();
    app.handle_message(AppMessage::GoFound(result));
    assert_eq!(app.state, AppState::Confirm);
    assert_eq!(app.go_versions, vec!["go version go1.22.0 darwin/arm64".to_string()]);
    assert_eq!(app.go_install_path, "/usr/local/go");
    type_text(&mut app, "no");
    assert!(handle_key_event(press(KeyCode::Enter), &mut app).is_none());
    assert!(app.should_quit);
    assert_ne!(app.state, AppState::Deleting);
}

#[test]
fn scenario_confirmed_deletion_completes() {
    let (mut app, task) = submit("yes");
    let path = match task {
        Some(Task::Delete(p)) => p,
        _ => panic!("expected a deletion task"),
    };
    assert_eq!(path, "/usr/local/go");
    let mut step = first_step();
    while !matches!(step, DeletionStep::Finished(_)) {
        step = next_step(step, StepOutcome::Done);
    }
    let result = match step {
        DeletionStep::Finished(r) => r,
        _ => unreachable!(),
    };
    app.handle_message(AppMessage::GoDeleted(result));
    assert_eq!(app.state, AppState::Complete);
    assert!(app.deletion_complete);
    assert!(app.error_message.is_none());
}
