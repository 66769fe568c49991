use vstd::prelude::*;

use crate::deleter::DeleterError;
use crate::finder::{strings_view, FinderError, GoInstallation};
use crate::text::{lowercase, lowercase_of, push_char};

verus! {

/// The message shown when discovery fails.
pub const FIND_FAILURE_MESSAGE: &'static str = "Failed to find Go installations";

/// The message shown when deletion fails.
pub const DELETE_FAILURE_MESSAGE: &'static str = "Failed to delete Go installations";

/// The result of a background task, handed back to the session.
pub enum AppMessage {
    GoFound(Result<GoInstallation, FinderError>),
    GoDeleted(Result<(), DeleterError>),
}

/// The phase of a session.
#[derive(PartialEq, Eq, Structural, Clone, Copy, Debug)]
pub enum AppState {
    Loading,
    Confirm,
    Deleting,
    Complete,
}

/// Background work that the session asks its caller to start.
pub enum Task {
    /// Look for installations; the result comes back as `GoFound`.
    Discover,
    /// Delete the installation at this path; the result comes back as
    /// `GoDeleted`.
    Delete(String),
}

/// A task as a mathematical value.
pub enum TaskView {
    Discover,
    Delete(Seq<char>),
}

impl View for Task {
    type V = TaskView;

    open spec fn view(&self) -> TaskView {
        match self {
            Task::Discover => TaskView::Discover,
            Task::Delete(p) => TaskView::Delete(p@),
        }
    }
}

/// The view of an optional task.
pub open spec fn task_view(t: Option<Task>) -> Option<TaskView> {
    match t {
        Some(t) => Some(t@),
        None => None,
    }
}

/// Which key was pressed.
#[derive(Clone, Copy, Debug)]
pub enum KeyCode {
    Char(char),
    Enter,
    Esc,
    Backspace,
    Other,
}

/// A key event from the terminal.
#[derive(Clone, Copy, Debug)]
pub struct Key {
    pub code: KeyCode,
    /// Control, and no other modifier, was held.
    pub control_only: bool,
    /// The event is a press, not a release or a repeat.
    pub pressed: bool,
}

/// The whole state of an interactive session.
pub struct App {
    pub state: AppState,
    pub should_quit: bool,
    pub go_versions: Vec<String>,
    pub go_install_path: String,
    /// What the user typed to confirm.
    pub input: String,
    pub spinner_frame: usize,
    pub error_message: Option<String>,
    pub deletion_complete: bool,
}

/// A session's state as a mathematical value.
pub struct AppView {
    pub state: AppState,
    pub should_quit: bool,
    pub go_versions: Seq<Seq<char>>,
    pub go_install_path: Seq<char>,
    pub input: Seq<char>,
    pub spinner_frame: usize,
    pub error_message: Option<Seq<char>>,
    pub deletion_complete: bool,
}

impl View for App {
    type V = AppView;

    open spec fn view(&self) -> AppView {
        AppView {
            state: self.state,
            should_quit: self.should_quit,
            go_versions: strings_view(self.go_versions@),
            go_install_path: self.go_install_path@,
            input: self.input@,
            spinner_frame: self.spinner_frame,
            error_message: match self.error_message {
                Some(m) => Some(m@),
                None => None,
            },
            deletion_complete: self.deletion_complete,
        }
    }
}

/// A fresh session: loading, with nothing found or typed yet.
pub open spec fn initial_view() -> AppView {
    AppView {
        state: AppState::Loading,
        should_quit: false,
        go_versions: seq![],
        go_install_path: seq![],
        input: seq![],
        spinner_frame: 0,
        error_message: None,
        deletion_complete: false,
    }
}

/// The spinner frame after one tick: frames cycle through eight values.
pub open spec fn next_frame(frame: usize) -> usize {
    ((frame + 1) % 8) as usize
}

/// The session after a background task's result arrived.
pub open spec fn after_message(a: AppView, msg: AppMessage) -> AppView {
    match msg {
        AppMessage::GoFound(Ok(inst)) => AppView {
            go_versions: strings_view(inst.versions@),
            go_install_path: inst.path_to_delete@,
            state: AppState::Confirm,
            ..a
        },
        AppMessage::GoFound(Err(_)) => AppView {
            error_message: Some(FIND_FAILURE_MESSAGE@),
            state: AppState::Complete,
            ..a
        },
        AppMessage::GoDeleted(Ok(_)) => AppView {
            deletion_complete: true,
            state: AppState::Complete,
            ..a
        },
        AppMessage::GoDeleted(Err(_)) => AppView {
            error_message: Some(DELETE_FAILURE_MESSAGE@),
            state: AppState::Complete,
            ..a
        },
    }
}

/// The word that confirms a deletion, once lowercased.
pub open spec fn confirmation_word() -> Seq<char> {
    seq!['y', 'e', 's']
}

/// The session after the user submitted, given the lowercased input: the
/// confirmation word starts the deletion of the found root, anything else
/// ends the session without deleting.
pub open spec fn after_submit(a: AppView, lowered: Seq<char>) -> (AppView, Option<TaskView>) {
    if lowered == confirmation_word() {
        (AppView { state: AppState::Deleting, ..a }, Some(TaskView::Delete(a.go_install_path)))
    } else {
        (AppView { should_quit: true, ..a }, None)
    }
}

/// The session set to end.
pub open spec fn quit(a: AppView) -> (AppView, Option<TaskView>) {
    (AppView { should_quit: true, ..a }, None)
}

/// The session after a key event.
pub open spec fn after_key(a: AppView, key: Key) -> (AppView, Option<TaskView>) {
    if !key.pressed {
        (a, None)
    } else if a.state == AppState::Complete {
        match key.code {
            KeyCode::Char(c) => if c == 'q' { quit(a) } else { (a, None) },
            KeyCode::Enter | KeyCode::Esc => quit(a),
            _ => (a, None),
        }
    } else {
        let confirming = a.state == AppState::Confirm;
        match key.code {
            KeyCode::Char(c) => if (c == 'c' && key.control_only) || c == 'q' {
                quit(a)
            } else if confirming {
                (AppView { input: a.input.push(c), ..a }, None)
            } else {
                (a, None)
            },
            KeyCode::Esc => quit(a),
            KeyCode::Enter => if confirming {
                after_submit(a, lowercase_of(a.input))
            } else {
                (a, None)
            },
            KeyCode::Backspace => if confirming && a.input.len() > 0 {
                (AppView { input: a.input.drop_last(), ..a }, None)
            } else {
                (a, None)
            },
            KeyCode::Other => (a, None),
        }
    }
}

impl App {
    /// A fresh session in the loading phase, and the discovery task that the
    /// caller is to start for it.
    pub fn new() -> (r: (App, Task))
        ensures
            r.0@ == initial_view(),
            r.1@ == TaskView::Discover,
    {
        let app = App {
            state: AppState::Loading,
            should_quit: false,
            go_versions: Vec::new(),
            go_install_path: String::new(),
            input: String::new(),
            spinner_frame: 0,
            error_message: None,
            deletion_complete: false,
        };
        assert(app@.go_versions =~= seq![]);
        (app, Task::Discover)
    }

    /// Advances the spinner by one frame.
    pub fn on_tick(&mut self)
        ensures
            final(self)@ == (AppView { spinner_frame: next_frame(old(self).spinner_frame), ..old(self)@ }),
    {
        self.spinner_frame = (self.spinner_frame % 8 + 1) % 8;
    }

    /// Takes in the result of a background task.
    pub fn handle_message(&mut self, msg: AppMessage)
        ensures
            final(self)@ == after_message(old(self)@, msg),
    {
        match msg {
            AppMessage::GoFound(Ok(installation)) => {
                self.go_versions = installation.versions;
                self.go_install_path = installation.path_to_delete;
                self.state = AppState::Confirm;
            },
            AppMessage::GoFound(Err(_)) => {
                self.error_message = Some(String::from_str(FIND_FAILURE_MESSAGE));
                self.state = AppState::Complete;
            },
            AppMessage::GoDeleted(Ok(_)) => {
                self.deletion_complete = true;
                self.state = AppState::Complete;
            },
            AppMessage::GoDeleted(Err(_)) => {
                self.error_message = Some(String::from_str(DELETE_FAILURE_MESSAGE));
                self.state = AppState::Complete;
            },
        }
    }

    /// Acts on a submitted input whose lowercase form is `lowered`: the
    /// confirmation word moves the session to deleting and yields the deletion
    /// task, anything else sets the session to end.
    pub fn apply_confirmation(&mut self, lowered: &str) -> (r: Option<Task>)
        ensures
            (final(self)@, task_view(r)) == after_submit(old(self)@, lowered@),
    {
        let confirmed = lowered.unicode_len() == 3 && lowered.get_char(0) == 'y'
            && lowered.get_char(1) == 'e' && lowered.get_char(2) == 's';
        assert(confirmed ==> lowered@ =~= confirmation_word());
        if confirmed {
            self.state = AppState::Deleting;
            Some(Task::Delete(self.go_install_path.clone()))
        } else {
            self.should_quit = true;
            None
        }
    }

    /// Acts on the submitted input, compared with the confirmation word
    /// regardless of case.
    pub fn start_deletion(&mut self) -> (r: Option<Task>)
        ensures
            (final(self)@, task_view(r)) == after_submit(old(self)@, lowercase_of(old(self).input@)),
    {
        let lowered = lowercase(self.input.as_str());
        self.apply_confirmation(lowered.as_str())
    }
}

/// Takes in a key event, and returns the task that it starts, if any.
pub fn handle_key_event(key: Key, app: &mut App) -> (r: Option<Task>)
    ensures
        (final(app)@, task_view(r)) == after_key(old(app)@, key),
{
    if !key.pressed {
        return None;
    }
    if app.state == AppState::Complete {
        match key.code {
            KeyCode::Char('q') | KeyCode::Enter | KeyCode::Esc => {
                app.should_quit = true;
            },
            _ => {},
        }
        return None;
    }
    let confirming = app.state == AppState::Confirm;
    match key.code {
        KeyCode::Char(c) => {
            if (c == 'c' && key.control_only) || c == 'q' {
                app.should_quit = true;
            } else if confirming {
                push_char(&mut app.input, c);
            }
            None
        },
        KeyCode::Esc => {
            app.should_quit = true;
            None
        },
        KeyCode::Enter => {
            if confirming {
                app.start_deletion()
            } else {
                None
            }
        },
        KeyCode::Backspace => {
            if confirming {
                let n = app.input.as_str().unicode_len();
                if n > 0 {
                    app.input = String::from_str(app.input.as_str().substring_char(0, n - 1));
                    assert(app.input@ =~= old(app).input@.drop_last());
                }
            }
            None
        },
        KeyCode::Other => None,
    }
}

/// Something that happens to a session: a key event, or a background task's
/// result.
pub enum SessionEvent {
    Key(Key),
    Message(AppMessage),
}

/// A session's state together with how many tasks it started and how many
/// results it received.
pub struct SessionTrace {
    pub app: AppView,
    pub discoveries: nat,
    pub deletions: nat,
    pub found_received: nat,
    pub deleted_received: nat,
}

/// A session just created: its discovery task is started.
pub open spec fn initial_trace() -> SessionTrace {
    SessionTrace {
        app: initial_view(),
        discoveries: 1,
        deletions: 0,
        found_received: 0,
        deleted_received: 0,
    }
}

/// Counts a started task.
pub open spec fn count_task(t: SessionTrace, task: Option<TaskView>) -> SessionTrace {
    match task {
        Some(TaskView::Discover) => SessionTrace { discoveries: t.discoveries + 1, ..t },
        Some(TaskView::Delete(_)) => SessionTrace { deletions: t.deletions + 1, ..t },
        None => t,
    }
}

/// The trace after one more event.
pub open spec fn trace_step(t: SessionTrace, ev: SessionEvent) -> SessionTrace {
    match ev {
        SessionEvent::Key(k) => {
            let (a, task) = after_key(t.app, k);
            count_task(SessionTrace { app: a, ..t }, task)
        },
        SessionEvent::Message(m) => {
            let a = after_message(t.app, m);
            match m {
                AppMessage::GoFound(_) => SessionTrace {
                    app: a,
                    found_received: t.found_received + 1,
                    ..t
                },
                AppMessage::GoDeleted(_) => SessionTrace {
                    app: a,
                    deleted_received: t.deleted_received + 1,
                    ..t
                },
            }
        },
    }
}

/// The trace of a session after the given events.
pub open spec fn run_session(events: Seq<SessionEvent>) -> SessionTrace
    decreases events.len(),
{
    if events.len() == 0 {
        initial_trace()
    } else {
        trace_step(run_session(events.drop_last()), events.last())
    }
}

/// A result can arrive only for a task that was started and whose result has
/// not arrived yet.
pub open spec fn can_arrive(t: SessionTrace, ev: SessionEvent) -> bool {
    match ev {
        SessionEvent::Key(_) => true,
        SessionEvent::Message(AppMessage::GoFound(_)) => t.found_received < t.discoveries,
        SessionEvent::Message(AppMessage::GoDeleted(_)) => t.deleted_received < t.deletions,
    }
}

/// Every result in the events answers a task started before it.
pub open spec fn feasible(events: Seq<SessionEvent>) -> bool {
    forall|i: int| 0 <= i < events.len() ==> can_arrive(run_session(#[trigger] events.take(i)), events[i])
}

/// What holds of every reachable trace.
pub open spec fn trace_inv(t: SessionTrace) -> bool {
    &&& t.discoveries == 1
    &&& t.found_received <= 1
    &&& t.deletions <= 1
    &&& t.deleted_received <= t.deletions
    &&& t.app.state == AppState::Confirm ==> t.found_received == 1 && t.deletions == 0
    &&& t.deletions == 1 ==> t.found_received == 1 && t.app.state != AppState::Confirm
}

proof fn lemma_trace_step_inv(t: SessionTrace, ev: SessionEvent)
    requires
        trace_inv(t),
        can_arrive(t, ev),
    ensures
        trace_inv(trace_step(t, ev)),
{
}

/// Whatever keys arrive, however fast, and in whatever order the results of
/// started tasks come back, a session starts exactly one discovery and at most
/// one deletion.
pub proof fn lemma_single_dispatch(events: Seq<SessionEvent>)
    requires
        feasible(events),
    ensures
        run_session(events).discoveries == 1,
        run_session(events).deletions <= 1,
{
    lemma_feasible_inv(events);
}

proof fn lemma_feasible_inv(events: Seq<SessionEvent>)
    requires
        feasible(events),
    ensures
        trace_inv(run_session(events)),
    decreases events.len(),
{
    if events.len() > 0 {
        let prev = events.drop_last();
        assert forall|i: int| 0 <= i < prev.len() implies can_arrive(run_session(#[trigger] prev.take(i)), prev[i]) by {
            assert(prev.take(i) =~= events.take(i));
        }
        lemma_feasible_inv(prev);
        let last = events.len() - 1;
        assert(events.take(last) =~= prev);
        assert(can_arrive(run_session(events.take(last)), events[last]));
        lemma_trace_step_inv(run_session(prev), events.last());
    }
}

} // verus!
