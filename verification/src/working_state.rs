//! What one session remembers so that "it", "this" and "the previous one" can
//! be resolved and a multi-step task can be paused and resumed.
use std::collections::VecDeque;
use vstd::prelude::*;
use vstd::string::*;

use crate::json::opt_view;
use crate::text::{
    join, joined, part_stands_in_joined, standing_in_passes_on, stands_in, the_middle_stands_in,
    views,
};

verus! {

/// How many recent action summaries are kept.
pub const MAX_RECENT_ACTIONS: usize = 8;

#[derive(Debug, Clone, Copy, PartialEq, Eq, Structural)]
pub enum TaskStatus {
    Active,
    Paused,
    Complete,
}

/// One multi-step goal and how far it has come.
#[derive(Debug, Clone)]
pub struct TaskState {
    pub goal: String,
    pub steps_done: Vec<String>,
    pub status: TaskStatus,
}

/// The view of a task.
pub struct TaskStateView {
    pub goal: Seq<char>,
    pub steps_done: Seq<Seq<char>>,
    pub status: TaskStatus,
}

impl TaskState {
    pub open spec fn view(&self) -> TaskStateView {
        TaskStateView { goal: self.goal@, steps_done: views(self.steps_done@), status: self.status }
    }
}

#[derive(Debug, Clone)]
pub struct WorkingState {
    pub current_app: Option<String>,
    pub current_window: Option<String>,
    pub current_file: Option<String>,
    pub current_folder: Option<String>,
    pub current_project: Option<String>,
    pub current_task: Option<TaskState>,
    pub recent_actions: VecDeque<String>,
    pub last_result: Option<String>,
}

/// The view of the working state.
pub struct WorkingStateView {
    pub current_app: Option<Seq<char>>,
    pub current_window: Option<Seq<char>>,
    pub current_file: Option<Seq<char>>,
    pub current_folder: Option<Seq<char>>,
    pub current_project: Option<Seq<char>>,
    pub current_task: Option<TaskStateView>,
    pub recent_actions: Seq<Seq<char>>,
    pub last_result: Option<Seq<char>>,
}

/// The view of an optional task.
pub open spec fn task_view(t: Option<TaskState>) -> Option<TaskStateView> {
    match t {
        Some(task) => Some(task@),
        None => None,
    }
}

/// The last `limit` items of a sequence, or all of it where it is shorter.
pub open spec fn last_items<A>(s: Seq<A>, limit: nat) -> Seq<A> {
    if s.len() <= limit {
        s
    } else {
        s.skip(s.len() - limit)
    }
}

/// The word for a status.
pub open spec fn status_word(status: TaskStatus) -> Seq<char> {
    match status {
        TaskStatus::Active => "Active"@,
        TaskStatus::Paused => "Paused"@,
        TaskStatus::Complete => "Complete"@,
    }
}

/// The line that describes a task.
pub open spec fn task_line(task: TaskStateView) -> Seq<char> {
    "Current task ("@ + status_word(task.status) + "): "@ + task.goal + " — steps done so far: "@
        + (if task.steps_done.len() == 0 {
        "none yet"@
    } else {
        joined(task.steps_done, "; "@)
    })
}

/// A labelled line, where there is a value.
pub open spec fn labelled(label: Seq<char>, value: Option<Seq<char>>) -> Seq<Seq<char>> {
    match value {
        Some(v) => seq![label + v],
        None => Seq::empty(),
    }
}

impl WorkingStateView {
    /// The lines of the context block, in order.
    pub open spec fn context_lines(self) -> Seq<Seq<char>> {
        labelled("Current application: "@, self.current_app) + labelled(
            "Current window: "@,
            self.current_window,
        ) + labelled("Current file: "@, self.current_file) + labelled(
            "Current folder: "@,
            self.current_folder,
        ) + labelled("Current project: "@, self.current_project) + (match self.current_task {
            Some(task) => seq![task_line(task)],
            None => Seq::empty(),
        }) + (if self.recent_actions.len() > 0 {
            seq!["Recent actions this session: "@ + joined(self.recent_actions, "; "@)]
        } else {
            Seq::empty()
        }) + labelled(
            "Result of the most recent action (what \"it\"/\"that\" refers to): "@,
            self.last_result,
        )
    }

    /// The context block: the lines on one another, or nothing where there is
    /// no line.
    pub open spec fn context_block(self) -> Option<Seq<char>> {
        let lines = self.context_lines();
        if lines.len() == 0 {
            None
        } else {
            Some(joined(lines, "\n"@))
        }
    }

    /// After an action: its summary is the newest of the recent ones, and its
    /// result the last result.
    pub open spec fn recorded(self, summary: Seq<char>, result: Seq<char>) -> WorkingStateView {
        WorkingStateView {
            recent_actions: last_items(
                self.recent_actions.push(summary),
                MAX_RECENT_ACTIONS as nat,
            ),
            last_result: Some(result),
            ..self
        }
    }

    /// The same state with another task.
    pub open spec fn with_task(self, task: Option<TaskStateView>) -> WorkingStateView {
        WorkingStateView { current_task: task, ..self }
    }

    /// The task moved from status `from` to status `to`, if it has the first.
    pub open spec fn task_moved(self, from: TaskStatus, to: TaskStatus) -> WorkingStateView {
        match self.current_task {
            Some(task) if task.status == from => self.with_task(
                Some(TaskStateView { status: to, ..task }),
            ),
            _ => self,
        }
    }
}

/// The newer of two optional texts: the given one, else the present one.
pub open spec fn newer(given: Option<Seq<char>>, present: Option<Seq<char>>) -> Option<Seq<char>> {
    if given is Some {
        given
    } else {
        present
    }
}

fn status_text(status: TaskStatus) -> (r: &'static str)
    ensures
        r@ == status_word(status),
{
    match status {
        TaskStatus::Active => "Active",
        TaskStatus::Paused => "Paused",
        TaskStatus::Complete => "Complete",
    }
}

/// Adds the line `label` `value` where there is a value.
fn push_labelled(lines: &mut Vec<String>, label: &str, value: &Option<String>)
    ensures
        views(final(lines)@) == views(old(lines)@) + labelled(label@, opt_view(*value)),
{
    match value {
        Some(v) => {
            let mut line: String = label.to_owned();
            line.append(v.as_str());
            push_line(lines, line);
        },
        None => {
            proof {
                assert(views(lines@) + Seq::<Seq<char>>::empty() =~= views(lines@));
            }
        },
    }
}

/// Adds one line.
fn push_line(lines: &mut Vec<String>, line: String)
    ensures
        views(final(lines)@) == views(old(lines)@) + seq![line@],
{
    lines.push(line);
    proof {
        assert(views(lines@) =~= views(old(lines)@) + seq![line@]);
    }
}

impl WorkingState {
    pub open spec fn view(&self) -> WorkingStateView {
        WorkingStateView {
            current_app: opt_view(self.current_app),
            current_window: opt_view(self.current_window),
            current_file: opt_view(self.current_file),
            current_folder: opt_view(self.current_folder),
            current_project: opt_view(self.current_project),
            current_task: task_view(self.current_task),
            recent_actions: views(self.recent_actions@),
            last_result: opt_view(self.last_result),
        }
    }

    /// Records one action and its result. Only the newest
    /// `MAX_RECENT_ACTIONS` summaries are kept.
    pub fn record_action(&mut self, summary: &str, result: &str)
        ensures
            final(self)@ == old(self)@.recorded(summary@, result@),
    {
        let ghost before = self.recent_actions@;
        self.recent_actions.push_back(summary.to_owned());
        let ghost pushed = self.recent_actions@;
        proof {
            assert(views(pushed) =~= views(before).push(summary@));
            assert(pushed.skip(0) =~= pushed);
        }
        let ghost mut dropped: int = 0;
        while self.recent_actions.len() > MAX_RECENT_ACTIONS
            invariant
                0 <= dropped <= pushed.len(),
                self.recent_actions@ == pushed.skip(dropped),
                dropped > 0 ==> pushed.len() - dropped >= MAX_RECENT_ACTIONS,
                self.current_app == old(self).current_app,
                self.current_window == old(self).current_window,
                self.current_file == old(self).current_file,
                self.current_folder == old(self).current_folder,
                self.current_project == old(self).current_project,
                self.current_task == old(self).current_task,
            decreases self.recent_actions@.len(),
        {
            proof {
                assert(pushed.skip(dropped).drop_first() =~= pushed.skip(dropped + 1));
                assert(pushed.skip(dropped).subrange(1, pushed.skip(dropped).len() as int)
                    =~= pushed.skip(dropped + 1));
                dropped = dropped + 1;
            }
            self.recent_actions.pop_front();
        }
        self.last_result = Some(result.to_owned());
        proof {
            assert(views(self.recent_actions@) =~= last_items(
                views(before).push(summary@),
                MAX_RECENT_ACTIONS as nat,
            ));
        }
    }

    /// Starts a task in place of any previous one.
    pub fn start_task(&mut self, goal: &str)
        ensures
            final(self)@ == old(self)@.with_task(
                Some(
                    TaskStateView {
                        goal: goal@,
                        steps_done: Seq::empty(),
                        status: TaskStatus::Active,
                    },
                ),
            ),
    {
        self.current_task = Some(
            TaskState {
                goal: goal.to_owned(),
                steps_done: Vec::new(),
                status: TaskStatus::Active,
            },
        );
        proof {
            assert(self@.current_task->0.steps_done =~= Seq::empty());
        }
    }

    /// Pauses an active task; nothing else changes.
    pub fn pause_task(&mut self)
        ensures
            final(self)@ == old(self)@.task_moved(TaskStatus::Active, TaskStatus::Paused),
    {
        if let Some(task) = self.current_task.as_mut() {
            if task.status == TaskStatus::Active {
                task.status = TaskStatus::Paused;
            }
        }
    }

    /// Makes a paused task active again; nothing else changes.
    pub fn resume_task(&mut self)
        ensures
            final(self)@ == old(self)@.task_moved(TaskStatus::Paused, TaskStatus::Active),
    {
        if let Some(task) = self.current_task.as_mut() {
            if task.status == TaskStatus::Paused {
                task.status = TaskStatus::Active;
            }
        }
    }

    /// Marks the task complete, whatever its status.
    pub fn complete_task(&mut self)
        ensures
            final(self)@ == (match old(self)@.current_task {
                Some(task) => old(self)@.with_task(
                    Some(TaskStateView { status: TaskStatus::Complete, ..task }),
                ),
                None => old(self)@,
            }),
    {
        if let Some(task) = self.current_task.as_mut() {
            task.status = TaskStatus::Complete;
        }
    }

    /// Notes what the last action was about. A value that is not given leaves
    /// the present one.
    pub fn note_context(
        &mut self,
        app: Option<String>,
        window: Option<String>,
        file: Option<String>,
        folder: Option<String>,
    )
        ensures
            final(self)@ == (WorkingStateView {
                current_app: newer(opt_view(app), old(self)@.current_app),
                current_window: newer(opt_view(window), old(self)@.current_window),
                current_file: newer(opt_view(file), old(self)@.current_file),
                current_folder: newer(opt_view(folder), old(self)@.current_folder),
                ..old(self)@
            }),
    {
        if app.is_some() {
            self.current_app = app;
        }
        if window.is_some() {
            self.current_window = window;
        }
        if file.is_some() {
            self.current_file = file;
        }
        if folder.is_some() {
            self.current_folder = folder;
        }
    }

    /// The state as a short block for a prompt, or nothing where there is
    /// nothing to mention.
    pub fn render_context_block(&self) -> (r: Option<String>)
        ensures
            opt_view(r) == self@.context_block(),
    {
        let mut lines: Vec<String> = Vec::new();
        proof {
            assert(views(lines@) =~= Seq::empty());
        }
        push_labelled(&mut lines, "Current application: ", &self.current_app);
        proof {
            assert(Seq::<Seq<char>>::empty() + labelled("Current application: "@, self@.current_app)
                =~= labelled("Current application: "@, self@.current_app));
        }
        push_labelled(&mut lines, "Current window: ", &self.current_window);
        push_labelled(&mut lines, "Current file: ", &self.current_file);
        push_labelled(&mut lines, "Current folder: ", &self.current_folder);
        push_labelled(&mut lines, "Current project: ", &self.current_project);
        let ghost so_far = views(lines@);
        match &self.current_task {
            Some(task) => {
                let mut line: String = "Current task (".to_owned();
                line.append(status_text(task.status));
                line.append("): ");
                line.append(task.goal.as_str());
                line.append(" — steps done so far: ");
                if task.steps_done.len() == 0 {
                    line.append("none yet");
                } else {
                    let steps: String = join(&task.steps_done, "; ");
                    line.append(steps.as_str());
                }
                push_line(&mut lines, line);
            },
            None => {
                proof {
                    assert(so_far + Seq::<Seq<char>>::empty() =~= so_far);
                }
            },
        }
        let ghost so_far = views(lines@);
        if self.recent_actions.len() > 0 {
            let recent: Vec<String> = self.recent_list();
            let mut line: String = "Recent actions this session: ".to_owned();
            let all: String = join(&recent, "; ");
            line.append(all.as_str());
            push_line(&mut lines, line);
        } else {
            proof {
                assert(so_far + Seq::<Seq<char>>::empty() =~= so_far);
            }
        }
        push_labelled(
            &mut lines,
            "Result of the most recent action (what \"it\"/\"that\" refers to): ",
            &self.last_result,
        );
        if lines.len() == 0 {
            None
        } else {
            Some(join(&lines, "\n"))
        }
    }

    /// The recent actions as a list, oldest first.
    fn recent_list(&self) -> (r: Vec<String>)
        ensures
            views(r@) == self@.recent_actions,
    {
        let mut out: Vec<String> = Vec::new();
        let mut i: usize = 0;
        while i < self.recent_actions.len()
            invariant
                i <= self.recent_actions@.len(),
                out@.len() == i,
                forall|j: int| 0 <= j < i ==> (#[trigger] out@[j])@ == self.recent_actions@[j]@,
            decreases self.recent_actions@.len() - i,
        {
            out.push(self.recent_actions[i].clone());
            i += 1;
        }
        proof {
            assert(views(out@) =~= views(self.recent_actions@));
        }
        out
    }
}

impl Default for WorkingState {
    fn default() -> (r: WorkingState)
        ensures
            r@ == (WorkingStateView {
                current_app: None,
                current_window: None,
                current_file: None,
                current_folder: None,
                current_project: None,
                current_task: None,
                recent_actions: Seq::empty(),
                last_result: None,
            }),
    {
        let r = WorkingState {
            current_app: None,
            current_window: None,
            current_file: None,
            current_folder: None,
            current_project: None,
            current_task: None,
            recent_actions: VecDeque::new(),
            last_result: None,
        };
        proof {
            assert(r@.recent_actions =~= Seq::empty());
        }
        r
    }
}

/// However many actions are recorded, at most `MAX_RECENT_ACTIONS` summaries
/// are kept; the newest is among them, and those kept are the newest ones in
/// their order.
pub proof fn recent_actions_are_bounded(
    state: WorkingStateView,
    summary: Seq<char>,
    result: Seq<char>,
)
    ensures
        ({
            let after = state.recorded(summary, result).recent_actions;
            &&& after.len() <= MAX_RECENT_ACTIONS
            &&& after.last() == summary
            &&& after.is_suffix_of(state.recent_actions.push(summary))
        }),
{
}

/// Pausing and then resuming an active task restores the state.
pub proof fn pause_then_resume_restores(state: WorkingStateView)
    requires
        state.current_task is Some,
        state.current_task->0.status == TaskStatus::Active,
    ensures
        state.task_moved(TaskStatus::Active, TaskStatus::Paused).task_moved(
            TaskStatus::Paused,
            TaskStatus::Active,
        ) == state,
{
}

/// Pausing a state without an active task, and resuming one without a paused
/// task, changes nothing.
pub proof fn pause_and_resume_need_a_task(state: WorkingStateView)
    ensures
        !(state.current_task is Some && state.current_task->0.status == TaskStatus::Active)
            ==> state.task_moved(TaskStatus::Active, TaskStatus::Paused) == state,
        !(state.current_task is Some && state.current_task->0.status == TaskStatus::Paused)
            ==> state.task_moved(TaskStatus::Paused, TaskStatus::Active) == state,
{
}

/// There is a context block exactly when the state holds something to
/// mention; a recorded action is always something to mention.
pub proof fn context_block_when_something_to_mention(state: WorkingStateView)
    ensures
        state.context_block() is None <==> {
            &&& state.current_app is None
            &&& state.current_window is None
            &&& state.current_file is None
            &&& state.current_folder is None
            &&& state.current_project is None
            &&& state.current_task is None
            &&& state.recent_actions.len() == 0
            &&& state.last_result is None
        },
        forall|summary: Seq<char>, result: Seq<char>|
            (#[trigger] state.recorded(summary, result)).context_block() is Some,
{
}

/// The last items of a sequence are its end: no more than the limit, no fewer
/// than there are up to it, and in order.
pub proof fn the_last_items_are_the_end<A>(s: Seq<A>, limit: nat, i: int)
    ensures
        last_items(s, limit).len() == (if s.len() < limit {
            s.len()
        } else {
            limit
        }),
        0 <= i < last_items(s, limit).len() ==> last_items(s, limit)[last_items(s, limit).len() - 1
            - i] == s[s.len() - 1 - i],
{
}

/// What is being worked on is mentioned: the application, the window, the file,
/// the folder and the project, each under its own name; the task with its goal
/// and all steps that are done; every recent action; and the last result.
pub proof fn what_is_worked_on_is_mentioned(state: WorkingStateView, i: int)
    ensures
        ({
            let shown = state.context_block();
            &&& state.current_app matches Some(t) ==> shown is Some && stands_in(
                shown->Some_0,
                "Current application: "@ + t,
            )
            &&& state.current_window matches Some(t) ==> shown is Some && stands_in(
                shown->Some_0,
                "Current window: "@ + t,
            )
            &&& state.current_file matches Some(t) ==> shown is Some && stands_in(
                shown->Some_0,
                "Current file: "@ + t,
            )
            &&& state.current_folder matches Some(t) ==> shown is Some && stands_in(
                shown->Some_0,
                "Current folder: "@ + t,
            )
            &&& state.current_project matches Some(t) ==> shown is Some && stands_in(
                shown->Some_0,
                "Current project: "@ + t,
            )
            &&& state.last_result matches Some(t) ==> shown is Some && stands_in(shown->Some_0, t)
            &&& state.current_task matches Some(task) ==> shown is Some && stands_in(
                shown->Some_0,
                task.goal,
            ) && (0 <= i < task.steps_done.len() ==> stands_in(
                shown->Some_0,
                task.steps_done[i],
            ))
            &&& 0 <= i < state.recent_actions.len() ==> shown is Some && stands_in(
                shown->Some_0,
                state.recent_actions[i],
            )
        }),
{
    places_are_shown(state);
    match state.current_task {
        Some(task) => {
            the_task_is_shown(state, task, i);
        },
        None => {},
    }
    if 0 <= i < state.recent_actions.len() {
        an_action_is_shown(state, i);
    }
    match state.last_result {
        Some(t) => {
            the_result_is_shown(state, t);
        },
        None => {},
    }
}

/// The lines of the places that are being worked in.
spec fn place_lines(state: WorkingStateView) -> Seq<Seq<char>> {
    labelled("Current application: "@, state.current_app) + labelled(
        "Current window: "@,
        state.current_window,
    ) + labelled("Current file: "@, state.current_file) + labelled(
        "Current folder: "@,
        state.current_folder,
    ) + labelled("Current project: "@, state.current_project)
}

/// The line of the task.
spec fn task_lines(state: WorkingStateView) -> Seq<Seq<char>> {
    match state.current_task {
        Some(task) => seq![task_line(task)],
        None => Seq::empty(),
    }
}

/// The line of the recent actions.
spec fn action_lines(state: WorkingStateView) -> Seq<Seq<char>> {
    if state.recent_actions.len() > 0 {
        seq!["Recent actions this session: "@ + joined(state.recent_actions, "; "@)]
    } else {
        Seq::empty()
    }
}

/// The line of the last result.
spec fn result_lines(state: WorkingStateView) -> Seq<Seq<char>> {
    labelled(
        "Result of the most recent action (what \"it\"/\"that\" refers to): "@,
        state.last_result,
    )
}

proof fn the_lines_in_parts(state: WorkingStateView)
    ensures
        state.context_lines() == place_lines(state) + task_lines(state) + action_lines(state)
            + result_lines(state),
{
}

proof fn a_line_is_shown(
    state: WorkingStateView,
    before: Seq<Seq<char>>,
    line: Seq<char>,
    after: Seq<Seq<char>>,
)
    requires
        state.context_lines() == before + seq![line] + after,
    ensures
        state.context_block() is Some,
        stands_in(state.context_block()->Some_0, line),
{
    let lines = state.context_lines();
    let k = before.len() as int;
    assert(lines[k] == line);
    part_stands_in_joined(lines, "\n"@, k);
}

proof fn places_are_shown(state: WorkingStateView)
    ensures
        ({
            let shown = state.context_block();
            &&& state.current_app matches Some(t) ==> shown is Some && stands_in(
                shown->Some_0,
                "Current application: "@ + t,
            )
            &&& state.current_window matches Some(t) ==> shown is Some && stands_in(
                shown->Some_0,
                "Current window: "@ + t,
            )
            &&& state.current_file matches Some(t) ==> shown is Some && stands_in(
                shown->Some_0,
                "Current file: "@ + t,
            )
            &&& state.current_folder matches Some(t) ==> shown is Some && stands_in(
                shown->Some_0,
                "Current folder: "@ + t,
            )
            &&& state.current_project matches Some(t) ==> shown is Some && stands_in(
                shown->Some_0,
                "Current project: "@ + t,
            )
        }),
{
    let a = labelled("Current application: "@, state.current_app);
    let b = labelled("Current window: "@, state.current_window);
    let c = labelled("Current file: "@, state.current_file);
    let d = labelled("Current folder: "@, state.current_folder);
    let e = labelled("Current project: "@, state.current_project);
    let z = task_lines(state) + action_lines(state) + result_lines(state);
    the_lines_in_parts(state);
    regrouped(a, b, c, d, e, task_lines(state), action_lines(state), result_lines(state));
    let none = Seq::<Seq<char>>::empty();
    a_place_is_shown(state, none, "Current application: "@, state.current_app, b + c + d + e + z);
    a_place_is_shown(state, a, "Current window: "@, state.current_window, c + d + e + z);
    a_place_is_shown(state, a + b, "Current file: "@, state.current_file, d + e + z);
    a_place_is_shown(state, a + b + c, "Current folder: "@, state.current_folder, e + z);
    a_place_is_shown(state, a + b + c + d, "Current project: "@, state.current_project, z);
}

proof fn regrouped<A>(
    a: Seq<A>,
    b: Seq<A>,
    c: Seq<A>,
    d: Seq<A>,
    e: Seq<A>,
    x: Seq<A>,
    y: Seq<A>,
    w: Seq<A>,
)
    ensures
        ({
            let z = x + y + w;
            let all = a + b + c + d + e + x + y + w;
            &&& all == Seq::empty() + a + (b + c + d + e + z)
            &&& all == a + b + (c + d + e + z)
            &&& all == (a + b) + c + (d + e + z)
            &&& all == (a + b + c) + d + (e + z)
            &&& all == (a + b + c + d) + e + z
        }),
{
    let z = x + y + w;
    let all = a + b + c + d + e + x + y + w;
    assert(all =~= Seq::empty() + a + (b + c + d + e + z));
    assert(all =~= a + b + (c + d + e + z));
    assert(all =~= (a + b) + c + (d + e + z));
    assert(all =~= (a + b + c) + d + (e + z));
    assert(all =~= (a + b + c + d) + e + z);
}

proof fn a_place_is_shown(
    state: WorkingStateView,
    before: Seq<Seq<char>>,
    label: Seq<char>,
    place: Option<Seq<char>>,
    after: Seq<Seq<char>>,
)
    requires
        state.context_lines() == before + labelled(label, place) + after,
    ensures
        place matches Some(t) ==> state.context_block() is Some && stands_in(
            state.context_block()->Some_0,
            label + t,
        ),
{
    match place {
        Some(t) => {
            a_line_is_shown(state, before, label + t, after);
        },
        None => {},
    }
}

proof fn the_task_is_shown(state: WorkingStateView, task: TaskStateView, i: int)
    requires
        state.current_task == Some(task),
    ensures
        state.context_block() is Some,
        stands_in(state.context_block()->Some_0, task.goal),
        0 <= i < task.steps_done.len() ==> stands_in(
            state.context_block()->Some_0,
            task.steps_done[i],
        ),
{
    the_lines_in_parts(state);
    let line = task_line(task);
    let after = action_lines(state) + result_lines(state);
    assert(state.context_lines() =~= place_lines(state) + seq![line] + after);
    a_line_is_shown(state, place_lines(state), line, after);
    let text = state.context_block()->Some_0;
    let before = "Current task ("@ + status_word(task.status) + "): "@;
    let steps = if task.steps_done.len() == 0 {
        "none yet"@
    } else {
        joined(task.steps_done, "; "@)
    };
    the_middle_stands_in(before, task.goal, " — steps done so far: "@ + steps);
    assert(line =~= before + task.goal + (" — steps done so far: "@ + steps));
    standing_in_passes_on(text, line, task.goal);
    if 0 <= i < task.steps_done.len() {
        part_stands_in_joined(task.steps_done, "; "@, i);
        the_middle_stands_in(before + task.goal + " — steps done so far: "@, steps, Seq::empty());
        standing_in_passes_on(text, line, steps);
        standing_in_passes_on(text, steps, task.steps_done[i]);
    }
}

proof fn an_action_is_shown(state: WorkingStateView, i: int)
    requires
        0 <= i < state.recent_actions.len(),
    ensures
        state.context_block() is Some,
        stands_in(state.context_block()->Some_0, state.recent_actions[i]),
{
    the_lines_in_parts(state);
    let before = place_lines(state) + task_lines(state);
    let actions = joined(state.recent_actions, "; "@);
    let line = "Recent actions this session: "@ + actions;
    assert(state.context_lines() =~= before + seq![line] + result_lines(state));
    a_line_is_shown(state, before, line, result_lines(state));
    let text = state.context_block()->Some_0;
    part_stands_in_joined(state.recent_actions, "; "@, i);
    the_middle_stands_in("Recent actions this session: "@, actions, Seq::empty());
    standing_in_passes_on(text, line, actions);
    standing_in_passes_on(text, actions, state.recent_actions[i]);
}

proof fn the_result_is_shown(state: WorkingStateView, result: Seq<char>)
    requires
        state.last_result == Some(result),
    ensures
        state.context_block() is Some,
        stands_in(state.context_block()->Some_0, result),
{
    the_lines_in_parts(state);
    let before = place_lines(state) + task_lines(state) + action_lines(state);
    let label = "Result of the most recent action (what \"it\"/\"that\" refers to): "@;
    let line = label + result;
    let none = Seq::<Seq<char>>::empty();
    assert(state.context_lines() =~= before + seq![line] + none);
    a_line_is_shown(state, before, line, none);
    the_middle_stands_in(label, result, Seq::empty());
    standing_in_passes_on(state.context_block()->Some_0, line, result);
}

/// Recording an action adds it to the recent ones and keeps its result; nothing
/// else changes. A recorded action is there until enough others have followed.
pub proof fn a_recorded_action_is_kept(
    state: WorkingStateView,
    summary: Seq<char>,
    result: Seq<char>,
)
    ensures
        ({
            let after = state.recorded(summary, result);
            &&& after.last_result == Some(result)
            &&& after.recent_actions.last() == summary
            &&& state.recent_actions.len() < 8 ==> after.recent_actions
                == state.recent_actions.push(summary)
            &&& state.recent_actions.len() == 8 ==> after.recent_actions
                == state.recent_actions.drop_first().push(summary)
            &&& after.current_app == state.current_app
            &&& after.current_window == state.current_window
            &&& after.current_file == state.current_file
            &&& after.current_folder == state.current_folder
            &&& after.current_project == state.current_project
            &&& after.current_task == state.current_task
        }),
{
    let all = state.recent_actions.push(summary);
    if state.recent_actions.len() == 8 {
        assert(all.skip(1) =~= state.recent_actions.drop_first().push(summary));
    }
}

/// Moving a task on changes its status and nothing else.
pub proof fn a_task_keeps_its_goal_and_steps(
    state: WorkingStateView,
    from: TaskStatus,
    to: TaskStatus,
)
    requires
        state.current_task is Some,
    ensures
        ({
            let after = state.task_moved(from, to);
            let task = state.current_task->Some_0;
            &&& after.current_task is Some
            &&& after.current_task->Some_0.goal == task.goal
            &&& after.current_task->Some_0.steps_done == task.steps_done
            &&& task.status == from ==> after.current_task->Some_0.status == to
            &&& task.status != from ==> after.current_task->Some_0.status == task.status
            &&& after.recent_actions == state.recent_actions
            &&& after.last_result == state.last_result
            &&& after.current_file == state.current_file
            &&& after.current_folder == state.current_folder
            &&& after.current_app == state.current_app
            &&& after.current_window == state.current_window
            &&& after.current_project == state.current_project
        }),
{
}

/// What the contracts say of a value is said of its fields, each under its own name.
pub proof fn each_field_is_seen_as_it_is(state: WorkingState)
    ensures
        state@.current_app == opt_view(state.current_app),
        state@.current_window == opt_view(state.current_window),
        state@.current_file == opt_view(state.current_file),
        state@.current_folder == opt_view(state.current_folder),
        state@.current_project == opt_view(state.current_project),
        state@.current_task == task_view(state.current_task),
        state@.recent_actions == views(state.recent_actions@),
        state@.last_result == opt_view(state.last_result),
{
}

/// What is given takes the place of what was there, and what is not given stays.
pub proof fn what_is_given_is_newer(given: Seq<char>, present: Option<Seq<char>>)
    ensures
        newer(Some(given), present) == Some(given),
        newer(None, present) == present,
{
}

} // verus!
