//! The workflow's data: the form, the transient state, the host actions, and
//! the transition relation over their mathematical views.

use vstd::prelude::*;
use crate::context::{launch_tags, stage_of, stage_tags, Stage, StageContext};
use crate::path::default_worktree_path;
use crate::program::{resolution, ProgramView, ResolvedProgram};
use crate::text::{decimal_text, lossy_text, trimmed};

verus! {

/// Where a launch attempt stands.
#[derive(Clone, Copy, Debug, PartialEq, Eq, Structural)]
pub enum Phase {
    Idle,
    DetectingRoot,
    CreatingIsolatedCopy,
    LaunchedOk,
    Failed,
}

/// The operator-editable parameters, and the status line shown under them.
#[derive(Clone, Debug, PartialEq, Eq)]
pub struct FormState {
    pub program: String,
    pub branch: String,
    pub worktree_path: String,
    pub base: String,
    pub create_worktree: bool,
    pub status: String,
}

/// The orchestrator: the form, and what the stages have learned so far.
#[derive(Clone, Debug, PartialEq, Eq)]
pub struct State {
    pub form: FormState,
    pub repo_root: Option<String>,
    pub log_path: Option<String>,
    pub phase: Phase,
}

/// The mathematical content of a `State`.
pub struct StateView {
    pub program: Seq<char>,
    pub branch: Seq<char>,
    pub worktree_path: Seq<char>,
    pub base: Seq<char>,
    pub create_worktree: bool,
    pub status: Seq<char>,
    pub repo_root: Option<Seq<char>>,
    pub log_path: Option<Seq<char>>,
    pub phase: Phase,
}

impl View for State {
    type V = StateView;

    open spec fn view(&self) -> StateView {
        StateView {
            program: self.form.program@,
            branch: self.form.branch@,
            worktree_path: self.form.worktree_path@,
            base: self.form.base@,
            create_worktree: self.form.create_worktree,
            status: self.form.status@,
            repo_root: self.repo_root.deep_view(),
            log_path: self.log_path.deep_view(),
            phase: self.phase,
        }
    }
}

/// What the host is asked to do.
#[derive(Clone, Debug, PartialEq, Eq)]
pub enum Action {
    /// Close the tile.
    CloseSelf,
    /// Open a file in a pane next to the tile.
    OpenFile { path: String },
    /// Run a command in the background and report its completion, tagged
    /// with `context`.
    RunCommand { argv: Vec<String>, cwd: String, context: StageContext },
    /// Open an interactive shell rooted at `path`.
    OpenTerminal { path: String },
    /// Open a pane that runs `program` in `cwd`.
    OpenCommandPane { program: ResolvedProgram, cwd: String, context: StageContext },
}

/// The mathematical content of an `Action`.
pub enum ActionView {
    CloseSelf,
    OpenFile { path: Seq<char> },
    RunCommand { argv: Seq<Seq<char>>, cwd: Seq<char>, context: Seq<(Seq<char>, Seq<char>)> },
    OpenTerminal { path: Seq<char> },
    OpenCommandPane { program: ProgramView, cwd: Seq<char>, context: Seq<(Seq<char>, Seq<char>)> },
}

impl View for Action {
    type V = ActionView;

    open spec fn view(&self) -> ActionView {
        match self {
            Action::CloseSelf => ActionView::CloseSelf,
            Action::OpenFile { path } => ActionView::OpenFile { path: path@ },
            Action::RunCommand { argv, cwd, context } => ActionView::RunCommand {
                argv: argv.deep_view(),
                cwd: cwd@,
                context: context@,
            },
            Action::OpenTerminal { path } => ActionView::OpenTerminal { path: path@ },
            Action::OpenCommandPane { program, cwd, context } => ActionView::OpenCommandPane {
                program: program@,
                cwd: cwd@,
                context: context@,
            },
        }
    }
}

impl DeepView for Action {
    type V = ActionView;

    open spec fn deep_view(&self) -> ActionView {
        self@
    }
}

/// A key press, as far as the workflow tells keys apart.
#[derive(Clone, Copy, Debug, PartialEq, Eq, Structural)]
pub enum Key {
    Char(char),
    Enter,
    Other,
}

/// What the host reports.
#[derive(Clone, Debug, PartialEq, Eq)]
pub enum Event {
    /// A key was pressed.
    Key(Key),
    /// A background command has finished.
    CommandResult { exit_code: Option<i32>, stdout: Vec<u8>, stderr: Vec<u8>, context: StageContext },
    /// Anything else.
    Other,
}

/// What the host supplies at the moment of an event: the working directory
/// and the process id.
#[derive(Clone, Debug, PartialEq, Eq)]
pub struct HostEnv {
    pub cwd: String,
    pub pid: u32,
}

/// The answer to an event: whether the tile must be drawn again, and what the
/// host is to do, in order.
#[derive(Clone, Debug, PartialEq, Eq)]
pub struct Outcome {
    pub render: bool,
    pub actions: Vec<Action>,
}

/// One transition: the state it leads to and the answer it gives.
pub struct Step {
    pub state: StateView,
    pub render: bool,
    pub actions: Seq<ActionView>,
}

/// The name of the log file, which lives in the repository root.
pub open spec fn log_file_name() -> Seq<char> {
    "af_zellij_plugin.log"@
}

/// The log file of the repository rooted at `root`.
pub open spec fn log_path_in(root: Seq<char>) -> Seq<char> {
    root + "/"@ + log_file_name()
}

/// The branch that a fresh form proposes.
pub open spec fn default_branch(user: Seq<char>, pid: nat) -> Seq<char> {
    user + "/af-"@ + decimal_text(pid)
}

/// The state in which the orchestrator starts: the form holds the default
/// agent program `program`, a branch named after the user and the process,
/// no worktree path yet, and the default base revision.
pub open spec fn initial_state(program: Seq<char>, user: Seq<char>, pid: nat) -> StateView {
    StateView {
        program,
        branch: default_branch(user, pid),
        worktree_path: Seq::empty(),
        base: "origin/main"@,
        create_worktree: true,
        status: Seq::empty(),
        repo_root: None,
        log_path: None,
        phase: Phase::Idle,
    }
}

/// The command that discovers the repository root.
pub open spec fn detect_root_command() -> ActionView {
    ActionView::RunCommand {
        argv: seq!["git"@, "rev-parse"@, "--show-toplevel"@],
        cwd: "."@,
        context: stage_tags(Stage::DetectRoot),
    }
}

/// The shell script that creates the worktree on a fresh branch and appends
/// everything the command prints to the log.
pub open spec fn worktree_script(
    branch: Seq<char>,
    path: Seq<char>,
    base: Seq<char>,
    log: Seq<char>,
) -> Seq<char> {
    "git worktree add -B "@ + branch + " '"@ + path + "' "@ + base + " 2>&1 | tee -a '"@ + log
        + "'"@
}

/// The command that creates the worktree, run in the repository root.
pub open spec fn create_copy_command(s: StateView, root: Seq<char>) -> ActionView {
    ActionView::RunCommand {
        argv: seq![
            "bash"@,
            "-lc"@,
            worktree_script(s.branch, s.worktree_path, s.base, log_path_in(root)),
        ],
        cwd: root,
        context: stage_tags(Stage::CreateCopy),
    }
}

/// The two panes of a launch in `dir`: a shell, then the agent.
pub open spec fn agent_launch(program: Seq<char>, dir: Seq<char>) -> Seq<ActionView> {
    seq![
        ActionView::OpenTerminal { path: dir },
        ActionView::OpenCommandPane {
            program: resolution(program),
            cwd: dir,
            context: launch_tags(),
        },
    ]
}

/// The root that a finished detection gives: what the command printed,
/// trimmed, or `.` where it failed.
pub open spec fn detected_root(exit_code: Option<i32>, stdout: Seq<u8>) -> Seq<char> {
    if exit_code == Some(0i32) {
        trimmed(lossy_text(stdout))
    } else {
        "."@
    }
}

/// The status line after a launch into a fresh worktree.
pub open spec fn launched_status(path: Seq<char>, branch: Seq<char>) -> Seq<char> {
    "Launched in "@ + path + " on "@ + branch
}

/// The status line after the worktree could not be created.
pub open spec fn failed_status(stderr: Seq<u8>) -> Seq<char> {
    "Failed to create worktree: "@ + trimmed(lossy_text(stderr))
}

/// The status line after a launch in the current directory.
pub open spec fn direct_status() -> Seq<char> {
    "Launched agent without creating worktree"@
}

/// The state with its worktree path settled: a blank path becomes the
/// default for the working directory.
pub open spec fn with_target(s: StateView, cwd: Seq<char>, pid: nat) -> StateView {
    if s.worktree_path.len() == 0 {
        StateView { worktree_path: default_worktree_path(cwd, pid), ..s }
    } else {
        s
    }
}

/// The transition that a launch request makes.
pub open spec fn launched(s: StateView, cwd: Seq<char>, pid: nat) -> Step {
    let t = with_target(s, cwd, pid);
    if t.create_worktree {
        Step {
            state: StateView { phase: Phase::DetectingRoot, ..t },
            render: true,
            actions: seq![detect_root_command()],
        }
    } else {
        Step {
            state: StateView { status: direct_status(), phase: Phase::LaunchedOk, ..t },
            render: true,
            actions: agent_launch(t.program, "."@),
        }
    }
}

/// The transition that a finished root detection makes. It never fails the
/// workflow: a failed detection only degrades the root to `.`.
pub open spec fn root_detected(s: StateView, exit_code: Option<i32>, stdout: Seq<u8>) -> Step {
    let root = detected_root(exit_code, stdout);
    Step {
        state: StateView {
            repo_root: Some(root),
            log_path: Some(log_path_in(root)),
            phase: Phase::CreatingIsolatedCopy,
            ..s
        },
        render: true,
        actions: seq![create_copy_command(s, root)],
    }
}

/// The transition that a finished worktree creation makes.
pub open spec fn copy_created(s: StateView, exit_code: Option<i32>, stderr: Seq<u8>) -> Step {
    if exit_code == Some(0i32) {
        Step {
            state: StateView {
                status: launched_status(s.worktree_path, s.branch),
                phase: Phase::LaunchedOk,
                ..s
            },
            render: true,
            actions: agent_launch(s.program, s.worktree_path),
        }
    } else {
        Step {
            state: StateView { status: failed_status(stderr), phase: Phase::Failed, ..s },
            render: true,
            actions: Seq::empty(),
        }
    }
}

/// A transition that changes nothing and asks for nothing.
pub open spec fn unchanged(s: StateView, render: bool) -> Step {
    Step { state: s, render, actions: Seq::empty() }
}

/// The transition that a command's completion makes: the one of the stage
/// that its tags route to, or none.
pub open spec fn completed(
    s: StateView,
    exit_code: Option<i32>,
    stdout: Seq<u8>,
    stderr: Seq<u8>,
    context: Seq<(Seq<char>, Seq<char>)>,
) -> Step {
    match stage_of(context) {
        Some(Stage::DetectRoot) => root_detected(s, exit_code, stdout),
        Some(Stage::CreateCopy) => copy_created(s, exit_code, stderr),
        None => unchanged(s, false),
    }
}

/// The transition that a key press makes.
pub open spec fn keyed(s: StateView, key: Key, cwd: Seq<char>, pid: nat) -> Step {
    match key {
        Key::Char(c) => if c == 'q' {
            Step { state: s, render: true, actions: seq![ActionView::CloseSelf] }
        } else if c == 'l' {
            match s.log_path {
                Some(path) => Step {
                    state: s,
                    render: true,
                    actions: seq![ActionView::OpenFile { path }],
                },
                None => unchanged(s, true),
            }
        } else {
            unchanged(s, true)
        },
        Key::Enter => launched(s, cwd, pid),
        Key::Other => unchanged(s, true),
    }
}

} // verus!
