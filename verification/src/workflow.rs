//! The stage state machine: what the orchestrator does on a launch request,
//! on a key press and on the completion of a command.

use vstd::prelude::*;
use crate::context::{stage_of, Stage, StageContext};
use crate::model::{
    agent_launch, completed, copy_created, create_copy_command, detect_root_command,
    detected_root, failed_status, direct_status, initial_state, keyed, launched, log_path_in,
    root_detected, unchanged, with_target, Action, ActionView, Event, FormState, HostEnv, Key,
    Outcome, Phase, State, StateView, Step,
};
use crate::path::default_target;
use crate::program::resolve_program;
use crate::text::{decimal, trimmed_output};

verus! {

/// The transition that a call has made, read off the state it left and the
/// answer it gave.
pub open spec fn step_of(state: State, outcome: Outcome) -> Step {
    Step { state: state@, render: outcome.render, actions: outcome.actions.deep_view() }
}

fn three(a: &str, b: &str, c: &str) -> (r: Vec<String>)
    ensures
        r.deep_view() == seq![a@, b@, c@],
{
    let mut r: Vec<String> = Vec::new();
    r.push(String::from_str(a));
    r.push(String::from_str(b));
    r.push(String::from_str(c));
    assert(r.deep_view() =~= seq![a@, b@, c@]);
    r
}

fn no_actions() -> (r: Vec<Action>)
    ensures
        r.deep_view() == Seq::<ActionView>::empty(),
{
    let r: Vec<Action> = Vec::new();
    assert(r.deep_view() =~= Seq::<ActionView>::empty());
    r
}

fn one_action(a: Action) -> (r: Vec<Action>)
    ensures
        r.deep_view() == seq![a@],
{
    let mut r: Vec<Action> = Vec::new();
    r.push(a);
    assert(r.deep_view() =~= seq![a@]);
    r
}

/// The log file of the repository rooted at `root`.
pub fn log_path_for(root: &str) -> (r: String)
    ensures
        r@ == log_path_in(root@),
{
    let mut r = String::from_str(root);
    r.append("/");
    r.append("af_zellij_plugin.log");
    r
}

/// The two panes of a launch in `dir`: a shell, then the resolved agent
/// program.
pub fn agent_launch_actions(program: &str, dir: &str) -> (r: Vec<Action>)
    ensures
        r.deep_view() == agent_launch(program@, dir@),
{
    let shell = Action::OpenTerminal { path: String::from_str(dir) };
    let pane = Action::OpenCommandPane {
        program: resolve_program(program),
        cwd: String::from_str(dir),
        context: StageContext::for_launch(),
    };
    let mut r: Vec<Action> = Vec::new();
    r.push(shell);
    r.push(pane);
    assert(r.deep_view() =~= agent_launch(program@, dir@));
    r
}

impl State {
    /// A fresh orchestrator for the operating user `user` and the process
    /// `pid`, with `program` as the agent that the form proposes: the default
    /// form, nothing learned, no status.
    pub fn new(program: &str, user: &str, pid: u32) -> (r: State)
        ensures
            r@ == initial_state(program@, user@, pid as nat),
    {
        let mut branch = String::from_str(user);
        branch.append("/af-");
        let id = decimal(pid);
        branch.append(id.as_str());
        State {
            form: FormState {
                program: String::from_str(program),
                branch,
                worktree_path: String::new(),
                base: String::from_str("origin/main"),
                create_worktree: true,
                status: String::new(),
            },
            repo_root: None,
            log_path: None,
            phase: Phase::Idle,
        }
    }

    /// The command that creates the worktree from the form's branch, path
    /// and base revision, run in `root` and logged there.
    pub fn create_copy_action(&self, root: &str) -> (r: Action)
        ensures
            r@ == create_copy_command(self@, root@),
    {
        let log = log_path_for(root);
        let mut script = String::from_str("git worktree add -B ");
        script.append(self.form.branch.as_str());
        script.append(" '");
        script.append(self.form.worktree_path.as_str());
        script.append("' ");
        script.append(self.form.base.as_str());
        script.append(" 2>&1 | tee -a '");
        script.append(log.as_str());
        script.append("'");
        Action::RunCommand {
            argv: three("bash", "-lc", script.as_str()),
            cwd: String::from_str(root),
            context: StageContext::for_stage(Stage::CreateCopy),
        }
    }

    /// Starts a launch. A blank worktree path is first settled from the
    /// working directory, so that the path is never empty once a launch is
    /// under way. With a worktree requested, the one action is the
    /// command that detects the repository root; without, the two panes open
    /// at once in the current directory and the status says so.
    pub fn launch(&mut self, env: &HostEnv) -> (r: Vec<Action>)
        ensures
            final(self)@ == launched(old(self)@, env.cwd@, env.pid as nat).state,
            r.deep_view() == launched(old(self)@, env.cwd@, env.pid as nat).actions,
            final(self)@.worktree_path.len() > 0,
    {
        if self.form.worktree_path.as_str().is_empty() {
            self.form.worktree_path = default_target(env.cwd.as_str(), env.pid);
        }
        if self.form.create_worktree {
            self.phase = Phase::DetectingRoot;
            one_action(
                Action::RunCommand {
                    argv: three("git", "rev-parse", "--show-toplevel"),
                    cwd: String::from_str("."),
                    context: StageContext::for_stage(Stage::DetectRoot),
                },
            )
        } else {
            let r = agent_launch_actions(self.form.program.as_str(), ".");
            self.form.status = String::from_str("Launched agent without creating worktree");
            self.phase = Phase::LaunchedOk;
            r
        }
    }

    /// Answers the completion of a command. The tags decide: a finished root
    /// detection records the root and the log path and issues the worktree
    /// command; a finished worktree creation opens the panes or reports the
    /// failure; any other completion changes nothing and asks for nothing.
    pub fn on_command_result(
        &mut self,
        exit_code: Option<i32>,
        stdout: Vec<u8>,
        stderr: Vec<u8>,
        context: &StageContext,
    ) -> (r: Outcome)
        ensures
            step_of(*final(self), r) == completed(
                old(self)@,
                exit_code,
                stdout@,
                stderr@,
                context@,
            ),
    {
        let succeeded = match exit_code {
            Some(code) => code == 0,
            None => false,
        };
        match context.stage() {
            Some(Stage::DetectRoot) => {
                let root = if succeeded {
                    trimmed_output(stdout)
                } else {
                    String::from_str(".")
                };
                let command = self.create_copy_action(root.as_str());
                self.log_path = Some(log_path_for(root.as_str()));
                self.repo_root = Some(root);
                self.phase = Phase::CreatingIsolatedCopy;
                Outcome { render: true, actions: one_action(command) }
            },
            Some(Stage::CreateCopy) => {
                if succeeded {
                    let actions = agent_launch_actions(
                        self.form.program.as_str(),
                        self.form.worktree_path.as_str(),
                    );
                    let mut status = String::from_str("Launched in ");
                    status.append(self.form.worktree_path.as_str());
                    status.append(" on ");
                    status.append(self.form.branch.as_str());
                    self.form.status = status;
                    self.phase = Phase::LaunchedOk;
                    Outcome { render: true, actions }
                } else {
                    let mut status = String::from_str("Failed to create worktree: ");
                    let error = trimmed_output(stderr);
                    status.append(error.as_str());
                    self.form.status = status;
                    self.phase = Phase::Failed;
                    Outcome { render: true, actions: no_actions() }
                }
            },
            None => Outcome { render: false, actions: no_actions() },
        }
    }

    /// Answers a key press: `q` closes the tile, `l` opens the log once its
    /// path is known, Enter starts a launch, and every key asks for a redraw.
    pub fn on_key(&mut self, key: Key, env: &HostEnv) -> (r: Outcome)
        ensures
            step_of(*final(self), r) == keyed(old(self)@, key, env.cwd@, env.pid as nat),
            key == Key::Enter ==> final(self)@.worktree_path.len() > 0,
    {
        match key {
            Key::Char(c) => {
                if c == 'q' {
                    Outcome { render: true, actions: one_action(Action::CloseSelf) }
                } else if c == 'l' {
                    match &self.log_path {
                        Some(path) => Outcome {
                            render: true,
                            actions: one_action(Action::OpenFile { path: path.clone() }),
                        },
                        None => Outcome { render: true, actions: no_actions() },
                    }
                } else {
                    Outcome { render: true, actions: no_actions() }
                }
            },
            Key::Enter => {
                let actions = self.launch(env);
                Outcome { render: true, actions }
            },
            Key::Other => Outcome { render: true, actions: no_actions() },
        }
    }

    /// Advances the orchestrator by one host event and says what the host is
    /// to do next.
    pub fn update(&mut self, event: Event, env: &HostEnv) -> (r: Outcome)
        ensures
            step_of(*final(self), r) == (match event {
                Event::Key(key) => keyed(old(self)@, key, env.cwd@, env.pid as nat),
                Event::CommandResult { exit_code, stdout, stderr, context } => completed(
                    old(self)@,
                    exit_code,
                    stdout@,
                    stderr@,
                    context@,
                ),
                Event::Other => unchanged(old(self)@, false),
            }),
            event matches Event::Key(Key::Enter) ==> final(self)@.worktree_path.len() > 0,
    {
        match event {
            Event::Key(key) => self.on_key(key, env),
            Event::CommandResult { exit_code, stdout, stderr, context } => {
                self.on_command_result(exit_code, stdout, stderr, &context)
            },
            Event::Other => Outcome { render: false, actions: no_actions() },
        }
    }
}

/// A completion whose tags name no known stage changes no field of the
/// state and asks the host for nothing.
pub proof fn unrouted_completion_is_ignored(
    s: StateView,
    exit_code: Option<i32>,
    stdout: Seq<u8>,
    stderr: Seq<u8>,
    context: Seq<(Seq<char>, Seq<char>)>,
)
    requires
        stage_of(context) is None,
    ensures
        completed(s, exit_code, stdout, stderr, context).state == s,
        completed(s, exit_code, stdout, stderr, context).actions.len() == 0,
        !completed(s, exit_code, stdout, stderr, context).render,
{
}

/// Without a worktree, a launch request is answered at once by exactly two
/// actions, the shell pane and then the agent's pane, both in the current
/// directory; no command is run, and the status is the fixed message.
pub proof fn direct_launch_opens_two_panes(s: StateView, cwd: Seq<char>, pid: nat)
    requires
        !s.create_worktree,
    ensures
        launched(s, cwd, pid).actions.len() == 2,
        launched(s, cwd, pid).actions[0] is OpenTerminal,
        launched(s, cwd, pid).actions[1] is OpenCommandPane,
        launched(s, cwd, pid).state.status == direct_status(),
        launched(s, cwd, pid).state.phase == Phase::LaunchedOk,
{
}

/// Root detection never fails the workflow: whatever the command's exit
/// status, the root and the log path are known afterwards, the log lies in
/// the root, the status line is untouched and the worktree command follows.
pub proof fn root_detection_always_proceeds(s: StateView, exit_code: Option<i32>, stdout: Seq<u8>)
    ensures
        root_detected(s, exit_code, stdout).state.repo_root == Some(
            detected_root(exit_code, stdout),
        ),
        root_detected(s, exit_code, stdout).state.log_path == Some(
            log_path_in(detected_root(exit_code, stdout)),
        ),
        exit_code != Some(0i32) ==> detected_root(exit_code, stdout) == "."@,
        root_detected(s, exit_code, stdout).state.status == s.status,
        root_detected(s, exit_code, stdout).state.phase == Phase::CreatingIsolatedCopy,
        root_detected(s, exit_code, stdout).actions.len() == 1,
        root_detected(s, exit_code, stdout).actions[0] is RunCommand,
{
}

/// A worktree creation that exits with anything but zero opens no pane: the
/// attempt has failed, and the status line ends with the trimmed error text.
pub proof fn failed_copy_opens_no_pane(s: StateView, exit_code: Option<i32>, stderr: Seq<u8>)
    requires
        exit_code != Some(0i32),
    ensures
        copy_created(s, exit_code, stderr).actions.len() == 0,
        copy_created(s, exit_code, stderr).state.phase == Phase::Failed,
        copy_created(s, exit_code, stderr).state.status == failed_status(stderr),
{
}

/// Once a launch has been requested the form is only read: no transition
/// that a completion makes changes the program, the branch, the worktree
/// path, the base revision or the mode.
pub proof fn completions_leave_the_form_alone(
    s: StateView,
    exit_code: Option<i32>,
    stdout: Seq<u8>,
    stderr: Seq<u8>,
    context: Seq<(Seq<char>, Seq<char>)>,
)
    ensures
        ({
            let t = completed(s, exit_code, stdout, stderr, context).state;
            &&& t.program == s.program
            &&& t.branch == s.branch
            &&& t.worktree_path == s.worktree_path
            &&& t.base == s.base
            &&& t.create_worktree == s.create_worktree
        }),
{
}

/// A launch settles the worktree path: a path that the operator gave is
/// kept as it is, and a blank one becomes the default for the working
/// directory.
pub proof fn launch_settles_the_worktree_path(s: StateView, cwd: Seq<char>, pid: nat)
    ensures
        launched(s, cwd, pid).state.worktree_path == with_target(s, cwd, pid).worktree_path,
        s.worktree_path.len() > 0 ==> launched(s, cwd, pid).state.worktree_path
            == s.worktree_path,
{
}

/// The status line is written only when an attempt ends: a transition that
/// leaves the attempt under way leaves the line as it was, so that a fresh
/// orchestrator shows none until its first attempt has succeeded or failed.
pub proof fn status_is_written_only_at_the_end(
    s: StateView,
    key: Key,
    program: Seq<char>,
    user: Seq<char>,
    cwd: Seq<char>,
    pid: nat,
    exit_code: Option<i32>,
    stdout: Seq<u8>,
    stderr: Seq<u8>,
    context: Seq<(Seq<char>, Seq<char>)>,
)
    ensures
        ({
            let t = keyed(s, key, cwd, pid).state;
            t.phase == Phase::LaunchedOk || t.phase == Phase::Failed || t.status == s.status
        }),
        ({
            let t = completed(s, exit_code, stdout, stderr, context).state;
            t.phase == Phase::LaunchedOk || t.phase == Phase::Failed || t.status == s.status
        }),
        initial_state(program, user, pid).status.len() == 0,
{
}

} // verus!
