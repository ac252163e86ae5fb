use agent_fleet_tile::context::{Stage, StageContext};
use agent_fleet_tile::model::{Action, Event, HostEnv, Key, Phase, State};
use agent_fleet_tile::workflow::{agent_launch_actions, log_path_for};

fn env() -> HostEnv {
    HostEnv { cwd: "/home/u/myrepo".to_string(), pid: 4242 }
}

fn words(items: &[&str]) -> Vec<String> {
    items.iter().map(|s| s.to_string()).collect()
}

fn ready() -> State {
    let mut s = State::new("agent", "u", 4242);
    s.form.program = "agent --flag 'a b'".to_string();
    s.form.branch = "u/feature".to_string();
    s.form.worktree_path = "/home/u/wt".to_string();
    s
}

#[test]
fn fresh_state_has_the_defaults() {
    let s = State::new("agent", "alice", 77);
    assert_eq!(s.form.program, "agent");
    assert_eq!(s.form.branch, "alice/af-77");
    assert_eq!(s.form.worktree_path, "");
    assert_eq!(s.form.base, "origin/main");
    assert!(s.form.create_worktree);
    assert_eq!(s.form.status, "");
    assert_eq!(s.repo_root, None);
    assert_eq!(s.log_path, None);
    assert_eq!(s.phase, Phase::Idle);
}

#[test]
fn launch_with_worktree_detects_the_root_first() {
    let mut s = State::new("agent", "u", 4242);
    let actions = s.launch(&env());
    assert_eq!(s.form.worktree_path, "/home/u/myrepo-af-4242");
    assert_eq!(s.form.status, "");
    assert_eq!(s.phase, Phase::DetectingRoot);
    assert_eq!(
        actions,
        vec![Action::RunCommand {
            argv: words(&["git", "rev-parse", "--show-toplevel"]),
            cwd: ".".to_string(),
            context: StageContext { entries: vec![("stage".to_string(), "detect_root".to_string())] },
        }]
    );
}

#[test]
fn launch_keeps_a_given_worktree_path() {
    let mut s = ready();
    s.launch(&env());
    assert_eq!(s.form.worktree_path, "/home/u/wt");
}

#[test]
fn direct_launch_opens_shell_and_agent() {
    let mut s = ready();
    s.form.create_worktree = false;
    let actions = s.launch(&env());
    assert_eq!(actions.len(), 2);
    assert_eq!(actions[0], Action::OpenTerminal { path: ".".to_string() });
    match &actions[1] {
        Action::OpenCommandPane { program, cwd, context } => {
            assert_eq!(program.path, "agent");
            assert_eq!(program.args, words(&["--flag", "a b"]));
            assert_eq!(cwd, ".");
            assert_eq!(context.get("purpose"), Some("launch_agent".to_string()));
            assert_eq!(context.stage(), None);
        }
        other => panic!("unexpected action {:?}", other),
    }
    assert_eq!(s.form.status, "Launched agent without creating worktree");
    assert_eq!(s.phase, Phase::LaunchedOk);
    assert_eq!(s.repo_root, None);
}

#[test]
fn detected_root_is_trimmed_and_logged() {
    let mut s = ready();
    let before = s.clone();
    let out = s.on_command_result(
        Some(0),
        b"/home/u/myrepo\n".to_vec(),
        Vec::new(),
        &StageContext::for_stage(Stage::DetectRoot),
    );
    assert_eq!(s.repo_root, Some("/home/u/myrepo".to_string()));
    assert_eq!(s.log_path, Some("/home/u/myrepo/af_zellij_plugin.log".to_string()));
    assert_eq!(s.phase, Phase::CreatingIsolatedCopy);
    assert_eq!(s.form, before.form);
    assert!(out.render);
    assert_eq!(
        out.actions,
        vec![Action::RunCommand {
            argv: words(&[
                "bash",
                "-lc",
                "git worktree add -B u/feature '/home/u/wt' origin/main 2>&1 | tee -a '/home/u/myrepo/af_zellij_plugin.log'",
            ]),
            cwd: "/home/u/myrepo".to_string(),
            context: StageContext { entries: vec![("stage".to_string(), "create_copy".to_string())] },
        }]
    );
}

#[test]
fn failed_detection_degrades_to_the_current_directory() {
    for code in [Some(128), None] {
        let mut s = ready();
        let out = s.on_command_result(
            code,
            b"/somewhere\n".to_vec(),
            b"fatal: not a git repository".to_vec(),
            &StageContext::for_stage(Stage::DetectRoot),
        );
        assert_eq!(s.repo_root, Some(".".to_string()));
        assert_eq!(s.log_path, Some("./af_zellij_plugin.log".to_string()));
        assert_eq!(s.form.status, "");
        assert_eq!(out.actions.len(), 1);
        match &out.actions[0] {
            Action::RunCommand { cwd, context, .. } => {
                assert_eq!(cwd, ".");
                assert_eq!(context.stage(), Some(Stage::CreateCopy));
            }
            other => panic!("unexpected action {:?}", other),
        }
    }
}

#[test]
fn created_copy_launches_the_agent_inside_it() {
    let mut s = ready();
    let out = s.on_command_result(
        Some(0),
        Vec::new(),
        Vec::new(),
        &StageContext::for_stage(Stage::CreateCopy),
    );
    assert!(out.render);
    assert_eq!(out.actions, agent_launch_actions("agent --flag 'a b'", "/home/u/wt"));
    assert_eq!(out.actions[0], Action::OpenTerminal { path: "/home/u/wt".to_string() });
    match &out.actions[1] {
        Action::OpenCommandPane { program, cwd, context } => {
            assert_eq!(program.path, "agent");
            assert_eq!(program.args, words(&["--flag", "a b"]));
            assert_eq!(cwd, "/home/u/wt");
            assert_eq!(context.entries, vec![("purpose".to_string(), "launch_agent".to_string())]);
        }
        other => panic!("unexpected action {:?}", other),
    }
    assert_eq!(s.form.status, "Launched in /home/u/wt on u/feature");
    assert_eq!(s.phase, Phase::LaunchedOk);
}

#[test]
fn failed_copy_reports_the_error_and_opens_nothing() {
    let mut s = ready();
    let out = s.on_command_result(
        Some(128),
        b"ignored".to_vec(),
        b"fatal: branch exists".to_vec(),
        &StageContext::for_stage(Stage::CreateCopy),
    );
    assert!(s.form.status.contains("fatal: branch exists"));
    assert_eq!(s.form.status, "Failed to create worktree: fatal: branch exists");
    assert!(out.actions.is_empty());
    assert!(out.render);
    assert_eq!(s.phase, Phase::Failed);
}

#[test]
fn failed_copy_trims_the_error_text() {
    let mut s = ready();
    s.form.status = "Launched in /old on old".to_string();
    s.on_command_result(
        None,
        Vec::new(),
        b"  fatal: invalid reference\n\n".to_vec(),
        &StageContext::for_stage(Stage::CreateCopy),
    );
    assert_eq!(s.form.status, "Failed to create worktree: fatal: invalid reference");
}

#[test]
fn unknown_stage_is_ignored() {
    let mut s = ready();
    s.form.status = "earlier".to_string();
    let before = s.clone();
    let out = s.on_command_result(
        Some(0),
        b"/x\n".to_vec(),
        b"err".to_vec(),
        &StageContext::tagged("stage", "cleanup"),
    );
    assert_eq!(s, before);
    assert!(!out.render);
    assert!(out.actions.is_empty());
}

#[test]
fn purpose_only_completion_is_ignored() {
    let mut s = ready();
    let before = s.clone();
    let out = s.on_command_result(Some(1), Vec::new(), Vec::new(), &StageContext::for_launch());
    assert_eq!(s, before);
    assert!(!out.render);
    assert!(out.actions.is_empty());
    let untagged = StageContext { entries: Vec::new() };
    let out = s.on_command_result(Some(0), Vec::new(), Vec::new(), &untagged);
    assert_eq!(s, before);
    assert!(!out.render);
    assert!(out.actions.is_empty());
}

#[test]
fn quit_key_closes_the_tile() {
    let mut s = ready();
    let before = s.clone();
    let out = s.on_key(Key::Char('q'), &env());
    assert_eq!(out.actions, vec![Action::CloseSelf]);
    assert!(out.render);
    assert_eq!(s, before);
}

#[test]
fn log_key_opens_the_log_once_known() {
    let mut s = ready();
    let out = s.on_key(Key::Char('l'), &env());
    assert!(out.actions.is_empty());
    assert!(out.render);
    s.log_path = Some(log_path_for("/r"));
    let out = s.on_key(Key::Char('l'), &env());
    assert_eq!(out.actions, vec![Action::OpenFile { path: "/r/af_zellij_plugin.log".to_string() }]);
}

#[test]
fn other_keys_only_redraw() {
    let mut s = ready();
    let before = s.clone();
    for key in [Key::Char('x'), Key::Other] {
        let out = s.on_key(key, &env());
        assert!(out.render);
        assert!(out.actions.is_empty());
        assert_eq!(s, before);
    }
}

#[test]
fn enter_starts_a_launch() {
    let mut s = ready();
    let out = s.update(Event::Key(Key::Enter), &env());
    assert!(out.render);
    assert_eq!(out.actions.len(), 1);
    assert_eq!(s.phase, Phase::DetectingRoot);
}

#[test]
fn update_routes_completions() {
    let mut s = ready();
    let out = s.update(
        Event::CommandResult {
            exit_code: Some(0),
            stdout: b"/repo\n".to_vec(),
            stderr: Vec::new(),
            context: StageContext::for_stage(Stage::DetectRoot),
        },
        &env(),
    );
    assert!(out.render);
    assert_eq!(s.repo_root, Some("/repo".to_string()));
}

#[test]
fn other_events_change_nothing() {
    let mut s = ready();
    let before = s.clone();
    let out = s.update(Event::Other, &env());
    assert!(!out.render);
    assert!(out.actions.is_empty());
    assert_eq!(s, before);
}

#[test]
fn whole_staged_launch_runs_in_order() {
    let mut s = State::new("custom", "u", 5);
    let first = s.update(Event::Key(Key::Enter), &HostEnv { cwd: "/w/proj".to_string(), pid: 5 });
    let ctx = match &first.actions[0] {
        Action::RunCommand { context, .. } => context.clone(),
        other => panic!("unexpected action {:?}", other),
    };
    let second = s.update(
        Event::CommandResult { exit_code: Some(0), stdout: b"/w/proj\n".to_vec(), stderr: Vec::new(), context: ctx },
        &env(),
    );
    let ctx = match &second.actions[0] {
        Action::RunCommand { context, cwd, .. } => {
            assert_eq!(cwd, "/w/proj");
            context.clone()
        }
        other => panic!("unexpected action {:?}", other),
    };
    let third = s.update(
        Event::CommandResult { exit_code: Some(0), stdout: Vec::new(), stderr: Vec::new(), context: ctx },
        &env(),
    );
    assert_eq!(third.actions, agent_launch_actions("bash", "/w/proj-af-5"));
    assert_eq!(s.form.status, "Launched in /w/proj-af-5 on u/af-5");
    assert_eq!(s.phase, Phase::LaunchedOk);
}

#[test]
fn lookup_takes_the_first_entry() {
    let ctx = StageContext {
        entries: vec![
            ("purpose".to_string(), "x".to_string()),
            ("stage".to_string(), "detect_root".to_string()),
            ("stage".to_string(), "create_copy".to_string()),
        ],
    };
    assert_eq!(ctx.get("stage"), Some("detect_root".to_string()));
    assert_eq!(ctx.get("purpose"), Some("x".to_string()));
    assert_eq!(ctx.get("missing"), None);
    assert_eq!(ctx.stage(), Some(Stage::DetectRoot));
}

#[test]
fn stage_tags_route_back() {
    assert_eq!(StageContext::for_stage(Stage::DetectRoot).stage(), Some(Stage::DetectRoot));
    assert_eq!(StageContext::for_stage(Stage::CreateCopy).stage(), Some(Stage::CreateCopy));
    assert_eq!(StageContext::tagged("stage", "").stage(), None);
    assert_eq!(StageContext::tagged("Stage", "detect_root").stage(), None);
}

#[test]
fn insert_replaces_in_place_or_appends() {
    let mut ctx = StageContext::new();
    assert_eq!(ctx.entries, Vec::<(String, String)>::new());
    ctx.insert("stage", "detect_root");
    ctx.insert("purpose", "x");
    ctx.insert("stage", "create_copy");
    assert_eq!(
        ctx.entries,
        vec![
            ("stage".to_string(), "create_copy".to_string()),
            ("purpose".to_string(), "x".to_string()),
        ]
    );
    assert_eq!(ctx.get("stage"), Some("create_copy".to_string()));
    assert_eq!(ctx.get("purpose"), Some("x".to_string()));
    assert_eq!(ctx.stage(), Some(Stage::CreateCopy));
}

#[test]
fn tagged_holds_one_entry() {
    let ctx = StageContext::tagged("k", "v");
    assert_eq!(ctx.entries, vec![("k".to_string(), "v".to_string())]);
    assert_eq!(StageContext::for_launch(), StageContext::tagged("purpose", "launch_agent"));
}

#[test]
fn fresh_state_takes_the_program_it_is_given() {
    let s = State::new("aider --yes", "", 0);
    assert_eq!(s.form.program, "aider --yes");
    assert_eq!(s.form.branch, "/af-0");
    let unset = State::new("", "user", 7);
    assert_eq!(unset.form.program, "");
    assert_eq!(unset.form.branch, "user/af-7");
    assert_eq!(unset.form.worktree_path, "");
    assert_eq!(unset.form.base, "origin/main");
    assert!(unset.form.create_worktree);
    assert_eq!(unset.form.status, "");
    assert_eq!(unset.repo_root, None);
    assert_eq!(unset.log_path, None);
}

#[test]
fn launch_never_leaves_the_worktree_path_blank() {
    for cwd in ["/home/u/myrepo", "/", ".", "", "work", "a/b/"] {
        for isolated in [true, false] {
            let mut s = State::new("agent", "u", 1);
            s.form.create_worktree = isolated;
            s.launch(&HostEnv { cwd: cwd.to_string(), pid: 1 });
            assert!(!s.form.worktree_path.is_empty());
        }
    }
}
