use agent_fleet_tile::model::State;

fn lines(items: &[&str]) -> Vec<String> {
    items.iter().map(|s| s.to_string()).collect()
}

#[test]
fn fresh_tile_shows_fields_and_instructions() {
    let s = State::new("agent", "u", 9);
    assert_eq!(
        s.render(40),
        lines(&[
            "=== Agent Fleet ===",
            "",
            "Program: agent",
            "Branch:  u/af-9",
            "Worktree: <auto>",
            "Base:     origin/main",
            "Create worktree: yes",
            "",
            "Press Enter to Create worktree + Launch",
            "Press q to quit",
            "",
        ])
    );
}

#[test]
fn status_line_appears_once_there_is_a_status() {
    let mut s = State::new("agent", "u", 9);
    s.form.worktree_path = "/w".to_string();
    s.form.create_worktree = false;
    s.form.status = "Launched agent without creating worktree".to_string();
    let all = s.render(usize::MAX);
    assert_eq!(all.len(), 12);
    assert_eq!(all[4], "Worktree: /w");
    assert_eq!(all[6], "Create worktree: no");
    assert_eq!(all[11], "Status: Launched agent without creating worktree");
    assert_eq!(all, s.screen_lines());
}

#[test]
fn lines_are_cut_to_the_rows() {
    let mut s = State::new("agent", "u", 9);
    s.form.status = "x".to_string();
    assert_eq!(s.render(0), Vec::<String>::new());
    assert_eq!(s.render(3), lines(&["=== Agent Fleet ===", "", "Program: agent"]));
    assert_eq!(s.render(11).len(), 11);
    assert_eq!(s.render(12).len(), 12);
    assert_eq!(s.render(13).len(), 12);
}
