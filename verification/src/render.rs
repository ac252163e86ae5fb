//! The text that the tile shows: a fixed set of lines, cut to the rows that
//! the host offers.

use vstd::prelude::*;
use crate::model::{State, StateView};

verus! {

/// A label followed by a value.
pub open spec fn labelled(label: Seq<char>, value: Seq<char>) -> Seq<char> {
    label + value
}

/// The worktree path as shown: a blank path reads `<auto>`.
pub open spec fn shown_worktree(path: Seq<char>) -> Seq<char> {
    if path.len() == 0 {
        "<auto>"@
    } else {
        path
    }
}

/// The mode as shown.
pub open spec fn shown_mode(create_worktree: bool) -> Seq<char> {
    if create_worktree {
        "yes"@
    } else {
        "no"@
    }
}

/// The lines that are shown whatever the status: title, fields and
/// instructions.
pub open spec fn fixed_lines(s: StateView) -> Seq<Seq<char>> {
    seq![
        "=== Agent Fleet ==="@,
        ""@,
        labelled("Program: "@, s.program),
        labelled("Branch:  "@, s.branch),
        labelled("Worktree: "@, shown_worktree(s.worktree_path)),
        labelled("Base:     "@, s.base),
        labelled("Create worktree: "@, shown_mode(s.create_worktree)),
        ""@,
        "Press Enter to Create worktree + Launch"@,
        "Press q to quit"@,
        ""@,
    ]
}

/// All lines of the tile: the fixed ones, and the status line once there is
/// a status.
pub open spec fn screen(s: StateView) -> Seq<Seq<char>> {
    if s.status.len() == 0 {
        fixed_lines(s)
    } else {
        fixed_lines(s).push(labelled("Status: "@, s.status))
    }
}

/// What fits: the first `rows` lines of the screen, or all of them.
pub open spec fn rendered(s: StateView, rows: nat) -> Seq<Seq<char>> {
    if rows < screen(s).len() {
        screen(s).take(rows as int)
    } else {
        screen(s)
    }
}

fn line(label: &str, value: &str) -> (r: String)
    ensures
        r@ == labelled(label@, value@),
{
    let mut r = String::from_str(label);
    r.append(value);
    r
}

impl State {
    /// Every line of the tile, in order.
    pub fn screen_lines(&self) -> (r: Vec<String>)
        ensures
            r.deep_view() == screen(self@),
    {
        let mut lines: Vec<String> = Vec::new();
        lines.push(String::from_str("=== Agent Fleet ==="));
        lines.push(String::from_str(""));
        lines.push(line("Program: ", self.form.program.as_str()));
        lines.push(line("Branch:  ", self.form.branch.as_str()));
        let worktree = if self.form.worktree_path.as_str().is_empty() {
            "<auto>"
        } else {
            self.form.worktree_path.as_str()
        };
        lines.push(line("Worktree: ", worktree));
        lines.push(line("Base:     ", self.form.base.as_str()));
        let mode = if self.form.create_worktree {
            "yes"
        } else {
            "no"
        };
        lines.push(line("Create worktree: ", mode));
        lines.push(String::from_str(""));
        lines.push(String::from_str("Press Enter to Create worktree + Launch"));
        lines.push(String::from_str("Press q to quit"));
        lines.push(String::from_str(""));
        assert(lines.deep_view() =~= fixed_lines(self@));
        if !self.form.status.as_str().is_empty() {
            lines.push(line("Status: ", self.form.status.as_str()));
            assert(lines.deep_view() =~= screen(self@));
        }
        lines
    }

    /// The lines to print on a tile of `rows` rows.
    pub fn render(&self, rows: usize) -> (r: Vec<String>)
        ensures
            r.deep_view() == rendered(self@, rows as nat),
    {
        let mut lines = self.screen_lines();
        lines.truncate(rows);
        assert(lines.deep_view() =~= rendered(self@, rows as nat));
        lines
    }
}

/// A tile never shows more lines than it has rows, and while nothing has
/// been reported it shows no status line.
pub proof fn render_fits_the_rows(s: StateView, rows: nat)
    ensures
        rendered(s, rows).len() <= rows,
        rendered(s, rows).len() <= 12,
        s.status.len() == 0 ==> screen(s) == fixed_lines(s),
{
}

} // verus!
