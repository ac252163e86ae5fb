//! Resolution of the operator's free-form program string into an executable
//! path and its arguments.

use vstd::prelude::*;

verus! {

/// A program ready to be handed to the host: what to run, and with which
/// arguments.
#[derive(Clone, Debug, PartialEq, Eq)]
pub struct ResolvedProgram {
    pub path: String,
    pub args: Vec<String>,
}

/// The mathematical content of a `ResolvedProgram`.
pub struct ProgramView {
    pub path: Seq<char>,
    pub args: Seq<Seq<char>>,
}

impl View for ResolvedProgram {
    type V = ProgramView;

    open spec fn view(&self) -> ProgramView {
        ProgramView { path: self.path@, args: self.args.deep_view() }
    }
}

/// The shell that is launched when no usable program is configured.
pub open spec fn fallback_shell() -> Seq<char> {
    "bash"@
}

/// The sentinel that stands for no program of the operator's own: it
/// launches the fallback shell.
pub open spec fn custom_sentinel() -> Seq<char> {
    "custom"@
}

/// The words that POSIX-shell word splitting finds in `s`, or `None` where the
/// text is malformed (an unterminated quote, a dangling escape). This is the
/// answer of `shlex::split`, which this library takes as given.
pub uninterp spec fn shell_words(s: Seq<char>) -> Option<Seq<Seq<char>>>;

/// Whether a program string names no program: it is blank, or it is the
/// sentinel.
pub open spec fn names_no_program(program: Seq<char>) -> bool {
    program.len() == 0 || program == custom_sentinel()
}

/// The command string after normalisation: the fallback shell stands in for
/// a blank program and for the sentinel.
pub open spec fn normalized(program: Seq<char>) -> Seq<char> {
    if names_no_program(program) {
        fallback_shell()
    } else {
        program
    }
}

/// The fallback shell, run without arguments.
pub open spec fn fallback_program() -> ProgramView {
    ProgramView { path: fallback_shell(), args: Seq::empty() }
}

/// The program that a splitting outcome resolves to: first word and the
/// rest, or the bare fallback shell where there is no first word.
pub open spec fn resolved(words: Option<Seq<Seq<char>>>) -> ProgramView {
    match words {
        Some(w) => if w.len() > 0 {
            ProgramView { path: w.first(), args: w.drop_first() }
        } else {
            fallback_program()
        },
        None => fallback_program(),
    }
}

/// The program that a program string resolves to: the bare fallback shell
/// where the string names no program, and otherwise what its words resolve
/// to.
pub open spec fn resolution(program: Seq<char>) -> ProgramView {
    if names_no_program(program) {
        fallback_program()
    } else {
        resolved(shell_words(program))
    }
}

/// Calls `shlex::split`. Trusted: the outcome depends on the text alone, and
/// is the one that `shell_words` names.
#[verifier::external_body]
fn split_words(s: &str) -> (r: Option<Vec<String>>)
    ensures
        r.deep_view() == shell_words(s@),
{
    shlex::split(s)
}

/// Tells whether a program string names no program.
pub fn is_unset(program: &str) -> (r: bool)
    ensures
        r == names_no_program(program@),
{
    let given = String::from_str(program);
    let sentinel = String::from_str("custom");
    program.is_empty() || given == sentinel
}

/// Substitutes the fallback shell for a blank program and for the sentinel.
pub fn normalize_program(program: &str) -> (r: String)
    ensures
        r@ == normalized(program@),
{
    if is_unset(program) {
        String::from_str("bash")
    } else {
        String::from_str(program)
    }
}

fn fallback() -> (r: ResolvedProgram)
    ensures
        r@ == fallback_program(),
{
    let r = ResolvedProgram { path: String::from_str("bash"), args: Vec::new() };
    assert(r.args.deep_view() =~= Seq::<Seq<char>>::empty());
    r
}

/// Turns the outcome of word splitting into a program: the first word is the
/// path and the others its arguments; a failed or empty split gives the
/// fallback shell without arguments.
pub fn resolve_tokens(tokens: Option<Vec<String>>) -> (r: ResolvedProgram)
    ensures
        r@ == resolved(tokens.deep_view()),
{
    match tokens {
        Some(words) => {
            let mut rest = words;
            if rest.len() > 0 {
                let ghost before = rest.deep_view();
                let path = rest.remove(0);
                assert(rest.deep_view() =~= before.drop_first());
                ResolvedProgram { path, args: rest }
            } else {
                fallback()
            }
        },
        None => fallback(),
    }
}

/// Resolves a program string. A blank program and the sentinel give the
/// fallback shell without arguments; any other string is split into words.
/// Both the staged and the direct launch go through this one function.
pub fn resolve_program(program: &str) -> (r: ResolvedProgram)
    ensures
        r@ == resolution(program@),
        names_no_program(program@) ==> r@ == fallback_program(),
{
    if is_unset(program) {
        fallback()
    } else {
        resolve_tokens(split_words(program))
    }
}

/// Resolution is a function of the program string: any two runs on the same
/// input give the same path and the same arguments.
pub proof fn resolution_is_deterministic(program: Seq<char>, first: ProgramView, second: ProgramView)
    requires
        first == resolution(program),
        second == resolution(program),
    ensures
        first.path == second.path,
        first.args == second.args,
{
}

/// A blank program and the sentinel resolve to the fallback shell without
/// arguments, and so does every string that cannot be split or holds no
/// word.
pub proof fn unusable_programs_resolve_to_the_fallback(program: Seq<char>)
    ensures
        resolution(Seq::empty()) == fallback_program(),
        resolution(custom_sentinel()) == fallback_program(),
        shell_words(program) is None ==> resolution(program) == fallback_program(),
        shell_words(program) == Some(Seq::<Seq<char>>::empty()) ==> resolution(program)
            == fallback_program(),
        fallback_program().args.len() == 0,
{
}

} // verus!
