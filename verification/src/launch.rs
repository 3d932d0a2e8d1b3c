//! Which program opens a project, with which arguments, and what the
//! interface does once that program has been run (or failed to start).

use vstd::prelude::*;

verus! {

/// The program a project is opened with.
#[derive(Clone, Copy, Debug, PartialEq, Eq, Structural)]
pub enum Action {
    /// VS Code.
    Code,
    /// A new tmux window (the default).
    Tmux,
}

/// What the command line asks for: a program, and for VS Code whether the
/// folder joins the window that is already open.
#[derive(Clone, Copy, Debug, PartialEq, Eq, Structural)]
pub struct LaunchRequest {
    pub action: Action,
    pub add_to_window: bool,
}

/// How the command line (program name first) selects a program: `code`
/// opens a new VS Code window, `code add` adds the folder to the open one,
/// and anything else falls back to tmux.
pub open spec fn spec_launch(args: Seq<Seq<char>>) -> LaunchRequest {
    if args.len() == 2 && args[1] == "code"@ {
        LaunchRequest { action: Action::Code, add_to_window: false }
    } else if args.len() == 3 && args[1] == "code"@ && args[2] == "add"@ {
        LaunchRequest { action: Action::Code, add_to_window: true }
    } else {
        LaunchRequest { action: Action::Tmux, add_to_window: false }
    }
}

/// Whether `s` holds exactly the characters of `lit`.
fn text_is(s: &String, lit: &str) -> (r: bool)
    ensures
        r == (s@ == lit@),
{
    let other = lit.to_owned();
    *s == other
}

/// Reads the command line (program name first) into a launch request.
pub fn parse_launch(args: &Vec<String>) -> (r: LaunchRequest)
    ensures
        r == spec_launch(args.deep_view()),
{
    let ghost a = args.deep_view();
    if args.len() == 2 {
        assert(a[1] == args@[1]@);
        if text_is(&args[1], "code") {
            return LaunchRequest { action: Action::Code, add_to_window: false };
        }
    } else if args.len() == 3 {
        assert(a[1] == args@[1]@ && a[2] == args@[2]@);
        if text_is(&args[1], "code") && text_is(&args[2], "add") {
            return LaunchRequest { action: Action::Code, add_to_window: true };
        }
    }
    LaunchRequest { action: Action::Tmux, add_to_window: false }
}

/// Only the words `code` and `code add` open VS Code; every other command
/// line opens tmux.
pub proof fn lemma_only_code_opens_vs_code(args: Seq<Seq<char>>)
    ensures
        spec_launch(args).action == Action::Code <==> args.len() >= 2 && args[1] == "code"@ && (
        args.len() == 2 || (args.len() == 3 && args[2] == "add"@)),
        spec_launch(args).add_to_window ==> spec_launch(args).action == Action::Code,
{
}

/// Only `code add` adds the folder to the open window, and the program's own
/// name (the first word) plays no part in the choice.
pub proof fn lemma_launch_ignores_program_name(args: Seq<Seq<char>>, name: Seq<char>)
    ensures
        spec_launch(args).add_to_window <==> args.len() == 3 && args[1] == "code"@ && args[2] == "add"@,
        args.len() > 0 ==> spec_launch(args.update(0, name)) == spec_launch(args),
{
    if args.len() > 0 {
        let b = args.update(0, name);
        assert(b.len() == args.len());
        if args.len() >= 2 {
            assert(b[1] == args[1]);
        }
        if args.len() >= 3 {
            assert(b[2] == args[2]);
        }
    }
}

/// A program to run for a project, with its arguments.
pub struct Invocation {
    pub program: String,
    pub args: Vec<String>,
}

/// The program name for an action.
pub open spec fn spec_program(action: Action) -> Seq<char> {
    match action {
        Action::Tmux => "tmux"@,
        Action::Code => "code"@,
    }
}

/// The arguments for opening `path`: a new tmux window started in it, or VS
/// Code on the folder, in a new window (`-n`) or added to the open one (`-a`).
pub open spec fn spec_program_args(req: LaunchRequest, path: Seq<char>) -> Seq<Seq<char>> {
    match req.action {
        Action::Tmux => seq!["new-window"@, "-c"@, path],
        Action::Code => seq![if req.add_to_window { "-a"@ } else { "-n"@ }, path],
    }
}

fn owned(lit: &str) -> (r: String)
    ensures
        r@ == lit@,
{
    lit.to_owned()
}

/// The program and arguments that open project `path` as `req` asks.
pub fn invocation(req: LaunchRequest, path: &str) -> (inv: Invocation)
    ensures
        inv.program@ == spec_program(req.action),
        inv.args.deep_view() == spec_program_args(req, path@),
{
    let mut args: Vec<String> = Vec::new();
    match req.action {
        Action::Tmux => {
            args.push(owned("new-window"));
            args.push(owned("-c"));
            args.push(owned(path));
            assert(args.deep_view() =~= spec_program_args(req, path@));
            Invocation { program: owned("tmux"), args }
        },
        Action::Code => {
            let flag = if req.add_to_window { owned("-a") } else { owned("-n") };
            args.push(flag);
            args.push(owned(path));
            assert(args.deep_view() =~= spec_program_args(req, path@));
            Invocation { program: owned("code"), args }
        },
    }
}

/// Every launch opens the chosen project: its path is among the program's
/// arguments.
pub proof fn lemma_launch_targets_path(req: LaunchRequest, path: Seq<char>)
    ensures
        spec_program_args(req, path).contains(path),
{
    let args = spec_program_args(req, path);
    match req.action {
        Action::Tmux => assert(args[2] == path),
        Action::Code => assert(args[1] == path),
    }
}

/// The arguments do not look into the path: tmux gets `new-window -c` and
/// the path; VS Code gets `-a` exactly when the folder joins the open window,
/// `-n` otherwise, then the path. So any two paths get the same flags.
pub proof fn lemma_arguments_follow_request(req: LaunchRequest, path: Seq<char>, other: Seq<char>)
    ensures
        req.action == Action::Tmux ==> spec_program_args(req, path) == seq!["new-window"@, "-c"@, path],
        req.action == Action::Code ==> spec_program_args(req, path).len() == 2,
        req.action == Action::Code ==> spec_program_args(req, path)[1] == path,
        req.action == Action::Code && req.add_to_window ==> spec_program_args(req, path)[0] == "-a"@,
        req.action == Action::Code && !req.add_to_window ==> spec_program_args(req, path)[0] == "-n"@,
        spec_program_args(req, path).len() == spec_program_args(req, other).len(),
        forall|k: int|
            0 <= k < spec_program_args(req, path).len() - 1 ==> spec_program_args(req, path)[k]
                == spec_program_args(req, other)[k],
{
}

/// What came of running the program: it could not be started, or it ran to
/// the end, having written to its captured error output or not.
#[derive(Clone, Copy, Debug, PartialEq, Eq, Structural)]
pub enum RunOutcome {
    NotStarted,
    Finished { wrote_to_stderr: bool },
}

/// The message shown in a dialog (with an exit button) when opening fails.
#[derive(Clone, Copy, Debug, PartialEq, Eq, Structural)]
pub enum Notice {
    StartTmux,
    CodeNotFound,
}

pub open spec fn spec_notice_text(n: Notice) -> Seq<char> {
    match n {
        Notice::StartTmux => "start tmux!"@,
        Notice::CodeNotFound => "Code not found!"@,
    }
}

impl Notice {
    /// The text of the notice.
    pub fn text(&self) -> (r: String)
        ensures
            r@ == spec_notice_text(*self),
    {
        match self {
            Notice::StartTmux => owned("start tmux!"),
            Notice::CodeNotFound => owned("Code not found!"),
        }
    }
}

/// What the interface does after a launch attempt.
#[derive(Clone, Copy, Debug, PartialEq, Eq, Structural)]
pub enum UiStep {
    /// Leave the interface.
    Quit,
    /// Stay, and show the notice in a dialog with an exit button.
    Alert(Notice),
}

/// tmux counts as opened only when it ran and wrote nothing to its error
/// output (otherwise no tmux server is running); VS Code counts as opened as
/// soon as it ran.
pub open spec fn spec_step(action: Action, outcome: RunOutcome) -> UiStep {
    match action {
        Action::Tmux => match outcome {
            RunOutcome::Finished { wrote_to_stderr: false } => UiStep::Quit,
            _ => UiStep::Alert(Notice::StartTmux),
        },
        Action::Code => match outcome {
            RunOutcome::NotStarted => UiStep::Alert(Notice::CodeNotFound),
            _ => UiStep::Quit,
        },
    }
}

/// The interface's next step once the program for `action` has been run.
pub fn step_after_launch(action: Action, outcome: RunOutcome) -> (step: UiStep)
    ensures
        step == spec_step(action, outcome),
{
    match action {
        Action::Tmux => match outcome {
            RunOutcome::Finished { wrote_to_stderr: false } => UiStep::Quit,
            _ => UiStep::Alert(Notice::StartTmux),
        },
        Action::Code => match outcome {
            RunOutcome::NotStarted => UiStep::Alert(Notice::CodeNotFound),
            _ => UiStep::Quit,
        },
    }
}

/// The main view's line naming the program that opens projects: the one the
/// command line selects.
pub open spec fn spec_backend_caption(args: Seq<Seq<char>>) -> Seq<char> {
    " Using: "@ + spec_program_label(spec_launch(args).action)
}

pub open spec fn spec_program_label(action: Action) -> Seq<char> {
    match action {
        Action::Code => "Code"@,
        Action::Tmux => "Tmux"@,
    }
}

/// The line of the main view that tells which program opens projects.
pub fn backend_caption(args: &Vec<String>) -> (r: String)
    ensures
        r@ == spec_backend_caption(args.deep_view()),
{
    let request = parse_launch(args);
    let lead = owned(" Using: ");
    match request.action {
        Action::Code => lead.concat("Code"),
        Action::Tmux => lead.concat("Tmux"),
    }
}

} // verus!
