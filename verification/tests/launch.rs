use rject::launch::{
    backend_caption, invocation, parse_launch, step_after_launch, Action, LaunchRequest, Notice,
    RunOutcome, UiStep,
};

fn args(words: &[&str]) -> Vec<String> {
    words.iter().map(|w| w.to_string()).collect()
}

fn req(action: Action, add_to_window: bool) -> LaunchRequest {
    LaunchRequest { action, add_to_window }
}

#[test]
fn no_arguments_open_tmux() {
    assert_eq!(parse_launch(&args(&[])), req(Action::Tmux, false));
    assert_eq!(parse_launch(&args(&["rject"])), req(Action::Tmux, false));
}

#[test]
fn code_opens_new_vs_code_window() {
    assert_eq!(parse_launch(&args(&["rject", "code"])), req(Action::Code, false));
}

#[test]
fn code_add_joins_open_window() {
    assert_eq!(parse_launch(&args(&["rject", "code", "add"])), req(Action::Code, true));
}

#[test]
fn any_other_word_falls_back_to_tmux() {
    for word in ["code-oss", "nvim", "tmux", "emacs", "add", "Code", ""] {
        assert_eq!(parse_launch(&args(&["rject", word])), req(Action::Tmux, false));
    }
}

#[test]
fn any_other_pair_or_longer_line_falls_back_to_tmux() {
    assert_eq!(parse_launch(&args(&["rject", "code-oss", "add"])), req(Action::Tmux, false));
    assert_eq!(parse_launch(&args(&["rject", "code", "new"])), req(Action::Tmux, false));
    assert_eq!(parse_launch(&args(&["rject", "nvim", "add"])), req(Action::Tmux, false));
    assert_eq!(parse_launch(&args(&["rject", "code", "add", "x"])), req(Action::Tmux, false));
}

#[test]
fn tmux_invocation_opens_window_in_path() {
    let inv = invocation(req(Action::Tmux, false), "/home/me/proj");
    assert_eq!(inv.program, "tmux");
    assert_eq!(inv.args, args(&["new-window", "-c", "/home/me/proj"]));
}

#[test]
fn code_invocations_choose_window() {
    let inv = invocation(req(Action::Code, false), "/p");
    assert_eq!(inv.program, "code");
    assert_eq!(inv.args, args(&["-n", "/p"]));
    let inv = invocation(req(Action::Code, true), "/p");
    assert_eq!(inv.program, "code");
    assert_eq!(inv.args, args(&["-a", "/p"]));
}

#[test]
fn tmux_outcomes() {
    assert_eq!(
        step_after_launch(Action::Tmux, RunOutcome::Finished { wrote_to_stderr: false }),
        UiStep::Quit
    );
    assert_eq!(
        step_after_launch(Action::Tmux, RunOutcome::Finished { wrote_to_stderr: true }),
        UiStep::Alert(Notice::StartTmux)
    );
    assert_eq!(
        step_after_launch(Action::Tmux, RunOutcome::NotStarted),
        UiStep::Alert(Notice::StartTmux)
    );
}

#[test]
fn code_outcomes() {
    assert_eq!(
        step_after_launch(Action::Code, RunOutcome::Finished { wrote_to_stderr: true }),
        UiStep::Quit
    );
    assert_eq!(
        step_after_launch(Action::Code, RunOutcome::Finished { wrote_to_stderr: false }),
        UiStep::Quit
    );
    assert_eq!(
        step_after_launch(Action::Code, RunOutcome::NotStarted),
        UiStep::Alert(Notice::CodeNotFound)
    );
}

#[test]
fn notice_texts() {
    assert_eq!(Notice::StartTmux.text(), "start tmux!");
    assert_eq!(Notice::CodeNotFound.text(), "Code not found!");
}

#[test]
fn caption_names_backend_in_use() {
    assert_eq!(backend_caption(&args(&[])), " Using: Tmux");
    assert_eq!(backend_caption(&args(&["rject"])), " Using: Tmux");
    assert_eq!(backend_caption(&args(&["rject", "code"])), " Using: Code");
    assert_eq!(backend_caption(&args(&["rject", "code", "add"])), " Using: Code");
    assert_eq!(backend_caption(&args(&["rject", "code", "other"])), " Using: Tmux");
    assert_eq!(backend_caption(&args(&["rject", "code-oss"])), " Using: Tmux");
    assert_eq!(backend_caption(&args(&["rject", "nvim"])), " Using: Tmux");
}

#[test]
fn every_launch_targets_path() {
    for action in [Action::Tmux, Action::Code] {
        for add in [false, true] {
            let inv = invocation(req(action, add), "/some/dir");
            assert!(inv.args.contains(&"/some/dir".to_string()));
        }
    }
}
