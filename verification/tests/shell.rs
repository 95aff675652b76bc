use gh_cutter::github::{
    FocusState, GithubAuthMode, GithubScreenState, ModalElement, ModalState,
};
use gh_cutter::keys::{KeyCode, KeyEvent};
use gh_cutter::shell::{apply_submission_outcome, shell_step, RestoreGuard, ShellDirective};

fn key(code: KeyCode) -> KeyEvent {
    KeyEvent { code, ctrl: false }
}

#[test]
fn quit_key_ends_the_loop_and_restores_once() {
    let mut state = GithubScreenState::default();
    let mut guard = RestoreGuard::new();

    let directive = shell_step(&mut state, key(KeyCode::Char('q')));
    assert_eq!(directive, ShellDirective::Quit);

    // The loop has ended; the exit path claims the restoration, and the
    // abort hooks that fire afterwards find nothing left to do.
    assert!(guard.mark_restored());
    assert!(!guard.mark_restored());
    assert!(!guard.mark_restored());
}

#[test]
fn escape_quits_from_the_closed_screen() {
    let mut state = GithubScreenState::default();
    assert_eq!(shell_step(&mut state, key(KeyCode::Esc)), ShellDirective::Quit);
}

#[test]
fn control_c_quits_from_the_closed_screen() {
    let mut state = GithubScreenState::default();
    let directive = shell_step(&mut state, KeyEvent { code: KeyCode::Char('c'), ctrl: true });
    assert_eq!(directive, ShellDirective::Quit);
}

#[test]
fn plain_c_does_not_quit() {
    let mut state = GithubScreenState::default();
    let directive = shell_step(&mut state, key(KeyCode::Char('c')));
    assert_eq!(directive, ShellDirective::Continue);
}

#[test]
fn other_bubbled_keys_are_silently_dropped() {
    let mut state = GithubScreenState::default();
    assert_eq!(shell_step(&mut state, key(KeyCode::Char('x'))), ShellDirective::Continue);
    assert_eq!(shell_step(&mut state, key(KeyCode::Other)), ShellDirective::Continue);
    assert_eq!(state.modal_state, ModalState::Closed);
}

#[test]
fn quit_keys_are_consumed_while_the_modal_is_open() {
    let mut state = GithubScreenState::default();
    shell_step(&mut state, key(KeyCode::Enter));
    assert!(state.modal_state.is_opened());
    assert_eq!(shell_step(&mut state, key(KeyCode::Char('q'))), ShellDirective::Continue);
    assert!(state.modal_state.is_opened());
    // Escape closes the modal but is not forwarded as a quit.
    assert_eq!(shell_step(&mut state, key(KeyCode::Esc)), ShellDirective::Continue);
    assert_eq!(state.modal_state, ModalState::Closed);
}

#[test]
fn submit_directive_carries_the_screen_to_the_collaborator() {
    let mut state = GithubScreenState::default();
    state.selected_mode = GithubAuthMode::Token;
    state.modal_state = ModalState::Opened {
        element_under_cursor: ModalElement::Input,
        element_focus_state: FocusState::Focused,
    };
    shell_step(&mut state, key(KeyCode::Char('a')));
    shell_step(&mut state, key(KeyCode::Char('b')));
    shell_step(&mut state, key(KeyCode::Char('c')));
    shell_step(&mut state, key(KeyCode::Down));

    let directive = shell_step(&mut state, key(KeyCode::Enter));
    assert_eq!(directive, ShellDirective::SubmitCredential);
    assert_eq!(state.input.value(), "abc");
    assert_eq!(state.selected_mode, GithubAuthMode::Token);
}

#[test]
fn accepted_submission_closes_the_modal_and_keeps_the_buffer() {
    let mut state = GithubScreenState::default();
    state.modal_state = ModalState::Opened {
        element_under_cursor: ModalElement::SubmitButton,
        element_focus_state: FocusState::Hovered,
    };
    state.input.insert('t');
    apply_submission_outcome(&mut state, true);
    assert_eq!(state.modal_state, ModalState::Closed);
    assert_eq!(state.input.value(), "t");
}

#[test]
fn rejected_submission_leaves_the_modal_open_and_the_buffer_intact() {
    let mut state = GithubScreenState::default();
    let opened = ModalState::Opened {
        element_under_cursor: ModalElement::SubmitButton,
        element_focus_state: FocusState::Hovered,
    };
    state.modal_state = opened;
    state.input.insert('t');
    apply_submission_outcome(&mut state, false);
    assert_eq!(state.modal_state, opened);
    assert_eq!(state.input.value(), "t");
}

#[test]
fn startup_failure_still_claims_the_restoration_first() {
    // The shell arms the guard before touching the terminal. When entering
    // raw mode fails, the error path runs the same restoration routine
    // before the error surfaces — and it is the first claim.
    let mut guard = RestoreGuard::new();
    let startup: Result<(), &str> = Err("could not enter raw mode");
    let result = startup.inspect_err(|_| {
        assert!(guard.mark_restored());
    });
    assert!(result.is_err());
    assert!(!guard.mark_restored());
}
