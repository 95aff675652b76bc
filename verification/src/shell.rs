//! The session shell's decision core: how a routed key becomes a loop
//! directive, how a submission outcome changes the screen, and the idempotent
//! terminal-restoration guard. The shell's I/O — raw mode, the alternate
//! screen, polling, drawing — lives outside the library and only acts on what
//! these functions decide.

use vstd::prelude::*;

use crate::github::{spec_route, GithubScreen, GithubScreenState, ModalState, ScreenView};
use crate::keys::{is_quit_key, KeyEvent};

verus! {

/// What routing a key yields beyond an internal mutation: `Bubble` hands the
/// key to the enclosing component, `Submit` asks for the typed credential to
/// be submitted. A fully consumed key yields neither.
#[derive(Clone, Copy, Debug, PartialEq, Eq, Structural)]
pub enum KeyAction {
    Bubble,
    Submit,
}

/// What the poll loop must do after one routed key: keep going, leave the
/// loop, or hand the typed credential and the selected mode to the submission
/// collaborator.
#[derive(Clone, Copy, Debug, PartialEq, Eq, Structural)]
pub enum ShellDirective {
    Continue,
    Quit,
    SubmitCredential,
}

/// The shell's reading of one key: a bubbled quit key ends the loop, any
/// other bubbled key is silently dropped, a submit is handed on, and a
/// consumed key needs nothing further.
pub open spec fn spec_shell_directive(s: ScreenView, k: KeyEvent) -> ShellDirective {
    match spec_route(s, k).1 {
        Option::None => ShellDirective::Continue,
        Option::Some(KeyAction::Bubble) => if is_quit_key(k) {
            ShellDirective::Quit
        } else {
            ShellDirective::Continue
        },
        Option::Some(KeyAction::Submit) => ShellDirective::SubmitCredential,
    }
}

/// Route one key press and interpret the result, exactly as the poll loop
/// does between reading an event and acting on it.
pub fn shell_step(state: &mut GithubScreenState, key: KeyEvent) -> (d: ShellDirective)
    requires
        old(state)@.wf(),
        old(state)@.input.text.len() < usize::MAX,
    ensures
        final(state)@ == spec_route(old(state)@, key).0,
        d == spec_shell_directive(old(state)@, key),
        final(state)@.wf(),
{
    match GithubScreen::on_key_press(key, state) {
        Option::None => ShellDirective::Continue,
        Option::Some(KeyAction::Bubble) => {
            if key.is_quit() {
                ShellDirective::Quit
            } else {
                ShellDirective::Continue
            }
        },
        Option::Some(KeyAction::Submit) => ShellDirective::SubmitCredential,
    }
}

/// Record the submission collaborator's verdict on the screen: success closes
/// the modal and failure leaves it open, and either way the selected mode and
/// the typed value — kept for another attempt — stay as they were.
pub fn apply_submission_outcome(state: &mut GithubScreenState, accepted: bool)
    ensures
        accepted ==> final(state)@ == (ScreenView {
            selected_mode: old(state)@.selected_mode,
            modal_state: ModalState::Closed,
            input: old(state)@.input,
        }),
        !accepted ==> final(state)@ == old(state)@,
        final(state)@.wf() == old(state)@.wf(),
{
    if accepted {
        state.modal_state = ModalState::Closed;
    }
}

/// Interception law at the shell: because an open modal never bubbles a key,
/// no key pressed into an open modal — the quit keys included — can end the
/// poll loop.
pub proof fn lemma_open_modal_never_quits(s: ScreenView, k: KeyEvent)
    requires
        s.modal_state is Opened,
    ensures
        spec_shell_directive(s, k) != ShellDirective::Quit,
{
    crate::github::lemma_opened_never_bubbles(s, k);
}

/// The one resource the session must give back on every exit path: the
/// terminal's original mode. The guard decides who actually performs the
/// restoration, so that the same routine can be called from the normal exit,
/// an error path and an abort hook, and the terminal is still restored
/// exactly once.
pub struct RestoreGuard {
    done: bool,
}

impl RestoreGuard {
    /// Whether the restoration has already been claimed.
    pub closed spec fn restored(&self) -> bool {
        self.done
    }

    /// A fresh guard, armed at startup before the terminal's mode is touched.
    pub fn new() -> (g: RestoreGuard)
        ensures
            !g.restored(),
    {
        RestoreGuard { done: false }
    }

    /// Claim the restoration. The first caller — and only the first — is told
    /// to perform it; every later call is a harmless no-op, which makes the
    /// routine built on this guard idempotent.
    pub fn mark_restored(&mut self) -> (first: bool)
        ensures
            final(self).restored(),
            first == !old(self).restored(),
    {
        let first = !self.done;
        self.done = true;
        first
    }
}

} // verus!
