//! The login screen's state machine: the selected authentication mode, the
//! credential modal with its focus state, and the routing of one key press
//! into either an internal mutation or an externally visible action.

use vstd::prelude::*;

use crate::input::{
    spec_delete_backward, spec_insert, spec_move_cursor, InputBuffer, InputView,
};
use crate::keys::{
    is_activate_key, is_escape_key, is_navigation_key, KeyCode, KeyEvent,
};
use crate::shell::KeyAction;

verus! {

/// The two ways a user can authenticate: a browser device flow, or a manually
/// pasted personal access token. Exactly one is selected at any time.
#[derive(Clone, Copy, Debug, PartialEq, Eq, Structural)]
pub enum GithubAuthMode {
    Browser,
    Token,
}

/// Which of the modal's two interactive regions navigation is addressing.
#[derive(Clone, Copy, Debug, PartialEq, Eq, Structural)]
pub enum ModalElement {
    Input,
    SubmitButton,
}

/// Hovered: the element is the navigation target but not activated. Focused:
/// keystrokes are routed into the element's own handler instead of being read
/// as navigation.
#[derive(Clone, Copy, Debug, PartialEq, Eq, Structural)]
pub enum FocusState {
    Hovered,
    Focused,
}

/// Whether the credential-entry overlay is open, and if so, where its cursor
/// and focus sit. The element and focus fields exist only while the modal is
/// open: a closed modal cannot address anything.
#[derive(Clone, Copy, Debug, PartialEq, Eq, Structural)]
pub enum ModalState {
    Closed,
    Opened { element_under_cursor: ModalElement, element_focus_state: FocusState },
}

impl ModalState {
    pub fn is_opened(&self) -> (b: bool)
        ensures
            b == (*self is Opened),
    {
        !matches!(self, ModalState::Closed)
    }
}

/// The screen the session shell drives: the selected mode, the modal, and the
/// text input buffer. The shell holds it exclusively for the screen's
/// lifetime.
pub struct GithubScreenState {
    pub selected_mode: GithubAuthMode,
    pub modal_state: ModalState,
    pub input: InputBuffer,
}

/// Mathematical model of the screen: the two plain state fields as they are,
/// and the buffer by its view.
pub struct ScreenView {
    pub selected_mode: GithubAuthMode,
    pub modal_state: ModalState,
    pub input: InputView,
}

impl View for GithubScreenState {
    type V = ScreenView;

    open spec fn view(&self) -> ScreenView {
        ScreenView {
            selected_mode: self.selected_mode,
            modal_state: self.modal_state,
            input: self.input@,
        }
    }
}

impl ScreenView {
    /// The screen's invariant is the buffer's: the cursor stays in bounds.
    pub open spec fn wf(self) -> bool {
        self.input.wf()
    }
}

/// The screen at session start: browser mode selected, modal closed, buffer
/// empty.
pub open spec fn spec_initial_screen() -> ScreenView {
    ScreenView {
        selected_mode: GithubAuthMode::Browser,
        modal_state: ModalState::Closed,
        input: InputView { text: Seq::<char>::empty(), cursor: 0 },
    }
}

/// Toggling flips the selected mode to the other one.
pub open spec fn toggled(m: GithubAuthMode) -> GithubAuthMode {
    match m {
        GithubAuthMode::Browser => GithubAuthMode::Token,
        GithubAuthMode::Token => GithubAuthMode::Browser,
    }
}

/// Routing with the modal closed: navigation toggles the mode, activate opens
/// the modal hovering its input, and every other key bubbles out unchanged.
pub open spec fn spec_route_closed(s: ScreenView, k: KeyEvent) -> (ScreenView, Option<KeyAction>) {
    if is_navigation_key(k) {
        (
            ScreenView {
                selected_mode: toggled(s.selected_mode),
                modal_state: s.modal_state,
                input: s.input,
            },
            None,
        )
    } else if is_activate_key(k) {
        (
            ScreenView {
                selected_mode: s.selected_mode,
                modal_state: ModalState::Opened {
                    element_under_cursor: ModalElement::Input,
                    element_focus_state: FocusState::Hovered,
                },
                input: s.input,
            },
            None,
        )
    } else {
        (s, Some(KeyAction::Bubble))
    }
}

/// Routing with the input focused: escape steps back to hovering, the arrow
/// keys up and down leave the field for the submit button, and everything
/// else is handed to the buffer — printable characters are inserted,
/// backspace deletes, left and right move the cursor. Keys the buffer has no
/// meaning for are consumed without effect; nothing leaves an open modal.
pub open spec fn spec_route_focused_input(
    s: ScreenView,
    k: KeyEvent,
) -> (ScreenView, Option<KeyAction>) {
    if is_escape_key(k) {
        (
            ScreenView {
                selected_mode: s.selected_mode,
                modal_state: ModalState::Opened {
                    element_under_cursor: ModalElement::Input,
                    element_focus_state: FocusState::Hovered,
                },
                input: s.input,
            },
            None,
        )
    } else if k.code is Up || k.code is Down {
        (
            ScreenView {
                selected_mode: s.selected_mode,
                modal_state: ModalState::Opened {
                    element_under_cursor: ModalElement::SubmitButton,
                    element_focus_state: FocusState::Hovered,
                },
                input: s.input,
            },
            None,
        )
    } else if k.code matches KeyCode::Char(c) && !k.ctrl {
        (
            ScreenView {
                selected_mode: s.selected_mode,
                modal_state: s.modal_state,
                input: spec_insert(s.input, k.code->Char_0),
            },
            None,
        )
    } else if k.code is Backspace {
        (
            ScreenView {
                selected_mode: s.selected_mode,
                modal_state: s.modal_state,
                input: spec_delete_backward(s.input),
            },
            None,
        )
    } else if k.code is Left {
        (
            ScreenView {
                selected_mode: s.selected_mode,
                modal_state: s.modal_state,
                input: spec_move_cursor(s.input, -1),
            },
            None,
        )
    } else if k.code is Right {
        (
            ScreenView {
                selected_mode: s.selected_mode,
                modal_state: s.modal_state,
                input: spec_move_cursor(s.input, 1),
            },
            None,
        )
    } else {
        (s, None)
    }
}

/// Routing with the input hovered: activate focuses it, navigation moves to
/// the submit button, escape closes the modal, and any other key is consumed.
pub open spec fn spec_route_hovered_input(
    s: ScreenView,
    k: KeyEvent,
) -> (ScreenView, Option<KeyAction>) {
    if is_activate_key(k) {
        (
            ScreenView {
                selected_mode: s.selected_mode,
                modal_state: ModalState::Opened {
                    element_under_cursor: ModalElement::Input,
                    element_focus_state: FocusState::Focused,
                },
                input: s.input,
            },
            None,
        )
    } else if is_navigation_key(k) {
        (
            ScreenView {
                selected_mode: s.selected_mode,
                modal_state: ModalState::Opened {
                    element_under_cursor: ModalElement::SubmitButton,
                    element_focus_state: FocusState::Hovered,
                },
                input: s.input,
            },
            None,
        )
    } else if is_escape_key(k) {
        (
            ScreenView {
                selected_mode: s.selected_mode,
                modal_state: ModalState::Closed,
                input: s.input,
            },
            None,
        )
    } else {
        (s, None)
    }
}

/// Routing with the submit button under the cursor: activate emits the only
/// action an open modal ever shows outside — a submit, with the state left as
/// it is. Navigation returns to the input, escape closes the modal, and any
/// other key is consumed.
pub open spec fn spec_route_submit_button(
    s: ScreenView,
    k: KeyEvent,
) -> (ScreenView, Option<KeyAction>) {
    if is_activate_key(k) {
        (s, Some(KeyAction::Submit))
    } else if is_navigation_key(k) {
        (
            ScreenView {
                selected_mode: s.selected_mode,
                modal_state: ModalState::Opened {
                    element_under_cursor: ModalElement::Input,
                    element_focus_state: FocusState::Hovered,
                },
                input: s.input,
            },
            None,
        )
    } else if is_escape_key(k) {
        (
            ScreenView {
                selected_mode: s.selected_mode,
                modal_state: ModalState::Closed,
                input: s.input,
            },
            None,
        )
    } else {
        (s, None)
    }
}

/// One key press, routed: the screen after the key, and the action the caller
/// sees. `None` means the key was fully consumed.
pub open spec fn spec_route(s: ScreenView, k: KeyEvent) -> (ScreenView, Option<KeyAction>) {
    match s.modal_state {
        ModalState::Closed => spec_route_closed(s, k),
        ModalState::Opened { element_under_cursor, element_focus_state } => {
            match element_under_cursor {
                ModalElement::Input => {
                    if element_focus_state is Focused {
                        spec_route_focused_input(s, k)
                    } else {
                        spec_route_hovered_input(s, k)
                    }
                },
                ModalElement::SubmitButton => spec_route_submit_button(s, k),
            }
        },
    }
}

/// The screen after a whole sequence of key presses, first key first.
pub open spec fn spec_route_seq(s: ScreenView, ks: Seq<KeyEvent>) -> ScreenView
    decreases ks.len(),
{
    if ks.len() == 0 {
        s
    } else {
        spec_route_seq(spec_route(s, ks[0]).0, ks.drop_first())
    }
}

/// The marker type the renderer and the router hang off. It carries no state
/// of its own; the state lives in [`GithubScreenState`].
pub struct GithubScreen;

impl GithubScreen {
    /// Route one key press through the screen, mutating the state and
    /// returning the action the shell sees: `None` when the key was consumed,
    /// a bubble when the closed screen does not recognise it, or a submit.
    pub fn on_key_press(key: KeyEvent, state: &mut GithubScreenState) -> (action: Option<
        KeyAction,
    >)
        requires
            old(state)@.wf(),
            old(state)@.input.text.len() < usize::MAX,
        ensures
            final(state)@ == spec_route(old(state)@, key).0,
            action == spec_route(old(state)@, key).1,
            final(state)@.wf(),
    {
        let modal = state.modal_state;
        match modal {
            ModalState::Closed => {
                if key.is_navigation() {
                    state.selected_mode = match state.selected_mode {
                        GithubAuthMode::Browser => GithubAuthMode::Token,
                        GithubAuthMode::Token => GithubAuthMode::Browser,
                    };
                    None
                } else if key.is_activate() {
                    state.modal_state = ModalState::Opened {
                        element_under_cursor: ModalElement::Input,
                        element_focus_state: FocusState::Hovered,
                    };
                    None
                } else {
                    Some(KeyAction::Bubble)
                }
            },
            ModalState::Opened { element_under_cursor, element_focus_state } => {
                match element_under_cursor {
                    ModalElement::Input => {
                        if matches!(element_focus_state, FocusState::Focused) {
                            Self::on_key_press_focused_input(key, state)
                        } else {
                            Self::on_key_press_hovered_input(key, state)
                        }
                    },
                    ModalElement::SubmitButton => Self::on_key_press_submit_button(key, state),
                }
            },
        }
    }

    fn on_key_press_focused_input(key: KeyEvent, state: &mut GithubScreenState) -> (action:
        Option<KeyAction>)
        requires
            old(state)@.wf(),
            old(state)@.input.text.len() < usize::MAX,
            old(state)@.modal_state == (ModalState::Opened {
                element_under_cursor: ModalElement::Input,
                element_focus_state: FocusState::Focused,
            }),
        ensures
            final(state)@ == spec_route_focused_input(old(state)@, key).0,
            action == spec_route_focused_input(old(state)@, key).1,
    {
        if key.is_escape() {
            state.modal_state = ModalState::Opened {
                element_under_cursor: ModalElement::Input,
                element_focus_state: FocusState::Hovered,
            };
            None
        } else if matches!(key.code, KeyCode::Up | KeyCode::Down) {
            state.modal_state = ModalState::Opened {
                element_under_cursor: ModalElement::SubmitButton,
                element_focus_state: FocusState::Hovered,
            };
            None
        } else {
            match key.code {
                KeyCode::Char(c) if !key.ctrl => {
                    state.input.insert(c);
                    None
                },
                KeyCode::Backspace => {
                    state.input.delete_backward();
                    None
                },
                KeyCode::Left => {
                    state.input.move_cursor(-1);
                    None
                },
                KeyCode::Right => {
                    state.input.move_cursor(1);
                    None
                },
                _ => None,
            }
        }
    }

    fn on_key_press_hovered_input(key: KeyEvent, state: &mut GithubScreenState) -> (action:
        Option<KeyAction>)
        requires
            old(state)@.wf(),
            old(state)@.modal_state == (ModalState::Opened {
                element_under_cursor: ModalElement::Input,
                element_focus_state: FocusState::Hovered,
            }),
        ensures
            final(state)@ == spec_route_hovered_input(old(state)@, key).0,
            action == spec_route_hovered_input(old(state)@, key).1,
    {
        if key.is_activate() {
            state.modal_state = ModalState::Opened {
                element_under_cursor: ModalElement::Input,
                element_focus_state: FocusState::Focused,
            };
            None
        } else if key.is_navigation() {
            state.modal_state = ModalState::Opened {
                element_under_cursor: ModalElement::SubmitButton,
                element_focus_state: FocusState::Hovered,
            };
            None
        } else if key.is_escape() {
            state.modal_state = ModalState::Closed;
            None
        } else {
            None
        }
    }

    fn on_key_press_submit_button(key: KeyEvent, state: &mut GithubScreenState) -> (action:
        Option<KeyAction>)
        requires
            old(state)@.wf(),
            old(state)@.modal_state matches ModalState::Opened {
                element_under_cursor: ModalElement::SubmitButton,
                element_focus_state: _,
            },
        ensures
            final(state)@ == spec_route_submit_button(old(state)@, key).0,
            action == spec_route_submit_button(old(state)@, key).1,
    {
        if key.is_activate() {
            Some(KeyAction::Submit)
        } else if key.is_navigation() {
            state.modal_state = ModalState::Opened {
                element_under_cursor: ModalElement::Input,
                element_focus_state: FocusState::Hovered,
            };
            None
        } else if key.is_escape() {
            state.modal_state = ModalState::Closed;
            None
        } else {
            None
        }
    }

    /// The screen a fresh session shows: modal closed, browser mode
    /// selected, nothing typed.
    pub fn initial_state() -> (s: GithubScreenState)
        ensures
            s@ == spec_initial_screen(),
            s@.wf(),
    {
        GithubScreenState {
            selected_mode: GithubAuthMode::Browser,
            modal_state: ModalState::Closed,
            input: InputBuffer::new(),
        }
    }
}

impl Default for GithubScreenState {
    /// The screen starts closed, in browser mode, with an empty buffer.
    fn default() -> (s: Self)
        ensures
            s@ == spec_initial_screen(),
            s@.wf(),
    {
        GithubScreen::initial_state()
    }
}

impl Default for GithubAuthMode {
    fn default() -> (m: Self)
        ensures
            m == GithubAuthMode::Browser,
    {
        GithubAuthMode::Browser
    }
}

impl Default for ModalState {
    fn default() -> (m: Self)
        ensures
            m == ModalState::Closed,
    {
        ModalState::Closed
    }
}

impl Default for ModalElement {
    fn default() -> (e: Self)
        ensures
            e == ModalElement::Input,
    {
        ModalElement::Input
    }
}

impl Default for FocusState {
    fn default() -> (f: Self)
        ensures
            f == FocusState::Hovered,
    {
        FocusState::Hovered
    }
}

/// Routing law: one key press never moves the cursor out of `[0, length]`.
pub proof fn lemma_route_preserves_wf(s: ScreenView, k: KeyEvent)
    requires
        s.wf(),
    ensures
        spec_route(s, k).0.wf(),
{
}

/// Routing law: over every sequence of key presses, the buffer's cursor stays
/// within `[0, length]`.
pub proof fn lemma_route_seq_preserves_wf(s: ScreenView, ks: Seq<KeyEvent>)
    requires
        s.wf(),
    ensures
        spec_route_seq(s, ks).wf(),
    decreases ks.len(),
{
    if ks.len() > 0 {
        lemma_route_preserves_wf(s, ks[0]);
        lemma_route_seq_preserves_wf(spec_route(s, ks[0]).0, ks.drop_first());
    }
}

/// Interception law: while the modal is open, no key ever bubbles out; the
/// only externally visible action an open modal can yield is a submit.
pub proof fn lemma_opened_never_bubbles(s: ScreenView, k: KeyEvent)
    requires
        s.modal_state is Opened,
    ensures
        spec_route(s, k).1 != Some(KeyAction::Bubble),
{
}

/// Interception law: while the modal is closed, exactly the navigation and
/// activate keys are consumed, and every other key bubbles out unchanged.
pub proof fn lemma_closed_bubbles_everything_else(s: ScreenView, k: KeyEvent)
    requires
        s.modal_state is Closed,
    ensures
        is_navigation_key(k) || is_activate_key(k) ==> spec_route(s, k).1 == None::<KeyAction>,
        !is_navigation_key(k) && !is_activate_key(k) ==> spec_route(s, k).1 == Some(
            KeyAction::Bubble,
        ),
{
}

/// Toggling law: the toggle is an involution — applied twice it returns the
/// mode it started from.
pub proof fn lemma_toggled_involution(m: GithubAuthMode)
    ensures
        toggled(toggled(m)) == m,
{
}

/// Toggling law: a navigation key on the closed screen only flips the
/// selected mode — the modal and the buffer are untouched, the key is
/// consumed, and a second press restores the original mode.
pub proof fn lemma_mode_toggle_pure_involution(s: ScreenView, k: KeyEvent)
    requires
        s.modal_state is Closed,
        is_navigation_key(k),
    ensures
        ({
            let (s1, a1) = spec_route(s, k);
            let (s2, a2) = spec_route(s1, k);
            &&& s1.selected_mode == toggled(s.selected_mode)
            &&& s1.modal_state == s.modal_state
            &&& s1.input == s.input
            &&& a1 == None::<KeyAction>
            &&& s2 == s
            &&& a2 == None::<KeyAction>
        }),
{
}

impl GithubAuthMode {
    /// The card's headline for this mode.
    pub fn title(&self) -> (r: &'static str)
        ensures
            *self is Token ==> r@ == "Login with personal access token"@,
            *self is Browser ==> r@ == "Login from browser"@,
    {
        match self {
            GithubAuthMode::Token => "Login with personal access token",
            GithubAuthMode::Browser => "Login from browser",
        }
    }

    /// The link a user follows to complete this mode's flow.
    pub fn url(&self) -> (r: &'static str)
        ensures
            *self is Browser ==> r@ == "https://github.com/login/device"@,
            *self is Token ==> r@
                == "https://github.com/settings/tokens/new?scopes=repo&description=GHCutter"@,
    {
        match self {
            GithubAuthMode::Browser => "https://github.com/login/device",
            GithubAuthMode::Token => {
                "https://github.com/settings/tokens/new?scopes=repo&description=GHCutter"
            },
        }
    }
}

} // verus!
