//! The login window: the two inputs and the two buttons, what a key press
//! in each asks for, and how the answer to a login changes the buttons.
use vstd::prelude::*;

use crate::gui::widgets::input::{edited_by_key, EditKey, Input, InputType, KeyPress};
use crate::utils::push_str;

verus! {

/// A button: its label, the key press that activates it, and whether it
/// is disabled.
#[derive(Debug)]
pub struct Button {
    pub label: String,
    pub event: KeyPress,
    pub disabled: bool,
}

/// The login window: the user name input, the password input, the login
/// and logout buttons, and the widget in focus.
#[derive(Debug)]
pub struct LoginWindow {
    pub title: String,
    pub username_input: Input,
    pub password_input: Input,
    pub login_button: Button,
    pub logout_button: Button,
    pub focus_index: u8,
}

/// The login button's label after the server's answer: `LOGGED IN`, or
/// `LOG IN FAILED: ` and the reason.
pub open spec fn login_label(success: bool, reason: Seq<char>) -> Seq<char> {
    if success {
        "LOGGED IN"@
    } else {
        "LOG IN FAILED: "@ + reason
    }
}

/// What pressing the login button of `w` asks for (see `press_login`).
pub open spec fn login_request(w: LoginWindow) -> Option<(String, String)> {
    if !w.login_button.disabled && w.username_input.value@.len() > 0
        && w.password_input.input_string@.len() > 0 {
        Some((w.username_input.value, w.password_input.input_string))
    } else {
        None
    }
}

/// What a key press in the login window asks for.
#[derive(Debug, PartialEq, Eq)]
pub enum LoginAction {
    /// Nothing beyond what the window itself shows.
    Nothing,
    /// To log in as `username` with `password`.
    TryLogin { username: String, password: String },
    /// To end the session and start again.
    Restart,
}

/// What the server's answer to a login shows in the window `before`,
/// giving `after` (see `LoginWindow::on_login_result`).
pub open spec fn login_result_shown(before: LoginWindow, after: LoginWindow, success: bool, reason: Option<String>) -> bool {
    &&& after.login_button.label@ == login_label(
        success,
        match reason {
            Some(t) => t@,
            None => Seq::empty(),
        },
    )
    &&& success ==> after.login_button.disabled && !after.logout_button.disabled
        && after.logout_button.label@ == "LOGOUT"@
    &&& !success ==> after.login_button.disabled == before.login_button.disabled
        && after.logout_button == before.logout_button
    &&& after.login_button.event == before.login_button.event
    &&& after.username_input == before.username_input
    &&& after.password_input == before.password_input
    &&& after.focus_index == before.focus_index
    &&& after.title == before.title
}

impl LoginWindow {
    /// A window titled " Login " with nothing typed, a password input, a
    /// LOGIN button and a LOGGED OUT button, neither disabled, the user name
    /// in focus.
    pub fn new() -> (r: Self)
        ensures
            r.title@ == " Login "@,
            r.username_input.value@.len() == 0,
            r.username_input.input_string@.len() == 0,
            r.username_input.input_type == InputType::Standard,
            r.password_input.value@.len() == 0,
            r.password_input.input_string@.len() == 0,
            r.password_input.input_type == InputType::Password,
            r.login_button.label@ == "LOGIN"@,
            r.login_button.event == (KeyPress { code: EditKey::Enter, mods: 0 }),
            !r.login_button.disabled,
            r.logout_button.label@ == "LOGGED OUT"@,
            r.logout_button.event == (KeyPress { code: EditKey::Enter, mods: 0 }),
            !r.logout_button.disabled,
            r.focus_index == 0,
    {
        proof {
            reveal_strlit("");
        }
        LoginWindow {
            title: String::from_str(" Login "),
            username_input: Input::default(),
            password_input: Input::default().input_type(InputType::Password),
            login_button: Button {
                label: String::from_str("LOGIN"),
                event: KeyPress { code: EditKey::Enter, mods: 0 },
                disabled: false,
            },
            logout_button: Button {
                label: String::from_str("LOGGED OUT"),
                event: KeyPress { code: EditKey::Enter, mods: 0 },
                disabled: false,
            },
            focus_index: 0,
        }
    }

    /// What pressing the login button asks: to log in with the user name
    /// shown and the password typed, unless the button is disabled or
    /// either is empty.
    pub fn press_login(&self) -> (r: Option<(String, String)>)
        ensures
            r == login_request(*self),
    {
        if !self.login_button.disabled && !self.username_input.value.as_str().is_empty()
            && !self.password_input.input_string.as_str().is_empty() {
            Some((self.username_input.value.clone(), self.password_input.input_string.clone()))
        } else {
            None
        }
    }

    /// A key press with the widget `focus_index` in focus: the user name
    /// input (0) or the password input (1) is edited by it; the login
    /// button (2) or the logout button (3) is pressed by the key that
    /// activates it (Enter), and other keys do nothing there.
    pub fn perform_action(&mut self, focus_index: u8, key: KeyPress) -> (r: LoginAction)
        requires
            focus_index < 4,
        ensures
            final(self).title == old(self).title,
            final(self).login_button == old(self).login_button,
            final(self).logout_button == old(self).logout_button,
            final(self).focus_index == old(self).focus_index,
            focus_index == 0 ==> edited_by_key(old(self).username_input, final(self).username_input, key)
                && final(self).password_input == old(self).password_input && r == LoginAction::Nothing,
            focus_index == 1 ==> edited_by_key(old(self).password_input, final(self).password_input, key)
                && final(self).username_input == old(self).username_input && r == LoginAction::Nothing,
            focus_index >= 2 ==> final(self).username_input == old(self).username_input
                && final(self).password_input == old(self).password_input,
            focus_index == 2 ==> r == if key != old(self).login_button.event {
                LoginAction::Nothing
            } else {
                match login_request(*old(self)) {
                    Some((u, p)) => LoginAction::TryLogin { username: u, password: p },
                    None => LoginAction::Nothing,
                }
            },
            focus_index == 3 ==> r == if key != old(self).logout_button.event
                || old(self).logout_button.disabled {
                LoginAction::Nothing
            } else {
                LoginAction::Restart
            },
    {
        if focus_index == 0 {
            self.username_input.handle_event(key);
            LoginAction::Nothing
        } else if focus_index == 1 {
            self.password_input.handle_event(key);
            LoginAction::Nothing
        } else if focus_index == 2 {
            if key == self.login_button.event {
                match self.press_login() {
                    Some((username, password)) => LoginAction::TryLogin { username, password },
                    None => LoginAction::Nothing,
                }
            } else {
                LoginAction::Nothing
            }
        } else if key == self.logout_button.event && self.press_logout() {
            LoginAction::Restart
        } else {
            LoginAction::Nothing
        }
    }

    /// Whether pressing the logout button restarts the session: unless it
    /// is disabled.
    pub fn press_logout(&self) -> (r: bool)
        ensures
            r == !self.logout_button.disabled,
    {
        !self.logout_button.disabled
    }

    /// The server's answer to a login. On success the login button shows
    /// LOGGED IN and is disabled, and the logout button shows LOGOUT and is
    /// enabled; on failure the login button shows why.
    pub fn on_login_result(&mut self, success: bool, reason: Option<String>)
        requires
            !success ==> reason is Some,
        ensures
            login_result_shown(*old(self), *final(self), success, reason),
    {
        if success {
            self.login_button.disabled = true;
            self.logout_button.disabled = false;
            self.logout_button.label = String::from_str("LOGOUT");
            self.login_button.label = String::from_str("LOGGED IN");
        } else {
            let mut label = String::from_str("LOG IN FAILED: ");
            match &reason {
                Some(t) => push_str(&mut label, t.as_str()),
                None => {},
            }
            self.login_button.label = label;
        }
    }
}

} // verus!
