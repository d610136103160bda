//! Moving between the windows of the interface and between the widgets of
//! the current window: which keys the interface keeps for itself, and what
//! they change.
use vstd::prelude::*;

verus! {

/// The modifier keys held, as the interface tells them apart.
#[derive(Clone, Copy, Debug, PartialEq, Eq, Structural)]
pub enum KeyMods {
    Control,
    ShiftControl,
    Shift,
    /// No modifier, or any other set of them.
    Other,
}

/// The keys that the interface binds.
#[derive(Clone, Copy, Debug, PartialEq, Eq, Structural)]
pub enum NavKey {
    Tab,
    BackTab,
    Enter,
    Esc,
    Other,
}

/// Which window shows, which window the tabs highlight, and which widget of
/// the window has the focus.
#[derive(Clone, Copy, Debug, PartialEq, Eq, Structural)]
pub struct AppFocus {
    pub current_index: u8,
    pub select_index: u8,
    pub focused_widget: u8,
}

/// What follows a key press.
#[derive(Clone, Copy, Debug, PartialEq, Eq, Structural)]
pub enum FocusAction {
    /// Nothing more: the key was the interface's.
    Handled,
    /// The window's focus moves to this widget.
    FocusWidget(u8),
    /// The interface closes, without starting again.
    Quit,
    /// The key goes to this widget of the current window.
    PassOn(u8),
}

impl AppFocus {
    /// The first window, shown and highlighted, with its first widget in
    /// focus.
    pub fn new() -> (r: Self)
        ensures
            r == (AppFocus { current_index: 0, select_index: 0, focused_widget: 0 }),
    {
        AppFocus { current_index: 0, select_index: 0, focused_widget: 0 }
    }
}

/// The highlighted window after the next-window key: one on, round to the
/// first after the last.
pub open spec fn next_window(select: u8, count: u8) -> u8 {
    ((select + 1) % (count as int)) as u8
}

/// The highlighted window after the previous-window key: one back, round
/// to the last before the first.
pub open spec fn previous_window(select: u8, count: u8) -> u8 {
    if select == 0 {
        (count - 1) as u8
    } else {
        ((select - 1) % (count as int)) as u8
    }
}

/// The widget in focus after the next-widget key.
pub open spec fn next_widget(focused: u8, count: u8) -> u8 {
    ((focused + 1) % (count as int)) as u8
}

/// The widget in focus after the previous-widget key.
pub open spec fn previous_widget(focused: u8, count: u8) -> u8 {
    if focused == 0 {
        (count - 1) as u8
    } else {
        (focused - 1) as u8
    }
}

/// What a key press does. The focus first becomes the window's own
/// (`window_focus`). Control+Tab highlights the next window and
/// Control+Shift+BackTab the previous one; Control+Enter shows the
/// highlighted window; Shift+Esc quits; Shift+BackTab and Tab (without
/// Control or Shift) move the focus to the previous or next widget; any
/// other key goes to the widget in focus.
pub open spec fn key_step(
    focus: AppFocus,
    mods: KeyMods,
    key: NavKey,
    window_count: u8,
    widget_count: u8,
    window_focus: u8,
) -> (AppFocus, FocusAction) {
    let f = AppFocus { focused_widget: window_focus, ..focus };
    match (mods, key) {
        (KeyMods::Control, NavKey::Tab) => (
            AppFocus { select_index: next_window(focus.select_index, window_count), ..f },
            FocusAction::Handled,
        ),
        (KeyMods::Control, NavKey::Enter) => (
            AppFocus { current_index: focus.select_index, ..f },
            FocusAction::Handled,
        ),
        (KeyMods::ShiftControl, NavKey::BackTab) => (
            AppFocus { select_index: previous_window(focus.select_index, window_count), ..f },
            FocusAction::Handled,
        ),
        (KeyMods::Shift, NavKey::Esc) => (f, FocusAction::Quit),
        (KeyMods::Shift, NavKey::BackTab) => (
            AppFocus { focused_widget: previous_widget(window_focus, widget_count), ..f },
            FocusAction::FocusWidget(previous_widget(window_focus, widget_count)),
        ),
        (KeyMods::Other, NavKey::Tab) => (
            AppFocus { focused_widget: next_widget(window_focus, widget_count), ..f },
            FocusAction::FocusWidget(next_widget(window_focus, widget_count)),
        ),
        _ => (f, FocusAction::PassOn(window_focus)),
    }
}

/// Handles a key press (see `key_step`).
pub fn on_key(
    focus: AppFocus,
    mods: KeyMods,
    key: NavKey,
    window_count: u8,
    widget_count: u8,
    window_focus: u8,
) -> (r: (AppFocus, FocusAction))
    requires
        0 < window_count,
        0 < widget_count,
        focus.select_index < window_count,
        window_focus < widget_count,
    ensures
        r == key_step(focus, mods, key, window_count, widget_count, window_focus),
{
    let mut f = AppFocus { focused_widget: window_focus, ..focus };
    match mods {
        KeyMods::Control => match key {
            NavKey::Tab => {
                f.select_index = (f.select_index + 1) % window_count;
                return (f, FocusAction::Handled);
            },
            NavKey::Enter => {
                f.current_index = f.select_index;
                return (f, FocusAction::Handled);
            },
            _ => {},
        },
        KeyMods::ShiftControl => match key {
            NavKey::BackTab => {
                if f.select_index == 0 {
                    f.select_index = window_count - 1;
                } else {
                    f.select_index = (f.select_index - 1) % window_count;
                }
                return (f, FocusAction::Handled);
            },
            _ => {},
        },
        KeyMods::Shift => match key {
            NavKey::Esc => {
                return (f, FocusAction::Quit);
            },
            NavKey::BackTab => {
                f.focused_widget = if f.focused_widget == 0 {
                    widget_count - 1
                } else {
                    f.focused_widget - 1
                };
                return (f, FocusAction::FocusWidget(f.focused_widget));
            },
            _ => {},
        },
        KeyMods::Other => match key {
            NavKey::Tab => {
                f.focused_widget = (f.focused_widget + 1) % widget_count;
                return (f, FocusAction::FocusWidget(f.focused_widget));
            },
            _ => {},
        },
    }
    (f, FocusAction::PassOn(f.focused_widget))
}

/// A character in ASCII upper case: `a` to `z` become `A` to `Z`, the rest
/// stay.
pub open spec fn ascii_upper(c: char) -> char {
    if 'a' <= c <= 'z' {
        ((c as u32) - 32) as char
    } else {
        c
    }
}

/// The windows' titles as the tabs show them: the shown window's in ASCII
/// upper case.
pub open spec fn tab_titles(titles: Seq<Seq<char>>, current_index: usize) -> Seq<Seq<char>> {
    if titles.len() > 0 {
        titles.update(current_index as int, titles[current_index as int].map_values(|c: char| ascii_upper(c)))
    } else {
        titles
    }
}

/// The windows' titles for the tabs (see `tab_titles`).
pub fn window_titles(titles: Vec<String>, current_index: usize) -> (r: Vec<String>)
    requires
        titles@.len() > 0 ==> current_index < titles@.len(),
    ensures
        r.deep_view() == tab_titles(titles.deep_view(), current_index),
{
    let mut titles = titles;
    if titles.len() == 0 {
        return titles;
    }
    let ghost before = titles.deep_view();
    let chars = crate::gui::windows::filesearch::chars_of(titles[current_index].as_str());
    let ghost src = chars@;
    let mut upper = String::new();
    let n = chars.len();
    let mut k: usize = 0;
    while k < n
        invariant
            n == src.len(),
            src == chars@,
            k <= n,
            upper@ == src.take(k as int).map_values(|c: char| ascii_upper(c)),
        decreases n - k,
    {
        let c = chars[k];
        let u = if 'a' <= c && c <= 'z' {
            ((c as u8) - 32) as char
        } else {
            c
        };
        assert(u == ascii_upper(c)) by {
            if 'a' <= c && c <= 'z' {
                assert((c as u8) as u32 == c as u32);
            }
        }
        crate::utils::push_char(&mut upper, u);
        assert(src.take(k + 1) =~= src.take(k as int).push(c));
        assert(upper@ =~= src.take(k + 1).map_values(|c: char| ascii_upper(c)));
        k = k + 1;
    }
    assert(src.take(n as int) =~= src);
    titles.set(current_index, upper);
    assert(titles.deep_view() =~= tab_titles(before, current_index));
    titles
}

/// Every key keeps the highlighted window among the windows, the shown
/// window too when it was among them, and the focused widget among the
/// widgets.
pub proof fn lemma_focus_stays_in_range(
    focus: AppFocus,
    mods: KeyMods,
    key: NavKey,
    window_count: u8,
    widget_count: u8,
    window_focus: u8,
)
    requires
        0 < window_count,
        0 < widget_count,
        focus.select_index < window_count,
        window_focus < widget_count,
    ensures
        ({
            let r = key_step(focus, mods, key, window_count, widget_count, window_focus);
            &&& r.0.select_index < window_count
            &&& focus.current_index < window_count ==> r.0.current_index < window_count
            &&& r.0.focused_widget < widget_count
        }),
{
}

/// The previous-window key undoes the next-window key, and the other way
/// round; so do the previous-widget and next-widget keys.
pub proof fn lemma_window_and_widget_keys_undo(select: u8, window_count: u8, focused: u8, widget_count: u8)
    requires
        select < window_count,
        focused < widget_count,
    ensures
        previous_window(next_window(select, window_count), window_count) == select,
        next_window(previous_window(select, window_count), window_count) == select,
        previous_widget(next_widget(focused, widget_count), widget_count) == focused,
        next_widget(previous_widget(focused, widget_count), widget_count) == focused,
{
    lemma_round_step(select, window_count);
    lemma_round_step(focused, widget_count);
    if select > 0 {
        lemma_round_step((select - 1) as u8, window_count);
    }
    lemma_round_step((window_count - 1) as u8, window_count);
    lemma_round_step((widget_count - 1) as u8, widget_count);
}

proof fn lemma_round_step(i: u8, count: u8)
    requires
        i < count,
    ensures
        (i as int) % (count as int) == i,
        (i + 1) % (count as int) == (if i + 1 < count { i + 1 } else { 0 }),
{
    assert((i as int) % (count as int) == i) by (nonlinear_arith)
        requires
            0 <= i < count,
    ;
    if i + 1 < count {
        assert((i + 1) % (count as int) == i + 1) by (nonlinear_arith)
            requires
                0 <= i + 1 < count,
        ;
    } else {
        assert((i + 1) % (count as int) == 0) by (nonlinear_arith)
            requires
                i + 1 == count,
                count > 0,
        ;
    }
}

} // verus!
