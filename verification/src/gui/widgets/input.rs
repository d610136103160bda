//! A text input: what a key press does to its text and cursor, how its
//! text is drawn around the cursor, and how a password is hidden.
use vstd::prelude::*;

use crate::gui::windows::filesearch::{chars_of, string_of};
use crate::utils::push_char;
use ratatui::crossterm::event::{Event, KeyCode, KeyEvent, KeyModifiers};

verus! {

/// The pieces of an input's text as drawn, each with whether it is drawn
/// highlighted as the cursor. Without the focus, the text alone; with it,
/// the text before the cursor, the character under the cursor highlighted
/// (a space when the cursor is at the end), and the rest.
pub open spec fn cursor_pieces(text: Seq<char>, cursor: nat, in_focus: bool) -> Seq<(Seq<char>, bool)> {
    if !in_focus {
        seq![(text, false)]
    } else if cursor == text.len() {
        seq![(text, false), (seq![' '], true)]
    } else {
        seq![
            (text.take(cursor as int), false),
            (seq![text[cursor as int]], true),
            (text.skip(cursor as int + 1), false),
        ]
    }
}

/// The pieces of an input's text as drawn (see `cursor_pieces`).
pub fn cursor_spans(text: &str, cursor: usize, in_focus: bool) -> (r: Vec<(String, bool)>)
    requires
        in_focus ==> cursor <= text@.len(),
    ensures
        r@.len() == cursor_pieces(text@, cursor as nat, in_focus).len(),
        forall|i: int|
            0 <= i < r@.len() ==> (#[trigger] r@[i]).0@ == cursor_pieces(text@, cursor as nat, in_focus)[i].0
                && r@[i].1 == cursor_pieces(text@, cursor as nat, in_focus)[i].1,
{
    let chars = chars_of(text);
    let n = chars.len();
    let mut r: Vec<(String, bool)> = Vec::new();
    if !in_focus {
        r.push((string_of(&chars, 0, n), false));
        assert(chars@.subrange(0, n as int) =~= text@);
    } else if cursor == n {
        r.push((string_of(&chars, 0, n), false));
        assert(chars@.subrange(0, n as int) =~= text@);
        let mut space = String::new();
        push_char(&mut space, ' ');
        assert(space@ =~= seq![' ']);
        r.push((space, true));
    } else {
        r.push((string_of(&chars, 0, cursor), false));
        assert(chars@.subrange(0, cursor as int) =~= text@.take(cursor as int));
        let mut at = String::new();
        push_char(&mut at, chars[cursor]);
        assert(at@ =~= seq![text@[cursor as int]]);
        r.push((at, true));
        r.push((string_of(&chars, cursor + 1, n), false));
        assert(chars@.subrange(cursor + 1, n as int) =~= text@.skip(cursor + 1));
    }
    r
}

/// A password as shown: a `*` for each of its characters.
pub open spec fn masked(text: Seq<char>) -> Seq<char> {
    Seq::new(text.len(), |i: int| '*')
}

/// A password as shown (see `masked`).
pub fn mask(text: &str) -> (r: String)
    ensures
        r@ == masked(text@),
{
    let chars = chars_of(text);
    let n = chars.len();
    let mut r = String::new();
    let mut k: usize = 0;
    while k < n
        invariant
            n == text@.len(),
            k <= n,
            r@ == Seq::new(k as nat, |i: int| '*'),
        decreases n - k,
    {
        push_char(&mut r, '*');
        assert(r@ =~= Seq::new((k + 1) as nat, |i: int| '*'));
        k = k + 1;
    }
    r
}

// ---------------------------------------------------------------------------
// Key presses
// ---------------------------------------------------------------------------

/// The keys that edit an input, and Enter; any other key is `Other`.
#[derive(Clone, Copy, Debug, PartialEq, Eq, Structural)]
pub enum EditKey {
    Char(char),
    Backspace,
    Delete,
    Left,
    Right,
    Home,
    End,
    Enter,
    Other,
}

/// A key pressed, with the modifier keys held as bits: 1 shift, 2 control,
/// 4 alt, 8 super, 16 hyper, 32 meta (higher bits are not read).
#[derive(Clone, Copy, Debug, PartialEq, Eq, Structural)]
pub struct KeyPress {
    pub code: EditKey,
    pub mods: u8,
}

/// The modifier bits that are read.
pub open spec fn mods_held(k: KeyPress) -> int {
    k.mods as int % 64
}

/// What a key press does to an input holding `value` with its cursor at
/// `cursor`: the new text, the new cursor, and whether the text and the
/// cursor changed (nothing when the key does nothing).
pub uninterp spec fn key_edit(value: Seq<char>, cursor: usize, key: KeyPress) -> (
    Seq<char>,
    usize,
    Option<(bool, bool)>,
);

/// The display width of the text before the cursor of an input holding
/// `value` with its cursor at `cursor`.
pub uninterp spec fn visual_width(value: Seq<char>, cursor: usize) -> usize;

/// Calls `tui_input::Input::handle_event` (of the crossterm backend's
/// `EventHandler`) on an input holding `value` with its cursor at `cursor`,
/// for the press of `key`. Its result is named `key_edit`. As the source
/// shows, the cursor stays within the text; and, with the cursor within the
/// text and no modifier other than shift held for a character or none for
/// another key: a character is put in at the cursor, which moves past it;
/// backspace takes out the character before the cursor, delete the one at
/// it; the arrows move the cursor by one and home and end to either end,
/// each doing nothing where it cannot; and a key that does not edit does
/// nothing. What the other key presses do (moves and deletions by words,
/// and the control and meta bindings) is left to the name.
#[verifier::external_body]
fn key_edit_exec(value: &str, cursor: usize, key: KeyPress) -> (r: (String, usize, Option<(bool, bool)>))
    ensures
        (r.0@, r.1, r.2) == key_edit(value@, cursor, key),
        r.1 <= r.0@.len(),
        cursor <= value@.len() ==> edits_as_stated(value@, cursor, key, (r.0@, r.1, r.2)),
{
    let code = match key.code {
        EditKey::Char(c) => KeyCode::Char(c), EditKey::Backspace => KeyCode::Backspace,
        EditKey::Delete => KeyCode::Delete, EditKey::Left => KeyCode::Left,
        EditKey::Right => KeyCode::Right, EditKey::Home => KeyCode::Home,
        EditKey::End => KeyCode::End, EditKey::Enter => KeyCode::Enter,
        EditKey::Other => KeyCode::Null,
    };
    let event = Event::Key(KeyEvent::new(code, KeyModifiers::from_bits_truncate(key.mods)));
    let mut input = tui_input::Input::new(value.to_string()).with_cursor(cursor);
    let changed = tui_input::backend::crossterm::EventHandler::handle_event(&mut input, &event);
    (input.value().to_string(), input.cursor(), changed.map(|s| (s.value, s.cursor)))
}

/// What a key press does, where a few lines say it (see `key_edit_exec`).
pub open spec fn edits_as_stated(
    v: Seq<char>,
    c: usize,
    key: KeyPress,
    r: (Seq<char>, usize, Option<(bool, bool)>),
) -> bool {
    let unchanged = (v, c, None::<(bool, bool)>);
    match key.code {
        EditKey::Char(ch) => (mods_held(key) == 0 || mods_held(key) == 1) ==> r == (
            v.take(c as int).push(ch) + v.skip(c as int),
            (c + 1) as usize,
            Some((true, true)),
        ),
        EditKey::Backspace => mods_held(key) == 0 ==> r == if c == 0 {
            unchanged
        } else {
            (v.take(c - 1) + v.skip(c as int), (c - 1) as usize, Some((true, true)))
        },
        EditKey::Delete => mods_held(key) == 0 ==> r == if c == v.len() {
            unchanged
        } else {
            (v.take(c as int) + v.skip(c + 1), c, Some((true, false)))
        },
        EditKey::Left => mods_held(key) == 0 ==> r == if c == 0 {
            unchanged
        } else {
            (v, (c - 1) as usize, Some((false, true)))
        },
        EditKey::Right => mods_held(key) == 0 ==> r == if c == v.len() {
            unchanged
        } else {
            (v, (c + 1) as usize, Some((false, true)))
        },
        EditKey::Home => mods_held(key) == 0 ==> r == if c == 0 {
            unchanged
        } else {
            (v, 0usize, Some((false, true)))
        },
        EditKey::End => mods_held(key) == 0 ==> r == if c == v.len() {
            unchanged
        } else {
            (v, v.len() as usize, Some((false, true)))
        },
        EditKey::Enter | EditKey::Other => r == unchanged,
    }
}

/// Calls `tui_input::Input::visual_cursor` on an input holding `value` with
/// its cursor at `cursor`. Its result (the Unicode display width of the text
/// before the cursor) is named `visual_width`.
#[verifier::external_body]
fn visual_cursor_exec(value: &str, cursor: usize) -> (r: usize)
    ensures
        r == visual_width(value@, cursor),
{
    tui_input::Input::new(value.to_string()).with_cursor(cursor).visual_cursor()
}

// ---------------------------------------------------------------------------
// The input
// ---------------------------------------------------------------------------

/// How an input shows its text: as typed, or hidden as a password.
#[derive(Clone, Copy, Debug, PartialEq, Eq, Structural)]
pub enum InputType {
    Standard,
    Password,
}

/// A text input: the text it shows with the cursor in it, how it shows it,
/// the text typed (edited as if the cursor stayed at its end), and whether
/// it has the focus.
#[derive(Debug)]
pub struct Input {
    pub value: String,
    pub cursor: usize,
    pub input_type: InputType,
    pub input_string: String,
    pub in_focus: bool,
}

/// What a key press does to an input (see `Input::handle_event`): the
/// input after it, and what the press changed of the text shown.
pub open spec fn input_after_key(i: Input, key: KeyPress) -> (
    Seq<char>,
    usize,
    Seq<char>,
    Option<(bool, bool)>,
) {
    let shown = key_edit(i.value@, i.cursor, key);
    let typed = key_edit(i.input_string@, i.input_string@.len() as usize, key).0;
    match i.input_type {
        InputType::Standard => (shown.0, shown.1, typed, shown.2),
        InputType::Password => (
            masked(typed),
            if visual_width(shown.0, shown.1) < typed.len() {
                visual_width(shown.0, shown.1)
            } else {
                typed.len() as usize
            },
            typed,
            shown.2,
        ),
    }
}

/// Whether `after` is the input `before` after a press of `key` (see
/// `input_after_key`).
pub open spec fn edited_by_key(before: Input, after: Input, key: KeyPress) -> bool {
    let e = input_after_key(before, key);
    &&& after.value@ == e.0
    &&& after.cursor == e.1
    &&& after.input_string@ == e.2
    &&& after.input_type == before.input_type
    &&& after.in_focus == before.in_focus
}

impl Default for Input {
    /// An empty standard input without the focus.
    fn default() -> (r: Self)
        ensures
            r.value@.len() == 0,
            r.cursor == 0,
            r.input_type == InputType::Standard,
            r.input_string@.len() == 0,
            !r.in_focus,
    {
        Input {
            value: String::new(),
            cursor: 0,
            input_type: InputType::Standard,
            input_string: String::new(),
            in_focus: false,
        }
    }
}

impl Input {
    /// The same input, showing its text as `input_type` says.
    pub fn input_type(&self, input_type: InputType) -> (r: Self)
        ensures
            r.value@ == self.value@,
            r.cursor == self.cursor,
            r.input_type == input_type,
            r.input_string@ == self.input_string@,
            r.in_focus == self.in_focus,
    {
        Input {
            value: self.value.clone(),
            cursor: self.cursor,
            input_type,
            input_string: self.input_string.clone(),
            in_focus: self.in_focus,
        }
    }

    /// Empties the input, with the cursor at the start.
    pub fn clear(&mut self)
        ensures
            final(self).value@.len() == 0,
            final(self).cursor == 0,
            final(self).input_string@.len() == 0,
            final(self).input_type == old(self).input_type,
            final(self).in_focus == old(self).in_focus,
    {
        self.input_string = String::new();
        self.value = String::new();
        self.cursor = 0;
    }

    /// Gives the input the focus.
    pub fn make_focused(&mut self)
        ensures
            final(self).in_focus,
            final(self).value == old(self).value,
            final(self).cursor == old(self).cursor,
            final(self).input_type == old(self).input_type,
            final(self).input_string == old(self).input_string,
    {
        self.in_focus = true;
    }

    /// Edits the input by a key press: the text shown and its cursor as
    /// the key says, the text typed as if its cursor were at its end, and,
    /// for a password, the text shown hidden with the cursor where the
    /// shown text put it (within the text); gives what changed of the text
    /// shown.
    pub fn handle_event(&mut self, key: KeyPress) -> (r: Option<(bool, bool)>)
        ensures
            edited_by_key(*old(self), *final(self), key),
            r == input_after_key(*old(self), key).3,
    {
        let (shown, cursor, changed) = key_edit_exec(self.value.as_str(), self.cursor, key);
        let typed_len = chars_of(self.input_string.as_str()).len();
        let (typed, _, _) = key_edit_exec(self.input_string.as_str(), typed_len, key);
        match self.input_type {
            InputType::Standard => {
                self.value = shown;
                self.cursor = cursor;
            },
            InputType::Password => {
                let width = visual_cursor_exec(shown.as_str(), cursor);
                let hidden = mask(typed.as_str());
                let n = chars_of(typed.as_str()).len();
                self.value = hidden;
                self.cursor = if width < n {
                    width
                } else {
                    n
                };
            },
        }
        self.input_string = typed;
        changed
    }
}

} // verus!
