//! A yes/no dialog: shown or hidden, which of its two buttons has the
//! focus, and what it was opened about; what a key does to it.
use vstd::prelude::*;

verus! {

/// The keys that a dialog answers: Esc closes it, Enter presses the button
/// in focus.
#[derive(Clone, Copy, Debug, PartialEq, Eq, Structural)]
pub enum DialogKey {
    Esc,
    Enter,
    Other,
}

/// What pressing a button of the dialog asks for, with what the dialog was
/// opened about.
#[derive(Debug, PartialEq, Eq)]
pub enum DialogAnswer<A> {
    Yes(A),
    No(A),
    Nothing,
}

/// A yes/no dialog: its question, whether it shows, the button in focus
/// (0 for yes, 1 for no), and what it was opened about.
#[derive(Debug)]
pub struct Dialog<A> {
    pub question: String,
    pub visible: bool,
    pub focus_index: u8,
    pub state: Option<A>,
}

impl<A> Dialog<A> {
    /// A hidden dialog asking "Yes or No?" about nothing, its yes button in
    /// focus.
    pub fn new() -> (r: Self)
        ensures
            r.question@ == "Yes or No?"@,
            !r.visible,
            r.focus_index == 0,
            r.state is None,
    {
        Dialog { question: String::from_str("Yes or No?"), visible: false, focus_index: 0, state: None }
    }

    pub fn set_question(&mut self, question: String)
        ensures
            final(self).question == question,
            final(self).visible == old(self).visible,
            final(self).focus_index == old(self).focus_index,
            final(self).state == old(self).state,
    {
        self.question = question;
    }

    pub fn open(&mut self)
        ensures
            final(self).visible,
            final(self).question == old(self).question,
            final(self).focus_index == old(self).focus_index,
            final(self).state == old(self).state,
    {
        self.visible = true;
    }

    pub fn close(&mut self)
        ensures
            !final(self).visible,
            final(self).question == old(self).question,
            final(self).focus_index == old(self).focus_index,
            final(self).state == old(self).state,
    {
        self.visible = false;
    }

    /// A key pressed while the button `focus_index` has the focus. Esc closes
    /// the dialog. Enter presses the button: the dialog closes and, when it
    /// was opened about something, hands that to the button's answer and
    /// forgets it. Other keys change nothing.
    pub fn on_key(&mut self, focus_index: u8, key: DialogKey) -> (r: DialogAnswer<A>)
        requires
            focus_index < 2,
        ensures
            final(self).focus_index == old(self).focus_index,
            final(self).question == old(self).question,
            match key {
                DialogKey::Esc => {
                    &&& !final(self).visible
                    &&& final(self).state == old(self).state
                    &&& r is Nothing
                },
                DialogKey::Enter => {
                    &&& !final(self).visible
                    &&& final(self).state is None
                    &&& match old(self).state {
                        Some(a) => r == (if focus_index == 0 {
                            DialogAnswer::Yes(a)
                        } else {
                            DialogAnswer::No(a)
                        }),
                        None => r is Nothing,
                    }
                },
                DialogKey::Other => {
                    &&& final(self).visible == old(self).visible
                    &&& final(self).state == old(self).state
                    &&& r is Nothing
                },
            },
    {
        match key {
            DialogKey::Esc => {
                self.close();
                DialogAnswer::Nothing
            },
            DialogKey::Enter => {
                let state = self.state.take();
                self.close();
                match state {
                    Some(a) => if focus_index == 0 {
                        DialogAnswer::Yes(a)
                    } else {
                        DialogAnswer::No(a)
                    },
                    None => DialogAnswer::Nothing,
                }
            },
            DialogKey::Other => DialogAnswer::Nothing,
        }
    }
}

} // verus!
