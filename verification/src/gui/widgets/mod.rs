//! Widget states: chat rooms, dropdown menus, lists of messages, tables
//! and tab bars.
use vstd::prelude::*;

pub mod chatroom;
pub mod dialog;
pub mod dropdown;
pub mod input;
pub mod list;
pub mod table;
pub mod tabs;

verus! {

/// A widget in which one entry is selected and the selection moves.
pub trait SelectItem {
    fn get_index(&self) -> Option<usize>;

    fn set_index(&mut self, index: Option<usize>);

    fn select_previous(&mut self);

    fn select_next(&mut self);
}

} // verus!
