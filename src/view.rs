use vstd::prelude::*;

use crate::app::{App, Pane};

verus! {

/// How a list pane is drawn.
#[derive(Clone, Copy, Debug, PartialEq, Eq, Structural)]
pub struct PaneStyle {
    /// The border is highlighted: the pane has focus and no task is being typed.
    pub border_highlighted: bool,
    /// The title is emphasised: the pane has focus.
    pub title_bold: bool,
    /// The row drawn inverted: the selection, in the pane that has focus.
    pub highlighted_row: Option<usize>,
}

/// What confirm does in the pane that has focus.
#[derive(Clone, Copy, Debug, PartialEq, Eq, Structural)]
pub enum ConfirmAction {
    Complete,
    Revert,
}

/// Which key legend the hint bar shows.
#[derive(Clone, Copy, Debug, PartialEq, Eq, Structural)]
pub enum HintBar {
    /// The full command legend, with the meaning of confirm.
    Normal(ConfirmAction),
    /// Cancel and submit only.
    Editing,
}

impl App {
    pub fn pane_style(&self, pane: Pane) -> (r: PaneStyle)
        ensures
            r.border_highlighted == (self.pane_in_focus == pane && !self.adding_new),
            r.title_bold == (self.pane_in_focus == pane),
            r.highlighted_row == if self.pane_in_focus == pane {
                match pane {
                    Pane::Todo => self.todos.selected,
                    Pane::Completed => self.completed.selected,
                }
            } else {
                None
            },
    {
        let focused = self.pane_in_focus == pane;
        let highlighted_row = if focused {
            match pane {
                Pane::Todo => self.todos.selected,
                Pane::Completed => self.completed.selected,
            }
        } else {
            None
        };
        PaneStyle { border_highlighted: focused && !self.adding_new, title_bold: focused, highlighted_row }
    }

    pub fn hint_bar(&self) -> (r: HintBar)
        ensures
            self.adding_new ==> r == HintBar::Editing,
            !self.adding_new && self.pane_in_focus == Pane::Todo ==> r == HintBar::Normal(
                ConfirmAction::Complete,
            ),
            !self.adding_new && self.pane_in_focus == Pane::Completed ==> r == HintBar::Normal(
                ConfirmAction::Revert,
            ),
    {
        if self.adding_new {
            HintBar::Editing
        } else {
            match self.pane_in_focus {
                Pane::Todo => HintBar::Normal(ConfirmAction::Complete),
                Pane::Completed => HintBar::Normal(ConfirmAction::Revert),
            }
        }
    }
}

} // verus!
