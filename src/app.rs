use vstd::prelude::*;

use crate::input::{Event, KeyCode, KeyEvent, KeyEventKind};
use crate::list::{ListModel, StatefulList};
use crate::text::{pop_char, push_char};

verus! {

/// The list that navigation and confirm act on.
#[derive(Clone, Copy, Debug, PartialEq, Eq, Structural)]
pub enum Pane {
    Todo,
    Completed,
}

/// The mathematical value of an [`App`].
pub struct AppModel {
    pub exit: bool,
    pub adding_new: bool,
    pub new_value: Seq<char>,
    pub todos: ListModel,
    pub completed: ListModel,
    pub pane_in_focus: Pane,
}

impl AppModel {
    /// Both selections are in bounds, and the draft is empty outside editing.
    pub open spec fn wf(self) -> bool {
        &&& self.todos.wf()
        &&& self.completed.wf()
        &&& !self.adding_new ==> self.new_value.len() == 0
    }

    /// The number of tasks over both lists.
    pub open spec fn task_count(self) -> nat {
        self.todos.items.len() + self.completed.items.len()
    }

    /// The state at start-up: two empty lists, the pending one in focus.
    pub open spec fn initial() -> AppModel {
        AppModel {
            exit: false,
            adding_new: false,
            new_value: Seq::empty(),
            todos: ListModel { items: Seq::empty(), selected: None },
            completed: ListModel { items: Seq::empty(), selected: None },
            pane_in_focus: Pane::Todo,
        }
    }

    pub open spec fn focused(self) -> ListModel {
        match self.pane_in_focus {
            Pane::Todo => self.todos,
            Pane::Completed => self.completed,
        }
    }

    pub open spec fn with_focused(self, l: ListModel) -> AppModel {
        match self.pane_in_focus {
            Pane::Todo => AppModel { todos: l, ..self },
            Pane::Completed => AppModel { completed: l, ..self },
        }
    }

    pub open spec fn go_next(self) -> AppModel {
        self.with_focused(self.focused().next())
    }

    pub open spec fn go_prev(self) -> AppModel {
        self.with_focused(self.focused().previous())
    }

    /// With two panes, moving focus either way flips it.
    pub open spec fn toggle_pane(self) -> AppModel {
        let p = match self.pane_in_focus {
            Pane::Todo => Pane::Completed,
            Pane::Completed => Pane::Todo,
        };
        AppModel { pane_in_focus: p, ..self }
    }

    /// Moves the selected pending item to the end of the completed list.
    pub open spec fn complete_todo(self) -> AppModel {
        match self.todos.selected_item() {
            Some(item) => AppModel {
                todos: self.todos.remove_selected(),
                completed: self.completed.push(item),
                ..self
            },
            None => self,
        }
    }

    /// Moves the selected completed item to the end of the pending list.
    pub open spec fn revert_todo(self) -> AppModel {
        match self.completed.selected_item() {
            Some(item) => AppModel {
                completed: self.completed.remove_selected(),
                todos: self.todos.push(item),
                ..self
            },
            None => self,
        }
    }

    pub open spec fn confirm(self) -> AppModel {
        match self.pane_in_focus {
            Pane::Todo => self.complete_todo(),
            Pane::Completed => self.revert_todo(),
        }
    }

    /// Steps the focused list's selection back, then removes the item it
    /// lands on; nothing happens while that list has no selection.
    pub open spec fn delete(self) -> AppModel {
        let l = self.focused();
        if l.selected is Some {
            self.with_focused(l.previous().remove_selected())
        } else {
            self
        }
    }

    /// Appends the draft to the pending list, selects it, and leaves editing.
    pub open spec fn submit_draft(self) -> AppModel {
        AppModel {
            todos: ListModel {
                items: self.todos.items.push(self.new_value),
                selected: Some(self.todos.items.len() as usize),
            },
            adding_new: false,
            new_value: Seq::empty(),
            ..self
        }
    }

    /// Drops the draft and leaves editing.
    pub open spec fn cancel_draft(self) -> AppModel {
        AppModel { adding_new: false, new_value: Seq::empty(), ..self }
    }

    pub open spec fn normal_key(self, code: KeyCode) -> AppModel {
        match code {
            KeyCode::Char(c) => if c == 'q' {
                AppModel { exit: true, ..self }
            } else if c == 'a' {
                AppModel { adding_new: true, ..self }
            } else if c == 'j' {
                self.go_next()
            } else if c == 'k' {
                self.go_prev()
            } else if c == 'h' || c == 'l' {
                self.toggle_pane()
            } else if c == 'd' {
                self.delete()
            } else {
                self
            },
            KeyCode::Enter => self.confirm(),
            _ => self,
        }
    }

    pub open spec fn edit_key(self, code: KeyCode) -> AppModel {
        match code {
            KeyCode::Char(c) => AppModel { new_value: self.new_value.push(c), ..self },
            KeyCode::Backspace => if self.new_value.len() == 0 {
                self
            } else {
                AppModel { new_value: self.new_value.drop_last(), ..self }
            },
            KeyCode::Esc => self.cancel_draft(),
            KeyCode::Enter => self.submit_draft(),
            KeyCode::Other => self,
        }
    }

    pub open spec fn key_event(self, key: KeyEvent) -> AppModel {
        if self.adding_new {
            self.edit_key(key.code)
        } else {
            self.normal_key(key.code)
        }
    }

    /// Only key presses act; releases, repeats and other events are ignored.
    pub open spec fn event(self, event: Event) -> AppModel {
        match event {
            Event::Key(key) => if key.kind == KeyEventKind::Press {
                self.key_event(key)
            } else {
                self
            },
            Event::Other => self,
        }
    }

    /// Selects the first completed item when there is one and nothing is
    /// selected there yet.
    pub open spec fn default_completed_selection(self) -> AppModel {
        if self.completed.items.len() > 0 && self.completed.selected is None {
            AppModel { completed: ListModel { selected: Some(0), ..self.completed }, ..self }
        } else {
            self
        }
    }
}

/// The task tracker: a pending and a completed list, the pane in focus, and
/// the draft of a new task while one is being typed.
pub struct App {
    pub exit: bool,
    pub adding_new: bool,
    pub new_value: String,
    pub todos: StatefulList,
    pub completed: StatefulList,
    pub pane_in_focus: Pane,
}

impl View for App {
    type V = AppModel;

    open spec fn view(&self) -> AppModel {
        AppModel {
            exit: self.exit,
            adding_new: self.adding_new,
            new_value: self.new_value@,
            todos: self.todos@,
            completed: self.completed@,
            pane_in_focus: self.pane_in_focus,
        }
    }
}

impl App {
    pub open spec fn wf(&self) -> bool {
        self@.wf()
    }

    pub fn new() -> (r: App)
        ensures
            r@ == AppModel::initial(),
            r.wf(),
    {
        App {
            exit: false,
            adding_new: false,
            new_value: String::new(),
            pane_in_focus: Pane::Todo,
            todos: StatefulList::new(),
            completed: StatefulList::new(),
        }
    }

    pub fn exit(&mut self)
        requires
            old(self).wf(),
        ensures
            final(self)@ == (AppModel { exit: true, ..old(self)@ }),
            final(self).wf(),
    {
        self.exit = true;
    }

    /// Enters editing; the draft is empty on entry.
    pub fn add_new_todo(&mut self)
        requires
            old(self).wf(),
        ensures
            final(self)@ == (AppModel { adding_new: true, ..old(self)@ }),
            !old(self).adding_new ==> final(self)@.new_value.len() == 0,
            final(self).wf(),
    {
        self.adding_new = true;
    }

    pub fn go_next(&mut self)
        requires
            old(self).wf(),
        ensures
            final(self)@ == old(self)@.go_next(),
            final(self).wf(),
    {
        match self.pane_in_focus {
            Pane::Todo => self.todos.next(),
            Pane::Completed => self.completed.next(),
        }
    }

    pub fn go_prev(&mut self)
        requires
            old(self).wf(),
        ensures
            final(self)@ == old(self)@.go_prev(),
            final(self).wf(),
    {
        match self.pane_in_focus {
            Pane::Todo => self.todos.previous(),
            Pane::Completed => self.completed.previous(),
        }
    }

    fn toggle_pane(&mut self)
        requires
            old(self).wf(),
        ensures
            final(self)@ == old(self)@.toggle_pane(),
            final(self).wf(),
    {
        self.pane_in_focus = match self.pane_in_focus {
            Pane::Todo => Pane::Completed,
            Pane::Completed => Pane::Todo,
        };
    }

    pub fn prev_pane(&mut self)
        requires
            old(self).wf(),
        ensures
            final(self)@ == old(self)@.toggle_pane(),
            final(self).wf(),
    {
        self.toggle_pane();
    }

    pub fn next_pane(&mut self)
        requires
            old(self).wf(),
        ensures
            final(self)@ == old(self)@.toggle_pane(),
            final(self).wf(),
    {
        self.toggle_pane();
    }

    /// Moves the selected pending item to the end of the completed list.
    /// Without a pending selection nothing changes.
    pub fn complete_todo(&mut self)
        requires
            old(self).wf(),
        ensures
            final(self)@ == old(self)@.complete_todo(),
            final(self).wf(),
    {
        if let Some(item) = self.todos.remove_selected() {
            self.completed.push(item);
        }
    }

    /// Moves the selected completed item to the end of the pending list.
    /// Without a completed selection nothing changes.
    pub fn revert_todo(&mut self)
        requires
            old(self).wf(),
        ensures
            final(self)@ == old(self)@.revert_todo(),
            final(self).wf(),
    {
        if let Some(item) = self.completed.remove_selected() {
            self.todos.push(item);
        }
    }

    pub fn handle_enter_press(&mut self)
        requires
            old(self).wf(),
        ensures
            final(self)@ == old(self)@.confirm(),
            final(self).wf(),
    {
        match self.pane_in_focus {
            Pane::Todo => self.complete_todo(),
            Pane::Completed => self.revert_todo(),
        }
    }

    pub fn delete(&mut self)
        requires
            old(self).wf(),
        ensures
            final(self)@ == old(self)@.delete(),
            final(self).wf(),
    {
        match self.pane_in_focus {
            Pane::Todo => if self.todos.selected.is_some() {
                self.todos.previous();
                let _ = self.todos.remove_selected();
            },
            Pane::Completed => if self.completed.selected.is_some() {
                self.completed.previous();
                let _ = self.completed.remove_selected();
            },
        }
    }

    pub fn handle_edit_mode_key_events(&mut self, key_code: KeyCode)
        requires
            old(self).wf(),
            old(self).adding_new,
        ensures
            final(self)@ == old(self)@.edit_key(key_code),
            final(self).wf(),
    {
        match key_code {
            KeyCode::Char(c) => push_char(&mut self.new_value, c),
            KeyCode::Backspace => {
                let _ = pop_char(&mut self.new_value);
            },
            KeyCode::Esc => {
                self.new_value = String::new();
                self.adding_new = false;
            },
            KeyCode::Enter => {
                let mut draft = String::new();
                std::mem::swap(&mut draft, &mut self.new_value);
                self.todos.push(draft);
                let n = self.todos.items.len();
                assert(n == self.todos@.items.len());
                self.todos.selected = Some(n - 1);
                self.adding_new = false;
            },
            KeyCode::Other => {},
        }
    }

    pub fn handle_normal_mode_key_events(&mut self, key_code: KeyCode)
        requires
            old(self).wf(),
        ensures
            final(self)@ == old(self)@.normal_key(key_code),
            final(self).wf(),
    {
        match key_code {
            KeyCode::Char(c) => if c == 'q' {
                self.exit()
            } else if c == 'a' {
                self.add_new_todo()
            } else if c == 'j' {
                self.go_next()
            } else if c == 'k' {
                self.go_prev()
            } else if c == 'h' {
                self.prev_pane()
            } else if c == 'l' {
                self.next_pane()
            } else if c == 'd' {
                self.delete()
            },
            KeyCode::Enter => self.handle_enter_press(),
            _ => {},
        }
    }

    /// Dispatches a key to the editing or the normal key table.
    pub fn handle_key_event(&mut self, key_event: KeyEvent)
        requires
            old(self).wf(),
        ensures
            final(self)@ == old(self)@.key_event(key_event),
            final(self).wf(),
    {
        if self.adding_new {
            self.handle_edit_mode_key_events(key_event.code)
        } else {
            self.handle_normal_mode_key_events(key_event.code)
        }
    }

    /// Acts on key presses and ignores every other event.
    pub fn handle_event(&mut self, event: Event)
        requires
            old(self).wf(),
        ensures
            final(self)@ == old(self)@.event(event),
            final(self).wf(),
    {
        match event {
            Event::Key(key_event) => if key_event.kind == KeyEventKind::Press {
                self.handle_key_event(key_event)
            },
            Event::Other => {},
        }
    }

    /// Gives the completed list a default selection of its first item when it
    /// has items and none is selected; done before the completed pane is drawn.
    pub fn default_completed_selection(&mut self)
        requires
            old(self).wf(),
        ensures
            final(self)@ == old(self)@.default_completed_selection(),
            final(self).wf(),
    {
        if self.completed.items.len() > 0 && self.completed.selected.is_none() {
            self.completed.selected = Some(0);
        }
    }
}

} // verus!
