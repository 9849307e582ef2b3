use daily_standup::{App, ConfirmAction, Event, HintBar, KeyCode, KeyEvent, KeyEventKind, Pane};

fn press(app: &mut App, code: KeyCode) {
    app.handle_event(Event::Key(KeyEvent { code, kind: KeyEventKind::Press }));
}

fn type_task(app: &mut App, text: &str) {
    press(app, KeyCode::Char('a'));
    for c in text.chars() {
        press(app, KeyCode::Char(c));
    }
    press(app, KeyCode::Enter);
}

fn app_with(pending: &[&str]) -> App {
    let mut app = App::new();
    for s in pending {
        type_task(&mut app, s);
    }
    app
}

#[test]
fn new_app_starts_empty_in_normal_mode() {
    let app = App::new();
    assert!(!app.exit);
    assert!(!app.adding_new);
    assert_eq!(app.new_value, "");
    assert!(app.todos.items.is_empty());
    assert!(app.completed.items.is_empty());
    assert_eq!(app.todos.selected, None);
    assert_eq!(app.pane_in_focus, Pane::Todo);
}

#[test]
fn typing_a_task_and_enter_appends_it() {
    let mut app = App::new();
    press(&mut app, KeyCode::Char('a'));
    assert!(app.adding_new);
    for c in ['b', 'u', 'y', ' ', 'm', 'i', 'l', 'k'] {
        press(&mut app, KeyCode::Char(c));
    }
    assert_eq!(app.new_value, "buy milk");
    press(&mut app, KeyCode::Enter);
    assert_eq!(app.todos.items.last().unwrap(), "buy milk");
    assert_eq!(app.todos.selected, Some(app.todos.items.len() - 1));
    assert_eq!(app.new_value, "");
    assert!(!app.adding_new);
}

#[test]
fn command_letters_are_text_while_editing() {
    let mut app = App::new();
    press(&mut app, KeyCode::Char('a'));
    for c in ['q', 'd', 'j'] {
        press(&mut app, KeyCode::Char(c));
    }
    assert!(!app.exit);
    assert_eq!(app.new_value, "qdj");
}

#[test]
fn backspace_removes_last_character() {
    let mut app = App::new();
    press(&mut app, KeyCode::Char('a'));
    press(&mut app, KeyCode::Char('x'));
    press(&mut app, KeyCode::Char('y'));
    press(&mut app, KeyCode::Backspace);
    assert_eq!(app.new_value, "x");
    press(&mut app, KeyCode::Backspace);
    press(&mut app, KeyCode::Backspace);
    assert_eq!(app.new_value, "");
    assert!(app.adding_new);
}

#[test]
fn escape_discards_draft() {
    let mut app = app_with(&["keep"]);
    press(&mut app, KeyCode::Char('a'));
    for c in ['a', 'b', 'c'] {
        press(&mut app, KeyCode::Char(c));
    }
    assert_eq!(app.new_value, "abc");
    press(&mut app, KeyCode::Esc);
    assert_eq!(app.new_value, "");
    assert!(!app.adding_new);
    assert_eq!(app.todos.items, vec!["keep"]);
    assert!(app.completed.items.is_empty());
}

#[test]
fn empty_draft_can_be_submitted() {
    let mut app = App::new();
    press(&mut app, KeyCode::Char('a'));
    press(&mut app, KeyCode::Enter);
    assert_eq!(app.todos.items, vec![""]);
    assert_eq!(app.todos.selected, Some(0));
}

#[test]
fn confirm_completes_selected_then_render_default_selects() {
    let mut app = App::new();
    app.todos.items = vec!["a".to_string(), "b".to_string()];
    app.todos.selected = Some(0);
    press(&mut app, KeyCode::Enter);
    assert_eq!(app.todos.items, vec!["b"]);
    assert_eq!(app.completed.items, vec!["a"]);
    assert_eq!(app.completed.selected, None);
    app.default_completed_selection();
    assert_eq!(app.completed.selected, Some(0));
}

#[test]
fn default_selection_leaves_existing_or_empty_alone() {
    let mut app = App::new();
    app.default_completed_selection();
    assert_eq!(app.completed.selected, None);
    app.completed.items = vec!["x".to_string(), "y".to_string()];
    app.completed.selected = Some(1);
    app.default_completed_selection();
    assert_eq!(app.completed.selected, Some(1));
}

#[test]
fn complete_moves_item_to_end_of_completed() {
    let mut app = app_with(&["a", "b", "c"]);
    app.completed.items = vec!["z".to_string()];
    app.todos.selected = Some(1);
    app.complete_todo();
    assert_eq!(app.todos.items, vec!["a", "c"]);
    assert_eq!(app.completed.items, vec!["z", "b"]);
    assert_eq!(app.todos.items.len() + app.completed.items.len(), 4);
}

#[test]
fn complete_without_selection_does_nothing() {
    let mut app = App::new();
    app.todos.items = vec!["a".to_string()];
    app.complete_todo();
    assert_eq!(app.todos.items, vec!["a"]);
    assert!(app.completed.items.is_empty());
    let mut empty = App::new();
    press(&mut empty, KeyCode::Enter);
    assert!(empty.todos.items.is_empty());
    assert!(empty.completed.items.is_empty());
}

#[test]
fn revert_undoes_complete() {
    let mut app = app_with(&["a", "b", "c"]);
    app.todos.selected = Some(2);
    press(&mut app, KeyCode::Enter);
    assert_eq!(app.todos.items, vec!["a", "b"]);
    press(&mut app, KeyCode::Char('l'));
    assert_eq!(app.pane_in_focus, Pane::Completed);
    press(&mut app, KeyCode::Char('j'));
    assert_eq!(app.completed.selected, Some(0));
    press(&mut app, KeyCode::Enter);
    assert_eq!(app.todos.items, vec!["a", "b", "c"]);
    assert!(app.completed.items.is_empty());
}

#[test]
fn revert_of_middle_item_appends_at_end() {
    let mut app = app_with(&["a", "b", "c"]);
    app.todos.selected = Some(0);
    app.complete_todo();
    app.completed.selected = Some(0);
    app.revert_todo();
    assert_eq!(app.todos.items, vec!["b", "c", "a"]);
    assert!(app.completed.items.is_empty());
}

#[test]
fn delete_only_item_leaves_list_empty() {
    let mut app = app_with(&["only"]);
    assert_eq!(app.todos.selected, Some(0));
    press(&mut app, KeyCode::Char('d'));
    assert!(app.todos.items.is_empty());
    assert_eq!(app.todos.selected, None);
}

#[test]
fn delete_removes_item_before_selection() {
    let mut app = app_with(&["a", "b", "c"]);
    app.todos.selected = Some(1);
    app.delete();
    assert_eq!(app.todos.items, vec!["b", "c"]);
    assert_eq!(app.todos.selected, None);
    app.todos.selected = Some(0);
    app.delete();
    assert_eq!(app.todos.items, vec!["b"]);
}

#[test]
fn delete_without_selection_does_nothing() {
    let mut app = app_with(&["a", "b"]);
    app.todos.selected = None;
    press(&mut app, KeyCode::Char('d'));
    assert_eq!(app.todos.items, vec!["a", "b"]);
    press(&mut app, KeyCode::Char('l'));
    press(&mut app, KeyCode::Char('d'));
    assert!(app.completed.items.is_empty());
}

#[test]
fn navigation_acts_on_focused_list_only() {
    let mut app = app_with(&["a", "b"]);
    app.completed.items = vec!["x".to_string(), "y".to_string()];
    app.todos.selected = Some(0);
    press(&mut app, KeyCode::Char('j'));
    assert_eq!(app.todos.selected, Some(1));
    assert_eq!(app.completed.selected, None);
    press(&mut app, KeyCode::Char('h'));
    assert_eq!(app.pane_in_focus, Pane::Completed);
    press(&mut app, KeyCode::Char('k'));
    assert_eq!(app.completed.selected, Some(0));
    press(&mut app, KeyCode::Char('k'));
    assert_eq!(app.completed.selected, Some(1));
    assert_eq!(app.todos.selected, Some(1));
}

#[test]
fn pane_keys_flip_focus() {
    let mut app = App::new();
    press(&mut app, KeyCode::Char('h'));
    assert_eq!(app.pane_in_focus, Pane::Completed);
    press(&mut app, KeyCode::Char('h'));
    assert_eq!(app.pane_in_focus, Pane::Todo);
    app.next_pane();
    assert_eq!(app.pane_in_focus, Pane::Completed);
    app.prev_pane();
    assert_eq!(app.pane_in_focus, Pane::Todo);
}

#[test]
fn quit_sets_exit() {
    let mut app = App::new();
    press(&mut app, KeyCode::Char('q'));
    assert!(app.exit);
}

#[test]
fn unknown_keys_are_ignored() {
    let mut app = app_with(&["a"]);
    press(&mut app, KeyCode::Char('z'));
    press(&mut app, KeyCode::Other);
    press(&mut app, KeyCode::Esc);
    press(&mut app, KeyCode::Backspace);
    assert_eq!(app.todos.items, vec!["a"]);
    assert_eq!(app.todos.selected, Some(0));
    assert!(!app.adding_new && !app.exit);
}

#[test]
fn only_key_presses_act() {
    let mut app = App::new();
    app.handle_event(Event::Key(KeyEvent { code: KeyCode::Char('q'), kind: KeyEventKind::Release }));
    app.handle_event(Event::Key(KeyEvent { code: KeyCode::Char('q'), kind: KeyEventKind::Repeat }));
    app.handle_event(Event::Other);
    assert!(!app.exit);
    app.handle_key_event(KeyEvent { code: KeyCode::Char('q'), kind: KeyEventKind::Press });
    assert!(app.exit);
}

#[test]
fn pane_style_follows_focus_and_editing() {
    let mut app = app_with(&["a", "b"]);
    app.completed.items = vec!["x".to_string()];
    app.completed.selected = Some(0);
    let left = app.pane_style(Pane::Todo);
    assert!(left.border_highlighted && left.title_bold);
    assert_eq!(left.highlighted_row, Some(1));
    let right = app.pane_style(Pane::Completed);
    assert!(!right.border_highlighted && !right.title_bold);
    assert_eq!(right.highlighted_row, None);
    press(&mut app, KeyCode::Char('a'));
    let editing = app.pane_style(Pane::Todo);
    assert!(!editing.border_highlighted && editing.title_bold);
    assert_eq!(editing.highlighted_row, Some(1));
}

#[test]
fn hint_bar_matches_mode_and_focus() {
    let mut app = App::new();
    assert_eq!(app.hint_bar(), HintBar::Normal(ConfirmAction::Complete));
    press(&mut app, KeyCode::Char('l'));
    assert_eq!(app.hint_bar(), HintBar::Normal(ConfirmAction::Revert));
    press(&mut app, KeyCode::Char('a'));
    assert_eq!(app.hint_bar(), HintBar::Editing);
}
