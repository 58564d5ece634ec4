use todo_list::app::{App, CurrentlyEditing, Key, KeyInput, KeyKind, State};
use todo_list::item::TodoItem;
use todo_list::list_items::TodoList;
use todo_list::status::Status;

fn press(app: &mut App, code: Key) {
    app.handle_key(KeyInput { code, kind: KeyKind::Press });
}

fn type_text(app: &mut App, text: &str) {
    for c in text.chars() {
        press(app, Key::Char(c));
    }
}

fn list_of(n: usize) -> TodoList {
    let mut list = TodoList::new();
    for i in 0..n {
        list.push(TodoItem::new(Status::Todo, &format!("task {}", i), "detail"));
    }
    list
}

fn statuses(app: &App) -> Vec<Status> {
    app.todo_list.items().iter().map(|t| t.status).collect()
}

#[test]
fn commit_new_entry_from_empty_store() {
    let mut app = App::new();
    press(&mut app, Key::Char('e'));
    assert_eq!(app.application_state, State::Edit);
    type_text(&mut app, "Buy milk");
    press(&mut app, Key::Tab);
    type_text(&mut app, "2% milk");
    press(&mut app, Key::Enter);
    assert_eq!(app.application_state, State::Valid);
    press(&mut app, Key::Enter);
    assert_eq!(app.application_state, State::Look);
    assert_eq!(app.todo_list.len(), 1);
    let item = &app.todo_list.items()[0];
    assert_eq!(item.todo, "Buy milk");
    assert_eq!(item.info, "2% milk");
    assert_eq!(item.status, Status::Todo);
    assert_eq!(app.name_input, "");
    assert_eq!(app.description_input, "");
}

#[test]
fn commit_with_y_key() {
    let mut app = App::new();
    press(&mut app, Key::Char('e'));
    type_text(&mut app, "a");
    press(&mut app, Key::Enter);
    press(&mut app, Key::Char('y'));
    assert_eq!(app.application_state, State::Look);
    assert_eq!(app.todo_list.len(), 1);
    assert_eq!(app.todo_list.items()[0].todo, "a");
    assert_eq!(app.todo_list.items()[0].info, "");
}

#[test]
fn cancel_from_edit_clears_buffers() {
    let mut app = App::new();
    press(&mut app, Key::Char('e'));
    type_text(&mut app, "X");
    assert_eq!(app.name_input, "X");
    press(&mut app, Key::Esc);
    assert_eq!(app.application_state, State::Look);
    assert_eq!(app.name_input, "");
    assert_eq!(app.description_input, "");
    assert_eq!(app.currently_editing, None);
    assert_eq!(app.todo_list.len(), 0);
    assert!(!app.should_exit);
}

#[test]
fn cancel_from_confirm_keeps_buffers() {
    let mut app = App::new();
    press(&mut app, Key::Char('e'));
    type_text(&mut app, "X");
    press(&mut app, Key::Enter);
    assert_eq!(app.application_state, State::Valid);
    press(&mut app, Key::Esc);
    assert_eq!(app.application_state, State::Look);
    assert_eq!(app.todo_list.len(), 0);
    assert_eq!(app.name_input, "X");
    assert!(!app.should_exit);
}

#[test]
fn cancel_from_confirm_with_n_key() {
    let mut app = App::new();
    press(&mut app, Key::Char('e'));
    type_text(&mut app, "Y");
    press(&mut app, Key::Enter);
    press(&mut app, Key::Char('n'));
    assert_eq!(app.application_state, State::Look);
    assert_eq!(app.name_input, "Y");
    assert_eq!(app.todo_list.len(), 0);
}

#[test]
fn confirm_back_to_edit_keeps_buffers() {
    let mut app = App::new();
    press(&mut app, Key::Char('e'));
    type_text(&mut app, "ab");
    press(&mut app, Key::Enter);
    press(&mut app, Key::Char('e'));
    assert_eq!(app.application_state, State::Edit);
    assert_eq!(app.name_input, "ab");
    type_text(&mut app, "c");
    assert_eq!(app.name_input, "abc");
}

#[test]
fn confirm_ignores_other_keys() {
    let mut app = App::new();
    press(&mut app, Key::Char('e'));
    type_text(&mut app, "ab");
    press(&mut app, Key::Enter);
    press(&mut app, Key::Char('z'));
    press(&mut app, Key::Down);
    assert_eq!(app.application_state, State::Valid);
    assert_eq!(app.name_input, "ab");
    assert_eq!(app.todo_list.len(), 0);
}

#[test]
fn typing_tab_and_backspace() {
    let mut app = App::new();
    press(&mut app, Key::Char('e'));
    type_text(&mut app, "abc");
    press(&mut app, Key::Tab);
    assert_eq!(app.currently_editing, Some(CurrentlyEditing::Description));
    type_text(&mut app, "xyz");
    press(&mut app, Key::Backspace);
    assert_eq!(app.name_input, "abc");
    assert_eq!(app.description_input, "xy");
    press(&mut app, Key::Tab);
    assert_eq!(app.currently_editing, Some(CurrentlyEditing::Name));
    press(&mut app, Key::Backspace);
    assert_eq!(app.name_input, "ab");
    assert_eq!(app.description_input, "xy");
}

#[test]
fn backspace_on_empty_buffer_is_noop() {
    let mut app = App::new();
    press(&mut app, Key::Char('e'));
    press(&mut app, Key::Backspace);
    assert_eq!(app.name_input, "");
    assert_eq!(app.application_state, State::Edit);
}

#[test]
fn edit_mode_reads_letters_as_text() {
    let mut app = App::new();
    press(&mut app, Key::Char('e'));
    type_text(&mut app, "qjk é");
    assert_eq!(app.name_input, "qjk é");
    assert!(!app.should_exit);
    assert_eq!(app.application_state, State::Edit);
}

#[test]
fn release_events_are_ignored() {
    let mut app = App::new();
    app.handle_key(KeyInput { code: Key::Char('q'), kind: KeyKind::Release });
    app.handle_key(KeyInput { code: Key::Char('e'), kind: KeyKind::Repeat });
    assert!(!app.should_exit);
    assert_eq!(app.application_state, State::Look);
}

#[test]
fn quit_keys_in_browse_mode() {
    let mut app = App::new();
    press(&mut app, Key::Char('q'));
    assert!(app.should_exit);
    let mut app = App::new();
    press(&mut app, Key::Esc);
    assert!(app.should_exit);
}

#[test]
fn default_app_holds_sample_entries() {
    let app = App::default();
    assert_eq!(app.todo_list.len(), 6);
    assert_eq!(app.todo_list.selected(), None);
    assert_eq!(app.application_state, State::Look);
    assert_eq!(app.todo_list.items()[0].todo, "Rewrite everything with Rust!");
    assert_eq!(app.todo_list.items()[4].info, "Pay the train subscription!!!");
    assert_eq!(
        statuses(&app),
        vec![
            Status::Todo,
            Status::Completed,
            Status::Todo,
            Status::Todo,
            Status::Completed,
            Status::Completed
        ]
    );
}

#[test]
fn navigation_keeps_selection_in_range() {
    let mut app = App::with_list(list_of(3));
    let keys = [
        Key::Down,
        Key::Down,
        Key::Down,
        Key::Down,
        Key::Up,
        Key::End,
        Key::Down,
        Key::Home,
        Key::Up,
        Key::Left,
        Key::Up,
        Key::Char('j'),
        Key::Char('G'),
        Key::Char('k'),
        Key::Char('g'),
        Key::Char('h'),
    ];
    let expected = [
        Some(0),
        Some(1),
        Some(2),
        Some(2),
        Some(1),
        Some(2),
        Some(2),
        Some(0),
        Some(0),
        None,
        Some(2),
        Some(2),
        Some(2),
        Some(1),
        Some(0),
        None,
    ];
    for (k, e) in keys.iter().zip(expected.iter()) {
        press(&mut app, *k);
        assert_eq!(app.todo_list.selected(), *e);
    }
}

#[test]
fn down_then_up_returns_to_start() {
    let mut app = App::with_list(list_of(4));
    press(&mut app, Key::Down);
    press(&mut app, Key::Down);
    assert_eq!(app.todo_list.selected(), Some(1));
    press(&mut app, Key::Down);
    press(&mut app, Key::Up);
    assert_eq!(app.todo_list.selected(), Some(1));
}

#[test]
fn down_saturates_at_last_and_up_at_first() {
    let mut app = App::with_list(list_of(3));
    press(&mut app, Key::End);
    for _ in 0..5 {
        press(&mut app, Key::Down);
        assert_eq!(app.todo_list.selected(), Some(2));
    }
    press(&mut app, Key::Home);
    for _ in 0..5 {
        press(&mut app, Key::Up);
        assert_eq!(app.todo_list.selected(), Some(0));
    }
}

#[test]
fn navigation_on_empty_store_selects_nothing() {
    let mut app = App::new();
    for k in [Key::Down, Key::Up, Key::Home, Key::End, Key::Right, Key::Left] {
        press(&mut app, k);
        assert_eq!(app.todo_list.selected(), None);
    }
    assert_eq!(app.todo_list.len(), 0);
}

#[test]
fn up_without_selection_selects_last() {
    let mut app = App::with_list(list_of(5));
    press(&mut app, Key::Up);
    assert_eq!(app.todo_list.selected(), Some(4));
}

#[test]
fn toggle_twice_restores_status() {
    let mut app = App::default();
    press(&mut app, Key::Down);
    assert_eq!(app.todo_list.items()[0].status, Status::Todo);
    press(&mut app, Key::Right);
    assert_eq!(app.todo_list.items()[0].status, Status::Completed);
    press(&mut app, Key::Enter);
    assert_eq!(app.todo_list.items()[0].status, Status::Todo);
    press(&mut app, Key::Char('l'));
    press(&mut app, Key::Char('l'));
    assert_eq!(app.todo_list.items()[0].status, Status::Todo);
}

#[test]
fn toggle_without_selection_changes_nothing() {
    let mut app = App::default();
    let before = statuses(&app);
    press(&mut app, Key::Right);
    assert_eq!(statuses(&app), before);
}

#[test]
fn opening_editor_flips_selected_status() {
    let mut app = App::default();
    press(&mut app, Key::Down);
    press(&mut app, Key::Down);
    assert_eq!(app.todo_list.items()[1].status, Status::Completed);
    press(&mut app, Key::Char('e'));
    assert_eq!(app.application_state, State::Edit);
    assert_eq!(app.currently_editing, Some(CurrentlyEditing::Name));
    assert_eq!(app.todo_list.items()[1].status, Status::Todo);
}

#[test]
fn commit_keeps_selection() {
    let mut app = App::default();
    press(&mut app, Key::Down);
    press(&mut app, Key::Down);
    press(&mut app, Key::Char('e'));
    type_text(&mut app, "new");
    press(&mut app, Key::Enter);
    press(&mut app, Key::Enter);
    assert_eq!(app.todo_list.len(), 7);
    assert_eq!(app.todo_list.selected(), Some(1));
    assert_eq!(app.todo_list.items()[6].todo, "new");
}

#[test]
fn push_keeps_selection() {
    let mut list = list_of(2);
    list.select_last();
    assert_eq!(list.selected(), Some(1));
    list.push(TodoItem::new(Status::Completed, "t", "i"));
    assert_eq!(list.selected(), Some(1));
    assert_eq!(list.len(), 3);
    let mut empty = TodoList::new();
    empty.push(TodoItem::new(Status::Todo, "t", "i"));
    assert_eq!(empty.selected(), None);
}

#[test]
fn todo_list_operations() {
    let mut list = TodoList::from_iter(vec![
        (Status::Todo, "a", "x"),
        (Status::Completed, "b", "y"),
    ]);
    assert_eq!(list.len(), 2);
    assert_eq!(list.items()[1].todo, "b");
    assert_eq!(list.items()[1].status, Status::Completed);
    list.select_first();
    assert_eq!(list.selected(), Some(0));
    list.select_previous();
    assert_eq!(list.selected(), Some(0));
    list.select_next();
    list.select_next();
    assert_eq!(list.selected(), Some(1));
    list.toggle_status();
    assert_eq!(list.items()[1].status, Status::Todo);
    list.select_none();
    assert_eq!(list.selected(), None);
    list.select_next();
    assert_eq!(list.selected(), Some(0));
}

#[test]
fn item_new_copies_text() {
    let item = TodoItem::new(Status::Completed, "title", "details");
    assert_eq!(item.todo, "title");
    assert_eq!(item.info, "details");
    assert_eq!(item.status, Status::Completed);
    assert_eq!(Status::Todo.toggled(), Status::Completed);
    assert_eq!(Status::Completed.toggled(), Status::Todo);
}
