use vstd::prelude::*;

use crate::item::{EntryView, TodoItem};
use crate::list_items::{
    first_selection, last_selection, next_selection, previous_selection, toggle_at, TodoList,
    TodoListView,
};
use crate::status::Status;

verus! {

/// The top-level mode, which decides how a key is read.
#[derive(Clone, Copy, Debug, PartialEq, Eq, Structural)]
pub enum State {
    /// Browsing the list.
    Look,
    /// Typing a new entry.
    Edit,
    /// Asked to confirm the new entry.
    Valid,
}

/// Which edit buffer receives typed characters.
#[derive(Clone, Copy, Debug, PartialEq, Eq, Structural)]
pub enum CurrentlyEditing {
    Name,
    Description,
}

/// The identity of a key.
#[derive(Clone, Copy, Debug, PartialEq, Eq, Structural)]
pub enum Key {
    Char(char),
    Esc,
    Enter,
    Tab,
    Backspace,
    Left,
    Right,
    Up,
    Down,
    Home,
    End,
    /// Any key that no mode acts on.
    Other,
}

/// Whether a key event is a press, a repeat or a release.
#[derive(Clone, Copy, Debug, PartialEq, Eq, Structural)]
pub enum KeyKind {
    Press,
    Repeat,
    Release,
}

/// One key event.
#[derive(Clone, Copy, Debug, PartialEq, Eq, Structural)]
pub struct KeyInput {
    pub code: Key,
    pub kind: KeyKind,
}

/// The whole state of the application, as plain values.
pub struct AppView {
    pub mode: State,
    pub editing: Option<CurrentlyEditing>,
    pub name: Seq<char>,
    pub description: Seq<char>,
    pub should_exit: bool,
    pub list: TodoListView,
}

impl AppView {
    pub open spec fn wf(self) -> bool {
        self.list.wf()
    }
}

/// A buffer with its last character removed, or unchanged when empty.
pub open spec fn without_last(s: Seq<char>) -> Seq<char> {
    if s.len() == 0 { s } else { s.drop_last() }
}

/// The state after a key event in browse mode.
pub open spec fn step_look(s: AppView, code: Key) -> AppView {
    let len = s.list.entries.len();
    let sel = s.list.selection;
    match code {
        Key::Char('q') | Key::Esc => AppView { should_exit: true, ..s },
        Key::Char('h') | Key::Left => AppView { list: TodoListView { selection: None, ..s.list }, ..s },
        Key::Char('j') | Key::Down => AppView {
            list: TodoListView { selection: next_selection(sel, len), ..s.list },
            ..s
        },
        Key::Char('k') | Key::Up => AppView {
            list: TodoListView { selection: previous_selection(sel, len), ..s.list },
            ..s
        },
        Key::Char('g') | Key::Home => AppView {
            list: TodoListView { selection: first_selection(sel, len), ..s.list },
            ..s
        },
        Key::Char('G') | Key::End => AppView {
            list: TodoListView { selection: last_selection(sel, len), ..s.list },
            ..s
        },
        Key::Char('l') | Key::Right | Key::Enter => AppView {
            list: TodoListView { entries: toggle_at(s.list.entries, sel), ..s.list },
            ..s
        },
        Key::Char('e') => AppView {
            mode: State::Edit,
            editing: Some(CurrentlyEditing::Name),
            list: TodoListView { entries: toggle_at(s.list.entries, sel), ..s.list },
            ..s
        },
        _ => s,
    }
}

/// The state after a key event in edit mode.
pub open spec fn step_edit(s: AppView, code: Key) -> AppView {
    match code {
        Key::Char(c) => match s.editing {
            Some(CurrentlyEditing::Name) => AppView { name: s.name.push(c), ..s },
            Some(CurrentlyEditing::Description) => AppView {
                description: s.description.push(c),
                ..s
            },
            None => s,
        },
        Key::Esc => AppView {
            mode: State::Look,
            editing: None,
            name: Seq::empty(),
            description: Seq::empty(),
            ..s
        },
        Key::Tab => AppView {
            editing: match s.editing {
                Some(CurrentlyEditing::Name) => Some(CurrentlyEditing::Description),
                _ => Some(CurrentlyEditing::Name),
            },
            ..s
        },
        Key::Backspace => match s.editing {
            Some(CurrentlyEditing::Name) => AppView { name: without_last(s.name), ..s },
            Some(CurrentlyEditing::Description) => AppView {
                description: without_last(s.description),
                ..s
            },
            None => s,
        },
        Key::Enter => AppView { mode: State::Valid, ..s },
        _ => s,
    }
}

/// The state after a key event in confirm mode.
pub open spec fn step_valid(s: AppView, code: Key) -> AppView {
    match code {
        Key::Enter | Key::Char('y') => AppView {
            mode: State::Look,
            editing: None,
            name: Seq::empty(),
            description: Seq::empty(),
            list: TodoListView {
                entries: s.list.entries.push(
                    EntryView { todo: s.name, info: s.description, status: Status::Todo },
                ),
                ..s.list
            },
            ..s
        },
        Key::Esc | Key::Char('n') => AppView { mode: State::Look, ..s },
        Key::Char('e') => AppView { mode: State::Edit, ..s },
        _ => s,
    }
}

/// The state after one key event; only presses are acted on.
pub open spec fn step(s: AppView, key: KeyInput) -> AppView {
    if key.kind != KeyKind::Press {
        s
    } else {
        match s.mode {
            State::Look => step_look(s, key.code),
            State::Edit => step_edit(s, key.code),
            State::Valid => step_valid(s, key.code),
        }
    }
}

/// The state after a sequence of key events, handled in order.
pub open spec fn run(s: AppView, keys: Seq<KeyInput>) -> AppView
    decreases keys.len(),
{
    if keys.len() == 0 {
        s
    } else {
        run(step(s, keys[0]), keys.drop_first())
    }
}

/// Relies on `String::push`: the character is appended.
#[verifier::external_body]
fn push_char(s: &mut String, c: char)
    ensures
        final(s)@ == old(s)@.push(c),
{
    s.push(c)
}

/// Relies on `String::pop`: the last character is removed and returned, and
/// an empty string stays empty.
#[verifier::external_body]
fn pop_char(s: &mut String) -> (r: Option<char>)
    ensures
        final(s)@ == without_last(old(s)@),
        r == (if old(s)@.len() == 0 { None } else { Some(old(s)@.last()) }),
{
    s.pop()
}

/// The application: the list, the edit buffers and the current mode.
pub struct App {
    pub application_state: State,
    pub currently_editing: Option<CurrentlyEditing>,
    pub description_input: String,
    pub name_input: String,
    pub should_exit: bool,
    pub todo_list: TodoList,
}

impl View for App {
    type V = AppView;

    open spec fn view(&self) -> AppView {
        AppView {
            mode: self.application_state,
            editing: self.currently_editing,
            name: self.name_input@,
            description: self.description_input@,
            should_exit: self.should_exit,
            list: self.todo_list@,
        }
    }
}

/// The entries the application starts with.
pub open spec fn sample_entries() -> Seq<EntryView> {
    seq![
        EntryView {
            todo: "Rewrite everything with Rust!"@,
            info: "I can't hold my inner voice. He tells me to rewrite the complete universe with Rust"@,
            status: Status::Todo,
        },
        EntryView {
            todo: "Rewrite all of your tui apps with Ratatui"@,
            info: "Yes, you heard that right. Go and replace your tui with Ratatui."@,
            status: Status::Completed,
        },
        EntryView {
            todo: "Pet your cat"@,
            info: "Minnak loves to be pet by you! Don't forget to pet and give some treats!"@,
            status: Status::Todo,
        },
        EntryView {
            todo: "Walk with your dog"@,
            info: "Max is bored, go walk with him!"@,
            status: Status::Todo,
        },
        EntryView {
            todo: "Pay the bills"@,
            info: "Pay the train subscription!!!"@,
            status: Status::Completed,
        },
        EntryView {
            todo: "Refactor list example"@,
            info: "Seeing this info means the refactor is done!"@,
            status: Status::Completed,
        },
    ]
}

impl Default for App {
    /// Browse mode on the sample entries, nothing selected, empty buffers.
    fn default() -> (r: Self)
        ensures
            r.wf(),
            r@ == (AppView {
                mode: State::Look,
                editing: None,
                name: Seq::empty(),
                description: Seq::empty(),
                should_exit: false,
                list: TodoListView { entries: sample_entries(), selection: None },
            }),
    {
        let todo_list = TodoList::from_iter(
            vec![
                (
                    Status::Todo,
                    "Rewrite everything with Rust!",
                    "I can't hold my inner voice. He tells me to rewrite the complete universe with Rust",
                ),
                (
                    Status::Completed,
                    "Rewrite all of your tui apps with Ratatui",
                    "Yes, you heard that right. Go and replace your tui with Ratatui.",
                ),
                (
                    Status::Todo,
                    "Pet your cat",
                    "Minnak loves to be pet by you! Don't forget to pet and give some treats!",
                ),
                (Status::Todo, "Walk with your dog", "Max is bored, go walk with him!"),
                (Status::Completed, "Pay the bills", "Pay the train subscription!!!"),
                (
                    Status::Completed,
                    "Refactor list example",
                    "Seeing this info means the refactor is done!",
                ),
            ],
        );
        proof {
            assert(todo_list@.entries =~= sample_entries());
        }
        App::with_list(todo_list)
    }
}

impl App {
    pub open spec fn wf(&self) -> bool {
        self@.wf()
    }

    /// Browse mode on the given list, with empty buffers.
    pub fn with_list(todo_list: TodoList) -> (r: Self)
        ensures
            r@ == (AppView {
                mode: State::Look,
                editing: None,
                name: Seq::empty(),
                description: Seq::empty(),
                should_exit: false,
                list: todo_list@,
            }),
    {
        App {
            application_state: State::Look,
            currently_editing: None,
            description_input: String::new(),
            name_input: String::new(),
            should_exit: false,
            todo_list,
        }
    }

    /// Browse mode on an empty list, with empty buffers.
    pub fn new() -> (r: Self)
        ensures
            r.wf(),
            r@ == (AppView {
                mode: State::Look,
                editing: None,
                name: Seq::empty(),
                description: Seq::empty(),
                should_exit: false,
                list: TodoListView { entries: Seq::empty(), selection: None },
            }),
    {
        App::with_list(TodoList::new())
    }

    /// Handles one key event: presses are read by the current mode, anything
    /// else is ignored.
    pub fn handle_key(&mut self, key: KeyInput)
        requires
            old(self).wf(),
        ensures
            final(self).wf(),
            final(self)@ == step(old(self)@, key),
    {
        if key.kind != KeyKind::Press {
            return;
        }
        match self.application_state {
            State::Look => match key.code {
                Key::Char('q') | Key::Esc => self.should_exit = true,
                Key::Char('h') | Key::Left => self.todo_list.select_none(),
                Key::Char('j') | Key::Down => self.todo_list.select_next(),
                Key::Char('k') | Key::Up => self.todo_list.select_previous(),
                Key::Char('g') | Key::Home => self.todo_list.select_first(),
                Key::Char('G') | Key::End => self.todo_list.select_last(),
                Key::Char('l') | Key::Right | Key::Enter => self.todo_list.toggle_status(),
                Key::Char('e') => self.start_editing(),
                _ => {},
            },
            State::Edit => match key.code {
                Key::Char(value) => self.edit(value),
                Key::Esc => self.quit_edit(),
                Key::Tab => self.toggle_edit(),
                Key::Backspace => self.remove(),
                Key::Enter => self.validate_edit(),
                _ => {},
            },
            State::Valid => match key.code {
                Key::Enter | Key::Char('y') => self.save_edit(),
                Key::Esc | Key::Char('n') => self.cancel_edit(),
                Key::Char('e') => self.quit_validation(),
                _ => {},
            },
        }
    }

    /// Opens the edit overlay on the name field; the selected entry's status
    /// is flipped as well.
    fn start_editing(&mut self)
        requires
            old(self).wf(),
        ensures
            final(self).wf(),
            final(self)@ == (AppView {
                mode: State::Edit,
                editing: Some(CurrentlyEditing::Name),
                list: TodoListView {
                    entries: toggle_at(old(self)@.list.entries, old(self)@.list.selection),
                    ..old(self)@.list
                },
                ..old(self)@
            }),
    {
        self.todo_list.toggle_status();
        self.currently_editing = Some(CurrentlyEditing::Name);
        self.application_state = State::Edit;
    }

    /// Appends a character to the active buffer.
    fn edit(&mut self, value: char)
        ensures
            final(self)@ == step_edit(old(self)@, Key::Char(value)),
    {
        match self.currently_editing {
            Some(CurrentlyEditing::Name) => push_char(&mut self.name_input, value),
            Some(CurrentlyEditing::Description) => push_char(&mut self.description_input, value),
            None => {},
        }
    }

    /// Leaves edit mode, discarding both buffers.
    fn quit_edit(&mut self)
        ensures
            final(self)@ == step_edit(old(self)@, Key::Esc),
    {
        self.name_input = String::new();
        self.description_input = String::new();
        self.currently_editing = None;
        self.application_state = State::Look;
    }

    /// Switches the active buffer.
    fn toggle_edit(&mut self)
        ensures
            final(self)@ == step_edit(old(self)@, Key::Tab),
    {
        self.currently_editing = match self.currently_editing {
            Some(CurrentlyEditing::Name) => Some(CurrentlyEditing::Description),
            _ => Some(CurrentlyEditing::Name),
        };
    }

    /// Removes the last character of the active buffer.
    fn remove(&mut self)
        ensures
            final(self)@ == step_edit(old(self)@, Key::Backspace),
    {
        match self.currently_editing {
            Some(CurrentlyEditing::Name) => {
                pop_char(&mut self.name_input);
            },
            Some(CurrentlyEditing::Description) => {
                pop_char(&mut self.description_input);
            },
            None => {},
        }
    }

    /// Asks to confirm the new entry; the buffers are kept.
    fn validate_edit(&mut self)
        ensures
            final(self)@ == step_edit(old(self)@, Key::Enter),
    {
        self.application_state = State::Valid;
    }

    /// Appends a new pending entry from the buffers, then clears them and
    /// goes back to browsing.
    fn save_edit(&mut self)
        requires
            old(self).wf(),
        ensures
            final(self).wf(),
            final(self)@ == step_valid(old(self)@, Key::Enter),
    {
        let new_item = TodoItem::new(
            Status::Todo,
            self.name_input.as_str(),
            self.description_input.as_str(),
        );
        self.todo_list.push(new_item);
        self.name_input = String::new();
        self.description_input = String::new();
        self.currently_editing = None;
        self.application_state = State::Look;
    }

    /// Goes back to browsing and keeps the buffers.
    fn cancel_edit(&mut self)
        ensures
            final(self)@ == step_valid(old(self)@, Key::Esc),
    {
        self.application_state = State::Look;
    }

    /// Goes back to editing, buffers untouched.
    fn quit_validation(&mut self)
        ensures
            final(self)@ == step_valid(old(self)@, Key::Char('e')),
    {
        self.application_state = State::Edit;
    }
}

} // verus!
