use vstd::prelude::*;

use ratatui::widgets::ListState;

use crate::item::{EntryView, TodoItem};
#[allow(unused_imports)]
use crate::list_state::selection_of;
use crate::status::{toggled, Status};

verus! {

/// The list's entries in order, and the selected index if any.
pub struct TodoListView {
    pub entries: Seq<EntryView>,
    pub selection: Option<usize>,
}

impl TodoListView {
    /// The selection, if any, is an index of an entry.
    pub open spec fn wf(self) -> bool {
        match self.selection {
            Some(i) => i < self.entries.len(),
            None => true,
        }
    }
}

/// The selection after moving down: the first entry when nothing is selected,
/// otherwise one further down, staying on the last entry.
pub open spec fn next_selection(sel: Option<usize>, len: nat) -> Option<usize> {
    if len == 0 {
        sel
    } else {
        match sel {
            None => Some(0usize),
            Some(i) => if i + 1 < len { Some((i + 1) as usize) } else { Some((len - 1) as usize) },
        }
    }
}

/// The selection after moving up: the last entry when nothing is selected,
/// otherwise one further up, staying on the first entry.
pub open spec fn previous_selection(sel: Option<usize>, len: nat) -> Option<usize> {
    if len == 0 {
        sel
    } else {
        match sel {
            None => Some((len - 1) as usize),
            Some(i) => if i == 0 { Some(0usize) } else { Some((i - 1) as usize) },
        }
    }
}

/// The selection after jumping to the first entry.
pub open spec fn first_selection(sel: Option<usize>, len: nat) -> Option<usize> {
    if len == 0 { sel } else { Some(0usize) }
}

/// The selection after jumping to the last entry.
pub open spec fn last_selection(sel: Option<usize>, len: nat) -> Option<usize> {
    if len == 0 { sel } else { Some((len - 1) as usize) }
}

/// The entries after flipping the status of the selected one, if any.
pub open spec fn toggle_at(entries: Seq<EntryView>, sel: Option<usize>) -> Seq<EntryView> {
    match sel {
        Some(i) if i < entries.len() => entries.update(
            i as int,
            EntryView { status: toggled(entries[i as int].status), ..entries[i as int] },
        ),
        _ => entries,
    }
}

/// An ordered list of entries with an optional selection cursor.
pub struct TodoList {
    items: Vec<TodoItem>,
    state: ListState,
}

impl View for TodoList {
    type V = TodoListView;

    closed spec fn view(&self) -> TodoListView {
        TodoListView {
            entries: self.items@.map_values(|t: TodoItem| t@),
            selection: selection_of(self.state),
        }
    }
}

impl TodoList {
    /// An empty list with nothing selected.
    pub fn new() -> (r: Self)
        ensures
            r@.entries == Seq::<EntryView>::empty(),
            r@.selection == None::<usize>,
    {
        let r = TodoList { items: Vec::new(), state: ListState::default() };
        proof {
            assert(r@.entries =~= Seq::<EntryView>::empty());
        }
        r
    }

    /// A list of the given entries, in order, with nothing selected.
    pub fn from_iter(entries: Vec<(Status, &'static str, &'static str)>) -> (r: Self)
        ensures
            r@.entries.len() == entries@.len(),
            forall|k: int|
                0 <= k < entries@.len() ==> #[trigger] r@.entries[k] == (EntryView {
                    todo: entries@[k].1@,
                    info: entries@[k].2@,
                    status: entries@[k].0,
                }),
            r@.selection == None::<usize>,
    {
        let mut items: Vec<TodoItem> = Vec::new();
        let mut k: usize = 0;
        while k < entries.len()
            invariant
                k <= entries@.len(),
                items@.len() == k,
                forall|j: int|
                    0 <= j < k ==> #[trigger] items@[j]@ == (EntryView {
                        todo: entries@[j].1@,
                        info: entries@[j].2@,
                        status: entries@[j].0,
                    }),
            decreases entries@.len() - k,
        {
            let (status, todo, info) = entries[k];
            items.push(TodoItem::new(status, todo, info));
            k = k + 1;
        }
        TodoList { items, state: ListState::default() }
    }

    pub open spec fn wf(&self) -> bool {
        self@.wf()
    }

    /// The entries, in order.
    pub fn items(&self) -> (r: &Vec<TodoItem>)
        ensures
            r@.map_values(|t: TodoItem| t@) == self@.entries,
    {
        &self.items
    }

    /// The number of entries.
    pub fn len(&self) -> (r: usize)
        ensures
            r == self@.entries.len(),
    {
        self.items.len()
    }

    /// The selected index, if any.
    pub fn selected(&self) -> (r: Option<usize>)
        ensures
            r == self@.selection,
    {
        self.state.selected()
    }

    /// Appends an entry at the end; the selection stays as it was.
    pub fn push(&mut self, item: TodoItem)
        requires
            old(self).wf(),
        ensures
            final(self).wf(),
            final(self)@.entries == old(self)@.entries.push(item@),
            final(self)@.selection == old(self)@.selection,
    {
        self.items.push(item);
        proof {
            assert(self.items.len() == self.items@.len());
            assert(self.items@.map_values(|t: TodoItem| t@) =~= old(self)@.entries.push(item@));
        }
    }

    /// Clears the selection.
    pub fn select_none(&mut self)
        requires
            old(self).wf(),
        ensures
            final(self).wf(),
            final(self)@.entries == old(self)@.entries,
            final(self)@.selection == None::<usize>,
    {
        self.state.select(None);
    }

    /// Moves the selection down by one, saturating at the last entry.
    pub fn select_next(&mut self)
        requires
            old(self).wf(),
        ensures
            final(self).wf(),
            final(self)@.entries == old(self)@.entries,
            final(self)@.selection == next_selection(
                old(self)@.selection,
                old(self)@.entries.len(),
            ),
    {
        let len = self.items.len();
        if len == 0 {
            return;
        }
        self.state.select_next();
        self.clamp_selection(len);
    }

    /// Moves the selection up by one, saturating at the first entry.
    pub fn select_previous(&mut self)
        requires
            old(self).wf(),
        ensures
            final(self).wf(),
            final(self)@.entries == old(self)@.entries,
            final(self)@.selection == previous_selection(
                old(self)@.selection,
                old(self)@.entries.len(),
            ),
    {
        let len = self.items.len();
        if len == 0 {
            return;
        }
        self.state.select_previous();
        self.clamp_selection(len);
    }

    /// Selects the first entry.
    pub fn select_first(&mut self)
        requires
            old(self).wf(),
        ensures
            final(self).wf(),
            final(self)@.entries == old(self)@.entries,
            final(self)@.selection == first_selection(
                old(self)@.selection,
                old(self)@.entries.len(),
            ),
    {
        if self.items.len() == 0 {
            return;
        }
        self.state.select_first();
    }

    /// Selects the last entry.
    pub fn select_last(&mut self)
        requires
            old(self).wf(),
        ensures
            final(self).wf(),
            final(self)@.entries == old(self)@.entries,
            final(self)@.selection == last_selection(
                old(self)@.selection,
                old(self)@.entries.len(),
            ),
    {
        let len = self.items.len();
        if len == 0 {
            return;
        }
        self.state.select_last();
        self.clamp_selection(len);
    }

    /// Brings a selection past the end back to the last entry.
    fn clamp_selection(&mut self, len: usize)
        requires
            len == old(self)@.entries.len(),
            len > 0,
        ensures
            final(self)@.entries == old(self)@.entries,
            final(self)@.selection == match old(self)@.selection {
                Some(i) => if i < len { Some(i) } else { Some((len - 1) as usize) },
                None => None,
            },
    {
        if let Some(i) = self.state.selected() {
            if i >= len {
                self.state.select(Some(len - 1));
            }
        }
    }

    /// Flips the status of the selected entry; does nothing when nothing is
    /// selected.
    pub fn toggle_status(&mut self)
        requires
            old(self).wf(),
        ensures
            final(self).wf(),
            final(self)@.entries == toggle_at(old(self)@.entries, old(self)@.selection),
            final(self)@.selection == old(self)@.selection,
    {
        if let Some(i) = self.state.selected() {
            let status = self.items[i].status.toggled();
            self.items[i].status = status;
            proof {
                assert(self.items@.map_values(|t: TodoItem| t@) =~= toggle_at(
                    old(self)@.entries,
                    old(self)@.selection,
                ));
            }
        }
    }
}

} // verus!
