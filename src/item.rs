use vstd::prelude::*;

use crate::status::Status;

verus! {

/// One entry of the list: a title, a longer description and a status.
#[derive(Debug)]
pub struct TodoItem {
    pub todo: String,
    pub info: String,
    pub status: Status,
}

/// What an entry holds, as plain values.
pub struct EntryView {
    pub todo: Seq<char>,
    pub info: Seq<char>,
    pub status: Status,
}

impl View for TodoItem {
    type V = EntryView;

    open spec fn view(&self) -> EntryView {
        EntryView { todo: self.todo@, info: self.info@, status: self.status }
    }
}

impl TodoItem {
    pub fn new(status: Status, todo: &str, info: &str) -> (r: Self)
        ensures
            r@ == (EntryView { todo: todo@, info: info@, status }),
    {
        TodoItem { status, todo: todo.to_owned(), info: info.to_owned() }
    }
}

} // verus!
