use vstd::prelude::*;

verus! {

/// One task as the store holds it: the store assigns `id`.
#[derive(Clone, Debug, PartialEq, Eq)]
pub struct Todo {
    pub id: u16,
    pub title: String,
    pub completed: bool,
}

impl Todo {
    pub fn new(id: u16, title: String, completed: bool) -> (r: Todo)
        ensures
            r.id == id,
            r.title@ == title@,
            r.completed == completed,
    {
        Todo { id, title, completed }
    }
}

/// Whether `title` may be stored as a task's title: it must not be empty.
pub fn title_is_valid(title: &str) -> (r: bool)
    ensures
        r == (title@.len() > 0),
{
    !title.is_empty()
}

} // verus!
