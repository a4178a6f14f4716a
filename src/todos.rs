use vstd::prelude::*;
use crate::dispatcher::{Dispatcher, Submission, Outcome};
use crate::overlay::{lemma_settlement_clears_overlay, overlay_of, pending_titles, titles_of};
use crate::record::Todo;
use crate::resource::{DependencyKey, Resource};

verus! {

/// The task list's client state: a dispatcher for creates (by title), one
/// for deletes (by id), and the collection resource keyed by both versions.
///
/// The caller runs the requests: it sends each dispatched mutation to the
/// store and hands back its result, and it runs each fetch that a call
/// returns and hands back the records.
pub struct Todos {
    creates: Dispatcher<String>,
    deletes: Dispatcher<u16>,
    todos: Resource,
}

/// The dependency key of dispatchers at these versions.
pub open spec fn key_of(create_version: u64, delete_version: u64) -> DependencyKey {
    DependencyKey { create_version, delete_version }
}

impl Todos {
    pub closed spec fn creates_spec(&self) -> Dispatcher<String> {
        self.creates
    }

    pub closed spec fn deletes_spec(&self) -> Dispatcher<u16> {
        self.deletes
    }

    pub closed spec fn resource_spec(&self) -> Resource {
        self.todos
    }

    /// Each part is well formed, and the key the resource last observed is
    /// never ahead of the dispatchers' versions.
    pub closed spec fn wf(&self) -> bool {
        &&& self.creates.wf()
        &&& self.deletes.wf()
        &&& self.todos.wf()
        &&& match self.todos.last_key() {
            Some(k) => k.create_version <= self.creates.version_spec() && k.delete_version
                <= self.deletes.version_spec(),
            None => true,
        }
    }

    /// The current dependency key.
    pub open spec fn key_spec(&self) -> DependencyKey {
        key_of(self.creates_spec().version_spec(), self.deletes_spec().version_spec())
    }

    /// Fresh state: no submissions, no fetch issued, an empty snapshot.
    pub fn new() -> (r: Todos)
        ensures
            r.wf(),
            r.creates_spec().version_spec() == 0,
            r.creates_spec().subs().len() == 0,
            r.deletes_spec().version_spec() == 0,
            r.deletes_spec().subs().len() == 0,
            r.resource_spec().last_key() == None::<DependencyKey>,
            r.resource_spec().issued_spec() == 0,
            r.resource_spec().applied_spec() == 0,
            r.resource_spec().snapshot_spec().len() == 0,
            r.resource_spec().error_spec() == None::<String>,
    {
        Todos { creates: Dispatcher::new(), deletes: Dispatcher::new(), todos: Resource::new() }
    }

    /// The versions of both dispatchers.
    pub fn dependency_key(&self) -> (r: DependencyKey)
        requires
            self.wf(),
        ensures
            r == self.key_spec(),
    {
        DependencyKey {
            create_version: self.creates.version(),
            delete_version: self.deletes.version(),
        }
    }

    /// Shows the resource the current key. Returns the fetch to run, if the
    /// key changed since the last time.
    pub fn refresh(&mut self) -> (ticket: Option<u64>)
        requires
            old(self).wf(),
            old(self).resource_spec().issued_spec() < u64::MAX,
        ensures
            final(self).wf(),
            final(self).creates_spec() == old(self).creates_spec(),
            final(self).deletes_spec() == old(self).deletes_spec(),
            Resource::observe_step(
                old(self).resource_spec(),
                old(self).key_spec(),
                final(self).resource_spec(),
                ticket,
            ),
    {
        let key = self.dependency_key();
        self.todos.observe(key)
    }

    /// Dispatches the creation of a task titled `title`. Returns the
    /// submission's handle.
    pub fn add_todo(&mut self, title: String) -> (h: usize)
        requires
            old(self).wf(),
            old(self).creates_spec().subs().len() < usize::MAX,
        ensures
            final(self).wf(),
            h == old(self).creates_spec().subs().len(),
            final(self).creates_spec().version_spec() == old(self).creates_spec().version_spec(),
            final(self).creates_spec().subs() == old(self).creates_spec().subs().push(
                Submission {
                    input: title,
                    dispatched_at: old(self).creates_spec().version_spec(),
                    outcome: Outcome::Unknown,
                },
            ),
            final(self).deletes_spec() == old(self).deletes_spec(),
            final(self).resource_spec() == old(self).resource_spec(),
    {
        self.creates.dispatch(title)
    }

    /// Dispatches the deletion of the task `id`. Returns the submission's
    /// handle.
    pub fn delete_todo(&mut self, id: u16) -> (h: usize)
        requires
            old(self).wf(),
            old(self).deletes_spec().subs().len() < usize::MAX,
        ensures
            final(self).wf(),
            h == old(self).deletes_spec().subs().len(),
            final(self).deletes_spec().version_spec() == old(self).deletes_spec().version_spec(),
            final(self).deletes_spec().subs() == old(self).deletes_spec().subs().push(
                Submission {
                    input: id,
                    dispatched_at: old(self).deletes_spec().version_spec(),
                    outcome: Outcome::Unknown,
                },
            ),
            final(self).creates_spec() == old(self).creates_spec(),
            final(self).resource_spec() == old(self).resource_spec(),
    {
        self.deletes.dispatch(id)
    }

    /// Records the store's answer to the create `h`. Where that settles it,
    /// the create version goes up and a new fetch is always issued: its
    /// number is returned. Otherwise nothing changes and `None` comes back.
    pub fn settle_add(&mut self, h: usize, result: Result<(), String>) -> (ticket: Option<u64>)
        requires
            old(self).wf(),
            old(self).resource_spec().issued_spec() < u64::MAX,
        ensures
            final(self).wf(),
            ({
                let settled = h < old(self).creates_spec().subs().len() && old(
                    self,
                ).creates_spec().subs()[h as int].outcome is Unknown;
                &&& Dispatcher::settle_step(
                    old(self).creates_spec(),
                    h,
                    result,
                    final(self).creates_spec(),
                    settled,
                )
                &&& final(self).deletes_spec() == old(self).deletes_spec()
                &&& settled ==> Resource::observe_step(
                    old(self).resource_spec(),
                    final(self).key_spec(),
                    final(self).resource_spec(),
                    ticket,
                )
                &&& settled ==> ticket == Some(final(self).resource_spec().issued_spec() as u64)
                &&& !settled ==> final(self).resource_spec() == old(self).resource_spec()
                    && ticket == None::<u64>
            }),
    {
        if !self.creates.settle(h, result) {
            return None;
        }
        self.refresh()
    }

    /// Records the store's answer to the delete `h`, as `settle_add` does
    /// for creates.
    pub fn settle_delete(&mut self, h: usize, result: Result<(), String>) -> (ticket: Option<u64>)
        requires
            old(self).wf(),
            old(self).resource_spec().issued_spec() < u64::MAX,
        ensures
            final(self).wf(),
            ({
                let settled = h < old(self).deletes_spec().subs().len() && old(
                    self,
                ).deletes_spec().subs()[h as int].outcome is Unknown;
                &&& Dispatcher::settle_step(
                    old(self).deletes_spec(),
                    h,
                    result,
                    final(self).deletes_spec(),
                    settled,
                )
                &&& final(self).creates_spec() == old(self).creates_spec()
                &&& settled ==> Resource::observe_step(
                    old(self).resource_spec(),
                    final(self).key_spec(),
                    final(self).resource_spec(),
                    ticket,
                )
                &&& settled ==> ticket == Some(final(self).resource_spec().issued_spec() as u64)
                &&& !settled ==> final(self).resource_spec() == old(self).resource_spec()
                    && ticket == None::<u64>
            }),
    {
        if !self.deletes.settle(h, result) {
            return None;
        }
        self.refresh()
    }

    /// Hands in the records (or the failure) of fetch `ticket`. Returns
    /// whether the result was taken.
    pub fn fetch_settled(&mut self, ticket: u64, result: Result<Vec<Todo>, String>) -> (taken: bool)
        requires
            old(self).wf(),
        ensures
            final(self).wf(),
            final(self).creates_spec() == old(self).creates_spec(),
            final(self).deletes_spec() == old(self).deletes_spec(),
            taken == Resource::accepts(old(self).resource_spec(), ticket),
            Resource::complete_step(
                old(self).resource_spec(),
                ticket,
                result,
                final(self).resource_spec(),
            ),
    {
        self.todos.complete(ticket, result)
    }

    /// The titles of the creates still shown as placeholders.
    pub fn pending_titles(&self) -> (r: Vec<String>)
        ensures
            titles_of(r@) == overlay_of(
                self.creates_spec().subs(),
                self.creates_spec().version_spec(),
            ),
    {
        pending_titles(&self.creates)
    }

    /// Whether the list to show is empty, so that a notice stands in its
    /// place.
    pub fn is_empty(&self) -> (r: bool)
        ensures
            r == (self.resource_spec().snapshot_spec().len() == 0),
    {
        self.todos.snapshot().len() == 0
    }

    pub fn creates(&self) -> (r: &Dispatcher<String>)
        ensures
            *r == self.creates_spec(),
    {
        &self.creates
    }

    pub fn deletes(&self) -> (r: &Dispatcher<u16>)
        ensures
            *r == self.deletes_spec(),
    {
        &self.deletes
    }

    pub fn resource(&self) -> (r: &Resource)
        ensures
            *r == self.resource_spec(),
    {
        &self.todos
    }
}

/// Once a create has settled, in success or failure, the create version has
/// moved past every create dispatched so far, so the next render shows no
/// placeholder; the fetch issued by the same settlement brings the records.
pub proof fn lemma_settle_add_clears_overlay(
    pre: Todos,
    h: usize,
    result: Result<(), String>,
    post: Todos,
)
    requires
        pre.wf(),
        Dispatcher::settle_step(pre.creates_spec(), h, result, post.creates_spec(), true),
    ensures
        overlay_of(post.creates_spec().subs(), post.creates_spec().version_spec())
            == Seq::<Seq<char>>::empty(),
{
    lemma_settlement_clears_overlay(pre.creates, h, result, post.creates);
}

} // verus!
