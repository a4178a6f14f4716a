use vstd::prelude::*;
use crate::record::Todo;

verus! {

/// The version counters of every dispatcher that can change the collection.
#[derive(Clone, Copy, Debug, PartialEq, Eq, Structural)]
pub struct DependencyKey {
    pub create_version: u64,
    pub delete_version: u64,
}

/// A cached read of the whole collection, refetched whenever the dependency
/// key changes.
///
/// Fetches are numbered from 1 in the order they are issued. `applied` is
/// the number of the newest fetch whose result has been taken (0 for none);
/// a result is taken only from a fetch newer than that, so a superseded fetch
/// never overwrites the result of a later one.
pub struct Resource {
    key: Option<DependencyKey>,
    issued: u64,
    applied: u64,
    snapshot: Vec<Todo>,
    error: Option<String>,
}

impl Resource {
    pub closed spec fn last_key(&self) -> Option<DependencyKey> {
        self.key
    }

    pub closed spec fn issued_spec(&self) -> nat {
        self.issued as nat
    }

    pub closed spec fn applied_spec(&self) -> nat {
        self.applied as nat
    }

    pub closed spec fn snapshot_spec(&self) -> Seq<Todo> {
        self.snapshot@
    }

    pub closed spec fn error_spec(&self) -> Option<String> {
        self.error
    }

    pub closed spec fn wf(&self) -> bool {
        self.applied <= self.issued
    }

    /// What `observe` does: a fetch is issued exactly when `key` differs
    /// from the last key observed (or none was), and it is then numbered
    /// one past the previous fetch. The snapshot and the error stay.
    pub open spec fn observe_step(
        pre: Resource,
        key: DependencyKey,
        post: Resource,
        ticket: Option<u64>,
    ) -> bool {
        let changed = pre.last_key() != Some(key);
        &&& post.last_key() == Some(key)
        &&& post.applied_spec() == pre.applied_spec()
        &&& post.snapshot_spec() == pre.snapshot_spec()
        &&& post.error_spec() == pre.error_spec()
        &&& post.issued_spec() == pre.issued_spec() + if changed {
            1nat
        } else {
            0nat
        }
        &&& ticket == if changed {
            Some(post.issued_spec() as u64)
        } else {
            None
        }
    }

    /// Whether the result of fetch `ticket` is taken: it was issued and is
    /// newer than every fetch whose result was taken before.
    pub open spec fn accepts(pre: Resource, ticket: u64) -> bool {
        pre.applied_spec() < ticket && ticket <= pre.issued_spec()
    }

    /// What `complete` does. A result that is taken replaces the snapshot
    /// wholesale on success and clears the error; on failure it keeps the
    /// snapshot and records the error. A result that is not taken changes
    /// nothing.
    pub open spec fn complete_step(
        pre: Resource,
        ticket: u64,
        result: Result<Vec<Todo>, String>,
        post: Resource,
    ) -> bool {
        if Self::accepts(pre, ticket) {
            &&& post.last_key() == pre.last_key()
            &&& post.issued_spec() == pre.issued_spec()
            &&& post.applied_spec() == ticket
            &&& match result {
                Ok(v) => post.snapshot_spec() == v@ && post.error_spec() == None::<String>,
                Err(e) => post.snapshot_spec() == pre.snapshot_spec() && post.error_spec() == Some(
                    e,
                ),
            }
        } else {
            post == pre
        }
    }

    /// A resource that has observed no key, issued no fetch and holds an
    /// empty snapshot.
    pub fn new() -> (r: Resource)
        ensures
            r.wf(),
            r.last_key() == None::<DependencyKey>,
            r.issued_spec() == 0,
            r.applied_spec() == 0,
            r.snapshot_spec().len() == 0,
            r.error_spec() == None::<String>,
    {
        Resource { key: None, issued: 0, applied: 0, snapshot: Vec::new(), error: None }
    }

    /// Takes note of the current dependency key. Returns the number of the
    /// fetch to issue where the key changed, and `None` where it did not.
    pub fn observe(&mut self, key: DependencyKey) -> (ticket: Option<u64>)
        requires
            old(self).wf(),
            old(self).issued_spec() < u64::MAX,
        ensures
            final(self).wf(),
            Self::observe_step(*old(self), key, *final(self), ticket),
    {
        let changed = match self.key {
            Some(k) => k != key,
            None => true,
        };
        self.key = Some(key);
        if changed {
            self.issued = self.issued + 1;
            Some(self.issued)
        } else {
            None
        }
    }

    /// Hands in the result of fetch `ticket`. Returns whether it was taken.
    pub fn complete(&mut self, ticket: u64, result: Result<Vec<Todo>, String>) -> (taken: bool)
        requires
            old(self).wf(),
        ensures
            final(self).wf(),
            taken == Self::accepts(*old(self), ticket),
            Self::complete_step(*old(self), ticket, result, *final(self)),
    {
        if ticket <= self.applied || ticket > self.issued {
            return false;
        }
        self.applied = ticket;
        match result {
            Ok(v) => {
                self.snapshot = v;
                self.error = None;
            },
            Err(e) => {
                self.error = Some(e);
            },
        }
        true
    }

    /// The records of the newest result taken.
    pub fn snapshot(&self) -> (r: &Vec<Todo>)
        ensures
            r@ == self.snapshot_spec(),
    {
        &self.snapshot
    }

    /// The failure of the newest fetch taken, if it failed.
    pub fn error(&self) -> (r: &Option<String>)
        ensures
            *r == self.error_spec(),
    {
        &self.error
    }

    /// The number of fetches issued so far.
    pub fn fetches_issued(&self) -> (r: u64)
        ensures
            r == self.issued_spec(),
    {
        self.issued
    }

    /// Whether a fetch newer than the snapshot is still outstanding.
    pub fn is_loading(&self) -> (r: bool)
        ensures
            r == (self.applied_spec() < self.issued_spec()),
    {
        self.applied < self.issued
    }
}

/// Observing the same key twice in a row issues at most one fetch: the
/// second observation issues none.
pub proof fn lemma_repeated_key_no_refetch(
    r0: Resource,
    r1: Resource,
    r2: Resource,
    key: DependencyKey,
    t1: Option<u64>,
    t2: Option<u64>,
)
    requires
        Resource::observe_step(r0, key, r1, t1),
        Resource::observe_step(r1, key, r2, t2),
    ensures
        t2 == None::<u64>,
        r2.issued_spec() == r1.issued_spec(),
        r1.issued_spec() == r0.issued_spec() + if r0.last_key() == Some(key) {
            0nat
        } else {
            1nat
        },
{
}

/// Of two overlapping fetches, the one issued later determines the
/// snapshot, even where the earlier one settles after it.
pub proof fn lemma_last_fetch_wins(
    r0: Resource,
    r1: Resource,
    r2: Resource,
    a: u64,
    b: u64,
    later: Vec<Todo>,
    earlier: Result<Vec<Todo>, String>,
)
    requires
        r0.wf(),
        r0.applied_spec() < a,
        a < b,
        b <= r0.issued_spec(),
        Resource::complete_step(r0, b, Ok(later), r1),
        Resource::complete_step(r1, a, earlier, r2),
    ensures
        r2.snapshot_spec() == later@,
        r2.error_spec() == None::<String>,
{
}

} // verus!
