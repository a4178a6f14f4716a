use vstd::prelude::*;

verus! {

/// What is known of a submission's result.
#[derive(Clone, Debug, PartialEq, Eq)]
pub enum Outcome {
    /// The request has not settled yet.
    Unknown,
    Succeeded,
    /// The store refused or could not be reached; the message says why.
    Failed(String),
}

/// One dispatched mutation: its input, the dispatcher's version when it was
/// dispatched, and its outcome.
pub struct Submission<I> {
    pub input: I,
    pub dispatched_at: u64,
    pub outcome: Outcome,
}

/// Number of submissions in `s` whose outcome is known.
pub open spec fn settled_count<I>(s: Seq<Submission<I>>) -> nat
    decreases s.len(),
{
    if s.len() == 0 {
        0
    } else {
        settled_count(s.drop_last()) + if s.last().outcome is Unknown {
            0nat
        } else {
            1nat
        }
    }
}

pub proof fn lemma_settled_count_bound<I>(s: Seq<Submission<I>>)
    ensures
        settled_count(s) <= s.len(),
    decreases s.len(),
{
    if s.len() > 0 {
        lemma_settled_count_bound(s.drop_last());
    }
}

pub proof fn lemma_settled_count_push<I>(s: Seq<Submission<I>>, x: Submission<I>)
    ensures
        settled_count(s.push(x)) == settled_count(s) + if x.outcome is Unknown {
            0nat
        } else {
            1nat
        },
{
    assert(s.push(x).drop_last() =~= s);
}

/// Settling one unsettled submission adds one to the count.
pub proof fn lemma_settled_count_settle<I>(s: Seq<Submission<I>>, i: int, x: Submission<I>)
    requires
        0 <= i < s.len(),
        s[i].outcome is Unknown,
        !(x.outcome is Unknown),
    ensures
        settled_count(s.update(i, x)) == settled_count(s) + 1,
    decreases s.len(),
{
    let t = s.update(i, x);
    if i == s.len() - 1 {
        assert(t.drop_last() =~= s.drop_last());
    } else {
        lemma_settled_count_settle(s.drop_last(), i, x);
        assert(t.drop_last() =~= s.drop_last().update(i, x));
    }
}

/// Issues mutations of one kind and counts their settlements.
///
/// The version counter is the number of submissions that have settled, in
/// success or failure; every submission was dispatched at a version no
/// greater than the current one.
pub struct Dispatcher<I> {
    version: u64,
    submissions: Vec<Submission<I>>,
}

impl<I> Dispatcher<I> {
    pub closed spec fn version_spec(&self) -> u64 {
        self.version
    }

    pub closed spec fn subs(&self) -> Seq<Submission<I>> {
        self.submissions@
    }

    pub closed spec fn wf(&self) -> bool {
        &&& self.version == settled_count(self.submissions@)
        &&& forall|i: int|
            0 <= i < self.submissions@.len() ==> #[trigger] self.submissions@[i].dispatched_at
                <= self.version
    }

    /// What `settle` does: where `h` names an unsettled submission, its
    /// outcome becomes `Succeeded` or `Failed` with the store's message, the
    /// other submissions stay, and the version goes up by exactly one,
    /// whatever the result. Otherwise nothing changes and `r` is false.
    pub open spec fn settle_step(
        pre: Dispatcher<I>,
        h: usize,
        result: Result<(), String>,
        post: Dispatcher<I>,
        r: bool,
    ) -> bool {
        &&& r == (h < pre.subs().len() && pre.subs()[h as int].outcome is Unknown)
        &&& r ==> post.version_spec() == pre.version_spec() + 1
        &&& r ==> post.subs() == pre.subs().update(
            h as int,
            Submission {
                input: pre.subs()[h as int].input,
                dispatched_at: pre.subs()[h as int].dispatched_at,
                outcome: match result {
                    Ok(()) => Outcome::Succeeded,
                    Err(e) => Outcome::Failed(e),
                },
            },
        )
        &&& !r ==> post == pre
    }

    /// A dispatcher with no submissions, at version 0.
    pub fn new() -> (r: Dispatcher<I>)
        ensures
            r.wf(),
            r.version_spec() == 0,
            r.subs().len() == 0,
    {
        Dispatcher { version: 0, submissions: Vec::new() }
    }

    /// The number of settlements so far.
    pub fn version(&self) -> (r: u64)
        ensures
            r == self.version_spec(),
    {
        self.version
    }

    /// The number of submissions dispatched so far.
    pub fn len(&self) -> (r: usize)
        ensures
            r == self.subs().len(),
    {
        self.submissions.len()
    }

    /// The submission that handle `h` names.
    pub fn submission(&self, h: usize) -> (r: &Submission<I>)
        requires
            h < self.subs().len(),
        ensures
            *r == self.subs()[h as int],
    {
        &self.submissions[h]
    }

    /// Records a new request with `input`; it is unsettled and stamped with
    /// the current version, which does not change. Returns its handle.
    pub fn dispatch(&mut self, input: I) -> (h: usize)
        requires
            old(self).wf(),
            old(self).subs().len() < usize::MAX,
        ensures
            final(self).wf(),
            h == old(self).subs().len(),
            final(self).version_spec() == old(self).version_spec(),
            final(self).subs() == old(self).subs().push(
                Submission { input, dispatched_at: old(self).version_spec(), outcome: Outcome::Unknown },
            ),
    {
        let h = self.submissions.len();
        let s = Submission { input, dispatched_at: self.version, outcome: Outcome::Unknown };
        proof {
            lemma_settled_count_push(self.submissions@, s);
        }
        self.submissions.push(s);
        h
    }

    /// Records the result of the request `h`. Where `h` names an unsettled
    /// submission, its outcome becomes `Succeeded` or `Failed` and the
    /// version goes up by exactly one, whatever the result; otherwise
    /// nothing changes. Returns whether the settlement was recorded.
    pub fn settle(&mut self, h: usize, result: Result<(), String>) -> (r: bool)
        requires
            old(self).wf(),
        ensures
            final(self).wf(),
            Self::settle_step(*old(self), h, result, *final(self), r),
    {
        if h >= self.submissions.len() {
            return false;
        }
        match self.submissions[h].outcome {
            Outcome::Unknown => {},
            _ => {
                return false;
            },
        }
        let outcome = match result {
            Ok(()) => Outcome::Succeeded,
            Err(e) => Outcome::Failed(e),
        };
        proof {
            let old_s = self.submissions@[h as int];
            let new_s = Submission { input: old_s.input, dispatched_at: old_s.dispatched_at, outcome };
            lemma_settled_count_settle(self.submissions@, h as int, new_s);
            lemma_settled_count_bound(self.submissions@.update(h as int, new_s));
        }
        self.submissions[h].outcome = outcome;
        self.version = self.version + 1;
        proof {
            assert(self.submissions@ =~= old(self).submissions@.update(
                h as int,
                Submission {
                    input: old(self).submissions@[h as int].input,
                    dispatched_at: old(self).submissions@[h as int].dispatched_at,
                    outcome: match result {
                        Ok(()) => Outcome::Succeeded,
                        Err(e) => Outcome::Failed(e),
                    },
                },
            ));
        }
        true
    }
}

/// The version of a dispatcher is the number of its submissions that have
/// settled, in success or failure: it never goes down, and each settlement
/// adds exactly one (see `settle_step`).
pub proof fn lemma_version_counts_settlements<I>(d: Dispatcher<I>)
    requires
        d.wf(),
    ensures
        d.version_spec() == settled_count(d.subs()),
        d.version_spec() <= d.subs().len(),
{
    lemma_settled_count_bound(d.subs());
}

/// Every submission of a well-formed dispatcher was dispatched at a version
/// no greater than the current one.
pub proof fn lemma_dispatched_at_most_version<I>(d: Dispatcher<I>, i: int)
    requires
        d.wf(),
        0 <= i < d.subs().len(),
    ensures
        d.subs()[i].dispatched_at <= d.version_spec(),
{
}

} // verus!
