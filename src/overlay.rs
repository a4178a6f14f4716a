use vstd::prelude::*;
use crate::dispatcher::{lemma_dispatched_at_most_version, Dispatcher, Outcome, Submission};

verus! {

/// Whether a dispatcher at version `v` still shows submission `s` as a
/// placeholder: it has not settled and the version has not advanced past the
/// version at which it was dispatched.
pub open spec fn shows_in_overlay<I>(s: Submission<I>, v: u64) -> bool {
    s.outcome is Unknown && v <= s.dispatched_at
}

/// The placeholder titles, in dispatch order, of the create submissions `s`
/// of a dispatcher at version `v`.
pub open spec fn overlay_of(s: Seq<Submission<String>>, v: u64) -> Seq<Seq<char>>
    decreases s.len(),
{
    if s.len() == 0 {
        seq![]
    } else {
        let rest = overlay_of(s.drop_last(), v);
        if shows_in_overlay(s.last(), v) {
            rest.push(s.last().input@)
        } else {
            rest
        }
    }
}

pub open spec fn titles_of(v: Seq<String>) -> Seq<Seq<char>> {
    v.map_values(|t: String| t@)
}

/// The titles of the create submissions that are still pending, one
/// placeholder row each.
pub fn pending_titles(creates: &Dispatcher<String>) -> (r: Vec<String>)
    ensures
        titles_of(r@) == overlay_of(creates.subs(), creates.version_spec()),
{
    let v = creates.version();
    let n = creates.len();
    let mut out: Vec<String> = Vec::new();
    let mut i: usize = 0;
    while i < n
        invariant
            i <= n,
            n == creates.subs().len(),
            v == creates.version_spec(),
            titles_of(out@) == overlay_of(creates.subs().take(i as int), v),
        decreases n - i,
    {
        let s = creates.submission(i);
        proof {
            assert(creates.subs().take(i + 1).drop_last() =~= creates.subs().take(i as int));
        }
        let pending = match s.outcome {
            Outcome::Unknown => v <= s.dispatched_at,
            _ => false,
        };
        if pending {
            let t = s.input.clone();
            proof {
                assert(titles_of(out@.push(t)) =~= titles_of(out@).push(t@));
            }
            out.push(t);
        }
        i = i + 1;
    }
    proof {
        assert(creates.subs().take(n as int) =~= creates.subs());
    }
    out
}

/// A submission leaves the overlay as soon as its dispatcher's version has
/// advanced past the version at which it was dispatched, whatever became of
/// the submission itself.
pub proof fn lemma_overlay_drops_overtaken<I>(d: Dispatcher<I>, h: int)
    requires
        d.wf(),
        0 <= h < d.subs().len(),
        d.subs()[h].dispatched_at < d.version_spec(),
    ensures
        !shows_in_overlay(d.subs()[h], d.version_spec()),
{
}

/// Where every submission was dispatched before the current version, as is
/// the case right after any settlement, the overlay is empty.
pub proof fn lemma_overlay_empty_when_all_overtaken(s: Seq<Submission<String>>, v: u64)
    requires
        forall|i: int| 0 <= i < s.len() ==> #[trigger] s[i].dispatched_at < v,
    ensures
        overlay_of(s, v) == Seq::<Seq<char>>::empty(),
    decreases s.len(),
{
    if s.len() > 0 {
        let t = s.drop_last();
        assert forall|i: int| 0 <= i < t.len() implies #[trigger] t[i].dispatched_at < v by {
            assert(t[i] == s[i]);
        }
        lemma_overlay_empty_when_all_overtaken(t, v);
        assert(s.last() == s[s.len() - 1]);
    }
}

/// Right after a settlement of any create, the dispatcher's version has
/// moved past every submission's dispatch, so the overlay shows nothing.
pub proof fn lemma_settlement_clears_overlay(
    pre: Dispatcher<String>,
    h: usize,
    result: Result<(), String>,
    post: Dispatcher<String>,
)
    requires
        pre.wf(),
        Dispatcher::settle_step(pre, h, result, post, true),
    ensures
        overlay_of(post.subs(), post.version_spec()) == Seq::<Seq<char>>::empty(),
{
    assert forall|i: int| 0 <= i < post.subs().len() implies #[trigger] post.subs()[i].dispatched_at
        < post.version_spec() by {
        lemma_dispatched_at_most_version(pre, i);
    }
    lemma_overlay_empty_when_all_overtaken(post.subs(), post.version_spec());
}

} // verus!
