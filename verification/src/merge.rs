//! Detects the pull requests whose pipeline has finished since the last run, and makes the
//! snapshot to keep for the next one.

use vstd::prelude::*;
use crate::notify::{finish_message, message_chars};
use crate::pulls::{PullRequestStatus, StatusView};
use crate::status::{done, is_done, GitlabStatus};

verus! {

/// What one run decides: the messages to send, in order, and the snapshot to keep.
#[derive(Clone, Debug, PartialEq, Eq)]
pub struct Merged {
    pub notifications: Vec<String>,
    pub snapshot: Vec<PullRequestStatus>,
}

/// A pipeline has just finished when it is finished now and was not when last seen.
pub open spec fn finished_since(prior: GitlabStatus, fresh: GitlabStatus) -> bool {
    done(fresh) && !done(prior)
}

/// Whether the known entry `prior` makes the fresh entry `fresh` worth announcing: both are
/// of one pull request, whose pipeline has just finished.
pub open spec fn announces(prior: StatusView, fresh: StatusView) -> bool {
    prior.number == fresh.number && finished_since(prior.state, fresh.state)
}

/// The entries of `known` that make `fresh` worth announcing.
pub open spec fn causes(fresh: StatusView, known: Seq<StatusView>) -> Seq<StatusView> {
    known.filter(|prior: StatusView| announces(prior, fresh))
}

/// The messages sent for one fresh entry: its message, once for each known entry that makes
/// it worth announcing.
pub open spec fn announcements_for(fresh: StatusView, known: Seq<StatusView>) -> Seq<Seq<char>> {
    Seq::new(causes(fresh, known).len(), |i: int| message_chars(fresh))
}

/// The messages sent for a fetch, in the order of the fresh entries.
pub open spec fn announcements(fresh: Seq<StatusView>, known: Seq<StatusView>) -> Seq<Seq<char>>
    decreases fresh.len(),
{
    if fresh.len() == 0 {
        Seq::empty()
    } else {
        announcements(fresh.drop_last(), known) + announcements_for(fresh.last(), known)
    }
}

/// Tells whether the known entry `prior` makes the fresh entry `fresh` worth announcing.
pub fn should_notify(prior: &PullRequestStatus, fresh: &PullRequestStatus) -> (notify: bool)
    ensures
        notify == announces(prior@, fresh@),
{
    fresh.number == prior.number && is_done(&fresh.state) && !is_done(&prior.state)
}

/// Compares a fetch with the snapshot of the last run.
///
/// The messages are those of the fresh entries whose pipeline has just finished, in fetch
/// order. The new snapshot is the fetch itself, whatever was known and whatever is announced.
pub fn merge(fresh: Vec<PullRequestStatus>, known: &Vec<PullRequestStatus>) -> (merged: Merged)
    ensures
        merged.notifications.deep_view() == announcements(fresh.deep_view(), known.deep_view()),
        merged.snapshot@ == fresh@,
{
    let ghost fetched = fresh.deep_view();
    let ghost priors = known.deep_view();
    let mut notifications: Vec<String> = Vec::new();
    let mut i: usize = 0;
    assert(notifications.deep_view() =~= announcements(fetched.take(0), priors));
    while i < fresh.len()
        invariant
            i <= fresh.len(),
            fetched == fresh.deep_view(),
            priors == known.deep_view(),
            notifications.deep_view() == announcements(fetched.take(i as int), priors),
        decreases fresh.len() - i,
    {
        let entry = &fresh[i];
        let ghost before = notifications.deep_view();
        let ghost cause = |prior: StatusView| announces(prior, entry@);
        let mut j: usize = 0;
        assert(priors.take(0).filter(cause) =~= Seq::<StatusView>::empty()) by {
            reveal(Seq::filter);
        }
        assert(notifications.deep_view() =~= before + announcements_for(entry@, priors.take(0)));
        while j < known.len()
            invariant
                j <= known.len(),
                priors == known.deep_view(),
                cause == |prior: StatusView| announces(prior, entry@),
                notifications.deep_view() == before + announcements_for(
                    entry@,
                    priors.take(j as int),
                ),
            decreases known.len() - j,
        {
            let prior = &known[j];
            let ghost sent = notifications.deep_view();
            proof {
                assert(priors.take(j + 1) =~= priors.take(j as int).push(prior@));
                priors.take(j as int).lemma_filter_push(prior@, cause);
            }
            if should_notify(prior, entry) {
                let message = finish_message(entry);
                notifications.push(message);
                assert(notifications.deep_view() =~= sent.push(message@));
            }
            assert(notifications.deep_view() =~= before + announcements_for(
                entry@,
                priors.take(j + 1),
            ));
            j += 1;
        }
        proof {
            assert(priors.take(known.len() as int) =~= priors);
            assert(fetched.take(i + 1).drop_last() =~= fetched.take(i as int));
            assert(fetched.take(i + 1).last() == entry@);
        }
        i += 1;
    }
    assert(fetched.take(fresh.len() as int) =~= fetched);
    Merged { notifications, snapshot: fresh }
}

} // verus!
