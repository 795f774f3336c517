//! What holds of every run: when a message is sent and when none is, what a message says,
//! and which status entry of a pull request counts.

use vstd::prelude::*;
use crate::merge::{announcements, announcements_for, announces, causes, finished_since};
use crate::notify::message_chars;
use crate::pulls::{
    collected, fetched_status, recorded, status_of, FetchedView, PullView, RawStatus, StatusView,
    CI_CONTEXT,
};
use crate::status::{classified, done, GitlabStatus};
use crate::text::decimal_chars;

verus! {

/// Where no known entry makes `fresh` worth announcing, nothing causes a message for it.
proof fn lemma_no_cause(fresh: StatusView, known: Seq<StatusView>)
    requires
        forall|i: int| 0 <= i < known.len() ==> !announces(#[trigger] known[i], fresh),
    ensures
        causes(fresh, known).len() == 0,
    decreases known.len(),
{
    reveal(Seq::filter);
    if known.len() > 0 {
        let rest = known.drop_last();
        assert forall|i: int| 0 <= i < rest.len() implies !announces(#[trigger] rest[i], fresh) by {
            assert(rest[i] == known[i]);
        }
        lemma_no_cause(fresh, rest);
        assert(!announces(known[known.len() - 1], fresh));
    }
}

/// Where exactly one known entry makes `fresh` worth announcing, one thing causes a message.
proof fn lemma_one_cause(fresh: StatusView, known: Seq<StatusView>, at: int)
    requires
        0 <= at < known.len(),
        announces(known[at], fresh),
        forall|i: int| 0 <= i < known.len() && i != at ==> !announces(#[trigger] known[i], fresh),
    ensures
        causes(fresh, known).len() == 1,
    decreases known.len(),
{
    reveal(Seq::filter);
    let rest = known.drop_last();
    if at == known.len() - 1 {
        assert forall|i: int| 0 <= i < rest.len() implies !announces(#[trigger] rest[i], fresh) by {
            assert(rest[i] == known[i]);
        }
        lemma_no_cause(fresh, rest);
    } else {
        assert(rest[at] == known[at]);
        assert forall|i: int| 0 <= i < rest.len() && i != at implies !announces(
            #[trigger] rest[i],
            fresh,
        ) by {
            assert(rest[i] == known[i]);
        }
        lemma_one_cause(fresh, rest, at);
        assert(!announces(known[known.len() - 1], fresh));
    }
}

/// Every fresh entry is judged alone, against the whole snapshot: the messages of a fetch
/// are those of its first part followed by those of the rest, and a fetch of one entry
/// sends that entry's messages.
pub proof fn law_entries_are_judged_alone(
    first: Seq<StatusView>,
    rest: Seq<StatusView>,
    known: Seq<StatusView>,
)
    ensures
        announcements(first + rest, known) == announcements(first, known) + announcements(
            rest,
            known,
        ),
        forall|fresh: StatusView| #[trigger]
            announcements(seq![fresh], known) == announcements_for(fresh, known),
    decreases rest.len(),
{
    if rest.len() == 0 {
        assert(first + rest =~= first);
        assert(announcements(first, known) + announcements(rest, known) =~= announcements(
            first,
            known,
        ));
    } else {
        law_entries_are_judged_alone(first, rest.drop_last(), known);
        assert((first + rest).drop_last() =~= first + rest.drop_last());
        assert((first + rest).last() == rest.last());
        assert(announcements(first + rest, known) =~= announcements(first, known) + announcements(
            rest,
            known,
        ));
    }
    assert forall|fresh: StatusView| #[trigger]
        announcements(seq![fresh], known) == announcements_for(fresh, known) by {
        assert(seq![fresh].drop_last() =~= Seq::<StatusView>::empty());
        assert(announcements(seq![fresh].drop_last(), known) =~= Seq::<Seq<char>>::empty());
        assert(announcements(seq![fresh], known) =~= announcements_for(fresh, known));
    }
}

/// A pull request that the last snapshot does not hold is never announced, whatever state
/// it was fetched in.
pub proof fn law_first_observation_is_silent(fresh: StatusView, known: Seq<StatusView>)
    requires
        forall|i: int| 0 <= i < known.len() ==> (#[trigger] known[i]).number != fresh.number,
    ensures
        announcements_for(fresh, known) == Seq::<Seq<char>>::empty(),
{
    lemma_no_cause(fresh, known);
    assert(announcements_for(fresh, known) =~= Seq::<Seq<char>>::empty());
}

/// A fetch in which no pull request is held by the last snapshot sends nothing. An empty
/// snapshot is the first case of this.
pub proof fn law_first_run_is_silent(fresh: Seq<StatusView>, known: Seq<StatusView>)
    requires
        forall|i: int, j: int|
            0 <= i < fresh.len() && 0 <= j < known.len() ==> (#[trigger] known[j]).number != (
            #[trigger] fresh[i]).number,
    ensures
        announcements(fresh, known) == Seq::<Seq<char>>::empty(),
    decreases fresh.len(),
{
    if fresh.len() > 0 {
        let rest = fresh.drop_last();
        assert forall|i: int, j: int| 0 <= i < rest.len() && 0 <= j < known.len() implies (
        #[trigger] known[j]).number != (#[trigger] rest[i]).number by {
            assert(rest[i] == fresh[i]);
        }
        law_first_run_is_silent(rest, known);
        assert forall|j: int| 0 <= j < known.len() implies (#[trigger] known[j]).number
            != fresh.last().number by {
            assert(fresh[fresh.len() - 1] == fresh.last());
        }
        law_first_observation_is_silent(fresh.last(), known);
        assert(announcements(fresh, known) =~= Seq::<Seq<char>>::empty());
    }
}

/// A pipeline that was finished when last seen has not just finished, however it ended
/// then and now.
pub proof fn law_finished_stays_silent(prior: GitlabStatus, fresh: GitlabStatus)
    requires
        done(prior),
        done(fresh),
    ensures
        !finished_since(prior, fresh),
{
}

/// A pull request whose known entries are all finished is not announced again.
pub proof fn law_no_repeat(fresh: StatusView, known: Seq<StatusView>)
    requires
        forall|i: int|
            0 <= i < known.len() && (#[trigger] known[i]).number == fresh.number ==> done(
                known[i].state,
            ),
    ensures
        announcements_for(fresh, known) == Seq::<Seq<char>>::empty(),
{
    lemma_no_cause(fresh, known);
    assert(announcements_for(fresh, known) =~= Seq::<Seq<char>>::empty());
}

/// A pipeline that is unfinished now has not just finished, whatever it was when last seen.
pub proof fn law_unfinished_stays_silent(prior: GitlabStatus, fresh: GitlabStatus)
    requires
        !done(fresh),
    ensures
        !finished_since(prior, fresh),
{
}

/// A pull request fetched in an unfinished state is not announced, whatever is known.
pub proof fn law_unfinished_is_silent(fresh: StatusView, known: Seq<StatusView>)
    requires
        !done(fresh.state),
    ensures
        announcements_for(fresh, known) == Seq::<Seq<char>>::empty(),
{
    lemma_no_cause(fresh, known);
    assert(announcements_for(fresh, known) =~= Seq::<Seq<char>>::empty());
}

/// A pull request that was fetched finished, and of which the last snapshot holds exactly
/// one unfinished entry, is announced exactly once. The message gives its number, says
/// `succeeded!` for a success and `failed!` for a failure, and ends with its link.
pub proof fn law_transition_notifies_once(fresh: StatusView, known: Seq<StatusView>, at: int)
    requires
        0 <= at < known.len(),
        known[at].number == fresh.number,
        !done(known[at].state),
        done(fresh.state),
        forall|i: int|
            0 <= i < known.len() && i != at ==> (#[trigger] known[i]).number != fresh.number
                || done(known[i].state),
    ensures
        announcements_for(fresh, known) == seq![message_chars(fresh)],
        message_chars(fresh) == "PR #"@ + decimal_chars(fresh.number) + " "@ + (if fresh.state
            == GitlabStatus::Success {
            "succeeded!"@
        } else {
            "failed!"@
        }) + " PR Link: "@ + fresh.github_url,
        "succeeded!"@ != "failed!"@,
{
    lemma_one_cause(fresh, known, at);
    assert(announcements_for(fresh, known) =~= seq![message_chars(fresh)]);
    reveal_strlit("succeeded!");
    reveal_strlit("failed!");
    assert("succeeded!"@.len() != "failed!"@.len());
}

/// Status text that is none of the four known words stands for `Invalid`, and only such
/// text does. `Invalid` is unfinished: fetched, it announces nothing; known, it lets a
/// later finished state be announced.
pub proof fn law_unknown_text_is_invalid(text: Seq<char>)
    ensures
        classified(text) == GitlabStatus::Invalid <==> (text != "success"@ && text != "failure"@
            && text != "pending"@ && text != "running"@),
        classified("success"@) == GitlabStatus::Success,
        classified("failure"@) == GitlabStatus::Failure,
        classified("pending"@) == GitlabStatus::Pending,
        classified("running"@) == GitlabStatus::Running,
        !done(GitlabStatus::Invalid),
        forall|prior: GitlabStatus| !finished_since(prior, GitlabStatus::Invalid),
        forall|fresh: GitlabStatus|
            finished_since(GitlabStatus::Invalid, fresh) <==> done(fresh),
{
    reveal_strlit("success");
    reveal_strlit("failure");
    reveal_strlit("pending");
    reveal_strlit("running");
    assert("success"@[0] != "failure"@[0]);
    assert("success"@[0] != "pending"@[0]);
    assert("success"@[0] != "running"@[0]);
    assert("failure"@[0] != "pending"@[0]);
    assert("failure"@[0] != "running"@[0]);
    assert("pending"@[0] != "running"@[0]);
}

/// Of the status entries listed for a pull request, the first one under the pipeline's
/// context decides. What is listed after it changes nothing.
pub proof fn law_first_entry_decides(
    pull: PullView,
    before: Seq<RawStatus>,
    entry: RawStatus,
    after: Seq<RawStatus>,
)
    requires
        forall|i: int| 0 <= i < before.len() ==> (#[trigger] before[i]).context != CI_CONTEXT@,
        entry.context == CI_CONTEXT@,
    ensures
        status_of(pull, before + seq![entry] + after) == Some(recorded(pull, entry)),
    decreases before.len(),
{
    let all = before + seq![entry] + after;
    if before.len() == 0 {
        assert(all.first() == entry);
    } else {
        let rest = before.drop_first();
        assert(all.first() == before[0]);
        assert(all.drop_first() =~= rest + seq![entry] + after);
        assert forall|i: int| 0 <= i < rest.len() implies (#[trigger] rest[i]).context
            != CI_CONTEXT@ by {
            assert(rest[i] == before[i + 1]);
        }
        law_first_entry_decides(pull, rest, entry, after);
    }
}

/// Every fetched pull request is reduced alone, to one status or to none: the statuses of a
/// fetch are those of its first part followed by those of the rest, and a fetch of one pull
/// request yields its status where it has one.
pub proof fn law_one_status_for_each_pull(first: Seq<FetchedView>, rest: Seq<FetchedView>)
    ensures
        collected(first + rest) == collected(first) + collected(rest),
        forall|one: FetchedView| #[trigger]
            collected(seq![one]) == (match fetched_status(one) {
                Some(status) => seq![status],
                None => Seq::<StatusView>::empty(),
            }),
    decreases rest.len(),
{
    let pick = |f: FetchedView| fetched_status(f);
    if rest.len() == 0 {
        assert(first + rest =~= first);
        assert(collected(first) + collected(rest) =~= collected(first));
    } else {
        law_one_status_for_each_pull(first, rest.drop_last());
        assert((first + rest).drop_last() =~= first + rest.drop_last());
        assert((first + rest).last() == rest.last());
        assert(collected(first + rest) =~= collected(first) + collected(rest));
    }
    assert forall|one: FetchedView| #[trigger]
        collected(seq![one]) == (match fetched_status(one) {
            Some(status) => seq![status],
            None => Seq::<StatusView>::empty(),
        }) by {
        assert(seq![one].drop_last() =~= Seq::<FetchedView>::empty());
        assert(seq![one].drop_last().filter_map(pick) =~= Seq::<StatusView>::empty());
        assert(collected(seq![one]) =~= (match fetched_status(one) {
            Some(status) => seq![status],
            None => Seq::<StatusView>::empty(),
        }));
    }
}

/// A pull request with no status entry under the pipeline's context has no status.
pub proof fn law_no_entry_no_status(pull: PullView, statuses: Seq<RawStatus>)
    requires
        forall|i: int| 0 <= i < statuses.len() ==> (#[trigger] statuses[i]).context != CI_CONTEXT@,
    ensures
        status_of(pull, statuses) == None::<StatusView>,
    decreases statuses.len(),
{
    if statuses.len() > 0 {
        let rest = statuses.drop_first();
        assert(statuses.first() == statuses[0]);
        assert forall|i: int| 0 <= i < rest.len() implies (#[trigger] rest[i]).context
            != CI_CONTEXT@ by {
            assert(rest[i] == statuses[i + 1]);
        }
        law_no_entry_no_status(pull, rest);
    }
}

} // verus!
