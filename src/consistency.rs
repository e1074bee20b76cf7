//! The invariant that ties the configuration, the statistics and the vote
//! records together, and the laws of the vote lifecycle.
use vstd::prelude::*;
use crate::execute::{
    admin_vote_error, ballot_error, ballot_of, ballot_outcome, cast_ballot, fresh_vote,
    new_vote_outcome, pause_outcome, toggle_coin_outcome, toggle_whitelist_outcome,
    unpause_outcome,
};
use crate::contract::execute_outcome;
use crate::state::{StorageView, VoteView};
use crate::types::{CoinView, ExecuteMsg};

verus! {

/// How many of `titles` name a vote of `votes` whose pause flag is `paused`.
pub open spec fn count_in_state(titles: Seq<Seq<char>>, votes: Map<Seq<char>, VoteView>, paused: bool) -> int
    decreases titles.len(),
{
    if titles.len() == 0 {
        0
    } else {
        count_in_state(titles.drop_last(), votes, paused) + if votes[titles.last()].paused == paused {
            1int
        } else {
            0int
        }
    }
}

/// The counters of a vote add up to the number of its voters.
pub open spec fn tally_consistent(v: VoteView) -> bool {
    &&& v.votes_for >= 0
    &&& v.votes_against >= 0
    &&& v.votes_abstain >= 0
    &&& v.votes_for + v.votes_against + v.votes_abstain == v.already_participate.len()
}

/// The store is set up and its parts agree: each title is listed once and
/// names exactly the stored records, every tally adds up, and the
/// statistics count the open and the paused votes.
pub open spec fn consistent(s: StorageView) -> bool {
    &&& s.config is Some
    &&& s.stats is Some
    &&& s.config->Some_0.votes_titles.no_duplicates()
    &&& forall|t: Seq<char>|
        #[trigger] s.votes.contains_key(t) == s.config->Some_0.votes_titles.contains(t)
    &&& forall|t: Seq<char>| #[trigger] s.votes.contains_key(t) ==> tally_consistent(s.votes[t])
    &&& s.stats->Some_0.in_progress == count_in_state(s.config->Some_0.votes_titles, s.votes, false)
    &&& s.stats->Some_0.paused == count_in_state(s.config->Some_0.votes_titles, s.votes, true)
}

proof fn lemma_count_push(titles: Seq<Seq<char>>, votes: Map<Seq<char>, VoteView>, t: Seq<char>, paused: bool)
    ensures
        count_in_state(titles.push(t), votes, paused) == count_in_state(titles, votes, paused) + if votes[t].paused == paused {
            1int
        } else {
            0int
        },
{
    assert(titles.push(t).drop_last() =~= titles);
}

proof fn lemma_count_insert_absent(
    titles: Seq<Seq<char>>,
    votes: Map<Seq<char>, VoteView>,
    t: Seq<char>,
    v: VoteView,
    paused: bool,
)
    requires
        !titles.contains(t),
    ensures
        count_in_state(titles, votes.insert(t, v), paused) == count_in_state(titles, votes, paused),
    decreases titles.len(),
{
    if titles.len() > 0 {
        let rest = titles.drop_last();
        assert(!rest.contains(t)) by {
            if rest.contains(t) {
                let k = choose|k: int| 0 <= k < rest.len() && rest[k] == t;
                assert(titles[k] == t);
            }
        }
        assert(titles.last() != t) by {
            assert(titles[titles.len() - 1] == titles.last());
        }
        lemma_count_insert_absent(rest, votes, t, v, paused);
    }
}

proof fn lemma_count_insert_present(
    titles: Seq<Seq<char>>,
    votes: Map<Seq<char>, VoteView>,
    t: Seq<char>,
    v: VoteView,
    paused: bool,
)
    requires
        titles.no_duplicates(),
        titles.contains(t),
    ensures
        count_in_state(titles, votes.insert(t, v), paused) == count_in_state(titles, votes, paused)
            - (if votes[t].paused == paused { 1int } else { 0int })
            + (if v.paused == paused { 1int } else { 0int }),
    decreases titles.len(),
{
    let rest = titles.drop_last();
    let n = titles.len() - 1;
    assert(titles[n] == titles.last());
    if titles.last() == t {
        assert(!rest.contains(t)) by {
            if rest.contains(t) {
                let k = choose|k: int| 0 <= k < rest.len() && rest[k] == t;
                assert(titles[k] == titles[n]);
            }
        }
        lemma_count_insert_absent(rest, votes, t, v, paused);
    } else {
        assert(rest.contains(t)) by {
            let k = choose|k: int| 0 <= k < titles.len() && titles[k] == t;
            assert(k != n);
            assert(rest[k] == t);
        }
        assert(rest.no_duplicates()) by {
            assert forall|i: int, j: int| 0 <= i < rest.len() && 0 <= j < rest.len() && i != j implies rest[i] != rest[j] by {
                assert(titles[i] == rest[i] && titles[j] == rest[j]);
            }
        }
        lemma_count_insert_present(rest, votes, t, v, paused);
    }
}

/// Replacing the record of a listed title by one with the same pause flag
/// keeps the store consistent when the new record's tally adds up.
proof fn lemma_replace_same_state(s: StorageView, t: Seq<char>, v: VoteView)
    requires
        consistent(s),
        s.votes.contains_key(t),
        v.paused == s.votes[t].paused,
        tally_consistent(v),
    ensures
        consistent(StorageView { votes: s.votes.insert(t, v), ..s }),
{
    let titles = s.config->Some_0.votes_titles;
    lemma_count_insert_present(titles, s.votes, t, v, false);
    lemma_count_insert_present(titles, s.votes, t, v, true);
    let s2 = StorageView { votes: s.votes.insert(t, v), ..s };
    assert forall|k: Seq<char>| #[trigger] s2.votes.contains_key(k) implies tally_consistent(s2.votes[k]) by {
        if k != t {
            assert(s.votes.contains_key(k));
        }
    }
}

/// Opening a vote keeps the store consistent.
pub proof fn lemma_new_vote_keeps_consistent(
    s: StorageView,
    sender: Seq<char>,
    title: Seq<char>,
    min_votes_count: i32,
    required_votes_percentage: i32,
    whitelist_on: bool,
    whitelist: Seq<Seq<char>>,
    required_coins_on: bool,
    required_coins: CoinView,
)
    requires
        consistent(s),
    ensures
        new_vote_outcome(
            s,
            sender,
            title,
            min_votes_count,
            required_votes_percentage,
            whitelist_on,
            whitelist,
            required_coins_on,
            required_coins,
        ) matches Ok((s2, _)) ==> consistent(s2),
{
    let o = new_vote_outcome(
        s,
        sender,
        title,
        min_votes_count,
        required_votes_percentage,
        whitelist_on,
        whitelist,
        required_coins_on,
        required_coins,
    );
    if let Ok((s2, _)) = o {
        let titles = s.config->Some_0.votes_titles;
        let v = fresh_vote(
            sender,
            min_votes_count,
            required_votes_percentage,
            whitelist_on,
            whitelist,
            required_coins_on,
            required_coins,
        );
        let votes2 = s.votes.insert(title, v);
        assert(!titles.contains(title));
        lemma_count_insert_absent(titles, s.votes, title, v, false);
        lemma_count_insert_absent(titles, s.votes, title, v, true);
        lemma_count_push(titles, votes2, title, false);
        lemma_count_push(titles, votes2, title, true);
        let titles2 = titles.push(title);
        assert(titles2.no_duplicates()) by {
            assert forall|i: int, j: int| 0 <= i < titles2.len() && 0 <= j < titles2.len() && i != j implies titles2[i] != titles2[j] by {
                if i < titles.len() && j < titles.len() {
                    assert(titles[i] != titles[j]);
                } else if i < titles.len() {
                    assert(titles[i] != title);
                } else {
                    assert(titles[j] != title);
                }
            }
        }
        assert forall|k: Seq<char>| #[trigger] votes2.contains_key(k) == titles2.contains(k) by {
            if titles2.contains(k) && k != title {
                let i = choose|i: int| 0 <= i < titles2.len() && titles2[i] == k;
                assert(titles[i] == k);
            }
            if titles.contains(k) {
                let i = choose|i: int| 0 <= i < titles.len() && titles[i] == k;
                assert(titles2[i] == k);
            }
            if k == title {
                assert(titles2[titles.len() as int] == k);
            }
        }
        assert(v.already_participate.len() == 0);
    }
}

/// A successful ballot keeps the store consistent: in particular the
/// counters of the vote still add up to the number of its voters.
pub proof fn lemma_ballot_keeps_consistent(
    s: StorageView,
    voter: Seq<char>,
    funds: Seq<CoinView>,
    choice: Seq<char>,
    title: Seq<char>,
)
    requires
        consistent(s),
    ensures
        ballot_outcome(s, voter, funds, choice, title) matches Ok((s2, _)) ==> consistent(s2),
{
    if ballot_error(s, voter, funds, choice, title) is None {
        let v = s.votes[title];
        let b = ballot_of(choice)->Some_0;
        lemma_replace_same_state(s, title, cast_ballot(v, voter, b));
    }
}

/// Pausing a vote keeps the store consistent.
pub proof fn lemma_pause_keeps_consistent(s: StorageView, sender: Seq<char>, title: Seq<char>)
    requires
        consistent(s),
    ensures
        pause_outcome(s, sender, title) matches Ok((s2, _)) ==> consistent(s2),
{
    if admin_vote_error(s, sender, title) is None && !s.votes[title].paused {
        let titles = s.config->Some_0.votes_titles;
        let v = VoteView { paused: true, ..s.votes[title] };
        lemma_count_insert_present(titles, s.votes, title, v, false);
        lemma_count_insert_present(titles, s.votes, title, v, true);
        let votes2 = s.votes.insert(title, v);
        assert forall|k: Seq<char>| #[trigger] votes2.contains_key(k) implies tally_consistent(votes2[k]) by {
            if k != title {
                assert(s.votes.contains_key(k));
            }
        }
    }
}

/// Opening a paused vote again keeps the store consistent.
pub proof fn lemma_unpause_keeps_consistent(s: StorageView, sender: Seq<char>, title: Seq<char>)
    requires
        consistent(s),
    ensures
        unpause_outcome(s, sender, title) matches Ok((s2, _)) ==> consistent(s2),
{
    if admin_vote_error(s, sender, title) is None && s.votes[title].paused {
        let titles = s.config->Some_0.votes_titles;
        let v = VoteView { paused: false, ..s.votes[title] };
        lemma_count_insert_present(titles, s.votes, title, v, false);
        lemma_count_insert_present(titles, s.votes, title, v, true);
        let votes2 = s.votes.insert(title, v);
        assert forall|k: Seq<char>| #[trigger] votes2.contains_key(k) implies tally_consistent(votes2[k]) by {
            if k != title {
                assert(s.votes.contains_key(k));
            }
        }
    }
}

/// Turning a whitelist on or off keeps the store consistent.
pub proof fn lemma_toggle_whitelist_keeps_consistent(s: StorageView, sender: Seq<char>, title: Seq<char>)
    requires
        consistent(s),
    ensures
        toggle_whitelist_outcome(s, sender, title) matches Ok((s2, _)) ==> consistent(s2),
{
    if admin_vote_error(s, sender, title) is None {
        let v = s.votes[title];
        lemma_replace_same_state(s, title, VoteView { whitelist_on: !v.whitelist_on, ..v });
    }
}

/// Turning a coin gate on or off keeps the store consistent.
pub proof fn lemma_toggle_coin_keeps_consistent(s: StorageView, sender: Seq<char>, title: Seq<char>)
    requires
        consistent(s),
    ensures
        toggle_coin_outcome(s, sender, title) matches Ok((s2, _)) ==> consistent(s2),
{
    if admin_vote_error(s, sender, title) is None {
        let v = s.votes[title];
        lemma_replace_same_state(s, title, VoteView { required_coins_on: !v.required_coins_on, ..v });
    }
}

/// Every state-changing message keeps a consistent store consistent.
pub proof fn lemma_execute_keeps_consistent(s: StorageView, sender: Seq<char>, funds: Seq<CoinView>, msg: ExecuteMsg)
    requires
        consistent(s),
    ensures
        execute_outcome(s, sender, funds, msg) matches Ok((s2, _)) ==> consistent(s2),
{
    match msg {
        ExecuteMsg::CreateNewVote {
            title,
            min_votes_count,
            required_votes_percentage,
            whitelist_on,
            whitelist,
            required_coins_on,
            required_coin,
        } => lemma_new_vote_keeps_consistent(
            s,
            sender,
            title@,
            min_votes_count,
            required_votes_percentage,
            whitelist_on,
            crate::types::addrs(whitelist@),
            required_coins_on,
            required_coin@,
        ),
        ExecuteMsg::Vote { vote, title } => lemma_ballot_keeps_consistent(s, sender, funds, vote@, title@),
        ExecuteMsg::Pause { title } => lemma_pause_keeps_consistent(s, sender, title@),
        ExecuteMsg::Unpause { title } => lemma_unpause_keeps_consistent(s, sender, title@),
        ExecuteMsg::ToogleWhitelist { title } => lemma_toggle_whitelist_keeps_consistent(s, sender, title@),
        ExecuteMsg::ToogleRequiredCoin { title } => lemma_toggle_coin_keeps_consistent(s, sender, title@),
    }
}

} // verus!
