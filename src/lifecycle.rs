//! Laws of ballots and of pausing that hold of every store.
use vstd::prelude::*;
use crate::consistency::consistent;
use crate::contract::execute_outcome;
use crate::errors::ContractError;
use crate::execute::{admin_vote_error, ballot_error, ballot_outcome, new_vote_outcome, pause_outcome};
use crate::state::{Stats, StorageView, VoteView};
use crate::types::{CoinView, ExecuteMsg};

verus! {

/// A principal recorded as a voter of a vote can cast no ballot on it, on
/// any choice and with any funds, whatever its whitelist and coin gate.
pub proof fn lemma_voter_cannot_vote_again(
    s: StorageView,
    voter: Seq<char>,
    funds: Seq<CoinView>,
    choice: Seq<char>,
    title: Seq<char>,
)
    requires
        s.votes.contains_key(title),
        s.votes[title].already_participate.contains(voter),
    ensures
        ballot_outcome(s, voter, funds, choice, title) == Err::<(StorageView, Seq<char>), ContractError>(
            ContractError::VoterAlreadyParticipate {},
        ),
{
}

/// Once a ballot of a principal on a vote succeeded, its next ballot on that
/// vote fails, on any choice and with any funds.
pub proof fn lemma_second_ballot_refused(
    s: StorageView,
    voter: Seq<char>,
    funds: Seq<CoinView>,
    choice: Seq<char>,
    later_funds: Seq<CoinView>,
    later_choice: Seq<char>,
    title: Seq<char>,
)
    requires
        ballot_outcome(s, voter, funds, choice, title) is Ok,
    ensures
        ballot_outcome(ballot_outcome(s, voter, funds, choice, title)->Ok_0.0, voter, later_funds, later_choice, title)
            == Err::<(StorageView, Seq<char>), ContractError>(ContractError::VoterAlreadyParticipate {}),
{
    let s2 = ballot_outcome(s, voter, funds, choice, title)->Ok_0.0;
    let list = s2.votes[title].already_participate;
    assert(list[list.len() - 1] == voter);
    lemma_voter_cannot_vote_again(s2, voter, later_funds, later_choice, title);
}

/// No message removes a vote or a voter of a vote: who has voted stays
/// recorded as a voter.
pub proof fn lemma_voters_stay_recorded(
    s: StorageView,
    sender: Seq<char>,
    funds: Seq<CoinView>,
    msg: ExecuteMsg,
    voter: Seq<char>,
    title: Seq<char>,
)
    requires
        consistent(s),
        s.votes.contains_key(title),
        s.votes[title].already_participate.contains(voter),
    ensures
        execute_outcome(s, sender, funds, msg) matches Ok((s2, _)) ==> s2.votes.contains_key(title)
            && s2.votes[title].already_participate.contains(voter),
{
    let list = s.votes[title].already_participate;
    let k = choose|k: int| 0 <= k < list.len() && list[k] == voter;
    if let Ok((s2, _)) = execute_outcome(s, sender, funds, msg) {
        match msg {
            ExecuteMsg::CreateNewVote { title: t, .. } => {
                assert(t@ != title);
            },
            ExecuteMsg::Vote { title: t, .. } => {
                if t@ == title {
                    let list2 = s2.votes[title].already_participate;
                    assert(list2[k] == list[k]);
                }
            },
            _ => {},
        }
    }
}

/// A ballot on a paused vote fails with a conflict of state, whoever casts
/// it: the vote is paused, or the voter has already voted.
pub proof fn lemma_paused_vote_refuses_ballots(
    s: StorageView,
    voter: Seq<char>,
    funds: Seq<CoinView>,
    choice: Seq<char>,
    title: Seq<char>,
)
    requires
        s.votes.contains_key(title),
        s.votes[title].paused,
    ensures
        s.votes[title].already_participate.contains(voter) ==> ballot_outcome(s, voter, funds, choice, title)
            == Err::<(StorageView, Seq<char>), ContractError>(ContractError::VoterAlreadyParticipate {}),
        !s.votes[title].already_participate.contains(voter) ==> ballot_outcome(s, voter, funds, choice, title)
            == Err::<(StorageView, Seq<char>), ContractError>(ContractError::VoteIsPaused {}),
{
}

/// Where the whitelist of an open vote is on, it lets its members and the
/// owner through as if it were off, and stops every other new voter.
pub proof fn lemma_whitelist_gate(
    s: StorageView,
    voter: Seq<char>,
    funds: Seq<CoinView>,
    choice: Seq<char>,
    title: Seq<char>,
)
    requires
        s.config is Some,
        s.votes.contains_key(title),
        s.votes[title].whitelist_on,
        !s.votes[title].paused,
        !s.votes[title].already_participate.contains(voter),
    ensures
        ({
            let v = s.votes[title];
            let open = StorageView { votes: s.votes.insert(title, VoteView { whitelist_on: false, ..v }), ..s };
            if v.whitelist.contains(voter) || voter == s.config->Some_0.owner {
                ballot_error(s, voter, funds, choice, title) == ballot_error(open, voter, funds, choice, title)
            } else {
                ballot_error(s, voter, funds, choice, title) == Some(ContractError::SenderIsNotWhitelisted {})
            }
        }),
{
}

/// Opening a vote whose passing percentage lies outside 0 to 100 fails with
/// `WrongVotesPercentage`, so the store, its list of titles and its records
/// stay as they were.
pub proof fn lemma_bad_percentage_registers_nothing(
    s: StorageView,
    sender: Seq<char>,
    title: Seq<char>,
    min_votes_count: i32,
    required_votes_percentage: i32,
    whitelist_on: bool,
    whitelist: Seq<Seq<char>>,
    required_coins_on: bool,
    required_coins: CoinView,
)
    requires
        required_votes_percentage < 0 || required_votes_percentage > 100,
    ensures
        new_vote_outcome(
            s,
            sender,
            title,
            min_votes_count,
            required_votes_percentage,
            whitelist_on,
            whitelist,
            required_coins_on,
            required_coins,
        ) == Err::<(StorageView, Seq<char>), ContractError>(ContractError::WrongVotesPercentage {}),
{
}

/// Pausing an open vote moves exactly one unit from the votes in progress
/// to the paused ones; pausing it again leaves every counter as it is.
pub proof fn lemma_pause_moves_one_unit(s: StorageView, sender: Seq<char>, title: Seq<char>)
    requires
        admin_vote_error(s, sender, title) is None,
        !s.votes[title].paused,
        s.stats is Some,
        s.stats->Some_0.in_progress > i32::MIN,
        s.stats->Some_0.paused < i32::MAX,
    ensures
        pause_outcome(s, sender, title) is Ok,
        ({
            let s2 = pause_outcome(s, sender, title)->Ok_0.0;
            let before = s.stats->Some_0;
            &&& s2 == (StorageView {
                stats: Some(
                    Stats { in_progress: (before.in_progress - 1) as i32, paused: (before.paused + 1) as i32, ..before },
                ),
                votes: s.votes.insert(title, VoteView { paused: true, ..s.votes[title] }),
                ..s
            })
            &&& pause_outcome(s2, sender, title) == Ok::<(StorageView, Seq<char>), ContractError>(
                (s2, "voting is already paused"@),
            )
        }),
{
}

} // verus!
