use vstd::prelude::*;
use crate::guards::{already_participate, config_missing, is_admin, is_owner, is_vote, is_whitelisted};
use crate::errors::{ContractError, StdError, StoredKind};
use crate::state::{
    may_load_vote, store_vote, update_config, update_vote, Config, ConfigView, Storage,
    StorageView, VoteStatus, VoteView,
};
use crate::stats::{add_new_vote, overflow, set_to_paused, set_to_un_paused, stats_after_new, stats_after_pause, stats_after_unpause};
use crate::consistency::{
    consistent, lemma_ballot_keeps_consistent, lemma_new_vote_keeps_consistent,
    lemma_pause_keeps_consistent, lemma_toggle_coin_keeps_consistent,
    lemma_toggle_whitelist_keeps_consistent, lemma_unpause_keeps_consistent,
};
use crate::types::{addrs, coin_views, Addr, Coin, CoinView, MessageInfo, Response};

verus! {

/// The three choices a ballot can carry.
#[derive(Clone, Copy, Debug, PartialEq, Eq, Structural)]
pub enum Ballot {
    For,
    Against,
    Abstain,
}

/// What an operation does to the store: the store it leaves and the text of
/// its `action` attribute, or its error.
pub type Outcome = Result<(StorageView, Seq<char>), ContractError>;

/// The attributes of a response that reports `act` as its action.
pub open spec fn action_response(act: Seq<char>) -> Seq<(Seq<char>, Seq<char>)> {
    seq![("action"@, act)]
}

/// `after` and `r` are what the outcome `o` prescribes for a call on
/// `before`: on an error the store is left as it was.
pub open spec fn applied(
    before: StorageView,
    after: StorageView,
    r: Result<Response, ContractError>,
    o: Outcome,
) -> bool {
    match o {
        Ok((s, act)) => r is Ok && r->Ok_0@ == action_response(act) && after == s,
        Err(e) => r == Err::<Response, ContractError>(e) && after == before,
    }
}

/// The owner and the admins hold the rights to administer votes.
pub open spec fn has_elevated_rights(c: ConfigView, p: Seq<char>) -> bool {
    p == c.owner || c.admins.contains(p)
}

/// The error, if any, of an administrative action of `sender` on the vote
/// titled `title`.
pub open spec fn admin_vote_error(s: StorageView, sender: Seq<char>, title: Seq<char>) -> Option<ContractError> {
    if s.config is None {
        Some(config_missing())
    } else if !has_elevated_rights(s.config->Some_0, sender) {
        Some(ContractError::SenderIsNotAdmin {})
    } else if !s.votes.contains_key(title) {
        Some(ContractError::CannotFindVote {})
    } else {
        None
    }
}

/// The error of a read of missing statistics.
pub open spec fn stats_missing() -> ContractError {
    ContractError::Std(StdError::NotFound { kind: StoredKind::Stats })
}

/// The record of a vote just opened by `creator`.
pub open spec fn fresh_vote(
    creator: Seq<char>,
    min_votes_count: i32,
    required_votes_percentage: i32,
    whitelist_on: bool,
    whitelist: Seq<Seq<char>>,
    required_coins_on: bool,
    required_coins: CoinView,
) -> VoteView {
    VoteView {
        paused: false,
        votes_for: 0,
        votes_against: 0,
        votes_abstain: 0,
        creator,
        min_votes_count,
        required_votes_percentage,
        already_participate: Seq::empty(),
        whitelist_on,
        whitelist,
        required_coins_on,
        required_coins,
    }
}

/// Opening a vote: the rules are checked, then the rights of the sender,
/// then that the title is neither listed nor holds a record; the title is appended to the list of titles,
/// the record is stored and one more vote counts as in progress.
pub open spec fn new_vote_outcome(
    s: StorageView,
    sender: Seq<char>,
    title: Seq<char>,
    min_votes_count: i32,
    required_votes_percentage: i32,
    whitelist_on: bool,
    whitelist: Seq<Seq<char>>,
    required_coins_on: bool,
    required_coins: CoinView,
) -> Outcome {
    if required_votes_percentage < 0 || required_votes_percentage > 100 {
        Err(ContractError::WrongVotesPercentage {})
    } else if min_votes_count < 0 {
        Err(ContractError::VoteCountCannotBeNegative {})
    } else if s.config is None {
        Err(config_missing())
    } else if !has_elevated_rights(s.config->Some_0, sender) {
        Err(ContractError::SenderIsNotAdmin {})
    } else if s.config->Some_0.votes_titles.contains(title) || s.votes.contains_key(title) {
        Err(ContractError::VoteAlreadyExist {})
    } else if s.stats is None {
        Err(stats_missing())
    } else {
        match stats_after_new(s.stats->Some_0) {
            Err(e) => Err(e),
            Ok(n) => {
                let c = s.config->Some_0;
                Ok(
                    (
                        StorageView {
                            config: Some(ConfigView { votes_titles: c.votes_titles.push(title), ..c }),
                            stats: Some(n),
                            votes: s.votes.insert(
                                title,
                                fresh_vote(
                                    sender,
                                    min_votes_count,
                                    required_votes_percentage,
                                    whitelist_on,
                                    whitelist,
                                    required_coins_on,
                                    required_coins,
                                ),
                            ),
                        },
                        "Added"@,
                    ),
                )
            },
        }
    }
}

/// `i` is the first position of `funds` in the asset `denom`.
pub open spec fn first_with_denom(funds: Seq<CoinView>, denom: Seq<char>, i: int) -> bool {
    0 <= i < funds.len() && funds[i].denom == denom && forall|j: int|
        0 <= j < i ==> #[trigger] funds[j].denom != denom
}

/// The first of `funds` in the asset of `required` holds at least its
/// amount.
pub open spec fn funds_cover(required: CoinView, funds: Seq<CoinView>) -> bool {
    exists|i: int| #[trigger] first_with_denom(funds, required.denom, i) && funds[i].amount >= required.amount
}

/// A ballot with `funds` attached passes the coin gate of `v`.
pub open spec fn meets_funding(v: VoteView, funds: Seq<CoinView>) -> bool {
    !v.required_coins_on || funds_cover(v.required_coins, funds)
}

/// The choice that a ballot's text names, if any.
pub open spec fn ballot_of(choice: Seq<char>) -> Option<Ballot> {
    if choice == "For"@ {
        Some(Ballot::For)
    } else if choice == "Against"@ {
        Some(Ballot::Against)
    } else if choice == "Abstain"@ {
        Some(Ballot::Abstain)
    } else {
        None
    }
}

/// The counter of `v` that a ballot for `b` raises is at its maximum.
pub open spec fn tally_full(v: VoteView, b: Ballot) -> bool {
    match b {
        Ballot::For => v.votes_for == i32::MAX,
        Ballot::Against => v.votes_against == i32::MAX,
        Ballot::Abstain => v.votes_abstain == i32::MAX,
    }
}

/// The record once `voter` has cast a ballot for `b`: one counter is raised
/// by one and the voter is recorded.
pub open spec fn cast_ballot(v: VoteView, voter: Seq<char>, b: Ballot) -> VoteView {
    let counted = match b {
        Ballot::For => VoteView { votes_for: (v.votes_for + 1) as i32, ..v },
        Ballot::Against => VoteView { votes_against: (v.votes_against + 1) as i32, ..v },
        Ballot::Abstain => VoteView { votes_abstain: (v.votes_abstain + 1) as i32, ..v },
    };
    VoteView { already_participate: v.already_participate.push(voter), ..counted }
}

/// The action text of a ballot for `b`.
pub open spec fn ballot_action(b: Ballot) -> Seq<char> {
    match b {
        Ballot::For => "execute vote for"@,
        Ballot::Against => "execute vote against"@,
        Ballot::Abstain => "execute vote abstain"@,
    }
}

/// The first check that a ballot fails, in the order: the vote exists, the
/// voter has not voted, the vote is not paused, the voter is whitelisted or
/// the owner where the whitelist is on, the funds cover the coin gate, the
/// choice is valid, and its counter has room.
pub open spec fn ballot_error(
    s: StorageView,
    voter: Seq<char>,
    funds: Seq<CoinView>,
    choice: Seq<char>,
    title: Seq<char>,
) -> Option<ContractError> {
    if !s.votes.contains_key(title) {
        Some(ContractError::CannotFindVote {})
    } else {
        let v = s.votes[title];
        if v.already_participate.contains(voter) {
            Some(ContractError::VoterAlreadyParticipate {})
        } else if v.paused {
            Some(ContractError::VoteIsPaused {})
        } else if v.whitelist_on && !v.whitelist.contains(voter) && s.config is None {
            Some(config_missing())
        } else if v.whitelist_on && !v.whitelist.contains(voter) && voter != s.config->Some_0.owner {
            Some(ContractError::SenderIsNotWhitelisted {})
        } else if !meets_funding(v, funds) {
            Some(ContractError::SenderDoNotHaveEnoughAmount {})
        } else if ballot_of(choice) is None {
            Some(ContractError::VoteNotValid {})
        } else if tally_full(v, ballot_of(choice)->Some_0) {
            Some(overflow())
        } else {
            None
        }
    }
}

/// Casting a ballot: on success the vote's record is the only change.
pub open spec fn ballot_outcome(
    s: StorageView,
    voter: Seq<char>,
    funds: Seq<CoinView>,
    choice: Seq<char>,
    title: Seq<char>,
) -> Outcome {
    match ballot_error(s, voter, funds, choice, title) {
        Some(e) => Err(e),
        None => {
            let b = ballot_of(choice)->Some_0;
            Ok(
                (
                    StorageView { votes: s.votes.insert(title, cast_ballot(s.votes[title], voter, b)), ..s },
                    ballot_action(b),
                ),
            )
        },
    }
}

/// Pausing a vote: a paused vote is left as it is; otherwise it is paused
/// and one vote moves from in progress to paused.
pub open spec fn pause_outcome(s: StorageView, sender: Seq<char>, title: Seq<char>) -> Outcome {
    match admin_vote_error(s, sender, title) {
        Some(e) => Err(e),
        None => {
            let v = s.votes[title];
            if v.paused {
                Ok((s, "voting is already paused"@))
            } else if s.stats is None {
                Err(stats_missing())
            } else {
                match stats_after_pause(s.stats->Some_0) {
                    Err(e) => Err(e),
                    Ok(n) => Ok(
                        (
                            StorageView {
                                stats: Some(n),
                                votes: s.votes.insert(title, VoteView { paused: true, ..v }),
                                ..s
                            },
                            "execute pause"@,
                        ),
                    ),
                }
            }
        },
    }
}

/// Opening a paused vote again: an open vote is left as it is; otherwise
/// it is opened and one vote moves from paused to in progress.
pub open spec fn unpause_outcome(s: StorageView, sender: Seq<char>, title: Seq<char>) -> Outcome {
    match admin_vote_error(s, sender, title) {
        Some(e) => Err(e),
        None => {
            let v = s.votes[title];
            if !v.paused {
                Ok((s, "voting is already unpaused"@))
            } else if s.stats is None {
                Err(stats_missing())
            } else {
                match stats_after_unpause(s.stats->Some_0) {
                    Err(e) => Err(e),
                    Ok(n) => Ok(
                        (
                            StorageView {
                                stats: Some(n),
                                votes: s.votes.insert(title, VoteView { paused: false, ..v }),
                                ..s
                            },
                            "execute unpause"@,
                        ),
                    ),
                }
            }
        },
    }
}

/// Turning the whitelist of a vote on or off.
pub open spec fn toggle_whitelist_outcome(s: StorageView, sender: Seq<char>, title: Seq<char>) -> Outcome {
    match admin_vote_error(s, sender, title) {
        Some(e) => Err(e),
        None => {
            let v = s.votes[title];
            Ok(
                (
                    StorageView { votes: s.votes.insert(title, VoteView { whitelist_on: !v.whitelist_on, ..v }), ..s },
                    "execute toogle whitelist"@,
                ),
            )
        },
    }
}

/// Turning the coin gate of a vote on or off.
pub open spec fn toggle_coin_outcome(s: StorageView, sender: Seq<char>, title: Seq<char>) -> Outcome {
    match admin_vote_error(s, sender, title) {
        Some(e) => Err(e),
        None => {
            let v = s.votes[title];
            Ok(
                (
                    StorageView {
                        votes: s.votes.insert(title, VoteView { required_coins_on: !v.required_coins_on, ..v }),
                        ..s
                    },
                    "execute toogle required coin"@,
                ),
            )
        },
    }
}

/// Fails unless `sender` is the owner or an admin.
fn require_elevated_rights(storage: &Storage, sender: &Addr) -> (r: Result<(), ContractError>)
    ensures
        match storage@.config {
            None => r == Err::<(), ContractError>(config_missing()),
            Some(c) => if has_elevated_rights(c, sender@) {
                r is Ok
            } else {
                r == Err::<(), ContractError>(ContractError::SenderIsNotAdmin {})
            },
        },
{
    let owner = match is_owner(storage, sender.clone()) {
        Ok(b) => b,
        Err(e) => {
            return Err(e);
        },
    };
    if !owner {
        let admin = match is_admin(storage, sender.clone()) {
            Ok(b) => b,
            Err(e) => {
                return Err(e);
            },
        };
        if !admin {
            return Err(ContractError::SenderIsNotAdmin {});
        }
    }
    Ok(())
}

/// Opens a vote titled `title` with the given rules, on behalf of the
/// sender of `info`.
pub fn execute_new_vote(
    storage: &mut Storage,
    info: MessageInfo,
    title: String,
    min_votes_count: i32,
    required_votes_percentage: i32,
    whitelist_on: bool,
    whitelist: Vec<Addr>,
    required_coins_on: bool,
    required_coins: Coin,
) -> (r: Result<Response, ContractError>)
    requires
        old(storage).wf(),
    ensures
        final(storage).wf(),
        applied(
            old(storage)@,
            final(storage)@,
            r,
            new_vote_outcome(
                old(storage)@,
                info.sender@,
                title@,
                min_votes_count,
                required_votes_percentage,
                whitelist_on,
                addrs(whitelist@),
                required_coins_on,
                required_coins@,
            ),
        ),
        consistent(old(storage)@) ==> consistent(final(storage)@),
{
    proof {
        if consistent(old(storage)@) {
            lemma_new_vote_keeps_consistent(
                storage@,
                info.sender@,
                title@,
                min_votes_count,
                required_votes_percentage,
                whitelist_on,
                addrs(whitelist@),
                required_coins_on,
                required_coins@,
            );
        }
    }
    if required_votes_percentage > 100 || required_votes_percentage < 0 {
        return Err(ContractError::WrongVotesPercentage {});
    }
    if min_votes_count < 0 {
        return Err(ContractError::VoteCountCannotBeNegative {});
    }
    match require_elevated_rights(storage, &info.sender) {
        Ok(()) => {},
        Err(e) => {
            return Err(e);
        },
    }
    let exists = match is_vote(storage, title.clone()) {
        Ok(b) => b,
        Err(e) => {
            return Err(e);
        },
    };
    if exists {
        return Err(ContractError::VoteAlreadyExist {});
    }
    match may_load_vote(storage, &title) {
        Ok(None) => {},
        _ => {
            return Err(ContractError::VoteAlreadyExist {});
        },
    }
    match add_new_vote(storage) {
        Ok(_) => {},
        Err(e) => {
            return Err(e);
        },
    }
    let new_title = title.clone();
    let append = move |config: Config| -> (res: Result<Config, ContractError>)
        ensures
            res is Ok,
            res->Ok_0@ == (ConfigView { votes_titles: config@.votes_titles.push(new_title@), ..config@ }),
    {
        let mut c = config;
        let ghost before = c.votes_titles@;
        c.votes_titles.push(new_title);
        assert(addrs(c.votes_titles@) =~= addrs(before).push(new_title@));
        Ok(c)
    };
    let _ = update_config(storage, append);
    let vote = VoteStatus {
        creator: info.sender,
        paused: false,
        votes_for: 0,
        votes_against: 0,
        votes_abstain: 0,
        required_coins_on,
        required_coins,
        min_votes_count,
        required_votes_percentage,
        already_participate: Vec::new(),
        whitelist_on,
        whitelist,
    };
    assert(vote@.already_participate =~= Seq::<Seq<char>>::empty());
    let _ = store_vote(storage, &title, vote);
    Ok(Response::new().add_attribute("action", "Added"))
}

/// Whether the first of `funds` in the asset of `required` holds at least
/// its amount.
pub fn has_required_funds(required: &Coin, funds: &Vec<Coin>) -> (r: bool)
    ensures
        r == funds_cover(required@, coin_views(funds@)),
{
    let ghost fs = coin_views(funds@);
    let mut i: usize = 0;
    while i < funds.len()
        invariant
            i <= funds@.len(),
            fs == coin_views(funds@),
            forall|j: int| 0 <= j < i ==> #[trigger] fs[j].denom != required@.denom,
        decreases funds@.len() - i,
    {
        if funds[i].denom == required.denom {
            assert(first_with_denom(fs, required@.denom, i as int));
            let enough = funds[i].amount >= required.amount;
            assert(!enough ==> !funds_cover(required@, fs)) by {
                if funds_cover(required@, fs) {
                    let k = choose|k: int| #[trigger] first_with_denom(fs, required@.denom, k) && fs[k].amount >= required@.amount;
                    if k < i {
                        assert(fs[k].denom != required@.denom);
                    } else if k > i {
                        assert(fs[i as int].denom != required@.denom);
                    }
                }
            }
            return enough;
        }
        i = i + 1;
    }
    assert(!funds_cover(required@, fs)) by {
        if funds_cover(required@, fs) {
            let k = choose|k: int| #[trigger] first_with_denom(fs, required@.denom, k) && fs[k].amount >= required@.amount;
            assert(fs[k].denom != required@.denom);
        }
    }
    false
}

/// The choice that a ballot's text names, if any.
pub fn parse_ballot(choice: &String) -> (r: Option<Ballot>)
    ensures
        r == ballot_of(choice@),
{
    if *choice == "For".to_owned() {
        Some(Ballot::For)
    } else if *choice == "Against".to_owned() {
        Some(Ballot::Against)
    } else if *choice == "Abstain".to_owned() {
        Some(Ballot::Abstain)
    } else {
        None
    }
}

/// Counts a ballot of `sender` for `ballot` on the vote titled `title`.
fn record_ballot(storage: &mut Storage, sender: Addr, title: &String, ballot: Ballot) -> (r: Result<Response, ContractError>)
    requires
        old(storage).wf(),
        old(storage)@.votes.contains_key(title@),
    ensures
        final(storage).wf(),
        ({
            let v = old(storage)@.votes[title@];
            if tally_full(v, ballot) {
                r == Err::<Response, ContractError>(overflow()) && final(storage)@ == old(storage)@
            } else {
                r is Ok && r->Ok_0@ == action_response(ballot_action(ballot))
                    && final(storage)@ == (StorageView {
                        votes: old(storage)@.votes.insert(title@, cast_ballot(v, sender@, ballot)),
                        ..old(storage)@
                    })
            }
        }),
{
    let ghost voter = sender@;
    let count = move |current: Option<VoteStatus>| -> (res: Result<VoteStatus, ContractError>)
        requires
            current is Some,
        ensures
            tally_full(current->Some_0@, ballot) ==> res == Err::<VoteStatus, ContractError>(overflow()),
            !tally_full(current->Some_0@, ballot) ==> res is Ok && res->Ok_0@ == cast_ballot(current->Some_0@, voter, ballot),
    {
        let mut v = current.unwrap();
        let ghost before = v@;
        match ballot {
            Ballot::For => {
                if v.votes_for == i32::MAX {
                    return Err(ContractError::Std(StdError::Overflow {}));
                }
                v.votes_for = v.votes_for + 1;
            },
            Ballot::Against => {
                if v.votes_against == i32::MAX {
                    return Err(ContractError::Std(StdError::Overflow {}));
                }
                v.votes_against = v.votes_against + 1;
            },
            Ballot::Abstain => {
                if v.votes_abstain == i32::MAX {
                    return Err(ContractError::Std(StdError::Overflow {}));
                }
                v.votes_abstain = v.votes_abstain + 1;
            },
        }
        let ghost list = v.already_participate@;
        v.already_participate.push(sender);
        assert(addrs(v.already_participate@) =~= addrs(list).push(voter));
        Ok(v)
    };
    match update_vote(storage, title, count) {
        Ok(_) => {},
        Err(e) => {
            return Err(e);
        },
    }
    match ballot {
        Ballot::For => Ok(Response::new().add_attribute("action", "execute vote for")),
        Ballot::Against => Ok(Response::new().add_attribute("action", "execute vote against")),
        Ballot::Abstain => Ok(Response::new().add_attribute("action", "execute vote abstain")),
    }
}

/// Casts the ballot `user_vote` of the sender of `info` on the vote titled
/// `title`, with the funds attached to `info`.
pub fn execute_vote(storage: &mut Storage, info: MessageInfo, user_vote: String, title: String) -> (r: Result<Response, ContractError>)
    requires
        old(storage).wf(),
    ensures
        final(storage).wf(),
        applied(
            old(storage)@,
            final(storage)@,
            r,
            ballot_outcome(old(storage)@, info.sender@, coin_views(info.funds@), user_vote@, title@),
        ),
        consistent(old(storage)@) ==> consistent(final(storage)@),
{
    proof {
        if consistent(old(storage)@) {
            lemma_ballot_keeps_consistent(storage@, info.sender@, coin_views(info.funds@), user_vote@, title@);
        }
    }
    let vote = match may_load_vote(storage, &title) {
        Ok(Some(v)) => v,
        Ok(None) => {
            return Err(ContractError::CannotFindVote {});
        },
        Err(e) => {
            return Err(ContractError::Std(e));
        },
    };
    match already_participate(vote.clone(), info.sender.clone()) {
        Ok(true) => {
            return Err(ContractError::VoterAlreadyParticipate {});
        },
        _ => {},
    }
    if vote.paused {
        return Err(ContractError::VoteIsPaused {});
    }
    if vote.whitelist_on {
        match is_whitelisted(vote.clone(), info.sender.clone()) {
            Ok(true) => {},
            _ => {
                let owner = match is_owner(storage, info.sender.clone()) {
                    Ok(b) => b,
                    Err(e) => {
                        return Err(e);
                    },
                };
                if !owner {
                    return Err(ContractError::SenderIsNotWhitelisted {});
                }
            },
        }
    }
    if vote.required_coins_on {
        if !has_required_funds(&vote.required_coins, &info.funds) {
            return Err(ContractError::SenderDoNotHaveEnoughAmount {});
        }
    }
    match parse_ballot(&user_vote) {
        Some(b) => record_ballot(storage, info.sender, &title, b),
        None => Err(ContractError::VoteNotValid {}),
    }
}

/// Pauses the vote titled `title`; pausing a paused vote changes nothing.
pub fn execute_pause(storage: &mut Storage, info: MessageInfo, title: String) -> (r: Result<Response, ContractError>)
    requires
        old(storage).wf(),
    ensures
        final(storage).wf(),
        applied(old(storage)@, final(storage)@, r, pause_outcome(old(storage)@, info.sender@, title@)),
        consistent(old(storage)@) ==> consistent(final(storage)@),
{
    proof {
        if consistent(old(storage)@) {
            lemma_pause_keeps_consistent(storage@, info.sender@, title@);
        }
    }
    match require_elevated_rights(storage, &info.sender) {
        Ok(()) => {},
        Err(e) => {
            return Err(e);
        },
    }
    let vote = match may_load_vote(storage, &title) {
        Ok(Some(v)) => v,
        Ok(None) => {
            return Err(ContractError::CannotFindVote {});
        },
        Err(e) => {
            return Err(ContractError::Std(e));
        },
    };
    if vote.paused {
        return Ok(Response::new().add_attribute("action", "voting is already paused"));
    }
    match set_to_paused(storage) {
        Ok(_) => {},
        Err(e) => {
            return Err(e);
        },
    }
    let flip = |current: Option<VoteStatus>| -> (res: Result<VoteStatus, ContractError>)
        requires
            current is Some,
        ensures
            res is Ok,
            res->Ok_0@ == (VoteView { paused: true, ..current->Some_0@ }),
    {
        let mut v = current.unwrap();
        v.paused = true;
        Ok(v)
    };
    let _ = update_vote(storage, &title, flip);
    Ok(Response::new().add_attribute("action", "execute pause"))
}

/// Opens the paused vote titled `title` again; opening an open vote changes
/// nothing.
pub fn execute_unpause(storage: &mut Storage, info: MessageInfo, title: String) -> (r: Result<Response, ContractError>)
    requires
        old(storage).wf(),
    ensures
        final(storage).wf(),
        applied(old(storage)@, final(storage)@, r, unpause_outcome(old(storage)@, info.sender@, title@)),
        consistent(old(storage)@) ==> consistent(final(storage)@),
{
    proof {
        if consistent(old(storage)@) {
            lemma_unpause_keeps_consistent(storage@, info.sender@, title@);
        }
    }
    match require_elevated_rights(storage, &info.sender) {
        Ok(()) => {},
        Err(e) => {
            return Err(e);
        },
    }
    let vote = match may_load_vote(storage, &title) {
        Ok(Some(v)) => v,
        Ok(None) => {
            return Err(ContractError::CannotFindVote {});
        },
        Err(e) => {
            return Err(ContractError::Std(e));
        },
    };
    if !vote.paused {
        return Ok(Response::new().add_attribute("action", "voting is already unpaused"));
    }
    match set_to_un_paused(storage) {
        Ok(_) => {},
        Err(e) => {
            return Err(e);
        },
    }
    let flip = |current: Option<VoteStatus>| -> (res: Result<VoteStatus, ContractError>)
        requires
            current is Some,
        ensures
            res is Ok,
            res->Ok_0@ == (VoteView { paused: false, ..current->Some_0@ }),
    {
        let mut v = current.unwrap();
        v.paused = false;
        Ok(v)
    };
    let _ = update_vote(storage, &title, flip);
    Ok(Response::new().add_attribute("action", "execute unpause"))
}

/// Turns the whitelist of the vote titled `title` on or off.
pub fn execute_toogle_whitelist(storage: &mut Storage, info: MessageInfo, title: String) -> (r: Result<Response, ContractError>)
    requires
        old(storage).wf(),
    ensures
        final(storage).wf(),
        applied(old(storage)@, final(storage)@, r, toggle_whitelist_outcome(old(storage)@, info.sender@, title@)),
        consistent(old(storage)@) ==> consistent(final(storage)@),
{
    proof {
        if consistent(old(storage)@) {
            lemma_toggle_whitelist_keeps_consistent(storage@, info.sender@, title@);
        }
    }
    match require_elevated_rights(storage, &info.sender) {
        Ok(()) => {},
        Err(e) => {
            return Err(e);
        },
    }
    match may_load_vote(storage, &title) {
        Ok(Some(_)) => {},
        Ok(None) => {
            return Err(ContractError::CannotFindVote {});
        },
        Err(e) => {
            return Err(ContractError::Std(e));
        },
    }
    let flip = |current: Option<VoteStatus>| -> (res: Result<VoteStatus, ContractError>)
        requires
            current is Some,
        ensures
            res is Ok,
            res->Ok_0@ == (VoteView { whitelist_on: !current->Some_0@.whitelist_on, ..current->Some_0@ }),
    {
        let mut v = current.unwrap();
        v.whitelist_on = !v.whitelist_on;
        Ok(v)
    };
    let _ = update_vote(storage, &title, flip);
    Ok(Response::new().add_attribute("action", "execute toogle whitelist"))
}

/// Turns the coin gate of the vote titled `title` on or off.
pub fn execute_toogle_required_coin(storage: &mut Storage, info: MessageInfo, title: String) -> (r: Result<Response, ContractError>)
    requires
        old(storage).wf(),
    ensures
        final(storage).wf(),
        applied(old(storage)@, final(storage)@, r, toggle_coin_outcome(old(storage)@, info.sender@, title@)),
        consistent(old(storage)@) ==> consistent(final(storage)@),
{
    proof {
        if consistent(old(storage)@) {
            lemma_toggle_coin_keeps_consistent(storage@, info.sender@, title@);
        }
    }
    match require_elevated_rights(storage, &info.sender) {
        Ok(()) => {},
        Err(e) => {
            return Err(e);
        },
    }
    match may_load_vote(storage, &title) {
        Ok(Some(_)) => {},
        Ok(None) => {
            return Err(ContractError::CannotFindVote {});
        },
        Err(e) => {
            return Err(ContractError::Std(e));
        },
    }
    let flip = |current: Option<VoteStatus>| -> (res: Result<VoteStatus, ContractError>)
        requires
            current is Some,
        ensures
            res is Ok,
            res->Ok_0@ == (VoteView { required_coins_on: !current->Some_0@.required_coins_on, ..current->Some_0@ }),
    {
        let mut v = current.unwrap();
        v.required_coins_on = !v.required_coins_on;
        Ok(v)
    };
    let _ = update_vote(storage, &title, flip);
    Ok(Response::new().add_attribute("action", "execute toogle required coin"))
}

} // verus!
