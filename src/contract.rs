use vstd::prelude::*;
use crate::guards::config_missing;
use crate::errors::{ContractError, StdError};
use crate::execute::{
    applied, ballot_outcome, execute_new_vote, execute_pause, execute_toogle_required_coin,
    execute_toogle_whitelist, execute_unpause, execute_vote, new_vote_outcome, pause_outcome,
    stats_missing, toggle_coin_outcome, toggle_whitelist_outcome, unpause_outcome, Outcome,
};
use crate::queries::{query_config, query_get_stats, query_get_vote, query_get_votes_titles};
use crate::state::{
    store_config, store_stats, vote_at, vote_view_opt, Config, ConfigView, Stats, Storage,
    StorageView, VoteStatus,
};
use crate::consistency::consistent;
use crate::types::{addrs, coin_views, CoinView, ExecuteMsg, InstantiateMsg, MessageInfo, MigrateMsg, QueryMsg, Response};

verus! {

/// The statistics of a fresh deployment.
pub open spec fn zero_stats() -> Stats {
    Stats { rejected_votes: 0, accepted: 0, in_progress: 0, paused: 0 }
}

/// Sets up a deployment: the sender becomes its owner, `msg` names the
/// admins, no vote is listed and every counter is zero.
pub fn instantiate(storage: &mut Storage, info: MessageInfo, msg: InstantiateMsg) -> (r: Result<Response, ContractError>)
    requires
        old(storage).wf(),
    ensures
        final(storage).wf(),
        r is Ok,
        r->Ok_0@ == seq![("method"@, "instantiate"@), ("owner"@, info.sender@)],
        final(storage)@ == (StorageView {
            config: Some(
                ConfigView { owner: info.sender@, admins: addrs(msg.admins@), votes_titles: Seq::empty() },
            ),
            stats: Some(zero_stats()),
            votes: old(storage)@.votes,
        }),
        old(storage)@.votes.dom().is_empty() ==> consistent(final(storage)@),
{
    proof {
        if old(storage)@.votes.dom().is_empty() {
            assert forall|t: Seq<char>| !old(storage)@.votes.contains_key(t) by {
                if old(storage)@.votes.contains_key(t) {
                    assert(old(storage)@.votes.dom().contains(t));
                }
            }
        }
    }
    let config = Config { owner: info.sender.clone(), admins: msg.admins, votes_titles: Vec::new() };
    assert(config@.votes_titles =~= Seq::<Seq<char>>::empty());
    let _ = store_config(storage, &config);
    let stats = Stats { rejected_votes: 0, accepted: 0, in_progress: 0, paused: 0 };
    let _ = store_stats(storage, &stats);
    let r = Response::new().add_attribute("method", "instantiate").add_attribute("owner", info.sender.as_str());
    assert(r@ =~= seq![("method"@, "instantiate"@), ("owner"@, info.sender@)]);
    Ok(r)
}

/// What a state-changing message of `sender`, with `funds` attached, does.
pub open spec fn execute_outcome(s: StorageView, sender: Seq<char>, funds: Seq<CoinView>, msg: ExecuteMsg) -> Outcome {
    match msg {
        ExecuteMsg::CreateNewVote {
            title,
            min_votes_count,
            required_votes_percentage,
            whitelist_on,
            whitelist,
            required_coins_on,
            required_coin,
        } => new_vote_outcome(
            s,
            sender,
            title@,
            min_votes_count,
            required_votes_percentage,
            whitelist_on,
            addrs(whitelist@),
            required_coins_on,
            required_coin@,
        ),
        ExecuteMsg::Vote { vote, title } => ballot_outcome(s, sender, funds, vote@, title@),
        ExecuteMsg::Pause { title } => pause_outcome(s, sender, title@),
        ExecuteMsg::Unpause { title } => unpause_outcome(s, sender, title@),
        ExecuteMsg::ToogleWhitelist { title } => toggle_whitelist_outcome(s, sender, title@),
        ExecuteMsg::ToogleRequiredCoin { title } => toggle_coin_outcome(s, sender, title@),
    }
}

/// Runs a state-changing message.
pub fn execute(storage: &mut Storage, info: MessageInfo, msg: ExecuteMsg) -> (r: Result<Response, ContractError>)
    requires
        old(storage).wf(),
    ensures
        final(storage).wf(),
        applied(old(storage)@, final(storage)@, r, execute_outcome(old(storage)@, info.sender@, coin_views(info.funds@), msg)),
        consistent(old(storage)@) ==> consistent(final(storage)@),
{
    match msg {
        ExecuteMsg::CreateNewVote {
            title,
            min_votes_count,
            required_votes_percentage,
            whitelist_on,
            whitelist,
            required_coins_on,
            required_coin,
        } => execute_new_vote(
            storage,
            info,
            title,
            min_votes_count,
            required_votes_percentage,
            whitelist_on,
            whitelist,
            required_coins_on,
            required_coin,
        ),
        ExecuteMsg::Vote { vote, title } => execute_vote(storage, info, vote, title),
        ExecuteMsg::Pause { title } => execute_pause(storage, info, title),
        ExecuteMsg::Unpause { title } => execute_unpause(storage, info, title),
        ExecuteMsg::ToogleWhitelist { title } => execute_toogle_whitelist(storage, info, title),
        ExecuteMsg::ToogleRequiredCoin { title } => execute_toogle_required_coin(storage, info, title),
    }
}

/// The answer to a read-only message, before it is encoded.
pub enum QueryResponse {
    Config(Config),
    VotesTitles(Vec<String>),
    Vote(Option<VoteStatus>),
    Stats(Stats),
}

/// `r` answers `msg` on the store `s`.
pub open spec fn query_answers(s: StorageView, msg: QueryMsg, r: Result<QueryResponse, ContractError>) -> bool {
    match msg {
        QueryMsg::Config {} => match s.config {
            Some(c) => match r {
                Ok(QueryResponse::Config(x)) => x@ == c,
                _ => false,
            },
            None => r == Err::<QueryResponse, ContractError>(config_missing()),
        },
        QueryMsg::GetVotesTitles {} => match s.config {
            Some(c) => match r {
                Ok(QueryResponse::VotesTitles(x)) => addrs(x@) == c.votes_titles,
                _ => false,
            },
            None => r == Err::<QueryResponse, ContractError>(config_missing()),
        },
        QueryMsg::GetVote { title } => match r {
            Ok(QueryResponse::Vote(x)) => vote_view_opt(x) == vote_at(s, title@),
            _ => false,
        },
        QueryMsg::GetStats {} => match s.stats {
            Some(st) => r == Ok::<QueryResponse, ContractError>(QueryResponse::Stats(st)),
            None => r == Err::<QueryResponse, ContractError>(stats_missing()),
        },
    }
}

/// Answers a read-only message.
pub fn query(storage: &Storage, msg: QueryMsg) -> (r: Result<QueryResponse, ContractError>)
    requires
        storage.wf(),
    ensures
        query_answers(storage@, msg, r),
{
    match msg {
        QueryMsg::Config {} => match query_config(storage) {
            Ok(c) => Ok(QueryResponse::Config(c)),
            Err(e) => Err(e),
        },
        QueryMsg::GetVotesTitles {} => match query_get_votes_titles(storage) {
            Ok(t) => Ok(QueryResponse::VotesTitles(t)),
            Err(e) => Err(e),
        },
        QueryMsg::GetVote { title } => match query_get_vote(storage, title) {
            Ok(v) => Ok(QueryResponse::Vote(v)),
            Err(e) => Err(e),
        },
        QueryMsg::GetStats {} => match query_get_stats(storage) {
            Ok(s) => Ok(QueryResponse::Stats(s)),
            Err(e) => Err(e),
        },
    }
}

/// Migrates the code of a deployment; the store is left as it is.
pub fn migrate(storage: &mut Storage, msg: MigrateMsg) -> (r: Result<Response, StdError>)
    ensures
        r is Ok,
        r->Ok_0@ == Seq::<(Seq<char>, Seq<char>)>::empty(),
        final(storage)@ == old(storage)@,
        final(storage).wf() == old(storage).wf(),
{
    Ok(Response::new())
}

} // verus!
