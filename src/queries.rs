use vstd::prelude::*;
use crate::guards::config_missing;
use crate::errors::ContractError;
use crate::state::{may_load_vote, read_config, read_stats, vote_at, vote_view_opt, Config, Stats, Storage, VoteStatus};
use crate::types::addrs;

verus! {

/// The configuration.
pub fn query_config(storage: &Storage) -> (r: Result<Config, ContractError>)
    ensures
        match storage@.config {
            Some(c) => r is Ok && r->Ok_0@ == c,
            None => r == Err::<Config, ContractError>(config_missing()),
        },
{
    match read_config(storage) {
        Ok(c) => Ok(c),
        Err(e) => Err(ContractError::Std(e)),
    }
}

/// The record of the vote titled `title`, if there is one.
pub fn query_get_vote(storage: &Storage, title: String) -> (r: Result<Option<VoteStatus>, ContractError>)
    requires
        storage.wf(),
    ensures
        r is Ok,
        vote_view_opt(r->Ok_0) == vote_at(storage@, title@),
{
    match may_load_vote(storage, &title) {
        Ok(v) => Ok(v),
        Err(e) => Err(ContractError::Std(e)),
    }
}

/// The titles of all votes, in the order they were opened.
pub fn query_get_votes_titles(storage: &Storage) -> (r: Result<Vec<String>, ContractError>)
    ensures
        match storage@.config {
            Some(c) => r is Ok && addrs(r->Ok_0@) == c.votes_titles,
            None => r == Err::<Vec<String>, ContractError>(config_missing()),
        },
{
    match read_config(storage) {
        Ok(c) => Ok(c.votes_titles),
        Err(e) => Err(ContractError::Std(e)),
    }
}

/// The statistics.
pub fn query_get_stats(storage: &Storage) -> (r: Result<Stats, ContractError>)
    ensures
        match storage@.stats {
            Some(s) => r == Ok::<Stats, ContractError>(s),
            None => r == Err::<Stats, ContractError>(crate::execute::stats_missing()),
        },
{
    match read_stats(storage) {
        Ok(s) => Ok(s),
        Err(e) => Err(ContractError::Std(e)),
    }
}

} // verus!
