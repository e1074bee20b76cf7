use vstd::prelude::*;
use crate::errors::{ContractError, StdError, StoredKind};
use crate::state::{read_config, Storage, VoteStatus};
use crate::types::{addrs, Addr};

verus! {

/// Whether `user` is one of the addresses of `list`.
pub fn contains_addr(list: &Vec<Addr>, user: &Addr) -> (r: bool)
    ensures
        r == addrs(list@).contains(user@),
{
    let mut i: usize = 0;
    while i < list.len()
        invariant
            i <= list@.len(),
            forall|j: int| 0 <= j < i ==> list@[j]@ != user@,
        decreases list@.len() - i,
    {
        if list[i] == *user {
            assert(addrs(list@)[i as int] == user@);
            return true;
        }
        i = i + 1;
    }
    assert(!addrs(list@).contains(user@)) by {
        if addrs(list@).contains(user@) {
            let k = choose|k: int| 0 <= k < addrs(list@).len() && addrs(list@)[k] == user@;
            assert(list@[k]@ == user@);
        }
    }
    false
}

/// The error of a read of a missing configuration.
pub open spec fn config_missing() -> ContractError {
    ContractError::Std(StdError::NotFound { kind: StoredKind::Config })
}

/// Whether `user` is one of the admins of the configuration.
pub fn is_admin(storage: &Storage, user: Addr) -> (r: Result<bool, ContractError>)
    ensures
        match storage@.config {
            Some(c) => r == Ok::<bool, ContractError>(c.admins.contains(user@)),
            None => r == Err::<bool, ContractError>(config_missing()),
        },
{
    let config = match read_config(storage) {
        Ok(c) => c,
        Err(e) => {
            return Err(ContractError::Std(e));
        },
    };
    Ok(contains_addr(&config.admins, &user))
}

/// Whether a vote titled `title` has been created.
pub fn is_vote(storage: &Storage, title: String) -> (r: Result<bool, ContractError>)
    ensures
        match storage@.config {
            Some(c) => r == Ok::<bool, ContractError>(c.votes_titles.contains(title@)),
            None => r == Err::<bool, ContractError>(config_missing()),
        },
{
    let config = match read_config(storage) {
        Ok(c) => c,
        Err(e) => {
            return Err(ContractError::Std(e));
        },
    };
    Ok(contains_addr(&config.votes_titles, &title))
}

/// Whether `user` is the owner of the deployment.
pub fn is_owner(storage: &Storage, user: Addr) -> (r: Result<bool, ContractError>)
    ensures
        match storage@.config {
            Some(c) => r == Ok::<bool, ContractError>(c.owner == user@),
            None => r == Err::<bool, ContractError>(config_missing()),
        },
{
    let config = match read_config(storage) {
        Ok(c) => c,
        Err(e) => {
            return Err(ContractError::Std(e));
        },
    };
    Ok(config.owner == user)
}

/// Whether `voter` has already cast a ballot on `vote`.
pub fn already_participate(vote: VoteStatus, voter: Addr) -> (r: Result<bool, ContractError>)
    ensures
        r == Ok::<bool, ContractError>(vote@.already_participate.contains(voter@)),
{
    Ok(contains_addr(&vote.already_participate, &voter))
}

/// Whether `voter` is on the whitelist of `vote`.
pub fn is_whitelisted(vote: VoteStatus, voter: Addr) -> (r: Result<bool, ContractError>)
    ensures
        r == Ok::<bool, ContractError>(vote@.whitelist.contains(voter@)),
{
    Ok(contains_addr(&vote.whitelist, &voter))
}

} // verus!
