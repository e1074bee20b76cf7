use vstd::prelude::*;
use crate::errors::{ContractError, StdError, StoredKind};
use crate::state::{update_stats, Stats, Storage, StorageView};

verus! {

/// The error of a counter that would leave its range.
pub open spec fn overflow() -> ContractError {
    ContractError::Std(StdError::Overflow {})
}

/// The statistics once a vote is opened.
pub open spec fn stats_after_new(s: Stats) -> Result<Stats, ContractError> {
    if s.in_progress == i32::MAX {
        Err(overflow())
    } else {
        Ok(Stats { in_progress: (s.in_progress + 1) as i32, ..s })
    }
}

/// The statistics once an open vote is paused.
pub open spec fn stats_after_pause(s: Stats) -> Result<Stats, ContractError> {
    if s.in_progress == i32::MIN || s.paused == i32::MAX {
        Err(overflow())
    } else {
        Ok(Stats { in_progress: (s.in_progress - 1) as i32, paused: (s.paused + 1) as i32, ..s })
    }
}

/// The statistics once a paused vote is opened again.
pub open spec fn stats_after_unpause(s: Stats) -> Result<Stats, ContractError> {
    if s.paused == i32::MIN || s.in_progress == i32::MAX {
        Err(overflow())
    } else {
        Ok(Stats { in_progress: (s.in_progress + 1) as i32, paused: (s.paused - 1) as i32, ..s })
    }
}

/// The statistics once an open vote is accepted.
pub open spec fn stats_after_accept(s: Stats) -> Result<Stats, ContractError> {
    if s.in_progress == i32::MIN || s.accepted == i32::MAX {
        Err(overflow())
    } else {
        Ok(Stats { in_progress: (s.in_progress - 1) as i32, accepted: (s.accepted + 1) as i32, ..s })
    }
}

/// The statistics once an open vote is rejected.
pub open spec fn stats_after_reject(s: Stats) -> Result<Stats, ContractError> {
    if s.in_progress == i32::MIN || s.rejected_votes == i32::MAX {
        Err(overflow())
    } else {
        Ok(Stats {
            in_progress: (s.in_progress - 1) as i32,
            rejected_votes: (s.rejected_votes + 1) as i32,
            ..s
        })
    }
}

/// `after` and `r` are what applying a step of result `step` to the
/// statistics of `before` gives: the error of a missing record, the error of the step with no
/// change, or the new statistics stored and returned.
pub open spec fn stats_changed(
    before: StorageView,
    after: StorageView,
    r: Result<Stats, ContractError>,
    step: Result<Stats, ContractError>,
) -> bool {
    match before.stats {
        None => r == Err::<Stats, ContractError>(
            ContractError::Std(StdError::NotFound { kind: StoredKind::Stats }),
        ) && after == before,
        Some(_) => r == step && match r {
            Ok(n) => after == (StorageView { stats: Some(n), ..before }),
            Err(_) => after == before,
        },
    }
}

/// Counts one more vote in progress.
pub fn add_new_vote(storage: &mut Storage) -> (r: Result<Stats, ContractError>)
    requires
        old(storage).wf(),
    ensures
        final(storage).wf(),
        stats_changed(old(storage)@, final(storage)@, r, stats_after_new(old(storage)@.stats->Some_0)),
{
    let step = |stats: Stats| -> (res: Result<Stats, ContractError>)
        ensures
            res == stats_after_new(stats),
    {
        if stats.in_progress == i32::MAX {
            Err(ContractError::Std(StdError::Overflow {}))
        } else {
            Ok(Stats { in_progress: stats.in_progress + 1, ..stats })
        }
    };
    update_stats(storage, step)
}

/// Moves one vote from in progress to rejected.
pub fn set_to_rejected(storage: &mut Storage) -> (r: Result<Stats, ContractError>)
    requires
        old(storage).wf(),
    ensures
        final(storage).wf(),
        stats_changed(old(storage)@, final(storage)@, r, stats_after_reject(old(storage)@.stats->Some_0)),
{
    let step = |stats: Stats| -> (res: Result<Stats, ContractError>)
        ensures
            res == stats_after_reject(stats),
    {
        if stats.in_progress == i32::MIN || stats.rejected_votes == i32::MAX {
            Err(ContractError::Std(StdError::Overflow {}))
        } else {
            Ok(
                Stats {
                    in_progress: stats.in_progress - 1,
                    rejected_votes: stats.rejected_votes + 1,
                    ..stats
                },
            )
        }
    };
    update_stats(storage, step)
}

/// Moves one vote from in progress to accepted.
pub fn set_to_accepted(storage: &mut Storage) -> (r: Result<Stats, ContractError>)
    requires
        old(storage).wf(),
    ensures
        final(storage).wf(),
        stats_changed(old(storage)@, final(storage)@, r, stats_after_accept(old(storage)@.stats->Some_0)),
{
    let step = |stats: Stats| -> (res: Result<Stats, ContractError>)
        ensures
            res == stats_after_accept(stats),
    {
        if stats.in_progress == i32::MIN || stats.accepted == i32::MAX {
            Err(ContractError::Std(StdError::Overflow {}))
        } else {
            Ok(Stats { in_progress: stats.in_progress - 1, accepted: stats.accepted + 1, ..stats })
        }
    };
    update_stats(storage, step)
}

/// Moves one vote from in progress to paused.
pub fn set_to_paused(storage: &mut Storage) -> (r: Result<Stats, ContractError>)
    requires
        old(storage).wf(),
    ensures
        final(storage).wf(),
        stats_changed(old(storage)@, final(storage)@, r, stats_after_pause(old(storage)@.stats->Some_0)),
{
    let step = |stats: Stats| -> (res: Result<Stats, ContractError>)
        ensures
            res == stats_after_pause(stats),
    {
        if stats.in_progress == i32::MIN || stats.paused == i32::MAX {
            Err(ContractError::Std(StdError::Overflow {}))
        } else {
            Ok(Stats { in_progress: stats.in_progress - 1, paused: stats.paused + 1, ..stats })
        }
    };
    update_stats(storage, step)
}

/// Moves one vote from paused back to in progress.
pub fn set_to_un_paused(storage: &mut Storage) -> (r: Result<Stats, ContractError>)
    requires
        old(storage).wf(),
    ensures
        final(storage).wf(),
        stats_changed(old(storage)@, final(storage)@, r, stats_after_unpause(old(storage)@.stats->Some_0)),
{
    let step = |stats: Stats| -> (res: Result<Stats, ContractError>)
        ensures
            res == stats_after_unpause(stats),
    {
        if stats.paused == i32::MIN || stats.in_progress == i32::MAX {
            Err(ContractError::Std(StdError::Overflow {}))
        } else {
            Ok(Stats { in_progress: stats.in_progress + 1, paused: stats.paused - 1, ..stats })
        }
    };
    update_stats(storage, step)
}

} // verus!
