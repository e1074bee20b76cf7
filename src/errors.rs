use vstd::prelude::*;

verus! {

/// The record of the store that a failing storage read was looking for.
#[derive(Clone, Copy, Debug, PartialEq, Eq, Structural)]
pub enum StoredKind {
    Config,
    Stats,
    Vote,
}

/// A failure of the storage layer.
#[derive(Clone, Copy, Debug, PartialEq, Eq, Structural)]
pub enum StdError {
    /// The record is absent from the store.
    NotFound { kind: StoredKind },
    /// A counter would leave the range of its integer type.
    Overflow {},
}

/// Every way an operation of the engine can fail.
#[derive(Clone, Copy, Debug, PartialEq, Eq, Structural)]
pub enum ContractError {
    Std(StdError),
    Unauthorized {},
    WrongVotesPercentage {},
    VoteNotValid {},
    FailedToUpdateData {},
    VoteIsPaused {},
    VoterAlreadyParticipate {},
    AdminsNoGiven {},
    BalanceCannotBeNegative {},
    VoteCountCannotBeNegative {},
    SenderIsNotAdmin {},
    SenderIsNotWhitelisted {},
    SenderDoNotHaveEnoughAmount {},
    VoteAlreadyExist {},
    CannotFindVote {},
}

impl From<StdError> for ContractError {
    fn from(e: StdError) -> (r: ContractError)
        ensures
            r == ContractError::Std(e),
    {
        ContractError::Std(e)
    }
}

impl vstd::std_specs::convert::FromSpecImpl<StdError> for ContractError {
    open spec fn obeys_from_spec() -> bool {
        true
    }

    open spec fn from_spec(e: StdError) -> ContractError {
        ContractError::Std(e)
    }
}

} // verus!
