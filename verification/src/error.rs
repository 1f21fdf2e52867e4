use vstd::prelude::*;

verus! {

/// The kind of failure that a caller sees, whichever component raised it.
#[derive(Clone, Copy, Debug, PartialEq, Eq, Structural)]
pub enum ErrorKind {
    /// The request itself was malformed: a reference too long, an amount or
    /// rate of zero, a rating or availability out of range, a wrong account
    /// or address.
    InvalidInput,
    /// A record already stands where a new one was to be created.
    AlreadyExists,
    /// The caller is not the identity that may do this.
    Unauthorized,
    /// A counter or a balance would have passed its largest value.
    Overflow,
    /// The deadline is not in the future.
    DeadlinePassed,
    /// The paying account holds less than the amount to move.
    InsufficientFunds,
    /// The bounty is not open.
    NotOpen,
    /// The bounty is not claimed.
    NotClaimed,
    /// The caller is not the agent the bounty is assigned to.
    NotAssignedAgent,
    /// The bounty is not delivered.
    NotDelivered,
    /// The bounty is in no state that can be disputed.
    CannotDispute,
    /// The bounty is not completed.
    NotCompleted,
}

/// Why an operation on an agent record was refused.
#[derive(Clone, Copy, Debug, PartialEq, Eq, Structural)]
pub enum AgentError {
    /// The metadata reference is longer than `MAX_URI_LEN` bytes.
    UriTooLong,
    /// The hourly rate is zero.
    InvalidHourlyRate,
    /// The availability code names no availability.
    InvalidAvailability,
    /// The rating is zero or above `MAX_RATING`.
    InvalidRating,
    /// The owner already has an agent record.
    AlreadyExists,
    /// The caller is neither the record's owner nor the settlement authority,
    /// whichever the operation asks for.
    Unauthorized,
    /// The earnings or the count of completed bounties would overflow.
    Overflow,
    /// The record is not stored where its owner's record belongs.
    AddressMismatch,
}

/// Why an operation on a bounty was refused.
#[derive(Clone, Copy, Debug, PartialEq, Eq, Structural)]
pub enum BountyError {
    /// A reference is longer than `MAX_URI_LEN` bytes.
    UriTooLong,
    /// The budget is zero.
    InvalidBudget,
    /// The deadline is not after the current time.
    DeadlinePassed,
    /// The bounty is not open.
    NotOpen,
    /// The bounty is not claimed.
    NotClaimed,
    /// The bounty is not delivered.
    NotDelivered,
    /// The caller is not the agent the bounty is assigned to.
    NotAssignedAgent,
    /// The caller may not do this.
    Unauthorized,
    /// The bounty is neither claimed nor delivered.
    CannotDispute,
    /// The rating is zero or above `MAX_RATING`.
    InvalidRating,
    /// The bounty is not completed.
    NotCompleted,
    /// A record already stands where a new one was to be created.
    AlreadyExists,
    /// An account handed in is not the one the bounty names.
    AccountMismatch,
    /// The paying account holds less than the amount to move.
    InsufficientFunds,
    /// A counter or a balance would have passed its largest value.
    Overflow,
    /// The agent registry refused the settlement that the operation needs.
    Settlement(AgentError),
    /// A new record is not stored where a record of its kind belongs.
    AddressMismatch,
}

impl AgentError {
    /// The kind of this failure.
    pub open spec fn spec_kind(self) -> ErrorKind {
        match self {
            AgentError::UriTooLong => ErrorKind::InvalidInput,
            AgentError::InvalidHourlyRate => ErrorKind::InvalidInput,
            AgentError::InvalidAvailability => ErrorKind::InvalidInput,
            AgentError::InvalidRating => ErrorKind::InvalidInput,
            AgentError::AlreadyExists => ErrorKind::AlreadyExists,
            AgentError::Unauthorized => ErrorKind::Unauthorized,
            AgentError::Overflow => ErrorKind::Overflow,
            AgentError::AddressMismatch => ErrorKind::InvalidInput,
        }
    }

    /// The kind of this failure.
    #[verifier::when_used_as_spec(spec_kind)]
    pub fn kind(self) -> (k: ErrorKind)
        ensures
            k == self.spec_kind(),
    {
        match self {
            AgentError::UriTooLong => ErrorKind::InvalidInput,
            AgentError::InvalidHourlyRate => ErrorKind::InvalidInput,
            AgentError::InvalidAvailability => ErrorKind::InvalidInput,
            AgentError::InvalidRating => ErrorKind::InvalidInput,
            AgentError::AlreadyExists => ErrorKind::AlreadyExists,
            AgentError::Unauthorized => ErrorKind::Unauthorized,
            AgentError::Overflow => ErrorKind::Overflow,
            AgentError::AddressMismatch => ErrorKind::InvalidInput,
        }
    }
}

impl BountyError {
    /// The kind of this failure.
    pub open spec fn spec_kind(self) -> ErrorKind {
        match self {
            BountyError::UriTooLong => ErrorKind::InvalidInput,
            BountyError::InvalidBudget => ErrorKind::InvalidInput,
            BountyError::InvalidRating => ErrorKind::InvalidInput,
            BountyError::AccountMismatch => ErrorKind::InvalidInput,
            BountyError::DeadlinePassed => ErrorKind::DeadlinePassed,
            BountyError::NotOpen => ErrorKind::NotOpen,
            BountyError::NotClaimed => ErrorKind::NotClaimed,
            BountyError::NotDelivered => ErrorKind::NotDelivered,
            BountyError::NotAssignedAgent => ErrorKind::NotAssignedAgent,
            BountyError::Unauthorized => ErrorKind::Unauthorized,
            BountyError::CannotDispute => ErrorKind::CannotDispute,
            BountyError::NotCompleted => ErrorKind::NotCompleted,
            BountyError::AlreadyExists => ErrorKind::AlreadyExists,
            BountyError::InsufficientFunds => ErrorKind::InsufficientFunds,
            BountyError::Overflow => ErrorKind::Overflow,
            BountyError::Settlement(e) => e.spec_kind(),
            BountyError::AddressMismatch => ErrorKind::InvalidInput,
        }
    }

    /// The kind of this failure.
    #[verifier::when_used_as_spec(spec_kind)]
    pub fn kind(self) -> (k: ErrorKind)
        ensures
            k == self.spec_kind(),
    {
        match self {
            BountyError::UriTooLong => ErrorKind::InvalidInput,
            BountyError::InvalidBudget => ErrorKind::InvalidInput,
            BountyError::InvalidRating => ErrorKind::InvalidInput,
            BountyError::AccountMismatch => ErrorKind::InvalidInput,
            BountyError::DeadlinePassed => ErrorKind::DeadlinePassed,
            BountyError::NotOpen => ErrorKind::NotOpen,
            BountyError::NotClaimed => ErrorKind::NotClaimed,
            BountyError::NotDelivered => ErrorKind::NotDelivered,
            BountyError::NotAssignedAgent => ErrorKind::NotAssignedAgent,
            BountyError::Unauthorized => ErrorKind::Unauthorized,
            BountyError::CannotDispute => ErrorKind::CannotDispute,
            BountyError::NotCompleted => ErrorKind::NotCompleted,
            BountyError::AlreadyExists => ErrorKind::AlreadyExists,
            BountyError::InsufficientFunds => ErrorKind::InsufficientFunds,
            BountyError::Overflow => ErrorKind::Overflow,
            BountyError::Settlement(e) => e.kind(),
            BountyError::AddressMismatch => ErrorKind::InvalidInput,
        }
    }
}

} // verus!
