use crate::address::{
    agent_address, agent_seeds, bump_at, derived_view, located, program_address, Pubkey,
};
use crate::error::AgentError;
use crate::limits::{check_rating, check_uri, rating_valid, uri_fits};
use vstd::prelude::*;

verus! {

/// Whether an agent takes work.
#[derive(Clone, Copy, Debug, PartialEq, Eq, Structural)]
pub enum AgentStatus {
    Available,
    Busy,
    Offline,
}

impl AgentStatus {
    /// The code under which an availability is stored and sent.
    pub open spec fn spec_code(self) -> u8 {
        match self {
            AgentStatus::Available => 0,
            AgentStatus::Busy => 1,
            AgentStatus::Offline => 2,
        }
    }

    /// The availability that a code names, if it names one.
    pub open spec fn spec_from_code(code: u8) -> Option<AgentStatus> {
        if code == 0 {
            Some(AgentStatus::Available)
        } else if code == 1 {
            Some(AgentStatus::Busy)
        } else if code == 2 {
            Some(AgentStatus::Offline)
        } else {
            None
        }
    }

    /// The code under which an availability is stored and sent.
    #[verifier::when_used_as_spec(spec_code)]
    pub fn code(self) -> (c: u8)
        ensures
            c == self.spec_code(),
            AgentStatus::spec_from_code(c) == Some(self),
    {
        match self {
            AgentStatus::Available => 0,
            AgentStatus::Busy => 1,
            AgentStatus::Offline => 2,
        }
    }

    /// The availability that a code names, if it names one.
    #[verifier::when_used_as_spec(spec_from_code)]
    pub fn from_code(code: u8) -> (r: Option<AgentStatus>)
        ensures
            r == AgentStatus::spec_from_code(code),
            r is Some <==> code <= 2,
            r is Some ==> r->0.spec_code() == code,
    {
        if code == 0 {
            Some(AgentStatus::Available)
        } else if code == 1 {
            Some(AgentStatus::Busy)
        } else if code == 2 {
            Some(AgentStatus::Offline)
        } else {
            None
        }
    }
}

/// The record of one registered agent.
#[derive(Clone, Debug, PartialEq, Eq)]
pub struct Agent {
    /// Wallet that owns this agent.
    pub owner: Pubkey,
    /// Where the agent's profile document is kept.
    pub metadata_uri: String,
    /// Price of an hour, in minor units of the settlement asset.
    pub hourly_rate: u64,
    /// Rolling average of the ratings received, in hundredths of a star.
    pub reputation: u64,
    /// Number of ratings settled into `reputation`.
    pub bounties_completed: u64,
    /// Sum of all payments received, in minor units.
    pub total_earned: u64,
    /// Whether the agent takes work.
    pub availability: AgentStatus,
    /// Bump seed of the address at which the record is stored.
    pub bump: u8,
    /// When the agent registered, in seconds since the epoch.
    pub created_at: i64,
}

/// An agent record as contracts see it.
pub ghost struct AgentView {
    pub owner: Pubkey,
    pub metadata_uri: Seq<char>,
    pub hourly_rate: nat,
    pub reputation: nat,
    pub bounties_completed: nat,
    pub total_earned: nat,
    pub availability: AgentStatus,
    pub bump: u8,
    pub created_at: int,
}

impl View for Agent {
    type V = AgentView;

    open spec fn view(&self) -> AgentView {
        AgentView {
            owner: self.owner,
            metadata_uri: self.metadata_uri@,
            hourly_rate: self.hourly_rate as nat,
            reputation: self.reputation as nat,
            bounties_completed: self.bounties_completed as nat,
            total_earned: self.total_earned as nat,
            availability: self.availability,
            bump: self.bump,
            created_at: self.created_at as int,
        }
    }
}

impl AgentView {
    /// What every record that the registry wrote satisfies.
    pub open spec fn wf(self) -> bool {
        &&& uri_fits(self.metadata_uri)
        &&& self.hourly_rate > 0
        &&& self.reputation <= crate::limits::MAX_RATING
        &&& (self.bounties_completed == 0 ==> self.reputation == 0)
        &&& (self.bounties_completed > 0 ==> self.reputation > 0)
    }
}

/// The place where an agent record may stand, as contracts see it.
pub open spec fn agent_slot_view(slot: Option<Agent>) -> Option<AgentView> {
    match slot {
        Some(agent) => Some(agent@),
        None => None,
    }
}

/// What a registration needs: what stands at `agent_key`, nothing if no
/// record is stored there yet; the owner, who asks; and the program under
/// which records are stored.
#[derive(Clone, Debug, PartialEq, Eq)]
pub struct RegisterAgent {
    pub agent: Option<Agent>,
    pub agent_key: Pubkey,
    pub owner: Pubkey,
    pub program_id: Pubkey,
}

/// A registration's context as contracts see it.
pub ghost struct RegisterAgentView {
    pub agent: Option<AgentView>,
    pub agent_key: Pubkey,
    pub owner: Pubkey,
    pub program_id: Pubkey,
}

impl View for RegisterAgent {
    type V = RegisterAgentView;

    open spec fn view(&self) -> RegisterAgentView {
        RegisterAgentView {
            agent: agent_slot_view(self.agent),
            agent_key: self.agent_key,
            owner: self.owner,
            program_id: self.program_id,
        }
    }
}

/// What a profile update needs: the record and the caller.
#[derive(Clone, Debug, PartialEq, Eq)]
pub struct UpdateAgent {
    pub agent: Agent,
    pub owner: Pubkey,
}

/// What a settlement needs: the record, the caller, and the one identity
/// that the registry lets settle.
#[derive(Clone, Debug, PartialEq, Eq)]
pub struct UpdateReputation {
    pub agent: Agent,
    pub authority: Pubkey,
    pub settlement_authority: Pubkey,
}

/// A settlement's context as contracts see it.
pub ghost struct UpdateReputationView {
    pub agent: AgentView,
    pub authority: Pubkey,
    pub settlement_authority: Pubkey,
}

impl View for UpdateReputation {
    type V = UpdateReputationView;

    open spec fn view(&self) -> UpdateReputationView {
        UpdateReputationView {
            agent: self.agent@,
            authority: self.authority,
            settlement_authority: self.settlement_authority,
        }
    }
}

/// The record of an agent who has just registered.
pub open spec fn registered(
    owner: Pubkey,
    metadata_uri: Seq<char>,
    hourly_rate: u64,
    bump: u8,
    now: i64,
) -> AgentView {
    AgentView {
        owner,
        metadata_uri,
        hourly_rate: hourly_rate as nat,
        reputation: 0,
        bounties_completed: 0,
        total_earned: 0,
        availability: AgentStatus::Available,
        bump,
        created_at: now as int,
    }
}

/// What a registration does, given the address `derived` for the owner's
/// record: the new record is stored at that address and nowhere else, or
/// nothing is stored.
pub open spec fn register_outcome(
    ctx: RegisterAgentView,
    derived: Option<(Seq<u8>, u8)>,
    metadata_uri: Seq<char>,
    hourly_rate: u64,
    now: i64,
) -> Result<RegisterAgentView, AgentError> {
    match bump_at(ctx.agent_key@, derived) {
        None => Err(AgentError::AddressMismatch),
        Some(bump) => if ctx.agent is Some {
            Err(AgentError::AlreadyExists)
        } else if !uri_fits(metadata_uri) {
            Err(AgentError::UriTooLong)
        } else if hourly_rate == 0 {
            Err(AgentError::InvalidHourlyRate)
        } else {
            Ok(
                RegisterAgentView {
                    agent: Some(registered(ctx.owner, metadata_uri, hourly_rate, bump, now)),
                    ..ctx
                },
            )
        },
    }
}

/// What a profile update does: the record with each field that was given
/// replaced, or why nothing was replaced.
pub open spec fn update_outcome(
    agent: AgentView,
    caller: Pubkey,
    metadata_uri: Option<Seq<char>>,
    hourly_rate: Option<u64>,
    availability: Option<u8>,
) -> Result<AgentView, AgentError> {
    if caller != agent.owner {
        Err(AgentError::Unauthorized)
    } else if metadata_uri is Some && !uri_fits(metadata_uri->0) {
        Err(AgentError::UriTooLong)
    } else if hourly_rate == Some(0u64) {
        Err(AgentError::InvalidHourlyRate)
    } else if availability is Some && AgentStatus::spec_from_code(availability->0) is None {
        Err(AgentError::InvalidAvailability)
    } else {
        Ok(
            AgentView {
                metadata_uri: match metadata_uri {
                    Some(uri) => uri,
                    None => agent.metadata_uri,
                },
                hourly_rate: match hourly_rate {
                    Some(rate) => rate as nat,
                    None => agent.hourly_rate,
                },
                availability: match availability {
                    Some(code) => AgentStatus::spec_from_code(code)->0,
                    None => agent.availability,
                },
                ..agent
            },
        )
    }
}

/// The reputation after one more rating: the rating itself where none was
/// settled before, else the mean of the `count` earlier ratings, taken to be
/// `reputation` each, and the new one, rounded down. What an earlier step
/// rounded away is not made up for later.
pub open spec fn rolling_reputation(reputation: nat, count: nat, rating: nat) -> nat {
    if count == 0 {
        rating
    } else {
        (reputation * count + rating) / (count + 1)
    }
}

/// The record after one more rating has been settled into it.
pub open spec fn settled(agent: AgentView, rating: nat) -> AgentView {
    AgentView {
        reputation: rolling_reputation(agent.reputation, agent.bounties_completed, rating),
        bounties_completed: agent.bounties_completed + 1,
        ..agent
    }
}

/// What a settlement does: the record with the rating settled into it, or
/// why nothing was settled.
pub open spec fn settle_outcome(
    agent: AgentView,
    authority: Pubkey,
    settlement_authority: Pubkey,
    rating: u64,
) -> Result<AgentView, AgentError> {
    if authority != settlement_authority {
        Err(AgentError::Unauthorized)
    } else if !rating_valid(rating) {
        Err(AgentError::InvalidRating)
    } else if agent.bounties_completed >= u64::MAX {
        Err(AgentError::Overflow)
    } else {
        Ok(settled(agent, rating as nat))
    }
}

/// What crediting a payment does: the record with the amount added to its
/// earnings, or why nothing was added.
pub open spec fn earn_outcome(
    agent: AgentView,
    authority: Pubkey,
    settlement_authority: Pubkey,
    amount: nat,
) -> Result<AgentView, AgentError> {
    if authority != settlement_authority {
        Err(AgentError::Unauthorized)
    } else if agent.total_earned + amount > u64::MAX {
        Err(AgentError::Overflow)
    } else {
        Ok(AgentView { total_earned: agent.total_earned + amount, ..agent })
    }
}

/// A rolling average lies between the smaller and the larger of the old
/// average and the new rating.
pub proof fn lemma_rolling_reputation_bounds(reputation: nat, count: nat, rating: nat)
    ensures
        rolling_reputation(reputation, count, rating) <= if reputation <= rating {
            rating
        } else {
            reputation
        },
        rolling_reputation(reputation, count, rating) >= if reputation <= rating {
            reputation
        } else {
            rating
        },
{
    if count > 0 {
        let hi = if reputation <= rating { rating } else { reputation };
        let lo = if reputation <= rating { reputation } else { rating };
        let total = reputation * count + rating;
        let n = count + 1;
        assert(total <= hi * n && lo * n <= total) by (nonlinear_arith)
            requires
                total == reputation * count + rating,
                n == count + 1,
                reputation <= hi,
                rating <= hi,
                lo <= reputation,
                lo <= rating,
        ;
        assert(total / n <= hi && lo <= total / n) by (nonlinear_arith)
            requires
                total <= hi * n,
                lo * n <= total,
                n > 0,
        ;
    }
}

/// The reputation that a list of ratings leaves behind when each is settled
/// in turn: the first rating itself, and after it the rounded-down rolling
/// average of what stood before and the next rating.
pub open spec fn rolling_average(ratings: Seq<u64>) -> nat
    decreases ratings.len(),
{
    if ratings.len() == 0 {
        0
    } else {
        rolling_reputation(
            rolling_average(ratings.drop_last()),
            (ratings.len() - 1) as nat,
            ratings.last() as nat,
        )
    }
}

/// Whether `states` are the records that a run of accepted settlements
/// passes through, the rating `ratings[i]` leading from `states[i]` to
/// `states[i + 1]`.
pub open spec fn settlement_run(
    states: Seq<AgentView>,
    ratings: Seq<u64>,
    authority: Pubkey,
    settlement_authority: Pubkey,
) -> bool {
    &&& states.len() == ratings.len() + 1
    &&& forall|i: int|
        0 <= i < ratings.len() ==> settle_outcome(
            states[i],
            authority,
            settlement_authority,
            #[trigger] ratings[i],
        ) == Ok::<AgentView, AgentError>(states[i + 1])
}

/// The rolling average of valid ratings is a valid rating, and zero only
/// where there is no rating.
pub proof fn lemma_rolling_average_in_range(ratings: Seq<u64>)
    requires
        forall|i: int| 0 <= i < ratings.len() ==> rating_valid(#[trigger] ratings[i]),
    ensures
        rolling_average(ratings) <= crate::limits::MAX_RATING,
        ratings.len() > 0 ==> rolling_average(ratings) > 0,
    decreases ratings.len(),
{
    if ratings.len() > 0 {
        let before = ratings.drop_last();
        assert forall|i: int| 0 <= i < before.len() implies rating_valid(#[trigger] before[i]) by {
            assert(before[i] == ratings[i]);
        }
        lemma_rolling_average_in_range(before);
        assert(rating_valid(ratings[ratings.len() - 1]));
        lemma_rolling_reputation_bounds(
            rolling_average(before),
            (ratings.len() - 1) as nat,
            ratings.last() as nat,
        );
    }
}

/// After any number of accepted settlements on a record that had none, the
/// count of completed bounties is the number of ratings, the reputation is
/// their rolling average, and nothing else in the record has changed.
pub proof fn lemma_settlements_accumulate(
    states: Seq<AgentView>,
    ratings: Seq<u64>,
    authority: Pubkey,
    settlement_authority: Pubkey,
)
    requires
        settlement_run(states, ratings, authority, settlement_authority),
        states[0].bounties_completed == 0,
    ensures
        states.last().bounties_completed == ratings.len(),
        ratings.len() > 0 ==> states.last().reputation == rolling_average(ratings),
        ratings.len() > 0 ==> 0 < states.last().reputation <= crate::limits::MAX_RATING,
        forall|i: int| 0 <= i < ratings.len() ==> rating_valid(#[trigger] ratings[i]),
        states.last() == (AgentView {
            reputation: states.last().reputation,
            bounties_completed: states.last().bounties_completed,
            ..states[0]
        }),
    decreases ratings.len(),
{
    if ratings.len() > 0 {
        let k = ratings.len() - 1;
        let head_states = states.drop_last();
        let head_ratings = ratings.drop_last();
        assert forall|i: int| 0 <= i < head_ratings.len() implies settle_outcome(
            head_states[i],
            authority,
            settlement_authority,
            #[trigger] head_ratings[i],
        ) == Ok::<AgentView, AgentError>(head_states[i + 1]) by {
            assert(head_ratings[i] == ratings[i]);
            assert(head_states[i] == states[i]);
            assert(head_states[i + 1] == states[i + 1]);
        }
        lemma_settlements_accumulate(head_states, head_ratings, authority, settlement_authority);
        assert(head_states.last() == states[k]);
        assert(head_states[0] == states[0]);
        assert(settle_outcome(states[k], authority, settlement_authority, ratings[k]) == Ok::<
            AgentView,
            AgentError,
        >(states[k + 1]));
        assert(states.last() == states[k + 1]);
        assert forall|i: int| 0 <= i < ratings.len() implies rating_valid(#[trigger] ratings[i]) by {
            if i < k {
                assert(head_ratings[i] == ratings[i]);
            }
        }
        lemma_rolling_average_in_range(ratings);
    }
}

/// Who may change what: a profile update leaves reputation, count and
/// earnings alone; a settlement changes reputation and count only, the
/// count by one; a payment changes the earnings only, and never lowers
/// them. The owner and the day of registration never change.
pub proof fn lemma_mutation_rights(
    agent: AgentView,
    caller: Pubkey,
    metadata_uri: Option<Seq<char>>,
    hourly_rate: Option<u64>,
    availability: Option<u8>,
    authority: Pubkey,
    settlement_authority: Pubkey,
    rating: u64,
    amount: nat,
)
    ensures
        match update_outcome(agent, caller, metadata_uri, hourly_rate, availability) {
            Ok(post) => {
                &&& caller == agent.owner
                &&& post == (AgentView {
                    metadata_uri: post.metadata_uri,
                    hourly_rate: post.hourly_rate,
                    availability: post.availability,
                    ..agent
                })
            },
            Err(_) => true,
        },
        match settle_outcome(agent, authority, settlement_authority, rating) {
            Ok(post) => {
                &&& authority == settlement_authority
                &&& post == (AgentView {
                    reputation: post.reputation,
                    bounties_completed: agent.bounties_completed + 1,
                    ..agent
                })
            },
            Err(_) => true,
        },
        match earn_outcome(agent, authority, settlement_authority, amount) {
            Ok(post) => {
                &&& authority == settlement_authority
                &&& post == (AgentView { total_earned: agent.total_earned + amount, ..agent })
                &&& post.total_earned >= agent.total_earned
            },
            Err(_) => true,
        },
{
}

/// Registers the owner as an agent, at the address derived for the owner.
///
/// The record starts with no reputation, no completed bounty and no earnings,
/// and is marked available. Nothing is written where `agent_key` is not the
/// owner's address, a record stands there already, the reference is too long
/// or the rate is zero.
pub fn register_agent(
    ctx: &mut RegisterAgent,
    metadata_uri: String,
    hourly_rate: u64,
    now: i64,
) -> (r: Result<(), AgentError>)
    ensures
        match register_outcome(
            old(ctx)@,
            program_address(agent_seeds(old(ctx).owner), old(ctx).program_id@),
            metadata_uri@,
            hourly_rate,
            now,
        ) {
            Ok(post) => r is Ok && final(ctx)@ == post && post.agent->0.wf(),
            Err(e) => r == Err::<(), AgentError>(e) && *final(ctx) == *old(ctx),
        },
{
    let derived = agent_address(&ctx.owner, &ctx.program_id);
    register_agent_at(ctx, derived, metadata_uri, hourly_rate, now)
}

/// Registers the owner as an agent, given the address derived for the owner.
pub fn register_agent_at(
    ctx: &mut RegisterAgent,
    derived: Option<(Pubkey, u8)>,
    metadata_uri: String,
    hourly_rate: u64,
    now: i64,
) -> (r: Result<(), AgentError>)
    ensures
        match register_outcome(old(ctx)@, derived_view(derived), metadata_uri@, hourly_rate, now) {
            Ok(post) => r is Ok && final(ctx)@ == post && post.agent->0.wf(),
            Err(e) => r == Err::<(), AgentError>(e) && *final(ctx) == *old(ctx),
        },
{
    let bump: u8 = match located(&ctx.agent_key, derived) {
        Some(bump) => bump,
        None => {
            return Err(AgentError::AddressMismatch);
        },
    };
    if ctx.agent.is_some() {
        return Err(AgentError::AlreadyExists);
    }
    if !check_uri(&metadata_uri) {
        return Err(AgentError::UriTooLong);
    }
    if hourly_rate == 0 {
        return Err(AgentError::InvalidHourlyRate);
    }
    ctx.agent = Some(
        Agent {
            owner: ctx.owner,
            metadata_uri,
            hourly_rate,
            reputation: 0,
            bounties_completed: 0,
            total_earned: 0,
            availability: AgentStatus::Available,
            bump,
            created_at: now,
        },
    );
    Ok(())
}

/// Replaces the profile fields that are given, for the owner only.
///
/// Every field given is checked before any is replaced, so a refused update
/// leaves the record as it was.
pub fn update_agent(
    ctx: &mut UpdateAgent,
    metadata_uri: Option<String>,
    hourly_rate: Option<u64>,
    availability: Option<u8>,
) -> (r: Result<(), AgentError>)
    ensures
        match update_outcome(
            old(ctx).agent@,
            old(ctx).owner,
            match metadata_uri {
                Some(uri) => Some(uri@),
                None => None,
            },
            hourly_rate,
            availability,
        ) {
            Ok(agent) => {
                &&& r is Ok
                &&& final(ctx).agent@ == agent
                &&& final(ctx).owner == old(ctx).owner
                &&& old(ctx).agent@.wf() ==> agent.wf()
            },
            Err(e) => r == Err::<(), AgentError>(e) && *final(ctx) == *old(ctx),
        },
{
    if ctx.owner != ctx.agent.owner {
        return Err(AgentError::Unauthorized);
    }
    if let Some(uri) = &metadata_uri {
        if !check_uri(uri) {
            return Err(AgentError::UriTooLong);
        }
    }
    if let Some(rate) = hourly_rate {
        if rate == 0 {
            return Err(AgentError::InvalidHourlyRate);
        }
    }
    let status: Option<AgentStatus> = match availability {
        Some(code) => {
            match AgentStatus::from_code(code) {
                Some(status) => Some(status),
                None => {
                    return Err(AgentError::InvalidAvailability);
                },
            }
        },
        None => None,
    };
    if let Some(uri) = metadata_uri {
        ctx.agent.metadata_uri = uri;
    }
    if let Some(rate) = hourly_rate {
        ctx.agent.hourly_rate = rate;
    }
    if let Some(status) = status {
        ctx.agent.availability = status;
    }
    Ok(())
}

/// Settles one rating into the agent's reputation, for the settlement
/// authority only.
///
/// The first rating becomes the reputation. Every later one moves it to the
/// rolling average `(reputation * n + rating) / (n + 1)`, rounded down, where
/// `n` ratings were settled before.
pub fn update_reputation(ctx: &mut UpdateReputation, new_rating: u64) -> (r: Result<
    (),
    AgentError,
>)
    ensures
        match settle_outcome(
            old(ctx).agent@,
            old(ctx).authority,
            old(ctx).settlement_authority,
            new_rating,
        ) {
            Ok(agent) => {
                &&& r is Ok
                &&& final(ctx).agent@ == agent
                &&& final(ctx).authority == old(ctx).authority
                &&& final(ctx).settlement_authority == old(ctx).settlement_authority
                &&& old(ctx).agent@.wf() ==> agent.wf()
            },
            Err(e) => r == Err::<(), AgentError>(e) && *final(ctx) == *old(ctx),
        },
{
    if ctx.authority != ctx.settlement_authority {
        return Err(AgentError::Unauthorized);
    }
    if !check_rating(new_rating) {
        return Err(AgentError::InvalidRating);
    }
    let old_count: u64 = ctx.agent.bounties_completed;
    if old_count == u64::MAX {
        return Err(AgentError::Overflow);
    }
    let new_count: u64 = old_count + 1;
    let reputation: u64 = ctx.agent.reputation;
    proof {
        lemma_rolling_reputation_bounds(reputation as nat, old_count as nat, new_rating as nat);
    }
    if old_count == 0 {
        ctx.agent.reputation = new_rating;
    } else {
        assert(reputation * old_count + new_rating <= u128::MAX) by (nonlinear_arith)
            requires
                reputation <= u64::MAX,
                old_count <= u64::MAX,
                new_rating <= u64::MAX,
        ;
        let total: u128 = (reputation as u128) * (old_count as u128) + (new_rating as u128);
        let average: u128 = total / (new_count as u128);
        ctx.agent.reputation = average as u64;
    }
    ctx.agent.bounties_completed = new_count;
    Ok(())
}

/// Adds a payment to the agent's earnings, for the settlement authority
/// only. Earnings that would overflow are refused, not wrapped.
pub fn add_earnings(ctx: &mut UpdateReputation, amount: u64) -> (r: Result<(), AgentError>)
    ensures
        match earn_outcome(
            old(ctx).agent@,
            old(ctx).authority,
            old(ctx).settlement_authority,
            amount as nat,
        ) {
            Ok(agent) => {
                &&& r is Ok
                &&& final(ctx).agent@ == agent
                &&& final(ctx).authority == old(ctx).authority
                &&& final(ctx).settlement_authority == old(ctx).settlement_authority
                &&& old(ctx).agent@.wf() ==> agent.wf()
            },
            Err(e) => r == Err::<(), AgentError>(e) && *final(ctx) == *old(ctx),
        },
{
    if ctx.authority != ctx.settlement_authority {
        return Err(AgentError::Unauthorized);
    }
    match ctx.agent.total_earned.checked_add(amount) {
        Some(total) => {
            ctx.agent.total_earned = total;
            Ok(())
        },
        None => Err(AgentError::Overflow),
    }
}

} // verus!
