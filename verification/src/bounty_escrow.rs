use crate::address::{
    bounty_address, bounty_seeds, bump_at, client_address, client_seeds, derived_view, located,
    program_address, review_address, review_seeds, vault_address, vault_seeds, Pubkey,
};
use crate::agent_registry::{
    add_earnings, earn_outcome, settle_outcome, update_reputation, UpdateReputation,
    UpdateReputationView,
};
use crate::error::BountyError;
use crate::limits::{check_rating, check_uri, rating_valid, uri_fits};
use crate::token::{transfer, transfer_outcome, CloseAccount, TokenAccount, Transfer};
use vstd::prelude::*;

verus! {

/// Where a bounty stands in its life.
#[derive(Clone, Copy, Debug, PartialEq, Eq, Structural)]
pub enum BountyStatus {
    Open,
    Claimed,
    Delivered,
    Completed,
    Disputed,
    Cancelled,
}

impl BountyStatus {
    /// The code under which a status is stored and sent.
    pub open spec fn spec_code(self) -> u8 {
        match self {
            BountyStatus::Open => 0,
            BountyStatus::Claimed => 1,
            BountyStatus::Delivered => 2,
            BountyStatus::Completed => 3,
            BountyStatus::Disputed => 4,
            BountyStatus::Cancelled => 5,
        }
    }

    /// The status that a code names, if it names one.
    pub open spec fn spec_from_code(code: u8) -> Option<BountyStatus> {
        if code == 0 {
            Some(BountyStatus::Open)
        } else if code == 1 {
            Some(BountyStatus::Claimed)
        } else if code == 2 {
            Some(BountyStatus::Delivered)
        } else if code == 3 {
            Some(BountyStatus::Completed)
        } else if code == 4 {
            Some(BountyStatus::Disputed)
        } else if code == 5 {
            Some(BountyStatus::Cancelled)
        } else {
            None
        }
    }

    /// Whether no operation leads out of this status.
    pub open spec fn is_terminal(self) -> bool {
        self is Completed || self is Disputed || self is Cancelled
    }

    /// Whether the vault has paid out in this status: to the agent on
    /// completion, back to the client on cancellation.
    pub open spec fn is_released(self) -> bool {
        self is Completed || self is Cancelled
    }

    /// The code under which a status is stored and sent.
    #[verifier::when_used_as_spec(spec_code)]
    pub fn code(self) -> (c: u8)
        ensures
            c == self.spec_code(),
            BountyStatus::spec_from_code(c) == Some(self),
    {
        match self {
            BountyStatus::Open => 0,
            BountyStatus::Claimed => 1,
            BountyStatus::Delivered => 2,
            BountyStatus::Completed => 3,
            BountyStatus::Disputed => 4,
            BountyStatus::Cancelled => 5,
        }
    }

    /// The status that a code names, if it names one.
    #[verifier::when_used_as_spec(spec_from_code)]
    pub fn from_code(code: u8) -> (r: Option<BountyStatus>)
        ensures
            r == BountyStatus::spec_from_code(code),
            r is Some <==> code <= 5,
            r is Some ==> r->0.spec_code() == code,
    {
        if code == 0 {
            Some(BountyStatus::Open)
        } else if code == 1 {
            Some(BountyStatus::Claimed)
        } else if code == 2 {
            Some(BountyStatus::Delivered)
        } else if code == 3 {
            Some(BountyStatus::Completed)
        } else if code == 4 {
            Some(BountyStatus::Disputed)
        } else if code == 5 {
            Some(BountyStatus::Cancelled)
        } else {
            None
        }
    }
}

/// The bounty counter of one client.
#[derive(Clone, Copy, Debug, PartialEq, Eq)]
pub struct ClientState {
    /// The client.
    pub owner: Pubkey,
    /// Number of bounties the client has created, which is also the
    /// sequence number of the next one.
    pub bounty_count: u64,
    /// Bump seed of the address at which the counter is stored.
    pub bump: u8,
}

/// One bounty.
#[derive(Clone, Debug, PartialEq, Eq)]
pub struct Bounty {
    /// Client who posted the bounty.
    pub client: Pubkey,
    /// Sequence number of the bounty among those of its client.
    pub bounty_id: u64,
    /// Where the description of the work is kept.
    pub metadata_uri: String,
    /// What the work pays, in minor units of the settlement asset.
    pub budget: u64,
    /// When the work is due, in seconds since the epoch.
    pub deadline: i64,
    /// Where the bounty stands in its life.
    pub status: BountyStatus,
    /// Number of claims that succeeded.
    pub claims: u64,
    /// The agent who claimed the bounty, once one has.
    pub assigned_agent: Option<Pubkey>,
    /// Where the submitted work is kept; empty until work is submitted.
    pub deliverable_uri: String,
    /// Where the vault that holds the budget is stored.
    pub vault: Pubkey,
    /// The asset in which the bounty pays.
    pub usdc_mint: Pubkey,
    /// Bump seed of the address at which the bounty is stored.
    pub bump: u8,
    /// When the bounty was created, in seconds since the epoch.
    pub created_at: i64,
}

/// The review of one completed bounty.
#[derive(Clone, Debug, PartialEq, Eq)]
pub struct Review {
    /// Where the reviewed bounty is stored.
    pub bounty: Pubkey,
    /// Client who left the review.
    pub reviewer: Pubkey,
    /// Agent who is reviewed.
    pub agent: Pubkey,
    /// The rating, in hundredths of a star.
    pub rating: u64,
    /// Where the comment is kept.
    pub comment_uri: String,
    /// Bump seed of the address at which the review is stored.
    pub bump: u8,
    /// When the review was left, in seconds since the epoch.
    pub created_at: i64,
}

/// A bounty as contracts see it.
pub ghost struct BountyView {
    pub client: Pubkey,
    pub bounty_id: nat,
    pub metadata_uri: Seq<char>,
    pub budget: nat,
    pub deadline: int,
    pub status: BountyStatus,
    pub claims: nat,
    pub assigned_agent: Option<Pubkey>,
    pub deliverable_uri: Seq<char>,
    pub vault: Pubkey,
    pub usdc_mint: Pubkey,
    pub bump: u8,
    pub created_at: int,
}

/// A review as contracts see it.
pub ghost struct ReviewView {
    pub bounty: Pubkey,
    pub reviewer: Pubkey,
    pub agent: Pubkey,
    pub rating: nat,
    pub comment_uri: Seq<char>,
    pub bump: u8,
    pub created_at: int,
}

impl View for Bounty {
    type V = BountyView;

    open spec fn view(&self) -> BountyView {
        BountyView {
            client: self.client,
            bounty_id: self.bounty_id as nat,
            metadata_uri: self.metadata_uri@,
            budget: self.budget as nat,
            deadline: self.deadline as int,
            status: self.status,
            claims: self.claims as nat,
            assigned_agent: self.assigned_agent,
            deliverable_uri: self.deliverable_uri@,
            vault: self.vault,
            usdc_mint: self.usdc_mint,
            bump: self.bump,
            created_at: self.created_at as int,
        }
    }
}

impl View for Review {
    type V = ReviewView;

    open spec fn view(&self) -> ReviewView {
        ReviewView {
            bounty: self.bounty,
            reviewer: self.reviewer,
            agent: self.agent,
            rating: self.rating as nat,
            comment_uri: self.comment_uri@,
            bump: self.bump,
            created_at: self.created_at as int,
        }
    }
}

impl BountyView {
    /// What every bounty that the ledger wrote satisfies: a positive budget,
    /// references that fit, and an assigned agent and one counted claim
    /// exactly from the claim on.
    pub open spec fn wf(self) -> bool {
        &&& self.budget > 0
        &&& uri_fits(self.metadata_uri)
        &&& uri_fits(self.deliverable_uri)
        &&& match self.status {
            BountyStatus::Open | BountyStatus::Cancelled => {
                &&& self.assigned_agent is None
                &&& self.claims == 0
                &&& self.deliverable_uri.len() == 0
            },
            BountyStatus::Claimed => {
                &&& self.assigned_agent is Some
                &&& self.claims == 1
                &&& self.deliverable_uri.len() == 0
            },
            BountyStatus::Delivered | BountyStatus::Completed | BountyStatus::Disputed => {
                &&& self.assigned_agent is Some
                &&& self.claims == 1
            },
        }
    }

    /// What the vault of this bounty holds: the budget until it is paid
    /// out, nothing after.
    pub open spec fn escrowed(self) -> nat {
        if self.status.is_released() {
            0
        } else {
            self.budget
        }
    }
}

/// Whether `vault` is the vault of `bounty` and holds what the bounty
/// keeps in escrow: an account of the bounty's asset, stored where the
/// bounty says, that answers to nobody but itself.
pub open spec fn escrow_balanced(bounty: BountyView, vault: TokenAccount) -> bool {
    &&& vault.key == bounty.vault
    &&& vault.mint == bounty.usdc_mint
    &&& vault.owner == vault.key
    &&& vault.amount == bounty.escrowed()
}

/// The place where a bounty may stand, as contracts see it.
pub open spec fn bounty_slot_view(slot: Option<Bounty>) -> Option<BountyView> {
    match slot {
        Some(bounty) => Some(bounty@),
        None => None,
    }
}

/// The place where a review may stand, as contracts see it.
pub open spec fn review_slot_view(slot: Option<Review>) -> Option<ReviewView> {
    match slot {
        Some(review) => Some(review@),
        None => None,
    }
}

/// What opening a client's counter needs: what stands at
/// `client_state_key`, nothing if no counter is stored there yet; the client,
/// who asks; and the program under which records are stored.
#[derive(Clone, Copy, Debug, PartialEq, Eq)]
pub struct InitClient {
    pub client_state: Option<ClientState>,
    pub client_state_key: Pubkey,
    pub client: Pubkey,
    pub program_id: Pubkey,
}

/// What creating a bounty needs: the client's counter; what stands at
/// `bounty_key` and at `vault_key`, nothing if nothing is stored there yet;
/// the client, who asks and pays; the account that pays; the asset; and the
/// program under which records are stored.
#[derive(Clone, Debug, PartialEq, Eq)]
pub struct CreateBounty {
    pub client_state: ClientState,
    pub bounty: Option<Bounty>,
    pub bounty_key: Pubkey,
    pub vault: Option<TokenAccount>,
    pub vault_key: Pubkey,
    pub client: Pubkey,
    pub client_token_account: TokenAccount,
    pub usdc_mint: Pubkey,
    pub program_id: Pubkey,
}

/// What a claim needs: the bounty and the agent who asks.
#[derive(Clone, Debug, PartialEq, Eq)]
pub struct ClaimBounty {
    pub bounty: Bounty,
    pub agent: Pubkey,
}

/// What a submission needs: the bounty and the agent who asks.
#[derive(Clone, Debug, PartialEq, Eq)]
pub struct SubmitWork {
    pub bounty: Bounty,
    pub agent: Pubkey,
}

/// What an approval needs: the bounty, its vault, the agent's receiving
/// account, the client, who asks, and what the registry needs to credit
/// the agent's earnings.
#[derive(Clone, Debug, PartialEq, Eq)]
pub struct ApproveWork {
    pub bounty: Bounty,
    pub vault: TokenAccount,
    pub agent_token_account: TokenAccount,
    pub client: Pubkey,
    pub registry: UpdateReputation,
}

/// What a dispute needs: the bounty and the party who asks.
#[derive(Clone, Debug, PartialEq, Eq)]
pub struct DisputeBounty {
    pub bounty: Bounty,
    pub authority: Pubkey,
}

/// What a review needs: the bounty and where it is stored; what stands at
/// `review_key`, nothing if no review is stored there yet; the client, who
/// asks; what the registry needs to settle the rating; and the program under
/// which records are stored.
#[derive(Clone, Debug, PartialEq, Eq)]
pub struct LeaveReview {
    pub bounty: Bounty,
    pub bounty_key: Pubkey,
    pub review: Option<Review>,
    pub review_key: Pubkey,
    pub client: Pubkey,
    pub registry: UpdateReputation,
    pub program_id: Pubkey,
}

/// What a cancellation needs: the bounty, its vault, the client's
/// receiving account, and the client, who asks.
#[derive(Clone, Debug, PartialEq, Eq)]
pub struct CancelBounty {
    pub bounty: Bounty,
    pub vault: TokenAccount,
    pub client_token_account: TokenAccount,
    pub client: Pubkey,
}

/// What is left to do once a bounty is created: open the vault at its
/// address, for which `vault_bump` signs, and pay the budget into it.
#[derive(Clone, Copy, Debug, PartialEq, Eq)]
pub struct Deposit {
    pub transfer: Transfer,
    pub vault_bump: u8,
}

/// The two orders of a cancellation: pay the budget back, then close the
/// vault.
#[derive(Clone, Copy, Debug, PartialEq, Eq)]
pub struct Refund {
    pub transfer: Transfer,
    pub close: CloseAccount,
}

/// What creating a bounty needs, as contracts see it.
pub ghost struct CreateBountyView {
    pub client_state: ClientState,
    pub bounty: Option<BountyView>,
    pub bounty_key: Pubkey,
    pub vault: Option<TokenAccount>,
    pub vault_key: Pubkey,
    pub client: Pubkey,
    pub client_token_account: TokenAccount,
    pub usdc_mint: Pubkey,
    pub program_id: Pubkey,
}

/// What a claim needs, as contracts see it.
pub ghost struct ClaimBountyView {
    pub bounty: BountyView,
    pub agent: Pubkey,
}

/// What a submission needs, as contracts see it.
pub ghost struct SubmitWorkView {
    pub bounty: BountyView,
    pub agent: Pubkey,
}

/// What an approval needs, as contracts see it.
pub ghost struct ApproveWorkView {
    pub bounty: BountyView,
    pub vault: TokenAccount,
    pub agent_token_account: TokenAccount,
    pub client: Pubkey,
    pub registry: UpdateReputationView,
}

/// What a dispute needs, as contracts see it.
pub ghost struct DisputeBountyView {
    pub bounty: BountyView,
    pub authority: Pubkey,
}

/// What a review needs, as contracts see it.
pub ghost struct LeaveReviewView {
    pub bounty: BountyView,
    pub bounty_key: Pubkey,
    pub review: Option<ReviewView>,
    pub review_key: Pubkey,
    pub client: Pubkey,
    pub registry: UpdateReputationView,
    pub program_id: Pubkey,
}

/// What a cancellation needs, as contracts see it.
pub ghost struct CancelBountyView {
    pub bounty: BountyView,
    pub vault: TokenAccount,
    pub client_token_account: TokenAccount,
    pub client: Pubkey,
}

impl View for CreateBounty {
    type V = CreateBountyView;

    open spec fn view(&self) -> CreateBountyView {
        CreateBountyView {
            client_state: self.client_state,
            bounty: bounty_slot_view(self.bounty),
            bounty_key: self.bounty_key,
            vault: self.vault,
            vault_key: self.vault_key,
            client: self.client,
            client_token_account: self.client_token_account,
            usdc_mint: self.usdc_mint,
            program_id: self.program_id,
        }
    }
}

impl View for ClaimBounty {
    type V = ClaimBountyView;

    open spec fn view(&self) -> ClaimBountyView {
        ClaimBountyView { bounty: self.bounty@, agent: self.agent }
    }
}

impl View for SubmitWork {
    type V = SubmitWorkView;

    open spec fn view(&self) -> SubmitWorkView {
        SubmitWorkView { bounty: self.bounty@, agent: self.agent }
    }
}

impl View for ApproveWork {
    type V = ApproveWorkView;

    open spec fn view(&self) -> ApproveWorkView {
        ApproveWorkView {
            bounty: self.bounty@,
            vault: self.vault,
            agent_token_account: self.agent_token_account,
            client: self.client,
            registry: self.registry@,
        }
    }
}

impl View for DisputeBounty {
    type V = DisputeBountyView;

    open spec fn view(&self) -> DisputeBountyView {
        DisputeBountyView { bounty: self.bounty@, authority: self.authority }
    }
}

impl View for LeaveReview {
    type V = LeaveReviewView;

    open spec fn view(&self) -> LeaveReviewView {
        LeaveReviewView {
            bounty: self.bounty@,
            bounty_key: self.bounty_key,
            review: review_slot_view(self.review),
            review_key: self.review_key,
            client: self.client,
            registry: self.registry@,
            program_id: self.program_id,
        }
    }
}

impl View for CancelBounty {
    type V = CancelBountyView;

    open spec fn view(&self) -> CancelBountyView {
        CancelBountyView {
            bounty: self.bounty@,
            vault: self.vault,
            client_token_account: self.client_token_account,
            client: self.client,
        }
    }
}

/// The counter of a client who has created no bounty yet.
pub open spec fn fresh_counter(client: Pubkey, bump: u8) -> ClientState {
    ClientState { owner: client, bounty_count: 0, bump }
}

/// The vault of a new bounty before the budget is paid in: an empty account
/// of the bounty's asset that answers to nobody but itself.
pub open spec fn empty_vault(vault_key: Pubkey, mint: Pubkey) -> TokenAccount {
    TokenAccount { key: vault_key, mint, owner: vault_key, amount: 0 }
}

/// The bounty that a client has just created.
pub open spec fn opened(
    client: Pubkey,
    bounty_id: u64,
    metadata_uri: Seq<char>,
    budget: u64,
    deadline: i64,
    vault: Pubkey,
    usdc_mint: Pubkey,
    bump: u8,
    now: i64,
) -> BountyView {
    BountyView {
        client,
        bounty_id: bounty_id as nat,
        metadata_uri,
        budget: budget as nat,
        deadline: deadline as int,
        status: BountyStatus::Open,
        claims: 0,
        assigned_agent: None,
        deliverable_uri: Seq::empty(),
        vault,
        usdc_mint,
        bump,
        created_at: now as int,
    }
}

/// The bounty after `agent` has claimed it.
pub open spec fn claimed(bounty: BountyView, agent: Pubkey) -> BountyView {
    BountyView {
        assigned_agent: Some(agent),
        status: BountyStatus::Claimed,
        claims: bounty.claims + 1,
        ..bounty
    }
}

/// The bounty after its work has been submitted.
pub open spec fn delivered(bounty: BountyView, deliverable_uri: Seq<char>) -> BountyView {
    BountyView { deliverable_uri, status: BountyStatus::Delivered, ..bounty }
}

/// The bounty in another status, all else the same.
pub open spec fn moved_to(bounty: BountyView, status: BountyStatus) -> BountyView {
    BountyView { status, ..bounty }
}

/// The review that the client of a bounty has just left.
pub open spec fn reviewed(
    bounty_key: Pubkey,
    reviewer: Pubkey,
    agent: Pubkey,
    rating: u64,
    comment_uri: Seq<char>,
    bump: u8,
    now: i64,
) -> ReviewView {
    ReviewView {
        bounty: bounty_key,
        reviewer,
        agent,
        rating: rating as nat,
        comment_uri,
        bump,
        created_at: now as int,
    }
}

/// What opening a client's counter does, given the address `derived` for
/// the client's counter: a counter at zero is stored at that address and
/// nowhere else, unless one stands there.
pub open spec fn init_client_outcome(ctx: InitClient, derived: Option<(Seq<u8>, u8)>) -> Result<
    InitClient,
    BountyError,
> {
    match bump_at(ctx.client_state_key@, derived) {
        None => Err(BountyError::AddressMismatch),
        Some(bump) => if ctx.client_state is Some {
            Err(BountyError::AlreadyExists)
        } else {
            Ok(InitClient { client_state: Some(fresh_counter(ctx.client, bump)), ..ctx })
        },
    }
}

/// What creating a bounty does, given the address `bounty_at` derived for
/// the client's next bounty and the address `vault_at` derived for the vault
/// of the bounty at `bounty_key`.
///
/// The bounty takes the counter's value as its sequence number and the
/// counter moves on by one; the vault is opened with exactly the budget in
/// it, paid from the client's account. Or nothing of this happens: where the
/// counter is not the caller's, the bounty or the vault would not stand at
/// its address, a place is taken, the reference is too long, the budget is
/// zero, the deadline is not in the future, the counter is exhausted, or the
/// payment is refused.
pub open spec fn create_outcome(
    ctx: CreateBountyView,
    bounty_at: Option<(Seq<u8>, u8)>,
    vault_at: Option<(Seq<u8>, u8)>,
    metadata_uri: Seq<char>,
    budget: u64,
    deadline: i64,
    now: i64,
) -> Result<(CreateBountyView, Deposit), BountyError> {
    if ctx.client_state.owner != ctx.client {
        Err(BountyError::Unauthorized)
    } else if bump_at(ctx.bounty_key@, bounty_at) is None || bump_at(ctx.vault_key@, vault_at)
        is None {
        Err(BountyError::AddressMismatch)
    } else if ctx.bounty is Some || ctx.vault is Some {
        Err(BountyError::AlreadyExists)
    } else if !uri_fits(metadata_uri) {
        Err(BountyError::UriTooLong)
    } else if budget == 0 {
        Err(BountyError::InvalidBudget)
    } else if deadline <= now {
        Err(BountyError::DeadlinePassed)
    } else if ctx.client_state.bounty_count == u64::MAX {
        Err(BountyError::Overflow)
    } else {
        match transfer_outcome(
            ctx.client_token_account,
            empty_vault(ctx.vault_key, ctx.usdc_mint),
            ctx.client,
            budget as nat,
        ) {
            Err(e) => Err(e),
            Ok(moved) => Ok(
                (
                    CreateBountyView {
                        client_state: ClientState {
                            bounty_count: (ctx.client_state.bounty_count + 1) as u64,
                            ..ctx.client_state
                        },
                        bounty: Some(
                            opened(
                                ctx.client,
                                ctx.client_state.bounty_count,
                                metadata_uri,
                                budget,
                                deadline,
                                ctx.vault_key,
                                ctx.usdc_mint,
                                bump_at(ctx.bounty_key@, bounty_at)->0,
                                now,
                            ),
                        ),
                        vault: Some(moved.to),
                        client_token_account: moved.from,
                        ..ctx
                    },
                    Deposit {
                        transfer: moved.order,
                        vault_bump: bump_at(ctx.vault_key@, vault_at)->0,
                    },
                ),
            ),
        }
    }
}

/// What a claim does: the first claim of an open bounty assigns it, and
/// every other claim is refused.
pub open spec fn claim_outcome(ctx: ClaimBountyView) -> Result<ClaimBountyView, BountyError> {
    if !(ctx.bounty.status is Open) {
        Err(BountyError::NotOpen)
    } else if ctx.bounty.claims >= u64::MAX {
        Err(BountyError::Overflow)
    } else {
        Ok(ClaimBountyView { bounty: claimed(ctx.bounty, ctx.agent), ..ctx })
    }
}

/// What a submission does: the assigned agent's reference is stored with a
/// claimed bounty, which is then delivered.
pub open spec fn submit_outcome(ctx: SubmitWorkView, deliverable_uri: Seq<char>) -> Result<
    SubmitWorkView,
    BountyError,
> {
    if !uri_fits(deliverable_uri) {
        Err(BountyError::UriTooLong)
    } else if !(ctx.bounty.status is Claimed) {
        Err(BountyError::NotClaimed)
    } else if ctx.bounty.assigned_agent != Some(ctx.agent) {
        Err(BountyError::NotAssignedAgent)
    } else {
        Ok(SubmitWorkView { bounty: delivered(ctx.bounty, deliverable_uri), ..ctx })
    }
}

/// What an approval does.
///
/// For the client of a delivered bounty, the budget leaves the vault for
/// the assigned agent's account, signed for by the vault itself, the
/// registry adds the budget to the agent's earnings, and the bounty is
/// completed. Or nothing of this happens.
pub open spec fn approve_outcome(ctx: ApproveWorkView) -> Result<
    (ApproveWorkView, Transfer),
    BountyError,
> {
    if ctx.client != ctx.bounty.client {
        Err(BountyError::Unauthorized)
    } else if !(ctx.bounty.status is Delivered) {
        Err(BountyError::NotDelivered)
    } else if ctx.vault.key != ctx.bounty.vault || ctx.bounty.assigned_agent != Some(
        ctx.agent_token_account.owner,
    ) || ctx.agent_token_account.mint != ctx.bounty.usdc_mint || ctx.registry.agent.owner
        != ctx.agent_token_account.owner {
        Err(BountyError::AccountMismatch)
    } else {
        match transfer_outcome(
            ctx.vault,
            ctx.agent_token_account,
            ctx.vault.key,
            ctx.bounty.budget,
        ) {
            Err(e) => Err(e),
            Ok(moved) => match earn_outcome(
                ctx.registry.agent,
                ctx.registry.authority,
                ctx.registry.settlement_authority,
                ctx.bounty.budget,
            ) {
                Err(e) => Err(BountyError::Settlement(e)),
                Ok(agent) => Ok(
                    (
                        ApproveWorkView {
                            bounty: moved_to(ctx.bounty, BountyStatus::Completed),
                            vault: moved.from,
                            agent_token_account: moved.to,
                            registry: UpdateReputationView { agent, ..ctx.registry },
                            ..ctx
                        },
                        moved.order,
                    ),
                ),
            },
        }
    }
}

/// What a dispute does: the client or the assigned agent freezes a claimed
/// or delivered bounty. No funds move.
pub open spec fn dispute_outcome(ctx: DisputeBountyView) -> Result<
    DisputeBountyView,
    BountyError,
> {
    if ctx.authority != ctx.bounty.client && ctx.bounty.assigned_agent != Some(ctx.authority) {
        Err(BountyError::Unauthorized)
    } else if !(ctx.bounty.status is Claimed || ctx.bounty.status is Delivered) {
        Err(BountyError::CannotDispute)
    } else {
        Ok(DisputeBountyView { bounty: moved_to(ctx.bounty, BountyStatus::Disputed), ..ctx })
    }
}

/// What a review does, given the address `derived` for the review of the
/// bounty at `bounty_key`.
///
/// For the client of a completed bounty that has no review yet, the review
/// is stored at that address and nowhere else, and the registry settles the
/// rating into the assigned agent's reputation. Or neither happens.
pub open spec fn review_outcome(
    ctx: LeaveReviewView,
    derived: Option<(Seq<u8>, u8)>,
    rating: u64,
    comment_uri: Seq<char>,
    now: i64,
) -> Result<LeaveReviewView, BountyError> {
    if ctx.client != ctx.bounty.client {
        Err(BountyError::Unauthorized)
    } else if bump_at(ctx.review_key@, derived) is None {
        Err(BountyError::AddressMismatch)
    } else if ctx.review is Some {
        Err(BountyError::AlreadyExists)
    } else if !rating_valid(rating) {
        Err(BountyError::InvalidRating)
    } else if !uri_fits(comment_uri) {
        Err(BountyError::UriTooLong)
    } else if !(ctx.bounty.status is Completed) {
        Err(BountyError::NotCompleted)
    } else if ctx.bounty.assigned_agent != Some(ctx.registry.agent.owner) {
        Err(BountyError::AccountMismatch)
    } else {
        match settle_outcome(
            ctx.registry.agent,
            ctx.registry.authority,
            ctx.registry.settlement_authority,
            rating,
        ) {
            Err(e) => Err(BountyError::Settlement(e)),
            Ok(agent) => Ok(
                LeaveReviewView {
                    review: Some(
                        reviewed(
                            ctx.bounty_key,
                            ctx.client,
                            ctx.registry.agent.owner,
                            rating,
                            comment_uri,
                            bump_at(ctx.review_key@, derived)->0,
                            now,
                        ),
                    ),
                    registry: UpdateReputationView { agent, ..ctx.registry },
                    ..ctx
                },
            ),
        }
    }
}

/// What a cancellation does.
///
/// For the client of an open bounty, the budget leaves the vault for the
/// client's account, signed for by the vault itself, the emptied vault is
/// closed in the client's favour, and the bounty is cancelled. Or nothing of
/// this happens: also where the vault would not be empty after the payment,
/// since only an empty vault can be closed.
pub open spec fn cancel_outcome(ctx: CancelBountyView) -> Result<
    (CancelBountyView, Refund),
    BountyError,
> {
    if ctx.client != ctx.bounty.client {
        Err(BountyError::Unauthorized)
    } else if !(ctx.bounty.status is Open) {
        Err(BountyError::NotOpen)
    } else if ctx.vault.key != ctx.bounty.vault || ctx.client_token_account.owner != ctx.client
        || ctx.client_token_account.mint != ctx.bounty.usdc_mint {
        Err(BountyError::AccountMismatch)
    } else {
        match transfer_outcome(
            ctx.vault,
            ctx.client_token_account,
            ctx.vault.key,
            ctx.bounty.budget,
        ) {
            Err(e) => Err(e),
            Ok(moved) => if moved.from.amount != 0 {
                Err(BountyError::AccountMismatch)
            } else {
                Ok(
                    (
                        CancelBountyView {
                            bounty: moved_to(ctx.bounty, BountyStatus::Cancelled),
                            vault: moved.from,
                            client_token_account: moved.to,
                            ..ctx
                        },
                        Refund {
                            transfer: moved.order,
                            close: CloseAccount {
                                account: ctx.vault.key,
                                destination: ctx.client,
                                authority: ctx.vault.key,
                            },
                        },
                    ),
                )
            },
        }
    }
}

/// Opens the bounty counter of a client, once, at the address derived for
/// the client.
pub fn init_client(ctx: &mut InitClient) -> (r: Result<(), BountyError>)
    ensures
        match init_client_outcome(
            *old(ctx),
            program_address(client_seeds(old(ctx).client), old(ctx).program_id@),
        ) {
            Ok(post) => r is Ok && *final(ctx) == post,
            Err(e) => r == Err::<(), BountyError>(e) && *final(ctx) == *old(ctx),
        },
{
    let derived = client_address(&ctx.client, &ctx.program_id);
    init_client_at(ctx, derived)
}

/// Opens the bounty counter of a client, given the address derived for the
/// client.
pub fn init_client_at(ctx: &mut InitClient, derived: Option<(Pubkey, u8)>) -> (r: Result<
    (),
    BountyError,
>)
    ensures
        match init_client_outcome(*old(ctx), derived_view(derived)) {
            Ok(post) => r is Ok && *final(ctx) == post,
            Err(e) => r == Err::<(), BountyError>(e) && *final(ctx) == *old(ctx),
        },
{
    let bump: u8 = match located(&ctx.client_state_key, derived) {
        Some(bump) => bump,
        None => {
            return Err(BountyError::AddressMismatch);
        },
    };
    if ctx.client_state.is_some() {
        return Err(BountyError::AlreadyExists);
    }
    ctx.client_state = Some(ClientState { owner: ctx.client, bounty_count: 0, bump });
    Ok(())
}

/// Creates a bounty and locks its budget in a new vault, each at the
/// address derived for it: the bounty's from the client and the counter's
/// value, the vault's from the bounty's.
///
/// Returns what is left to do: open the vault and pay the budget from the
/// client's account into it. A refused creation leaves the counter, the
/// accounts and both places as they were.
pub fn create_bounty(
    ctx: &mut CreateBounty,
    metadata_uri: String,
    budget: u64,
    deadline: i64,
    now: i64,
) -> (r: Result<Deposit, BountyError>)
    ensures
        match create_outcome(
            old(ctx)@,
            program_address(
                bounty_seeds(old(ctx).client, old(ctx).client_state.bounty_count),
                old(ctx).program_id@,
            ),
            program_address(vault_seeds(old(ctx).bounty_key), old(ctx).program_id@),
            metadata_uri@,
            budget,
            deadline,
            now,
        ) {
            Ok((post, deposit)) => {
                &&& r == Ok::<Deposit, BountyError>(deposit)
                &&& final(ctx)@ == post
                &&& post.bounty->0.wf()
                &&& escrow_balanced(post.bounty->0, post.vault->0)
            },
            Err(e) => r == Err::<Deposit, BountyError>(e) && *final(ctx) == *old(ctx),
        },
{
    let bounty_at = bounty_address(&ctx.client, ctx.client_state.bounty_count, &ctx.program_id);
    let vault_at = vault_address(&ctx.bounty_key, &ctx.program_id);
    create_bounty_at(ctx, bounty_at, vault_at, metadata_uri, budget, deadline, now)
}

/// Creates a bounty and locks its budget in a new vault, given the
/// addresses derived for the bounty and for its vault.
pub fn create_bounty_at(
    ctx: &mut CreateBounty,
    bounty_at: Option<(Pubkey, u8)>,
    vault_at: Option<(Pubkey, u8)>,
    metadata_uri: String,
    budget: u64,
    deadline: i64,
    now: i64,
) -> (r: Result<Deposit, BountyError>)
    ensures
        match create_outcome(
            old(ctx)@,
            derived_view(bounty_at),
            derived_view(vault_at),
            metadata_uri@,
            budget,
            deadline,
            now,
        ) {
            Ok((post, deposit)) => {
                &&& r == Ok::<Deposit, BountyError>(deposit)
                &&& final(ctx)@ == post
                &&& post.bounty->0.wf()
                &&& escrow_balanced(post.bounty->0, post.vault->0)
            },
            Err(e) => r == Err::<Deposit, BountyError>(e) && *final(ctx) == *old(ctx),
        },
{
    if ctx.client_state.owner != ctx.client {
        return Err(BountyError::Unauthorized);
    }
    let bounty_bump = located(&ctx.bounty_key, bounty_at);
    let vault_bump = located(&ctx.vault_key, vault_at);
    let (bump, vault_bump): (u8, u8) = match (bounty_bump, vault_bump) {
        (Some(bump), Some(vault_bump)) => (bump, vault_bump),
        _ => {
            return Err(BountyError::AddressMismatch);
        },
    };
    if ctx.bounty.is_some() || ctx.vault.is_some() {
        return Err(BountyError::AlreadyExists);
    }
    if !check_uri(&metadata_uri) {
        return Err(BountyError::UriTooLong);
    }
    if budget == 0 {
        return Err(BountyError::InvalidBudget);
    }
    if deadline <= now {
        return Err(BountyError::DeadlinePassed);
    }
    let bounty_id: u64 = ctx.client_state.bounty_count;
    if bounty_id == u64::MAX {
        return Err(BountyError::Overflow);
    }
    let mut payer = ctx.client_token_account;
    let mut vault = TokenAccount {
        key: ctx.vault_key,
        mint: ctx.usdc_mint,
        owner: ctx.vault_key,
        amount: 0,
    };
    let order = match transfer(&mut payer, &mut vault, &ctx.client, budget) {
        Ok(order) => order,
        Err(e) => {
            return Err(e);
        },
    };
    ctx.client_state.bounty_count = bounty_id + 1;
    ctx.bounty = Some(
        Bounty {
            client: ctx.client,
            bounty_id,
            metadata_uri,
            budget,
            deadline,
            status: BountyStatus::Open,
            claims: 0,
            assigned_agent: None,
            deliverable_uri: String::new(),
            vault: ctx.vault_key,
            usdc_mint: ctx.usdc_mint,
            bump,
            created_at: now,
        },
    );
    ctx.vault = Some(vault);
    ctx.client_token_account = payer;
    Ok(Deposit { transfer: order, vault_bump })
}

/// Assigns an open bounty to the agent who asks. The first claim wins:
/// every later one finds the bounty no longer open.
pub fn claim_bounty(ctx: &mut ClaimBounty) -> (r: Result<(), BountyError>)
    ensures
        match claim_outcome(old(ctx)@) {
            Ok(post) => {
                &&& r is Ok
                &&& final(ctx)@ == post
                &&& old(ctx).bounty@.wf() ==> post.bounty.wf()
            },
            Err(e) => r == Err::<(), BountyError>(e) && *final(ctx) == *old(ctx),
        },
{
    if ctx.bounty.status != BountyStatus::Open {
        return Err(BountyError::NotOpen);
    }
    if ctx.bounty.claims == u64::MAX {
        return Err(BountyError::Overflow);
    }
    ctx.bounty.assigned_agent = Some(ctx.agent);
    ctx.bounty.status = BountyStatus::Claimed;
    ctx.bounty.claims = ctx.bounty.claims + 1;
    Ok(())
}

/// Stores the assigned agent's deliverable with a claimed bounty.
pub fn submit_work(ctx: &mut SubmitWork, deliverable_uri: String) -> (r: Result<(), BountyError>)
    ensures
        match submit_outcome(old(ctx)@, deliverable_uri@) {
            Ok(post) => {
                &&& r is Ok
                &&& final(ctx)@ == post
                &&& old(ctx).bounty@.wf() ==> post.bounty.wf()
            },
            Err(e) => r == Err::<(), BountyError>(e) && *final(ctx) == *old(ctx),
        },
{
    if !check_uri(&deliverable_uri) {
        return Err(BountyError::UriTooLong);
    }
    if ctx.bounty.status != BountyStatus::Claimed {
        return Err(BountyError::NotClaimed);
    }
    if ctx.bounty.assigned_agent != Some(ctx.agent) {
        return Err(BountyError::NotAssignedAgent);
    }
    ctx.bounty.deliverable_uri = deliverable_uri;
    ctx.bounty.status = BountyStatus::Delivered;
    Ok(())
}

/// Pays the assigned agent of a delivered bounty and completes it.
///
/// Returns the order that pays the budget from the vault into the agent's
/// account. This is the only way from the vault to an agent, and it is
/// open to the client of a delivered bounty alone.
pub fn approve_work(ctx: &mut ApproveWork) -> (r: Result<Transfer, BountyError>)
    ensures
        match approve_outcome(old(ctx)@) {
            Ok((post, order)) => {
                &&& r == Ok::<Transfer, BountyError>(order)
                &&& final(ctx)@ == post
                &&& old(ctx).bounty@.wf() ==> post.bounty.wf()
                &&& escrow_balanced(old(ctx).bounty@, old(ctx).vault) ==> escrow_balanced(
                    post.bounty,
                    post.vault,
                )
            },
            Err(e) => r == Err::<Transfer, BountyError>(e) && *final(ctx) == *old(ctx),
        },
{
    if ctx.client != ctx.bounty.client {
        return Err(BountyError::Unauthorized);
    }
    if ctx.bounty.status != BountyStatus::Delivered {
        return Err(BountyError::NotDelivered);
    }
    if ctx.vault.key != ctx.bounty.vault || ctx.bounty.assigned_agent != Some(
        ctx.agent_token_account.owner,
    ) || ctx.agent_token_account.mint != ctx.bounty.usdc_mint || ctx.registry.agent.owner
        != ctx.agent_token_account.owner {
        return Err(BountyError::AccountMismatch);
    }
    let budget: u64 = ctx.bounty.budget;
    let mut vault = ctx.vault;
    let mut receiver = ctx.agent_token_account;
    let signer = vault.key;
    let order = match transfer(&mut vault, &mut receiver, &signer, budget) {
        Ok(order) => order,
        Err(e) => {
            return Err(e);
        },
    };
    match add_earnings(&mut ctx.registry, budget) {
        Ok(()) => {},
        Err(e) => {
            return Err(BountyError::Settlement(e));
        },
    }
    ctx.vault = vault;
    ctx.agent_token_account = receiver;
    ctx.bounty.status = BountyStatus::Completed;
    Ok(order)
}

/// Freezes a claimed or delivered bounty, for its client or its assigned
/// agent. The vault keeps the budget.
pub fn dispute_bounty(ctx: &mut DisputeBounty) -> (r: Result<(), BountyError>)
    ensures
        match dispute_outcome(old(ctx)@) {
            Ok(post) => {
                &&& r is Ok
                &&& final(ctx)@ == post
                &&& old(ctx).bounty@.wf() ==> post.bounty.wf()
            },
            Err(e) => r == Err::<(), BountyError>(e) && *final(ctx) == *old(ctx),
        },
{
    if ctx.authority != ctx.bounty.client && ctx.bounty.assigned_agent != Some(ctx.authority) {
        return Err(BountyError::Unauthorized);
    }
    if !(ctx.bounty.status == BountyStatus::Claimed || ctx.bounty.status
        == BountyStatus::Delivered) {
        return Err(BountyError::CannotDispute);
    }
    ctx.bounty.status = BountyStatus::Disputed;
    Ok(())
}

/// Stores the client's review of a completed bounty, at the address derived
/// for the review of that bounty, and settles its rating into the agent's
/// reputation, both or neither.
pub fn leave_review(ctx: &mut LeaveReview, rating: u64, comment_uri: String, now: i64) -> (r:
    Result<(), BountyError>)
    ensures
        match review_outcome(
            old(ctx)@,
            program_address(review_seeds(old(ctx).bounty_key), old(ctx).program_id@),
            rating,
            comment_uri@,
            now,
        ) {
            Ok(post) => {
                &&& r is Ok
                &&& final(ctx)@ == post
                &&& old(ctx).registry.agent@.wf() ==> post.registry.agent.wf()
            },
            Err(e) => r == Err::<(), BountyError>(e) && *final(ctx) == *old(ctx),
        },
{
    let derived = review_address(&ctx.bounty_key, &ctx.program_id);
    leave_review_at(ctx, derived, rating, comment_uri, now)
}

/// Stores the client's review of a completed bounty and settles its rating,
/// given the address derived for the review of that bounty.
pub fn leave_review_at(
    ctx: &mut LeaveReview,
    derived: Option<(Pubkey, u8)>,
    rating: u64,
    comment_uri: String,
    now: i64,
) -> (r: Result<(), BountyError>)
    ensures
        match review_outcome(old(ctx)@, derived_view(derived), rating, comment_uri@, now) {
            Ok(post) => {
                &&& r is Ok
                &&& final(ctx)@ == post
                &&& old(ctx).registry.agent@.wf() ==> post.registry.agent.wf()
            },
            Err(e) => r == Err::<(), BountyError>(e) && *final(ctx) == *old(ctx),
        },
{
    if ctx.client != ctx.bounty.client {
        return Err(BountyError::Unauthorized);
    }
    let bump: u8 = match located(&ctx.review_key, derived) {
        Some(bump) => bump,
        None => {
            return Err(BountyError::AddressMismatch);
        },
    };
    if ctx.review.is_some() {
        return Err(BountyError::AlreadyExists);
    }
    if !check_rating(rating) {
        return Err(BountyError::InvalidRating);
    }
    if !check_uri(&comment_uri) {
        return Err(BountyError::UriTooLong);
    }
    if ctx.bounty.status != BountyStatus::Completed {
        return Err(BountyError::NotCompleted);
    }
    if ctx.bounty.assigned_agent != Some(ctx.registry.agent.owner) {
        return Err(BountyError::AccountMismatch);
    }
    match update_reputation(&mut ctx.registry, rating) {
        Ok(()) => {},
        Err(e) => {
            return Err(BountyError::Settlement(e));
        },
    }
    ctx.review = Some(
        Review {
            bounty: ctx.bounty_key,
            reviewer: ctx.client,
            agent: ctx.registry.agent.owner,
            rating,
            comment_uri,
            bump,
            created_at: now,
        },
    );
    Ok(())
}

/// Pays the budget of an open bounty back to its client and cancels it.
///
/// Returns the order that pays the budget from the vault into the client's
/// account, and the order that closes the emptied vault.
pub fn cancel_bounty(ctx: &mut CancelBounty) -> (r: Result<Refund, BountyError>)
    ensures
        match cancel_outcome(old(ctx)@) {
            Ok((post, refund)) => {
                &&& r == Ok::<Refund, BountyError>(refund)
                &&& final(ctx)@ == post
                &&& old(ctx).bounty@.wf() ==> post.bounty.wf()
                &&& escrow_balanced(old(ctx).bounty@, old(ctx).vault) ==> escrow_balanced(
                    post.bounty,
                    post.vault,
                )
            },
            Err(e) => r == Err::<Refund, BountyError>(e) && *final(ctx) == *old(ctx),
        },
{
    if ctx.client != ctx.bounty.client {
        return Err(BountyError::Unauthorized);
    }
    if ctx.bounty.status != BountyStatus::Open {
        return Err(BountyError::NotOpen);
    }
    if ctx.vault.key != ctx.bounty.vault || ctx.client_token_account.owner != ctx.client
        || ctx.client_token_account.mint != ctx.bounty.usdc_mint {
        return Err(BountyError::AccountMismatch);
    }
    let mut vault = ctx.vault;
    let mut receiver = ctx.client_token_account;
    let signer = vault.key;
    let order = match transfer(&mut vault, &mut receiver, &signer, ctx.bounty.budget) {
        Ok(order) => order,
        Err(e) => {
            return Err(e);
        },
    };
    if vault.amount != 0 {
        return Err(BountyError::AccountMismatch);
    }
    ctx.vault = vault;
    ctx.client_token_account = receiver;
    ctx.bounty.status = BountyStatus::Cancelled;
    Ok(
        Refund {
            transfer: order,
            close: CloseAccount { account: signer, destination: ctx.client, authority: signer },
        },
    )
}

} // verus!
