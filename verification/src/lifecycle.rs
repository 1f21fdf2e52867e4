use crate::address::{bump_at, Pubkey};
use crate::agent_registry::{settled, UpdateReputationView};
use crate::bounty_escrow::{
    approve_outcome, cancel_outcome, claim_outcome, claimed, create_outcome, dispute_outcome,
    escrow_balanced, review_outcome, reviewed, submit_outcome, ApproveWorkView, BountyStatus,
    BountyView, CancelBountyView, ClaimBountyView, CreateBountyView, Deposit, DisputeBountyView,
    LeaveReviewView, SubmitWorkView,
};
use crate::error::BountyError;
use crate::token::{TokenAccount, Transfer};
use vstd::prelude::*;

verus! {

/// A bounty together with its vault.
pub ghost struct Escrow {
    pub bounty: BountyView,
    pub vault: TokenAccount,
}

/// A request on an existing bounty that can change the bounty or its
/// vault, with all that the request brings along.
pub ghost enum Request {
    Claim { agent: Pubkey },
    Submit { agent: Pubkey, deliverable_uri: Seq<char> },
    Approve { agent_token_account: TokenAccount, client: Pubkey, registry: UpdateReputationView },
    Dispute { authority: Pubkey },
    Cancel { client_token_account: TokenAccount, client: Pubkey },
}

/// What one request makes of a bounty and its vault, or why it is refused.
pub open spec fn step(pre: Escrow, request: Request) -> Result<Escrow, BountyError> {
    match request {
        Request::Claim { agent } => match claim_outcome(
            ClaimBountyView { bounty: pre.bounty, agent },
        ) {
            Ok(post) => Ok(Escrow { bounty: post.bounty, ..pre }),
            Err(e) => Err(e),
        },
        Request::Submit { agent, deliverable_uri } => match submit_outcome(
            SubmitWorkView { bounty: pre.bounty, agent },
            deliverable_uri,
        ) {
            Ok(post) => Ok(Escrow { bounty: post.bounty, ..pre }),
            Err(e) => Err(e),
        },
        Request::Approve { agent_token_account, client, registry } => match approve_outcome(
            ApproveWorkView {
                bounty: pre.bounty,
                vault: pre.vault,
                agent_token_account,
                client,
                registry,
            },
        ) {
            Ok(post) => Ok(Escrow { bounty: post.0.bounty, vault: post.0.vault }),
            Err(e) => Err(e),
        },
        Request::Dispute { authority } => match dispute_outcome(
            DisputeBountyView { bounty: pre.bounty, authority },
        ) {
            Ok(post) => Ok(Escrow { bounty: post.bounty, ..pre }),
            Err(e) => Err(e),
        },
        Request::Cancel { client_token_account, client } => match cancel_outcome(
            CancelBountyView { bounty: pre.bounty, vault: pre.vault, client_token_account, client },
        ) {
            Ok(post) => Ok(Escrow { bounty: post.0.bounty, vault: post.0.vault }),
            Err(e) => Err(e),
        },
    }
}

/// Whether a request pays the vault out: an approval or a cancellation
/// that is granted.
pub open spec fn releases(pre: Escrow, request: Request) -> bool {
    (request is Approve || request is Cancel) && step(pre, request) is Ok
}

/// The bounty and its vault after a list of requests, served one after the
/// other, a refused request changing nothing.
pub open spec fn after(start: Escrow, requests: Seq<Request>) -> Escrow
    decreases requests.len(),
{
    if requests.len() == 0 {
        start
    } else {
        let before = after(start, requests.drop_last());
        match step(before, requests.last()) {
            Ok(next) => next,
            Err(_) => before,
        }
    }
}

/// How many of a list of requests paid the vault out.
pub open spec fn release_count(start: Escrow, requests: Seq<Request>) -> nat
    decreases requests.len(),
{
    if requests.len() == 0 {
        0
    } else {
        let before = after(start, requests.drop_last());
        release_count(start, requests.drop_last()) + if releases(before, requests.last()) {
            1nat
        } else {
            0nat
        }
    }
}

/// Whether the ledger ever moves a bounty from one status to the other in
/// one request.
pub open spec fn allowed(from: BountyStatus, to: BountyStatus) -> bool {
    match (from, to) {
        (BountyStatus::Open, BountyStatus::Claimed) => true,
        (BountyStatus::Open, BountyStatus::Cancelled) => true,
        (BountyStatus::Claimed, BountyStatus::Delivered) => true,
        (BountyStatus::Claimed, BountyStatus::Disputed) => true,
        (BountyStatus::Delivered, BountyStatus::Completed) => true,
        (BountyStatus::Delivered, BountyStatus::Disputed) => true,
        _ => false,
    }
}

/// What no request ever changes in a bounty: who posted it, its number, its
/// description, its budget and deadline, its vault and asset, and where and
/// when it was created.
pub open spec fn same_terms(a: BountyView, b: BountyView) -> bool {
    &&& a.client == b.client
    &&& a.bounty_id == b.bounty_id
    &&& a.metadata_uri == b.metadata_uri
    &&& a.budget == b.budget
    &&& a.deadline == b.deadline
    &&& a.vault == b.vault
    &&& a.usdc_mint == b.usdc_mint
    &&& a.bump == b.bump
    &&& a.created_at == b.created_at
}

/// Every granted request follows an arrow of the lifecycle, keeps the
/// bounty's terms, assigns an agent only to an open bounty, and leaves in
/// the vault exactly what the bounty keeps in escrow. Only a granted approval or
/// cancellation changes the vault, and it empties it.
pub proof fn lemma_step(pre: Escrow, request: Request)
    requires
        step(pre, request) is Ok,
    ensures
        ({
            let post = step(pre, request)->Ok_0;
            &&& allowed(pre.bounty.status, post.bounty.status)
            &&& same_terms(pre.bounty, post.bounty)
            &&& pre.bounty.status is Open || post.bounty.assigned_agent
                == pre.bounty.assigned_agent
            &&& pre.bounty.wf() ==> post.bounty.wf()
            &&& escrow_balanced(pre.bounty, pre.vault) ==> escrow_balanced(
                post.bounty,
                post.vault,
            )
            &&& !releases(pre, request) ==> post.vault == pre.vault
            &&& releases(pre, request) ==> {
                &&& post.bounty.status.is_released()
                &&& post.vault.amount == pre.vault.amount - pre.bounty.budget
            }
        }),
{
}

/// Who may do what: only the assigned agent submits, only the client
/// approves or cancels, only the client or the assigned agent disputes; and
/// each request is granted in one status only, a dispute in two.
pub proof fn lemma_request_rights(pre: Escrow, request: Request)
    requires
        step(pre, request) is Ok,
    ensures
        match request {
            Request::Claim { agent } => pre.bounty.status is Open,
            Request::Submit { agent, deliverable_uri } => {
                &&& pre.bounty.status is Claimed
                &&& pre.bounty.assigned_agent == Some(agent)
            },
            Request::Approve { agent_token_account, client, registry } => {
                &&& pre.bounty.status is Delivered
                &&& client == pre.bounty.client
            },
            Request::Dispute { authority } => {
                &&& pre.bounty.status is Claimed || pre.bounty.status is Delivered
                &&& authority == pre.bounty.client || pre.bounty.assigned_agent == Some(authority)
            },
            Request::Cancel { client_token_account, client } => {
                &&& pre.bounty.status is Open
                &&& client == pre.bounty.client
            },
        },
{
}

/// Nothing is granted on a bounty that is completed, disputed or
/// cancelled: those states are final.
pub proof fn lemma_terminal_is_final(pre: Escrow, request: Request)
    requires
        pre.bounty.status.is_terminal(),
    ensures
        step(pre, request) is Err,
{
}

/// The vault pays out to an agent on one path only: the approval of a
/// delivered bounty by its client.
pub proof fn lemma_payout_needs_delivery(ctx: ApproveWorkView)
    requires
        approve_outcome(ctx) is Ok,
    ensures
        ctx.bounty.status is Delivered,
        ctx.client == ctx.bounty.client,
        ctx.bounty.assigned_agent == Some(ctx.agent_token_account.owner),
        ({
            let (post, order) = approve_outcome(ctx)->Ok_0;
            &&& post.bounty.status is Completed
            &&& order == (Transfer {
                from: ctx.vault.key,
                to: ctx.agent_token_account.key,
                authority: ctx.vault.key,
                amount: ctx.bounty.budget as u64,
            })
            &&& post.vault.amount == ctx.vault.amount - ctx.bounty.budget
            &&& post.agent_token_account.amount == ctx.agent_token_account.amount
                + ctx.bounty.budget
            &&& post.registry.agent.total_earned == ctx.registry.agent.total_earned
                + ctx.bounty.budget
        }),
{
}

/// Whatever requests are served on a bounty whose vault holds its escrow,
/// the vault goes on holding it, the bounty's terms never change, and the
/// agent it was assigned to stays.
pub proof fn lemma_escrow_stays_balanced(start: Escrow, requests: Seq<Request>)
    requires
        escrow_balanced(start.bounty, start.vault),
    ensures
        escrow_balanced(after(start, requests).bounty, after(start, requests).vault),
        same_terms(start.bounty, after(start, requests).bounty),
        start.bounty.wf() ==> after(start, requests).bounty.wf(),
        start.bounty.wf() && start.bounty.assigned_agent is Some ==> after(
            start,
            requests,
        ).bounty.assigned_agent == start.bounty.assigned_agent,
    decreases requests.len(),
{
    if requests.len() > 0 {
        lemma_escrow_stays_balanced(start, requests.drop_last());
        let before = after(start, requests.drop_last());
        if step(before, requests.last()) is Ok {
            lemma_step(before, requests.last());
        }
    }
}

/// From its creation on, the vault of a bounty holds the budget until one
/// approval or cancellation is granted, and nothing from then on; no second
/// one is ever granted.
pub proof fn lemma_released_at_most_once(start: Escrow, requests: Seq<Request>)
    requires
        escrow_balanced(start.bounty, start.vault),
        start.bounty.status is Open,
        start.bounty.budget > 0,
    ensures
        release_count(start, requests) <= 1,
        release_count(start, requests) == 0 <==> !after(start, requests).bounty.status.is_released(),
        release_count(start, requests) == 0 ==> after(start, requests).vault.amount
            == start.bounty.budget,
        release_count(start, requests) == 1 ==> after(start, requests).vault.amount == 0,
    decreases requests.len(),
{
    if requests.len() > 0 {
        let head = requests.drop_last();
        lemma_released_at_most_once(start, head);
        lemma_escrow_stays_balanced(start, head);
        lemma_escrow_stays_balanced(start, requests);
        let before = after(start, head);
        if step(before, requests.last()) is Ok {
            lemma_step(before, requests.last());
            if before.bounty.status.is_terminal() {
                lemma_terminal_is_final(before, requests.last());
            }
        }
    }
}

/// Of two claims on an open bounty, the one served first wins: it assigns
/// the bounty to its agent, and the other is refused because the bounty is
/// no longer open and changes nothing.
pub proof fn lemma_first_claim_wins(bounty: BountyView, first: Pubkey, second: Pubkey)
    requires
        bounty.status is Open,
        bounty.claims < u64::MAX,
    ensures
        claim_outcome(ClaimBountyView { bounty, agent: first }) is Ok,
        ({
            let won = claim_outcome(ClaimBountyView { bounty, agent: first })->Ok_0.bounty;
            &&& won.assigned_agent == Some(first)
            &&& won.status is Claimed
            &&& won.claims == bounty.claims + 1
            &&& claim_outcome(ClaimBountyView { bounty: won, agent: second }) == Err::<
                ClaimBountyView,
                BountyError,
            >(BountyError::NotOpen)
        }),
{
}

/// The bounty after each of a list of agents has asked to claim it, one
/// after the other, a refused claim changing nothing.
pub open spec fn after_claims(bounty: BountyView, agents: Seq<Pubkey>) -> BountyView
    decreases agents.len(),
{
    if agents.len() == 0 {
        bounty
    } else {
        let before = after_claims(bounty, agents.drop_last());
        match claim_outcome(ClaimBountyView { bounty: before, agent: agents.last() }) {
            Ok(post) => post.bounty,
            Err(_) => before,
        }
    }
}

/// However many agents ask to claim an open bounty, it goes to the first of
/// them and to no other: every later claim finds the bounty no longer open.
pub proof fn lemma_one_claim_among_many(bounty: BountyView, agents: Seq<Pubkey>)
    requires
        bounty.status is Open,
        bounty.claims < u64::MAX,
        agents.len() > 0,
    ensures
        after_claims(bounty, agents) == claimed(bounty, agents[0]),
        forall|i: int|
            0 < i < agents.len() ==> claim_outcome(
                ClaimBountyView {
                    bounty: after_claims(bounty, agents.take(i)),
                    agent: #[trigger] agents[i],
                },
            ) == Err::<ClaimBountyView, BountyError>(BountyError::NotOpen),
    decreases agents.len(),
{
    if agents.len() == 1 {
        assert(agents.drop_last().len() == 0);
    } else {
        let head = agents.drop_last();
        lemma_one_claim_among_many(bounty, head);
        assert(head[0] == agents[0]);
        assert forall|i: int| 0 < i < agents.len() implies claim_outcome(
            ClaimBountyView {
                bounty: after_claims(bounty, agents.take(i)),
                agent: #[trigger] agents[i],
            },
        ) == Err::<ClaimBountyView, BountyError>(BountyError::NotOpen) by {
            if i < head.len() {
                assert(agents.take(i) =~= head.take(i));
                assert(head[i] == agents[i]);
            } else {
                assert(agents.take(i) =~= head);
            }
        }
    }
}

/// One request to create a bounty, with all that it brings along and the
/// addresses derived for the bounty and for its vault.
pub ghost struct Creation {
    pub ctx: CreateBountyView,
    pub bounty_at: Option<(Seq<u8>, u8)>,
    pub vault_at: Option<(Seq<u8>, u8)>,
    pub metadata_uri: Seq<char>,
    pub budget: u64,
    pub deadline: i64,
    pub now: i64,
}

impl Creation {
    /// What this request does.
    pub open spec fn outcome(self) -> Result<(CreateBountyView, Deposit), BountyError> {
        create_outcome(
            self.ctx,
            self.bounty_at,
            self.vault_at,
            self.metadata_uri,
            self.budget,
            self.deadline,
            self.now,
        )
    }
}

/// Whether a list of requests are creations that were all granted, each
/// finding the counter as the one before left it.
pub open spec fn creation_run(calls: Seq<Creation>) -> bool {
    &&& forall|i: int| 0 <= i < calls.len() ==> (#[trigger] calls[i]).outcome() is Ok
    &&& forall|i: int, j: int|
        0 <= i < calls.len() && j == i + 1 && j < calls.len() ==> (#[trigger] calls[j]).ctx.client_state
            == (#[trigger] calls[i]).outcome()->Ok_0.0.client_state
}

/// The bounties that a client creates are numbered in the order of their
/// creation, starting at the counter's value, so no two of them share a
/// number; and the counter ends as many steps on as bounties were created.
pub proof fn lemma_sequence_numbers_count_up(calls: Seq<Creation>)
    requires
        creation_run(calls),
    ensures
        forall|i: int|
            0 <= i < calls.len() ==> {
                &&& (#[trigger] calls[i]).ctx.client_state.bounty_count
                    == calls[0].ctx.client_state.bounty_count + i
                &&& calls[i].outcome()->Ok_0.0.bounty->0.bounty_id
                    == calls[0].ctx.client_state.bounty_count + i
                &&& calls[i].outcome()->Ok_0.0.client_state.bounty_count
                    == calls[0].ctx.client_state.bounty_count + i + 1
                &&& calls[i].outcome()->Ok_0.0.bounty->0.client == calls[0].ctx.client_state.owner
            },
        forall|i: int, j: int|
            0 <= i < j < calls.len() ==> (#[trigger] calls[i]).outcome()->Ok_0.0.bounty->0.bounty_id
                != (#[trigger] calls[j]).outcome()->Ok_0.0.bounty->0.bounty_id,
    decreases calls.len(),
{
    if calls.len() > 1 {
        let head = calls.drop_last();
        let k = calls.len() - 1;
        assert forall|i: int| 0 <= i < head.len() implies (#[trigger] head[i]).outcome() is Ok by {
            assert(head[i] == calls[i]);
        }
        assert forall|i: int, j: int|
            0 <= i < head.len() && j == i + 1 && j < head.len() implies (#[trigger] head[j]).ctx.client_state
            == (#[trigger] head[i]).outcome()->Ok_0.0.client_state by {
            assert(head[i] == calls[i]);
            assert(head[j] == calls[j]);
        }
        lemma_sequence_numbers_count_up(head);
        assert(head[0] == calls[0]);
        assert(head[k - 1] == calls[k - 1]);
        assert(calls[k].ctx.client_state == calls[k - 1].outcome()->Ok_0.0.client_state);
        assert(calls[k].outcome() is Ok);
        assert forall|i: int| 0 <= i < calls.len() implies {
            &&& (#[trigger] calls[i]).ctx.client_state.bounty_count
                == calls[0].ctx.client_state.bounty_count + i
            &&& calls[i].outcome()->Ok_0.0.bounty->0.bounty_id
                == calls[0].ctx.client_state.bounty_count + i
            &&& calls[i].outcome()->Ok_0.0.client_state.bounty_count
                == calls[0].ctx.client_state.bounty_count + i + 1
            &&& calls[i].outcome()->Ok_0.0.bounty->0.client == calls[0].ctx.client_state.owner
        } by {
            if i < k {
                assert(head[i] == calls[i]);
            }
        }
    } else if calls.len() == 1 {
        assert(calls[0].outcome() is Ok);
    }
}

/// Two bounties that a client creates one after the other get different
/// sequence numbers, the counter's value before each, and the counter has
/// moved on by two.
pub proof fn lemma_sequence_numbers_differ(first: Creation, second: Creation)
    requires
        first.outcome() is Ok,
        second.ctx.client_state == first.outcome()->Ok_0.0.client_state,
        second.outcome() is Ok,
    ensures
        ({
            let one = first.outcome()->Ok_0.0;
            let two = second.outcome()->Ok_0.0;
            &&& one.bounty->0.bounty_id == first.ctx.client_state.bounty_count
            &&& two.bounty->0.bounty_id == first.ctx.client_state.bounty_count + 1
            &&& one.bounty->0.bounty_id != two.bounty->0.bounty_id
            &&& two.client_state.bounty_count == first.ctx.client_state.bounty_count + 2
            &&& two.client_state.owner == first.ctx.client_state.owner
            &&& one.bounty->0.client == two.bounty->0.client
        }),
{
}

/// A bounty is reviewed at most once, and only when completed: a review is
/// granted to the client of a completed bounty alone, it names the bounty,
/// its client and its assigned agent, it settles its rating into that
/// agent's record once, it leaves the bounty as it is, and once it stands at
/// the address derived for it every further review by the client is refused
/// because one exists already.
pub proof fn lemma_one_review(
    ctx: LeaveReviewView,
    derived: Option<(Seq<u8>, u8)>,
    rating: u64,
    comment_uri: Seq<char>,
    now: i64,
    again: LeaveReviewView,
    again_rating: u64,
    again_comment_uri: Seq<char>,
    again_now: i64,
)
    requires
        review_outcome(ctx, derived, rating, comment_uri, now) is Ok,
        again.bounty == ctx.bounty,
        again.client == ctx.client,
        again.review_key == ctx.review_key,
        again.review == review_outcome(ctx, derived, rating, comment_uri, now)->Ok_0.review,
    ensures
        ctx.bounty.status is Completed,
        ctx.client == ctx.bounty.client,
        ctx.review is None,
        review_outcome(ctx, derived, rating, comment_uri, now)->Ok_0.bounty == ctx.bounty,
        review_outcome(ctx, derived, rating, comment_uri, now)->Ok_0.review == Some(
            reviewed(
                ctx.bounty_key,
                ctx.bounty.client,
                ctx.bounty.assigned_agent->0,
                rating,
                comment_uri,
                bump_at(ctx.review_key@, derived)->0,
                now,
            ),
        ),
        review_outcome(ctx, derived, rating, comment_uri, now)->Ok_0.registry.agent == settled(
            ctx.registry.agent,
            rating as nat,
        ),
        review_outcome(again, derived, again_rating, again_comment_uri, again_now) == Err::<
            LeaveReviewView,
            BountyError,
        >(BountyError::AlreadyExists),
{
}

} // verus!
