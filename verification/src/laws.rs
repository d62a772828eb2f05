use crate::errors::LedgerError;
use crate::errors::PrizeError;
use crate::events::Event;
use crate::instructions::assign_bounty::AssignBounty;
use crate::instructions::assign_bounty;
use crate::instructions::cancel_bounty::CancelBounty;
use crate::instructions::cancel_bounty;
use crate::instructions::complete_bounty::CompleteBounty;
use crate::instructions::complete_bounty;
use crate::instructions::create_bounty::CreateBounty;
use crate::instructions::create_bounty;
use crate::instructions::initialize::Initialize;
use crate::instructions::initialize;
use crate::ledger::LedgerView;
use crate::pubkey::Pubkey;
use crate::state::Bounty;
use crate::state::BountyAccount;
use crate::state::BountyStatus;
use crate::state::byte_len;
use crate::state::lemma_byte_len;
use crate::state::MAX_GITHUB_URL_LEN;
use crate::state::MAX_REPO_NAME_LEN;
use vstd::prelude::*;

verus! {

/// A creation that succeeds stores an open record under the chosen id with
/// exactly the reward in escrow, raises the registry's counter by exactly
/// one, and takes the reward and the storage deposit from the creator and
/// from nobody else.
pub proof fn lemma_creation_escrows_reward(
    pre: LedgerView,
    ctx: CreateBounty,
    bounty_id: u64,
    reward_amount: u64,
    github_issue_url: String,
    repo_name: String,
    issue_number: u64,
)
    requires
        pre.well_formed(),
        create_bounty::outcome(
            pre,
            ctx,
            bounty_id,
            reward_amount,
            github_issue_url,
            repo_name,
            issue_number,
        ) is Ok,
    ensures
        ({
            let post = create_bounty::outcome(
                pre,
                ctx,
                bounty_id,
                reward_amount,
                github_issue_url,
                repo_name,
                issue_number,
            )->Ok_0;
            &&& !pre.bounties.dom().contains(bounty_id)
            &&& post.bounties.dom().contains(bounty_id)
            &&& post.bounties[bounty_id].escrow == reward_amount
            &&& post.bounties[bounty_id].data.reward_amount == reward_amount
            &&& post.bounties[bounty_id].data.status == BountyStatus::Open
            &&& post.bounties[bounty_id].data.assignee is None
            &&& post.bounties[bounty_id].well_formed()
            &&& pre.config is Some
            &&& post.config is Some
            &&& post.config->0.bounty_count == pre.config->0.bounty_count + 1
            &&& post.balances[ctx.creator] + reward_amount + pre.deposit
                == pre.balances[ctx.creator]
            &&& forall|other: Pubkey|
                other != ctx.creator ==> post.balances[other] == pre.balances[other]
            &&& forall|other: u64|
                other != bounty_id ==> post.bounties.dom().contains(other)
                    == pre.bounties.dom().contains(other) && post.bounties[other]
                    == pre.bounties[other]
        }),
{
}

/// A creation with a reward of zero is refused as an invalid amount,
/// whatever else holds of the ledger and of the other inputs.
pub proof fn lemma_zero_reward_refused(
    pre: LedgerView,
    ctx: CreateBounty,
    bounty_id: u64,
    github_issue_url: String,
    repo_name: String,
    issue_number: u64,
)
    ensures
        create_bounty::outcome(pre, ctx, bounty_id, 0, github_issue_url, repo_name, issue_number)
            == Err::<LedgerView, LedgerError>(LedgerError::Prize(PrizeError::InvalidAmount)),
{
}

/// A creation whose URL or repository name has more characters than its
/// bound is refused, since no character takes less than one byte. The URL is
/// looked at before the repository name.
pub proof fn lemma_long_text_refused(
    pre: LedgerView,
    ctx: CreateBounty,
    bounty_id: u64,
    reward_amount: u64,
    github_issue_url: String,
    repo_name: String,
    issue_number: u64,
)
    requires
        reward_amount > 0,
    ensures
        github_issue_url@.len() > MAX_GITHUB_URL_LEN ==> create_bounty::outcome(
            pre,
            ctx,
            bounty_id,
            reward_amount,
            github_issue_url,
            repo_name,
            issue_number,
        ) == Err::<LedgerView, LedgerError>(LedgerError::Prize(PrizeError::GithubUrlTooLong)),
        byte_len(github_issue_url@) <= MAX_GITHUB_URL_LEN && repo_name@.len() > MAX_REPO_NAME_LEN
            ==> create_bounty::outcome(
            pre,
            ctx,
            bounty_id,
            reward_amount,
            github_issue_url,
            repo_name,
            issue_number,
        ) == Err::<LedgerView, LedgerError>(LedgerError::Prize(PrizeError::RepoNameTooLong)),
{
    lemma_byte_len(github_issue_url@);
    lemma_byte_len(repo_name@);
}

/// An assignment by anyone but the creator is refused as unauthorized,
/// whatever the status of the record. An assignment by the creator of a
/// record that is not open is refused for its status.
pub proof fn lemma_assignment_guards(pre: LedgerView, ctx: AssignBounty)
    requires
        pre.bounties.dom().contains(ctx.bounty_id),
    ensures
        pre.bounties[ctx.bounty_id].data.creator != ctx.creator ==> assign_bounty::outcome(pre, ctx)
            == Err::<LedgerView, LedgerError>(LedgerError::Prize(PrizeError::UnauthorizedAccess)),
        pre.bounties[ctx.bounty_id].data.creator == ctx.creator
            && pre.bounties[ctx.bounty_id].data.status != BountyStatus::Open
            ==> assign_bounty::outcome(pre, ctx) == Err::<LedgerView, LedgerError>(
            LedgerError::Prize(PrizeError::InvalidBountyStatus),
        ),
        assign_bounty::outcome(pre, ctx) is Ok <==> pre.bounties[ctx.bounty_id].data.creator
            == ctx.creator && pre.bounties[ctx.bounty_id].data.status == BountyStatus::Open,
{
}

/// An assignment that succeeds records the assignee, moves the bounty from
/// open to in progress, and leaves the escrow and all balances as they
/// were. A second assignment of the same bounty by its creator is refused
/// for the record's status.
pub proof fn lemma_assignment_once(pre: LedgerView, ctx: AssignBounty, again: AssignBounty)
    requires
        assign_bounty::outcome(pre, ctx) is Ok,
        again.bounty_id == ctx.bounty_id,
        again.creator == ctx.creator,
    ensures
        ({
            let post = assign_bounty::outcome(pre, ctx)->Ok_0;
            &&& post.bounties.dom().contains(ctx.bounty_id)
            &&& post.bounties[ctx.bounty_id].data.status == BountyStatus::InProgress
            &&& post.bounties[ctx.bounty_id].data.assignee == Some(ctx.assignee)
            &&& post.bounties[ctx.bounty_id].escrow == pre.bounties[ctx.bounty_id].escrow
            &&& post.bounties[ctx.bounty_id].data.reward_amount
                == pre.bounties[ctx.bounty_id].data.reward_amount
            &&& post.balances == pre.balances
            &&& assign_bounty::outcome(post, again) == Err::<LedgerView, LedgerError>(
                LedgerError::Prize(PrizeError::InvalidBountyStatus),
            )
        }),
{
}

/// A completion succeeds exactly when the record exists, its creator signs,
/// and the bounty is open or in progress.
pub proof fn lemma_completion_legal(pre: LedgerView, ctx: CompleteBounty)
    ensures
        complete_bounty::outcome(pre, ctx) is Ok <==> pre.bounties.dom().contains(ctx.bounty_id)
            && pre.bounties[ctx.bounty_id].data.creator == ctx.creator && (
        pre.bounties[ctx.bounty_id].data.status == BountyStatus::Open
            || pre.bounties[ctx.bounty_id].data.status == BountyStatus::InProgress),
        !pre.bounties.dom().contains(ctx.bounty_id) ==> complete_bounty::outcome(pre, ctx) == Err::<
            LedgerView,
            LedgerError,
        >(LedgerError::Prize(PrizeError::BountyNotFound)),
{
}

/// A completion that succeeds destroys the record and pays the recipient
/// exactly the reward. The storage deposit goes to the creator: a recipient
/// that is the creator itself receives both. No other balance and no other
/// record changes.
pub proof fn lemma_completion_pays_recipient(pre: LedgerView, ctx: CompleteBounty)
    requires
        pre.well_formed(),
        complete_bounty::outcome(pre, ctx) is Ok,
    ensures
        ({
            let post = complete_bounty::outcome(pre, ctx)->Ok_0;
            let account = pre.bounties[ctx.bounty_id];
            &&& !post.bounties.dom().contains(ctx.bounty_id)
            &&& ctx.recipient != ctx.creator ==> post.balances[ctx.recipient]
                == pre.balances[ctx.recipient] + account.data.reward_amount
            &&& ctx.recipient != ctx.creator ==> post.balances[ctx.creator]
                == pre.balances[ctx.creator] + account.reserve
            &&& ctx.recipient == ctx.creator ==> post.balances[ctx.recipient]
                == pre.balances[ctx.recipient] + account.data.reward_amount + account.reserve
            &&& forall|other: Pubkey|
                other != ctx.recipient && other != ctx.creator ==> post.balances[other]
                    == pre.balances[other]
            &&& forall|other: u64|
                other != ctx.bounty_id ==> post.bounties.dom().contains(other)
                    == pre.bounties.dom().contains(other) && post.bounties[other]
                    == pre.bounties[other]
        }),
{
}

/// A cancellation succeeds exactly when the record exists, its creator
/// signs, and the bounty is still open. The creator cannot cancel a bounty
/// that is in progress: that is refused for the record's status.
pub proof fn lemma_cancellation_legal(pre: LedgerView, ctx: CancelBounty)
    ensures
        cancel_bounty::outcome(pre, ctx) is Ok <==> pre.bounties.dom().contains(ctx.bounty_id)
            && pre.bounties[ctx.bounty_id].data.creator == ctx.creator
            && pre.bounties[ctx.bounty_id].data.status == BountyStatus::Open,
        !pre.bounties.dom().contains(ctx.bounty_id) ==> cancel_bounty::outcome(pre, ctx) == Err::<
            LedgerView,
            LedgerError,
        >(LedgerError::Prize(PrizeError::BountyNotFound)),
        pre.bounties.dom().contains(ctx.bounty_id) && pre.bounties[ctx.bounty_id].data.creator
            == ctx.creator && pre.bounties[ctx.bounty_id].data.status == BountyStatus::InProgress
            ==> cancel_bounty::outcome(pre, ctx) == Err::<LedgerView, LedgerError>(
            LedgerError::Prize(PrizeError::InvalidBountyStatus),
        ),
{
}

/// A cancellation that succeeds destroys the record and pays the creator
/// exactly the reward and the storage deposit. No other balance and no other
/// record changes.
pub proof fn lemma_cancellation_refunds_creator(pre: LedgerView, ctx: CancelBounty)
    requires
        pre.well_formed(),
        cancel_bounty::outcome(pre, ctx) is Ok,
    ensures
        ({
            let post = cancel_bounty::outcome(pre, ctx)->Ok_0;
            let account = pre.bounties[ctx.bounty_id];
            &&& !post.bounties.dom().contains(ctx.bounty_id)
            &&& post.balances[ctx.creator] == pre.balances[ctx.creator]
                + account.data.reward_amount + account.reserve
            &&& forall|other: Pubkey|
                other != ctx.creator ==> post.balances[other] == pre.balances[other]
            &&& forall|other: u64|
                other != ctx.bounty_id ==> post.bounties.dom().contains(other)
                    == pre.bounties.dom().contains(other) && post.bounties[other]
                    == pre.bounties[other]
        }),
{
}

/// After a completion, no operation finds the bounty again: a second
/// completion, a cancellation and an assignment of the same id are all
/// refused as not found, whoever signs.
pub proof fn lemma_completed_is_gone(
    pre: LedgerView,
    ctx: CompleteBounty,
    complete_again: CompleteBounty,
    cancel: CancelBounty,
    assign: AssignBounty,
)
    requires
        complete_bounty::outcome(pre, ctx) is Ok,
        complete_again.bounty_id == ctx.bounty_id,
        cancel.bounty_id == ctx.bounty_id,
        assign.bounty_id == ctx.bounty_id,
    ensures
        ({
            let post = complete_bounty::outcome(pre, ctx)->Ok_0;
            let not_found = Err::<LedgerView, LedgerError>(
                LedgerError::Prize(PrizeError::BountyNotFound),
            );
            &&& complete_bounty::outcome(post, complete_again) == not_found
            &&& cancel_bounty::outcome(post, cancel) == not_found
            &&& assign_bounty::outcome(post, assign) == not_found
        }),
{
}

/// After a cancellation, no operation finds the bounty again: a second
/// cancellation, a completion and an assignment of the same id are all
/// refused as not found, whoever signs.
pub proof fn lemma_cancelled_is_gone(
    pre: LedgerView,
    ctx: CancelBounty,
    cancel_again: CancelBounty,
    complete: CompleteBounty,
    assign: AssignBounty,
)
    requires
        cancel_bounty::outcome(pre, ctx) is Ok,
        cancel_again.bounty_id == ctx.bounty_id,
        complete.bounty_id == ctx.bounty_id,
        assign.bounty_id == ctx.bounty_id,
    ensures
        ({
            let post = cancel_bounty::outcome(pre, ctx)->Ok_0;
            let not_found = Err::<LedgerView, LedgerError>(
                LedgerError::Prize(PrizeError::BountyNotFound),
            );
            &&& cancel_bounty::outcome(post, cancel_again) == not_found
            &&& complete_bounty::outcome(post, complete) == not_found
            &&& assign_bounty::outcome(post, assign) == not_found
        }),
{
}

/// While a record lives, nothing but an assignment changes it, and an
/// assignment changes its status and its assignee only: the id, the creator,
/// the reward, the texts, the issue number, the time of creation, the bump
/// seed, the escrow and the deposit stay what they were at creation. A
/// record leaves the ledger only by its own completion or cancellation.
pub proof fn lemma_record_stable(
    pre: LedgerView,
    id: u64,
    init: Initialize,
    create: CreateBounty,
    bounty_id: u64,
    reward_amount: u64,
    github_issue_url: String,
    repo_name: String,
    issue_number: u64,
    assign: AssignBounty,
    complete: CompleteBounty,
    cancel: CancelBounty,
)
    requires
        pre.bounties.dom().contains(id),
    ensures
        initialize::outcome(pre, init) matches Ok(post) ==> post.bounties.dom().contains(id)
            && post.bounties[id] == pre.bounties[id],
        create_bounty::outcome(
            pre,
            create,
            bounty_id,
            reward_amount,
            github_issue_url,
            repo_name,
            issue_number,
        ) matches Ok(post) ==> post.bounties.dom().contains(id) && post.bounties[id]
            == pre.bounties[id],
        assign_bounty::outcome(pre, assign) matches Ok(post) ==> post.bounties.dom().contains(id)
            && post.bounties[id] == (BountyAccount {
            data: Bounty {
                status: post.bounties[id].data.status,
                assignee: post.bounties[id].data.assignee,
                ..pre.bounties[id].data
            },
            ..pre.bounties[id]
        }) && (id != assign.bounty_id ==> post.bounties[id] == pre.bounties[id]),
        complete_bounty::outcome(pre, complete) matches Ok(post) ==> (
        post.bounties.dom().contains(id) <==> id != complete.bounty_id) && (id
            != complete.bounty_id ==> post.bounties[id] == pre.bounties[id]),
        cancel_bounty::outcome(pre, cancel) matches Ok(post) ==> (post.bounties.dom().contains(id)
            <==> id != cancel.bounty_id) && (id != cancel.bounty_id ==> post.bounties[id]
            == pre.bounties[id]),
{
}

/// Every operation that succeeds adds exactly one event after those that
/// were there, and the event tells what was done: a creation its id, its
/// amount and its issue URL, a completion and a cancellation the time at
/// which the record was destroyed.
pub proof fn lemma_one_event_each(
    pre: LedgerView,
    init: Initialize,
    create: CreateBounty,
    bounty_id: u64,
    reward_amount: u64,
    github_issue_url: String,
    repo_name: String,
    issue_number: u64,
    assign: AssignBounty,
    complete: CompleteBounty,
    cancel: CancelBounty,
)
    ensures
        initialize::outcome(pre, init) matches Ok(post) ==> post.events == pre.events.push(
            Event::Initialized { authority: init.authority },
        ),
        create_bounty::outcome(
            pre,
            create,
            bounty_id,
            reward_amount,
            github_issue_url,
            repo_name,
            issue_number,
        ) matches Ok(post) ==> post.events == pre.events.push(
            Event::BountyCreated { bounty_id, reward_amount, github_issue_url },
        ),
        assign_bounty::outcome(pre, assign) matches Ok(post) ==> post.events == pre.events.push(
            Event::BountyAssigned { bounty_id: assign.bounty_id, assignee: assign.assignee },
        ),
        complete_bounty::outcome(pre, complete) matches Ok(post) ==> post.events
            == pre.events.push(
            Event::BountyCompleted {
                bounty_id: complete.bounty_id,
                reward_amount: pre.bounties[complete.bounty_id].escrow,
                recipient: complete.recipient,
                completed_at: pre.clock,
            },
        ),
        cancel_bounty::outcome(pre, cancel) matches Ok(post) ==> post.events == pre.events.push(
            Event::BountyCancelled {
                bounty_id: cancel.bounty_id,
                reward_amount: pre.bounties[cancel.bounty_id].escrow,
                completed_at: pre.clock,
            },
        ),
{
}

/// No operation creates or destroys funds: whatever an operation does, the
/// funds in the ledger are what they were.
pub proof fn lemma_funds_conserved(
    pre: LedgerView,
    init: Initialize,
    create: CreateBounty,
    bounty_id: u64,
    reward_amount: u64,
    github_issue_url: String,
    repo_name: String,
    issue_number: u64,
    assign: AssignBounty,
    complete: CompleteBounty,
    cancel: CancelBounty,
)
    ensures
        initialize::outcome(pre, init) matches Ok(post) ==> post.supply == pre.supply,
        create_bounty::outcome(
            pre,
            create,
            bounty_id,
            reward_amount,
            github_issue_url,
            repo_name,
            issue_number,
        ) matches Ok(post) ==> post.supply == pre.supply,
        assign_bounty::outcome(pre, assign) matches Ok(post) ==> post.supply == pre.supply,
        complete_bounty::outcome(pre, complete) matches Ok(post) ==> post.supply == pre.supply,
        cancel_bounty::outcome(pre, cancel) matches Ok(post) ==> post.supply == pre.supply,
{
}

/// The registry is created once and never destroyed, and its counter never
/// goes down: only a creation changes it.
pub proof fn lemma_registry_persists(
    pre: LedgerView,
    init: Initialize,
    create: CreateBounty,
    bounty_id: u64,
    reward_amount: u64,
    github_issue_url: String,
    repo_name: String,
    issue_number: u64,
    assign: AssignBounty,
    complete: CompleteBounty,
    cancel: CancelBounty,
)
    ensures
        initialize::outcome(pre, init) is Ok <==> pre.config is None,
        initialize::outcome(pre, init) matches Ok(post) ==> post.config is Some
            && post.config->0.bounty_count == 0 && post.config->0.authority == init.authority,
        create_bounty::outcome(
            pre,
            create,
            bounty_id,
            reward_amount,
            github_issue_url,
            repo_name,
            issue_number,
        ) matches Ok(post) ==> post.config is Some && pre.config is Some
            && post.config->0.bounty_count > pre.config->0.bounty_count
            && post.config->0.authority == pre.config->0.authority,
        assign_bounty::outcome(pre, assign) matches Ok(post) ==> post.config == pre.config,
        complete_bounty::outcome(pre, complete) matches Ok(post) ==> post.config == pre.config,
        cancel_bounty::outcome(pre, cancel) matches Ok(post) ==> post.config == pre.config,
{
}

} // verus!
