//! Escrowed bounties for open-source contributions.
//!
//! A creator locks a reward against an issue, may assign a contributor, and
//! later releases the reward to a recipient or takes it back by cancelling.
//! The library holds the rules of that lifecycle and a ledger on which they
//! run: the registry, the live bounty records with their escrow, and the
//! balances of the parties. Every operation either applies in full or
//! leaves the ledger as it was, and none creates or destroys funds.

pub mod address;
pub mod errors;
pub mod events;
pub mod instructions;
pub mod laws;
pub mod ledger;
pub mod pubkey;
pub mod state;
pub mod sums;

use crate::errors::LedgerError;
use crate::instructions::assign_bounty::AssignBounty;
use crate::instructions::cancel_bounty::CancelBounty;
use crate::instructions::complete_bounty::CompleteBounty;
use crate::instructions::create_bounty::CreateBounty;
use crate::instructions::initialize::Initialize;
use crate::ledger::Ledger;
use vstd::prelude::*;

verus! {

/// Initializes the registry of the ledger.
pub fn initialize(ledger: &mut Ledger, ctx: Initialize) -> (done: Result<(), LedgerError>)
    requires
        old(ledger).wf(),
    ensures
        final(ledger).wf(),
        match instructions::initialize::outcome(old(ledger)@, ctx) {
            Ok(post) => done is Ok && final(ledger)@ == post,
            Err(refusal) => done == Err::<(), LedgerError>(refusal) && final(ledger)@ == old(
                ledger,
            )@,
        },
{
    instructions::initialize::handler(ledger, ctx)
}

/// Creates a bounty and puts its reward in escrow.
pub fn create_bounty(
    ledger: &mut Ledger,
    ctx: CreateBounty,
    bounty_id: u64,
    reward_amount: u64,
    github_issue_url: String,
    repo_name: String,
    issue_number: u64,
) -> (done: Result<(), LedgerError>)
    requires
        old(ledger).wf(),
    ensures
        final(ledger).wf(),
        match instructions::create_bounty::outcome(
            old(ledger)@,
            ctx,
            bounty_id,
            reward_amount,
            github_issue_url,
            repo_name,
            issue_number,
        ) {
            Ok(post) => done is Ok && final(ledger)@ == post,
            Err(refusal) => done == Err::<(), LedgerError>(refusal) && final(ledger)@ == old(
                ledger,
            )@,
        },
{
    instructions::create_bounty::handler(
        ledger,
        ctx,
        bounty_id,
        reward_amount,
        github_issue_url,
        repo_name,
        issue_number,
    )
}

/// Assigns a bounty to a contributor.
pub fn assign_bounty(ledger: &mut Ledger, ctx: AssignBounty) -> (done: Result<(), LedgerError>)
    requires
        old(ledger).wf(),
    ensures
        final(ledger).wf(),
        match instructions::assign_bounty::outcome(old(ledger)@, ctx) {
            Ok(post) => done is Ok && final(ledger)@ == post,
            Err(refusal) => done == Err::<(), LedgerError>(refusal) && final(ledger)@ == old(
                ledger,
            )@,
        },
{
    instructions::assign_bounty::handler(ledger, ctx)
}

/// Completes a bounty and releases its reward to the recipient.
pub fn complete_bounty(ledger: &mut Ledger, ctx: CompleteBounty) -> (done: Result<
    (),
    LedgerError,
>)
    requires
        old(ledger).wf(),
    ensures
        final(ledger).wf(),
        match instructions::complete_bounty::outcome(old(ledger)@, ctx) {
            Ok(post) => done is Ok && final(ledger)@ == post,
            Err(refusal) => done == Err::<(), LedgerError>(refusal) && final(ledger)@ == old(
                ledger,
            )@,
        },
{
    instructions::complete_bounty::handler(ledger, ctx)
}

/// Cancels a bounty and refunds its creator.
pub fn cancel_bounty(ledger: &mut Ledger, ctx: CancelBounty) -> (done: Result<(), LedgerError>)
    requires
        old(ledger).wf(),
    ensures
        final(ledger).wf(),
        match instructions::cancel_bounty::outcome(old(ledger)@, ctx) {
            Ok(post) => done is Ok && final(ledger)@ == post,
            Err(refusal) => done == Err::<(), LedgerError>(refusal) && final(ledger)@ == old(
                ledger,
            )@,
        },
{
    instructions::cancel_bounty::handler(ledger, ctx)
}

} // verus!
