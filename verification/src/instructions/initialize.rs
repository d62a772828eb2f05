use crate::address::config_seeds;
use crate::address::find_config_address;
use crate::address::program_derived_address;
use crate::errors::LedgerError;
use crate::events::Event;
use crate::ledger::Ledger;
use crate::ledger::LedgerView;
use crate::pubkey::Pubkey;
use crate::state::ProgramConfig;
use vstd::prelude::*;

verus! {

/// Who takes part in the initialization of the registry.
#[derive(Clone, Copy, Debug)]
pub struct Initialize {
    /// The signer, which becomes the registry's authority.
    pub authority: Pubkey,
    /// The bump seed of the registry's address.
    pub bump: u8,
}

impl Initialize {
    /// The participants of an initialization, given the address that was
    /// derived for the registry.
    pub open spec fn resolved(authority: Pubkey, derived: Option<(Seq<u8>, u8)>) -> Option<
        Initialize,
    > {
        match derived {
            Some((_, bump)) => Some(Initialize { authority, bump }),
            None => None,
        }
    }

    /// The participants of an initialization under a program: the bump seed
    /// is that of the registry's derived address. There are none where no
    /// address can be derived.
    pub fn resolve(program_id: &Pubkey, authority: Pubkey) -> (ctx: Option<Initialize>)
        ensures
            ctx == Initialize::resolved(
                authority,
                program_derived_address(config_seeds(), program_id@),
            ),
    {
        match find_config_address(program_id) {
            Some((_, bump)) => Some(Initialize { authority, bump }),
            None => None,
        }
    }
}

/// What an initialization does to a ledger. The registry is created once:
/// where it exists, the initialization is refused. Else the registry is
/// stored, with no bounty counted, and the event tells who initialized it.
pub open spec fn outcome(pre: LedgerView, ctx: Initialize) -> Result<LedgerView, LedgerError> {
    if pre.config is Some {
        Err(LedgerError::AlreadyInitialized)
    } else {
        Ok(
            LedgerView {
                config: Some(
                    ProgramConfig { authority: ctx.authority, bounty_count: 0, bump: ctx.bump },
                ),
                ..pre
            }.emitted(Event::Initialized { authority: ctx.authority }),
        )
    }
}

/// Creates the registry, with the signer as its authority and no bounty
/// counted. A refusal leaves the ledger as it was.
pub fn handler(ledger: &mut Ledger, ctx: Initialize) -> (done: Result<(), LedgerError>)
    requires
        old(ledger).wf(),
    ensures
        final(ledger).wf(),
        match outcome(old(ledger)@, ctx) {
            Ok(post) => done is Ok && final(ledger)@ == post,
            Err(refusal) => done == Err::<(), LedgerError>(refusal) && final(ledger)@ == old(
                ledger,
            )@,
        },
{
    if ledger.config().is_some() {
        return Err(LedgerError::AlreadyInitialized);
    }
    ledger.set_config(ProgramConfig::new(ctx.authority, ctx.bump));
    ledger.emit(Event::Initialized { authority: ctx.authority });
    Ok(())
}

} // verus!
