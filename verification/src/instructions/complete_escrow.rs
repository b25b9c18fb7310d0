//! Completing an escrow that the counterparty has accepted.

use vstd::prelude::*;
use crate::address::{spec_verify, verify, Namespace};
use crate::error::ErrorCode;
use crate::guard::{is_signer, Signer};
use crate::ledger::{ended_as, Ledger, LedgerView};
use crate::pubkey::Pubkey;
use crate::state::escrow::Escrow;

verus! {

/// What a request to complete an escrow names: who pays, the escrow, and
/// the identity that completes it.
#[derive(Clone, Copy, Debug)]
pub struct CompleteEscrow {
    pub fee_payer: Signer,
    pub escrow: Pubkey,
    pub initiator: Signer,
}

/// The rule of completing an escrow whose address has been checked. Both
/// the payer and the completing identity must have signed, the escrow must
/// exist, and it must have been accepted. Then the escrow is completed;
/// completing it again changes nothing.
pub open spec fn spec_apply(before: LedgerView, accounts: CompleteEscrow) -> Result<(LedgerView, ()), ErrorCode> {
    if !accounts.fee_payer.authorized || !accounts.initiator.authorized {
        Err(ErrorCode::Unauthorized)
    } else if !before.escrows.contains_key(accounts.escrow) {
        Err(ErrorCode::NotFound)
    } else {
        let escrow = before.escrows[accounts.escrow];
        if !escrow.accepted {
            Err(ErrorCode::EscrowNotAccepted)
        } else {
            Ok(
                (
                    LedgerView {
                        escrows: before.escrows.insert(accounts.escrow, Escrow { completed: true, ..escrow }),
                        ..before
                    },
                    (),
                ),
            )
        }
    }
}

/// Completes an escrow whose address has been checked.
pub fn apply(ledger: &mut Ledger, accounts: &CompleteEscrow) -> (result: Result<(), ErrorCode>)
    requires
        old(ledger).wf(),
    ensures
        final(ledger).wf(),
        ended_as(result, old(ledger)@, final(ledger)@, spec_apply(old(ledger)@, *accounts)),
{
    is_signer(&accounts.fee_payer)?;
    is_signer(&accounts.initiator)?;
    let escrow = ledger.escrows.load(&accounts.escrow)?;
    if !escrow.accepted {
        return Err(ErrorCode::EscrowNotAccepted);
    }
    let escrow = ledger.escrows.mutate(&accounts.escrow)?;
    escrow.completed = true;
    Ok(())
}

/// The rule of completing an escrow. The escrow must exist, and its stored
/// bump must prove its address from its initiator and the time of creation
/// that the request states; then the rule of `apply` holds.
pub open spec fn spec_handler(before: LedgerView, accounts: CompleteEscrow, created_at: i64) -> Result<
    (LedgerView, ()),
    ErrorCode,
> {
    if !before.escrows.contains_key(accounts.escrow) {
        Err(ErrorCode::NotFound)
    } else if !spec_verify(
        Namespace::Escrow,
        Escrow::spec_parts(before.escrows[accounts.escrow].initiator, created_at),
        before.escrows[accounts.escrow].bump,
        accounts.escrow@,
    ) {
        Err(ErrorCode::AddressMismatch)
    } else {
        spec_apply(before, accounts)
    }
}

/// Completes the escrow.
pub fn handler(ledger: &mut Ledger, accounts: &CompleteEscrow, created_at: i64) -> (result: Result<(), ErrorCode>)
    requires
        old(ledger).wf(),
    ensures
        final(ledger).wf(),
        ended_as(result, old(ledger)@, final(ledger)@, spec_handler(old(ledger)@, *accounts, created_at)),
{
    let escrow = ledger.escrows.load(&accounts.escrow)?;
    let parts = Escrow::parts(&escrow.initiator, created_at);
    if !verify(Namespace::Escrow, &parts, escrow.bump, &accounts.escrow) {
        return Err(ErrorCode::AddressMismatch);
    }
    apply(ledger, accounts)
}

} // verus!
