//! Accepting an escrow: the counterparty agrees to the trade.

use vstd::prelude::*;
use crate::address::{spec_verify, verify, Namespace};
use crate::error::ErrorCode;
use crate::guard::{is_signer, owns, Signer};
use crate::ledger::{ended_as, Ledger, LedgerView};
use crate::pubkey::Pubkey;
use crate::state::escrow::Escrow;

verus! {

/// What a request to accept an escrow names: who pays, the escrow, and the
/// counterparty who accepts.
#[derive(Clone, Copy, Debug)]
pub struct AcceptEscrow {
    pub fee_payer: Signer,
    pub escrow: Pubkey,
    pub counterparty: Signer,
}

/// The rule of accepting an escrow whose address has been checked. Both the
/// payer and the counterparty must have signed, the escrow must exist and
/// name the counterparty, it must not have been accepted before, and it must
/// not have expired: `now` may be the time of expiry, not later. Then the
/// escrow is accepted.
pub open spec fn spec_apply(before: LedgerView, accounts: AcceptEscrow, now: i64) -> Result<(LedgerView, ()), ErrorCode> {
    if !accounts.fee_payer.authorized || !accounts.counterparty.authorized {
        Err(ErrorCode::Unauthorized)
    } else if !before.escrows.contains_key(accounts.escrow) {
        Err(ErrorCode::NotFound)
    } else {
        let escrow = before.escrows[accounts.escrow];
        if escrow.counterparty != accounts.counterparty.key {
            Err(ErrorCode::NotOwner)
        } else if escrow.accepted {
            Err(ErrorCode::EscrowAlreadyAccepted)
        } else if now > escrow.expires_at {
            Err(ErrorCode::EscrowExpired)
        } else {
            Ok(
                (
                    LedgerView {
                        escrows: before.escrows.insert(accounts.escrow, Escrow { accepted: true, ..escrow }),
                        ..before
                    },
                    (),
                ),
            )
        }
    }
}

/// Accepts an escrow whose address has been checked.
pub fn apply(ledger: &mut Ledger, accounts: &AcceptEscrow, now: i64) -> (result: Result<(), ErrorCode>)
    requires
        old(ledger).wf(),
    ensures
        final(ledger).wf(),
        ended_as(result, old(ledger)@, final(ledger)@, spec_apply(old(ledger)@, *accounts, now)),
{
    is_signer(&accounts.fee_payer)?;
    is_signer(&accounts.counterparty)?;
    let escrow = ledger.escrows.load(&accounts.escrow)?;
    owns(&escrow.counterparty, &accounts.counterparty.key)?;
    if escrow.accepted {
        return Err(ErrorCode::EscrowAlreadyAccepted);
    }
    if now > escrow.expires_at {
        return Err(ErrorCode::EscrowExpired);
    }
    let escrow = ledger.escrows.mutate(&accounts.escrow)?;
    escrow.accepted = true;
    Ok(())
}

/// The rule of accepting an escrow. The escrow must exist, and its stored
/// bump must prove its address from its initiator and the time of creation
/// that the request states; then the rule of `apply` holds.
pub open spec fn spec_handler(before: LedgerView, accounts: AcceptEscrow, created_at: i64, now: i64) -> Result<
    (LedgerView, ()),
    ErrorCode,
> {
    if !before.escrows.contains_key(accounts.escrow) {
        Err(ErrorCode::NotFound)
    } else if !spec_verify(
        Namespace::Escrow,
        Escrow::spec_parts(before.escrows[accounts.escrow].initiator, created_at),
        before.escrows[accounts.escrow].bump,
        accounts.escrow@,
    ) {
        Err(ErrorCode::AddressMismatch)
    } else {
        spec_apply(before, accounts, now)
    }
}

/// Accepts the escrow for the counterparty.
pub fn handler(ledger: &mut Ledger, accounts: &AcceptEscrow, created_at: i64, now: i64) -> (result: Result<
    (),
    ErrorCode,
>)
    requires
        old(ledger).wf(),
    ensures
        final(ledger).wf(),
        ended_as(result, old(ledger)@, final(ledger)@, spec_handler(old(ledger)@, *accounts, created_at, now)),
{
    let escrow = ledger.escrows.load(&accounts.escrow)?;
    let parts = Escrow::parts(&escrow.initiator, created_at);
    if !verify(Namespace::Escrow, &parts, escrow.bump, &accounts.escrow) {
        return Err(ErrorCode::AddressMismatch);
    }
    apply(ledger, accounts, now)
}

} // verus!
