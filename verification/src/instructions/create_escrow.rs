//! Opening an escrow: the initiator states the trade and hands over their side.

use vstd::prelude::*;
use crate::address::{claim, spec_claim, spec_derive, Namespace};
use crate::error::ErrorCode;
use crate::guard::{is_signer, Signer, TokenHolding, Transfer};
use crate::ledger::{ended_as, Ledger, LedgerView};
use crate::pubkey::Pubkey;
use crate::state::escrow::Escrow;

verus! {

/// What a request to open an escrow names: who pays, who initiates, the
/// address of the escrow to create, the holding that the initiator pays from
/// and the holding that keeps the payment while the escrow is open.
#[derive(Clone, Copy, Debug)]
pub struct CreateEscrow {
    pub fee_payer: Signer,
    pub initiator: Signer,
    pub escrow: Pubkey,
    pub initiator_token_account: TokenHolding,
    pub escrow_token_account_initiator: TokenHolding,
}

/// The escrow that a request opens.
pub open spec fn opened(
    accounts: CreateEscrow,
    bump: u8,
    counterparty: Pubkey,
    group: Pubkey,
    initiator_amount: u64,
    counterparty_token: Pubkey,
    counterparty_amount: u64,
    expires_at: i64,
    created_at: i64,
) -> Escrow {
    Escrow {
        initiator: accounts.initiator.key,
        counterparty,
        group,
        initiator_token: accounts.initiator_token_account.mint,
        initiator_amount,
        counterparty_token,
        counterparty_amount,
        status: 0,
        created_at,
        expires_at,
        accepted: false,
        accepted_at: None,
        completed: false,
        completed_at: None,
        bump,
    }
}

/// The payment of the initiator's side into the escrow's holding.
pub open spec fn deposit(accounts: CreateEscrow, initiator_amount: u64) -> Transfer {
    Transfer {
        from: accounts.initiator_token_account.address,
        to: accounts.escrow_token_account_initiator.address,
        authority: accounts.initiator.key,
        amount: initiator_amount,
    }
}

/// The rule of opening an escrow whose address has been derived with `bump`.
/// Both the payer and the initiator must have signed, no record may stand at
/// the address, both amounts must be positive and the escrow must expire
/// after it is created. Then the escrow is stored, neither accepted nor
/// completed, and the initiator's side is to be paid in.
pub open spec fn spec_apply(
    before: LedgerView,
    accounts: CreateEscrow,
    bump: u8,
    counterparty: Pubkey,
    group: Pubkey,
    initiator_amount: u64,
    counterparty_token: Pubkey,
    counterparty_amount: u64,
    expires_at: i64,
    created_at: i64,
) -> Result<(LedgerView, Transfer), ErrorCode> {
    if !accounts.fee_payer.authorized || !accounts.initiator.authorized {
        Err(ErrorCode::Unauthorized)
    } else if before.escrows.contains_key(accounts.escrow) {
        Err(ErrorCode::AlreadyExists)
    } else if initiator_amount == 0 || counterparty_amount == 0 {
        Err(ErrorCode::InvalidAmount)
    } else if expires_at <= created_at {
        Err(ErrorCode::InvalidExpiry)
    } else {
        Ok(
            (
                LedgerView {
                    escrows: before.escrows.insert(
                        accounts.escrow,
                        opened(
                            accounts,
                            bump,
                            counterparty,
                            group,
                            initiator_amount,
                            counterparty_token,
                            counterparty_amount,
                            expires_at,
                            created_at,
                        ),
                    ),
                    ..before
                },
                deposit(accounts, initiator_amount),
            ),
        )
    }
}

/// Opens an escrow whose address has been derived with `bump`. The transfer
/// returned is the payment that the host has to carry out with the write.
pub fn apply(
    ledger: &mut Ledger,
    accounts: &CreateEscrow,
    bump: u8,
    counterparty: Pubkey,
    group: Pubkey,
    initiator_amount: u64,
    counterparty_token: Pubkey,
    counterparty_amount: u64,
    expires_at: i64,
    created_at: i64,
) -> (result: Result<Transfer, ErrorCode>)
    requires
        old(ledger).wf(),
    ensures
        final(ledger).wf(),
        ended_as(
            result,
            old(ledger)@,
            final(ledger)@,
            spec_apply(
                old(ledger)@,
                *accounts,
                bump,
                counterparty,
                group,
                initiator_amount,
                counterparty_token,
                counterparty_amount,
                expires_at,
                created_at,
            ),
        ),
{
    is_signer(&accounts.fee_payer)?;
    is_signer(&accounts.initiator)?;
    if ledger.escrows.contains_key(&accounts.escrow) {
        return Err(ErrorCode::AlreadyExists);
    }
    if initiator_amount == 0 || counterparty_amount == 0 {
        return Err(ErrorCode::InvalidAmount);
    }
    if expires_at <= created_at {
        return Err(ErrorCode::InvalidExpiry);
    }
    let escrow = Escrow {
        initiator: accounts.initiator.key,
        counterparty,
        group,
        initiator_token: accounts.initiator_token_account.mint,
        initiator_amount,
        counterparty_token,
        counterparty_amount,
        status: 0,
        created_at,
        expires_at,
        accepted: false,
        accepted_at: None,
        completed: false,
        completed_at: None,
        bump,
    };
    let _ = ledger.escrows.create(accounts.escrow, escrow);
    Ok(
        Transfer {
            from: accounts.initiator_token_account.address,
            to: accounts.escrow_token_account_initiator.address,
            authority: accounts.initiator.key,
            amount: initiator_amount,
        },
    )
}

/// The rule of opening an escrow. The address presented for the escrow must
/// be the one derived from the initiator and the time of creation; then the
/// rule of `apply` holds with the derived bump.
pub open spec fn spec_handler(
    before: LedgerView,
    accounts: CreateEscrow,
    counterparty: Pubkey,
    group: Pubkey,
    initiator_amount: u64,
    counterparty_token: Pubkey,
    counterparty_amount: u64,
    expires_at: i64,
    created_at: i64,
) -> Result<(LedgerView, Transfer), ErrorCode> {
    match spec_claim(
        spec_derive(Namespace::Escrow, Escrow::spec_parts(accounts.initiator.key, created_at)),
        accounts.escrow,
    ) {
        Err(e) => Err(e),
        Ok(bump) => spec_apply(
            before,
            accounts,
            bump,
            counterparty,
            group,
            initiator_amount,
            counterparty_token,
            counterparty_amount,
            expires_at,
            created_at,
        ),
    }
}

/// Opens an escrow. The transfer returned is the payment of the initiator's
/// side, which the host has to carry out together with the write.
pub fn handler(
    ledger: &mut Ledger,
    accounts: &CreateEscrow,
    counterparty: Pubkey,
    group: Pubkey,
    initiator_amount: u64,
    counterparty_token: Pubkey,
    counterparty_amount: u64,
    expires_at: i64,
    created_at: i64,
) -> (result: Result<Transfer, ErrorCode>)
    requires
        old(ledger).wf(),
    ensures
        final(ledger).wf(),
        ended_as(
            result,
            old(ledger)@,
            final(ledger)@,
            spec_handler(
                old(ledger)@,
                *accounts,
                counterparty,
                group,
                initiator_amount,
                counterparty_token,
                counterparty_amount,
                expires_at,
                created_at,
            ),
        ),
{
    let parts = Escrow::parts(&accounts.initiator.key, created_at);
    let derived = crate::address::derive(Namespace::Escrow, &parts);
    let bump = claim(&derived, &accounts.escrow)?;
    apply(
        ledger,
        accounts,
        bump,
        counterparty,
        group,
        initiator_amount,
        counterparty_token,
        counterparty_amount,
        expires_at,
        created_at,
    )
}

} // verus!
