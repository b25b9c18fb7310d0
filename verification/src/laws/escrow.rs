//! Laws of the escrow lifecycle: created, then accepted, then completed.

use vstd::prelude::*;
use crate::error::ErrorCode;
use crate::instructions::accept_escrow::AcceptEscrow;
use crate::instructions::complete_escrow::CompleteEscrow;
use crate::instructions::create_escrow::CreateEscrow;
use crate::instructions::{accept_escrow, complete_escrow, create_escrow};
use crate::ledger::{Ledger, LedgerView};
use crate::pubkey::Pubkey;

verus! {

/// An escrow that was never created can be neither accepted nor completed:
/// no record stands at its address.
pub proof fn law_no_escrow_before_create(
    before: LedgerView,
    accept: AcceptEscrow,
    complete: CompleteEscrow,
    created_at: i64,
    now: i64,
)
    requires
        !before.escrows.contains_key(accept.escrow),
        !before.escrows.contains_key(complete.escrow),
    ensures
        accept_escrow::spec_handler(before, accept, created_at, now) == Err::<(LedgerView, ()), ErrorCode>(
            ErrorCode::NotFound,
        ),
        complete_escrow::spec_handler(before, complete, created_at) == Err::<(LedgerView, ()), ErrorCode>(
            ErrorCode::NotFound,
        ),
        accept_escrow::spec_apply(before, accept, now) is Err,
        complete_escrow::spec_apply(before, complete) is Err,
{
}

/// An escrow that has not been accepted cannot be completed: with both
/// signatures given, the refusal is `EscrowNotAccepted`.
pub proof fn law_complete_needs_accept(before: LedgerView, complete: CompleteEscrow)
    requires
        before.escrows.contains_key(complete.escrow),
        !before.escrows[complete.escrow].accepted,
    ensures
        complete_escrow::spec_apply(before, complete) is Err,
        complete.fee_payer.authorized && complete.initiator.authorized ==> complete_escrow::spec_apply(
            before,
            complete,
        ) == Err::<(LedgerView, ()), ErrorCode>(ErrorCode::EscrowNotAccepted),
{
}

/// A newly created escrow is neither accepted nor completed, so completing
/// it right away is refused.
pub proof fn law_created_escrow_is_open(
    before: LedgerView,
    create: CreateEscrow,
    bump: u8,
    counterparty: Pubkey,
    group: Pubkey,
    initiator_amount: u64,
    counterparty_token: Pubkey,
    counterparty_amount: u64,
    expires_at: i64,
    created_at: i64,
    complete: CompleteEscrow,
)
    requires
        create_escrow::spec_apply(
            before,
            create,
            bump,
            counterparty,
            group,
            initiator_amount,
            counterparty_token,
            counterparty_amount,
            expires_at,
            created_at,
        ) is Ok,
        complete.escrow == create.escrow,
    ensures
        ({
            let after = create_escrow::spec_apply(
                before,
                create,
                bump,
                counterparty,
                group,
                initiator_amount,
                counterparty_token,
                counterparty_amount,
                expires_at,
                created_at,
            )->Ok_0;
            let after = after.0;
            &&& after.escrows.contains_key(create.escrow)
            &&& !after.escrows[create.escrow].accepted
            &&& !after.escrows[create.escrow].completed
            &&& after.escrows[create.escrow].wf()
            &&& complete_escrow::spec_apply(after, complete) is Err
        }),
{
}

/// After its time of expiry an escrow cannot be accepted: where nothing
/// else stands against the acceptance, the refusal is `EscrowExpired`.
pub proof fn law_accept_before_expiry(before: LedgerView, accept: AcceptEscrow, now: i64)
    requires
        before.escrows.contains_key(accept.escrow),
        now > before.escrows[accept.escrow].expires_at,
    ensures
        accept_escrow::spec_apply(before, accept, now) is Err,
        accept.fee_payer.authorized && accept.counterparty.authorized && before.escrows[accept.escrow].counterparty
            == accept.counterparty.key && !before.escrows[accept.escrow].accepted ==> accept_escrow::spec_apply(
            before,
            accept,
            now,
        ) == Err::<(LedgerView, ()), ErrorCode>(ErrorCode::EscrowExpired),
{
}

/// An escrow is accepted once: after an acceptance every further one is
/// refused, and the counterparty's own is refused as
/// `EscrowAlreadyAccepted`.
pub proof fn law_accept_once(before: LedgerView, first: AcceptEscrow, first_now: i64, second: AcceptEscrow, second_now: i64)
    requires
        accept_escrow::spec_apply(before, first, first_now) is Ok,
        second.escrow == first.escrow,
    ensures
        ({
            let after = accept_escrow::spec_apply(before, first, first_now)->Ok_0;
            let after = after.0;
            &&& after.escrows[first.escrow].accepted
            &&& accept_escrow::spec_apply(after, second, second_now) is Err
            &&& second.fee_payer.authorized && second.counterparty.authorized && second.counterparty.key
                == first.counterparty.key ==> accept_escrow::spec_apply(after, second, second_now) == Err::<
                (LedgerView, ()),
                ErrorCode,
            >(ErrorCode::EscrowAlreadyAccepted)
        }),
{
}

/// A completed escrow stays as it is: it cannot be accepted again, and
/// completing it again changes nothing.
pub proof fn law_completed_escrow_is_final(before: LedgerView, accept: AcceptEscrow, complete: CompleteEscrow, now: i64)
    requires
        before.escrows.contains_key(accept.escrow),
        before.escrows[accept.escrow].wf(),
        before.escrows[accept.escrow].completed,
        complete.escrow == accept.escrow,
    ensures
        accept_escrow::spec_apply(before, accept, now) is Err,
        match complete_escrow::spec_apply(before, complete) {
            Ok((after, _)) => after.escrows[complete.escrow] == before.escrows[complete.escrow] && after
                == LedgerView { escrows: after.escrows, ..before },
            Err(_) => true,
        },
{
}

/// The same holds of whole requests, whose addresses are checked first. A
/// request to complete an escrow that was not accepted, one to accept an
/// escrow after its time of expiry, and one to accept an escrow that was
/// accepted are all refused; where the signatures are given, the stored bump
/// proves the address and the counterparty is the one named, the refusals
/// are `EscrowNotAccepted`, `EscrowExpired` and `EscrowAlreadyAccepted`.
pub proof fn law_escrow_requests_in_order(
    before: LedgerView,
    accept: AcceptEscrow,
    complete: CompleteEscrow,
    created_at: i64,
    now: i64,
)
    requires
        before.escrows.contains_key(accept.escrow),
        complete.escrow == accept.escrow,
    ensures
        !before.escrows[accept.escrow].accepted ==> complete_escrow::spec_handler(before, complete, created_at) is Err,
        now > before.escrows[accept.escrow].expires_at || before.escrows[accept.escrow].accepted
            ==> accept_escrow::spec_handler(before, accept, created_at, now) is Err,
        complete.fee_payer.authorized && complete.initiator.authorized && crate::address::spec_verify(
            crate::address::Namespace::Escrow,
            crate::state::escrow::Escrow::spec_parts(before.escrows[accept.escrow].initiator, created_at),
            before.escrows[accept.escrow].bump,
            accept.escrow@,
        ) && !before.escrows[accept.escrow].accepted ==> complete_escrow::spec_handler(before, complete, created_at)
            == Err::<(LedgerView, ()), ErrorCode>(ErrorCode::EscrowNotAccepted),
        accept.fee_payer.authorized && accept.counterparty.authorized && crate::address::spec_verify(
            crate::address::Namespace::Escrow,
            crate::state::escrow::Escrow::spec_parts(before.escrows[accept.escrow].initiator, created_at),
            before.escrows[accept.escrow].bump,
            accept.escrow@,
        ) && before.escrows[accept.escrow].counterparty == accept.counterparty.key ==> accept_escrow::spec_handler(
            before,
            accept,
            created_at,
            now,
        ) == if before.escrows[accept.escrow].accepted {
            Err::<(LedgerView, ()), ErrorCode>(ErrorCode::EscrowAlreadyAccepted)
        } else if now > before.escrows[accept.escrow].expires_at {
            Err::<(LedgerView, ()), ErrorCode>(ErrorCode::EscrowExpired)
        } else {
            accept_escrow::spec_apply(before, accept, now)
        },
{
}

/// Every escrow of a well-formed ledger stands at one stage of its
/// lifecycle: it is completed only if it was accepted, its amounts are
/// positive, and it expires after it was created.
pub proof fn law_escrow_stages(ledger: Ledger, escrow: Pubkey)
    requires
        ledger.wf(),
        ledger@.escrows.contains_key(escrow),
    ensures
        ledger@.escrows[escrow].completed ==> ledger@.escrows[escrow].accepted,
        ledger@.escrows[escrow].initiator_amount > 0,
        ledger@.escrows[escrow].counterparty_amount > 0,
        ledger@.escrows[escrow].expires_at > ledger@.escrows[escrow].created_at,
{
    assert(ledger@.escrows[escrow].wf());
}

} // verus!
