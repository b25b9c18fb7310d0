//! The authorization guard: the predicates that a transition evaluates
//! before it changes any record.

use vstd::prelude::*;
use crate::error::ErrorCode;
use crate::pubkey::Pubkey;

verus! {

/// An identity named by a request, with the verdict of the signature check
/// on it.
#[derive(Clone, Copy, Debug, PartialEq, Eq)]
pub struct Signer {
    pub key: Pubkey,
    pub authorized: bool,
}

/// A holding of tokens of one mint, as the caller presents it.
#[derive(Clone, Copy, Debug, PartialEq, Eq)]
pub struct TokenHolding {
    pub address: Pubkey,
    pub mint: Pubkey,
    pub owner: Pubkey,
    pub amount: u64,
}

/// A movement of assets that the host has to carry out together with the
/// writes of the transition that asks for it.
#[derive(Clone, Copy, Debug, PartialEq, Eq)]
pub struct Transfer {
    pub from: Pubkey,
    pub to: Pubkey,
    pub authority: Pubkey,
    pub amount: u64,
}

/// The caller has presented valid authorization for the identity;
/// `Unauthorized` otherwise.
pub fn is_signer(identity: &Signer) -> (verdict: Result<(), ErrorCode>)
    ensures
        verdict == if identity.authorized {
            Ok::<(), ErrorCode>(())
        } else {
            Err::<(), ErrorCode>(ErrorCode::Unauthorized)
        },
{
    if identity.authorized {
        Ok(())
    } else {
        Err(ErrorCode::Unauthorized)
    }
}

/// The identity is the owner that the record names; `NotOwner` otherwise.
pub fn owns(owner: &Pubkey, identity: &Pubkey) -> (verdict: Result<(), ErrorCode>)
    ensures
        verdict == if *owner == *identity {
            Ok::<(), ErrorCode>(())
        } else {
            Err::<(), ErrorCode>(ErrorCode::NotOwner)
        },
{
    if *owner == *identity {
        Ok(())
    } else {
        Err(ErrorCode::NotOwner)
    }
}

/// The identity is the creator that the record names; `NotGroupCreator`
/// otherwise.
pub fn is_creator(creator: &Pubkey, identity: &Pubkey) -> (verdict: Result<(), ErrorCode>)
    ensures
        verdict == if *creator == *identity {
            Ok::<(), ErrorCode>(())
        } else {
            Err::<(), ErrorCode>(ErrorCode::NotGroupCreator)
        },
{
    if *creator == *identity {
        Ok(())
    } else {
        Err(ErrorCode::NotGroupCreator)
    }
}

/// Whether `now` lies strictly between `start` and `end`.
pub fn within_window(now: i64, start: i64, end: i64) -> (inside: bool)
    ensures
        inside == (start < now && now < end),
{
    start < now && now < end
}

/// Whether `now` lies strictly before `expiry`.
pub fn not_expired(now: i64, expiry: i64) -> (live: bool)
    ensures
        live == (now < expiry),
{
    now < expiry
}

/// Uses remain; `InviteUsed` otherwise.
pub fn below_capacity(uses: u32, max_uses: u32) -> (verdict: Result<(), ErrorCode>)
    ensures
        verdict == if uses < max_uses {
            Ok::<(), ErrorCode>(())
        } else {
            Err::<(), ErrorCode>(ErrorCode::InviteUsed)
        },
{
    if uses < max_uses {
        Ok(())
    } else {
        Err(ErrorCode::InviteUsed)
    }
}

} // verus!
