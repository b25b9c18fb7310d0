//! Laws of invites: good for a number of uses, until a time.

use vstd::prelude::*;
use crate::error::ErrorCode;
use crate::instructions::create_invite::CreateInvite;
use crate::instructions::use_invite::UseInvite;
use crate::instructions::{create_invite, use_invite};
use crate::ledger::LedgerView;
use crate::pubkey::Pubkey;
use crate::state::invite::{Invite, InviteView};
use crate::text::byte_len;

verus! {

/// An invite that allows no use is never created: where nothing else stands
/// against the creation, the refusal is `InvalidMaxUses`.
pub proof fn law_invite_allows_a_use(
    before: LedgerView,
    accounts: CreateInvite,
    bump: u8,
    code: Seq<char>,
    expires_at: i64,
    now: i64,
)
    ensures
        create_invite::spec_apply(before, accounts, bump, code, 0, expires_at, now) is Err,
        accounts.fee_payer.authorized && accounts.creator.authorized && before.groups.contains_key(accounts.group)
            && before.groups[accounts.group].creator == accounts.creator.key && !before.invites.contains_key(
            accounts.invite,
        ) && byte_len(code) <= Invite::MAX_CODE ==> create_invite::spec_apply(
            before,
            accounts,
            bump,
            code,
            0,
            expires_at,
            now,
        ) == Err::<(LedgerView, ()), ErrorCode>(ErrorCode::InvalidMaxUses),
{
}

/// The same holds of whole requests: a request for an invite that allows no
/// use is refused, and as `InvalidMaxUses` whenever the same request for an
/// invite that allows some use would be granted.
pub proof fn law_invite_request_allows_a_use(
    before: LedgerView,
    accounts: CreateInvite,
    code: Seq<char>,
    some_uses: u32,
    expires_at: i64,
    now: i64,
)
    ensures
        create_invite::spec_handler(before, accounts, code, 0, expires_at, now) is Err,
        create_invite::spec_handler(before, accounts, code, some_uses, expires_at, now) is Ok
            ==> create_invite::spec_handler(before, accounts, code, 0, expires_at, now) == Err::<
            (LedgerView, ()),
            ErrorCode,
        >(ErrorCode::InvalidMaxUses),
{
}

/// A request to use an invite is refused from the invite's time of expiry
/// on and when no use remains, whatever else the request holds.
pub proof fn law_use_request_while_usable(before: LedgerView, accounts: UseInvite, invite_code: Seq<char>, now: i64)
    requires
        before.invites.contains_key(accounts.invite),
        !before.invites[accounts.invite].usable(now),
    ensures
        use_invite::spec_handler(before, accounts, invite_code, now) is Err,
{
}

/// Whether nothing but the state of the invite can stand against the use:
/// both signatures are given, the invite and the group exist, and the member
/// has no membership yet.
pub open spec fn is_admissible(before: LedgerView, accounts: UseInvite) -> bool {
    &&& accounts.fee_payer.authorized
    &&& accounts.member.authorized
    &&& before.invites.contains_key(accounts.invite)
    &&& before.groups.contains_key(accounts.group)
    &&& !before.members.contains_key(accounts.member_record)
}

/// An admissible use succeeds exactly while the invite is usable. From its
/// time of expiry on it is refused as `InviteExpired`, whatever uses remain;
/// before that time, with no use remaining, as `InviteUsed`.
pub proof fn law_use_while_usable(before: LedgerView, accounts: UseInvite, bump: u8, now: i64)
    requires
        is_admissible(before, accounts),
    ensures
        use_invite::spec_apply(before, accounts, bump, now) is Ok <==> before.invites[accounts.invite].usable(now),
        now >= before.invites[accounts.invite].expires_at ==> use_invite::spec_apply(before, accounts, bump, now)
            == Err::<(LedgerView, ()), ErrorCode>(ErrorCode::InviteExpired),
        now < before.invites[accounts.invite].expires_at && before.invites[accounts.invite].uses
            >= before.invites[accounts.invite].max_uses ==> use_invite::spec_apply(before, accounts, bump, now)
            == Err::<(LedgerView, ()), ErrorCode>(ErrorCode::InviteUsed),
{
}

/// A use counts once: after it the invite has one use more, within what it
/// allows, and is otherwise as it was; the member has a membership in the
/// group, and the group counts exactly one member more.
pub proof fn law_use_counts_once(before: LedgerView, accounts: UseInvite, bump: u8, now: i64)
    requires
        crate::instructions::join_group::has_room(before, accounts.group),
        use_invite::spec_apply(before, accounts, bump, now) is Ok,
    ensures
        ({
            let after = use_invite::spec_apply(before, accounts, bump, now)->Ok_0;
            let after = after.0;
            &&& after.invites[accounts.invite].uses == before.invites[accounts.invite].uses + 1
            &&& after.invites[accounts.invite].uses <= before.invites[accounts.invite].max_uses
            &&& after.invites[accounts.invite] == InviteView {
                uses: after.invites[accounts.invite].uses,
                ..before.invites[accounts.invite]
            }
            &&& after.members.contains_key(accounts.member_record)
            &&& after.members[accounts.member_record].group == accounts.group
            &&& after.members[accounts.member_record].member == accounts.member.key
            &&& after.groups[accounts.group].member_count == before.groups[accounts.group].member_count + 1
        }),
{
}

/// One use of an invite in a row of uses: who uses it, with which bump, and
/// when.
pub struct Use {
    pub accounts: UseInvite,
    pub bump: u8,
    pub now: i64,
}

/// The ledger after the uses were applied in turn, if every one succeeded.
pub open spec fn used_in_turn(before: LedgerView, uses: Seq<Use>) -> Option<LedgerView>
    decreases uses.len(),
{
    if uses.len() == 0 {
        Some(before)
    } else {
        match used_in_turn(before, uses.drop_last()) {
            None => None,
            Some(middle) => match use_invite::spec_apply(
                middle,
                uses.last().accounts,
                uses.last().bump,
                uses.last().now,
            ) {
                Ok((after, _)) => Some(after),
                Err(_) => None,
            },
        }
    }
}

/// Whether the uses are of one invite to one group, each signed, each
/// before the time of expiry, and each by a member of its own who has no
/// membership yet.
pub open spec fn is_row(before: LedgerView, invite: Pubkey, group: Pubkey, uses: Seq<Use>) -> bool {
    &&& before.invites.contains_key(invite)
    &&& before.groups.contains_key(group)
    &&& forall|i: int|
        0 <= i < uses.len() ==> {
            &&& (#[trigger] uses[i]).accounts.invite == invite
            &&& uses[i].accounts.group == group
            &&& uses[i].accounts.fee_payer.authorized
            &&& uses[i].accounts.member.authorized
            &&& uses[i].now < before.invites[invite].expires_at
            &&& !before.members.contains_key(uses[i].accounts.member_record)
        }
    &&& forall|i: int, j: int|
        0 <= i < j < uses.len() ==> (#[trigger] uses[i]).accounts.member_record != (
        #[trigger] uses[j]).accounts.member_record
}

proof fn lemma_row(before: LedgerView, invite: Pubkey, group: Pubkey, uses: Seq<Use>)
    requires
        is_row(before, invite, group, uses),
        before.invites[invite].uses + uses.len() <= before.invites[invite].max_uses,
    ensures
        used_in_turn(before, uses) is Some,
        ({
            let after = used_in_turn(before, uses)->0;
            &&& after.invites.contains_key(invite)
            &&& after.groups.contains_key(group)
            &&& after.invites[invite] == InviteView {
                uses: (before.invites[invite].uses + uses.len()) as u32,
                ..before.invites[invite]
            }
            &&& forall|a: Pubkey|
                after.members.contains_key(a) <==> before.members.contains_key(a) || exists|i: int|
                    0 <= i < uses.len() && (#[trigger] uses[i]).accounts.member_record == a
        }),
    decreases uses.len(),
{
    if uses.len() > 0 {
        let earlier = uses.drop_last();
        assert(is_row(before, invite, group, earlier)) by {
            assert forall|i: int| 0 <= i < earlier.len() implies {
                &&& (#[trigger] earlier[i]).accounts.invite == invite
                &&& earlier[i].accounts.group == group
                &&& earlier[i].accounts.fee_payer.authorized
                &&& earlier[i].accounts.member.authorized
                &&& earlier[i].now < before.invites[invite].expires_at
                &&& !before.members.contains_key(earlier[i].accounts.member_record)
            } by {
                assert(earlier[i] == uses[i]);
            }
            assert forall|i: int, j: int| 0 <= i < j < earlier.len() implies (#[trigger] earlier[i]).accounts.member_record
                != (#[trigger] earlier[j]).accounts.member_record by {
                assert(earlier[i] == uses[i]);
                assert(earlier[j] == uses[j]);
            }
        }
        lemma_row(before, invite, group, earlier);
        let middle = used_in_turn(before, earlier)->0;
        let last = uses.last();
        assert(last == uses[uses.len() - 1]);
        assert(!middle.members.contains_key(last.accounts.member_record)) by {
            if middle.members.contains_key(last.accounts.member_record) {
                let i = choose|i: int|
                    0 <= i < earlier.len() && (#[trigger] earlier[i]).accounts.member_record
                        == last.accounts.member_record;
                assert(earlier[i] == uses[i]);
            }
        }
        let after = used_in_turn(before, uses)->0;
        assert forall|a: Pubkey|
            after.members.contains_key(a) <==> before.members.contains_key(a) || exists|i: int|
                0 <= i < uses.len() && (#[trigger] uses[i]).accounts.member_record == a by {
            if after.members.contains_key(a) && !before.members.contains_key(a) {
                if a == last.accounts.member_record {
                    assert(uses[uses.len() - 1].accounts.member_record == a);
                } else {
                    assert(middle.members.contains_key(a));
                    let i = choose|i: int| 0 <= i < earlier.len() && (#[trigger] earlier[i]).accounts.member_record == a;
                    assert(uses[i].accounts.member_record == a);
                }
            }
            if exists|i: int| 0 <= i < uses.len() && (#[trigger] uses[i]).accounts.member_record == a {
                let i = choose|i: int| 0 <= i < uses.len() && (#[trigger] uses[i]).accounts.member_record == a;
                if i < earlier.len() {
                    assert(earlier[i].accounts.member_record == a);
                }
            }
        }
    }
}

/// An unused invite is good for exactly as many uses as it allows: so many
/// uses in a row, each admissible and before the time of expiry, all
/// succeed, and after them a further one is refused as `InviteUsed`.
pub proof fn law_invite_good_for_max_uses(before: LedgerView, invite: Pubkey, group: Pubkey, uses: Seq<Use>, further: Use)
    requires
        is_row(before, invite, group, uses.push(further)),
        before.invites[invite].uses == 0,
        uses.len() == before.invites[invite].max_uses,
    ensures
        used_in_turn(before, uses) is Some,
        used_in_turn(before, uses)->0.invites[invite].uses == before.invites[invite].max_uses,
        use_invite::spec_apply(used_in_turn(before, uses)->0, further.accounts, further.bump, further.now) == Err::<
            (LedgerView, ()),
            ErrorCode,
        >(ErrorCode::InviteUsed),
        used_in_turn(before, uses.push(further)) is None,
{
    let all = uses.push(further);
    assert(all.drop_last() =~= uses);
    assert(all.last() == further);
    assert(is_row(before, invite, group, uses)) by {
        assert forall|i: int| 0 <= i < uses.len() implies {
            &&& (#[trigger] uses[i]).accounts.invite == invite
            &&& uses[i].accounts.group == group
            &&& uses[i].accounts.fee_payer.authorized
            &&& uses[i].accounts.member.authorized
            &&& uses[i].now < before.invites[invite].expires_at
            &&& !before.members.contains_key(uses[i].accounts.member_record)
        } by {
            assert(uses[i] == all[i]);
        }
        assert forall|i: int, j: int| 0 <= i < j < uses.len() implies (#[trigger] uses[i]).accounts.member_record != (
        #[trigger] uses[j]).accounts.member_record by {
            assert(uses[i] == all[i]);
            assert(uses[j] == all[j]);
        }
    }
    lemma_row(before, invite, group, uses);
    let middle = used_in_turn(before, uses)->0;
    assert(all[uses.len() as int] == further);
    assert(!middle.members.contains_key(further.accounts.member_record)) by {
        if middle.members.contains_key(further.accounts.member_record) {
            let i = choose|i: int|
                0 <= i < uses.len() && (#[trigger] uses[i]).accounts.member_record
                    == further.accounts.member_record;
            assert(uses[i] == all[i]);
        }
    }
}

} // verus!
