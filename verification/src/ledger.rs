//! The ledger: every record of the protocol, and what holds of them between
//! any two transitions.

use vstd::prelude::*;
use crate::error::ErrorCode;
use crate::pubkey::Pubkey;
use crate::state::escrow::Escrow;
use crate::state::group::{Group, GroupView};
use crate::state::group_member::GroupMember;
use crate::state::invite::{Invite, InviteView};
use crate::state::meme_challenge::{MemeChallenge, MemeChallengeView};
use crate::state::meme_submission::{MemeSubmission, MemeSubmissionView};
use crate::state::message::{Message, MessageView};
use crate::state::user_profile::{UserProfile, UserProfileView};
use crate::state::voter_record::VoterRecord;
use crate::store::{lemma_entry_in_map, Entry, Table};

verus! {

/// All records, one table per kind. A transition takes the ledger by
/// reference and either commits all of its writes or none.
pub struct Ledger {
    pub profiles: Table<UserProfile>,
    pub groups: Table<Group>,
    pub members: Table<GroupMember>,
    pub invites: Table<Invite>,
    pub escrows: Table<Escrow>,
    pub challenges: Table<MemeChallenge>,
    pub submissions: Table<MemeSubmission>,
    pub voters: Table<VoterRecord>,
    pub messages: Table<Message>,
}

/// What a ledger holds: for each kind, the record at each address.
pub struct LedgerView {
    pub profiles: Map<Pubkey, UserProfileView>,
    pub groups: Map<Pubkey, GroupView>,
    pub members: Map<Pubkey, GroupMember>,
    pub invites: Map<Pubkey, InviteView>,
    pub escrows: Map<Pubkey, Escrow>,
    pub challenges: Map<Pubkey, MemeChallengeView>,
    pub submissions: Map<Pubkey, MemeSubmissionView>,
    pub voters: Map<Pubkey, VoterRecord>,
    pub messages: Map<Pubkey, MessageView>,
}

/// The votes that the submissions to a challenge hold, added up.
pub open spec fn votes_cast(submissions: Seq<Entry<MemeSubmission>>, challenge: Pubkey) -> nat
    decreases submissions.len(),
{
    if submissions.len() == 0 {
        0
    } else {
        let last = submissions.last().record;
        votes_cast(submissions.drop_last(), challenge) + if last.challenge == challenge {
            last.votes as nat
        } else {
            0
        }
    }
}

/// A further submission adds its votes to those of its challenge.
pub proof fn lemma_votes_push(submissions: Seq<Entry<MemeSubmission>>, entry: Entry<MemeSubmission>, challenge: Pubkey)
    ensures
        votes_cast(submissions.push(entry), challenge) == votes_cast(submissions, challenge) + if entry.record.challenge
            == challenge {
            entry.record.votes as nat
        } else {
            0
        },
{
    assert(submissions.push(entry).drop_last() =~= submissions);
}

/// Where no submission belongs to a challenge, no vote was cast in it.
pub proof fn lemma_votes_none(submissions: Seq<Entry<MemeSubmission>>, challenge: Pubkey)
    requires
        forall|i: int| 0 <= i < submissions.len() ==> (#[trigger] submissions[i]).record.challenge != challenge,
    ensures
        votes_cast(submissions, challenge) == 0,
    decreases submissions.len(),
{
    if submissions.len() > 0 {
        lemma_votes_none(submissions.drop_last(), challenge);
    }
}

/// A submission holds no more votes than were cast in its challenge.
pub proof fn lemma_votes_bound(submissions: Seq<Entry<MemeSubmission>>, i: int)
    requires
        0 <= i < submissions.len(),
    ensures
        submissions[i].record.votes <= votes_cast(submissions, submissions[i].record.challenge),
    decreases submissions.len(),
{
    if i < submissions.len() - 1 {
        lemma_votes_bound(submissions.drop_last(), i);
    }
}

/// Replacing a submission by one of the same challenge changes the votes
/// cast in that challenge by the difference, and those of no other.
pub proof fn lemma_votes_update(
    submissions: Seq<Entry<MemeSubmission>>,
    i: int,
    entry: Entry<MemeSubmission>,
    challenge: Pubkey,
)
    requires
        0 <= i < submissions.len(),
        entry.record.challenge == submissions[i].record.challenge,
    ensures
        votes_cast(submissions.update(i, entry), challenge) == if entry.record.challenge == challenge {
            votes_cast(submissions, challenge) - submissions[i].record.votes + entry.record.votes
        } else {
            votes_cast(submissions, challenge) as int
        },
    decreases submissions.len(),
{
    let after = submissions.update(i, entry);
    if i == submissions.len() - 1 {
        assert(after.drop_last() =~= submissions.drop_last());
    } else {
        assert(after.drop_last() =~= submissions.drop_last().update(i, entry));
        lemma_votes_update(submissions.drop_last(), i, entry, challenge);
    }
}

/// The submissions up to a place hold no more votes for a challenge than
/// all of them.
pub proof fn lemma_votes_prefix(submissions: Seq<Entry<MemeSubmission>>, upto: int, challenge: Pubkey)
    requires
        0 <= upto <= submissions.len(),
    ensures
        votes_cast(submissions.take(upto), challenge) <= votes_cast(submissions, challenge),
    decreases submissions.len(),
{
    if upto == submissions.len() {
        assert(submissions.take(upto) =~= submissions);
    } else {
        assert(submissions.drop_last().take(upto) =~= submissions.take(upto));
        lemma_votes_prefix(submissions.drop_last(), upto, challenge);
    }
}

/// The votes that the submissions to a challenge hold, added up; `None`
/// where the sum is beyond what a total can count.
pub fn votes_of(submissions: &Table<MemeSubmission>, challenge: &Pubkey) -> (sum: Option<u32>)
    ensures
        match sum {
            Some(votes) => votes == votes_cast(submissions.entries@, *challenge),
            None => votes_cast(submissions.entries@, *challenge) > u32::MAX,
        },
{
    let mut sum: u32 = 0;
    let mut i: usize = 0;
    assert(submissions.entries@.take(0) =~= Seq::<Entry<MemeSubmission>>::empty());
    while i < submissions.entries.len()
        invariant
            i <= submissions.entries@.len(),
            sum == votes_cast(submissions.entries@.take(i as int), *challenge),
        decreases submissions.entries@.len() - i,
    {
        proof {
            assert(submissions.entries@.take(i + 1) =~= submissions.entries@.take(i as int).push(
                submissions.entries@[i as int],
            ));
            lemma_votes_push(submissions.entries@.take(i as int), submissions.entries@[i as int], *challenge);
            lemma_votes_prefix(submissions.entries@, i + 1, *challenge);
        }
        if submissions.entries[i].record.challenge == *challenge {
            let votes = submissions.entries[i].record.votes;
            if votes > u32::MAX - sum {
                return None;
            }
            sum = sum + votes;
        }
        i = i + 1;
    }
    assert(submissions.entries@.take(i as int) =~= submissions.entries@);
    Some(sum)
}

/// Whether every submission belongs to a stored challenge, and every
/// challenge counts exactly the votes that its submissions hold.
pub fn is_balanced(challenges: &Table<MemeChallenge>, submissions: &Table<MemeSubmission>) -> (ok: bool)
    requires
        challenges.wf(),
        submissions.wf(),
    ensures
        ok == votes_balanced(*challenges, *submissions),
{
    let mut i: usize = 0;
    while i < submissions.entries.len()
        invariant
            challenges.wf(),
            i <= submissions.entries@.len(),
            forall|k: int|
                0 <= k < i ==> challenges@.contains_key((#[trigger] submissions.entries@[k]).record.challenge),
        decreases submissions.entries@.len() - i,
    {
        if !challenges.contains_key(&submissions.entries[i].record.challenge) {
            return false;
        }
        i = i + 1;
    }
    let mut k: usize = 0;
    while k < challenges.entries.len()
        invariant
            challenges.wf(),
            k <= challenges.entries@.len(),
            forall|j: int|
                0 <= j < k ==> (#[trigger] challenges.entries@[j]).record.total_votes == votes_cast(
                    submissions.entries@,
                    challenges.entries@[j].address,
                ),
        decreases challenges.entries@.len() - k,
    {
        let counted = votes_of(submissions, &challenges.entries[k].address);
        let total = challenges.entries[k].record.total_votes;
        let agrees = match counted {
            Some(votes) => votes == total,
            None => false,
        };
        if !agrees {
            proof {
                lemma_entry_in_map(challenges.entries@, k as int);
                assert(challenges@[challenges.entries@[k as int].address].total_votes == total);
            }
            return false;
        }
        k = k + 1;
    }
    proof {
        assert forall|c: Pubkey| challenges@.contains_key(c) implies (#[trigger] challenges@[c]).total_votes
            == votes_cast(submissions.entries@, c) by {
            let j = crate::store::place(challenges.entries@, c);
            assert(challenges.entries@[j].address == c);
        }
    }
    true
}

impl View for Ledger {
    type V = LedgerView;

    open spec fn view(&self) -> LedgerView {
        LedgerView {
            profiles: self.profiles@,
            groups: self.groups@,
            members: self.members@,
            invites: self.invites@,
            escrows: self.escrows@,
            challenges: self.challenges@,
            submissions: self.submissions@,
            voters: self.voters@,
            messages: self.messages@,
        }
    }
}

impl LedgerView {
    /// Every record meets the invariant of its kind.
    pub open spec fn records_valid(self) -> bool {
        &&& forall|a: Pubkey| self.profiles.contains_key(a) ==> (#[trigger] self.profiles[a]).wf()
        &&& forall|a: Pubkey| self.groups.contains_key(a) ==> (#[trigger] self.groups[a]).wf()
        &&& forall|a: Pubkey| self.invites.contains_key(a) ==> (#[trigger] self.invites[a]).wf()
        &&& forall|a: Pubkey| self.escrows.contains_key(a) ==> (#[trigger] self.escrows[a]).wf()
        &&& forall|a: Pubkey| self.challenges.contains_key(a) ==> (#[trigger] self.challenges[a]).wf()
        &&& forall|a: Pubkey| self.submissions.contains_key(a) ==> (#[trigger] self.submissions[a]).wf()
        &&& forall|a: Pubkey| self.messages.contains_key(a) ==> (#[trigger] self.messages[a]).wf()
    }
}

/// Every submission belongs to a stored challenge, and every challenge
/// counts exactly the votes that its submissions hold.
pub open spec fn votes_balanced(challenges: Table<MemeChallenge>, submissions: Table<MemeSubmission>) -> bool {
    &&& forall|i: int|
        0 <= i < submissions.entries@.len() ==> challenges@.contains_key(
            (#[trigger] submissions.entries@[i]).record.challenge,
        )
    &&& forall|c: Pubkey|
        challenges@.contains_key(c) ==> (#[trigger] challenges@[c]).total_votes == votes_cast(
            submissions.entries@,
            c,
        )
}

impl Ledger {
    /// No table holds two records at one address, every record meets the
    /// invariant of its kind, and the votes of every challenge are balanced.
    pub open spec fn wf(&self) -> bool {
        &&& self.profiles.wf()
        &&& self.groups.wf()
        &&& self.members.wf()
        &&& self.invites.wf()
        &&& self.escrows.wf()
        &&& self.challenges.wf()
        &&& self.submissions.wf()
        &&& self.voters.wf()
        &&& self.messages.wf()
        &&& self@.records_valid()
        &&& votes_balanced(self.challenges, self.submissions)
    }

    /// Whether the ledger is well-formed. A ledger that was put together
    /// from records kept elsewhere can be tested with this before a
    /// transition is applied to it.
    pub fn is_wf(&self) -> (ok: bool)
        ensures
            ok == self.wf(),
    {
        if !(self.profiles.is_wf() && self.groups.is_wf() && self.members.is_wf() && self.invites.is_wf()
            && self.escrows.is_wf() && self.challenges.is_wf() && self.submissions.is_wf() && self.voters.is_wf()
            && self.messages.is_wf()) {
            return false;
        }
        if !self.profiles.all_valid() {
            proof {
                let a = choose|a: Pubkey| self.profiles@.contains_key(a) && !self.profiles@[a].wf();
                assert(self@.profiles.contains_key(a) && !self@.profiles[a].wf());
            }
            return false;
        }
        if !self.groups.all_valid() {
            proof {
                let a = choose|a: Pubkey| self.groups@.contains_key(a) && !self.groups@[a].wf();
                assert(self@.groups.contains_key(a) && !self@.groups[a].wf());
            }
            return false;
        }
        if !self.invites.all_valid() {
            proof {
                let a = choose|a: Pubkey| self.invites@.contains_key(a) && !self.invites@[a].wf();
                assert(self@.invites.contains_key(a) && !self@.invites[a].wf());
            }
            return false;
        }
        if !self.escrows.all_valid() {
            proof {
                let a = choose|a: Pubkey| self.escrows@.contains_key(a) && !self.escrows@[a].wf();
                assert(self@.escrows.contains_key(a) && !self@.escrows[a].wf());
            }
            return false;
        }
        if !self.challenges.all_valid() {
            proof {
                let a = choose|a: Pubkey| self.challenges@.contains_key(a) && !self.challenges@[a].wf();
                assert(self@.challenges.contains_key(a) && !self@.challenges[a].wf());
            }
            return false;
        }
        if !self.submissions.all_valid() {
            proof {
                let a = choose|a: Pubkey| self.submissions@.contains_key(a) && !self.submissions@[a].wf();
                assert(self@.submissions.contains_key(a) && !self@.submissions[a].wf());
            }
            return false;
        }
        if !self.messages.all_valid() {
            proof {
                let a = choose|a: Pubkey| self.messages@.contains_key(a) && !self.messages@[a].wf();
                assert(self@.messages.contains_key(a) && !self@.messages[a].wf());
            }
            return false;
        }
        is_balanced(&self.challenges, &self.submissions)
    }

    /// A ledger without records.
    pub fn new() -> (ledger: Ledger)
        ensures
            ledger.wf(),
            ledger@.profiles == Map::<Pubkey, UserProfileView>::empty(),
            ledger@.groups == Map::<Pubkey, GroupView>::empty(),
            ledger@.members == Map::<Pubkey, GroupMember>::empty(),
            ledger@.invites == Map::<Pubkey, InviteView>::empty(),
            ledger@.escrows == Map::<Pubkey, Escrow>::empty(),
            ledger@.challenges == Map::<Pubkey, MemeChallengeView>::empty(),
            ledger@.submissions == Map::<Pubkey, MemeSubmissionView>::empty(),
            ledger@.voters == Map::<Pubkey, VoterRecord>::empty(),
            ledger@.messages == Map::<Pubkey, MessageView>::empty(),
    {
        Ledger {
            profiles: Table::new(),
            groups: Table::new(),
            members: Table::new(),
            invites: Table::new(),
            escrows: Table::new(),
            challenges: Table::new(),
            submissions: Table::new(),
            voters: Table::new(),
            messages: Table::new(),
        }
    }
}

/// Whether a transition ended as its rule says: on success with the result
/// and the ledger that the rule gives, on refusal with the rule's error and
/// the ledger as it was.
pub open spec fn ended_as<R>(
    result: Result<R, ErrorCode>,
    before: LedgerView,
    after: LedgerView,
    rule: Result<(LedgerView, R), ErrorCode>,
) -> bool {
    match rule {
        Ok((next, output)) => result == Ok::<R, ErrorCode>(output) && after == next,
        Err(e) => result == Err::<R, ErrorCode>(e) && after == before,
    }
}

} // verus!
