//! Laws of the DAO's workflows, stated over the abstract state and the
//! operations' transition functions and proved once and for all.

use vstd::prelude::*;
use crate::dao::DaoView;
use crate::dao::Error;
use crate::dao::Roles;
use crate::dao::UploadStatus;
use crate::dao::VoteStatus;
use crate::dao::VoteType;
use crate::dao::vkey;
use crate::dao::join_dao_err;
use crate::dao::join_dao_ok;
use crate::dao::set_membership_err;
use crate::dao::set_membership_ok;
use crate::dao::cast_vote_err;
use crate::dao::cast_role_vote_err;
use crate::dao::cast_ok;
use crate::dao::finalize_vote_err;
use crate::dao::finalize_vote_ok;
use crate::dao::finalize_role_vote_err;
use crate::dao::finalize_role_vote_ok;
use crate::dao::promote;

verus! {

/// Joining is not repeatable: once an account has joined, a second
/// `join_dao` from the same account fails with `MemberAlreadyExists`,
/// whatever else the first join recorded.
pub proof fn lemma_join_twice_fails(v: DaoView, who: u64, metadata: Seq<u8>, now: u64)
    requires
        join_dao_err(v, who) is None,
    ensures
        join_dao_err(join_dao_ok(v, who, metadata, now), who) == Some(Error::MemberAlreadyExists),
{
}

/// Privileged registration is not repeatable either: after
/// `set_membership` has registered an account, registering it again
/// fails with `MemberAlreadyExists`, and so does a plain `join_dao`.
pub proof fn lemma_set_membership_twice_fails(
    v: DaoView,
    account: u64,
    role_code: u8,
    metadata: Seq<u8>,
    now: u64,
)
    requires
        set_membership_err(v, account) is None,
    ensures
        set_membership_err(set_membership_ok(v, account, role_code, metadata, now), account)
            == Some(Error::MemberAlreadyExists),
        join_dao_err(set_membership_ok(v, account, role_code, metadata, now), account) == Some(
            Error::MemberAlreadyExists,
        ),
{
}

/// Casting is allowed strictly inside the ballot's window: whenever the
/// membership, vote-type and role gates pass but `now` is at or before
/// `start`, or at or after `end`, a document-pipeline cast fails with
/// `VotingWindowNotValid`.
pub proof fn lemma_cast_outside_window_fails(
    v: DaoView,
    who: u64,
    vt: VoteType,
    id: u64,
    vote_cast: bool,
    now: u64,
)
    requires
        v.members.contains_key(who as u128),
        vt == VoteType::Qualification || (vt == VoteType::Verification && v.members[who as u128].role
            == Roles::Verifier),
        v.votes.contains_key(vkey(vt, id)),
        v.votes[vkey(vt, id)].status == VoteStatus::InProgress,
        now <= v.votes[vkey(vt, id)].start || now >= v.votes[vkey(vt, id)].end,
    ensures
        cast_vote_err(v, who, vt, id, vote_cast, now) == Some(Error::VotingWindowNotValid),
{
}

/// The same strict window bound for the role-promotion cast path, where
/// the window is checked before the caster's role.
pub proof fn lemma_role_cast_outside_window_fails(
    v: DaoView,
    who: u64,
    vt: VoteType,
    id: u64,
    vote_cast: bool,
    now: u64,
)
    requires
        v.members.contains_key(who as u128),
        vt == VoteType::ExpertVerification || vt == VoteType::ExpertCouncilApproval || vt
            == VoteType::CuratorVerification || vt == VoteType::CuratorCouncilApproval,
        v.votes.contains_key(vkey(vt, id)),
        v.votes[vkey(vt, id)].status == VoteStatus::InProgress,
        now <= v.votes[vkey(vt, id)].start || now >= v.votes[vkey(vt, id)].end,
    ensures
        cast_role_vote_err(v, who, vt, id, vote_cast, now) == Some(Error::VotingWindowNotValid),
{
}

/// A ballot still inside its window cannot be finalized: both finalize
/// paths fail with `VoteStillInProgress` until `now` is strictly past
/// `end`.
pub proof fn lemma_finalize_early_fails(v: DaoView, who: u64, vt: VoteType, id: u64, now: u64)
    requires
        v.members.contains_key(who as u128),
        v.votes.contains_key(vkey(vt, id)),
        v.votes[vkey(vt, id)].status == VoteStatus::InProgress,
        now <= v.votes[vkey(vt, id)].end,
    ensures
        finalize_vote_err(v, who, vt, id, now) == Some(Error::VoteStillInProgress),
        finalize_role_vote_err(v, who, vt, id, now) == Some(Error::VoteStillInProgress),
{
}

/// A finalized ballot is decided by strict majority: it ends `Passed`
/// exactly when yes outnumbers no, and `Failed` otherwise — a tie
/// fails. Both finalize paths decide the same way.
pub proof fn lemma_finalize_majority(v: DaoView, vt: VoteType, id: u64, now: u64)
    requires
        v.votes.contains_key(vkey(vt, id)),
    ensures
        finalize_vote_ok(v, vt, id, now).votes[vkey(vt, id)].status == (if v.votes[vkey(vt, id)].yes_votes
            > v.votes[vkey(vt, id)].no_votes {
            VoteStatus::Passed
        } else {
            VoteStatus::Failed
        }),
        finalize_role_vote_ok(v, vt, id, now).votes[vkey(vt, id)].status == (if v.votes[vkey(
            vt,
            id,
        )].yes_votes > v.votes[vkey(vt, id)].no_votes {
            VoteStatus::Passed
        } else {
            VoteStatus::Failed
        }),
{
}

/// A document that fails its Qualification ballot is rejected outright:
/// no Verification ballot is opened for it, and its status becomes
/// `Rejected`.
pub proof fn lemma_failed_qualification_rejects(v: DaoView, id: u64, now: u64)
    requires
        v.votes.contains_key(vkey(VoteType::Qualification, id)),
        v.votes[vkey(VoteType::Qualification, id)].yes_votes <= v.votes[vkey(
            VoteType::Qualification,
            id,
        )].no_votes,
        !v.votes.contains_key(vkey(VoteType::Verification, id)),
    ensures
        !finalize_vote_ok(v, VoteType::Qualification, id, now).votes.contains_key(
            vkey(VoteType::Verification, id),
        ),
        finalize_vote_ok(v, VoteType::Qualification, id, now).uploads[id as u128].status
            == UploadStatus::Rejected,
{
}

/// A passed Qualification ballot moves the document to
/// `VerificationVoteInProgress` — not to `UnderExpertReview` — and opens
/// its Verification ballot.
pub proof fn lemma_passed_qualification_opens_verification(v: DaoView, id: u64, now: u64)
    requires
        v.votes.contains_key(vkey(VoteType::Qualification, id)),
        v.votes[vkey(VoteType::Qualification, id)].yes_votes > v.votes[vkey(
            VoteType::Qualification,
            id,
        )].no_votes,
    ensures
        finalize_vote_ok(v, VoteType::Qualification, id, now).uploads[id as u128].status
            == UploadStatus::VerificationVoteInProgress,
        finalize_vote_ok(v, VoteType::Qualification, id, now).votes.contains_key(
            vkey(VoteType::Verification, id),
        ),
        finalize_vote_ok(v, VoteType::Qualification, id, now).votes[vkey(VoteType::Verification, id)].status
            == VoteStatus::InProgress,
{
}

/// A document that passes Qualification but then fails Verification
/// ends `Rejected` without an expert review ever being opened: the
/// failed finalize touches no review record, and casting ballots in
/// between never changes a document's status or opens a review either.
pub proof fn lemma_failed_verification_rejects(
    v: DaoView,
    who: u64,
    vt: VoteType,
    id: u64,
    vote_cast: bool,
    now: u64,
)
    requires
        v.votes.contains_key(vkey(VoteType::Verification, id)),
        v.votes[vkey(VoteType::Verification, id)].yes_votes <= v.votes[vkey(
            VoteType::Verification,
            id,
        )].no_votes,
    ensures
        finalize_vote_ok(v, VoteType::Verification, id, now).uploads[id as u128].status
            == UploadStatus::Rejected,
        finalize_vote_ok(v, VoteType::Verification, id, now).reviews == v.reviews,
        cast_ok(v, who, vt, id, vote_cast).uploads == v.uploads,
        cast_ok(v, who, vt, id, vote_cast).reviews == v.reviews,
{
}

/// The first, verification-stage ballot of a promotion chain never
/// changes anyone's role: passing it only opens the council ballot, and
/// failing any role ballot changes nothing but the ballot itself.
pub proof fn lemma_first_stage_changes_no_role(v: DaoView, vt: VoteType, id: u64, now: u64)
    requires
        vt == VoteType::CuratorVerification || vt == VoteType::ExpertVerification || v.votes[vkey(
            vt,
            id,
        )].yes_votes <= v.votes[vkey(vt, id)].no_votes,
    ensures
        finalize_role_vote_ok(v, vt, id, now).members == v.members,
{
}

/// Only the second, council-stage ballot promotes: when it passes, the
/// recorded applicant's role becomes Verifier (curator track) or Expert
/// (expert track), and nobody else's record changes.
pub proof fn lemma_council_pass_promotes(v: DaoView, vt: VoteType, id: u64, now: u64)
    requires
        vt == VoteType::CuratorCouncilApproval || vt == VoteType::ExpertCouncilApproval,
        v.votes[vkey(vt, id)].yes_votes > v.votes[vkey(vt, id)].no_votes,
        v.members.contains_key(v.applications[id as u128] as u128),
    ensures
        finalize_role_vote_ok(v, vt, id, now).members == promote(
            v,
            v.applications[id as u128],
            if vt == VoteType::CuratorCouncilApproval {
                Roles::Verifier
            } else {
                Roles::Expert
            },
        ),
        finalize_role_vote_ok(v, vt, id, now).members[v.applications[id as u128] as u128].role == (
        if vt == VoteType::CuratorCouncilApproval {
            Roles::Verifier
        } else {
            Roles::Expert
        }),
        forall|w: u128| #![auto]
            v.members.contains_key(w) && w != v.applications[id as u128] as u128 ==> finalize_role_vote_ok(
                v,
                vt,
                id,
                now,
            ).members[w] == v.members[w],
{
}

} // verus!
