//! The content-curation DAO: membership and roles, the generic ballot
//! box, the document approval pipeline, the role-promotion pipeline, and
//! the expert-review sub-process.
//!
//! All operations take the caller's account id and the current block
//! number explicitly and run as serialized transactions: an operation
//! either returns `Ok` having applied its whole effect, or returns a
//! typed error leaving the state exactly as it was.

use vstd::prelude::*;
use crate::nft;
use crate::nft::NftView;
use crate::store::IdMap;
use crate::store::PairMap;
use crate::store::lemma_map_values_insert;
use crate::store::lemma_remove_insert;

verus! {

#[derive(Clone, Copy, PartialEq, Eq, Structural, Debug)]
pub enum VoteStatus {
    InProgress,
    Passed,
    Failed,
}

#[derive(Clone, Copy, PartialEq, Eq, Structural, Debug)]
pub enum UploadStatus {
    QualificationVoteInProgress,
    VerificationVoteInProgress,
    UnderExpertReview,
    SuccessfulExpertReview,
    CouncilVoteInProgress,
    Verified,
    Rejected,
}

#[derive(Clone, Copy, PartialEq, Eq, Structural, Debug)]
pub enum VoteType {
    Qualification,
    Verification,
    CuratorVerification,
    CuratorCouncilApproval,
    ExpertVerification,
    ExpertCouncilApproval,
    Proposal,
}

#[derive(Clone, Copy, PartialEq, Eq, Structural, Debug)]
pub enum Roles {
    NoRole,
    Qualifier,
    Contributor,
    Verifier,
    Expert,
    Collector,
}

#[derive(Clone, Copy, PartialEq, Eq, Structural, Debug)]
pub enum Error {
    /// Member Already Exists
    MemberAlreadyExists,
    /// Not A Member
    NotAMember,
    /// Not Eligible To Contribute
    NotEligibleToContribute,
    /// Not Eligible To Verify
    NotEligibleToVerify,
    /// Vote Not Found
    VoteNotFound,
    /// Vote Not In Progress
    VoteNotInProgress,
    /// Voting Window Not Valid
    VotingWindowNotValid,
    /// Vote Still In Progress
    VoteStillInProgress,
    /// Upload Not Found
    UploadNotFound,
    /// Not Eligible For Expert Role
    NotEligibleForExpertRole,
    /// Wrong Vote Type
    WrongVoteType,
    /// Not An Expert
    NotAnExpert,
    /// Wrong Role Assigned
    WrongRoleAssigned,
    /// Wrong Role Applied
    WrongRoleApplied,
    /// Not Eligible For Verifier Role
    NotEligibleForVerifierRole,
    /// Not Under Expert Review
    NotUnderExpertReview,
    /// Arithmetic overflow on a counter or id
    Overflow,
}

#[derive(Clone, Copy, PartialEq, Eq, Structural, Debug)]
pub enum Event {
    MemberAdded { who: u64, uid: u32 },
    NewUpload { uid: u64 },
    NewVote { vote_type: VoteType, uid: u64 },
    VoteCast { vote_type: VoteType, uid: u64 },
    VoteEnded { vote_type: VoteType, uid: u64 },
    ExpertReviewStarted { uid: u64 },
    ExpertReviewEnded { uid: u64 },
    ObjectionRaised { uid: u64, who: u64 },
}

/// A fully described document; kept as part of the public data model.
#[derive(Clone, PartialEq, Eq, Debug)]
pub struct Document {
    pub creator: u64,
    pub title: Vec<u8>,
    pub description: Vec<u8>,
    pub format: Vec<u8>,
    pub hash: Vec<u8>,
}

#[derive(Clone, PartialEq, Eq, Debug)]
pub struct Upload {
    pub creator: u64,
    pub hash: Vec<u8>,
    pub status: UploadStatus,
}

#[derive(Clone, Copy, PartialEq, Eq, Structural, Debug)]
pub struct Vote {
    pub yes_votes: u64,
    pub no_votes: u64,
    pub start: u64,
    pub end: u64,
    pub status: VoteStatus,
}

#[derive(Clone, PartialEq, Eq, Debug)]
pub struct Objection {
    pub objector: u64,
    pub hash: Vec<u8>,
}

#[derive(Clone, PartialEq, Eq, Debug)]
pub struct ExpertReview {
    pub start: u64,
    pub end: u64,
    pub objections: Option<Vec<Objection>>,
}

#[derive(Clone, PartialEq, Eq, Debug)]
pub struct Member {
    pub member_id: u32,
    pub metadata: Vec<u8>,
    pub vote_count: u64,
    pub approved_contributions: u32,
    pub role: Roles,
    pub joined: u64,
}

pub struct MemberV {
    pub member_id: u32,
    pub metadata: Seq<u8>,
    pub vote_count: u64,
    pub approved_contributions: u32,
    pub role: Roles,
    pub joined: u64,
}

impl View for Member {
    type V = MemberV;

    open spec fn view(&self) -> MemberV {
        MemberV {
            member_id: self.member_id,
            metadata: self.metadata@,
            vote_count: self.vote_count,
            approved_contributions: self.approved_contributions,
            role: self.role,
            joined: self.joined,
        }
    }
}

pub struct UploadV {
    pub creator: u64,
    pub hash: Seq<u8>,
    pub status: UploadStatus,
}

impl View for Upload {
    type V = UploadV;

    open spec fn view(&self) -> UploadV {
        UploadV { creator: self.creator, hash: self.hash@, status: self.status }
    }
}

pub struct ObjectionV {
    pub objector: u64,
    pub hash: Seq<u8>,
}

impl View for Objection {
    type V = ObjectionV;

    open spec fn view(&self) -> ObjectionV {
        ObjectionV { objector: self.objector, hash: self.hash@ }
    }
}

pub struct ReviewV {
    pub start: u64,
    pub end: u64,
    pub objections: Option<Seq<ObjectionV>>,
}

impl View for ExpertReview {
    type V = ReviewV;

    open spec fn view(&self) -> ReviewV {
        ReviewV {
            start: self.start,
            end: self.end,
            objections: match self.objections {
                Some(v) => Some(v@.map_values(|o: Objection| o@)),
                None => None,
            },
        }
    }
}

/// Abstract state of the whole DAO. Members are keyed by account id,
/// uploads, reviews and applications by their sequential ids, votes by
/// the composite (vote-type code, id) key, and ballot-cast marks by
/// (account, packed vote-type and id).
pub struct DaoView {
    pub members: Map<u128, MemberV>,
    pub uploads: Map<u128, UploadV>,
    pub votes: Map<(u128, u128), Vote>,
    pub reviews: Map<u128, ReviewV>,
    pub applications: Map<u128, u64>,
    pub ballots: Map<(u128, u128), bool>,
    pub members_count: u32,
    pub upload_count: u64,
    pub application_count: u64,
    pub token_count: u128,
    pub approved: Seq<u128>,
    pub contributor_share: u128,
    pub dao_share: u128,
    pub voting_window: u32,
    pub events: Seq<Event>,
    pub nft: NftView,
}

/// Numeric tag distinguishing vote types inside composite keys.
pub open spec fn vt_code(vt: VoteType) -> u128 {
    match vt {
        VoteType::Qualification => 0,
        VoteType::Verification => 1,
        VoteType::CuratorVerification => 2,
        VoteType::CuratorCouncilApproval => 3,
        VoteType::ExpertVerification => 4,
        VoteType::ExpertCouncilApproval => 5,
        VoteType::Proposal => 6,
    }
}

/// The composite key of the ballot for item `id` under vote type `vt`;
/// the same numeric id carries distinct ballots under distinct types.
pub open spec fn vkey(vt: VoteType, id: u64) -> (u128, u128) {
    (vt_code(vt), id as u128)
}

/// The key recording that `who` already cast a ballot in `(vt, id)`.
pub open spec fn bkey(who: u64, vt: VoteType, id: u64) -> (u128, u128) {
    (who as u128, (vt_code(vt) * 0x1_0000_0000_0000_0000 + id as u128) as u128)
}

/// An owned copy of a byte string, used where one value must both stay
/// in a registry and be handed to the ledger.
fn clone_bytes(v: &Vec<u8>) -> (r: Vec<u8>)
    ensures
        r@ == v@,
{
    let mut r: Vec<u8> = Vec::new();
    let n = v.len();
    let mut i: usize = 0;
    while i < n
        invariant
            n == v@.len(),
            i <= n,
            r@ == v@.take(i as int),
        decreases n - i,
    {
        r.push(v[i]);
        proof {
            assert(v@.take(i + 1) =~= v@.take(i as int).push(v@[i as int]));
        }
        i += 1;
    }
    proof {
        assert(v@.take(n as int) =~= v@);
    }
    r
}

fn vote_type_code(vt: VoteType) -> (c: u128)
    ensures
        c == vt_code(vt),
{
    match vt {
        VoteType::Qualification => 0,
        VoteType::Verification => 1,
        VoteType::CuratorVerification => 2,
        VoteType::CuratorCouncilApproval => 3,
        VoteType::ExpertVerification => 4,
        VoteType::ExpertCouncilApproval => 5,
        VoteType::Proposal => 6,
    }
}

fn vote_key(vt: VoteType, id: u64) -> (k: (u128, u128))
    ensures
        k == vkey(vt, id),
{
    (vote_type_code(vt), id as u128)
}

fn ballot_key(who: u64, vt: VoteType, id: u64) -> (k: (u128, u128))
    ensures
        k == bkey(who, vt, id),
{
    let c = vote_type_code(vt);
    proof {
        assert(c <= 6);
    }
    (who as u128, c * 0x1_0000_0000_0000_0000 + (id as u128))
}

/// The total mapping from admin-supplied role codes to roles; codes
/// outside the known range fall back to `Roles::NoRole`.
pub open spec fn role_from_code(code: u8) -> Roles {
    if code == 1 {
        Roles::Qualifier
    } else if code == 2 {
        Roles::Contributor
    } else if code == 3 {
        Roles::Verifier
    } else if code == 4 {
        Roles::Expert
    } else if code == 5 {
        Roles::Collector
    } else {
        Roles::NoRole
    }
}

/// Codes of the four role-promotion vote types.
pub open spec fn is_role_vote_code(c: u128) -> bool {
    c == 2 || c == 3 || c == 4 || c == 5
}

/// Every role-promotion ballot points back to a recorded application
/// whose applicant is a registered member, so a passed council vote can
/// always find whom to promote.
pub open spec fn role_votes_backed(v: DaoView) -> bool {
    forall|k: (u128, u128)| #[trigger]
        v.votes.contains_key(k) && is_role_vote_code(k.0) ==> v.applications.contains_key(k.1)
            && v.members.contains_key(v.applications[k.1] as u128)
}

/// Every ballot's window is exactly the configured voting window.
pub open spec fn votes_windowed(v: DaoView) -> bool {
    forall|k: (u128, u128)| #[trigger]
        v.votes.contains_key(k) ==> v.votes[k].end as int == v.votes[k].start as int
            + v.voting_window as int
}

pub open spec fn initial_dao(voting_window: u32) -> DaoView {
    DaoView {
        members: Map::empty(),
        uploads: Map::empty(),
        votes: Map::empty(),
        reviews: Map::empty(),
        applications: Map::empty(),
        ballots: Map::empty(),
        members_count: 0,
        upload_count: 0,
        application_count: 0,
        token_count: 0,
        approved: Seq::empty(),
        contributor_share: 90,
        dao_share: 10,
        voting_window,
        events: Seq::empty(),
        nft: nft::initial_nft(),
    }
}

/// Default share of a reward token minted to the document's creator.
#[allow(non_snake_case)]
pub fn ContributorTokenShare() -> (s: u128)
    ensures
        s == 90,
{
    90
}

/// Default share of a reward token minted to the finalizing caller.
#[allow(non_snake_case)]
pub fn DAOTokenShare() -> (s: u128)
    ensures
        s == 10,
{
    10
}

pub open spec fn join_dao_err(v: DaoView, who: u64) -> Option<Error> {
    if v.members.contains_key(who as u128) {
        Some(Error::MemberAlreadyExists)
    } else if v.members_count == u32::MAX {
        Some(Error::Overflow)
    } else {
        None
    }
}

pub open spec fn join_dao_ok(v: DaoView, who: u64, metadata: Seq<u8>, now: u64) -> DaoView {
    let uid = (v.members_count + 1) as u32;
    DaoView {
        members: v.members.insert(
            who as u128,
            MemberV {
                member_id: uid,
                metadata,
                vote_count: 0,
                approved_contributions: 0,
                role: Roles::Qualifier,
                joined: now,
            },
        ),
        members_count: uid,
        events: v.events.push(Event::MemberAdded { who, uid }),
        ..v
    }
}

pub open spec fn set_membership_err(v: DaoView, new_member: u64) -> Option<Error> {
    if v.members.contains_key(new_member as u128) {
        Some(Error::MemberAlreadyExists)
    } else if v.members_count == u32::MAX {
        Some(Error::Overflow)
    } else {
        None
    }
}

pub open spec fn set_membership_ok(
    v: DaoView,
    new_member: u64,
    member_role: u8,
    metadata: Seq<u8>,
    now: u64,
) -> DaoView {
    let uid = (v.members_count + 1) as u32;
    DaoView {
        members: v.members.insert(
            new_member as u128,
            MemberV {
                member_id: uid,
                metadata,
                vote_count: 0,
                approved_contributions: 0,
                role: role_from_code(member_role),
                joined: now,
            },
        ),
        members_count: uid,
        events: v.events.push(Event::MemberAdded { who: new_member, uid }),
        ..v
    }
}

/// A fresh ballot opened at `now`: its window is exactly the configured
/// length, and casting is allowed strictly between `start` and `end`.
pub open spec fn new_vote(now: u64, window: u32) -> Vote {
    Vote {
        yes_votes: 0,
        no_votes: 0,
        start: now,
        end: (now + window) as u64,
        status: VoteStatus::InProgress,
    }
}

pub open spec fn upload_document_err(v: DaoView, who: u64) -> Option<Error> {
    if !v.members.contains_key(who as u128) {
        Some(Error::NotAMember)
    } else if v.members[who as u128].role != Roles::Contributor {
        Some(Error::NotEligibleToContribute)
    } else if v.upload_count == u64::MAX {
        Some(Error::Overflow)
    } else {
        None
    }
}

pub open spec fn upload_document_ok(v: DaoView, who: u64, hash: Seq<u8>, now: u64) -> DaoView {
    let uid = (v.upload_count + 1) as u64;
    DaoView {
        uploads: v.uploads.insert(
            uid as u128,
            UploadV { creator: who, hash, status: UploadStatus::QualificationVoteInProgress },
        ),
        upload_count: uid,
        votes: v.votes.insert(vkey(VoteType::Qualification, uid), new_vote(now, v.voting_window)),
        events: v.events.push(Event::NewUpload { uid }).push(
            Event::NewVote { vote_type: VoteType::Qualification, uid },
        ),
        ..v
    }
}

/// The tallied ballot after one cast: one counter goes up, the window
/// and status stay.
pub open spec fn tally(vote: Vote, approve: bool) -> Vote {
    if approve {
        Vote { yes_votes: (vote.yes_votes + 1) as u64, ..vote }
    } else {
        Vote { no_votes: (vote.no_votes + 1) as u64, ..vote }
    }
}

/// The member record after one recorded cast: the counter goes up, and
/// reaching the threshold of 10 force-promotes to Contributor.
pub open spec fn member_after_cast(m: MemberV) -> MemberV {
    let c = (m.vote_count + 1) as u64;
    MemberV {
        vote_count: c,
        role: if c == 10 {
            Roles::Contributor
        } else {
            m.role
        },
        ..m
    }
}

/// Effect shared by both cast paths: the tallied ballot, the ballot-cast
/// mark, the caster's updated record, and one `VoteCast` event.
pub open spec fn cast_ok(v: DaoView, who: u64, vt: VoteType, id: u64, vote_cast: bool) -> DaoView {
    let k = vkey(vt, id);
    DaoView {
        votes: v.votes.insert(k, tally(v.votes[k], vote_cast)),
        ballots: v.ballots.insert(bkey(who, vt, id), true),
        members: v.members.insert(who as u128, member_after_cast(v.members[who as u128])),
        events: v.events.push(Event::VoteCast { vote_type: vt, uid: id }),
        ..v
    }
}

pub open spec fn cast_vote_err(
    v: DaoView,
    who: u64,
    vt: VoteType,
    id: u64,
    vote_cast: bool,
    now: u64,
) -> Option<Error> {
    let k = vkey(vt, id);
    if !v.members.contains_key(who as u128) {
        Some(Error::NotAMember)
    } else if !(vt == VoteType::Verification || vt == VoteType::Qualification) {
        Some(Error::WrongVoteType)
    } else if vt == VoteType::Verification && v.members[who as u128].role != Roles::Verifier {
        Some(Error::NotEligibleToVerify)
    } else if !v.votes.contains_key(k) {
        Some(Error::VoteNotFound)
    } else if v.votes[k].status != VoteStatus::InProgress {
        Some(Error::VoteNotInProgress)
    } else if !(v.votes[k].start < now && now < v.votes[k].end) {
        Some(Error::VotingWindowNotValid)
    } else if (if vote_cast {
        v.votes[k].yes_votes
    } else {
        v.votes[k].no_votes
    }) == u64::MAX {
        Some(Error::Overflow)
    } else if v.members[who as u128].vote_count == u64::MAX {
        Some(Error::Overflow)
    } else {
        None
    }
}

pub open spec fn cast_role_vote_err(
    v: DaoView,
    who: u64,
    vt: VoteType,
    id: u64,
    vote_cast: bool,
    now: u64,
) -> Option<Error> {
    let k = vkey(vt, id);
    if !v.members.contains_key(who as u128) {
        Some(Error::NotAMember)
    } else if !(vt == VoteType::ExpertVerification || vt == VoteType::ExpertCouncilApproval || vt
        == VoteType::CuratorVerification || vt == VoteType::CuratorCouncilApproval) {
        Some(Error::WrongVoteType)
    } else if !v.votes.contains_key(k) {
        Some(Error::VoteNotFound)
    } else if v.votes[k].status != VoteStatus::InProgress {
        Some(Error::VoteNotInProgress)
    } else if !(v.votes[k].start < now && now < v.votes[k].end) {
        Some(Error::VotingWindowNotValid)
    } else if (vt == VoteType::ExpertVerification || vt == VoteType::CuratorVerification)
        && v.members[who as u128].role != Roles::Verifier {
        Some(Error::NotEligibleToVerify)
    } else if (vt == VoteType::ExpertCouncilApproval || vt == VoteType::CuratorCouncilApproval)
        && v.members[who as u128].role != Roles::Expert {
        Some(Error::NotAnExpert)
    } else if (if vote_cast {
        v.votes[k].yes_votes
    } else {
        v.votes[k].no_votes
    }) == u64::MAX {
        Some(Error::Overflow)
    } else if v.members[who as u128].vote_count == u64::MAX {
        Some(Error::Overflow)
    } else {
        None
    }
}

pub open spec fn finalize_vote_err(
    v: DaoView,
    who: u64,
    vt: VoteType,
    id: u64,
    now: u64,
) -> Option<Error> {
    let k = vkey(vt, id);
    if !v.members.contains_key(who as u128) {
        Some(Error::NotAMember)
    } else if !v.votes.contains_key(k) {
        Some(Error::VoteNotFound)
    } else if v.votes[k].status != VoteStatus::InProgress {
        Some(Error::VoteNotInProgress)
    } else if now <= v.votes[k].end {
        Some(Error::VoteStillInProgress)
    } else if (vt == VoteType::Qualification || vt == VoteType::Verification)
        && !v.uploads.contains_key(id as u128) {
        Some(Error::UploadNotFound)
    } else {
        None
    }
}

/// The document pipeline's step on a finalized ballot: a passed
/// Qualification opens the Verification ballot, a passed Verification
/// opens the expert review, and a failed ballot of either type rejects
/// the document. Ballots of other types only get their terminal status.
pub open spec fn finalize_vote_ok(v: DaoView, vt: VoteType, id: u64, now: u64) -> DaoView {
    let k = vkey(vt, id);
    let vote = v.votes[k];
    if vote.yes_votes > vote.no_votes {
        let v1 = DaoView {
            votes: v.votes.insert(k, Vote { status: VoteStatus::Passed, ..vote }),
            events: v.events.push(Event::VoteEnded { vote_type: vt, uid: id }),
            ..v
        };
        if vt == VoteType::Qualification {
            DaoView {
                votes: v1.votes.insert(vkey(VoteType::Verification, id), new_vote(now, v.voting_window)),
                uploads: v1.uploads.insert(
                    id as u128,
                    UploadV { status: UploadStatus::VerificationVoteInProgress, ..v.uploads[id as u128] },
                ),
                events: v1.events.push(Event::NewVote { vote_type: VoteType::Verification, uid: id }),
                ..v1
            }
        } else if vt == VoteType::Verification {
            DaoView {
                uploads: v1.uploads.insert(
                    id as u128,
                    UploadV { status: UploadStatus::UnderExpertReview, ..v.uploads[id as u128] },
                ),
                reviews: v1.reviews.insert(
                    id as u128,
                    ReviewV { start: now, end: (now + v.voting_window) as u64, objections: None },
                ),
                events: v1.events.push(Event::ExpertReviewStarted { uid: id }),
                ..v1
            }
        } else {
            v1
        }
    } else {
        let v1 = DaoView {
            votes: v.votes.insert(k, Vote { status: VoteStatus::Failed, ..vote }),
            events: v.events.push(Event::VoteEnded { vote_type: vt, uid: id }),
            ..v
        };
        if vt == VoteType::Qualification || vt == VoteType::Verification {
            DaoView {
                uploads: v1.uploads.insert(
                    id as u128,
                    UploadV { status: UploadStatus::Rejected, ..v.uploads[id as u128] },
                ),
                ..v1
            }
        } else {
            v1
        }
    }
}

pub open spec fn apply_for_expanded_role_err(v: DaoView, who: u64, applied_role: Roles) -> Option<
    Error,
> {
    if !(applied_role == Roles::Expert || applied_role == Roles::Verifier) {
        Some(Error::WrongRoleApplied)
    } else if !v.members.contains_key(who as u128) {
        Some(Error::NotAMember)
    } else if applied_role == Roles::Expert && v.members[who as u128].role != Roles::Verifier {
        Some(Error::NotEligibleForExpertRole)
    } else if applied_role == Roles::Verifier && v.members[who as u128].role != Roles::Contributor {
        Some(Error::NotEligibleForVerifierRole)
    } else if v.application_count == u64::MAX {
        Some(Error::Overflow)
    } else {
        None
    }
}

/// The first ballot of an application's chain: CuratorVerification for
/// the Verifier track, ExpertVerification for the Expert track.
pub open spec fn apply_vote_type(applied_role: Roles) -> VoteType {
    if applied_role == Roles::Verifier {
        VoteType::CuratorVerification
    } else {
        VoteType::ExpertVerification
    }
}

pub open spec fn apply_for_expanded_role_ok(
    v: DaoView,
    who: u64,
    applied_role: Roles,
    now: u64,
) -> DaoView {
    let vt = apply_vote_type(applied_role);
    let uid = (v.application_count + 1) as u64;
    DaoView {
        votes: v.votes.insert(vkey(vt, uid), new_vote(now, v.voting_window)),
        applications: v.applications.insert(uid as u128, who),
        application_count: uid,
        events: v.events.push(Event::NewVote { vote_type: vt, uid }),
        ..v
    }
}

pub open spec fn finalize_role_vote_err(
    v: DaoView,
    who: u64,
    vt: VoteType,
    id: u64,
    now: u64,
) -> Option<Error> {
    let k = vkey(vt, id);
    if !v.members.contains_key(who as u128) {
        Some(Error::NotAMember)
    } else if !v.votes.contains_key(k) {
        Some(Error::VoteNotFound)
    } else if v.votes[k].status != VoteStatus::InProgress {
        Some(Error::VoteNotInProgress)
    } else if now <= v.votes[k].end {
        Some(Error::VoteStillInProgress)
    } else {
        None
    }
}

/// The applicant's record with its role overwritten: the sole effect of
/// a passed council ballot.
pub open spec fn promote(v: DaoView, applicant: u64, role: Roles) -> Map<u128, MemberV> {
    v.members.insert(applicant as u128, MemberV { role, ..v.members[applicant as u128] })
}

/// The role-promotion pipeline's step on a finalized ballot: a passed
/// verification stage opens the council ballot for the same application
/// id, and a passed council stage promotes the applicant. A failed
/// ballot of any type only gets its terminal status, leaving the
/// applicant's role unchanged.
pub open spec fn finalize_role_vote_ok(v: DaoView, vt: VoteType, id: u64, now: u64) -> DaoView {
    let k = vkey(vt, id);
    let vote = v.votes[k];
    if vote.yes_votes > vote.no_votes {
        let v1 = DaoView {
            votes: v.votes.insert(k, Vote { status: VoteStatus::Passed, ..vote }),
            events: v.events.push(Event::VoteEnded { vote_type: vt, uid: id }),
            ..v
        };
        if vt == VoteType::ExpertVerification {
            DaoView {
                votes: v1.votes.insert(
                    vkey(VoteType::ExpertCouncilApproval, id),
                    new_vote(now, v.voting_window),
                ),
                events: v1.events.push(
                    Event::NewVote { vote_type: VoteType::ExpertCouncilApproval, uid: id },
                ),
                ..v1
            }
        } else if vt == VoteType::ExpertCouncilApproval {
            DaoView { members: promote(v, v.applications[id as u128], Roles::Expert), ..v1 }
        } else if vt == VoteType::CuratorVerification {
            DaoView {
                votes: v1.votes.insert(
                    vkey(VoteType::CuratorCouncilApproval, id),
                    new_vote(now, v.voting_window),
                ),
                events: v1.events.push(
                    Event::NewVote { vote_type: VoteType::CuratorCouncilApproval, uid: id },
                ),
                ..v1
            }
        } else if vt == VoteType::CuratorCouncilApproval {
            DaoView { members: promote(v, v.applications[id as u128], Roles::Verifier), ..v1 }
        } else {
            v1
        }
    } else {
        DaoView {
            votes: v.votes.insert(k, Vote { status: VoteStatus::Failed, ..vote }),
            events: v.events.push(Event::VoteEnded { vote_type: vt, uid: id }),
            ..v
        }
    }
}

pub open spec fn raise_expert_objection_err(
    v: DaoView,
    who: u64,
    upload_id: u64,
    now: u64,
) -> Option<Error> {
    if !v.members.contains_key(who as u128) {
        Some(Error::NotAMember)
    } else if v.members[who as u128].role != Roles::Expert {
        Some(Error::NotAnExpert)
    } else if !v.uploads.contains_key(upload_id as u128) {
        Some(Error::UploadNotFound)
    } else if v.uploads[upload_id as u128].status != UploadStatus::UnderExpertReview {
        Some(Error::NotUnderExpertReview)
    } else if !v.reviews.contains_key(upload_id as u128) {
        Some(Error::NotUnderExpertReview)
    } else if !(v.reviews[upload_id as u128].start < now && now < v.reviews[upload_id as u128].end) {
        Some(Error::VotingWindowNotValid)
    } else {
        None
    }
}

pub open spec fn raise_expert_objection_ok(
    v: DaoView,
    who: u64,
    upload_id: u64,
    reason: Seq<u8>,
) -> DaoView {
    let r = v.reviews[upload_id as u128];
    let obj = ObjectionV { objector: who, hash: reason };
    let objs = match r.objections {
        Some(s) => s.push(obj),
        None => seq![obj],
    };
    DaoView {
        reviews: v.reviews.insert(upload_id as u128, ReviewV { objections: Some(objs), ..r }),
        events: v.events.push(Event::ObjectionRaised { uid: upload_id, who }),
        ..v
    }
}

pub open spec fn finalize_expert_review_err(
    v: DaoView,
    who: u64,
    upload_id: u64,
    now: u64,
) -> Option<Error> {
    if !v.members.contains_key(who as u128) {
        Some(Error::NotAMember)
    } else if !v.reviews.contains_key(upload_id as u128) {
        Some(Error::NotUnderExpertReview)
    } else if !v.uploads.contains_key(upload_id as u128) {
        Some(Error::UploadNotFound)
    } else if now <= v.reviews[upload_id as u128].end {
        Some(Error::VoteStillInProgress)
    } else if v.reviews[upload_id as u128].objections is None && v.token_count == u128::MAX {
        Some(Error::Overflow)
    } else {
        None
    }
}

/// Closing a review with any recorded objection rejects the document.
/// With none, the document is verified, a fresh token id is allocated
/// and recorded as approved, and the ledger is asked to mint the reward,
/// split between the document's creator and the finalizing caller; a
/// ledger refusal is deliberately swallowed and does not undo the
/// verification.
pub open spec fn finalize_expert_review_ok(v: DaoView, who: u64, upload_id: u64) -> DaoView {
    let r = v.reviews[upload_id as u128];
    let upload = v.uploads[upload_id as u128];
    match r.objections {
        Some(_) => DaoView {
            uploads: v.uploads.insert(
                upload_id as u128,
                UploadV { status: UploadStatus::Rejected, ..upload },
            ),
            ..v
        },
        None => {
            let tuid = (v.token_count + 1) as u128;
            let tos = seq![upload.creator, who];
            let amounts = seq![v.contributor_share, v.dao_share];
            let minted = match nft::mint_batch_err(v.nft, tuid, tos, amounts) {
                Some(_) => v.nft,
                None => nft::mint_batch_ok(v.nft, tuid, tos, amounts, upload.hash),
            };
            DaoView {
                uploads: v.uploads.insert(
                    upload_id as u128,
                    UploadV { status: UploadStatus::Verified, ..upload },
                ),
                token_count: tuid,
                approved: v.approved.push(tuid),
                nft: minted,
                ..v
            }
        },
    }
}

pub struct Pallet {
    members: IdMap<Member>,
    uploads: IdMap<Upload>,
    votes: PairMap<Vote>,
    reviews: IdMap<ExpertReview>,
    applications: IdMap<u64>,
    ballots: PairMap<bool>,
    members_count: u32,
    upload_count: u64,
    application_count: u64,
    token_count: u128,
    approved: Vec<u128>,
    contributor_share: u128,
    dao_share: u128,
    voting_window: u32,
    events: Vec<Event>,
    nft: nft::Pallet,
}

impl View for Pallet {
    type V = DaoView;

    closed spec fn view(&self) -> DaoView {
        DaoView {
            members: self.members@.map_values(|m: Member| m@),
            uploads: self.uploads@.map_values(|u: Upload| u@),
            votes: self.votes@,
            reviews: self.reviews@.map_values(|r: ExpertReview| r@),
            applications: self.applications@,
            ballots: self.ballots@,
            members_count: self.members_count,
            upload_count: self.upload_count,
            application_count: self.application_count,
            token_count: self.token_count,
            approved: self.approved@,
            contributor_share: self.contributor_share,
            dao_share: self.dao_share,
            voting_window: self.voting_window,
            events: self.events@,
            nft: self.nft@,
        }
    }
}

impl Pallet {
    /// The stores are well formed, the ledger is well formed, and the
    /// cross-registry invariants of the vote engine hold.
    pub closed spec fn wf(&self) -> bool {
        &&& self.members.inv()
        &&& self.uploads.inv()
        &&& self.votes.inv()
        &&& self.reviews.inv()
        &&& self.applications.inv()
        &&& self.ballots.inv()
        &&& self.nft.wf()
        &&& role_votes_backed(self@)
        &&& votes_windowed(self@)
    }

    /// The well-formedness that `new` establishes and every operation
    /// keeps, restated over the abstract state: every role-promotion
    /// ballot is backed by a recorded application whose applicant is a
    /// member, and every ballot's window has exactly the configured
    /// length.
    pub proof fn lemma_wf_invariants(&self)
        requires
            self.wf(),
        ensures
            role_votes_backed(self@),
            votes_windowed(self@),
    {
    }

    /// A fresh DAO with the given voting-window length and the default
    /// 90/10 reward split.
    pub fn new(voting_window: u32) -> (p: Self)
        ensures
            p.wf(),
            p@ == initial_dao(voting_window),
    {
        let p = Pallet {
            members: IdMap::new(),
            uploads: IdMap::new(),
            votes: PairMap::new(),
            reviews: IdMap::new(),
            applications: IdMap::new(),
            ballots: PairMap::new(),
            members_count: 0,
            upload_count: 0,
            application_count: 0,
            token_count: 0,
            approved: Vec::new(),
            contributor_share: 90,
            dao_share: 10,
            voting_window,
            events: Vec::new(),
            nft: nft::Pallet::new(),
        };
        proof {
            assert(p@.members =~= initial_dao(voting_window).members);
            assert(p@.uploads =~= initial_dao(voting_window).uploads);
            assert(p@.reviews =~= initial_dao(voting_window).reviews);
            assert(p@ == initial_dao(voting_window));
        }
        p
    }

    /// Membership Registry: register the caller with role Qualifier.
    pub fn join_dao(&mut self, who: u64, metadata: Vec<u8>, now: u64) -> (r: Result<(), Error>)
        requires
            old(self).wf(),
        ensures
            final(self).wf(),
            match join_dao_err(old(self)@, who) {
                Some(e) => r == Err::<(), Error>(e) && final(self)@ == old(self)@,
                None => r == Ok::<(), Error>(()) && final(self)@ == join_dao_ok(
                    old(self)@,
                    who,
                    metadata@,
                    now,
                ),
            },
    {
        if self.members.get(who as u128).is_some() {
            return Err(Error::MemberAlreadyExists);
        }
        if self.members_count == u32::MAX {
            return Err(Error::Overflow);
        }
        let uid = self.members_count + 1;
        let member = Member {
            member_id: uid,
            metadata,
            vote_count: 0,
            approved_contributions: 0,
            role: Roles::Qualifier,
            joined: now,
        };
        self.members.insert(who as u128, member);
        self.members_count = uid;
        self.events.push(Event::MemberAdded { who, uid });
        proof {
            lemma_map_values_insert(old(self).members@, |m: Member| m@, who as u128, member);
            assert(self@ == join_dao_ok(old(self)@, who, metadata@, now));
        }
        Ok(())
    }

    /// Membership Registry: privileged registration of an arbitrary
    /// account under an admin-supplied role code. The host must only
    /// call this for its privileged origin.
    pub fn set_membership(
        &mut self,
        new_member: u64,
        member_role: u8,
        metadata: Vec<u8>,
        now: u64,
    ) -> (r: Result<(), Error>)
        requires
            old(self).wf(),
        ensures
            final(self).wf(),
            match set_membership_err(old(self)@, new_member) {
                Some(e) => r == Err::<(), Error>(e) && final(self)@ == old(self)@,
                None => r == Ok::<(), Error>(()) && final(self)@ == set_membership_ok(
                    old(self)@,
                    new_member,
                    member_role,
                    metadata@,
                    now,
                ),
            },
    {
        if self.members.get(new_member as u128).is_some() {
            return Err(Error::MemberAlreadyExists);
        }
        if self.members_count == u32::MAX {
            return Err(Error::Overflow);
        }
        let role = match member_role {
            1 => Roles::Qualifier,
            2 => Roles::Contributor,
            3 => Roles::Verifier,
            4 => Roles::Expert,
            5 => Roles::Collector,
            _ => Roles::NoRole,
        };
        let uid = self.members_count + 1;
        let member = Member {
            member_id: uid,
            metadata,
            vote_count: 0,
            approved_contributions: 0,
            role,
            joined: now,
        };
        self.members.insert(new_member as u128, member);
        self.members_count = uid;
        self.events.push(Event::MemberAdded { who: new_member, uid });
        proof {
            lemma_map_values_insert(old(self).members@, |m: Member| m@, new_member as u128, member);
            assert(self@ == set_membership_ok(old(self)@, new_member, member_role, metadata@, now));
        }
        Ok(())
    }

    /// Document Registry: a Contributor opens the pipeline by uploading
    /// a document, which immediately opens its Qualification ballot.
    pub fn upload_document(&mut self, who: u64, hash: Vec<u8>, now: u64) -> (r: Result<(), Error>)
        requires
            old(self).wf(),
            now as int + old(self)@.voting_window as int <= u64::MAX as int,
        ensures
            final(self).wf(),
            match upload_document_err(old(self)@, who) {
                Some(e) => r == Err::<(), Error>(e) && final(self)@ == old(self)@,
                None => r == Ok::<(), Error>(()) && final(self)@ == upload_document_ok(
                    old(self)@,
                    who,
                    hash@,
                    now,
                ),
            },
    {
        let role = match self.members.get(who as u128) {
            Some(m) => m.role,
            None => {
                return Err(Error::NotAMember);
            },
        };
        if role != Roles::Contributor {
            return Err(Error::NotEligibleToContribute);
        }
        if self.upload_count == u64::MAX {
            return Err(Error::Overflow);
        }
        let uid = self.upload_count + 1;
        let upload = Upload { creator: who, hash, status: UploadStatus::QualificationVoteInProgress };
        self.uploads.insert(uid as u128, upload);
        self.upload_count = uid;
        self.events.push(Event::NewUpload { uid });
        let end = now + (self.voting_window as u64);
        let vote = Vote { yes_votes: 0, no_votes: 0, start: now, end, status: VoteStatus::InProgress };
        let k = vote_key(VoteType::Qualification, uid);
        self.votes.insert(k, vote);
        self.events.push(Event::NewVote { vote_type: VoteType::Qualification, uid });
        proof {
            lemma_map_values_insert(old(self).uploads@, |u: Upload| u@, uid as u128, upload);
            assert(self@ == upload_document_ok(old(self)@, who, hash@, now));
        }
        Ok(())
    }

    /// Tally one ballot and record the cast: shared commit of both cast
    /// paths, after every check has passed.
    fn commit_cast(&mut self, who: u64, vote_type: VoteType, voting_id: u64, vote_cast: bool)
        requires
            old(self).wf(),
            old(self)@.votes.contains_key(vkey(vote_type, voting_id)),
            old(self)@.members.contains_key(who as u128),
            vote_cast ==> old(self)@.votes[vkey(vote_type, voting_id)].yes_votes < u64::MAX,
            !vote_cast ==> old(self)@.votes[vkey(vote_type, voting_id)].no_votes < u64::MAX,
            old(self)@.members[who as u128].vote_count < u64::MAX,
        ensures
            final(self).wf(),
            final(self)@ == cast_ok(old(self)@, who, vote_type, voting_id, vote_cast),
    {
        let k = vote_key(vote_type, voting_id);
        let vote = match self.votes.get(k) {
            Some(v) => *v,
            None => {
                proof {
                    assert(false);
                }
                return ;
            },
        };
        let new_vote = if vote_cast {
            Vote { yes_votes: vote.yes_votes + 1, ..vote }
        } else {
            Vote { no_votes: vote.no_votes + 1, ..vote }
        };
        self.votes.insert(k, new_vote);
        let bk = ballot_key(who, vote_type, voting_id);
        self.ballots.insert(bk, true);
        let member = match self.members.remove(who as u128) {
            Some(m) => m,
            None => {
                proof {
                    assert(false);
                }
                return ;
            },
        };
        let new_count = member.vote_count + 1;
        let new_role = if new_count == 10 {
            Roles::Contributor
        } else {
            member.role
        };
        let member = Member { vote_count: new_count, role: new_role, ..member };
        self.members.insert(who as u128, member);
        self.events.push(Event::VoteCast { vote_type, uid: voting_id });
        proof {
            let f = |m: Member| m@;
            crate::store::lemma_map_values_remove(old(self).members@, f, who as u128);
            lemma_map_values_insert(old(self).members@.remove(who as u128), f, who as u128, member);
            lemma_remove_insert(old(self)@.members, who as u128, member@);
            assert(self@ == cast_ok(old(self)@, who, vote_type, voting_id, vote_cast));
        }
    }

    /// Vote Engine, document pipeline: cast a ballot on a Qualification
    /// or Verification vote; Verification is gated on the Verifier role.
    ///
    /// The ballot-cast record is written on every cast but deliberately
    /// never consulted, mirroring the storage it models: a repeated cast
    /// by the same account in the same ballot is accepted and tallied
    /// again. The record only reports, through `get_member_vote`, that
    /// an account has cast in a ballot at least once.
    pub fn cast_vote(
        &mut self,
        who: u64,
        vote_type: VoteType,
        voting_id: u64,
        vote_cast: bool,
        now: u64,
    ) -> (r: Result<(), Error>)
        requires
            old(self).wf(),
        ensures
            final(self).wf(),
            match cast_vote_err(old(self)@, who, vote_type, voting_id, vote_cast, now) {
                Some(e) => r == Err::<(), Error>(e) && final(self)@ == old(self)@,
                None => r == Ok::<(), Error>(()) && final(self)@ == cast_ok(
                    old(self)@,
                    who,
                    vote_type,
                    voting_id,
                    vote_cast,
                ),
            },
    {
        let (role, vote_count) = match self.members.get(who as u128) {
            Some(m) => (m.role, m.vote_count),
            None => {
                return Err(Error::NotAMember);
            },
        };
        if !(vote_type == VoteType::Verification || vote_type == VoteType::Qualification) {
            return Err(Error::WrongVoteType);
        }
        if vote_type == VoteType::Verification && role != Roles::Verifier {
            return Err(Error::NotEligibleToVerify);
        }
        let k = vote_key(vote_type, voting_id);
        let vote = match self.votes.get(k) {
            Some(v) => *v,
            None => {
                return Err(Error::VoteNotFound);
            },
        };
        if vote.status != VoteStatus::InProgress {
            return Err(Error::VoteNotInProgress);
        }
        if !(vote.start < now && now < vote.end) {
            return Err(Error::VotingWindowNotValid);
        }
        if vote_cast && vote.yes_votes == u64::MAX {
            return Err(Error::Overflow);
        }
        if !vote_cast && vote.no_votes == u64::MAX {
            return Err(Error::Overflow);
        }
        if vote_count == u64::MAX {
            return Err(Error::Overflow);
        }
        self.commit_cast(who, vote_type, voting_id, vote_cast);
        Ok(())
    }

    /// Vote Engine, role-promotion pipeline: cast a ballot on one of the
    /// four role-promotion vote types; the verification stages are gated
    /// on Verifier, the council stages on Expert.
    pub fn cast_vote_for_expanded_role(
        &mut self,
        who: u64,
        vote_type: VoteType,
        voting_id: u64,
        vote_cast: bool,
        now: u64,
    ) -> (r: Result<(), Error>)
        requires
            old(self).wf(),
        ensures
            final(self).wf(),
            match cast_role_vote_err(old(self)@, who, vote_type, voting_id, vote_cast, now) {
                Some(e) => r == Err::<(), Error>(e) && final(self)@ == old(self)@,
                None => r == Ok::<(), Error>(()) && final(self)@ == cast_ok(
                    old(self)@,
                    who,
                    vote_type,
                    voting_id,
                    vote_cast,
                ),
            },
    {
        let (role, vote_count) = match self.members.get(who as u128) {
            Some(m) => (m.role, m.vote_count),
            None => {
                return Err(Error::NotAMember);
            },
        };
        if !(vote_type == VoteType::ExpertVerification || vote_type
            == VoteType::ExpertCouncilApproval || vote_type == VoteType::CuratorVerification
            || vote_type == VoteType::CuratorCouncilApproval) {
            return Err(Error::WrongVoteType);
        }
        let k = vote_key(vote_type, voting_id);
        let vote = match self.votes.get(k) {
            Some(v) => *v,
            None => {
                return Err(Error::VoteNotFound);
            },
        };
        if vote.status != VoteStatus::InProgress {
            return Err(Error::VoteNotInProgress);
        }
        if !(vote.start < now && now < vote.end) {
            return Err(Error::VotingWindowNotValid);
        }
        if (vote_type == VoteType::ExpertVerification || vote_type
            == VoteType::CuratorVerification) && role != Roles::Verifier {
            return Err(Error::NotEligibleToVerify);
        }
        if (vote_type == VoteType::ExpertCouncilApproval || vote_type
            == VoteType::CuratorCouncilApproval) && role != Roles::Expert {
            return Err(Error::NotAnExpert);
        }
        if vote_cast && vote.yes_votes == u64::MAX {
            return Err(Error::Overflow);
        }
        if !vote_cast && vote.no_votes == u64::MAX {
            return Err(Error::Overflow);
        }
        if vote_count == u64::MAX {
            return Err(Error::Overflow);
        }
        self.commit_cast(who, vote_type, voting_id, vote_cast);
        Ok(())
    }

    /// Overwrite a document's status, the only mutable field of an
    /// upload record.
    fn set_upload_status(&mut self, id: u64, status: UploadStatus)
        requires
            old(self).wf(),
            old(self)@.uploads.contains_key(id as u128),
        ensures
            final(self).wf(),
            final(self)@ == (DaoView {
                uploads: old(self)@.uploads.insert(
                    id as u128,
                    UploadV { status, ..old(self)@.uploads[id as u128] },
                ),
                ..old(self)@
            }),
    {
        let upload = match self.uploads.remove(id as u128) {
            Some(u) => u,
            None => {
                proof {
                    assert(false);
                }
                return ;
            },
        };
        let upload = Upload { status, ..upload };
        self.uploads.insert(id as u128, upload);
        proof {
            let f = |u: Upload| u@;
            crate::store::lemma_map_values_remove(old(self).uploads@, f, id as u128);
            lemma_map_values_insert(old(self).uploads@.remove(id as u128), f, id as u128, upload);
            lemma_remove_insert(old(self)@.uploads, id as u128, upload@);
        }
    }

    /// Vote Engine and document pipeline: close a ballot once its window
    /// has passed, decide it by strict majority, and advance the
    /// document pipeline on Qualification and Verification ballots.
    pub fn finalize_vote(&mut self, who: u64, vote_type: VoteType, voting_id: u64, now: u64) -> (r:
        Result<(), Error>)
        requires
            old(self).wf(),
            now as int + old(self)@.voting_window as int <= u64::MAX as int,
        ensures
            final(self).wf(),
            match finalize_vote_err(old(self)@, who, vote_type, voting_id, now) {
                Some(e) => r == Err::<(), Error>(e) && final(self)@ == old(self)@,
                None => r == Ok::<(), Error>(()) && final(self)@ == finalize_vote_ok(
                    old(self)@,
                    vote_type,
                    voting_id,
                    now,
                ),
            },
    {
        if self.members.get(who as u128).is_none() {
            return Err(Error::NotAMember);
        }
        let k = vote_key(vote_type, voting_id);
        let vote = match self.votes.get(k) {
            Some(v) => *v,
            None => {
                return Err(Error::VoteNotFound);
            },
        };
        if vote.status != VoteStatus::InProgress {
            return Err(Error::VoteNotInProgress);
        }
        if now <= vote.end {
            return Err(Error::VoteStillInProgress);
        }
        let is_doc = vote_type == VoteType::Qualification || vote_type == VoteType::Verification;
        if is_doc && self.uploads.get(voting_id as u128).is_none() {
            return Err(Error::UploadNotFound);
        }
        if vote.yes_votes > vote.no_votes {
            self.votes.insert(k, Vote { status: VoteStatus::Passed, ..vote });
            self.events.push(Event::VoteEnded { vote_type, uid: voting_id });
            if vote_type == VoteType::Qualification {
                let end = now + (self.voting_window as u64);
                let k2 = vote_key(VoteType::Verification, voting_id);
                self.votes.insert(
                    k2,
                    Vote { yes_votes: 0, no_votes: 0, start: now, end, status: VoteStatus::InProgress },
                );
                self.set_upload_status(voting_id, UploadStatus::VerificationVoteInProgress);
                self.events.push(Event::NewVote { vote_type: VoteType::Verification, uid: voting_id });
                proof {
                    assert(self@ == finalize_vote_ok(old(self)@, vote_type, voting_id, now));
                }
            } else if vote_type == VoteType::Verification {
                self.set_upload_status(voting_id, UploadStatus::UnderExpertReview);
                let end = now + (self.voting_window as u64);
                let review = ExpertReview { start: now, end, objections: None };
                self.reviews.insert(voting_id as u128, review);
                self.events.push(Event::ExpertReviewStarted { uid: voting_id });
                proof {
                    lemma_map_values_insert(
                        old(self).reviews@,
                        |x: ExpertReview| x@,
                        voting_id as u128,
                        review,
                    );
                    let target = finalize_vote_ok(old(self)@, vote_type, voting_id, now);
                    assert(self@.reviews == target.reviews);
                    assert(self@ == target);
                }
            } else {
                proof {
                    assert(self@ == finalize_vote_ok(old(self)@, vote_type, voting_id, now));
                }
            }
        } else {
            self.votes.insert(k, Vote { status: VoteStatus::Failed, ..vote });
            self.events.push(Event::VoteEnded { vote_type, uid: voting_id });
            if is_doc {
                self.set_upload_status(voting_id, UploadStatus::Rejected);
            }
            proof {
                assert(self@ == finalize_vote_ok(old(self)@, vote_type, voting_id, now));
            }
        }
        Ok(())
    }

    /// Role-Application Registry: a Contributor applies for the Verifier
    /// role, or a Verifier for the Expert role, opening the first ballot
    /// of the matching promotion chain.
    pub fn apply_for_expanded_role(&mut self, who: u64, applied_role: Roles, now: u64) -> (r:
        Result<(), Error>)
        requires
            old(self).wf(),
            now as int + old(self)@.voting_window as int <= u64::MAX as int,
        ensures
            final(self).wf(),
            match apply_for_expanded_role_err(old(self)@, who, applied_role) {
                Some(e) => r == Err::<(), Error>(e) && final(self)@ == old(self)@,
                None => r == Ok::<(), Error>(()) && final(self)@ == apply_for_expanded_role_ok(
                    old(self)@,
                    who,
                    applied_role,
                    now,
                ),
            },
    {
        if !(applied_role == Roles::Expert || applied_role == Roles::Verifier) {
            return Err(Error::WrongRoleApplied);
        }
        let role = match self.members.get(who as u128) {
            Some(m) => m.role,
            None => {
                return Err(Error::NotAMember);
            },
        };
        if applied_role == Roles::Expert && role != Roles::Verifier {
            return Err(Error::NotEligibleForExpertRole);
        }
        if applied_role == Roles::Verifier && role != Roles::Contributor {
            return Err(Error::NotEligibleForVerifierRole);
        }
        if self.application_count == u64::MAX {
            return Err(Error::Overflow);
        }
        let vote_type = if applied_role == Roles::Verifier {
            VoteType::CuratorVerification
        } else {
            VoteType::ExpertVerification
        };
        let uid = self.application_count + 1;
        let end = now + (self.voting_window as u64);
        let k = vote_key(vote_type, uid);
        self.votes.insert(
            k,
            Vote { yes_votes: 0, no_votes: 0, start: now, end, status: VoteStatus::InProgress },
        );
        self.applications.insert(uid as u128, who);
        self.application_count = uid;
        self.events.push(Event::NewVote { vote_type, uid });
        proof {
            assert(self@ == apply_for_expanded_role_ok(old(self)@, who, applied_role, now));
        }
        Ok(())
    }

    /// Overwrite a member's role, the effect of a passed council ballot.
    fn promote_member(&mut self, applicant: u64, role: Roles)
        requires
            old(self).wf(),
            old(self)@.members.contains_key(applicant as u128),
        ensures
            final(self).wf(),
            final(self)@ == (DaoView {
                members: promote(old(self)@, applicant, role),
                ..old(self)@
            }),
    {
        let member = match self.members.remove(applicant as u128) {
            Some(m) => m,
            None => {
                proof {
                    assert(false);
                }
                return ;
            },
        };
        let member = Member { role, ..member };
        self.members.insert(applicant as u128, member);
        proof {
            let f = |m: Member| m@;
            crate::store::lemma_map_values_remove(old(self).members@, f, applicant as u128);
            lemma_map_values_insert(
                old(self).members@.remove(applicant as u128),
                f,
                applicant as u128,
                member,
            );
            lemma_remove_insert(old(self)@.members, applicant as u128, member@);
        }
    }

    /// Vote Engine and role-promotion pipeline: close a ballot once its
    /// window has passed; a passed verification stage opens the council
    /// ballot, and a passed council stage promotes the applicant.
    pub fn finalize_vote_for_expanded_role(
        &mut self,
        who: u64,
        vote_type: VoteType,
        voting_id: u64,
        now: u64,
    ) -> (r: Result<(), Error>)
        requires
            old(self).wf(),
            now as int + old(self)@.voting_window as int <= u64::MAX as int,
        ensures
            final(self).wf(),
            match finalize_role_vote_err(old(self)@, who, vote_type, voting_id, now) {
                Some(e) => r == Err::<(), Error>(e) && final(self)@ == old(self)@,
                None => r == Ok::<(), Error>(()) && final(self)@ == finalize_role_vote_ok(
                    old(self)@,
                    vote_type,
                    voting_id,
                    now,
                ),
            },
    {
        if self.members.get(who as u128).is_none() {
            return Err(Error::NotAMember);
        }
        let k = vote_key(vote_type, voting_id);
        let vote = match self.votes.get(k) {
            Some(v) => *v,
            None => {
                return Err(Error::VoteNotFound);
            },
        };
        if vote.status != VoteStatus::InProgress {
            return Err(Error::VoteNotInProgress);
        }
        if now <= vote.end {
            return Err(Error::VoteStillInProgress);
        }
        if vote.yes_votes > vote.no_votes {
            self.votes.insert(k, Vote { status: VoteStatus::Passed, ..vote });
            self.events.push(Event::VoteEnded { vote_type, uid: voting_id });
            if vote_type == VoteType::ExpertVerification {
                let end = now + (self.voting_window as u64);
                let k2 = vote_key(VoteType::ExpertCouncilApproval, voting_id);
                self.votes.insert(
                    k2,
                    Vote { yes_votes: 0, no_votes: 0, start: now, end, status: VoteStatus::InProgress },
                );
                self.events.push(
                    Event::NewVote { vote_type: VoteType::ExpertCouncilApproval, uid: voting_id },
                );
                proof {
                    assert(self@ == finalize_role_vote_ok(old(self)@, vote_type, voting_id, now));
                }
            } else if vote_type == VoteType::ExpertCouncilApproval {
                let applicant = match self.applications.get(voting_id as u128) {
                    Some(a) => *a,
                    None => {
                        proof {
                            assert(false);
                        }
                        return Err(Error::VoteNotFound);
                    },
                };
                self.promote_member(applicant, Roles::Expert);
                proof {
                    assert(self@ == finalize_role_vote_ok(old(self)@, vote_type, voting_id, now));
                }
            } else if vote_type == VoteType::CuratorVerification {
                let end = now + (self.voting_window as u64);
                let k2 = vote_key(VoteType::CuratorCouncilApproval, voting_id);
                self.votes.insert(
                    k2,
                    Vote { yes_votes: 0, no_votes: 0, start: now, end, status: VoteStatus::InProgress },
                );
                self.events.push(
                    Event::NewVote { vote_type: VoteType::CuratorCouncilApproval, uid: voting_id },
                );
                proof {
                    assert(self@ == finalize_role_vote_ok(old(self)@, vote_type, voting_id, now));
                }
            } else if vote_type == VoteType::CuratorCouncilApproval {
                let applicant = match self.applications.get(voting_id as u128) {
                    Some(a) => *a,
                    None => {
                        proof {
                            assert(false);
                        }
                        return Err(Error::VoteNotFound);
                    },
                };
                self.promote_member(applicant, Roles::Verifier);
                proof {
                    assert(self@ == finalize_role_vote_ok(old(self)@, vote_type, voting_id, now));
                }
            } else {
                proof {
                    assert(self@ == finalize_role_vote_ok(old(self)@, vote_type, voting_id, now));
                }
            }
        } else {
            self.votes.insert(k, Vote { status: VoteStatus::Failed, ..vote });
            self.events.push(Event::VoteEnded { vote_type, uid: voting_id });
            proof {
                assert(self@ == finalize_role_vote_ok(old(self)@, vote_type, voting_id, now));
            }
        }
        Ok(())
    }

    /// Expert Review Tracker: an Expert records an objection against a
    /// document strictly inside its review window.
    pub fn raise_expert_objection(
        &mut self,
        who: u64,
        upload_id: u64,
        reason: Vec<u8>,
        now: u64,
    ) -> (r: Result<(), Error>)
        requires
            old(self).wf(),
        ensures
            final(self).wf(),
            match raise_expert_objection_err(old(self)@, who, upload_id, now) {
                Some(e) => r == Err::<(), Error>(e) && final(self)@ == old(self)@,
                None => r == Ok::<(), Error>(()) && final(self)@ == raise_expert_objection_ok(
                    old(self)@,
                    who,
                    upload_id,
                    reason@,
                ),
            },
    {
        let role = match self.members.get(who as u128) {
            Some(m) => m.role,
            None => {
                return Err(Error::NotAMember);
            },
        };
        if role != Roles::Expert {
            return Err(Error::NotAnExpert);
        }
        let status = match self.uploads.get(upload_id as u128) {
            Some(u) => u.status,
            None => {
                return Err(Error::UploadNotFound);
            },
        };
        if status != UploadStatus::UnderExpertReview {
            return Err(Error::NotUnderExpertReview);
        }
        let (rstart, rend) = match self.reviews.get(upload_id as u128) {
            Some(x) => (x.start, x.end),
            None => {
                return Err(Error::NotUnderExpertReview);
            },
        };
        if !(rstart < now && now < rend) {
            return Err(Error::VotingWindowNotValid);
        }
        let review = match self.reviews.remove(upload_id as u128) {
            Some(x) => x,
            None => {
                proof {
                    assert(false);
                }
                return Err(Error::NotUnderExpertReview);
            },
        };
        let objection = Objection { objector: who, hash: reason };
        let ghost g = |o: Objection| o@;
        let objs: Vec<Objection> = match review.objections {
            Some(v1) => {
                let mut v2 = v1;
                let ghost s0 = v2@;
                v2.push(objection);
                proof {
                    assert(v2@.map_values(g) =~= s0.map_values(g).push(objection@));
                }
                v2
            },
            None => {
                let mut v2: Vec<Objection> = Vec::new();
                v2.push(objection);
                proof {
                    assert(v2@.map_values(g) =~= seq![objection@]);
                }
                v2
            },
        };
        let new_review = ExpertReview { start: review.start, end: review.end, objections: Some(objs) };
        self.reviews.insert(upload_id as u128, new_review);
        self.events.push(Event::ObjectionRaised { uid: upload_id, who });
        proof {
            let f = |x: ExpertReview| x@;
            crate::store::lemma_map_values_remove(old(self).reviews@, f, upload_id as u128);
            lemma_map_values_insert(
                old(self).reviews@.remove(upload_id as u128),
                f,
                upload_id as u128,
                new_review,
            );
            lemma_remove_insert(old(self)@.reviews, upload_id as u128, new_review@);
            assert(self@ == raise_expert_objection_ok(old(self)@, who, upload_id, reason@));
        }
        Ok(())
    }

    /// Expert Review Tracker: close a review once its window has passed;
    /// any objection rejects the document, none verifies it and mints
    /// the shared reward token.
    pub fn finalize_expert_review(&mut self, who: u64, upload_id: u64, now: u64) -> (r: Result<
        (),
        Error,
    >)
        requires
            old(self).wf(),
        ensures
            final(self).wf(),
            match finalize_expert_review_err(old(self)@, who, upload_id, now) {
                Some(e) => r == Err::<(), Error>(e) && final(self)@ == old(self)@,
                None => r == Ok::<(), Error>(()) && final(self)@ == finalize_expert_review_ok(
                    old(self)@,
                    who,
                    upload_id,
                ),
            },
    {
        if self.members.get(who as u128).is_none() {
            return Err(Error::NotAMember);
        }
        let (rend, has_objections) = match self.reviews.get(upload_id as u128) {
            Some(x) => (x.end, x.objections.is_some()),
            None => {
                return Err(Error::NotUnderExpertReview);
            },
        };
        if self.uploads.get(upload_id as u128).is_none() {
            return Err(Error::UploadNotFound);
        }
        if now <= rend {
            return Err(Error::VoteStillInProgress);
        }
        if has_objections {
            self.set_upload_status(upload_id, UploadStatus::Rejected);
            proof {
                assert(self@ == finalize_expert_review_ok(old(self)@, who, upload_id));
            }
            Ok(())
        } else {
            if self.token_count == u128::MAX {
                return Err(Error::Overflow);
            }
            let tuid = self.token_count + 1;
            let (creator, uri) = match self.uploads.get(upload_id as u128) {
                Some(u) => (u.creator, clone_bytes(&u.hash)),
                None => {
                    proof {
                        assert(false);
                    }
                    return Err(Error::UploadNotFound);
                },
            };
            self.set_upload_status(upload_id, UploadStatus::Verified);
            let mut tos: Vec<u64> = Vec::new();
            tos.push(creator);
            tos.push(who);
            let mut amounts: Vec<u128> = Vec::new();
            amounts.push(self.contributor_share);
            amounts.push(self.dao_share);
            let ghost tosv = tos@;
            let ghost amountsv = amounts@;
            let _ = self.nft.mint_batch(who, tos, tuid, amounts, uri);
            self.approved.push(tuid);
            self.token_count = tuid;
            proof {
                assert(tosv =~= seq![creator, who]);
                assert(amountsv =~= seq![old(self)@.contributor_share, old(self)@.dao_share]);
                assert(self@ == finalize_expert_review_ok(old(self)@, who, upload_id));
            }
            Ok(())
        }
    }

    pub fn members_uid_count(&self) -> (c: u32)
        ensures
            c == self@.members_count,
    {
        self.members_count
    }

    pub fn upload_uid_count(&self) -> (c: u64)
        ensures
            c == self@.upload_count,
    {
        self.upload_count
    }

    pub fn role_application_uid_count(&self) -> (c: u64)
        ensures
            c == self@.application_count,
    {
        self.application_count
    }

    pub fn token_uid_count(&self) -> (c: u128)
        ensures
            c == self@.token_count,
    {
        self.token_count
    }

    pub fn get_member(&self, who: u64) -> (m: Option<&Member>)
        requires
            self.wf(),
        ensures
            match m {
                Some(x) => self@.members.contains_key(who as u128) && x@ == self@.members[who as u128],
                None => !self@.members.contains_key(who as u128),
            },
    {
        self.members.get(who as u128)
    }

    pub fn get_upload(&self, uid: u64) -> (u: Option<&Upload>)
        requires
            self.wf(),
        ensures
            match u {
                Some(x) => self@.uploads.contains_key(uid as u128) && x@ == self@.uploads[uid as u128],
                None => !self@.uploads.contains_key(uid as u128),
            },
    {
        self.uploads.get(uid as u128)
    }

    pub fn get_vote(&self, key: (VoteType, u64)) -> (v: Option<Vote>)
        requires
            self.wf(),
        ensures
            match v {
                Some(x) => self@.votes.contains_key(vkey(key.0, key.1)) && x == self@.votes[vkey(
                    key.0,
                    key.1,
                )],
                None => !self@.votes.contains_key(vkey(key.0, key.1)),
            },
    {
        let k = vote_key(key.0, key.1);
        match self.votes.get(k) {
            Some(x) => Some(*x),
            None => None,
        }
    }

    pub fn get_expert_review(&self, uid: u64) -> (x: Option<&ExpertReview>)
        requires
            self.wf(),
        ensures
            match x {
                Some(r) => self@.reviews.contains_key(uid as u128) && r@ == self@.reviews[uid as u128],
                None => !self@.reviews.contains_key(uid as u128),
            },
    {
        self.reviews.get(uid as u128)
    }

    pub fn get_role_application(&self, uid: u64) -> (a: Option<u64>)
        requires
            self.wf(),
        ensures
            match a {
                Some(x) => self@.applications.contains_key(uid as u128) && x == self@.applications[uid as u128],
                None => !self@.applications.contains_key(uid as u128),
            },
    {
        match self.applications.get(uid as u128) {
            Some(x) => Some(*x),
            None => None,
        }
    }

    pub fn get_member_vote(&self, key: (u64, VoteType, u64)) -> (b: Option<bool>)
        requires
            self.wf(),
        ensures
            match b {
                Some(x) => self@.ballots.contains_key(bkey(key.0, key.1, key.2)) && x
                    == self@.ballots[bkey(key.0, key.1, key.2)],
                None => !self@.ballots.contains_key(bkey(key.0, key.1, key.2)),
            },
    {
        let k = ballot_key(key.0, key.1, key.2);
        match self.ballots.get(k) {
            Some(x) => Some(*x),
            None => None,
        }
    }

    pub fn get_approved(&self) -> (a: &Vec<u128>)
        ensures
            a@ == self@.approved,
    {
        &self.approved
    }

    pub fn get_contributor_share(&self) -> (s: u128)
        ensures
            s == self@.contributor_share,
    {
        self.contributor_share
    }

    pub fn get_dao_share(&self) -> (s: u128)
        ensures
            s == self@.dao_share,
    {
        self.dao_share
    }

    pub fn events(&self) -> (e: &Vec<Event>)
        ensures
            e@ == self@.events,
    {
        &self.events
    }

    /// The embedded token ledger, read-only; its own operations remain
    /// available on a standalone ledger.
    pub fn nft(&self) -> (n: &nft::Pallet)
        requires
            self.wf(),
        ensures
            n@ == self@.nft,
            n.wf(),
    {
        &self.nft
    }
}

} // verus!
