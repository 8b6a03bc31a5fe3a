use bhdao::dao::Error;
use bhdao::dao::Event;
use bhdao::dao::Pallet;
use bhdao::dao::Roles;
use bhdao::dao::UploadStatus;
use bhdao::dao::Vote;
use bhdao::dao::VoteStatus;
use bhdao::dao::VoteType;

const VOTING_WINDOW: u32 = 1000;

fn new_dao() -> Pallet {
    Pallet::new(VOTING_WINDOW)
}

/// A DAO with a Contributor (1), Qualifiers (2..=5), Verifiers (6..=8)
/// and Experts (9..=11), and one uploaded document at t = 1.
fn dao_with_upload() -> Pallet {
    let mut dao = new_dao();
    assert!(dao.set_membership(1, 2, b"Contributor1".to_vec(), 1).is_ok());
    for who in 2..=5u64 {
        assert!(dao.set_membership(who, 1, b"Qualifier".to_vec(), 1).is_ok());
    }
    for who in 6..=8u64 {
        assert!(dao.set_membership(who, 3, b"Verifier".to_vec(), 1).is_ok());
    }
    for who in 9..=11u64 {
        assert!(dao.set_membership(who, 4, b"Expert".to_vec(), 1).is_ok());
    }
    assert!(dao.upload_document(1, b"Doc1".to_vec(), 1).is_ok());
    dao
}

#[test]
fn set_membership_twice_fails() {
    let mut dao = new_dao();
    assert!(dao.set_membership(1, 1, b"Qualifier1".to_vec(), 1).is_ok());
    assert_eq!(
        dao.set_membership(1, 2, b"Qualifier1".to_vec(), 2),
        Err(Error::MemberAlreadyExists)
    );
    // joining after a privileged registration fails the same way
    assert_eq!(dao.join_dao(1, b"Qualifier1".to_vec(), 2), Err(Error::MemberAlreadyExists));
}

#[test]
fn unknown_role_code_maps_to_no_role() {
    let mut dao = new_dao();
    assert!(dao.set_membership(1, 77, b"whoever".to_vec(), 1).is_ok());
    assert_eq!(dao.get_member(1).unwrap().role, Roles::NoRole);
}

#[test]
fn cast_at_window_bounds_fails() {
    // the window is (start, end) exclusive: start = 1, end = 1001
    let mut dao = dao_with_upload();
    assert_eq!(
        dao.cast_vote(2, VoteType::Qualification, 1, true, 1),
        Err(Error::VotingWindowNotValid)
    );
    assert_eq!(
        dao.cast_vote(2, VoteType::Qualification, 1, true, 1001),
        Err(Error::VotingWindowNotValid)
    );
    assert_eq!(
        dao.cast_vote(2, VoteType::Qualification, 1, true, 1500),
        Err(Error::VotingWindowNotValid)
    );
    // strictly inside the window the cast is accepted
    assert!(dao.cast_vote(2, VoteType::Qualification, 1, true, 2).is_ok());
    assert!(dao.cast_vote(3, VoteType::Qualification, 1, true, 1000).is_ok());
}

#[test]
fn finalize_before_window_ends_fails() {
    let mut dao = dao_with_upload();
    assert!(dao.cast_vote(2, VoteType::Qualification, 1, true, 200).is_ok());
    assert_eq!(
        dao.finalize_vote(1, VoteType::Qualification, 1, 500),
        Err(Error::VoteStillInProgress)
    );
    // exactly at end is still in progress; only now > end finalizes
    assert_eq!(
        dao.finalize_vote(1, VoteType::Qualification, 1, 1001),
        Err(Error::VoteStillInProgress)
    );
    assert!(dao.finalize_vote(1, VoteType::Qualification, 1, 1002).is_ok());
}

#[test]
fn tied_vote_fails() {
    let mut dao = dao_with_upload();
    assert!(dao.cast_vote(2, VoteType::Qualification, 1, true, 200).is_ok());
    assert!(dao.cast_vote(3, VoteType::Qualification, 1, false, 300).is_ok());
    assert!(dao.finalize_vote(1, VoteType::Qualification, 1, 1100).is_ok());
    assert_eq!(dao.get_vote((VoteType::Qualification, 1)).unwrap().status, VoteStatus::Failed);
    assert_eq!(dao.get_upload(1).unwrap().status, UploadStatus::Rejected);
}

#[test]
fn failed_qualification_never_opens_verification() {
    let mut dao = dao_with_upload();
    assert!(dao.cast_vote(2, VoteType::Qualification, 1, false, 200).is_ok());
    assert!(dao.finalize_vote(1, VoteType::Qualification, 1, 1100).is_ok());
    assert_eq!(dao.get_vote((VoteType::Qualification, 1)).unwrap().status, VoteStatus::Failed);
    assert_eq!(dao.get_vote((VoteType::Verification, 1)), None);
    assert_eq!(dao.get_upload(1).unwrap().status, UploadStatus::Rejected);
}

#[test]
fn failed_verification_rejects_without_expert_review() {
    let mut dao = dao_with_upload();
    assert!(dao.cast_vote(2, VoteType::Qualification, 1, true, 200).is_ok());
    assert!(dao.finalize_vote(1, VoteType::Qualification, 1, 1100).is_ok());
    assert_eq!(dao.get_upload(1).unwrap().status, UploadStatus::VerificationVoteInProgress);

    assert!(dao.cast_vote(6, VoteType::Verification, 1, false, 1200).is_ok());
    assert!(dao.cast_vote(7, VoteType::Verification, 1, true, 1300).is_ok());
    assert!(dao.cast_vote(8, VoteType::Verification, 1, false, 1400).is_ok());
    assert!(dao.finalize_vote(1, VoteType::Verification, 1, 2200).is_ok());

    assert_eq!(dao.get_upload(1).unwrap().status, UploadStatus::Rejected);
    // no expert review was ever opened
    assert!(dao.get_expert_review(1).is_none());
}

#[test]
fn qualification_scenario_opens_verification_window() {
    // Upload at t=1 with window 1000; yes, yes, no between 200 and 900;
    // finalize at 1100 passes 2-1 and opens Verification (1100, 2100).
    let mut dao = dao_with_upload();
    assert!(dao.cast_vote(2, VoteType::Qualification, 1, true, 200).is_ok());
    assert!(dao.cast_vote(3, VoteType::Qualification, 1, true, 500).is_ok());
    assert!(dao.cast_vote(4, VoteType::Qualification, 1, false, 900).is_ok());
    assert!(dao.finalize_vote(1, VoteType::Qualification, 1, 1100).is_ok());
    assert_eq!(
        dao.get_vote((VoteType::Qualification, 1)),
        Some(Vote { yes_votes: 2, no_votes: 1, start: 1, end: 1001, status: VoteStatus::Passed })
    );
    assert_eq!(
        dao.get_vote((VoteType::Verification, 1)),
        Some(Vote { yes_votes: 0, no_votes: 0, start: 1100, end: 2100, status: VoteStatus::InProgress })
    );
    assert_eq!(dao.get_upload(1).unwrap().status, UploadStatus::VerificationVoteInProgress);
}

#[test]
fn verified_document_mints_reward_split() {
    // After Verification passes 2-1, the document goes under expert
    // review; with zero objections the review's finalize verifies it and
    // mints the reward 90/10 between creator and the finalizing caller.
    let mut dao = dao_with_upload();
    assert!(dao.cast_vote(2, VoteType::Qualification, 1, true, 200).is_ok());
    assert!(dao.finalize_vote(1, VoteType::Qualification, 1, 1100).is_ok());
    assert!(dao.cast_vote(6, VoteType::Verification, 1, true, 1200).is_ok());
    assert!(dao.cast_vote(7, VoteType::Verification, 1, true, 1300).is_ok());
    assert!(dao.cast_vote(8, VoteType::Verification, 1, false, 1400).is_ok());
    assert!(dao.finalize_vote(1, VoteType::Verification, 1, 2200).is_ok());

    assert_eq!(dao.get_upload(1).unwrap().status, UploadStatus::UnderExpertReview);
    let review = dao.get_expert_review(1).unwrap();
    assert_eq!(review.start, 2200);
    assert_eq!(review.end, 3200);
    assert!(review.objections.is_none());

    // member 5 finalizes the review after its window
    assert!(dao.finalize_expert_review(5, 1, 3300).is_ok());
    assert_eq!(dao.get_upload(1).unwrap().status, UploadStatus::Verified);
    assert_eq!(dao.token_uid_count(), 1);
    assert_eq!(dao.get_approved(), &vec![1u128]);
    // the reward is split 90/10 between the creator and the caller
    assert_eq!(dao.nft().balance_of(1, 1), 90);
    assert_eq!(dao.nft().balance_of(1, 5), 10);
}

#[test]
fn objection_rejects_document() {
    let mut dao = dao_with_upload();
    assert!(dao.cast_vote(2, VoteType::Qualification, 1, true, 200).is_ok());
    assert!(dao.finalize_vote(1, VoteType::Qualification, 1, 1100).is_ok());
    assert!(dao.cast_vote(6, VoteType::Verification, 1, true, 1200).is_ok());
    assert!(dao.finalize_vote(1, VoteType::Verification, 1, 2200).is_ok());

    // only an Expert may object, and only inside the review window
    assert_eq!(dao.raise_expert_objection(6, 1, b"bad".to_vec(), 2500), Err(Error::NotAnExpert));
    assert_eq!(
        dao.raise_expert_objection(9, 1, b"bad".to_vec(), 2200),
        Err(Error::VotingWindowNotValid)
    );
    assert_eq!(
        dao.raise_expert_objection(9, 1, b"bad".to_vec(), 3200),
        Err(Error::VotingWindowNotValid)
    );
    assert!(dao.raise_expert_objection(9, 1, b"bad".to_vec(), 2500).is_ok());
    assert_eq!(dao.events().last(), Some(&Event::ObjectionRaised { uid: 1, who: 9 }));
    let objections = dao.get_expert_review(1).unwrap().objections.as_ref().unwrap();
    assert_eq!(objections.len(), 1);
    assert_eq!(objections[0].objector, 9);
    assert_eq!(objections[0].hash, b"bad".to_vec());

    // before the window has passed the review cannot be closed
    assert_eq!(dao.finalize_expert_review(1, 1, 3200), Err(Error::VoteStillInProgress));
    assert!(dao.finalize_expert_review(1, 1, 3300).is_ok());
    assert_eq!(dao.get_upload(1).unwrap().status, UploadStatus::Rejected);
    // no token was minted for a rejected document
    assert_eq!(dao.token_uid_count(), 0);
}

#[test]
fn tenth_ballot_promotes_to_contributor() {
    // The ballot-cast record is written but never consulted, so the same
    // member may cast repeatedly in one ballot; the tenth recorded cast
    // force-promotes to Contributor.
    let mut dao = dao_with_upload();
    for i in 0..9u64 {
        assert!(dao.cast_vote(2, VoteType::Qualification, 1, true, 200 + i).is_ok());
    }
    assert_eq!(dao.get_member(2).unwrap().role, Roles::Qualifier);
    assert_eq!(dao.get_member(2).unwrap().vote_count, 9);
    assert!(dao.cast_vote(2, VoteType::Qualification, 1, true, 300).is_ok());
    assert_eq!(dao.get_member(2).unwrap().role, Roles::Contributor);
    assert_eq!(dao.get_member(2).unwrap().vote_count, 10);
    // the cast was recorded in the ballot guard map
    assert_eq!(dao.get_member_vote((2, VoteType::Qualification, 1)), Some(true));
}

#[test]
fn tenth_role_ballot_also_promotes() {
    // the threshold applies on the role-promotion cast path as well
    let mut dao = new_dao();
    assert!(dao.set_membership(1, 2, b"Contributor1".to_vec(), 1).is_ok());
    assert!(dao.set_membership(6, 3, b"Verifier1".to_vec(), 1).is_ok());
    assert!(dao.apply_for_expanded_role(1, Roles::Verifier, 1).is_ok());
    for i in 0..10u64 {
        assert!(
            dao.cast_vote_for_expanded_role(6, VoteType::CuratorVerification, 1, true, 2 + i).is_ok()
        );
    }
    assert_eq!(dao.get_member(6).unwrap().vote_count, 10);
    assert_eq!(dao.get_member(6).unwrap().role, Roles::Contributor);
}

#[test]
fn applying_for_verifier_needs_contributor_role() {
    let mut dao = new_dao();
    assert!(dao.set_membership(1, 1, b"Qualifier1".to_vec(), 1).is_ok());
    assert!(dao.set_membership(2, 2, b"Contributor1".to_vec(), 1).is_ok());

    // a Qualifier cannot apply for the Verifier role
    assert_eq!(
        dao.apply_for_expanded_role(1, Roles::Verifier, 1),
        Err(Error::NotEligibleForVerifierRole)
    );
    // a Contributor can, which opens a CuratorVerification ballot
    assert!(dao.apply_for_expanded_role(2, Roles::Verifier, 1).is_ok());
    assert_eq!(dao.role_application_uid_count(), 1);
    assert_eq!(dao.get_role_application(1), Some(2));
    assert_eq!(
        dao.get_vote((VoteType::CuratorVerification, 1)),
        Some(Vote { yes_votes: 0, no_votes: 0, start: 1, end: 1001, status: VoteStatus::InProgress })
    );
    // only Verifier and Expert can be applied for at all
    assert_eq!(dao.apply_for_expanded_role(2, Roles::Collector, 1), Err(Error::WrongRoleApplied));
    // applying for Expert requires the Verifier role
    assert_eq!(
        dao.apply_for_expanded_role(2, Roles::Expert, 1),
        Err(Error::NotEligibleForExpertRole)
    );
}

#[test]
fn role_changes_only_after_council_vote() {
    let mut dao = new_dao();
    assert!(dao.set_membership(1, 2, b"Contributor1".to_vec(), 1).is_ok());
    assert!(dao.set_membership(6, 3, b"Verifier1".to_vec(), 1).is_ok());
    assert!(dao.set_membership(9, 4, b"Expert1".to_vec(), 1).is_ok());

    assert!(dao.apply_for_expanded_role(1, Roles::Verifier, 1).is_ok());
    assert!(dao.cast_vote_for_expanded_role(6, VoteType::CuratorVerification, 1, true, 200).is_ok());
    assert!(dao.finalize_vote_for_expanded_role(1, VoteType::CuratorVerification, 1, 1100).is_ok());

    // the first, verification-stage vote passed, but the applicant's
    // role is unchanged until the council approves
    assert_eq!(dao.get_member(1).unwrap().role, Roles::Contributor);

    assert!(
        dao.cast_vote_for_expanded_role(9, VoteType::CuratorCouncilApproval, 1, true, 1200).is_ok()
    );
    assert!(
        dao.finalize_vote_for_expanded_role(5, VoteType::CuratorCouncilApproval, 1, 2200).is_err()
    );
    // (a non-member cannot finalize; the expert closes it instead)
    assert!(
        dao.finalize_vote_for_expanded_role(9, VoteType::CuratorCouncilApproval, 1, 2200).is_ok()
    );
    assert_eq!(dao.get_member(1).unwrap().role, Roles::Verifier);
}

#[test]
fn failed_council_vote_leaves_role_unchanged() {
    let mut dao = new_dao();
    assert!(dao.set_membership(1, 2, b"Contributor1".to_vec(), 1).is_ok());
    assert!(dao.set_membership(6, 3, b"Verifier1".to_vec(), 1).is_ok());
    assert!(dao.set_membership(9, 4, b"Expert1".to_vec(), 1).is_ok());

    assert!(dao.apply_for_expanded_role(1, Roles::Verifier, 1).is_ok());
    assert!(dao.cast_vote_for_expanded_role(6, VoteType::CuratorVerification, 1, true, 200).is_ok());
    assert!(dao.finalize_vote_for_expanded_role(1, VoteType::CuratorVerification, 1, 1100).is_ok());
    assert!(
        dao.cast_vote_for_expanded_role(9, VoteType::CuratorCouncilApproval, 1, false, 1200).is_ok()
    );
    assert!(
        dao.finalize_vote_for_expanded_role(9, VoteType::CuratorCouncilApproval, 1, 2200).is_ok()
    );
    assert_eq!(
        dao.get_vote((VoteType::CuratorCouncilApproval, 1)).unwrap().status,
        VoteStatus::Failed
    );
    assert_eq!(dao.get_member(1).unwrap().role, Roles::Contributor);
}

#[test]
fn cast_vote_gates_on_membership_type_and_role() {
    let mut dao = dao_with_upload();
    // not a member
    assert_eq!(dao.cast_vote(99, VoteType::Qualification, 1, true, 200), Err(Error::NotAMember));
    // a vote type outside the document pipeline is refused here
    assert_eq!(
        dao.cast_vote(2, VoteType::Proposal, 1, true, 200),
        Err(Error::WrongVoteType)
    );
    assert_eq!(
        dao.cast_vote(2, VoteType::CuratorVerification, 1, true, 200),
        Err(Error::WrongVoteType)
    );
    // and a document vote type is refused on the role-promotion path
    assert_eq!(
        dao.cast_vote_for_expanded_role(2, VoteType::Qualification, 1, true, 200),
        Err(Error::WrongVoteType)
    );
    // a Qualifier cannot cast a Verification ballot
    assert_eq!(
        dao.cast_vote(2, VoteType::Verification, 1, true, 200),
        Err(Error::NotEligibleToVerify)
    );
    // a ballot that was never opened
    assert_eq!(dao.cast_vote(2, VoteType::Qualification, 7, true, 200), Err(Error::VoteNotFound));
    // a closed ballot cannot be cast into
    assert!(dao.cast_vote(2, VoteType::Qualification, 1, false, 200).is_ok());
    assert!(dao.finalize_vote(1, VoteType::Qualification, 1, 1100).is_ok());
    assert_eq!(
        dao.cast_vote(3, VoteType::Qualification, 1, true, 1100),
        Err(Error::VoteNotInProgress)
    );
    // nor finalized twice
    assert_eq!(
        dao.finalize_vote(1, VoteType::Qualification, 1, 1100),
        Err(Error::VoteNotInProgress)
    );
}

#[test]
fn role_vote_gates_on_caster_role() {
    let mut dao = new_dao();
    assert!(dao.set_membership(1, 2, b"Contributor1".to_vec(), 1).is_ok());
    assert!(dao.set_membership(6, 3, b"Verifier1".to_vec(), 1).is_ok());
    assert!(dao.set_membership(9, 4, b"Expert1".to_vec(), 1).is_ok());
    assert!(dao.apply_for_expanded_role(1, Roles::Verifier, 1).is_ok());

    // verification stage: only Verifiers; the expert is refused
    assert_eq!(
        dao.cast_vote_for_expanded_role(9, VoteType::CuratorVerification, 1, true, 200),
        Err(Error::NotEligibleToVerify)
    );
    assert!(dao.cast_vote_for_expanded_role(6, VoteType::CuratorVerification, 1, true, 200).is_ok());
    assert!(dao.finalize_vote_for_expanded_role(1, VoteType::CuratorVerification, 1, 1100).is_ok());
    // council stage: only Experts; the verifier is refused
    assert_eq!(
        dao.cast_vote_for_expanded_role(6, VoteType::CuratorCouncilApproval, 1, true, 1200),
        Err(Error::NotAnExpert)
    );
    assert!(
        dao.cast_vote_for_expanded_role(9, VoteType::CuratorCouncilApproval, 1, true, 1200).is_ok()
    );
}

#[test]
fn upload_needs_contributor_role() {
    let mut dao = new_dao();
    assert!(dao.set_membership(2, 1, b"Qualifier1".to_vec(), 1).is_ok());
    assert_eq!(dao.upload_document(99, b"Doc1".to_vec(), 1), Err(Error::NotAMember));
    assert_eq!(dao.upload_document(2, b"Doc1".to_vec(), 1), Err(Error::NotEligibleToContribute));
}

#[test]
fn objection_needs_review_in_progress() {
    let mut dao = dao_with_upload();
    // the document exists but is not under expert review yet
    assert_eq!(
        dao.raise_expert_objection(9, 1, b"bad".to_vec(), 200),
        Err(Error::NotUnderExpertReview)
    );
    // and a document that was never uploaded is not found
    assert_eq!(
        dao.raise_expert_objection(9, 7, b"bad".to_vec(), 200),
        Err(Error::UploadNotFound)
    );
    assert_eq!(dao.finalize_expert_review(1, 7, 200), Err(Error::NotUnderExpertReview));
}

#[test]
fn upload_emits_both_events() {
    let mut dao = new_dao();
    assert!(dao.set_membership(1, 2, b"Contributor1".to_vec(), 1).is_ok());
    assert!(dao.upload_document(1, b"Doc1".to_vec(), 5).is_ok());
    let events = dao.events();
    let n = events.len();
    assert_eq!(events[n - 2], Event::NewUpload { uid: 1 });
    assert_eq!(events[n - 1], Event::NewVote { vote_type: VoteType::Qualification, uid: 1 });
}

#[test]
fn default_shares_are_ninety_ten() {
    let dao = new_dao();
    assert_eq!(dao.get_contributor_share(), 90);
    assert_eq!(dao.get_dao_share(), 10);
    assert_eq!(bhdao::dao::ContributorTokenShare(), 90);
    assert_eq!(bhdao::dao::DAOTokenShare(), 10);
}
