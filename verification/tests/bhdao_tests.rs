use bhdao::dao::Error;
use bhdao::dao::Event;
use bhdao::dao::Pallet;
use bhdao::dao::Roles;
use bhdao::dao::Upload;
use bhdao::dao::UploadStatus;
use bhdao::dao::Vote;
use bhdao::dao::VoteStatus;
use bhdao::dao::VoteType;

const VOTING_WINDOW: u32 = 1000;

fn new_dao() -> Pallet {
    Pallet::new(VOTING_WINDOW)
}

#[test]
fn it_works_for_join_dao() {
    let mut dao = new_dao();
    let now = 1;
    assert!(dao.join_dao(1, b"member1".to_vec(), now).is_ok());
    assert_eq!(dao.members_uid_count(), 1);
    assert_eq!(dao.events().last(), Some(&Event::MemberAdded { who: 1, uid: 1 }));
}

#[test]
fn it_fails_for_join_dao() {
    let mut dao = new_dao();
    let now = 1;
    assert!(dao.join_dao(1, b"member1".to_vec(), now).is_ok());
    assert_eq!(dao.members_uid_count(), 1);
    assert_eq!(dao.join_dao(1, b"member1".to_vec(), now), Err(Error::MemberAlreadyExists));
}

#[test]
fn it_adds_members() {
    let mut dao = new_dao();
    let now = 1;
    // Add Qualifier
    assert!(dao.set_membership(1, 1, b"Qualifier1".to_vec(), now).is_ok());
    // Add Contributor
    assert!(dao.set_membership(2, 2, b"Contributor1".to_vec(), now).is_ok());
    // member counts
    assert_eq!(dao.members_uid_count(), 2);
}

#[test]
fn it_uploads_a_document() {
    let mut dao = new_dao();
    let now = 1;
    assert_eq!(dao.upload_uid_count(), 0u64);
    // Add Contributor
    assert!(dao.set_membership(2, 2, b"Contributor1".to_vec(), now).is_ok());
    // Contributor uploads a document
    assert!(dao.upload_document(2, b"Doc1".to_vec(), now).is_ok());
    assert_eq!(dao.upload_uid_count(), 1u64);
    assert_eq!(
        dao.get_vote((VoteType::Qualification, 1)),
        Some(Vote { yes_votes: 0, no_votes: 0, start: 1, end: 1001, status: VoteStatus::InProgress })
    );
}

#[test]
fn it_votes_on_document() {
    let mut dao = new_dao();
    let mut now = 1;
    assert_eq!(dao.upload_uid_count(), 0u64);

    // Add Contributor 1
    assert!(dao.set_membership(1, 2, b"Contributor1".to_vec(), now).is_ok());
    // Add four qualifiers 2,3,4,5
    assert!(dao.set_membership(2, 1, b"Qualifier1".to_vec(), now).is_ok());
    assert!(dao.set_membership(3, 1, b"Qualifier1".to_vec(), now).is_ok());
    assert!(dao.set_membership(4, 1, b"Qualifier1".to_vec(), now).is_ok());
    assert!(dao.set_membership(5, 1, b"Qualifier1".to_vec(), now).is_ok());

    // Contributor uploads a document
    assert!(dao.upload_document(1, b"Doc1".to_vec(), now).is_ok());
    assert_eq!(dao.upload_uid_count(), 1u64);

    // Check if Vote exists
    assert_eq!(
        dao.get_vote((VoteType::Qualification, 1)),
        Some(Vote { yes_votes: 0, no_votes: 0, start: 1, end: 1001, status: VoteStatus::InProgress })
    );

    // Member 2 casts vote at block 200
    now = 200;
    assert!(dao.cast_vote(2, VoteType::Qualification, 1, true, now).is_ok());

    // Member 3 casts vote at block 500
    now = 500;
    assert!(dao.cast_vote(3, VoteType::Qualification, 1, true, now).is_ok());

    // Member 4 casts vote at block 900
    now = 900;
    assert!(dao.cast_vote(4, VoteType::Qualification, 1, false, now).is_ok());

    // Member 5 tries to cast vote after the time has expired
    now = 1100;
    assert_eq!(
        dao.cast_vote(5, VoteType::Qualification, 1, false, now),
        Err(Error::VotingWindowNotValid)
    );

    // Finalize vote
    now = 1100;
    assert!(dao.finalize_vote(1, VoteType::Qualification, 1, now).is_ok());

    // Check if Vote passed
    assert_eq!(
        dao.get_vote((VoteType::Qualification, 1)),
        Some(Vote { yes_votes: 2, no_votes: 1, start: 1, end: 1001, status: VoteStatus::Passed })
    );

    // Check if Verification voting started
    assert_eq!(
        dao.get_vote((VoteType::Verification, 1)),
        Some(Vote { yes_votes: 0, no_votes: 0, start: 1100, end: 2100, status: VoteStatus::InProgress })
    );

    // Add three verifiers 6,7,8
    assert!(dao.set_membership(6, 3, b"Verifier1".to_vec(), now).is_ok());
    assert!(dao.set_membership(7, 3, b"Verifier2".to_vec(), now).is_ok());
    assert!(dao.set_membership(8, 3, b"Verifier3".to_vec(), now).is_ok());

    // Member 6 casts vote at block 1200
    now = 1200;
    assert!(dao.cast_vote(6, VoteType::Verification, 1, true, now).is_ok());

    // Member 7 casts vote at block 1600
    now = 1600;
    assert!(dao.cast_vote(7, VoteType::Verification, 1, false, now).is_ok());

    // Member 8 casts vote at block 2000
    now = 2000;
    assert!(dao.cast_vote(8, VoteType::Verification, 1, true, now).is_ok());

    // Finalize The Vote
    now = 2200;
    assert!(dao.finalize_vote(1, VoteType::Verification, 1, now).is_ok());

    // Check if Vote passed
    assert_eq!(
        dao.get_vote((VoteType::Verification, 1)),
        Some(Vote { yes_votes: 2, no_votes: 1, start: 1100, end: 2100, status: VoteStatus::Passed })
    );

    // Check the upload status
    assert_eq!(
        dao.get_upload(1),
        Some(&Upload { creator: 1, hash: b"Doc1".to_vec(), status: UploadStatus::UnderExpertReview })
    );

    // Assume no expert objection
    now = 3300;
    assert!(dao.finalize_expert_review(1, 1, now).is_ok());

    // Check the upload status
    assert_eq!(
        dao.get_upload(1),
        Some(&Upload { creator: 1, hash: b"Doc1".to_vec(), status: UploadStatus::Verified })
    );
}

#[test]
fn it_votes_for_expanded_role() {
    let mut dao = new_dao();
    let mut now = 1;
    assert_eq!(dao.upload_uid_count(), 0u64);

    // Add Contributor 1
    assert!(dao.set_membership(1, 2, b"Contributor1".to_vec(), now).is_ok());
    // Add four experts 2,3,4,5
    assert!(dao.set_membership(2, 4, b"Expert1".to_vec(), now).is_ok());
    assert!(dao.set_membership(3, 4, b"Expert2".to_vec(), now).is_ok());
    assert!(dao.set_membership(4, 4, b"Expert3".to_vec(), now).is_ok());
    assert!(dao.set_membership(5, 4, b"Expert4".to_vec(), now).is_ok());
    // Add three verifiers 6,7,8
    assert!(dao.set_membership(6, 3, b"Verifier1".to_vec(), now).is_ok());
    assert!(dao.set_membership(7, 3, b"Verifier2".to_vec(), now).is_ok());
    assert!(dao.set_membership(8, 3, b"Verifier3".to_vec(), now).is_ok());

    // Contributor 1 applies for verifier role
    assert!(dao.apply_for_expanded_role(1, Roles::Verifier, now).is_ok());

    // Check if the vote is initialized
    assert_eq!(dao.role_application_uid_count(), 1);
    assert_eq!(
        dao.get_vote((VoteType::CuratorVerification, 1)),
        Some(Vote { yes_votes: 0, no_votes: 0, start: 1, end: 1001, status: VoteStatus::InProgress })
    );

    // Member 6 casts vote at block 200
    now = 200;
    assert!(dao.cast_vote_for_expanded_role(6, VoteType::CuratorVerification, 1, true, now).is_ok());

    // Member 7 casts vote at block 600
    now = 600;
    assert!(dao.cast_vote_for_expanded_role(7, VoteType::CuratorVerification, 1, true, now).is_ok());

    // Member 8 casts vote at block 900
    now = 900;
    assert!(dao.cast_vote_for_expanded_role(8, VoteType::CuratorVerification, 1, false, now).is_ok());

    // Finalize the vote
    now = 1100;
    assert!(dao.finalize_vote_for_expanded_role(1, VoteType::CuratorVerification, 1, now).is_ok());

    // Check if the Vote passed
    assert_eq!(
        dao.get_vote((VoteType::CuratorVerification, 1)),
        Some(Vote { yes_votes: 2, no_votes: 1, start: 1, end: 1001, status: VoteStatus::Passed })
    );

    // Check if CuratorCouncilApproval voting started
    assert_eq!(
        dao.get_vote((VoteType::CuratorCouncilApproval, 1)),
        Some(Vote { yes_votes: 0, no_votes: 0, start: 1100, end: 2100, status: VoteStatus::InProgress })
    );

    // Member 2 casts vote at block 1400
    now = 1400;
    assert!(dao.cast_vote_for_expanded_role(2, VoteType::CuratorCouncilApproval, 1, true, now).is_ok());

    // Member 3 casts vote at block 1700
    now = 1700;
    assert!(dao.cast_vote_for_expanded_role(3, VoteType::CuratorCouncilApproval, 1, true, now).is_ok());

    // Member 4 casts vote at block 2000
    now = 2000;
    assert!(dao.cast_vote_for_expanded_role(4, VoteType::CuratorCouncilApproval, 1, true, now).is_ok());

    // Finalize the vote
    now = 2200;
    assert!(dao.finalize_vote_for_expanded_role(1, VoteType::CuratorCouncilApproval, 1, now).is_ok());

    // Check if Vote passed
    assert_eq!(
        dao.get_vote((VoteType::CuratorCouncilApproval, 1)),
        Some(Vote { yes_votes: 3, no_votes: 0, start: 1100, end: 2100, status: VoteStatus::Passed })
    );
}
