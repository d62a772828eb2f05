use prize::errors::LedgerError;
use prize::errors::PrizeError;
use prize::pubkey::Pubkey;
use prize::state::Bounty;
use prize::state::BountyAccount;
use prize::state::BountyStatus;
use prize::state::ProgramConfig;
use prize::state::{MAX_GITHUB_URL_LEN, MAX_REPO_NAME_LEN};

fn party(tag: u8) -> Pubkey {
    Pubkey::new_from_array([tag; 32])
}

fn open_bounty() -> Bounty {
    Bounty::new(7, party(1), 1000, "https://github.com/x/y/issues/7".to_string(), "x/y".to_string(), 7, 42, 254)
        .unwrap()
}

fn with_status(status: BountyStatus) -> Bounty {
    let mut bounty = open_bounty();
    bounty.status = status;
    bounty
}

#[test]
fn identities_compare_by_their_bytes() {
    let mut bytes = [5u8; 32];
    assert_eq!(Pubkey::new_from_array(bytes), party(5));
    bytes[31] = 6;
    assert_ne!(Pubkey::new_from_array(bytes), party(5));
    assert_eq!(Pubkey::new_from_array(bytes).to_bytes(), bytes);
}

#[test]
fn storage_sizes_cover_every_field() {
    assert_eq!(ProgramConfig::LEN, 49);
    assert_eq!(Bounty::MAX_LEN, 425);
    assert_eq!(MAX_GITHUB_URL_LEN, 200);
    assert_eq!(MAX_REPO_NAME_LEN, 100);
}

#[test]
fn a_new_registry_counts_nothing() {
    let config = ProgramConfig::new(party(1), 253);
    assert_eq!(config, ProgramConfig { authority: party(1), bounty_count: 0, bump: 253 });
}

#[test]
fn the_counter_goes_up_by_one() {
    let mut config = ProgramConfig::new(party(1), 253);
    assert_eq!(config.count_bounty(), Ok(()));
    assert_eq!(config.count_bounty(), Ok(()));
    assert_eq!(config.bounty_count, 2);
    assert_eq!(config.authority, party(1));
    assert_eq!(config.bump, 253);
}

#[test]
fn the_counter_does_not_wrap() {
    let mut config = ProgramConfig { authority: party(1), bounty_count: u64::MAX - 1, bump: 253 };
    assert_eq!(config.count_bounty(), Ok(()));
    assert_eq!(config.bounty_count, u64::MAX);
    assert_eq!(config.count_bounty(), Err(LedgerError::CounterOverflow));
    assert_eq!(config.bounty_count, u64::MAX);
}

#[test]
fn a_new_bounty_is_open() {
    let bounty = open_bounty();
    assert_eq!(bounty.id, 7);
    assert_eq!(bounty.creator, party(1));
    assert_eq!(bounty.reward_amount, 1000);
    assert_eq!(bounty.status, BountyStatus::Open);
    assert_eq!(bounty.assignee, None);
    assert_eq!(bounty.github_issue_url, "https://github.com/x/y/issues/7");
    assert_eq!(bounty.repo_name, "x/y");
    assert_eq!(bounty.issue_number, 7);
    assert_eq!(bounty.created_at, 42);
    assert_eq!(bounty.completed_at, None);
    assert_eq!(bounty.bump, 254);
}

#[test]
fn a_copy_of_a_bounty_equals_it() {
    let bounty = open_bounty();
    assert_eq!(bounty.clone(), bounty);
}

#[test]
fn inputs_are_checked_in_order() {
    let long_url = "u".repeat(201);
    let long_repo = "r".repeat(101);
    let url = "u".repeat(200);
    let repo = "r".repeat(100);
    assert_eq!(Bounty::validate(0, &long_url, &long_repo), Err(PrizeError::InvalidAmount));
    assert_eq!(Bounty::validate(1, &long_url, &long_repo), Err(PrizeError::GithubUrlTooLong));
    assert_eq!(Bounty::validate(1, &url, &long_repo), Err(PrizeError::RepoNameTooLong));
    assert_eq!(Bounty::validate(1, &url, &repo), Ok(()));
    assert_eq!(Bounty::validate(u64::MAX, &String::new(), &String::new()), Ok(()));
}

#[test]
fn new_refuses_what_validate_refuses() {
    let made = Bounty::new(7, party(1), 0, "u".to_string(), "r".to_string(), 7, 42, 254);
    assert_eq!(made, Err(PrizeError::InvalidAmount));
    let made = Bounty::new(7, party(1), 5, "u".repeat(201), "r".to_string(), 7, 42, 254);
    assert_eq!(made, Err(PrizeError::GithubUrlTooLong));
    let made = Bounty::new(7, party(1), 5, "u".to_string(), "r".repeat(101), 7, 42, 254);
    assert_eq!(made, Err(PrizeError::RepoNameTooLong));
}

#[test]
fn only_the_creator_assigns_and_only_while_open() {
    let creator = party(1);
    let stranger = party(2);
    assert_eq!(open_bounty().check_assign(&creator), Ok(()));
    assert_eq!(open_bounty().check_assign(&stranger), Err(PrizeError::UnauthorizedAccess));
    for status in [BountyStatus::InProgress, BountyStatus::Completed, BountyStatus::Cancelled] {
        assert_eq!(with_status(status).check_assign(&creator), Err(PrizeError::InvalidBountyStatus));
        assert_eq!(with_status(status).check_assign(&stranger), Err(PrizeError::UnauthorizedAccess));
    }
}

#[test]
fn only_the_creator_cancels_and_only_while_open() {
    let creator = party(1);
    let stranger = party(2);
    assert_eq!(open_bounty().check_cancel(&creator), Ok(()));
    assert_eq!(open_bounty().check_cancel(&stranger), Err(PrizeError::UnauthorizedAccess));
    for status in [BountyStatus::InProgress, BountyStatus::Completed, BountyStatus::Cancelled] {
        assert_eq!(with_status(status).check_cancel(&creator), Err(PrizeError::InvalidBountyStatus));
        assert_eq!(with_status(status).check_cancel(&stranger), Err(PrizeError::UnauthorizedAccess));
    }
}

#[test]
fn only_the_creator_completes_and_only_a_live_bounty() {
    let creator = party(1);
    let stranger = party(2);
    for status in [BountyStatus::Open, BountyStatus::InProgress] {
        assert_eq!(with_status(status).check_complete(&creator), Ok(()));
        assert_eq!(with_status(status).check_complete(&stranger), Err(PrizeError::UnauthorizedAccess));
    }
    for status in [BountyStatus::Completed, BountyStatus::Cancelled] {
        assert_eq!(with_status(status).check_complete(&creator), Err(PrizeError::InvalidBountyStatus));
        assert_eq!(with_status(status).check_complete(&stranger), Err(PrizeError::UnauthorizedAccess));
    }
}

#[test]
fn assign_changes_the_assignee_and_the_status_only() {
    let mut bounty = open_bounty();
    assert_eq!(bounty.assign(&party(1), party(3)), Ok(()));
    let mut expected = open_bounty();
    expected.assignee = Some(party(3));
    expected.status = BountyStatus::InProgress;
    assert_eq!(bounty, expected);
}

#[test]
fn a_refused_assign_changes_nothing() {
    let mut bounty = open_bounty();
    assert_eq!(bounty.assign(&party(2), party(3)), Err(PrizeError::UnauthorizedAccess));
    assert_eq!(bounty, open_bounty());
    assert_eq!(bounty.assign(&party(1), party(3)), Ok(()));
    assert_eq!(bounty.assign(&party(1), party(4)), Err(PrizeError::InvalidBountyStatus));
    assert_eq!(bounty.assignee, Some(party(3)));
}

#[test]
fn a_new_account_holds_the_reward_beside_the_deposit() {
    let account = BountyAccount::open(open_bounty(), 25);
    assert_eq!(account.escrow, 1000);
    assert_eq!(account.reserve, 25);
    assert_eq!(account.data, open_bounty());
}

#[test]
fn every_error_has_its_message() {
    assert_eq!(
        PrizeError::UnauthorizedAccess.message(),
        "Unauthorized: You do not have permission to perform this action"
    );
    assert_eq!(PrizeError::InvalidBountyStatus.message(), "Invalid bounty status for this operation");
    assert_eq!(PrizeError::InvalidAmount.message(), "Invalid amount: Amount must be greater than 0");
    assert_eq!(PrizeError::BountyNotFound.message(), "Bounty not found");
    assert_eq!(PrizeError::GithubUrlTooLong.message(), "GitHub URL is too long (max 200 characters)");
    assert_eq!(PrizeError::RepoNameTooLong.message(), "Repository name is too long (max 100 characters)");
    assert_eq!(PrizeError::InvalidAssignee.message(), "Invalid assignee");
}
