use deprader::deprader_router::{DepRaderRouter, Error};

#[test]
fn create_bounty_rejects_non_positive_amount_first() {
    assert_eq!(DepRaderRouter::check_create_bounty(0, false), Err(Error::InvalidAmount));
    assert_eq!(DepRaderRouter::check_create_bounty(-5, false), Err(Error::InvalidAmount));
    // The amount is checked before the id.
    assert_eq!(DepRaderRouter::check_create_bounty(0, true), Err(Error::InvalidAmount));
}

#[test]
fn create_bounty_rejects_existing_id() {
    assert_eq!(DepRaderRouter::check_create_bounty(400, true), Err(Error::BountyAlreadyExists));
}

#[test]
fn create_bounty_accepts_positive_amount_for_new_id() {
    assert_eq!(DepRaderRouter::check_create_bounty(400, false), Ok(()));
    assert_eq!(DepRaderRouter::check_create_bounty(i128::MAX, false), Ok(()));
}

#[test]
fn error_codes_match_the_contract() {
    assert_eq!(Error::InvalidAmount.code(), 1);
    assert_eq!(Error::BountyAlreadyExists.code(), 2);
    assert!(Error::InvalidAmount < Error::BountyAlreadyExists);
}
