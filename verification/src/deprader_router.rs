//! The decisions of the bounty router contract: whether a `create_bounty`
//! request may lock funds, and the error codes it answers with. The ledger
//! work around those decisions (authorisation, the token transfer, the
//! contract's persistent storage) is done by the contract host.

use vstd::prelude::*;

verus! {

/// Why the router refuses a request.
#[derive(Copy, Clone, Debug, PartialEq, Eq, PartialOrd, Ord)]
pub enum Error {
    /// The amount to lock is zero or negative.
    InvalidAmount,
    /// A bounty with this id already exists.
    BountyAlreadyExists,
}

/// The numeric code the contract reports for each error.
pub open spec fn error_code(error: Error) -> u32 {
    match error {
        Error::InvalidAmount => 1,
        Error::BountyAlreadyExists => 2,
    }
}

impl Error {
    /// The numeric code the contract reports for this error.
    pub fn code(self) -> (code: u32)
        ensures
            code == error_code(self),
    {
        match self {
            Error::InvalidAmount => 1,
            Error::BountyAlreadyExists => 2,
        }
    }
}

/// What `create_bounty` answers before any funds move: the amount is checked
/// first, then whether the id is taken.
pub open spec fn create_bounty_verdict(amount: i128, bounty_exists: bool) -> Result<(), Error> {
    if amount <= 0 {
        Err(Error::InvalidAmount)
    } else if bounty_exists {
        Err(Error::BountyAlreadyExists)
    } else {
        Ok(())
    }
}

/// Every positive amount for a new id is accepted; an amount of zero or less
/// is refused as invalid whatever the id; a positive amount for a taken id is
/// refused as a duplicate.
pub proof fn lemma_create_bounty_verdict_cases(amount: i128, bounty_exists: bool)
    ensures
        create_bounty_verdict(amount, bounty_exists) is Ok <==> (amount > 0 && !bounty_exists),
        create_bounty_verdict(amount, bounty_exists) == Err::<(), Error>(Error::InvalidAmount)
            <==> amount <= 0,
        create_bounty_verdict(amount, bounty_exists) == Err::<(), Error>(
            Error::BountyAlreadyExists,
        ) <==> (amount > 0 && bounty_exists),
{
}

/// The bounty router contract.
pub struct DepRaderRouter;

impl DepRaderRouter {
    /// Decides whether `create_bounty` may lock `amount` against a bounty id,
    /// given whether a bounty is already stored under that id. `Ok` means the
    /// creator's funds are to be transferred into the contract and the bounty
    /// stored; an error means nothing is transferred or stored.
    pub fn check_create_bounty(amount: i128, bounty_exists: bool) -> (verdict: Result<(), Error>)
        ensures
            verdict == create_bounty_verdict(amount, bounty_exists),
            verdict is Ok <==> (amount > 0 && !bounty_exists),
            verdict == Err::<(), Error>(Error::InvalidAmount) <==> amount <= 0,
            verdict == Err::<(), Error>(Error::BountyAlreadyExists) <==> (amount > 0
                && bounty_exists),
    {
        if amount <= 0 {
            return Err(Error::InvalidAmount);
        }
        if bounty_exists {
            return Err(Error::BountyAlreadyExists);
        }
        Ok(())
    }
}

} // verus!
