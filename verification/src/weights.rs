//! What the operations of the campaign ledger are charged.
use vstd::prelude::*;

verus! {

/// The charge for each operation on campaigns.
pub trait WeightInfo {
    /// The charge for opening a campaign.
    fn create_campaign() -> u64;

    /// The charge for a contribution.
    fn donate_to_campaign() -> u64;
}

/// The charges of the reference deployment.
pub struct WeightInfoImpl;

impl WeightInfo for WeightInfoImpl {
    fn create_campaign() -> (r: u64)
        ensures
            r == 10_000_000,
    {
        10_000_000
    }

    fn donate_to_campaign() -> (r: u64)
        ensures
            r == 5_000,
    {
        5_000
    }
}

} // verus!
