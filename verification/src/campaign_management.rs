//! The campaign ledger behind the access gate: every call that changes the
//! ledger must carry the identity of an account.
use vstd::prelude::*;
use crate::access::{resolve_caller, Origin};
use crate::account::AccountId;
use crate::campaign::{opened, opening_error, Campaign, Error, Filter};
use crate::ledger::{FilterFund, Ledger};

verus! {

/// What happened on the ledger.
#[derive(Clone, Copy, Debug, PartialEq, Eq)]
pub enum Event {
    /// The account opened the campaign with this id.
    CampaignCreated(u32, AccountId),
    /// The account contributed the amount to the campaign with this id.
    CampaignFunded(u32, AccountId, u128),
}

/// A campaign ledger that only identified callers can change.
pub struct Pallet {
    fund: FilterFund,
}

impl View for Pallet {
    type V = Ledger;

    closed spec fn view(&self) -> Ledger {
        self.fund@
    }
}

impl Pallet {
    /// A ledger without campaigns, set up by `owner`.
    pub fn new(owner: AccountId) -> (r: Self)
        ensures
            r@ == Ledger::empty(owner),
    {
        Pallet { fund: FilterFund::new(owner) }
    }

    /// The campaign stored under `campaign_id`, if there is one.
    pub fn campaigns(&self, campaign_id: u32) -> (r: Option<Campaign>)
        ensures
            r == (if self@.campaigns.contains_key(campaign_id) {
                Some(self@.campaigns[campaign_id])
            } else {
                None
            }),
    {
        self.fund.get_campaign(campaign_id)
    }

    /// The number of ids handed out so far.
    pub fn campaign_count(&self) -> (r: u32)
        ensures
            r == self@.campaign_count,
    {
        self.fund.campaign_count()
    }

    /// Opens a campaign for the caller at time `now`.
    ///
    /// A call without identity is turned away before anything else is
    /// looked at. After that the ledger's own rules decide.
    pub fn create_campaign(
        &mut self,
        origin: Origin<AccountId>,
        now: u64,
        title: String,
        description: String,
        main_image: String,
        filter_image: String,
        category: String,
        target: u128,
        deadline: u64,
        filter: Filter,
        creator_name: String,
    ) -> (r: Result<Event, Error>)
        ensures
            match origin {
                Origin::Anonymous => r == Err::<Event, Error>(Error::Unauthorized) && final(self)@
                    == old(self)@,
                Origin::Signed(caller) => match opening_error(target, deadline, now) {
                    Some(e) => r == Err::<Event, Error>(e) && final(self)@ == old(self)@,
                    None => r == Ok::<Event, Error>(
                        Event::CampaignCreated(old(self)@.campaign_count, caller),
                    ) && final(self)@ == old(self)@.with_campaign(
                        opened(
                            old(self)@.campaign_count,
                            caller,
                            title,
                            description,
                            main_image,
                            filter_image,
                            category,
                            target,
                            deadline,
                            filter,
                            creator_name,
                        ),
                    ),
                },
            },
    {
        let caller = match resolve_caller(origin) {
            Ok(caller) => caller,
            Err(e) => {
                return Err(e);
            },
        };
        match self.fund.create_campaign(
            caller,
            now,
            title,
            description,
            main_image,
            filter_image,
            category,
            target,
            deadline,
            filter,
            creator_name,
        ) {
            Ok(campaign_id) => Ok(Event::CampaignCreated(campaign_id, caller)),
            Err(e) => Err(e),
        }
    }

    /// Takes a contribution of `amount` from the caller to campaign
    /// `campaign_id` at time `now`.
    ///
    /// A call without identity is turned away before anything else is
    /// looked at, and nothing is transferred. After that the ledger's own
    /// rules decide, and `transfer` is asked at most once.
    pub fn fund_campaign<F>(
        &mut self,
        origin: Origin<AccountId>,
        now: u64,
        campaign_id: u32,
        amount: u128,
        transfer: F,
    ) -> (r: Result<Event, Error>) where F: FnOnce(AccountId, AccountId, u128) -> bool
        requires
            match origin {
                Origin::Signed(caller) => old(self)@.donation_error(campaign_id, now) is None
                    ==> call_requires(
                    transfer,
                    (caller, old(self)@.campaigns[campaign_id].creator, amount),
                ),
                Origin::Anonymous => true,
            },
        ensures
            match origin {
                Origin::Anonymous => r == Err::<Event, Error>(Error::Unauthorized) && final(self)@
                    == old(self)@,
                Origin::Signed(caller) => match old(self)@.donation_error(campaign_id, now) {
                    Some(e) => r == Err::<Event, Error>(e) && final(self)@ == old(self)@,
                    None => {
                        let order = (caller, old(self)@.campaigns[campaign_id].creator, amount);
                        ||| {
                            &&& r == Ok::<Event, Error>(
                                Event::CampaignFunded(campaign_id, caller, amount),
                            )
                            &&& call_ensures(transfer, order, true)
                            &&& final(self)@ == old(self)@.with_donation(campaign_id, amount)
                        }
                        ||| {
                            &&& r == Err::<Event, Error>(Error::TransferFailed)
                            &&& call_ensures(transfer, order, false)
                            &&& final(self)@ == old(self)@
                        }
                    },
                },
            },
    {
        let caller = match resolve_caller(origin) {
            Ok(caller) => caller,
            Err(e) => {
                return Err(e);
            },
        };
        match self.fund.donate_to_campaign(caller, now, campaign_id, amount, transfer) {
            Ok(()) => Ok(Event::CampaignFunded(campaign_id, caller, amount)),
            Err(e) => Err(e),
        }
    }
}

} // verus!
