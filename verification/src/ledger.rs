//! The campaign ledger: campaigns under successive ids, and the
//! contributions booked against them.
use vstd::prelude::*;
use crate::account::AccountId;
use crate::campaign::{check_opening, opened, opening_error, Campaign, Error, Filter};
use crate::laws::{law_contribution_is_conserved, law_creation_extends};
use crate::store::KeyedStore;

verus! {

/// The campaign ledger as a mathematical value: the campaigns by id, the
/// counter that gives the next id, and the account that set the ledger up.
pub struct Ledger {
    pub campaigns: Map<u32, Campaign>,
    pub campaign_count: u32,
    pub owner: AccountId,
}

/// The counter after one more campaign: it stops at the largest `u32`.
pub open spec fn next_count(count: u32) -> u32 {
    if count == u32::MAX {
        count
    } else {
        (count + 1) as u32
    }
}

/// The campaigns with an id below `n`, in ascending order of id.
pub open spec fn listed(campaigns: Map<u32, Campaign>, n: nat) -> Seq<Campaign>
    decreases n,
{
    if n == 0 {
        Seq::empty()
    } else {
        let id = (n - 1) as u32;
        let before = listed(campaigns, (n - 1) as nat);
        if campaigns.contains_key(id) {
            before.push(campaigns[id])
        } else {
            before
        }
    }
}

impl Ledger {
    /// The ledger that `owner` sets up: no campaign, counter at zero.
    pub open spec fn empty(owner: AccountId) -> Ledger {
        Ledger { campaigns: Map::empty(), campaign_count: 0, owner }
    }

    /// Every id below the counter has a campaign, each campaign is stored
    /// under its own id, and no campaign lies beyond the counter (but for the
    /// largest id, once the counter has stopped there).
    pub open spec fn well_formed(self) -> bool {
        &&& forall|id: u32| id < self.campaign_count ==> self.campaigns.contains_key(id)
        &&& forall|id: u32| #[trigger]
            self.campaigns.contains_key(id) ==> self.campaigns[id].id == id && (id
                < self.campaign_count || self.campaign_count == u32::MAX)
    }

    /// The ledger after `campaign` has been stored under the next id.
    pub open spec fn with_campaign(self, campaign: Campaign) -> Ledger {
        Ledger {
            campaigns: self.campaigns.insert(
                self.campaign_count,
                Campaign { id: self.campaign_count, ..campaign },
            ),
            campaign_count: next_count(self.campaign_count),
            owner: self.owner,
        }
    }

    /// Why no contribution to campaign `id` is taken at time `now`, if none is.
    pub open spec fn donation_error(self, id: u32, now: u64) -> Option<Error> {
        if !self.campaigns.contains_key(id) {
            Some(Error::CampaignNotFound)
        } else if !self.campaigns[id].is_open_at(now) {
            Some(Error::CampaignExpired)
        } else {
            None
        }
    }

    /// The ledger after a contribution of `amount` to campaign `id` has
    /// reached the campaign's creator.
    pub open spec fn with_donation(self, id: u32, amount: u128) -> Ledger {
        Ledger { campaigns: self.campaigns.insert(id, self.campaigns[id].credited(amount)), ..self }
    }
}

/// The campaign ledger: it opens campaigns under successive ids and books
/// the contributions that reach their creators.
pub struct FilterFund {
    campaigns: KeyedStore<u32, Campaign>,
    campaign_count: u32,
    owner: AccountId,
}

impl View for FilterFund {
    type V = Ledger;

    closed spec fn view(&self) -> Ledger {
        Ledger {
            campaigns: self.campaigns@,
            campaign_count: self.campaign_count,
            owner: self.owner,
        }
    }
}

/// Where every id below `n` has a campaign, the listing holds them all, each
/// at the place of its id.
proof fn lemma_listed_dense(campaigns: Map<u32, Campaign>, n: nat)
    requires
        n <= u32::MAX,
        forall|id: u32| id < n ==> campaigns.contains_key(id),
    ensures
        listed(campaigns, n).len() == n,
        forall|i: int| 0 <= i < n ==> #[trigger] listed(campaigns, n)[i] == campaigns[i as u32],
    decreases n,
{
    if n > 0 {
        lemma_listed_dense(campaigns, (n - 1) as nat);
        assert(campaigns.contains_key((n - 1) as u32));
    }
}

impl FilterFund {
    #[verifier::type_invariant]
    spec fn sound(self) -> bool {
        self@.well_formed()
    }

    /// A ledger without campaigns, set up by `owner`.
    pub fn new(owner: AccountId) -> (r: Self)
        ensures
            r@ == Ledger::empty(owner),
            r@.well_formed(),
    {
        FilterFund { campaigns: KeyedStore::new(), campaign_count: 0, owner }
    }

    /// The number of ids handed out so far, which is the id that the next
    /// campaign gets.
    pub fn campaign_count(&self) -> (r: u32)
        ensures
            r == self@.campaign_count,
    {
        self.campaign_count
    }

    /// The account that set the ledger up.
    pub fn owner(&self) -> (r: AccountId)
        ensures
            r == self@.owner,
    {
        self.owner
    }

    /// Opens a campaign for `caller` at time `now`.
    ///
    /// A deadline that is not more than the minimum lead time after `now` is
    /// refused, and so is a funding goal below the minimum; the ledger then
    /// stays as it was. Otherwise the campaign is stored under the next id,
    /// active and with nothing collected, and that id is returned.
    pub fn create_campaign(
        &mut self,
        caller: AccountId,
        now: u64,
        title: String,
        description: String,
        main_image: String,
        filter_image: String,
        category: String,
        target: u128,
        deadline: u64,
        filter: Filter,
        creator_name: String,
    ) -> (r: Result<u32, Error>)
        ensures
            final(self)@.well_formed(),
            match opening_error(target, deadline, now) {
                Some(e) => r == Err::<u32, Error>(e) && final(self)@ == old(self)@,
                None => {
                    &&& r == Ok::<u32, Error>(old(self)@.campaign_count)
                    &&& final(self)@ == old(self)@.with_campaign(
                        opened(
                            old(self)@.campaign_count,
                            caller,
                            title,
                            description,
                            main_image,
                            filter_image,
                            category,
                            target,
                            deadline,
                            filter,
                            creator_name,
                        ),
                    )
                },
            },
    {
        proof {
            use_type_invariant(&*self);
        }
        match check_opening(target, deadline, now) {
            Err(e) => {
                return Err(e);
            },
            Ok(()) => {},
        }
        let mut taken = FilterFund::new(self.owner);
        std::mem::swap(self, &mut taken);
        let FilterFund { campaigns, campaign_count, owner } = taken;
        let mut campaigns = campaigns;
        let campaign_id = campaign_count;
        let campaign = Campaign {
            id: campaign_id,
            creator: caller,
            creator_name,
            title,
            description,
            main_image,
            filter_image,
            category,
            target,
            amount_collected: 0,
            deadline,
            is_active: true,
            filter,
        };
        campaigns.insert(campaign_id, campaign);
        let count = campaign_count.saturating_add(1);
        proof {
            law_creation_extends(old(self)@, campaign);
        }
        *self = FilterFund { campaigns, campaign_count: count, owner };
        Ok(campaign_id)
    }

    /// The campaign stored under `campaign_id`, if there is one.
    pub fn get_campaign(&self, campaign_id: u32) -> (r: Option<Campaign>)
        ensures
            r == (if self@.campaigns.contains_key(campaign_id) {
                Some(self@.campaigns[campaign_id])
            } else {
                None
            }),
    {
        match self.campaigns.get(&campaign_id) {
            Some(campaign) => Some(campaign.clone()),
            None => None,
        }
    }

    /// All campaigns, in ascending order of id: one for each id below the counter.
    pub fn get_all_campaigns(&self) -> (r: Vec<Campaign>)
        ensures
            r@ == listed(self@.campaigns, self@.campaign_count as nat),
            r@.len() == self@.campaign_count,
            forall|i: int|
                0 <= i < self@.campaign_count ==> #[trigger] r@[i] == self@.campaigns[i as u32],
    {
        let mut result: Vec<Campaign> = Vec::new();
        let mut i: u32 = 0;
        while i < self.campaign_count
            invariant
                i <= self.campaign_count,
                result@ == listed(self@.campaigns, i as nat),
            decreases self.campaign_count - i,
        {
            match self.campaigns.get(&i) {
                Some(campaign) => {
                    result.push(campaign.clone());
                },
                None => {},
            }
            i += 1;
        }
        proof {
            use_type_invariant(self);
            lemma_listed_dense(self@.campaigns, self@.campaign_count as nat);
        }
        result
    }

    /// Whether a contribution to campaign `campaign_id` may go ahead at time
    /// `now`, and if so, the account that is to receive it: the campaign's
    /// creator.
    pub fn check_donation(&self, campaign_id: u32, now: u64) -> (r: Result<AccountId, Error>)
        ensures
            r == match self@.donation_error(campaign_id, now) {
                Some(e) => Err::<AccountId, Error>(e),
                None => Ok::<AccountId, Error>(self@.campaigns[campaign_id].creator),
            },
    {
        match self.campaigns.get(&campaign_id) {
            None => Err(Error::CampaignNotFound),
            Some(campaign) => {
                if campaign.accepts(now) {
                    Ok(campaign.creator)
                } else {
                    Err(Error::CampaignExpired)
                }
            },
        }
    }

    /// Books the outcome of the transfer of `donation` to the creator of
    /// campaign `campaign_id`.
    ///
    /// A transfer that went through is added to what the campaign has
    /// collected. One that did not leaves the ledger as it was.
    pub fn settle_donation(&mut self, campaign_id: u32, donation: u128, transferred: bool) -> (r:
        Result<(), Error>)
        ensures
            final(self)@.well_formed(),
            if !old(self)@.campaigns.contains_key(campaign_id) {
                &&& r == Err::<(), Error>(Error::CampaignNotFound)
                &&& final(self)@ == old(self)@
            } else if !transferred {
                &&& r == Err::<(), Error>(Error::TransferFailed)
                &&& final(self)@ == old(self)@
            } else {
                &&& r == Ok::<(), Error>(())
                &&& final(self)@ == old(self)@.with_donation(campaign_id, donation)
            },
    {
        proof {
            use_type_invariant(&*self);
        }
        let mut updated = match self.campaigns.get(&campaign_id) {
            None => {
                return Err(Error::CampaignNotFound);
            },
            Some(campaign) => campaign.clone(),
        };
        if !transferred {
            return Err(Error::TransferFailed);
        }
        updated.credit(donation);
        let mut taken = FilterFund::new(self.owner);
        std::mem::swap(self, &mut taken);
        let FilterFund { campaigns, campaign_count, owner } = taken;
        let mut campaigns = campaigns;
        campaigns.insert(campaign_id, updated);
        proof {
            law_contribution_is_conserved(old(self)@, campaign_id, donation);
        }
        *self = FilterFund { campaigns, campaign_count, owner };
        Ok(())
    }

    /// Takes a contribution of `donation` from `caller` to campaign
    /// `campaign_id` at time `now`.
    ///
    /// An unknown campaign, one whose deadline has passed and one that is not
    /// active are refused before anything is transferred. Otherwise `transfer`
    /// is asked, once, to move `donation` from `caller` to the campaign's
    /// creator, and answers whether it did. Only a transfer that went through
    /// is added to what the campaign has collected.
    pub fn donate_to_campaign<F>(
        &mut self,
        caller: AccountId,
        now: u64,
        campaign_id: u32,
        donation: u128,
        transfer: F,
    ) -> (r: Result<(), Error>) where F: FnOnce(AccountId, AccountId, u128) -> bool
        requires
            old(self)@.donation_error(campaign_id, now) is None ==> call_requires(
                transfer,
                (caller, old(self)@.campaigns[campaign_id].creator, donation),
            ),
        ensures
            final(self)@.well_formed(),
            match old(self)@.donation_error(campaign_id, now) {
                Some(e) => r == Err::<(), Error>(e) && final(self)@ == old(self)@,
                None => {
                    let order = (caller, old(self)@.campaigns[campaign_id].creator, donation);
                    ||| {
                        &&& r == Ok::<(), Error>(())
                        &&& call_ensures(transfer, order, true)
                        &&& final(self)@ == old(self)@.with_donation(campaign_id, donation)
                    }
                    ||| {
                        &&& r == Err::<(), Error>(Error::TransferFailed)
                        &&& call_ensures(transfer, order, false)
                        &&& final(self)@ == old(self)@
                    }
                },
            },
    {
        proof {
            use_type_invariant(&*self);
        }
        let payee = match self.check_donation(campaign_id, now) {
            Err(e) => {
                return Err(e);
            },
            Ok(payee) => payee,
        };
        let transferred = transfer(caller, payee, donation);
        self.settle_donation(campaign_id, donation, transferred)
    }
}

} // verus!
