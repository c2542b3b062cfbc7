//! A campaign, and the rules on opening one and on contributing to it.
use vstd::prelude::*;
use crate::account::AccountId;

verus! {

/// The smallest funding goal a campaign may have.
pub const MIN_TARGET: u128 = 1;

/// The time, in milliseconds, that must lie between the creation of a
/// campaign and its deadline: one day.
pub const MIN_LEAD_TIME: u64 = 86_400_000;

/// Why an operation on the campaign ledger failed.
#[derive(Clone, Copy, Debug, PartialEq, Eq, Structural)]
pub enum Error {
    /// No campaign has the given id.
    CampaignNotFound,
    /// The campaign's deadline has passed, or it is no longer active.
    CampaignExpired,
    /// The deadline is not more than the minimum lead time away.
    DeadlineTooSoon,
    /// The payer cannot cover the amount. The ledger itself never reports
    /// this: it is for a host that looks at balances before it transfers.
    NotEnoughBalance,
    /// The transfer of the contribution did not go through.
    TransferFailed,
    /// The call carries no identity.
    Unauthorized,
    /// The funding goal is below the minimum.
    InvalidTarget,
}

/// How the filter that a campaign promotes is obtained and used.
#[derive(Debug, PartialEq, Eq)]
pub struct Filter {
    pub platform: String,
    pub filter_type: String,
    pub instructions: String,
    pub filter_url: String,
}

impl Clone for Filter {
    fn clone(&self) -> (r: Self)
        ensures
            r == *self,
    {
        Filter {
            platform: self.platform.clone(),
            filter_type: self.filter_type.clone(),
            instructions: self.instructions.clone(),
            filter_url: self.filter_url.clone(),
        }
    }
}

/// A funding goal with a deadline and the total collected so far.
#[derive(Debug, PartialEq, Eq)]
pub struct Campaign {
    pub id: u32,
    pub creator: AccountId,
    pub creator_name: String,
    pub title: String,
    pub description: String,
    pub main_image: String,
    pub filter_image: String,
    pub category: String,
    pub target: u128,
    pub amount_collected: u128,
    pub deadline: u64,
    pub is_active: bool,
    pub filter: Filter,
}

impl Clone for Campaign {
    fn clone(&self) -> (r: Self)
        ensures
            r == *self,
    {
        Campaign {
            id: self.id,
            creator: self.creator,
            creator_name: self.creator_name.clone(),
            title: self.title.clone(),
            description: self.description.clone(),
            main_image: self.main_image.clone(),
            filter_image: self.filter_image.clone(),
            category: self.category.clone(),
            target: self.target,
            amount_collected: self.amount_collected,
            deadline: self.deadline,
            is_active: self.is_active,
            filter: self.filter.clone(),
        }
    }
}

/// The sum of two amounts, held at the largest amount there is.
pub open spec fn capped_sum(a: u128, b: u128) -> u128 {
    if a + b > u128::MAX {
        u128::MAX
    } else {
        (a + b) as u128
    }
}

/// The error, if any, that refuses a campaign with funding goal `target`
/// and deadline `deadline`, proposed at time `now`. A deadline that is too
/// near is reported before a goal that is too small.
pub open spec fn opening_error(target: u128, deadline: u64, now: u64) -> Option<Error> {
    if deadline <= now + MIN_LEAD_TIME {
        Some(Error::DeadlineTooSoon)
    } else if target < MIN_TARGET {
        Some(Error::InvalidTarget)
    } else {
        None
    }
}

/// The campaign that `creator` opens under `id`: nothing collected yet, active.
pub open spec fn opened(
    id: u32,
    creator: AccountId,
    title: String,
    description: String,
    main_image: String,
    filter_image: String,
    category: String,
    target: u128,
    deadline: u64,
    filter: Filter,
    creator_name: String,
) -> Campaign {
    Campaign {
        id,
        creator,
        creator_name,
        title,
        description,
        main_image,
        filter_image,
        category,
        target,
        amount_collected: 0,
        deadline,
        is_active: true,
        filter,
    }
}

/// Tests a proposed funding goal and deadline against the time of the proposal.
pub fn check_opening(target: u128, deadline: u64, now: u64) -> (r: Result<(), Error>)
    ensures
        r == match opening_error(target, deadline, now) {
            Some(e) => Err::<(), Error>(e),
            None => Ok::<(), Error>(()),
        },
{
    let earliest = match now.checked_add(MIN_LEAD_TIME) {
        Some(t) => t,
        None => {
            return Err(Error::DeadlineTooSoon);
        },
    };
    if deadline <= earliest {
        Err(Error::DeadlineTooSoon)
    } else if target < MIN_TARGET {
        Err(Error::InvalidTarget)
    } else {
        Ok(())
    }
}

impl Campaign {
    /// Whether the campaign takes contributions at time `now`: it is active
    /// and its deadline has not passed.
    pub open spec fn is_open_at(&self, now: u64) -> bool {
        self.is_active && now <= self.deadline
    }

    /// The campaign after a contribution of `amount` has reached its creator.
    pub open spec fn credited(self, amount: u128) -> Campaign {
        Campaign { amount_collected: capped_sum(self.amount_collected, amount), ..self }
    }

    /// Whether the campaign takes contributions at time `now`.
    pub fn accepts(&self, now: u64) -> (r: bool)
        ensures
            r == self.is_open_at(now),
    {
        self.is_active && now <= self.deadline
    }

    /// Adds a contribution that has reached the creator to the total.
    pub fn credit(&mut self, amount: u128)
        ensures
            *final(self) == old(self).credited(amount),
    {
        self.amount_collected = self.amount_collected.saturating_add(amount);
    }
}

} // verus!
