//! What holds of the campaign ledger across calls.
use vstd::prelude::*;
use crate::account::AccountId;
use crate::campaign::{capped_sum, opening_error, Campaign, Error, MIN_LEAD_TIME, MIN_TARGET};
use crate::ledger::{next_count, Ledger};

verus! {

/// The ledger after the campaigns of `proposals` have been opened one after
/// another, each under the id that the counter gave it.
pub open spec fn after_creations(start: Ledger, proposals: Seq<Campaign>) -> Ledger
    decreases proposals.len(),
{
    if proposals.len() == 0 {
        start
    } else {
        after_creations(start, proposals.drop_last()).with_campaign(proposals.last())
    }
}

/// A funding goal below the minimum is refused as an invalid target,
/// whenever the deadline itself is acceptable.
pub proof fn law_small_target_is_refused(target: u128, deadline: u64, now: u64)
    requires
        target < MIN_TARGET,
        deadline > now + MIN_LEAD_TIME,
    ensures
        opening_error(target, deadline, now) == Some(Error::InvalidTarget),
{
}

/// A deadline that is not more than the minimum lead time away is refused
/// as too soon, whatever the funding goal.
pub proof fn law_near_deadline_is_refused(target: u128, deadline: u64, now: u64)
    requires
        deadline <= now + MIN_LEAD_TIME,
    ensures
        opening_error(target, deadline, now) == Some(Error::DeadlineTooSoon),
{
}

/// A goal of at least the minimum with a deadline more than the minimum
/// lead time away is accepted.
pub proof fn law_sound_proposal_is_accepted(target: u128, deadline: u64, now: u64)
    requires
        target >= MIN_TARGET,
        deadline > now + MIN_LEAD_TIME,
    ensures
        opening_error(target, deadline, now) is None,
{
}

/// Opening a campaign keeps a well-formed ledger well-formed, keeps every
/// campaign that was there (while the counter has not stopped), and moves
/// the counter on by one.
pub proof fn law_creation_extends(ledger: Ledger, campaign: Campaign)
    requires
        ledger.well_formed(),
    ensures
        ledger.with_campaign(campaign).well_formed(),
        ledger.with_campaign(campaign).campaign_count == next_count(ledger.campaign_count),
        ledger.campaign_count < u32::MAX ==> forall|id: u32| #[trigger]
            ledger.campaigns.contains_key(id) ==> ledger.with_campaign(campaign).campaigns.contains_key(id)
                && ledger.with_campaign(campaign).campaigns[id] == ledger.campaigns[id],
{
    let after = ledger.with_campaign(campaign);
    assert forall|id: u32| id < after.campaign_count implies after.campaigns.contains_key(id) by {
        if id != ledger.campaign_count {
            assert(ledger.campaigns.contains_key(id));
        }
    }
    assert forall|id: u32| #[trigger] after.campaigns.contains_key(id) implies after.campaigns[id].id
        == id && (id < after.campaign_count || after.campaign_count == u32::MAX) by {
        if id != ledger.campaign_count {
            assert(ledger.campaigns.contains_key(id));
        }
    }
}

/// Ids are handed out in order, without gaps and without reuse: after `n`
/// campaigns have been opened on a new ledger, the counter stands at `n`,
/// the campaigns are exactly those under the ids `0` to `n - 1`, and the
/// campaign under id `i` is the one that was opened as the `i`-th.
pub proof fn law_ids_are_successive(owner: AccountId, proposals: Seq<Campaign>)
    requires
        proposals.len() <= u32::MAX,
    ensures
        after_creations(Ledger::empty(owner), proposals).well_formed(),
        after_creations(Ledger::empty(owner), proposals).campaign_count == proposals.len(),
        forall|id: u32|
            after_creations(Ledger::empty(owner), proposals).campaigns.contains_key(id) <==> id
                < proposals.len(),
        forall|i: int|
            0 <= i < proposals.len() ==> #[trigger] after_creations(
                Ledger::empty(owner),
                proposals,
            ).campaigns[i as u32] == (Campaign { id: i as u32, ..proposals[i] }),
    decreases proposals.len(),
{
    let start = Ledger::empty(owner);
    if proposals.len() == 0 {
    } else {
        let earlier = proposals.drop_last();
        let before = after_creations(start, earlier);
        law_ids_are_successive(owner, earlier);
        law_creation_extends(before, proposals.last());
        let after = after_creations(start, proposals);
        assert(after == before.with_campaign(proposals.last()));
        assert forall|id: u32| after.campaigns.contains_key(id) <==> id < proposals.len() by {
            if id != before.campaign_count {
                assert(after.campaigns.contains_key(id) == before.campaigns.contains_key(id));
            }
        }
        assert forall|i: int| 0 <= i < proposals.len() implies #[trigger] after.campaigns[i as u32]
            == (Campaign { id: i as u32, ..proposals[i] }) by {
            if i < earlier.len() {
                assert(before.campaigns[i as u32] == (Campaign { id: i as u32, ..earlier[i] }));
                assert(earlier[i] == proposals[i]);
            }
        }
    }
}

/// The id that a creation returns is the counter before it, and the next
/// creation returns the id after it.
pub proof fn law_next_id_follows(ledger: Ledger, first: Campaign, second: Campaign)
    requires
        ledger.campaign_count < u32::MAX,
    ensures
        ledger.with_campaign(first).campaign_count == ledger.campaign_count + 1,
        ledger.with_campaign(first).campaigns[ledger.campaign_count].id == ledger.campaign_count,
        ledger.with_campaign(first).with_campaign(second).campaigns[(ledger.campaign_count
            + 1) as u32].id == ledger.campaign_count + 1,
        ledger.with_campaign(first).with_campaign(second).campaigns[ledger.campaign_count]
            == ledger.with_campaign(first).campaigns[ledger.campaign_count],
{
}

/// A booked contribution raises what the campaign has collected by exactly
/// its amount, up to the largest amount there is, and changes nothing else:
/// not the rest of the campaign, not another campaign, not the counter.
pub proof fn law_contribution_is_conserved(ledger: Ledger, id: u32, amount: u128)
    requires
        ledger.well_formed(),
        ledger.campaigns.contains_key(id),
    ensures
        ledger.with_donation(id, amount).well_formed(),
        ledger.with_donation(id, amount).campaigns[id].amount_collected == (if
            ledger.campaigns[id].amount_collected + amount <= u128::MAX {
            ledger.campaigns[id].amount_collected + amount
        } else {
            u128::MAX as int
        }),
        ledger.with_donation(id, amount).campaigns[id].amount_collected
            >= ledger.campaigns[id].amount_collected,
        ledger.with_donation(id, amount).campaigns[id] == (Campaign {
            amount_collected: ledger.with_donation(id, amount).campaigns[id].amount_collected,
            ..ledger.campaigns[id]
        }),
        ledger.with_donation(id, amount).campaigns.dom() == ledger.campaigns.dom(),
        forall|other: u32|
            other != id && ledger.campaigns.contains_key(other) ==> #[trigger] ledger.with_donation(
                id,
                amount,
            ).campaigns[other] == ledger.campaigns[other],
        ledger.with_donation(id, amount).campaign_count == ledger.campaign_count,
        ledger.with_donation(id, amount).owner == ledger.owner,
{
    let after = ledger.with_donation(id, amount);
    assert(after.campaigns.dom() =~= ledger.campaigns.dom());
    assert forall|k: u32| k < after.campaign_count implies after.campaigns.contains_key(k) by {
        assert(ledger.campaigns.contains_key(k));
    }
    assert forall|k: u32| #[trigger] after.campaigns.contains_key(k) implies after.campaigns[k].id == k
        && (k < after.campaign_count || after.campaign_count == u32::MAX) by {
        assert(ledger.campaigns.contains_key(k));
    }
}

/// No update is lost: two contributions to one campaign, booked in either
/// order, leave the same ledger, and the campaign has then collected what it
/// had plus both amounts, up to the largest amount there is.
pub proof fn law_contributions_add_up(ledger: Ledger, id: u32, first: u128, second: u128)
    requires
        ledger.campaigns.contains_key(id),
    ensures
        ledger.with_donation(id, first).with_donation(id, second) == ledger.with_donation(
            id,
            second,
        ).with_donation(id, first),
        ledger.with_donation(id, first).with_donation(id, second).campaigns[id].amount_collected
            == (if ledger.campaigns[id].amount_collected + first + second <= u128::MAX {
            ledger.campaigns[id].amount_collected + first + second
        } else {
            u128::MAX as int
        }),
{
    let one = ledger.with_donation(id, first).with_donation(id, second);
    let other = ledger.with_donation(id, second).with_donation(id, first);
    let prior = ledger.campaigns[id].amount_collected;
    assert(capped_sum(capped_sum(prior, first), second) == capped_sum(
        capped_sum(prior, second),
        first,
    ));
    assert(one.campaigns =~= other.campaigns);
}

/// Contributions to different campaigns do not touch each other: booked in
/// either order they leave the same ledger.
pub proof fn law_contributions_are_independent(
    ledger: Ledger,
    one: u32,
    other: u32,
    first: u128,
    second: u128,
)
    requires
        one != other,
        ledger.campaigns.contains_key(one),
        ledger.campaigns.contains_key(other),
    ensures
        ledger.with_donation(one, first).with_donation(other, second) == ledger.with_donation(
            other,
            second,
        ).with_donation(one, first),
{
    assert(ledger.with_donation(one, first).with_donation(other, second).campaigns
        =~= ledger.with_donation(other, second).with_donation(one, first).campaigns);
}

/// Past its deadline a campaign takes nothing: the contribution is refused
/// as expired. The same holds of a campaign that is not active.
pub proof fn law_expired_campaign_refuses(ledger: Ledger, id: u32, now: u64)
    requires
        ledger.campaigns.contains_key(id),
        now > ledger.campaigns[id].deadline || !ledger.campaigns[id].is_active,
    ensures
        ledger.donation_error(id, now) == Some(Error::CampaignExpired),
{
}

/// An active campaign takes contributions up to and at its deadline.
pub proof fn law_open_campaign_accepts(ledger: Ledger, id: u32, now: u64)
    requires
        ledger.campaigns.contains_key(id),
        ledger.campaigns[id].is_active,
        now <= ledger.campaigns[id].deadline,
    ensures
        ledger.donation_error(id, now) is None,
{
}

} // verus!
