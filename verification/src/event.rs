//! The campaign record.

use soroban_sdk::Address;
use vstd::prelude::*;

use crate::host::copy_address;

verus! {

/// Lifecycle state of a campaign. `Closed` is final.
#[derive(Clone, Copy, Debug, PartialEq, Eq, Structural)]
pub enum Status {
    Open,
    Closed,
}

/// One campaign: who runs it, what it trades in, how much it wants, until
/// when, and how far it has come.
#[derive(Debug, PartialEq, Eq)]
pub struct DonationEvent {
    /// Creator and beneficiary.
    pub owner: Address,
    /// Asset promised to donors.
    pub token_reward: Address,
    /// Asset in which donations are declared.
    pub token_donation: Address,
    /// Sum of the donations accepted so far.
    pub amount_raised: i128,
    /// Amount at which the campaign closes.
    pub goal_amount: i128,
    /// Last instant at which a donation is accepted.
    pub deadline: u64,
    pub status: Status,
}

impl DonationEvent {
    /// The record of a campaign that has just been created: nothing raised,
    /// open.
    pub open spec fn fresh(
        owner: Address,
        token_reward: Address,
        token_donation: Address,
        goal_amount: i128,
        deadline: u64,
    ) -> DonationEvent {
        DonationEvent {
            owner,
            token_reward,
            token_donation,
            amount_raised: 0,
            goal_amount,
            deadline,
            status: Status::Open,
        }
    }

    /// What a record looks like when it came about by creation and by
    /// donations: the goal is positive, the raised amount is not negative,
    /// and the campaign is closed exactly when the raised amount has reached
    /// the goal.
    pub open spec fn well_formed(self) -> bool {
        &&& self.goal_amount > 0
        &&& self.amount_raised >= 0
        &&& (self.status == Status::Closed <==> self.amount_raised >= self.goal_amount)
    }

    /// Whether two records describe the same campaign: all that creation
    /// fixed is equal.
    pub open spec fn same_campaign(self, other: DonationEvent) -> bool {
        &&& self.owner == other.owner
        &&& self.token_reward == other.token_reward
        &&& self.token_donation == other.token_donation
        &&& self.goal_amount == other.goal_amount
        &&& self.deadline == other.deadline
    }

    /// The record after a donation of `amount` has been accepted: the amount
    /// is added, and the campaign closes if that reaches the goal.
    pub open spec fn credited(self, amount: i128) -> DonationEvent
        recommends
            0 <= amount,
            self.amount_raised + amount <= i128::MAX,
    {
        let raised = self.amount_raised + amount;
        DonationEvent {
            amount_raised: raised as i128,
            status: if raised >= self.goal_amount {
                Status::Closed
            } else {
                self.status
            },
            ..self
        }
    }

    /// Whether the campaign is open.
    pub fn is_open(&self) -> (open: bool)
        ensures
            open == (self.status == Status::Open),
    {
        self.status == Status::Open
    }
}

impl Clone for DonationEvent {
    fn clone(&self) -> (copy: Self)
        ensures
            copy == *self,
    {
        DonationEvent {
            owner: copy_address(&self.owner),
            token_reward: copy_address(&self.token_reward),
            token_donation: copy_address(&self.token_donation),
            amount_raised: self.amount_raised,
            goal_amount: self.goal_amount,
            deadline: self.deadline,
            status: self.status,
        }
    }
}

} // verus!
