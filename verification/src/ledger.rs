//! The campaign ledger: creating campaigns and donating to them.
//!
//! Each operation is given the store, the outcome of the host's authorisation
//! check for the principal concerned and, where it matters, the current time.
//! A refused operation leaves the store as it was.

use soroban_sdk::Address;
use vstd::prelude::*;

use crate::error::LedgerError;
use crate::event::{DonationEvent, Status};
use crate::store::EventStore;

verus! {

/// The ledger's operations.
pub struct DonatifiContract;

impl DonatifiContract {
    /// What creating a campaign does to a store that holds `events`: the new
    /// contents and the new campaign's handle, or the refusal. The checks
    /// come in this order: consent of the owner, a positive goal, a free
    /// handle.
    pub open spec fn creation(
        events: Seq<DonationEvent>,
        authorized: bool,
        owner: Address,
        token_reward: Address,
        token_donation: Address,
        goal_amount: i128,
        deadline: u64,
    ) -> Result<(Seq<DonationEvent>, u32), LedgerError> {
        if !authorized {
            Err(LedgerError::Unauthorized)
        } else if goal_amount <= 0 {
            Err(LedgerError::InvalidParameter)
        } else if events.len() > u32::MAX {
            Err(LedgerError::OutOfRange)
        } else {
            Ok(
                (
                    events.push(
                        DonationEvent::fresh(
                            owner,
                            token_reward,
                            token_donation,
                            goal_amount,
                            deadline,
                        ),
                    ),
                    events.len() as u32,
                ),
            )
        }
    }

    /// What a donation of `amount` to campaign `id` at time `now` does to a
    /// store that holds `events`: the new contents, or the refusal. The checks
    /// come in this order: consent of the donor, the campaign exists, it is
    /// open, its deadline has not passed, the amount is not negative, the sum
    /// fits.
    pub open spec fn donation(
        events: Seq<DonationEvent>,
        authorized: bool,
        id: u32,
        amount: i128,
        now: u64,
    ) -> Result<Seq<DonationEvent>, LedgerError> {
        if !authorized {
            Err(LedgerError::Unauthorized)
        } else if id >= events.len() {
            Err(LedgerError::NotFound)
        } else if events[id as int].status != Status::Open {
            Err(LedgerError::CampaignClosed)
        } else if now > events[id as int].deadline {
            Err(LedgerError::CampaignExpired)
        } else if amount < 0 {
            Err(LedgerError::InvalidParameter)
        } else if events[id as int].amount_raised + amount > i128::MAX {
            Err(LedgerError::ArithmeticOverflow)
        } else {
            Ok(events.update(id as int, events[id as int].credited(amount)))
        }
    }

    /// Creates a campaign for `owner` and returns its handle. `authorized`
    /// says whether `owner` consented. The campaign starts open with nothing
    /// raised. The goal must be positive; the deadline is taken as given.
    pub fn create_evt(
        store: &mut EventStore,
        authorized: bool,
        owner: Address,
        token_reward: Address,
        token_donation: Address,
        goal_amount: i128,
        deadline: u64,
    ) -> (handle: Result<u32, LedgerError>)
        ensures
            match handle {
                Ok(h) => Self::creation(
                    old(store)@,
                    authorized,
                    owner,
                    token_reward,
                    token_donation,
                    goal_amount,
                    deadline,
                ) == Ok::<(Seq<DonationEvent>, u32), LedgerError>((final(store)@, h)),
                Err(e) => {
                    &&& Self::creation(
                        old(store)@,
                        authorized,
                        owner,
                        token_reward,
                        token_donation,
                        goal_amount,
                        deadline,
                    ) == Err::<(Seq<DonationEvent>, u32), LedgerError>(e)
                    &&& final(store)@ == old(store)@
                },
            },
    {
        if !authorized {
            return Err(LedgerError::Unauthorized);
        }
        if goal_amount <= 0 {
            return Err(LedgerError::InvalidParameter);
        }
        let event = DonationEvent {
            owner,
            token_reward,
            token_donation,
            amount_raised: 0,
            goal_amount,
            deadline,
            status: Status::Open,
        };
        store.append(event)
    }

    /// The campaign with handle `id`, if there is one.
    pub fn get_event(store: &EventStore, id: u32) -> (event: Option<DonationEvent>)
        ensures
            event == (if id < store@.len() {
                Some(store@[id as int])
            } else {
                None
            }),
    {
        match store.get(id) {
            Ok(event) => Some(event),
            Err(_) => None,
        }
    }

    /// Every campaign, in creation order.
    pub fn list_events(store: &EventStore) -> (events: Vec<DonationEvent>)
        ensures
            events@ == store@,
    {
        store.list()
    }

    /// Records a donation of `amount` to campaign `id`, made at time `now`.
    /// `authorized` says whether the donor consented. The amount is a
    /// declared value and must not be negative: it is added to what the
    /// campaign has raised, and the campaign closes when that reaches its
    /// goal.
    pub fn donate(store: &mut EventStore, authorized: bool, id: u32, amount: i128, now: u64) -> (done:
        Result<(), LedgerError>)
        ensures
            done is Ok ==> {
                &&& id < old(store)@.len()
                &&& amount >= 0
                &&& final(store)@[id as int].amount_raised == old(store)@[id as int].amount_raised
                    + amount
            },
            match done {
                Ok(()) => Self::donation(old(store)@, authorized, id, amount, now) == Ok::<
                    Seq<DonationEvent>,
                    LedgerError,
                >(final(store)@),
                Err(e) => {
                    &&& Self::donation(old(store)@, authorized, id, amount, now) == Err::<
                        Seq<DonationEvent>,
                        LedgerError,
                    >(e)
                    &&& final(store)@ == old(store)@
                },
            },
    {
        if !authorized {
            return Err(LedgerError::Unauthorized);
        }
        let mut event = match store.get(id) {
            Ok(event) => event,
            Err(e) => {
                return Err(e);
            },
        };
        if !event.is_open() {
            return Err(LedgerError::CampaignClosed);
        }
        if now > event.deadline {
            return Err(LedgerError::CampaignExpired);
        }
        if amount < 0 {
            return Err(LedgerError::InvalidParameter);
        }
        let raised: i128 = match event.amount_raised.checked_add(amount) {
            Some(raised) => raised,
            None => {
                return Err(LedgerError::ArithmeticOverflow);
            },
        };
        event.amount_raised = raised;
        if raised >= event.goal_amount {
            event.status = Status::Closed;
        }
        store.replace(id, event)
    }
}

} // verus!
