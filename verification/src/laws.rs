//! What holds of the ledger over whole histories of calls.
//!
//! A history is a sequence of [`Call`]s applied in order to a store; a refused
//! call leaves the store as it was. The laws below are stated over the same
//! spec functions as the contracts of the ledger's operations.

use soroban_sdk::Address;
use vstd::prelude::*;

use crate::error::LedgerError;
use crate::event::{DonationEvent, Status};
use crate::ledger::DonatifiContract;
use crate::store::EventStore;

verus! {

/// One call of an operation that may change the store, with its arguments.
pub enum Call {
    Create {
        authorized: bool,
        owner: Address,
        token_reward: Address,
        token_donation: Address,
        goal_amount: i128,
        deadline: u64,
    },
    Donate { authorized: bool, id: u32, amount: i128, now: u64 },
}

impl Call {
    /// Whether a store that holds `events` accepts the call.
    pub open spec fn accepted(self, events: Seq<DonationEvent>) -> bool {
        match self {
            Call::Create {
                authorized,
                owner,
                token_reward,
                token_donation,
                goal_amount,
                deadline,
            } => DonatifiContract::creation(
                events,
                authorized,
                owner,
                token_reward,
                token_donation,
                goal_amount,
                deadline,
            ) is Ok,
            Call::Donate { authorized, id, amount, now } => DonatifiContract::donation(
                events,
                authorized,
                id,
                amount,
                now,
            ) is Ok,
        }
    }

    /// The contents of the store after the call, given that it held `events`
    /// before.
    pub open spec fn apply(self, events: Seq<DonationEvent>) -> Seq<DonationEvent> {
        match self {
            Call::Create {
                authorized,
                owner,
                token_reward,
                token_donation,
                goal_amount,
                deadline,
            } => match DonatifiContract::creation(
                events,
                authorized,
                owner,
                token_reward,
                token_donation,
                goal_amount,
                deadline,
            ) {
                Ok((after, _)) => after,
                Err(_) => events,
            },
            Call::Donate { authorized, id, amount, now } => match DonatifiContract::donation(
                events,
                authorized,
                id,
                amount,
                now,
            ) {
                Ok(after) => after,
                Err(_) => events,
            },
        }
    }

    /// What the call adds to the amount raised by campaign `id`: the amount
    /// of an accepted donation to it, and nothing otherwise.
    pub open spec fn credit(self, events: Seq<DonationEvent>, id: u32) -> int {
        match self {
            Call::Donate { id: to, amount, .. } if to == id && self.accepted(events) => amount as int,
            _ => 0,
        }
    }

    /// 1 for an accepted creation, 0 for any other call.
    pub open spec fn created(self, events: Seq<DonationEvent>) -> nat {
        if self is Create && self.accepted(events) {
            1
        } else {
            0
        }
    }
}

/// The contents of the store after `calls`, made in order on a store that held
/// `events`.
pub open spec fn history(events: Seq<DonationEvent>, calls: Seq<Call>) -> Seq<DonationEvent>
    decreases calls.len(),
{
    if calls.len() == 0 {
        events
    } else {
        calls.last().apply(history(events, calls.drop_last()))
    }
}

/// The sum of the amounts that `calls` added to campaign `id`.
pub open spec fn total_credit(events: Seq<DonationEvent>, calls: Seq<Call>, id: u32) -> int
    decreases calls.len(),
{
    if calls.len() == 0 {
        0
    } else {
        total_credit(events, calls.drop_last(), id) + calls.last().credit(
            history(events, calls.drop_last()),
            id,
        )
    }
}

/// The number of campaigns that `calls` created.
pub open spec fn total_created(events: Seq<DonationEvent>, calls: Seq<Call>) -> nat
    decreases calls.len(),
{
    if calls.len() == 0 {
        0
    } else {
        total_created(events, calls.drop_last()) + calls.last().created(
            history(events, calls.drop_last()),
        )
    }
}

/// A call never removes a campaign, changes only what a campaign has raised
/// and whether it is open, and adds to a campaign exactly its credit, which
/// is never negative and is nothing unless the campaign is open.
pub proof fn law_call_keeps_campaigns(events: Seq<DonationEvent>, call: Call, id: u32)
    requires
        id < events.len(),
    ensures
        call.apply(events).len() == events.len() + call.created(events),
        call.apply(events)[id as int].same_campaign(events[id as int]),
        call.apply(events)[id as int].amount_raised == events[id as int].amount_raised
            + call.credit(events, id),
        call.credit(events, id) >= 0,
        call.credit(events, id) != 0 ==> events[id as int].status == Status::Open,
        events[id as int].status == Status::Closed ==> call.apply(events)[id as int]
            == events[id as int],
{
}

/// Campaigns are never removed, and a history changes nothing of what their
/// creation fixed: owner, assets, goal and deadline stay with the handle.
pub proof fn law_handles_are_stable(events: Seq<DonationEvent>, calls: Seq<Call>, id: u32)
    requires
        id < events.len(),
    ensures
        id < history(events, calls).len(),
        history(events, calls)[id as int].same_campaign(events[id as int]),
    decreases calls.len(),
{
    if calls.len() > 0 {
        law_handles_are_stable(events, calls.drop_last(), id);
        law_call_keeps_campaigns(history(events, calls.drop_last()), calls.last(), id);
    }
}

/// After any history, a campaign has raised what it had raised before plus
/// the sum of the donations to it that were accepted. For a campaign that had
/// raised nothing, such as one just created, that is the sum alone.
pub proof fn law_raised_is_sum_of_accepted(events: Seq<DonationEvent>, calls: Seq<Call>, id: u32)
    requires
        id < events.len(),
    ensures
        id < history(events, calls).len(),
        history(events, calls)[id as int].amount_raised == events[id as int].amount_raised
            + total_credit(events, calls, id),
        events[id as int].amount_raised == 0 ==> history(events, calls)[id as int].amount_raised
            == total_credit(events, calls, id),
    decreases calls.len(),
{
    if calls.len() > 0 {
        law_raised_is_sum_of_accepted(events, calls.drop_last(), id);
        law_call_keeps_campaigns(history(events, calls.drop_last()), calls.last(), id);
    }
}

/// What a campaign has raised never falls: after any history it is at least
/// what it was at any earlier point of that history.
pub proof fn law_raised_never_falls(
    events: Seq<DonationEvent>,
    calls: Seq<Call>,
    id: u32,
    earlier: int,
)
    requires
        id < events.len(),
        0 <= earlier <= calls.len(),
    ensures
        id < history(events, calls.take(earlier)).len(),
        id < history(events, calls).len(),
        history(events, calls.take(earlier))[id as int].amount_raised <= history(
            events,
            calls,
        )[id as int].amount_raised,
    decreases calls.len(),
{
    law_handles_are_stable(events, calls, id);
    if earlier == calls.len() {
        assert(calls.take(earlier) =~= calls);
    } else {
        let front = calls.drop_last();
        assert(front.take(earlier) =~= calls.take(earlier));
        law_raised_never_falls(events, front, id, earlier);
        law_handles_are_stable(events, front, id);
        law_call_keeps_campaigns(history(events, front), calls.last(), id);
    }
}

/// A campaign that had raised no negative amount never does: after any
/// history what it has raised is zero or more.
pub proof fn law_raised_is_never_negative(events: Seq<DonationEvent>, calls: Seq<Call>, id: u32)
    requires
        id < events.len(),
        events[id as int].amount_raised >= 0,
    ensures
        id < history(events, calls).len(),
        history(events, calls)[id as int].amount_raised >= 0,
{
    law_raised_never_falls(events, calls, id, 0);
    assert(calls.take(0) =~= Seq::<Call>::empty());
}

/// A donation to a closed campaign by a donor who consented is refused with
/// `CampaignClosed`, whatever its amount and time.
pub proof fn law_closed_refuses_donations(
    events: Seq<DonationEvent>,
    id: u32,
    amount: i128,
    now: u64,
)
    requires
        id < events.len(),
        events[id as int].status == Status::Closed,
    ensures
        DonatifiContract::donation(events, true, id, amount, now) == Err::<
            Seq<DonationEvent>,
            LedgerError,
        >(LedgerError::CampaignClosed),
{
}

/// Closed is final: no history changes the record of a closed campaign, and
/// after any history a donation to it by a donor who consented is still
/// refused with `CampaignClosed`.
pub proof fn law_closed_is_final(events: Seq<DonationEvent>, calls: Seq<Call>, id: u32)
    requires
        id < events.len(),
        events[id as int].status == Status::Closed,
    ensures
        id < history(events, calls).len(),
        history(events, calls)[id as int] == events[id as int],
        forall|amount: i128, now: u64| #[trigger]
            DonatifiContract::donation(history(events, calls), true, id, amount, now) == Err::<
                Seq<DonationEvent>,
                LedgerError,
            >(LedgerError::CampaignClosed),
    decreases calls.len(),
{
    if calls.len() > 0 {
        law_closed_is_final(events, calls.drop_last(), id);
        law_call_keeps_campaigns(history(events, calls.drop_last()), calls.last(), id);
    }
}

/// A donation to an open campaign after its deadline, by a donor who
/// consented, is refused with `CampaignExpired`, whatever the campaign has
/// raised and whatever the amount.
pub proof fn law_expired_refuses_donations(
    events: Seq<DonationEvent>,
    id: u32,
    amount: i128,
    now: u64,
)
    requires
        id < events.len(),
        events[id as int].status == Status::Open,
        now > events[id as int].deadline,
    ensures
        DonatifiContract::donation(events, true, id, amount, now) == Err::<
            Seq<DonationEvent>,
            LedgerError,
        >(LedgerError::CampaignExpired),
{
}

/// Once a campaign's deadline has passed, no donation to it is accepted any
/// more, whatever else has happened since: a donor who consented is refused
/// with `CampaignExpired` while the campaign is open and with
/// `CampaignClosed` when it is closed.
pub proof fn law_expired_stays_refused(
    events: Seq<DonationEvent>,
    calls: Seq<Call>,
    id: u32,
    amount: i128,
    now: u64,
)
    requires
        id < events.len(),
        now > events[id as int].deadline,
    ensures
        id < history(events, calls).len(),
        DonatifiContract::donation(history(events, calls), true, id, amount, now) == Err::<
            Seq<DonationEvent>,
            LedgerError,
        >(
            if history(events, calls)[id as int].status == Status::Open {
                LedgerError::CampaignExpired
            } else {
                LedgerError::CampaignClosed
            },
        ),
{
    law_handles_are_stable(events, calls, id);
}

/// Looking up the handle that a creation returned gives a record with nothing
/// raised, open, and with the owner, assets, goal and deadline that were
/// passed to the creation.
pub proof fn law_created_is_fresh(
    events: Seq<DonationEvent>,
    authorized: bool,
    owner: Address,
    token_reward: Address,
    token_donation: Address,
    goal_amount: i128,
    deadline: u64,
)
    ensures
        match DonatifiContract::creation(
            events,
            authorized,
            owner,
            token_reward,
            token_donation,
            goal_amount,
            deadline,
        ) {
            Ok((after, handle)) => EventStore::lookup(after, handle) == Ok::<
                DonationEvent,
                LedgerError,
            >(
                (DonationEvent {
                    owner,
                    token_reward,
                    token_donation,
                    amount_raised: 0,
                    goal_amount,
                    deadline,
                    status: Status::Open,
                }),
            ),
            Err(_) => true,
        },
{
}

/// A history adds one campaign for each accepted creation, and none
/// otherwise.
pub proof fn law_length_counts_creations(events: Seq<DonationEvent>, calls: Seq<Call>)
    ensures
        history(events, calls).len() == events.len() + total_created(events, calls),
    decreases calls.len(),
{
    if calls.len() > 0 {
        law_length_counts_creations(events, calls.drop_last());
    }
}

/// On a store that started empty, the number of campaigns is the number of
/// creations accepted so far, and the handle that a creation returns is the
/// number of creations accepted before it: handles run 0, 1, 2, and so on in
/// the order of the calls.
pub proof fn law_handles_follow_creations(
    calls: Seq<Call>,
    authorized: bool,
    owner: Address,
    token_reward: Address,
    token_donation: Address,
    goal_amount: i128,
    deadline: u64,
)
    ensures
        history(Seq::empty(), calls).len() == total_created(Seq::empty(), calls),
        match DonatifiContract::creation(
            history(Seq::empty(), calls),
            authorized,
            owner,
            token_reward,
            token_donation,
            goal_amount,
            deadline,
        ) {
            Ok((_, handle)) => handle == total_created(Seq::empty(), calls),
            Err(_) => true,
        },
{
    law_length_counts_creations(Seq::empty(), calls);
}

/// Whether every record of `events` is well formed.
pub open spec fn all_well_formed(events: Seq<DonationEvent>) -> bool {
    forall|i: int| 0 <= i < events.len() ==> (#[trigger] events[i]).well_formed()
}

/// A history keeps every record well formed: goals positive, raised amounts
/// not negative, and a campaign closed exactly when it has raised its goal.
pub proof fn law_well_formed_is_kept(events: Seq<DonationEvent>, calls: Seq<Call>)
    requires
        all_well_formed(events),
    ensures
        all_well_formed(history(events, calls)),
    decreases calls.len(),
{
    if calls.len() > 0 {
        law_well_formed_is_kept(events, calls.drop_last());
        let before = history(events, calls.drop_last());
        let after = history(events, calls);
        assert forall|i: int| 0 <= i < after.len() implies (#[trigger] after[i]).well_formed() by {
            if i < before.len() {
                assert(before[i].well_formed());
            }
        }
    }
}

/// On a store that started empty, every record is well formed after any
/// history.
pub proof fn law_ledger_is_well_formed(calls: Seq<Call>)
    ensures
        all_well_formed(history(Seq::empty(), calls)),
{
    law_well_formed_is_kept(Seq::empty(), calls);
}

} // verus!
