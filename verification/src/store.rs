//! The event store: every campaign ever created, in creation order.
//!
//! A campaign's handle is its position in the store. Records are appended and
//! replaced, never removed, so a handle names the same campaign for good.

use vstd::prelude::*;

use crate::error::LedgerError;
use crate::event::DonationEvent;

verus! {

/// The ordered, append-only sequence of campaign records.
pub struct EventStore {
    events: Vec<DonationEvent>,
}

impl View for EventStore {
    type V = Seq<DonationEvent>;

    closed spec fn view(&self) -> Seq<DonationEvent> {
        self.events@
    }
}

impl EventStore {
    /// A store without campaigns.
    pub fn new() -> (store: EventStore)
        ensures
            store@ == Seq::<DonationEvent>::empty(),
    {
        EventStore { events: Vec::new() }
    }

    /// The store that durable state describes: the persisted records in their
    /// order, or no campaigns where nothing was persisted yet.
    pub fn load(persisted: Option<Vec<DonationEvent>>) -> (store: EventStore)
        ensures
            store@ == match persisted {
                Some(records) => records@,
                None => Seq::<DonationEvent>::empty(),
            },
    {
        match persisted {
            Some(records) => EventStore { events: records },
            None => EventStore { events: Vec::new() },
        }
    }

    /// The records to persist, in order: the whole store.
    pub fn save(self) -> (records: Vec<DonationEvent>)
        ensures
            records@ == self@,
    {
        self.events
    }

    /// Number of campaigns.
    pub fn len(&self) -> (n: usize)
        ensures
            n == self@.len(),
    {
        self.events.len()
    }

    /// A copy of the record at `handle`; `NotFound` where the store has no
    /// such campaign.
    pub fn get(&self, handle: u32) -> (found: Result<DonationEvent, LedgerError>)
        ensures
            found == Self::lookup(self@, handle),
    {
        let at: usize = handle as usize;
        if at < self.events.len() {
            Ok(self.events[at].clone())
        } else {
            Err(LedgerError::NotFound)
        }
    }

    /// Adds `event` behind the last record and returns its handle, the number
    /// of campaigns that were there before. A store that already holds a
    /// campaign for every handle refuses with `OutOfRange`.
    pub fn append(&mut self, event: DonationEvent) -> (handle: Result<u32, LedgerError>)
        ensures
            match handle {
                Ok(h) => {
                    &&& old(self)@.len() <= u32::MAX
                    &&& h == old(self)@.len()
                    &&& final(self)@ == old(self)@.push(event)
                },
                Err(e) => {
                    &&& old(self)@.len() > u32::MAX
                    &&& e == LedgerError::OutOfRange
                    &&& final(self)@ == old(self)@
                },
            },
    {
        let n: usize = self.events.len();
        if n > u32::MAX as usize {
            return Err(LedgerError::OutOfRange);
        }
        self.events.push(event);
        Ok(n as u32)
    }

    /// Puts `event` in the place of the record at `handle`; `OutOfRange` where
    /// the store has no such record.
    pub fn replace(&mut self, handle: u32, event: DonationEvent) -> (done: Result<(), LedgerError>)
        ensures
            match done {
                Ok(()) => {
                    &&& handle < old(self)@.len()
                    &&& final(self)@ == old(self)@.update(handle as int, event)
                },
                Err(e) => {
                    &&& handle >= old(self)@.len()
                    &&& e == LedgerError::OutOfRange
                    &&& final(self)@ == old(self)@
                },
            },
    {
        let at: usize = handle as usize;
        if at < self.events.len() {
            self.events.set(at, event);
            Ok(())
        } else {
            Err(LedgerError::OutOfRange)
        }
    }

    /// A copy of every record, in creation order.
    pub fn list(&self) -> (records: Vec<DonationEvent>)
        ensures
            records@ == self@,
    {
        let mut records: Vec<DonationEvent> = Vec::new();
        let mut i: usize = 0;
        while i < self.events.len()
            invariant
                i <= self.events.len(),
                records@ == self.events@.take(i as int),
            decreases self.events.len() - i,
        {
            records.push(self.events[i].clone());
            proof {
                assert(self.events@.take(i + 1) =~= self.events@.take(i as int).push(
                    self.events@[i as int],
                ));
            }
            i += 1;
        }
        proof {
            assert(self.events@.take(i as int) =~= self.events@);
        }
        records
    }

    /// What a lookup at `handle` gives in a store that holds `events`.
    pub open spec fn lookup(events: Seq<DonationEvent>, handle: u32) -> Result<
        DonationEvent,
        LedgerError,
    > {
        if handle < events.len() {
            Ok(events[handle as int])
        } else {
            Err(LedgerError::NotFound)
        }
    }
}

} // verus!
