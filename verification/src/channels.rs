//! Models of the two task-to-task channels: the single-slot last-value
//! price channel (a reader wakes only for a genuinely new snapshot) and
//! the bounded fan-out order-event bus (a late subscriber starts at the end
//! of the log; a slow one lags and skips). The async transport drives these
//! models from outside the verified core; their delivery rules, including
//! the subscribe-after-publish miss, live here.

use vstd::prelude::*;

use crate::models::BookTickerData;
use crate::models::OrderUpdateData;

verus! {

/// Field-for-field equality of two price snapshots.
pub open spec fn ticker_eq_v(a: BookTickerData, b: BookTickerData) -> bool {
    &&& a.event_type@ == b.event_type@
    &&& a.event_time == b.event_time
    &&& a.symbol@ == b.symbol@
    &&& a.best_ask_price@ == b.best_ask_price@
    &&& a.best_ask_qty@ == b.best_ask_qty@
    &&& a.best_bid_price@ == b.best_bid_price@
    &&& a.best_bid_qty@ == b.best_bid_qty@
    &&& a.engine_timestamp == b.engine_timestamp
}

/// Exec decision procedure for snapshot equality.
pub fn ticker_eq(a: &BookTickerData, b: &BookTickerData) -> (r: bool)
    ensures
        r == ticker_eq_v(*a, *b),
{
    a.event_type == b.event_type && a.event_time == b.event_time && a.symbol == b.symbol
        && a.best_ask_price == b.best_ask_price && a.best_ask_qty == b.best_ask_qty
        && a.best_bid_price == b.best_bid_price && a.best_bid_qty == b.best_bid_qty
        && a.engine_timestamp == b.engine_timestamp
}

/// The single-slot price channel: the latest snapshot and a version that
/// counts genuinely new values. Stale intermediate snapshots are never
/// queued; a reader only ever sees the latest.
pub struct PriceChannel {
    pub current: Option<BookTickerData>,
    pub version: u64,
}

/// One reader's cursor into the price channel: the version it last
/// observed.
pub struct PriceReader {
    pub seen: u64,
}

/// The channel has a value exactly once something was published.
pub open spec fn price_wf(ch: PriceChannel) -> bool {
    (ch.version == 0) <==> (ch.current is None)
}

/// The reader would wake: the channel holds a snapshot it has not
/// observed.
pub open spec fn price_wakes(ch: PriceChannel, r: PriceReader) -> bool {
    ch.version != r.seen && ch.current is Some
}

impl PriceChannel {
    /// An empty channel.
    pub fn new() -> (r: PriceChannel)
        ensures
            r.current is None,
            r.version == 0,
            price_wf(r),
    {
        PriceChannel { current: None, version: 0 }
    }

    /// Publishes a snapshot, last-value-wins: an identical snapshot leaves
    /// the channel unchanged (no reader wakes for it); a new one replaces
    /// the slot and bumps the version.
    pub fn publish(&mut self, t: BookTickerData)
        requires
            price_wf(*old(self)),
            old(self).version < u64::MAX,
        ensures
            price_wf(*final(self)),
            match old(self).current {
                Some(c) => if ticker_eq_v(c, t) {
                    *final(self) == *old(self)
                } else {
                    final(self).version == old(self).version + 1 && final(self).current == Some(t)
                },
                None => final(self).version == old(self).version + 1 && final(self).current
                    == Some(t),
            },
    {
        let replace = match &self.current {
            Some(c) => !ticker_eq(c, &t),
            None => true,
        };
        if replace {
            self.current = Some(t);
            self.version = self.version + 1;
        }
    }

    /// A fresh reader; the value now in the slot counts as already
    /// observed.
    pub fn reader(&self) -> (r: PriceReader)
        ensures
            r.seen == self.version,
    {
        PriceReader { seen: self.version }
    }

    /// One wait-for-change poll: returns the latest snapshot exactly when
    /// the reader would wake, and advances the reader to it; `None` means
    /// the reader stays blocked.
    pub fn try_wait(&self, r: &mut PriceReader) -> (res: Option<BookTickerData>)
        ensures
            res is Some <==> price_wakes(*self, *old(r)),
            match res {
                Some(t) => self.current == Some(t) && final(r).seen == self.version,
                None => *final(r) == *old(r),
            },
    {
        if self.version != r.seen {
            match &self.current {
                Some(c) => {
                    r.seen = self.version;
                    Some(c.clone())
                },
                None => None,
            }
        } else {
            None
        }
    }
}

/// A reader that calls wait-for-change twice in succession without an
/// intervening publish blocks on the second call: once it has observed the
/// current version, nothing wakes it. Together with `publish`'s contract
/// (an identical snapshot leaves the channel unchanged) this also rules
/// out a spurious wake on a re-published identical value.
pub proof fn lemma_price_no_spurious_wake(ch: PriceChannel, r: PriceReader)
    requires
        r.seen == ch.version,
    ensures
        !price_wakes(ch, r),
{
}

/// The fan-out order-event bus: an append-only log with a bounded window
/// of retained events. Each subscriber owns a cursor; one that falls more
/// than `capacity` behind skips ahead and loses the overwritten events.
pub struct OrderBus {
    pub log: Vec<OrderUpdateData>,
    pub capacity: usize,
}

/// One subscriber's cursor into the bus log.
pub struct BusReader {
    pub cursor: usize,
}

/// One receive step's outcome.
pub enum RecvOutcome {
    Event(OrderUpdateData),
    Lagged(usize),
    Empty,
}

/// The oldest retained position of the bus log.
pub open spec fn bus_floor(bus: OrderBus) -> int {
    if bus.log@.len() > bus.capacity {
        bus.log@.len() - bus.capacity
    } else {
        0
    }
}

/// The position the next delivered event comes from, for a reader at
/// `cursor`: its own cursor, or the floor after a lag.
pub open spec fn recv_index(bus: OrderBus, cursor: int) -> int {
    if cursor < bus_floor(bus) {
        bus_floor(bus)
    } else {
        cursor
    }
}

impl OrderBus {
    /// An empty bus retaining at most `capacity` events per slow reader.
    pub fn new(capacity: usize) -> (r: OrderBus)
        ensures
            r.log@.len() == 0,
            r.capacity == capacity,
    {
        OrderBus { log: Vec::new(), capacity }
    }

    /// Broadcasts an event: appended for every current subscriber, missed
    /// by any subscriber created afterwards.
    pub fn publish(&mut self, e: OrderUpdateData)
        requires
            old(self).log@.len() < usize::MAX,
        ensures
            final(self).log@ == old(self).log@.push(e),
            final(self).capacity == old(self).capacity,
    {
        self.log.push(e);
    }

    /// A fresh subscription starts at the end of the log: events already
    /// published are never delivered to it.
    pub fn subscribe(&self) -> (r: BusReader)
        ensures
            r.cursor == self.log@.len(),
    {
        BusReader { cursor: self.log.len() }
    }

    /// One receive step: the event at the reader's position, a lag report
    /// that skips it to the oldest retained event, or nothing. The cursor
    /// never moves backward.
    pub fn try_recv(&self, r: &mut BusReader) -> (res: RecvOutcome)
        requires
            old(r).cursor <= self.log@.len(),
        ensures
            final(r).cursor >= old(r).cursor,
            final(r).cursor <= self.log@.len(),
            match res {
                RecvOutcome::Event(e) => {
                    &&& old(r).cursor as int >= bus_floor(*self)
                    &&& old(r).cursor < self.log@.len()
                    &&& e == self.log@[recv_index(*self, old(r).cursor as int)]
                    &&& recv_index(*self, old(r).cursor as int) == old(r).cursor as int
                    &&& final(r).cursor == old(r).cursor + 1
                },
                RecvOutcome::Lagged(n) => {
                    &&& (old(r).cursor as int) < bus_floor(*self)
                    &&& n == bus_floor(*self) - old(r).cursor
                    &&& final(r).cursor as int == bus_floor(*self)
                },
                RecvOutcome::Empty => {
                    &&& old(r).cursor == self.log@.len()
                    &&& *final(r) == *old(r)
                },
            },
    {
        let len = self.log.len();
        let floor = if len > self.capacity {
            len - self.capacity
        } else {
            0
        };
        if r.cursor < floor {
            let n = floor - r.cursor;
            r.cursor = floor;
            RecvOutcome::Lagged(n)
        } else if r.cursor == len {
            RecvOutcome::Empty
        } else {
            let e = self.log[r.cursor].clone();
            r.cursor = r.cursor + 1;
            RecvOutcome::Event(e)
        }
    }
}

/// An event published before a subscriber existed is never delivered to
/// that subscriber: its cursor starts at the log length at subscription
/// time, never moves backward, and every delivered event comes from at or
/// after the cursor — so a position written before the subscription stays
/// out of reach.
pub proof fn lemma_no_retroactive_delivery(bus: OrderBus, sub_len: int, r: BusReader, i: int)
    requires
        sub_len <= r.cursor as int,
        0 <= i < sub_len,
    ensures
        recv_index(bus, r.cursor as int) != i,
        recv_index(bus, r.cursor as int) >= sub_len,
{
}

} // verus!
