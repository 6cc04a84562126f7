//! Sensor readings and the bridge that orders hardware callback events.
//!
//! The hardware interface notifies the host through callbacks that may fire
//! on arbitrary threads. The host enqueues each callback as an immutable
//! [`Event`] on a channel's [`Bridge`]; the single consumer then takes the
//! events back out in arrival order. A `Detach` event is terminal: once it
//! has been handed out, the bridge is complete and consumes nothing further
//! for that connection attempt.
use vstd::prelude::*;

verus! {

/// One timestamped temperature sample.
///
/// `temp` is in millidegrees Celsius and `time` in milliseconds on the
/// host's monotonic clock; the host stamps the sample when the hardware
/// reports it, not when it is consumed.
#[derive(Clone, Copy, Debug, PartialEq, Eq, Structural)]
pub struct TempData {
    pub temp: i64,
    pub time: i64,
}

impl TempData {
    pub fn new(temp: i64, time: i64) -> (r: TempData)
        ensures
            r.temp == temp,
            r.time == time,
    {
        TempData { temp, time }
    }
}

impl Default for TempData {
    /// The placeholder reading shown before a live sample arrives.
    fn default() -> (r: Self)
        ensures
            r.temp == 0,
            r.time == 0,
    {
        TempData { temp: 0, time: 0 }
    }
}

/// A hardware-level fault, identified by the device library's error code.
#[derive(Clone, Copy, Debug, PartialEq, Eq, Structural)]
pub struct SensorError {
    pub code: u32,
}

impl SensorError {
    pub fn new(code: u32) -> (r: SensorError)
        ensures
            r.code == code,
    {
        SensorError { code }
    }
}

/// One event reported by an open hardware channel.
#[derive(Clone, Copy, Debug, PartialEq, Eq, Structural)]
pub enum Event {
    /// The sensor reported a new temperature.
    Change(TempData),
    /// The hardware handle came up.
    Attach,
    /// The hardware went away; terminal for this connection attempt.
    Detach,
}

/// Turns possibly-concurrent hardware callbacks into one ordered,
/// consumable sequence of events for a single connection attempt.
///
/// Callbacks enqueue with [`Bridge::offer`]; the consumer drains with
/// [`Bridge::take`]. Arrival order is preserved, nothing queued is dropped,
/// and after a `Detach` has been taken the bridge is done: it hands out
/// nothing further and ignores any late callbacks. A reconnect discards the
/// old bridge together with anything still buffered in it and starts a
/// fresh one.
#[derive(Clone, Debug)]
pub struct Bridge {
    queue: Vec<Event>,
    done: bool,
}

impl Bridge {
    /// The events queued and not yet consumed, oldest first.
    pub closed spec fn pending(&self) -> Seq<Event> {
        self.queue@
    }

    /// Whether a `Detach` has been handed out, completing the sequence.
    pub closed spec fn is_done(&self) -> bool {
        self.done
    }

    /// A fresh bridge for one connection attempt.
    pub fn new() -> (b: Bridge)
        ensures
            b.pending() == Seq::<Event>::empty(),
            !b.is_done(),
    {
        let b = Bridge { queue: Vec::new(), done: false };
        proof {
            assert(b.pending() =~= Seq::<Event>::empty());
        }
        b
    }

    /// Enqueues one raw callback. Order of arrival is kept; a callback
    /// arriving after the bridge completed belongs to a stale attempt and
    /// is ignored.
    pub fn offer(&mut self, event: Event)
        ensures
            old(self).is_done() ==> *final(self) == *old(self),
            !old(self).is_done() ==> {
                &&& final(self).pending() == old(self).pending().push(event)
                &&& !final(self).is_done()
            },
    {
        if !self.done {
            self.queue.push(event);
        }
    }

    /// Enqueues a temperature-change callback, stamping the reading at the
    /// hand-off point with the consumer's clock `now`.
    pub fn offer_change(&mut self, temp: i64, now: i64)
        ensures
            old(self).is_done() ==> *final(self) == *old(self),
            !old(self).is_done() ==> {
                &&& final(self).pending() == old(self).pending().push(
                    Event::Change(TempData { temp, time: now }),
                )
                &&& !final(self).is_done()
            },
    {
        self.offer(Event::Change(TempData { temp, time: now }));
    }

    /// Hands out the oldest queued event, or `None` when nothing is
    /// waiting or the sequence has completed. Taking a `Detach` completes
    /// the sequence.
    pub fn take(&mut self) -> (r: Option<Event>)
        ensures
            old(self).is_done() || old(self).pending().len() == 0 ==> {
                &&& r is None
                &&& *final(self) == *old(self)
            },
            !old(self).is_done() && old(self).pending().len() > 0 ==> {
                &&& r == Some(old(self).pending()[0])
                &&& final(self).pending() == old(self).pending().drop_first()
                &&& final(self).is_done() == (old(self).pending()[0] is Detach)
            },
    {
        if self.done || self.queue.len() == 0 {
            return None;
        }
        let event = self.queue.remove(0);
        if let Event::Detach = event {
            self.done = true;
        }
        proof {
            assert(self.pending() =~= old(self).pending().drop_first());
        }
        Some(event)
    }
}

} // verus!
