//! Decision logic of the event producers and of the consumer side of the
//! merged stream. The threads, the bounded channel and the blocking reads
//! live in the surrounding application; the choices they make are here.

use vstd::prelude::*;
use crate::event::{Event, Key};

verus! {

/// Capacity of the bounded event channel. A full channel blocks the
/// producers (backpressure) instead of dropping events.
pub const CHANNEL_CAPACITY: usize = 25;

/// Interval of the periodic ticker, in milliseconds (about 30 frames/s).
pub const TICK_INTERVAL_MS: u64 = 33;

/// What the input producer sends for one read of the input stream: a decoded
/// key becomes `Input`; end of the stream (EOF or reader error) becomes the
/// `Exit` sentinel, sent once before the producer stops.
pub fn input_event(read: Option<Key>) -> (e: Event)
    ensures
        e == match read {
            Option::Some(k) => Event::Input(k),
            Option::None => Event::Exit,
        },
{
    match read {
        Option::Some(k) => Event::Input(k),
        Option::None => Event::Exit,
    }
}

/// What the consumer observes for one receive on the merged stream: the event
/// itself, or the synthesized `Exit` sentinel when the channel is permanently
/// closed (all producers gone). The consumer never fails on a dead stream.
pub fn recv_or_exit(received: Option<Event>) -> (e: Event)
    ensures
        e == match received {
            Option::Some(ev) => ev,
            Option::None => Event::Exit,
        },
{
    match received {
        Option::Some(ev) => ev,
        Option::None => Event::Exit,
    }
}

} // verus!
