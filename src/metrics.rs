//! The latest-snapshot cache fed by a metrics stream: each decoded frame
//! replaces the one before, and the first failure or the end of the stream
//! stops the consumer for good, leaving the last snapshot readable.

use vstd::prelude::*;

use crate::error::ProtocolClientError;

verus! {

/// One item that the consumer takes from the stream.
pub enum StreamItem<T> {
    /// A decoded snapshot.
    Frame(T),
    /// Reading or decoding failed.
    Failed(ProtocolClientError),
    /// The stream ended.
    Ended,
}

/// The cache after one item: the latest snapshot and whether the consumer
/// still runs.
pub open spec fn after_item<T>(latest: Option<T>, running: bool, item: StreamItem<T>) -> (Option<T>, bool) {
    if !running {
        (latest, running)
    } else {
        match item {
            StreamItem::Frame(v) => (Some(v), true),
            _ => (latest, false),
        }
    }
}

/// The cache after a sequence of items, in order.
pub open spec fn after_items<T>(latest: Option<T>, running: bool, items: Seq<StreamItem<T>>) -> (Option<T>, bool)
    decreases items.len(),
{
    if items.len() == 0 {
        (latest, running)
    } else {
        let (l0, r0) = after_items(latest, running, items.drop_last());
        after_item(l0, r0, items.last())
    }
}

/// The shared slot that holds the latest snapshot of a stream.
pub struct MetricsCache<T> {
    pub latest: Option<T>,
    pub running: bool,
}

impl<T> MetricsCache<T> {
    /// An empty cache whose consumer is about to start.
    pub fn new() -> (r: Self)
        ensures
            r.latest is None,
            r.running,
    {
        MetricsCache { latest: None, running: true }
    }

    /// Takes one item from the stream; returns whether the consumer goes on.
    pub fn handle(&mut self, item: StreamItem<T>) -> (go_on: bool)
        ensures
            (final(self).latest, final(self).running) == after_item(old(self).latest, old(self).running, item),
            go_on == final(self).running,
    {
        if !self.running {
            return false;
        }
        match item {
            StreamItem::Frame(v) => {
                self.latest = Some(v);
                true
            },
            _ => {
                self.running = false;
                false
            },
        }
    }

    /// The latest snapshot, if any frame has arrived.
    pub fn snapshot(&self) -> (r: &Option<T>)
        ensures
            *r == self.latest,
    {
        &self.latest
    }
}

/// While the consumer runs, the cache holds the last frame taken: two frames
/// leave the second, never the first.
pub proof fn law_last_frame_wins<T>(latest: Option<T>, items: Seq<StreamItem<T>>, v: T)
    requires
        after_items(latest, true, items).1,
    ensures
        after_items(latest, true, items.push(StreamItem::Frame(v))) == (Some(v), true),
{
    assert(items.push(StreamItem::Frame(v)).drop_last() =~= items);
}

/// Two frames in a row leave the second one in the cache.
pub proof fn law_two_frames<T>(a: T, b: T)
    ensures
        after_items(None::<T>, true, seq![StreamItem::Frame(a), StreamItem::Frame(b)]) == (Some(b), true),
{
    let none = Seq::<StreamItem<T>>::empty();
    assert(after_items(None::<T>, true, none) == (None::<T>, true));
    law_last_frame_wins(None::<T>, none, a);
    let one = none.push(StreamItem::Frame(a));
    assert(one =~= seq![StreamItem::Frame(a)]);
    law_last_frame_wins(None::<T>, one, b);
    assert(one.push(StreamItem::Frame(b)) =~= seq![StreamItem::Frame(a), StreamItem::Frame(b)]);
}

/// After a failure or the end of the stream the consumer stays stopped and
/// the last snapshot stays readable, whatever follows.
pub proof fn law_stop_is_final<T>(latest: Option<T>, stop: StreamItem<T>, rest: Seq<StreamItem<T>>)
    requires
        !(stop is Frame),
    ensures
        after_items(latest, true, seq![stop] + rest) == (latest, false),
    decreases rest.len(),
{
    let all = seq![stop] + rest;
    if rest.len() == 0 {
        assert(all.drop_last() =~= Seq::<StreamItem<T>>::empty());
        assert(after_items(latest, true, Seq::<StreamItem<T>>::empty()) == (latest, true));
        assert(all.last() == stop);
    } else {
        assert(all.drop_last() =~= seq![stop] + rest.drop_last());
        assert(all.last() == rest.last());
        law_stop_is_final(latest, stop, rest.drop_last());
    }
}

} // verus!
