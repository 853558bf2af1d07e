//! Virtual input: events queued by portal sessions and handed, in order,
//! to the compositor's input sink.

use vstd::prelude::*;
use crate::time::{Duration, Instant, MonotonicClock};
use crate::types::event::{Axis, ButtonState, Coord, InputEvent, KeyState};
use crate::types::session::SessionId;

verus! {

/// An input event from a session, stamped with when it was queued.
#[derive(Debug)]
pub struct VirtualInputEvent {
    /// The session that sent it.
    pub session_id: SessionId,
    /// The event.
    pub event: InputEvent,
    /// When it was queued.
    pub timestamp: Instant,
}

impl VirtualInputEvent {
    /// An event queued at `now`.
    pub fn new_at(session_id: SessionId, event: InputEvent, now: Instant) -> (r: VirtualInputEvent)
        ensures
            r.session_id == session_id,
            r.event == event,
            r.timestamp == now,
    {
        VirtualInputEvent { session_id, event, timestamp: now }
    }

    /// An event queued now, stamped with a new reading of `clock`.
    pub fn new(session_id: SessionId, event: InputEvent, clock: &mut MonotonicClock) -> (r:
        VirtualInputEvent)
        ensures
            r.session_id == session_id,
            r.event == event,
            r.timestamp.nanos == final(clock).last_reading(),
            final(clock).last_reading() >= old(clock).last_reading(),
            final(clock).same_clock(*old(clock)),
    {
        let now = clock.now();
        VirtualInputEvent::new_at(session_id, event, now)
    }

    /// How long the event has waited at `now` (zero if `now` is earlier).
    pub fn age_at(&self, now: Instant) -> (r: Duration)
        ensures
            r.nanos == if now.nanos >= self.timestamp.nanos {
                now.nanos - self.timestamp.nanos
            } else {
                0
            },
    {
        now.duration_since(self.timestamp)
    }

    /// How long the event has waited, at a new reading of `clock` (never
    /// earlier than the reading before, so a later age is never smaller).
    pub fn age(&self, clock: &mut MonotonicClock) -> (r: Duration)
        ensures
            final(clock).last_reading() >= old(clock).last_reading(),
            final(clock).same_clock(*old(clock)),
            r.nanos == if final(clock).last_reading() >= self.timestamp.nanos {
                final(clock).last_reading() - self.timestamp.nanos
            } else {
                0
            },
    {
        let now = clock.now();
        self.age_at(now)
    }
}

impl Clone for VirtualInputEvent {
    fn clone(&self) -> (r: VirtualInputEvent)
        ensures
            r.session_id@ == self.session_id@,
            r.event == self.event,
            r.timestamp == self.timestamp,
    {
        VirtualInputEvent {
            session_id: self.session_id.clone(),
            event: self.event,
            timestamp: self.timestamp,
        }
    }
}

/// Where virtual input goes: the compositor's input path. Each call hands
/// over one event; `delivered` is the sequence of events handed over so
/// far.
pub trait VirtualInputSink {
    /// The events handed over so far, in order.
    spec fn delivered(&self) -> Seq<InputEvent>;

    /// Relative pointer motion.
    fn inject_pointer_motion(&mut self, dx: Coord, dy: Coord)
        ensures
            final(self).delivered() == old(self).delivered().push(InputEvent::PointerMotion { dx, dy }),
    ;

    /// Absolute pointer motion within a stream.
    fn inject_pointer_motion_absolute(&mut self, stream: u32, x: Coord, y: Coord)
        ensures
            final(self).delivered() == old(self).delivered().push(
                InputEvent::PointerMotionAbsolute { stream, x, y },
            ),
    ;

    /// A pointer button.
    fn inject_pointer_button(&mut self, button: i32, state: ButtonState)
        ensures
            final(self).delivered() == old(self).delivered().push(
                InputEvent::PointerButton { button, state },
            ),
    ;

    /// Smooth scrolling.
    fn inject_pointer_axis(&mut self, dx: Coord, dy: Coord)
        ensures
            final(self).delivered() == old(self).delivered().push(InputEvent::PointerAxis { dx, dy }),
    ;

    /// Discrete scrolling.
    fn inject_pointer_axis_discrete(&mut self, axis: Axis, steps: i32)
        ensures
            final(self).delivered() == old(self).delivered().push(
                InputEvent::PointerAxisDiscrete { axis, steps },
            ),
    ;

    /// A key, by keycode.
    fn inject_keyboard_keycode(&mut self, keycode: i32, state: KeyState)
        ensures
            final(self).delivered() == old(self).delivered().push(
                InputEvent::KeyboardKeycode { keycode, state },
            ),
    ;

    /// A key, by keysym.
    fn inject_keyboard_keysym(&mut self, keysym: i32, state: KeyState)
        ensures
            final(self).delivered() == old(self).delivered().push(
                InputEvent::KeyboardKeysym { keysym, state },
            ),
    ;

    /// A finger down.
    fn inject_touch_down(&mut self, stream: u32, slot: u32, x: Coord, y: Coord)
        ensures
            final(self).delivered() == old(self).delivered().push(
                InputEvent::TouchDown { stream, slot, x, y },
            ),
    ;

    /// A finger moving.
    fn inject_touch_motion(&mut self, stream: u32, slot: u32, x: Coord, y: Coord)
        ensures
            final(self).delivered() == old(self).delivered().push(
                InputEvent::TouchMotion { stream, slot, x, y },
            ),
    ;

    /// A finger up.
    fn inject_touch_up(&mut self, slot: u32)
        ensures
            final(self).delivered() == old(self).delivered().push(InputEvent::TouchUp { slot }),
    ;
}

/// Hands `event` to the sink method for its kind.
fn dispatch_event<S: VirtualInputSink>(sink: &mut S, event: &InputEvent)
    ensures
        final(sink).delivered() == old(sink).delivered().push(*event),
{
    match *event {
        InputEvent::PointerMotion { dx, dy } => sink.inject_pointer_motion(dx, dy),
        InputEvent::PointerMotionAbsolute { stream, x, y } => sink.inject_pointer_motion_absolute(
            stream,
            x,
            y,
        ),
        InputEvent::PointerButton { button, state } => sink.inject_pointer_button(button, state),
        InputEvent::PointerAxis { dx, dy } => sink.inject_pointer_axis(dx, dy),
        InputEvent::PointerAxisDiscrete { axis, steps } => sink.inject_pointer_axis_discrete(
            axis,
            steps,
        ),
        InputEvent::KeyboardKeycode { keycode, state } => sink.inject_keyboard_keycode(
            keycode,
            state,
        ),
        InputEvent::KeyboardKeysym { keysym, state } => sink.inject_keyboard_keysym(keysym, state),
        InputEvent::TouchDown { stream, slot, x, y } => sink.inject_touch_down(stream, slot, x, y),
        InputEvent::TouchMotion { stream, slot, x, y } => sink.inject_touch_motion(
            stream,
            slot,
            x,
            y,
        ),
        InputEvent::TouchUp { slot } => sink.inject_touch_up(slot),
    }
}

/// The events of a list of queued events.
pub open spec fn events_of(v: Seq<VirtualInputEvent>) -> Seq<InputEvent> {
    v.map_values(|e: VirtualInputEvent| e.event)
}

/// The receiving end of the virtual input queue: a bounded queue of
/// events, how many have been handed to the sink, and when the last was.
#[derive(Debug)]
pub struct VirtualInput {
    pending: Vec<VirtualInputEvent>,
    capacity: usize,
    events_processed: u64,
    last_event_time: Option<Instant>,
    clock: MonotonicClock,
}

impl VirtualInput {
    /// The queued events, oldest first.
    pub closed spec fn queued(&self) -> Seq<VirtualInputEvent> {
        self.pending@
    }

    /// How many events the queue holds at most.
    pub closed spec fn spec_capacity(&self) -> nat {
        self.capacity as nat
    }

    /// How many events have been handed to the sink.
    pub closed spec fn processed(&self) -> u64 {
        self.events_processed
    }

    /// When the last event was handed over, if any was.
    pub closed spec fn last_time(&self) -> Option<Instant> {
        self.last_event_time
    }

    /// The clock `process_pending` stamps with.
    pub closed spec fn spec_clock(&self) -> MonotonicClock {
        self.clock
    }

    /// An empty queue holding up to `buffer_size` events (which must not
    /// be zero).
    pub fn new(buffer_size: usize) -> (r: VirtualInput)
        requires
            buffer_size > 0,
        ensures
            r.queued() == Seq::<VirtualInputEvent>::empty(),
            r.spec_capacity() == buffer_size,
            r.processed() == 0,
            r.last_time() is None,
    {
        VirtualInput {
            pending: Vec::new(),
            capacity: buffer_size,
            events_processed: 0,
            last_event_time: None,
            clock: MonotonicClock::start(),
        }
    }

    /// An empty queue of 256 events.
    pub fn with_defaults() -> (r: VirtualInput)
        ensures
            r.queued() == Seq::<VirtualInputEvent>::empty(),
            r.spec_capacity() == 256,
            r.processed() == 0,
            r.last_time() is None,
    {
        VirtualInput::new(256)
    }

    /// Queues an event if there is room; otherwise hands it back.
    pub fn try_submit(&mut self, event: VirtualInputEvent) -> (r: Result<(), VirtualInputEvent>)
        ensures
            final(self).spec_capacity() == old(self).spec_capacity(),
            final(self).spec_clock() == old(self).spec_clock(),
            final(self).processed() == old(self).processed(),
            final(self).last_time() == old(self).last_time(),
            old(self).queued().len() < old(self).spec_capacity() ==> r is Ok
                && final(self).queued() == old(self).queued().push(event),
            old(self).queued().len() >= old(self).spec_capacity() ==> r == Err::<(), VirtualInputEvent>(
                event,
            ) && final(self).queued() == old(self).queued(),
    {
        if self.pending.len() < self.capacity {
            self.pending.push(event);
            Ok(())
        } else {
            Err(event)
        }
    }

    /// Takes the oldest queued event, if any.
    pub fn try_recv(&mut self) -> (r: Option<VirtualInputEvent>)
        ensures
            final(self).spec_capacity() == old(self).spec_capacity(),
            final(self).spec_clock() == old(self).spec_clock(),
            final(self).processed() == old(self).processed(),
            final(self).last_time() == old(self).last_time(),
            old(self).queued().len() == 0 ==> r is None && final(self).queued() == old(self).queued(),
            old(self).queued().len() > 0 ==> r == Some(old(self).queued()[0])
                && final(self).queued() == old(self).queued().drop_first(),
    {
        if self.pending.len() == 0 {
            None
        } else {
            Some(self.pending.remove(0))
        }
    }

    /// Hands every queued event to `sink`, oldest first, at `now`; returns
    /// how many there were.
    pub fn process_pending_at<S: VirtualInputSink>(&mut self, sink: &mut S, now: Instant) -> (r:
        usize)
        requires
            old(self).processed() + old(self).queued().len() <= u64::MAX,
        ensures
            r == old(self).queued().len(),
            final(self).queued() == Seq::<VirtualInputEvent>::empty(),
            final(sink).delivered() == old(sink).delivered() + events_of(old(self).queued()),
            final(self).processed() == old(self).processed() + r,
            final(self).last_time() == if r > 0 {
                Some(now)
            } else {
                old(self).last_time()
            },
            final(self).spec_capacity() == old(self).spec_capacity(),
            final(self).spec_clock() == old(self).spec_clock(),
    {
        let ghost all = self.pending@;
        let ghost start = sink.delivered();
        let total = self.pending.len();
        let mut count: usize = 0;
        assert(events_of(all.take(0)) =~= Seq::<InputEvent>::empty());
        assert(all.skip(0) =~= all);
        while self.pending.len() > 0
            invariant
                all.len() <= u64::MAX - old(self).processed(),
                total == all.len(),
                count <= all.len(),
                self.pending@ == all.skip(count as int),
                sink.delivered() == start + events_of(all.take(count as int)),
                self.events_processed == old(self).processed() + count,
                self.capacity == old(self).spec_capacity(),
                self.clock == old(self).spec_clock(),
                self.last_event_time == if count > 0 {
                    Some(now)
                } else {
                    old(self).last_time()
                },
            decreases self.pending@.len(),
        {
            let ev = self.pending.remove(0);
            dispatch_event(sink, &ev.event);
            proof {
                assert(ev == all[count as int]);
                assert(all.take(count + 1) =~= all.take(count as int).push(all[count as int]));
                assert(events_of(all.take(count + 1)) =~= events_of(all.take(count as int)).push(
                    ev.event,
                ));
                assert(all.skip(count as int).drop_first() =~= all.skip(count + 1));
            }
            self.events_processed = self.events_processed + 1;
            self.last_event_time = Some(now);
            count = count + 1;
        }
        assert(all.take(count as int) =~= all);
        count
    }

    /// Hands every queued event to `sink`, oldest first, stamping the time
    /// with a new reading of the queue's monotonic clock; returns how many
    /// there were.
    pub fn process_pending<S: VirtualInputSink>(&mut self, sink: &mut S) -> (r: usize)
        requires
            old(self).processed() + old(self).queued().len() <= u64::MAX,
        ensures
            r == old(self).queued().len(),
            final(self).queued() == Seq::<VirtualInputEvent>::empty(),
            final(sink).delivered() == old(sink).delivered() + events_of(old(self).queued()),
            final(self).processed() == old(self).processed() + r,
            final(self).spec_clock().last_reading() >= old(self).spec_clock().last_reading(),
            final(self).spec_clock().same_clock(old(self).spec_clock()),
            r > 0 ==> final(self).last_time() == Some(
                Instant { nanos: final(self).spec_clock().last_reading() },
            ),
            r == 0 ==> final(self).last_time() == old(self).last_time(),
    {
        let now = self.clock.now();
        self.process_pending_at(sink, now)
    }

    /// How many events have been handed to the sink.
    pub fn events_processed(&self) -> (r: u64)
        ensures
            r == self.processed(),
    {
        self.events_processed
    }

    /// How long ago, at `now`, the last event was handed over.
    pub fn time_since_last_event_at(&self, now: Instant) -> (r: Option<Duration>)
        ensures
            match self.last_time() {
                None => r is None,
                Some(t) => r matches Some(d) && d.nanos == if now.nanos >= t.nanos {
                    now.nanos - t.nanos
                } else {
                    0
                },
            },
    {
        match self.last_event_time {
            None => None,
            Some(t) => Some(now.duration_since(t)),
        }
    }

    /// How long ago the last event was handed over, by the queue's
    /// monotonic clock: none before the first event, else the time since it
    /// at a reading no earlier than the clock's latest.
    pub fn time_since_last_event(&self) -> (r: Option<Duration>)
        ensures
            self.last_time() is None ==> r is None,
            self.last_time() matches Some(t) ==> (r matches Some(d) && exists|now: Instant|
                (#[trigger] now.nanos) >= self.spec_clock().last_reading() && d.nanos == if now.nanos
                    >= t.nanos {
                    now.nanos - t.nanos
                } else {
                    0
                }),
    {
        let mut clock = self.clock;
        let now = clock.now();
        self.time_since_last_event_at(now)
    }
}

/// A sink that records every event it is handed.
#[derive(Debug)]
pub struct MockVirtualInputSink {
    /// The events received, in order.
    pub events: Vec<InputEvent>,
}

impl MockVirtualInputSink {
    /// A sink that has received nothing.
    pub fn new() -> (r: MockVirtualInputSink)
        ensures
            r.events@ == Seq::<InputEvent>::empty(),
    {
        MockVirtualInputSink { events: Vec::new() }
    }
}

impl VirtualInputSink for MockVirtualInputSink {
    open spec fn delivered(&self) -> Seq<InputEvent> {
        self.events@
    }

    fn inject_pointer_motion(&mut self, dx: Coord, dy: Coord) {
        self.events.push(InputEvent::PointerMotion { dx, dy });
    }

    fn inject_pointer_motion_absolute(&mut self, stream: u32, x: Coord, y: Coord) {
        self.events.push(InputEvent::PointerMotionAbsolute { stream, x, y });
    }

    fn inject_pointer_button(&mut self, button: i32, state: ButtonState) {
        self.events.push(InputEvent::PointerButton { button, state });
    }

    fn inject_pointer_axis(&mut self, dx: Coord, dy: Coord) {
        self.events.push(InputEvent::PointerAxis { dx, dy });
    }

    fn inject_pointer_axis_discrete(&mut self, axis: Axis, steps: i32) {
        self.events.push(InputEvent::PointerAxisDiscrete { axis, steps });
    }

    fn inject_keyboard_keycode(&mut self, keycode: i32, state: KeyState) {
        self.events.push(InputEvent::KeyboardKeycode { keycode, state });
    }

    fn inject_keyboard_keysym(&mut self, keysym: i32, state: KeyState) {
        self.events.push(InputEvent::KeyboardKeysym { keysym, state });
    }

    fn inject_touch_down(&mut self, stream: u32, slot: u32, x: Coord, y: Coord) {
        self.events.push(InputEvent::TouchDown { stream, slot, x, y });
    }

    fn inject_touch_motion(&mut self, stream: u32, slot: u32, x: Coord, y: Coord) {
        self.events.push(InputEvent::TouchMotion { stream, slot, x, y });
    }

    fn inject_touch_up(&mut self, slot: u32) {
        self.events.push(InputEvent::TouchUp { slot });
    }
}

} // verus!
