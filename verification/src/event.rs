use vstd::prelude::*;

verus! {

/// The key that was pressed.
#[derive(Clone, Copy, Debug, PartialEq, Eq, Structural)]
pub enum KeyCode {
    Char(char),
    Up,
    Down,
    Enter,
    Esc,
    /// Any key the components do not tell apart.
    Other,
}

/// The modifier keys held down with a key.
#[derive(Clone, Copy, Debug, PartialEq, Eq, Structural)]
pub struct Modifiers {
    pub ctrl: bool,
    pub alt: bool,
    pub shift: bool,
}

impl Modifiers {
    /// No modifier held.
    pub open spec fn none_spec() -> Modifiers {
        Modifiers { ctrl: false, alt: false, shift: false }
    }

    /// No modifier held.
    #[verifier::when_used_as_spec(none_spec)]
    pub fn none() -> (m: Modifiers)
        ensures
            m == Modifiers::none_spec(),
    {
        Modifiers { ctrl: false, alt: false, shift: false }
    }

    /// Only the control key held.
    pub open spec fn control_spec() -> Modifiers {
        Modifiers { ctrl: true, alt: false, shift: false }
    }

    /// Only the control key held.
    #[verifier::when_used_as_spec(control_spec)]
    pub fn control() -> (m: Modifiers)
        ensures
            m == Modifiers::control_spec(),
    {
        Modifiers { ctrl: true, alt: false, shift: false }
    }
}

/// One external occurrence fed into the loop.
#[derive(Clone, Copy, Debug, PartialEq, Eq, Structural)]
pub enum Event {
    /// The periodic timer fired.
    Tick,
    /// A key was pressed.
    Key(KeyCode, Modifiers),
    /// The terminal now has this width and height.
    Resize(u16, u16),
    /// The application was asked to terminate from outside.
    Quit,
}

/// The mathematical model of an event handler: its tick configuration, the
/// time at which the next tick is due, and the events that wait in arrival
/// order.
pub struct Stream {
    pub tick_rate_ms: u64,
    pub next_tick_ms: u64,
    pub queue: Seq<Event>,
    pub closed: bool,
}

/// One delivery by a producer: the timer reporting the time, or the input
/// listener reporting an event.
pub enum Feed {
    Timer(u64),
    Input(Event),
}

impl Stream {
    /// Whether the timer owes a tick at time `now_ms`. A rate of zero means
    /// that there is no periodic tick at all.
    pub open spec fn tick_due(self, now_ms: u64) -> bool {
        !self.closed && self.tick_rate_ms > 0 && now_ms >= self.next_tick_ms
    }

    /// The stream after the timer has reported the time `now_ms`: where a
    /// tick is due, one `Tick` joins the back of the queue and the next one
    /// falls due a full period later.
    pub open spec fn advanced(self, now_ms: u64) -> Stream {
        if self.tick_due(now_ms) {
            Stream {
                next_tick_ms: if now_ms + self.tick_rate_ms > u64::MAX {
                    u64::MAX
                } else {
                    (now_ms + self.tick_rate_ms) as u64
                },
                queue: self.queue.push(Event::Tick),
                ..self
            }
        } else {
            self
        }
    }

    /// The stream after the input listener has delivered `event`. A closed
    /// stream takes nothing more.
    pub open spec fn pushed(self, event: Event) -> Stream {
        if self.closed {
            self
        } else {
            Stream { queue: self.queue.push(event), ..self }
        }
    }

    /// The stream after both producers have been cancelled.
    pub open spec fn shut(self) -> Stream {
        Stream { closed: true, ..self }
    }

    /// The event that `next` hands out: the oldest waiting one; `Quit` where
    /// nothing waits and the stream is closed; none where the caller would
    /// have to wait.
    pub open spec fn front(self) -> Option<Event> {
        if self.queue.len() > 0 {
            Some(self.queue[0])
        } else if self.closed {
            Some(Event::Quit)
        } else {
            None
        }
    }

    /// The stream without its `n` oldest waiting events.
    pub open spec fn dropped(self, n: nat) -> Stream {
        Stream {
            queue: if n <= self.queue.len() {
                self.queue.skip(n as int)
            } else {
                Seq::empty()
            },
            ..self
        }
    }

    /// The stream with another queue.
    pub open spec fn with_queue(self, queue: Seq<Event>) -> Stream {
        Stream { queue, ..self }
    }

    /// Everything a consumer can take without waiting: the waiting events in
    /// order and, where the stream is closed, the final `Quit`.
    pub open spec fn feed(self) -> Seq<Event> {
        if self.closed {
            self.queue.push(Event::Quit)
        } else {
            self.queue
        }
    }

    /// The stream after a series of deliveries, in the given order.
    pub open spec fn fed(self, feeds: Seq<Feed>) -> Stream
        decreases feeds.len(),
    {
        if feeds.len() == 0 {
            self
        } else {
            let before = self.fed(feeds.drop_last());
            match feeds.last() {
                Feed::Timer(now_ms) => before.advanced(now_ms),
                Feed::Input(event) => before.pushed(event),
            }
        }
    }
}

/// The events that the input listener delivered among `feeds`, in order.
pub open spec fn inputs(feeds: Seq<Feed>) -> Seq<Event>
    decreases feeds.len(),
{
    if feeds.len() == 0 {
        Seq::empty()
    } else {
        match feeds.last() {
            Feed::Timer(_) => inputs(feeds.drop_last()),
            Feed::Input(event) => inputs(feeds.drop_last()).push(event),
        }
    }
}

/// With a tick rate of zero the timer never adds an event: whatever the
/// producers deliver and in whatever order, the queue grows by exactly the
/// input events, in their order of arrival.
pub proof fn zero_rate_never_ticks(stream: Stream, feeds: Seq<Feed>)
    requires
        stream.tick_rate_ms == 0,
        !stream.closed,
    ensures
        stream.fed(feeds) == (Stream { queue: stream.queue + inputs(feeds), ..stream }),
    decreases feeds.len(),
{
    if feeds.len() == 0 {
        assert(stream.queue + inputs(feeds) =~= stream.queue);
    } else {
        zero_rate_never_ticks(stream, feeds.drop_last());
        let before = stream.fed(feeds.drop_last());
        match feeds.last() {
            Feed::Timer(now_ms) => {},
            Feed::Input(event) => {
                assert(before.queue.push(event) =~= stream.queue + inputs(feeds));
            },
        }
    }
}

/// Events leave in the order in which they arrived: after any deliveries the
/// queue still starts with what waited before them.
pub proof fn arrival_order_is_kept(stream: Stream, feeds: Seq<Feed>)
    ensures
        stream.fed(feeds).queue.len() >= stream.queue.len(),
        stream.fed(feeds).queue.take(stream.queue.len() as int) == stream.queue,
        stream.fed(feeds).closed == stream.closed,
        stream.fed(feeds).tick_rate_ms == stream.tick_rate_ms,
    decreases feeds.len(),
{
    if feeds.len() == 0 {
        assert(stream.queue.take(stream.queue.len() as int) =~= stream.queue);
    } else {
        arrival_order_is_kept(stream, feeds.drop_last());
        let before = stream.fed(feeds.drop_last());
        let after = stream.fed(feeds);
        assert(after.queue.take(stream.queue.len() as int) =~= before.queue.take(
            stream.queue.len() as int,
        ));
    }
}

/// The consumer's end of the merged event stream, with the tick
/// configuration. The timer and the input listener deliver through
/// `advance` and `push`; the loop takes events out with `next`.
#[derive(Debug)]
pub struct EventHandler {
    pub tick_rate_ms: u64,
    pub next_tick_ms: u64,
    pub queue: Vec<Event>,
    pub closed: bool,
}

impl View for EventHandler {
    type V = Stream;

    open spec fn view(&self) -> Stream {
        Stream {
            tick_rate_ms: self.tick_rate_ms,
            next_tick_ms: self.next_tick_ms,
            queue: self.queue@,
            closed: self.closed,
        }
    }
}

impl EventHandler {
    /// An open, empty stream bound to a tick rate. The first tick is due at
    /// once; a rate of zero switches the periodic tick off.
    pub fn new(tick_rate_ms: u64) -> (handler: EventHandler)
        ensures
            handler@ == (Stream {
                tick_rate_ms,
                next_tick_ms: 0,
                queue: Seq::empty(),
                closed: false,
            }),
    {
        EventHandler { tick_rate_ms, next_tick_ms: 0, queue: Vec::new(), closed: false }
    }

    /// The timer's delivery: queues one `Tick` if one is due at `now_ms`,
    /// and says whether it did.
    pub fn advance(&mut self, now_ms: u64) -> (ticked: bool)
        ensures
            final(self)@ == old(self)@.advanced(now_ms),
            ticked == old(self)@.tick_due(now_ms),
    {
        if !self.closed && self.tick_rate_ms > 0 && now_ms >= self.next_tick_ms {
            self.next_tick_ms = if now_ms > u64::MAX - self.tick_rate_ms {
                u64::MAX
            } else {
                now_ms + self.tick_rate_ms
            };
            self.queue.push(Event::Tick);
            true
        } else {
            false
        }
    }

    /// The input listener's delivery: queues `event` behind everything that
    /// waits, and says whether the stream took it.
    pub fn push(&mut self, event: Event) -> (taken: bool)
        ensures
            final(self)@ == old(self)@.pushed(event),
            taken == !old(self).closed,
    {
        if self.closed {
            false
        } else {
            self.queue.push(event);
            true
        }
    }

    /// Hands out the oldest waiting event. Where nothing waits, a closed
    /// stream answers `Quit`, and an open one answers `None`: the caller has
    /// to wait for a producer.
    pub fn next(&mut self) -> (event: Option<Event>)
        ensures
            event == old(self)@.front(),
            final(self)@ == old(self)@.dropped(1),
    {
        if self.queue.len() > 0 {
            let first = self.queue.remove(0);
            assert(self.queue@ =~= old(self).queue@.skip(1));
            Some(first)
        } else {
            assert(self.queue@ =~= Seq::empty());
            if self.closed {
                Some(Event::Quit)
            } else {
                None
            }
        }
    }

    /// Cancels both producers. What waits is still handed out; after it,
    /// every `next` answers `Quit`.
    pub fn close(&mut self)
        ensures
            final(self)@ == old(self)@.shut(),
    {
        self.closed = true;
    }

    /// How many events wait.
    pub fn pending(&self) -> (n: usize)
        ensures
            n == self@.queue.len(),
    {
        self.queue.len()
    }
}

} // verus!
