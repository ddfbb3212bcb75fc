//! Host input as typed events, and the single-slot bus that hands each
//! event to the one registered handler.
//!
//! The bus holds at most one handler. [`EventBus::register`] replaces it
//! (the last one registered wins) and each dispatch gives the event to it
//! synchronously. A dispatch that starts while another one on the same bus
//! is still running is refused with [`ReentrantDispatchError`] and changes
//! nothing.
//!
//! Hosts that keep the bus in shared storage dispatch in two halves:
//! [`EventBus::begin_dispatch`] lends the handler out, the host calls it with
//! the storage released, and [`EventBus::end_dispatch`] takes it back. A
//! handler that triggers another dispatch in between is refused, and it is
//! back in the slot when the outer dispatch ends. Once a handler is
//! registered the slot is never empty again outside a dispatch.
use vstd::prelude::*;

verus! {

/// One input report from the host.
#[derive(Clone, Copy, Debug)]
pub enum Event<'k> {
    KeyUp(&'k str),
    KeyDown(&'k str),
    /// Per-frame tick.
    Update,
    /// Fixed-timestep tick.
    FixedUpdate,
    /// New surface size in pixels: width, height.
    Resize(usize, usize),
    /// Touch released at x, y.
    TouchUp(usize, usize),
    /// Touch started at x, y.
    TouchDown(usize, usize),
    /// Mouse button released: primary button or not, x, y.
    MouseUp(bool, usize, usize),
    /// Mouse button pressed: primary button or not, x, y.
    MouseDown(bool, usize, usize),
}

/// An event as a value.
pub enum EventView {
    KeyUp(Seq<char>),
    KeyDown(Seq<char>),
    Update,
    FixedUpdate,
    Resize(usize, usize),
    TouchUp(usize, usize),
    TouchDown(usize, usize),
    MouseUp(bool, usize, usize),
    MouseDown(bool, usize, usize),
}

impl<'k> View for Event<'k> {
    type V = EventView;

    open spec fn view(&self) -> EventView {
        match *self {
            Event::KeyUp(s) => EventView::KeyUp(s@),
            Event::KeyDown(s) => EventView::KeyDown(s@),
            Event::Update => EventView::Update,
            Event::FixedUpdate => EventView::FixedUpdate,
            Event::Resize(w, h) => EventView::Resize(w, h),
            Event::TouchUp(x, y) => EventView::TouchUp(x, y),
            Event::TouchDown(x, y) => EventView::TouchDown(x, y),
            Event::MouseUp(p, x, y) => EventView::MouseUp(p, x, y),
            Event::MouseDown(p, x, y) => EventView::MouseDown(p, x, y),
        }
    }
}

/// Application code that consumes events.
pub trait Handler {
    /// The events this handler has been given, oldest first. A handler
    /// verified against this trait defines it; the default, no events,
    /// describes no handler that meets `handle`'s contract.
    closed spec fn received(&self) -> Seq<EventView> {
        Seq::empty()
    }

    fn handle(&mut self, event: Event<'_>)
        ensures
            final(self).received() == old(self).received().push(event@),
    ;
}

/// A dispatch was attempted while another dispatch on the same bus was
/// still running.
#[derive(Clone, Copy, Debug, PartialEq, Eq, Structural)]
pub struct ReentrantDispatchError;

/// What the handler in a slot, if any, has received; nothing for an empty slot.
pub open spec fn received_of<H: Handler>(slot: Option<H>) -> Seq<EventView> {
    match slot {
        Some(h) => h.received(),
        None => Seq::empty(),
    }
}

/// The state of a bus, as values.
pub struct BusState {
    /// A handler sits in the slot.
    pub occupied: bool,
    /// A dispatch is running.
    pub dispatching: bool,
    /// The running dispatch lent out the slot's handler.
    pub lent: bool,
    /// A handler was registered during the running dispatch.
    pub replaced: bool,
    /// What the handler in the slot has received, oldest first.
    pub received: Seq<EventView>,
}

impl BusState {
    /// A bus with no handler: dispatching does nothing.
    pub open spec fn initial() -> BusState {
        BusState {
            occupied: false,
            dispatching: false,
            lent: false,
            replaced: false,
            received: Seq::empty(),
        }
    }

    /// Registering a handler that has received `received` so far.
    pub open spec fn registered(self, received: Seq<EventView>) -> BusState {
        BusState { occupied: true, replaced: self.dispatching, received, ..self }
    }

    /// Starting a dispatch: refused while one runs; otherwise the handler
    /// leaves the slot for the duration.
    pub open spec fn begun(self) -> BusState {
        if self.dispatching {
            self
        } else {
            BusState {
                occupied: false,
                dispatching: true,
                lent: self.occupied,
                replaced: false,
                received: Seq::empty(),
            }
        }
    }

    /// Ending the running dispatch; the lent handler comes back having
    /// received `returned`. A handler registered meanwhile keeps the slot.
    pub open spec fn ended(self, returned: Seq<EventView>) -> BusState {
        if self.replaced {
            BusState { dispatching: false, lent: false, replaced: false, ..self }
        } else {
            BusState {
                occupied: self.lent,
                dispatching: false,
                lent: false,
                replaced: false,
                received: if self.lent {
                    returned
                } else {
                    Seq::empty()
                },
            }
        }
    }

    /// A whole dispatch of `e`: refused while one runs, otherwise the
    /// handler in the slot, if any, receives `e` and stays.
    pub open spec fn dispatched(self, e: EventView) -> BusState {
        if self.dispatching || !self.occupied {
            self
        } else {
            BusState { received: self.received.push(e), ..self }
        }
    }
}

/// The bus after dispatching `events` one after another.
pub open spec fn after_dispatches(s: BusState, events: Seq<EventView>) -> BusState
    decreases events.len(),
{
    if events.len() == 0 {
        s
    } else {
        after_dispatches(s.dispatched(events[0]), events.drop_first())
    }
}

/// Events dispatched one after another reach the registered handler exactly
/// once each, in the order they were dispatched, with their payloads.
pub proof fn lemma_dispatch_keeps_order(s: BusState, events: Seq<EventView>)
    requires
        s.occupied,
        !s.dispatching,
    ensures
        after_dispatches(s, events).received == s.received + events,
        after_dispatches(s, events).occupied,
        !after_dispatches(s, events).dispatching,
    decreases events.len(),
{
    if events.len() == 0 {
        assert(s.received + events =~= s.received);
    } else {
        let t = s.dispatched(events[0]);
        lemma_dispatch_keeps_order(t, events.drop_first());
        assert(s.received + events =~= t.received + events.drop_first());
    }
}

/// While a dispatch has the handler lent out, a second dispatch is refused
/// and changes nothing. When the running dispatch hands the handler back,
/// having received the outer event, that handler is in the slot again and
/// receives the next event.
pub proof fn lemma_reentrant_dispatch_refused(
    s: BusState,
    outer: EventView,
    inner: EventView,
    next: EventView,
)
    requires
        s.occupied,
        !s.dispatching,
    ensures
        s.begun().dispatching,
        s.begun().lent,
        s.begun().dispatched(inner) == s.begun(),
        s.begun().begun() == s.begun(),
        s.begun().ended(s.received.push(outer)).occupied,
        !s.begun().ended(s.received.push(outer)).dispatching,
        s.begun().ended(s.received.push(outer)).dispatched(next).received == s.received.push(
            outer,
        ).push(next),
{
}

/// After one handler and then another are registered, every event
/// dispatched goes to the second one, in order.
pub proof fn lemma_register_replaces(
    s: BusState,
    first: Seq<EventView>,
    second: Seq<EventView>,
    events: Seq<EventView>,
)
    requires
        !s.dispatching,
    ensures
        after_dispatches(s.registered(first).registered(second), events).received == second
            + events,
{
    lemma_dispatch_keeps_order(s.registered(first).registered(second), events);
}

/// A single-slot event dispatcher.
pub struct EventBus<H> {
    slot: Option<H>,
    dispatching: bool,
    replaced: bool,
    lent: Ghost<bool>,
}

impl<H: Handler> View for EventBus<H> {
    type V = BusState;

    closed spec fn view(&self) -> BusState {
        BusState {
            occupied: self.slot is Some,
            dispatching: self.dispatching,
            lent: self.dispatching && self.lent@,
            replaced: self.dispatching && self.replaced,
            received: received_of(self.slot),
        }
    }
}

/// A dispatch of `e` from `before` to `after`: unless refused, the handler
/// that was in the slot is there again and has received `e`.
pub open spec fn handler_got<H: Handler>(
    before: &EventBus<H>,
    after: &EventBus<H>,
    e: EventView,
) -> bool {
    !before@.dispatching && before.handler() is Some ==> {
        &&& after.handler() is Some
        &&& after.handler()->Some_0.received() == before.handler()->Some_0.received().push(e)
    }
}

impl<H: Handler> EventBus<H> {
    /// The handler in the slot; none while a dispatch has it lent out.
    pub closed spec fn handler(&self) -> Option<H> {
        self.slot
    }

    /// An empty bus.
    pub fn new() -> (r: EventBus<H>)
        ensures
            r@ == BusState::initial(),
    {
        EventBus { slot: None, dispatching: false, replaced: false, lent: Ghost(false) }
    }

    /// Puts `handler` in the slot, dropping the one there.
    pub fn register(&mut self, handler: H)
        ensures
            final(self)@ == old(self)@.registered(handler.received()),
            final(self).handler() == Some(handler),
    {
        self.slot = Some(handler);
        self.replaced = self.dispatching;
    }

    /// Whether a dispatch is running.
    pub fn is_dispatching(&self) -> (r: bool)
        ensures
            r == self@.dispatching,
    {
        self.dispatching
    }

    /// Starts a dispatch: lends out the handler in the slot, if any, for the
    /// caller to hand the event to. Refused while a dispatch runs.
    pub fn begin_dispatch(&mut self) -> (r: Result<Option<H>, ReentrantDispatchError>)
        ensures
            final(self)@ == old(self)@.begun(),
            r is Err <==> old(self)@.dispatching,
            r matches Ok(h) ==> h == old(self).handler(),
    {
        if self.dispatching {
            return Err(ReentrantDispatchError);
        }
        let lent = self.slot.take();
        self.dispatching = true;
        self.replaced = false;
        self.lent = Ghost(lent is Some);
        Ok(lent)
    }

    /// Ends the running dispatch, taking back the handler that
    /// [`EventBus::begin_dispatch`] lent out, if it lent one. If a handler
    /// was registered in the meantime, that one stays and `handler` is
    /// dropped.
    pub fn end_dispatch(&mut self, handler: Option<H>)
        requires
            old(self)@.dispatching,
            handler is Some <==> old(self)@.lent,
        ensures
            final(self)@ == old(self)@.ended(received_of(handler)),
            final(self).handler() == if old(self)@.replaced {
                old(self).handler()
            } else {
                handler
            },
    {
        if !self.replaced {
            self.slot = handler;
        }
        self.dispatching = false;
        self.replaced = false;
        self.lent = Ghost(false);
    }

    /// Hands `event` to the registered handler, if any, and waits for it.
    /// Refused while another dispatch on this bus runs.
    pub fn dispatch(&mut self, event: Event<'_>) -> (r: Result<(), ReentrantDispatchError>)
        ensures
            final(self)@ == old(self)@.dispatched(event@),
            handler_got(old(self), final(self), event@),
            r is Err <==> old(self)@.dispatching,
    {
        match self.begin_dispatch() {
            Err(e) => Err(e),
            Ok(None) => {
                self.end_dispatch(None);
                Ok(())
            },
            Ok(Some(mut handler)) => {
                handler.handle(event);
                self.end_dispatch(Some(handler));
                Ok(())
            },
        }
    }
}

/// Registers `function` as the bus's handler, replacing the previous one.
pub fn event<H: Handler>(bus: &mut EventBus<H>, function: H)
    ensures
        final(bus)@ == old(bus)@.registered(function.received()),
        final(bus).handler() == Some(function),
{
    bus.register(function);
}

/// Dispatches `Event::KeyUp(ev)`.
pub fn keyboard_event_up<H: Handler>(bus: &mut EventBus<H>, ev: &str) -> (r: Result<(), ReentrantDispatchError>)
    ensures
        final(bus)@ == old(bus)@.dispatched(EventView::KeyUp(ev@)),
        handler_got(old(bus), final(bus), EventView::KeyUp(ev@)),
        r is Err <==> old(bus)@.dispatching,
{
    bus.dispatch(Event::KeyUp(ev))
}

/// Dispatches `Event::KeyDown(ev)`.
pub fn keyboard_event_down<H: Handler>(bus: &mut EventBus<H>, ev: &str) -> (r: Result<(), ReentrantDispatchError>)
    ensures
        final(bus)@ == old(bus)@.dispatched(EventView::KeyDown(ev@)),
        handler_got(old(bus), final(bus), EventView::KeyDown(ev@)),
        r is Err <==> old(bus)@.dispatching,
{
    bus.dispatch(Event::KeyDown(ev))
}

/// Dispatches `Event::Update`.
pub fn update_event<H: Handler>(bus: &mut EventBus<H>) -> (r: Result<(), ReentrantDispatchError>)
    ensures
        final(bus)@ == old(bus)@.dispatched(EventView::Update),
        handler_got(old(bus), final(bus), EventView::Update),
        r is Err <==> old(bus)@.dispatching,
{
    bus.dispatch(Event::Update)
}

/// Dispatches `Event::FixedUpdate`.
pub fn fixed_update_event<H: Handler>(bus: &mut EventBus<H>) -> (r: Result<(), ReentrantDispatchError>)
    ensures
        final(bus)@ == old(bus)@.dispatched(EventView::FixedUpdate),
        handler_got(old(bus), final(bus), EventView::FixedUpdate),
        r is Err <==> old(bus)@.dispatching,
{
    bus.dispatch(Event::FixedUpdate)
}

/// Dispatches `Event::Resize(width, height)`.
pub fn resize_event<H: Handler>(bus: &mut EventBus<H>, width: usize, height: usize) -> (r: Result<(), ReentrantDispatchError>)
    ensures
        final(bus)@ == old(bus)@.dispatched(EventView::Resize(width, height)),
        handler_got(old(bus), final(bus), EventView::Resize(width, height)),
        r is Err <==> old(bus)@.dispatching,
{
    bus.dispatch(Event::Resize(width, height))
}

/// Dispatches `Event::TouchUp(x, y)`.
pub fn touch_event_up<H: Handler>(bus: &mut EventBus<H>, x: usize, y: usize) -> (r: Result<(), ReentrantDispatchError>)
    ensures
        final(bus)@ == old(bus)@.dispatched(EventView::TouchUp(x, y)),
        handler_got(old(bus), final(bus), EventView::TouchUp(x, y)),
        r is Err <==> old(bus)@.dispatching,
{
    bus.dispatch(Event::TouchUp(x, y))
}

/// Dispatches `Event::TouchDown(x, y)`.
pub fn touch_event_down<H: Handler>(bus: &mut EventBus<H>, x: usize, y: usize) -> (r: Result<(), ReentrantDispatchError>)
    ensures
        final(bus)@ == old(bus)@.dispatched(EventView::TouchDown(x, y)),
        handler_got(old(bus), final(bus), EventView::TouchDown(x, y)),
        r is Err <==> old(bus)@.dispatching,
{
    bus.dispatch(Event::TouchDown(x, y))
}

/// Dispatches `Event::MouseUp(is_primary, x, y)`.
pub fn mouse_event_up<H: Handler>(bus: &mut EventBus<H>, is_primary: bool, x: usize, y: usize) -> (r: Result<(), ReentrantDispatchError>)
    ensures
        final(bus)@ == old(bus)@.dispatched(EventView::MouseUp(is_primary, x, y)),
        handler_got(old(bus), final(bus), EventView::MouseUp(is_primary, x, y)),
        r is Err <==> old(bus)@.dispatching,
{
    bus.dispatch(Event::MouseUp(is_primary, x, y))
}

/// Dispatches `Event::MouseDown(is_primary, x, y)`.
pub fn mouse_event_down<H: Handler>(bus: &mut EventBus<H>, is_primary: bool, x: usize, y: usize) -> (r: Result<(), ReentrantDispatchError>)
    ensures
        final(bus)@ == old(bus)@.dispatched(EventView::MouseDown(is_primary, x, y)),
        handler_got(old(bus), final(bus), EventView::MouseDown(is_primary, x, y)),
        r is Err <==> old(bus)@.dispatching,
{
    bus.dispatch(Event::MouseDown(is_primary, x, y))
}

} // verus!
