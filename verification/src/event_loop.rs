//! The event loop as a state machine that tells its driver what to ask of
//! the host next, and turns the host's replies into events.
//!
//! The driver owns the blocking. It calls [`EventLoop::step`] with the
//! host's reply to the previous action and performs the action that comes
//! back: it hands an event to the consumer, waits, subscribes to the four
//! event sources of the surface, polls them, or fetches a key.

use vstd::prelude::*;
use crate::event::{ElementState, Event, WindowEvent, WindowId};
use crate::keyboard::HostKeyEvent;
use crate::translator::{key_input, key_input_spec, translate_spec, LoopError, ReadySet};
use crate::window::{main_window_id, SurfaceHandle};

verus! {

/// How long the loop lets the host settle between its two lifecycle
/// notifications, in nanoseconds.
pub const SETTLE_NANOS: u64 = 500_000_000;

/// What the loop hands to window builders: the slot for the one surface.
#[derive(Debug, PartialEq, Eq, Structural)]
pub struct EventLoopWindowTarget {
    wasi_surface: Option<SurfaceHandle>,
}

impl EventLoopWindowTarget {
    /// The registered surface, if there is one.
    pub closed spec fn surface(&self) -> Option<SurfaceHandle> {
        self.wasi_surface
    }

    /// A target with no surface yet.
    pub fn new() -> (target: Self)
        ensures
            target.surface() is None,
    {
        EventLoopWindowTarget { wasi_surface: None }
    }

    /// The registered surface, if there is one.
    pub fn registered_surface(&self) -> (surface: Option<SurfaceHandle>)
        ensures
            surface == self.surface(),
    {
        self.wasi_surface
    }

    /// Registers the surface, once: with a surface already there nothing
    /// changes and the answer is `false`.
    pub fn register(&mut self, surface: SurfaceHandle) -> (registered: bool)
        ensures
            registered == (old(self).surface() is None),
            registered ==> final(self).surface() == Some(surface),
            !registered ==> *final(self) == *old(self),
    {
        if self.wasi_surface.is_none() {
            self.wasi_surface = Some(surface);
            true
        } else {
            false
        }
    }

    /// Asks the loop to end. The loop has no exit: it runs until the host
    /// tears the process down, and the request changes nothing.
    pub fn exit(&self) {
    }
}

/// Spins through `milis` iterations and returns.
pub fn sleep(milis: u32) {
    let mut i: u32 = 0;
    while i < milis
        invariant
            i <= milis,
        decreases milis - i,
    {
        i += 1;
    }
}

/// What the driver is to do next.
#[derive(Debug, Clone, Copy, PartialEq, Eq, Structural)]
pub enum LoopAction {
    /// Hand the event to the consumer, with the loop's window target.
    Deliver(Event),
    /// Park for this many nanoseconds.
    Wait(u64),
    /// Subscribe to the surface's four sources, and keep the pollables in
    /// the order of the sources' positions.
    Subscribe(SurfaceHandle),
    /// Block until at least one of the four pollables is ready.
    Poll,
    /// Fetch from the surface the key that went down.
    GetKeyDown(SurfaceHandle),
    /// Fetch from the surface the key that came up.
    GetKeyUp(SurfaceHandle),
}

/// What the host had to say to the action before.
#[derive(Debug, Clone, PartialEq, Eq)]
pub enum HostReply {
    /// The action is done and has nothing to report. It is also what
    /// starts a new loop.
    Completed,
    /// The poll returned, with the positions of the ready pollables.
    Ready(Vec<u32>),
    /// The poll failed.
    PollFailed,
    /// The key that the host handed out, if it had one.
    Key(Option<HostKeyEvent>),
}

/// Where the loop stands: which action it handed out last. From
/// `Subscribing` on the phase holds the surface that the loop found in the
/// slot when it resumed, and the loop stays with that surface.
#[derive(Debug, Clone, Copy, PartialEq, Eq, Structural)]
pub enum LoopPhase {
    /// Nothing was handed out yet.
    Created,
    /// The loop-starting notification is with the consumer.
    Starting,
    /// The driver is waiting for the host to settle.
    Settling,
    /// The loop-resumed notification is with the consumer.
    Resuming,
    /// The driver is subscribing to the surface's sources.
    Subscribing { surface: SurfaceHandle },
    /// The driver is blocked in the poll.
    Polling { surface: SurfaceHandle },
    /// The driver is fetching the key that went down.
    KeyDown { surface: SurfaceHandle, ready: ReadySet },
    /// The driver is fetching the key that came up; `pending` is what the
    /// key-down source was worth.
    KeyUp { surface: SurfaceHandle, ready: ReadySet, pending: Option<WindowEvent> },
    /// A window event is with the consumer.
    Delivering { surface: SurfaceHandle },
    /// The loop stopped with this error, and answers every reply with it.
    Failed(LoopError),
}

/// A window event, tagged with the window it belongs to.
pub open spec fn tagged(event: WindowEvent) -> Event {
    Event::WindowEvent { window_id: main_window_id(), event }
}

/// The end of a wake-up: `pending` is what the key sources were worth. The
/// frame source counts only where they were worth nothing; with no event
/// at all the loop polls again.
pub open spec fn conclude_spec(
    surface: SurfaceHandle,
    ready: ReadySet,
    pending: Option<WindowEvent>,
) -> (LoopPhase, LoopAction) {
    match pending {
        Some(event) => (LoopPhase::Delivering { surface }, LoopAction::Deliver(tagged(event))),
        None => if ready.frame {
            (
                LoopPhase::Delivering { surface },
                LoopAction::Deliver(tagged(WindowEvent::RedrawRequested)),
            )
        } else {
            (LoopPhase::Polling { surface }, LoopAction::Poll)
        },
    }
}

/// After the key-down source: fetch the key that came up if its source is
/// ready too, else conclude.
pub open spec fn after_key_down_spec(
    surface: SurfaceHandle,
    ready: ReadySet,
    pending: Option<WindowEvent>,
) -> (LoopPhase, LoopAction) {
    if ready.key_up {
        (LoopPhase::KeyUp { surface, ready, pending }, LoopAction::GetKeyUp(surface))
    } else {
        conclude_spec(surface, ready, pending)
    }
}

/// After the poll: fetch a key for each key source that is ready, key-down
/// first.
pub open spec fn after_poll_spec(surface: SurfaceHandle, ready: ReadySet) -> (
    LoopPhase,
    LoopAction,
) {
    if ready.key_down {
        (LoopPhase::KeyDown { surface, ready }, LoopAction::GetKeyDown(surface))
    } else {
        after_key_down_spec(surface, ready, None)
    }
}

/// The transition function of the loop: from the phase, the surface slot
/// and the host's reply to the next phase and the action to perform, or to
/// the error that stops the loop. The slot is read once, when the loop has
/// resumed.
pub open spec fn step_spec(phase: LoopPhase, slot: Option<SurfaceHandle>, reply: HostReply)
    -> Result<(LoopPhase, LoopAction), LoopError> {
    match (phase, reply) {
        (LoopPhase::Failed(error), _) => Err(error),
        (LoopPhase::Created, HostReply::Completed) => Ok(
            (LoopPhase::Starting, LoopAction::Deliver(Event::NewEvents)),
        ),
        (LoopPhase::Starting, HostReply::Completed) => Ok(
            (LoopPhase::Settling, LoopAction::Wait(SETTLE_NANOS)),
        ),
        (LoopPhase::Settling, HostReply::Completed) => Ok(
            (LoopPhase::Resuming, LoopAction::Deliver(Event::Resumed)),
        ),
        (LoopPhase::Resuming, HostReply::Completed) => match slot {
            Some(surface) => Ok(
                (LoopPhase::Subscribing { surface }, LoopAction::Subscribe(surface)),
            ),
            None => Err(LoopError::NoSurface),
        },
        (LoopPhase::Subscribing { surface }, HostReply::Completed) => Ok(
            (LoopPhase::Polling { surface }, LoopAction::Poll),
        ),
        (LoopPhase::Polling { surface }, HostReply::Ready(indices)) => Ok(
            after_poll_spec(surface, ReadySet::of(indices@)),
        ),
        (LoopPhase::Polling { .. }, HostReply::PollFailed) => Err(LoopError::PollFailed),
        (LoopPhase::KeyDown { surface, ready }, HostReply::Key(Some(key))) => Ok(
            after_key_down_spec(surface, ready, key_input_spec(key, ElementState::Pressed)),
        ),
        (LoopPhase::KeyUp { surface, ready, pending }, HostReply::Key(Some(key))) => Ok(
            conclude_spec(
                surface,
                ready,
                if pending is Some {
                    pending
                } else {
                    key_input_spec(key, ElementState::Released)
                },
            ),
        ),
        (LoopPhase::KeyDown { .. }, HostReply::Key(None)) => Err(LoopError::MissingKey),
        (LoopPhase::KeyUp { .. }, HostReply::Key(None)) => Err(LoopError::MissingKey),
        (LoopPhase::Delivering { surface }, HostReply::Completed) => Ok(
            (LoopPhase::Polling { surface }, LoopAction::Poll),
        ),
        _ => Err(LoopError::UnexpectedReply),
    }
}

fn conclude(surface: SurfaceHandle, ready: ReadySet, pending: Option<WindowEvent>) -> (next: (
    LoopPhase,
    LoopAction,
))
    ensures
        next == conclude_spec(surface, ready, pending),
{
    let event = match pending {
        Some(event) => event,
        None => {
            if !ready.frame {
                return (LoopPhase::Polling { surface }, LoopAction::Poll);
            }
            WindowEvent::RedrawRequested
        },
    };
    (
        LoopPhase::Delivering { surface },
        LoopAction::Deliver(Event::WindowEvent { window_id: WindowId(0), event }),
    )
}

fn after_key_down(surface: SurfaceHandle, ready: ReadySet, pending: Option<WindowEvent>) -> (next:
    (LoopPhase, LoopAction))
    ensures
        next == after_key_down_spec(surface, ready, pending),
{
    if ready.key_up {
        (LoopPhase::KeyUp { surface, ready, pending }, LoopAction::GetKeyUp(surface))
    } else {
        conclude(surface, ready, pending)
    }
}

/// Computes one transition of the loop.
pub fn transition(phase: LoopPhase, slot: Option<SurfaceHandle>, reply: HostReply) -> (next: Result<
    (LoopPhase, LoopAction),
    LoopError,
>)
    ensures
        next == step_spec(phase, slot, reply),
{
    match phase {
        LoopPhase::Failed(error) => Err(error),
        LoopPhase::Created => match reply {
            HostReply::Completed => Ok(
                (LoopPhase::Starting, LoopAction::Deliver(Event::NewEvents)),
            ),
            _ => Err(LoopError::UnexpectedReply),
        },
        LoopPhase::Starting => match reply {
            HostReply::Completed => Ok((LoopPhase::Settling, LoopAction::Wait(SETTLE_NANOS))),
            _ => Err(LoopError::UnexpectedReply),
        },
        LoopPhase::Settling => match reply {
            HostReply::Completed => Ok((LoopPhase::Resuming, LoopAction::Deliver(Event::Resumed))),
            _ => Err(LoopError::UnexpectedReply),
        },
        LoopPhase::Resuming => match reply {
            HostReply::Completed => match slot {
                Some(surface) => Ok(
                    (LoopPhase::Subscribing { surface }, LoopAction::Subscribe(surface)),
                ),
                None => Err(LoopError::NoSurface),
            },
            _ => Err(LoopError::UnexpectedReply),
        },
        LoopPhase::Subscribing { surface } => match reply {
            HostReply::Completed => Ok((LoopPhase::Polling { surface }, LoopAction::Poll)),
            _ => Err(LoopError::UnexpectedReply),
        },
        LoopPhase::Polling { surface } => match reply {
            HostReply::Ready(indices) => {
                let ready = ReadySet::from_indices(&indices);
                if ready.key_down {
                    Ok((LoopPhase::KeyDown { surface, ready }, LoopAction::GetKeyDown(surface)))
                } else {
                    Ok(after_key_down(surface, ready, None))
                }
            },
            HostReply::PollFailed => Err(LoopError::PollFailed),
            _ => Err(LoopError::UnexpectedReply),
        },
        LoopPhase::KeyDown { surface, ready } => match reply {
            HostReply::Key(Some(key)) => Ok(
                after_key_down(surface, ready, key_input(key, ElementState::Pressed)),
            ),
            HostReply::Key(None) => Err(LoopError::MissingKey),
            _ => Err(LoopError::UnexpectedReply),
        },
        LoopPhase::KeyUp { surface, ready, pending } => match reply {
            HostReply::Key(Some(key)) => {
                let event = if pending.is_some() {
                    pending
                } else {
                    key_input(key, ElementState::Released)
                };
                Ok(conclude(surface, ready, event))
            },
            HostReply::Key(None) => Err(LoopError::MissingKey),
            _ => Err(LoopError::UnexpectedReply),
        },
        LoopPhase::Delivering { surface } => match reply {
            HostReply::Completed => Ok((LoopPhase::Polling { surface }, LoopAction::Poll)),
            _ => Err(LoopError::UnexpectedReply),
        },
    }
}

/// The event loop: the window target and the phase the loop is in.
#[derive(Debug, PartialEq, Eq, Structural)]
pub struct EventLoop {
    window_target: EventLoopWindowTarget,
    phase: LoopPhase,
}

impl EventLoop {
    /// The phase the loop is in, as a specification value.
    pub closed spec fn spec_phase(&self) -> LoopPhase {
        self.phase
    }

    /// The window target, as a specification value.
    pub closed spec fn spec_target(&self) -> EventLoopWindowTarget {
        self.window_target
    }

    /// A loop that has not started, with an empty surface slot.
    pub fn new() -> (result: Result<EventLoop, ()>)
        ensures
            result is Ok,
            result->Ok_0.spec_phase() == LoopPhase::Created,
            result->Ok_0.spec_target().surface() is None,
    {
        Ok(EventLoop { window_target: EventLoopWindowTarget::new(), phase: LoopPhase::Created })
    }

    /// The phase the loop is in.
    pub fn phase(&self) -> (phase: LoopPhase)
        ensures
            phase == self.spec_phase(),
    {
        self.phase
    }

    /// The window target of the loop.
    pub fn target(&self) -> (target: &EventLoopWindowTarget)
        ensures
            *target == self.spec_target(),
    {
        &self.window_target
    }

    /// The window target of the loop, for registering the surface. The
    /// phase stays as it is.
    pub fn target_mut(&mut self) -> (target: &mut EventLoopWindowTarget)
        ensures
            *target == old(self).spec_target(),
            final(self).spec_target() == *final(target),
            final(self).spec_phase() == old(self).spec_phase(),
    {
        &mut self.window_target
    }

    /// Takes the host's reply to the action handed out before, and hands
    /// out the next action. An error stops the loop for good. The window
    /// target is only read.
    pub fn step(&mut self, reply: HostReply) -> (result: Result<LoopAction, LoopError>)
        ensures
            final(self).spec_target() == old(self).spec_target(),
            match step_spec(old(self).spec_phase(), old(self).spec_target().surface(), reply) {
                Ok((phase, action)) => {
                    &&& result == Ok::<LoopAction, LoopError>(action)
                    &&& final(self).spec_phase() == phase
                },
                Err(error) => {
                    &&& result == Err::<LoopAction, LoopError>(error)
                    &&& final(self).spec_phase() == LoopPhase::Failed(error)
                },
            },
    {
        match transition(self.phase, self.window_target.registered_surface(), reply) {
            Ok((phase, action)) => {
                self.phase = phase;
                Ok(action)
            },
            Err(error) => {
                self.phase = LoopPhase::Failed(error);
                Err(error)
            },
        }
    }
}

/// Where the loop gets to on its way to the first poll, with `slot` being
/// what the surface slot holds: the four transitions that the driver's
/// first four `Completed` replies make.
pub open spec fn start_up(slot: Option<SurfaceHandle>) -> Result<
    (LoopPhase, LoopAction),
    LoopError,
> {
    match step_spec(LoopPhase::Created, slot, HostReply::Completed) {
        Ok((starting, _)) => match step_spec(starting, slot, HostReply::Completed) {
            Ok((settling, _)) => match step_spec(settling, slot, HostReply::Completed) {
                Ok((resuming, _)) => step_spec(resuming, slot, HostReply::Completed),
                Err(error) => Err(error),
            },
            Err(error) => Err(error),
        },
        Err(error) => Err(error),
    }
}

/// Where one wake-up takes the loop from the poll on `surface`: the
/// transition on the poll result, and then one on each key that the loop
/// asks for.
pub open spec fn wake_up(
    surface: SurfaceHandle,
    slot: Option<SurfaceHandle>,
    indices: Vec<u32>,
    key_down: Option<HostKeyEvent>,
    key_up: Option<HostKeyEvent>,
) -> Result<(LoopPhase, LoopAction), LoopError> {
    match step_spec(LoopPhase::Polling { surface }, slot, HostReply::Ready(indices)) {
        Ok((fetching, LoopAction::GetKeyDown(_))) => match step_spec(
            fetching,
            slot,
            HostReply::Key(key_down),
        ) {
            Ok((fetching_up, LoopAction::GetKeyUp(_))) => step_spec(
                fetching_up,
                slot,
                HostReply::Key(key_up),
            ),
            other => other,
        },
        Ok((fetching_up, LoopAction::GetKeyUp(_))) => step_spec(
            fetching_up,
            slot,
            HostReply::Key(key_up),
        ),
        other => other,
    }
}

/// How the loop on `surface` goes on after a wake-up that translates to
/// `translated`: it delivers the event, polls again where there is none,
/// or stops.
pub open spec fn outcome(
    surface: SurfaceHandle,
    translated: Result<Option<WindowEvent>, LoopError>,
) -> Result<(LoopPhase, LoopAction), LoopError> {
    match translated {
        Ok(Some(event)) => Ok(
            (LoopPhase::Delivering { surface }, LoopAction::Deliver(tagged(event))),
        ),
        Ok(None) => Ok((LoopPhase::Polling { surface }, LoopAction::Poll)),
        Err(error) => Err(error),
    }
}

/// The surface that the loop goes round the poll on, if it does.
pub open spec fn running_on(phase: LoopPhase) -> Option<SurfaceHandle> {
    match phase {
        LoopPhase::Polling { surface } => Some(surface),
        LoopPhase::KeyDown { surface, .. } => Some(surface),
        LoopPhase::KeyUp { surface, .. } => Some(surface),
        LoopPhase::Delivering { surface } => Some(surface),
        _ => None,
    }
}

/// A loop started with a surface in the slot gets as far as subscribing to
/// that surface; one started with an empty slot stops with `NoSurface`.
/// Either way the consumer has had its two lifecycle notifications by
/// then, loop-starting first, with the settling wait between them.
pub proof fn lemma_start_needs_surface(slot: Option<SurfaceHandle>)
    ensures
        step_spec(LoopPhase::Created, slot, HostReply::Completed) == Ok::<
            (LoopPhase, LoopAction),
            LoopError,
        >((LoopPhase::Starting, LoopAction::Deliver(Event::NewEvents))),
        step_spec(LoopPhase::Starting, slot, HostReply::Completed) == Ok::<
            (LoopPhase, LoopAction),
            LoopError,
        >((LoopPhase::Settling, LoopAction::Wait(SETTLE_NANOS))),
        step_spec(LoopPhase::Settling, slot, HostReply::Completed) == Ok::<
            (LoopPhase, LoopAction),
            LoopError,
        >((LoopPhase::Resuming, LoopAction::Deliver(Event::Resumed))),
        match slot {
            Some(surface) => start_up(slot) == Ok::<(LoopPhase, LoopAction), LoopError>(
                (LoopPhase::Subscribing { surface }, LoopAction::Subscribe(surface)),
            ),
            None => start_up(slot) == Err::<(LoopPhase, LoopAction), LoopError>(
                LoopError::NoSurface,
            ),
        },
{
}

/// One wake-up ends in one delivery at most: the loop delivers the event
/// that the wake-up translates to and nothing else, polls again where it
/// translates to none, and stops where the translation fails.
pub proof fn lemma_wake_up_translates(
    surface: SurfaceHandle,
    slot: Option<SurfaceHandle>,
    indices: Vec<u32>,
    key_down: Option<HostKeyEvent>,
    key_up: Option<HostKeyEvent>,
)
    ensures
        wake_up(surface, slot, indices, key_down, key_up) == outcome(
            surface,
            translate_spec(ReadySet::of(indices@), key_down, key_up),
        ),
{
}

/// A loop that goes round the poll stays there, on the same surface, until
/// it stops with an error, whatever the slot holds by then: the pollables
/// are built once, so it never subscribes again, it fetches keys from that
/// surface only, and all that it delivers are events of the one window.
pub proof fn lemma_running_loop_stays(
    phase: LoopPhase,
    slot: Option<SurfaceHandle>,
    reply: HostReply,
)
    requires
        running_on(phase) is Some,
    ensures
        match step_spec(phase, slot, reply) {
            Ok((next, action)) => {
                &&& running_on(next) == running_on(phase)
                &&& match action {
                    LoopAction::Poll => true,
                    LoopAction::GetKeyDown(surface) => Some(surface) == running_on(phase),
                    LoopAction::GetKeyUp(surface) => Some(surface) == running_on(phase),
                    LoopAction::Deliver(event) => event is WindowEvent && event->window_id
                        == main_window_id(),
                    _ => false,
                }
            },
            Err(_) => true,
        },
{
}

} // verus!
