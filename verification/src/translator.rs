//! Translation of one wake-up of the host into at most one window event.
//!
//! The host reports which of its four event sources are ready, by their
//! positions among the pollables. The sources are looked at in a fixed
//! order (key-down, key-up, resize, frame) and the first one that is worth
//! an event gives the wake-up's event; what the others signalled is dropped.

use vstd::prelude::*;
use crate::event::{ElementState, KeyEvent, WindowEvent};
use crate::keyboard::{event_code, key_code_of, HostKey, HostKeyEvent, KeyCode, PhysicalKey};

verus! {

/// Position of the key-down source among the pollables.
pub const KEY_DOWN_SOURCE: u32 = 0;

/// Position of the key-up source among the pollables.
pub const KEY_UP_SOURCE: u32 = 1;

/// Position of the resize source among the pollables.
pub const RESIZE_SOURCE: u32 = 2;

/// Position of the frame source among the pollables.
pub const FRAME_SOURCE: u32 = 3;

/// One of the surface's event sources. The host knows a source by the
/// position of its pollable in the list that the poll is given, so the
/// list is built once, in the order of the positions, and never reordered.
/// The same order is the priority of the sources within a wake-up.
#[derive(Debug, Clone, Copy, PartialEq, Eq, Structural, Hash)]
pub enum EventSource {
    KeyDown,
    KeyUp,
    Resize,
    Frame,
}

impl EventSource {
    /// The position of the source's pollable.
    pub open spec fn spec_position(self) -> u32 {
        match self {
            EventSource::KeyDown => KEY_DOWN_SOURCE,
            EventSource::KeyUp => KEY_UP_SOURCE,
            EventSource::Resize => RESIZE_SOURCE,
            EventSource::Frame => FRAME_SOURCE,
        }
    }

    /// The source whose pollable is at `position`, if there is one.
    pub open spec fn spec_at(position: u32) -> Option<EventSource> {
        if position == KEY_DOWN_SOURCE {
            Some(EventSource::KeyDown)
        } else if position == KEY_UP_SOURCE {
            Some(EventSource::KeyUp)
        } else if position == RESIZE_SOURCE {
            Some(EventSource::Resize)
        } else if position == FRAME_SOURCE {
            Some(EventSource::Frame)
        } else {
            None
        }
    }

    /// The position of the source's pollable.
    pub fn position(self) -> (position: u32)
        ensures
            position == self.spec_position(),
    {
        match self {
            EventSource::KeyDown => KEY_DOWN_SOURCE,
            EventSource::KeyUp => KEY_UP_SOURCE,
            EventSource::Resize => RESIZE_SOURCE,
            EventSource::Frame => FRAME_SOURCE,
        }
    }

    /// The source whose pollable is at `position`; `None` past the four
    /// sources.
    pub fn at(position: u32) -> (source: Option<EventSource>)
        ensures
            source == EventSource::spec_at(position),
    {
        if position == KEY_DOWN_SOURCE {
            Some(EventSource::KeyDown)
        } else if position == KEY_UP_SOURCE {
            Some(EventSource::KeyUp)
        } else if position == RESIZE_SOURCE {
            Some(EventSource::Resize)
        } else if position == FRAME_SOURCE {
            Some(EventSource::Frame)
        } else {
            None
        }
    }

    /// The sources in the order in which their pollables are handed to the
    /// poll: each source stands at its position.
    pub fn in_order() -> (sources: Vec<EventSource>)
        ensures
            sources@ == seq![
                EventSource::KeyDown,
                EventSource::KeyUp,
                EventSource::Resize,
                EventSource::Frame,
            ],
            forall|i: int|
                0 <= i < sources@.len() ==> (#[trigger] sources@[i]).spec_position() == i,
    {
        let mut sources: Vec<EventSource> = Vec::new();
        sources.push(EventSource::KeyDown);
        sources.push(EventSource::KeyUp);
        sources.push(EventSource::Resize);
        sources.push(EventSource::Frame);
        sources
    }
}

/// Positions and sources correspond one to one: a source is found again at
/// its position, and a position that holds a source is that source's.
pub proof fn lemma_positions(source: EventSource, position: u32)
    ensures
        EventSource::spec_at(source.spec_position()) == Some(source),
        EventSource::spec_at(position) is Some <==> position < 4,
        EventSource::spec_at(position) == Some(source) <==> source.spec_position() == position,
{
}

/// Why the translation of a wake-up, or the loop around it, failed.
#[derive(Debug, Clone, Copy, PartialEq, Eq, Structural)]
pub enum LoopError {
    /// The loop was started before a surface was registered.
    NoSurface,
    /// A key source signalled, and the host then had no key to hand out.
    MissingKey,
    /// The host could not poll the event sources.
    PollFailed,
    /// The reply does not answer the action that the loop asked for.
    UnexpectedReply,
}

impl LoopError {
    /// The error in words, for the diagnostic that the driver gives.
    pub open spec fn spec_message(self) -> Seq<char> {
        match self {
            LoopError::NoSurface => "the event loop was started before a surface was registered"@,
            LoopError::MissingKey => "a key source signalled but the host had no key"@,
            LoopError::PollFailed => "the host could not poll the event sources"@,
            LoopError::UnexpectedReply => "the reply does not answer the action asked for"@,
        }
    }

    /// The error in words, for the diagnostic that the driver gives.
    pub fn message(&self) -> (text: &'static str)
        ensures
            text@ == self.spec_message(),
    {
        match self {
            LoopError::NoSurface => "the event loop was started before a surface was registered",
            LoopError::MissingKey => "a key source signalled but the host had no key",
            LoopError::PollFailed => "the host could not poll the event sources",
            LoopError::UnexpectedReply => "the reply does not answer the action asked for",
        }
    }
}

/// The sources that one wake-up found ready.
#[derive(Debug, Clone, Copy, PartialEq, Eq, Structural)]
pub struct ReadySet {
    pub key_down: bool,
    pub key_up: bool,
    pub resize: bool,
    pub frame: bool,
}

impl ReadySet {
    /// The ready set that a list of ready positions stands for. Positions
    /// past the four sources mean nothing.
    pub open spec fn of(indices: Seq<u32>) -> ReadySet {
        ReadySet {
            key_down: indices.contains(KEY_DOWN_SOURCE),
            key_up: indices.contains(KEY_UP_SOURCE),
            resize: indices.contains(RESIZE_SOURCE),
            frame: indices.contains(FRAME_SOURCE),
        }
    }

    /// Whether `source` is ready.
    pub open spec fn has(self, source: EventSource) -> bool {
        match source {
            EventSource::KeyDown => self.key_down,
            EventSource::KeyUp => self.key_up,
            EventSource::Resize => self.resize,
            EventSource::Frame => self.frame,
        }
    }

    /// Whether `source` is ready.
    pub fn is_ready(&self, source: EventSource) -> (ready: bool)
        ensures
            ready == self.has(source),
    {
        match source {
            EventSource::KeyDown => self.key_down,
            EventSource::KeyUp => self.key_up,
            EventSource::Resize => self.resize,
            EventSource::Frame => self.frame,
        }
    }

    /// Reads the poll result: the positions of the sources that are ready,
    /// in any order.
    pub fn from_indices(indices: &Vec<u32>) -> (ready: ReadySet)
        ensures
            ready == ReadySet::of(indices@),
    {
        let mut ready = ReadySet { key_down: false, key_up: false, resize: false, frame: false };
        let mut i: usize = 0;
        while i < indices.len()
            invariant
                i <= indices.len(),
                ready == ReadySet::of(indices@.take(i as int)),
            decreases indices.len() - i,
        {
            let index: u32 = indices[i];
            proof {
                let before = indices@.take(i as int);
                let after = indices@.take(i + 1);
                assert(after == before.push(index));
                assert forall|x: u32| after.contains(x) == (before.contains(x) || x == index) by {
                    if before.contains(x) {
                        let j = choose|j: int| 0 <= j < before.len() && before[j] == x;
                        assert(after[j] == x);
                    }
                    if x == index {
                        assert(after[i as int] == x);
                    }
                }
            }
            if index == KEY_DOWN_SOURCE {
                ready.key_down = true;
            } else if index == KEY_UP_SOURCE {
                ready.key_up = true;
            } else if index == RESIZE_SOURCE {
                ready.resize = true;
            } else if index == FRAME_SOURCE {
                ready.frame = true;
            }
            i += 1;
        }
        assert(indices@.take(i as int) == indices@);
        ready
    }
}

/// The keyboard event that a key fetched from the host stands for: `None`
/// when the host's identifier is absent or unmapped.
pub open spec fn key_input_spec(key: HostKeyEvent, state: ElementState) -> Option<WindowEvent> {
    match event_code(key) {
        Some(code) => Some(
            WindowEvent::KeyboardInput {
                event: KeyEvent { physical_key: PhysicalKey::Code(code), state },
            },
        ),
        None => None,
    }
}

/// Turns a key fetched from the host into a keyboard event.
pub fn key_input(key: HostKeyEvent, state: ElementState) -> (event: Option<WindowEvent>)
    ensures
        event == key_input_spec(key, state),
{
    match key_code_of(key) {
        Some(code) => Some(
            WindowEvent::KeyboardInput {
                event: KeyEvent { physical_key: PhysicalKey::Code(code), state },
            },
        ),
        None => None,
    }
}

/// The event that `source` alone is worth in a wake-up that found `ready`,
/// with `key_down` and `key_up` being what the host hands out for the two
/// key sources. A source that is not ready is worth nothing, and neither
/// is the resize source.
pub open spec fn source_event(
    source: EventSource,
    ready: ReadySet,
    key_down: Option<HostKeyEvent>,
    key_up: Option<HostKeyEvent>,
) -> Option<WindowEvent> {
    if !ready.has(source) {
        None
    } else {
        match source {
            EventSource::KeyDown => match key_down {
                Some(key) => key_input_spec(key, ElementState::Pressed),
                None => None,
            },
            EventSource::KeyUp => match key_up {
                Some(key) => key_input_spec(key, ElementState::Released),
                None => None,
            },
            EventSource::Resize => None,
            EventSource::Frame => Some(WindowEvent::RedrawRequested),
        }
    }
}

/// Whether a key source signalled without the host having a key for it.
pub open spec fn key_missing(
    ready: ReadySet,
    key_down: Option<HostKeyEvent>,
    key_up: Option<HostKeyEvent>,
) -> bool {
    (ready.key_down && key_down is None) || (ready.key_up && key_up is None)
}

/// What one wake-up is worth: the event of the first source, in the order
/// key-down, key-up, resize, frame, that is worth one. A key source that
/// is ready without a key makes the wake-up fail, whatever the other
/// sources are worth.
pub open spec fn translate_spec(
    ready: ReadySet,
    key_down: Option<HostKeyEvent>,
    key_up: Option<HostKeyEvent>,
) -> Result<Option<WindowEvent>, LoopError> {
    if key_missing(ready, key_down, key_up) {
        Err(LoopError::MissingKey)
    } else if source_event(EventSource::KeyDown, ready, key_down, key_up) is Some {
        Ok(source_event(EventSource::KeyDown, ready, key_down, key_up))
    } else if source_event(EventSource::KeyUp, ready, key_down, key_up) is Some {
        Ok(source_event(EventSource::KeyUp, ready, key_down, key_up))
    } else if source_event(EventSource::Resize, ready, key_down, key_up) is Some {
        Ok(source_event(EventSource::Resize, ready, key_down, key_up))
    } else {
        Ok(source_event(EventSource::Frame, ready, key_down, key_up))
    }
}

/// Translates one wake-up. `indices` is the poll result; `key_down` and
/// `key_up` are what the host handed out for the key sources, and are
/// looked at only where the source is ready.
pub fn translate(
    indices: &Vec<u32>,
    key_down: Option<HostKeyEvent>,
    key_up: Option<HostKeyEvent>,
) -> (result: Result<Option<WindowEvent>, LoopError>)
    ensures
        result == translate_spec(ReadySet::of(indices@), key_down, key_up),
{
    let ready = ReadySet::from_indices(indices);
    let mut event: Option<WindowEvent> = None;
    if ready.key_down {
        match key_down {
            Some(key) => {
                event = key_input(key, ElementState::Pressed);
            },
            None => {
                return Err(LoopError::MissingKey);
            },
        }
    }
    if ready.key_up {
        match key_up {
            Some(key) => {
                if event.is_none() {
                    event = key_input(key, ElementState::Released);
                }
            },
            None => {
                return Err(LoopError::MissingKey);
            },
        }
    }
    if ready.frame && event.is_none() {
        event = Some(WindowEvent::RedrawRequested);
    }
    Ok(event)
}

/// A source is ready exactly when its position is among those that the poll
/// returned.
pub proof fn lemma_ready_by_position(indices: Seq<u32>, source: EventSource)
    ensures
        ReadySet::of(indices).has(source) == indices.contains(source.spec_position()),
{
}

/// A wake-up that found a single position ready is worth what the source
/// at that position is worth, and nothing where the position holds no
/// source. It fails only where that source is a key source without a key.
pub proof fn lemma_single_source(
    position: u32,
    key_down: Option<HostKeyEvent>,
    key_up: Option<HostKeyEvent>,
)
    ensures
        ({
            let ready = ReadySet::of(seq![position]);
            translate_spec(ready, key_down, key_up) == if key_missing(ready, key_down, key_up) {
                Err::<Option<WindowEvent>, LoopError>(LoopError::MissingKey)
            } else {
                match EventSource::spec_at(position) {
                    Some(source) => Ok(source_event(source, ready, key_down, key_up)),
                    None => Ok(None),
                }
            }
        }),
        forall|source: EventSource| #[trigger]
            ReadySet::of(seq![position]).has(source) <==> source.spec_position() == position,
{
    let indices = seq![position];
    assert(indices[0] == position);
    assert(forall|x: u32| indices.contains(x) <==> x == position);
}

/// Whatever sources a wake-up found ready, its event is that of the first
/// source in priority order that is worth one, and it has no event exactly
/// when no source is worth one. It fails exactly when a key source is
/// ready without a key.
pub proof fn lemma_highest_priority(
    ready: ReadySet,
    key_down: Option<HostKeyEvent>,
    key_up: Option<HostKeyEvent>,
)
    ensures
        match translate_spec(ready, key_down, key_up) {
            Ok(Some(event)) => exists|source: EventSource|
                {
                    &&& #[trigger] source_event(source, ready, key_down, key_up) == Some(event)
                    &&& forall|earlier: EventSource|
                        earlier.spec_position() < source.spec_position() ==> #[trigger] source_event(
                            earlier,
                            ready,
                            key_down,
                            key_up,
                        ) is None
                },
            Ok(None) => forall|source: EventSource| #[trigger]
                source_event(source, ready, key_down, key_up) is None,
            Err(error) => error == LoopError::MissingKey,
        },
        translate_spec(ready, key_down, key_up) is Err <==> key_missing(ready, key_down, key_up),
{
    if !key_missing(ready, key_down, key_up) {
        let first = if source_event(EventSource::KeyDown, ready, key_down, key_up) is Some {
            EventSource::KeyDown
        } else if source_event(EventSource::KeyUp, ready, key_down, key_up) is Some {
            EventSource::KeyUp
        } else {
            EventSource::Frame
        };
        let translated = translate_spec(ready, key_down, key_up);
        if translated is Ok && translated->Ok_0 is Some {
            assert(Ok::<Option<WindowEvent>, LoopError>(
                source_event(first, ready, key_down, key_up),
            ) == translated);
            assert forall|earlier: EventSource|
                earlier.spec_position() < first.spec_position() implies #[trigger] source_event(
                earlier,
                ready,
                key_down,
                key_up,
            ) is None by {
                assert(source_event(EventSource::Resize, ready, key_down, key_up) is None);
            }
        }
    }
}

/// A key source is worth an event exactly when the host's identifier is
/// one of the two arrow keys; the event then carries the code of that key
/// and the state of the source.
pub proof fn lemma_key_input(key: HostKeyEvent, state: ElementState)
    ensures
        key_input_spec(key, state) is Some <==> (key.key == Some(HostKey::ArrowLeft) || key.key
            == Some(HostKey::ArrowRight)),
        key.key == Some(HostKey::ArrowLeft) ==> key_input_spec(key, state) == Some(
            WindowEvent::KeyboardInput {
                event: KeyEvent { physical_key: PhysicalKey::Code(KeyCode::ArrowLeft), state },
            },
        ),
        key.key == Some(HostKey::ArrowRight) ==> key_input_spec(key, state) == Some(
            WindowEvent::KeyboardInput {
                event: KeyEvent { physical_key: PhysicalKey::Code(KeyCode::ArrowRight), state },
            },
        ),
{
}

} // verus!
