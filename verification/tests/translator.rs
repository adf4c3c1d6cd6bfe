use wasi_shim::dpi::PhysicalSize;
use wasi_shim::event::{ElementState, KeyEvent, WindowEvent};
use wasi_shim::keyboard::{key_code_of, map_host_key, HostKey, HostKeyEvent, KeyCode, PhysicalKey};
use wasi_shim::translator::{
    key_input, translate, EventSource, LoopError, ReadySet, FRAME_SOURCE, KEY_DOWN_SOURCE,
    KEY_UP_SOURCE, RESIZE_SOURCE,
};

fn host_key(key: HostKey) -> Option<HostKeyEvent> {
    Some(HostKeyEvent { key: Some(key) })
}

fn keyboard(code: KeyCode, state: ElementState) -> WindowEvent {
    WindowEvent::KeyboardInput { event: KeyEvent { physical_key: PhysicalKey::Code(code), state } }
}

#[test]
fn key_down_left_arrow_is_pressed() {
    let event = translate(&vec![0], host_key(HostKey::ArrowLeft), None);
    assert_eq!(event, Ok(Some(keyboard(KeyCode::ArrowLeft, ElementState::Pressed))));
    match event {
        Ok(Some(WindowEvent::KeyboardInput { event })) => {
            assert_eq!(event.state, ElementState::Pressed);
            assert_eq!(event.physical_key, PhysicalKey::Code(KeyCode::ArrowLeft));
        }
        other => panic!("unexpected {:?}", other),
    }
}

#[test]
fn key_up_right_arrow_is_released() {
    let event = translate(&vec![1], None, host_key(HostKey::ArrowRight));
    assert_eq!(event, Ok(Some(keyboard(KeyCode::ArrowRight, ElementState::Released))));
}

#[test]
fn frame_alone_requests_redraw() {
    assert_eq!(translate(&vec![3], None, None), Ok(Some(WindowEvent::RedrawRequested)));
}

#[test]
fn unmapped_key_falls_through_to_frame() {
    let event = translate(&vec![0, 3], host_key(HostKey::Other), None);
    assert_eq!(event, Ok(Some(WindowEvent::RedrawRequested)));
}

#[test]
fn key_without_identifier_falls_through_to_frame() {
    let event = translate(&vec![3, 1], None, Some(HostKeyEvent { key: None }));
    assert_eq!(event, Ok(Some(WindowEvent::RedrawRequested)));
}

#[test]
fn key_down_wins_over_frame() {
    let event = translate(&vec![0, 3], host_key(HostKey::ArrowRight), None);
    assert_eq!(event, Ok(Some(keyboard(KeyCode::ArrowRight, ElementState::Pressed))));
}

#[test]
fn key_down_wins_over_key_up() {
    let event = translate(&vec![1, 0], host_key(HostKey::ArrowLeft), host_key(HostKey::ArrowRight));
    assert_eq!(event, Ok(Some(keyboard(KeyCode::ArrowLeft, ElementState::Pressed))));
}

#[test]
fn key_up_wins_when_key_down_is_unmapped() {
    let event =
        translate(&vec![0, 1, 2, 3], host_key(HostKey::Other), host_key(HostKey::ArrowLeft));
    assert_eq!(event, Ok(Some(keyboard(KeyCode::ArrowLeft, ElementState::Released))));
}

#[test]
fn resize_alone_gives_no_event() {
    assert_eq!(translate(&vec![2], None, None), Ok(None));
}

#[test]
fn resize_does_not_hide_frame() {
    assert_eq!(translate(&vec![2, 3], None, None), Ok(Some(WindowEvent::RedrawRequested)));
}

#[test]
fn nothing_ready_gives_no_event() {
    assert_eq!(translate(&vec![], host_key(HostKey::ArrowLeft), host_key(HostKey::ArrowLeft)), Ok(None));
}

#[test]
fn unmapped_key_alone_gives_no_event() {
    assert_eq!(translate(&vec![0], host_key(HostKey::Other), None), Ok(None));
    assert_eq!(translate(&vec![1], None, host_key(HostKey::Other)), Ok(None));
}

#[test]
fn keys_of_sources_that_are_not_ready_are_ignored() {
    let event = translate(&vec![3], host_key(HostKey::ArrowLeft), host_key(HostKey::ArrowRight));
    assert_eq!(event, Ok(Some(WindowEvent::RedrawRequested)));
}

#[test]
fn missing_key_down_is_fatal() {
    assert_eq!(translate(&vec![0], None, None), Err(LoopError::MissingKey));
    assert_eq!(translate(&vec![0, 3], None, None), Err(LoopError::MissingKey));
}

#[test]
fn missing_key_up_is_fatal_even_after_a_key_down() {
    let event = translate(&vec![0, 1], host_key(HostKey::ArrowLeft), None);
    assert_eq!(event, Err(LoopError::MissingKey));
}

#[test]
fn single_source_is_worth_what_it_is_worth_alone() {
    let down = host_key(HostKey::ArrowLeft);
    let up = host_key(HostKey::ArrowRight);
    assert_eq!(
        translate(&vec![KEY_DOWN_SOURCE], down, up),
        Ok(Some(keyboard(KeyCode::ArrowLeft, ElementState::Pressed)))
    );
    assert_eq!(
        translate(&vec![KEY_UP_SOURCE], down, up),
        Ok(Some(keyboard(KeyCode::ArrowRight, ElementState::Released)))
    );
    assert_eq!(translate(&vec![RESIZE_SOURCE], down, up), Ok(None));
    assert_eq!(translate(&vec![FRAME_SOURCE], down, up), Ok(Some(WindowEvent::RedrawRequested)));
    assert_eq!(translate(&vec![4], down, up), Ok(None));
}

#[test]
fn translation_is_repeatable() {
    let first = translate(&vec![0, 3], host_key(HostKey::ArrowLeft), None);
    let second = translate(&vec![0, 3], host_key(HostKey::ArrowLeft), None);
    assert_eq!(first, second);
}

#[test]
fn ready_set_reads_positions_in_any_order() {
    let ready = ReadySet::from_indices(&vec![3, 0, 3, 7]);
    assert_eq!(ready, ReadySet { key_down: true, key_up: false, resize: false, frame: true });
    let ready = ReadySet::from_indices(&vec![2, 1]);
    assert_eq!(ready, ReadySet { key_down: false, key_up: true, resize: true, frame: false });
    let ready = ReadySet::from_indices(&vec![]);
    assert_eq!(ready, ReadySet { key_down: false, key_up: false, resize: false, frame: false });
    let ready = ReadySet::from_indices(&vec![u32::MAX, 4]);
    assert_eq!(ready, ReadySet { key_down: false, key_up: false, resize: false, frame: false });
}

#[test]
fn source_positions_are_fixed() {
    assert_eq!(KEY_DOWN_SOURCE, 0);
    assert_eq!(KEY_UP_SOURCE, 1);
    assert_eq!(RESIZE_SOURCE, 2);
    assert_eq!(FRAME_SOURCE, 3);
}

#[test]
fn mapping_table_has_two_entries() {
    assert_eq!(map_host_key(HostKey::ArrowLeft), Some(KeyCode::ArrowLeft));
    assert_eq!(map_host_key(HostKey::ArrowRight), Some(KeyCode::ArrowRight));
    assert_eq!(map_host_key(HostKey::Other), None);
    assert_eq!(map_host_key(HostKey::ArrowLeft), map_host_key(HostKey::ArrowLeft));
}

#[test]
fn key_code_of_needs_an_identifier() {
    assert_eq!(key_code_of(HostKeyEvent { key: None }), None);
    assert_eq!(key_code_of(HostKeyEvent { key: Some(HostKey::Other) }), None);
    assert_eq!(key_code_of(HostKeyEvent { key: Some(HostKey::ArrowLeft) }), Some(KeyCode::ArrowLeft));
    assert_eq!(
        key_code_of(HostKeyEvent { key: Some(HostKey::ArrowRight) }),
        Some(KeyCode::ArrowRight)
    );
}

#[test]
fn key_input_carries_the_state_of_the_source() {
    let key = HostKeyEvent { key: Some(HostKey::ArrowRight) };
    assert_eq!(
        key_input(key, ElementState::Pressed),
        Some(keyboard(KeyCode::ArrowRight, ElementState::Pressed))
    );
    assert_eq!(
        key_input(key, ElementState::Released),
        Some(keyboard(KeyCode::ArrowRight, ElementState::Released))
    );
    assert_eq!(key_input(HostKeyEvent { key: Some(HostKey::Other) }, ElementState::Pressed), None);
    assert_eq!(key_input(HostKeyEvent { key: None }, ElementState::Released), None);
}

#[test]
fn error_messages_differ() {
    let all = [
        LoopError::NoSurface,
        LoopError::MissingKey,
        LoopError::PollFailed,
        LoopError::UnexpectedReply,
    ];
    for (i, a) in all.iter().enumerate() {
        assert!(!a.message().is_empty());
        for b in all.iter().skip(i + 1) {
            assert_ne!(a.message(), b.message());
        }
    }
    assert_eq!(
        LoopError::NoSurface.message(),
        "the event loop was started before a surface was registered"
    );
}

#[test]
fn physical_size_keeps_its_components() {
    let size = PhysicalSize::new(640u32, 480u32);
    assert_eq!(size.width, 640);
    assert_eq!(size.height, 480);
    assert_eq!(size, PhysicalSize { width: 640, height: 480 });
    assert_eq!(WindowEvent::Resized(size), WindowEvent::Resized(PhysicalSize::new(640, 480)));
    let wide: PhysicalSize<u64> = PhysicalSize::new(1 << 40, 2);
    assert_eq!(wide.width, 1 << 40);
}

#[test]
fn sources_stand_at_their_positions() {
    let order = EventSource::in_order();
    assert_eq!(
        order,
        vec![EventSource::KeyDown, EventSource::KeyUp, EventSource::Resize, EventSource::Frame]
    );
    for (position, source) in order.iter().enumerate() {
        assert_eq!(source.position() as usize, position);
        assert_eq!(EventSource::at(source.position()), Some(*source));
    }
    assert_eq!(EventSource::at(4), None);
    assert_eq!(EventSource::at(u32::MAX), None);
    assert_eq!(EventSource::Frame.position(), 3);
}

#[test]
fn ready_set_answers_by_source() {
    let ready = ReadySet::from_indices(&vec![1, 3]);
    assert!(!ready.is_ready(EventSource::KeyDown));
    assert!(ready.is_ready(EventSource::KeyUp));
    assert!(!ready.is_ready(EventSource::Resize));
    assert!(ready.is_ready(EventSource::Frame));
}
