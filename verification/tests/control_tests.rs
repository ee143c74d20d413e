use digital_rain::control::decrease_speed;
use digital_rain::control::increase_speed;
use digital_rain::control::loop_iteration;
use digital_rain::control::loop_step;
use digital_rain::control::ControlState;
use digital_rain::control::FrameAction;
use digital_rain::control::KeyInput;
use digital_rain::render::update_and_render;
use digital_rain::stream::StreamColor;
use digital_rain::stream::TextStream;

#[test]
fn test_toggle_round_trip_from_running() {
    let (paused, action) = loop_step(ControlState::Running, KeyInput::Toggle);
    assert_eq!(paused, ControlState::Paused);
    assert_eq!(action, FrameAction::Skip);
    let (running, action) = loop_step(paused, KeyInput::Toggle);
    assert_eq!(running, ControlState::Running);
    assert_eq!(action, FrameAction::Render);
}

#[test]
fn test_toggle_round_trip_from_paused() {
    let (running, _) = loop_step(ControlState::Paused, KeyInput::Toggle);
    let (paused, _) = loop_step(running, KeyInput::Toggle);
    assert_eq!(paused, ControlState::Paused);
}

#[test]
fn test_quit_from_running() {
    let (state, action) = loop_step(ControlState::Running, KeyInput::Quit);
    assert_eq!(state, ControlState::Terminated);
    assert_eq!(action, FrameAction::Exit);
}

#[test]
fn test_quit_from_paused() {
    let (state, action) = loop_step(ControlState::Paused, KeyInput::Quit);
    assert_eq!(state, ControlState::Terminated);
    assert_eq!(action, FrameAction::Exit);
}

#[test]
fn test_terminated_never_renders_again() {
    let events = [
        KeyInput::Toggle,
        KeyInput::Quit,
        KeyInput::SpeedUp,
        KeyInput::SpeedDown,
        KeyInput::Other,
        KeyInput::NoKey,
    ];
    let mut state = ControlState::Terminated;
    for &key in &events {
        let (next, action) = loop_step(state, key);
        assert_eq!(next, ControlState::Terminated);
        assert_eq!(action, FrameAction::Exit);
        state = next;
    }
}

#[test]
fn test_pause_invariant_streams_do_not_advance() {
    // Drive the loop the way the binary does: render only when the action
    // says so. While paused, repeated iterations leave every position
    // unchanged.
    let mut streams = vec![TextStream {
        characters: vec!['a', 'b'],
        position: 3,
        x: 0,
        speed: 2,
        color: StreamColor::Green,
    }];
    let mut state = ControlState::Paused;
    let events = [KeyInput::NoKey, KeyInput::Other, KeyInput::SpeedUp, KeyInput::SpeedDown];
    for &key in &events {
        let (next, action) = loop_step(state, key);
        assert_eq!(next, ControlState::Paused);
        assert_eq!(action, FrameAction::Skip);
        if action == FrameAction::Render {
            let _ = update_and_render(&mut streams, 10);
        }
        state = next;
    }
    assert_eq!(streams[0].position, 3);
}

#[test]
fn test_loop_iteration_renders_while_running() {
    let mut streams = vec![TextStream {
        characters: vec!['a', 'b'],
        position: 0,
        x: 0,
        speed: 1,
        color: StreamColor::Green,
    }];
    let (state, action, frame) = loop_iteration(ControlState::Running, KeyInput::NoKey, &mut streams, 5);
    assert_eq!(state, ControlState::Running);
    assert_eq!(action, FrameAction::Render);
    let cells = frame.expect("a running iteration renders a frame");
    assert_eq!(streams[0].position, 1);
    assert_eq!(cells.len(), 2);
    assert_eq!((cells[0].y, cells[1].y), (1, 2));
}

#[test]
fn test_loop_iteration_pause_freezes_streams() {
    let mut streams = vec![TextStream {
        characters: vec!['a', 'b'],
        position: 4,
        x: 0,
        speed: 3,
        color: StreamColor::Green,
    }];
    let mut state = ControlState::Paused;
    for key in [KeyInput::NoKey, KeyInput::Other, KeyInput::SpeedUp, KeyInput::SpeedDown] {
        let (next, action, frame) = loop_iteration(state, key, &mut streams, 6);
        assert_eq!(next, ControlState::Paused);
        assert_eq!(action, FrameAction::Skip);
        assert!(frame.is_none());
        assert_eq!(streams[0].position, 4);
        state = next;
    }
}

#[test]
fn test_loop_iteration_quit_renders_no_frame() {
    let mut streams = vec![TextStream {
        characters: vec!['a'],
        position: 2,
        x: 0,
        speed: 1,
        color: StreamColor::Green,
    }];
    let (state, action, frame) = loop_iteration(ControlState::Running, KeyInput::Quit, &mut streams, 8);
    assert_eq!(state, ControlState::Terminated);
    assert_eq!(action, FrameAction::Exit);
    assert!(frame.is_none());
    assert_eq!(streams[0].position, 2);
}

#[test]
fn test_other_keys_leave_running_state_alone() {
    for key in [KeyInput::SpeedUp, KeyInput::SpeedDown, KeyInput::Other, KeyInput::NoKey] {
        let (state, action) = loop_step(ControlState::Running, key);
        assert_eq!(state, ControlState::Running);
        assert_eq!(action, FrameAction::Render);
    }
}

#[test]
fn test_speed_controls_are_inert() {
    let streams = vec![TextStream {
        characters: vec!['a'],
        position: 1,
        x: 0,
        speed: 2,
        color: StreamColor::Green,
    }];
    increase_speed();
    decrease_speed();
    assert_eq!(streams[0].speed, 2);
    assert_eq!(streams[0].position, 1);
}
