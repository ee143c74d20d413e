//! The control-loop state machine: how key events move the animation
//! between running, paused and terminated, and when a frame is rendered.

use vstd::prelude::*;
use crate::render::frame_cells;
use crate::render::stream_updated;
use crate::render::update_and_render;
use crate::render::Cell;
use crate::stream::TextStream;

verus! {

/// The key inputs the control loop distinguishes. Every other key, and a
/// poll that times out without an event, leaves the state unchanged.
#[derive(Clone, Copy, Debug, PartialEq, Eq)]
pub enum KeyInput {
    /// The `s` key: toggle between running and paused.
    Toggle,
    /// The `q` key: quit the animation.
    Quit,
    /// The Up arrow: the declared speed-increase control (currently inert).
    SpeedUp,
    /// The Down arrow: the declared speed-decrease control (currently inert).
    SpeedDown,
    /// Any other key.
    Other,
    /// The poll timed out without a key event.
    NoKey,
}

/// The mode of the control loop. The loop starts in `Running`; `Terminated`
/// is final.
#[derive(Clone, Copy, Debug, PartialEq, Eq)]
pub enum ControlState {
    Running,
    Paused,
    Terminated,
}

/// What one loop iteration does after handling its key event: render a
/// frame, skip rendering, or exit the loop.
#[derive(Clone, Copy, Debug, PartialEq, Eq)]
pub enum FrameAction {
    Render,
    Skip,
    Exit,
}

/// The state after one key event: `Toggle` flips running and paused, `Quit`
/// terminates, everything else leaves the state alone, and `Terminated` is
/// never left.
pub open spec fn transition(s: ControlState, k: KeyInput) -> ControlState {
    match s {
        ControlState::Terminated => ControlState::Terminated,
        ControlState::Running => match k {
            KeyInput::Toggle => ControlState::Paused,
            KeyInput::Quit => ControlState::Terminated,
            _ => ControlState::Running,
        },
        ControlState::Paused => match k {
            KeyInput::Toggle => ControlState::Running,
            KeyInput::Quit => ControlState::Terminated,
            _ => ControlState::Paused,
        },
    }
}

/// What an iteration does in a given state: only `Running` renders a frame,
/// `Paused` keeps polling without rendering, `Terminated` exits the loop.
pub open spec fn action_of(s: ControlState) -> FrameAction {
    match s {
        ControlState::Running => FrameAction::Render,
        ControlState::Paused => FrameAction::Skip,
        ControlState::Terminated => FrameAction::Exit,
    }
}

/// Handle one polled key event: return the next control state and what the
/// iteration does in it.
pub fn loop_step(s: ControlState, k: KeyInput) -> (r: (ControlState, FrameAction))
    ensures
        r.0 == transition(s, k),
        r.1 == action_of(transition(s, k)),
{
    let next = match s {
        ControlState::Terminated => ControlState::Terminated,
        ControlState::Running => match k {
            KeyInput::Toggle => ControlState::Paused,
            KeyInput::Quit => ControlState::Terminated,
            _ => ControlState::Running,
        },
        ControlState::Paused => match k {
            KeyInput::Toggle => ControlState::Running,
            KeyInput::Quit => ControlState::Terminated,
            _ => ControlState::Paused,
        },
    };
    let action = match next {
        ControlState::Running => FrameAction::Render,
        ControlState::Paused => FrameAction::Skip,
        ControlState::Terminated => FrameAction::Exit,
    };
    (next, action)
}

/// The declared speed-increase control, wired to the Up arrow. It is
/// inert in current behavior: no stream state changes.
pub fn increase_speed() {
}

/// The declared speed-decrease control, wired to the Down arrow. It is
/// inert in current behavior: no stream state changes.
pub fn decrease_speed() {
}

/// One full loop iteration after a key event has been polled: dispatch the
/// speed controls, take the transition, and render a frame exactly when the
/// new state is `Running`. While paused or terminated the stream set is
/// left untouched, so no position advances.
pub fn loop_iteration(
    state: ControlState,
    key: KeyInput,
    streams: &mut Vec<TextStream>,
    height: u16,
) -> (r: (ControlState, FrameAction, Option<Vec<Cell>>))
    requires
        action_of(transition(state, key)) == FrameAction::Render ==> height > 0,
        action_of(transition(state, key)) == FrameAction::Render
            ==> forall|i: int| 0 <= i < old(streams)@.len()
                ==> #[trigger] old(streams)@[i].position + old(streams)@[i].speed <= usize::MAX,
    ensures
        r.0 == transition(state, key),
        r.1 == action_of(transition(state, key)),
        (r.1 == FrameAction::Render) <==> (r.2 is Some),
        (match r.2 {
            Some(cells) => {
                &&& final(streams)@.len() == old(streams)@.len()
                &&& (forall|i: int| 0 <= i < old(streams)@.len()
                    ==> stream_updated(
                        old(streams)@[i],
                        #[trigger] final(streams)@[i],
                        height as int,
                    ))
                &&& cells@ == frame_cells(old(streams)@, height as int)
            },
            None => final(streams)@ == old(streams)@,
        }),
{
    match key {
        KeyInput::SpeedUp => increase_speed(),
        KeyInput::SpeedDown => decrease_speed(),
        _ => (),
    }
    let (next, action) = loop_step(state, key);
    match action {
        FrameAction::Render => {
            let cells = update_and_render(streams, height);
            (next, action, Some(cells))
        },
        FrameAction::Skip => (next, action, None),
        FrameAction::Exit => (next, action, None),
    }
}

/// Two consecutive `Toggle` events return the control state to its
/// original mode.
pub proof fn lemma_toggle_round_trip(s: ControlState)
    ensures
        transition(transition(s, KeyInput::Toggle), KeyInput::Toggle) == s,
{
}

/// A `Quit` event from any state reaches `Terminated`, a terminal state in
/// which no event ever causes another frame to render.
pub proof fn lemma_quit_terminates(s: ControlState, k: KeyInput)
    ensures
        transition(s, KeyInput::Quit) == ControlState::Terminated,
        transition(ControlState::Terminated, k) == ControlState::Terminated,
        action_of(ControlState::Terminated) != FrameAction::Render,
{
}

/// While paused, an iteration whose event is neither `Toggle` nor `Quit`
/// stays paused and skips rendering, so no stream position advances.
pub proof fn lemma_pause_skips_render(k: KeyInput)
    requires
        k != KeyInput::Toggle,
        k != KeyInput::Quit,
    ensures
        transition(ControlState::Paused, k) == ControlState::Paused,
        action_of(transition(ControlState::Paused, k)) == FrameAction::Skip,
{
}

} // verus!
