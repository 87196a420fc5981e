use vstd::prelude::*;

use crate::controls::{movements, movements_of, turns, turns_of, only_if, HeldKeys, Movement, Turn};

verus! {

/// Which optional parts of the controller run.
#[derive(Clone, Copy, Debug, PartialEq, Eq, Structural)]
pub struct ControllerConfig {
    /// Mouse motion turns the camera.
    pub mouse_look: bool,
    /// A left click hides and locks the pointer.
    pub cursor_capture: bool,
}

impl ControllerConfig {
    pub fn new(mouse_look: bool, cursor_capture: bool) -> (r: ControllerConfig)
        ensures
            r.mouse_look == mouse_look,
            r.cursor_capture == cursor_capture,
    {
        ControllerConfig { mouse_look, cursor_capture }
    }
}

impl Default for ControllerConfig {
    /// Both mouse look and pointer capture are on.
    fn default() -> (r: ControllerConfig)
        ensures
            r.mouse_look,
            r.cursor_capture,
    {
        ControllerConfig { mouse_look: true, cursor_capture: true }
    }
}

/// What the controller reads in one frame.
#[derive(Clone, Copy, Debug, PartialEq, Eq, Structural)]
pub struct FrameInput {
    pub keys: HeldKeys,
    /// How many mouse-motion events arrived since the previous frame.
    pub motion_events: usize,
    /// How many windows are open.
    pub window_count: usize,
    /// Whether the left mouse button went down this frame.
    pub left_just_pressed: bool,
}

/// One update of the camera or the pointer, in the order a frame applies them.
#[derive(Clone, Copy, Debug, PartialEq, Eq, Structural)]
pub enum Step {
    /// Add `velocity * direction * dt` to the position.
    Move(Movement),
    /// Rotate by `sign * theta * dt` about the world's vertical axis.
    Turn(Turn),
    /// Apply the mouse-motion event of this index to yaw and pitch.
    Look(usize),
    /// Hide and lock the pointer.
    Capture,
}

/// Mouse look and capture need the window: they run only when exactly one is
/// open, and are skipped otherwise.
pub open spec fn has_window(input: FrameInput) -> bool {
    input.window_count == 1
}

pub open spec fn move_steps(ms: Seq<Movement>) -> Seq<Step> {
    ms.map_values(|m: Movement| Step::Move(m))
}

pub open spec fn turn_steps(ts: Seq<Turn>) -> Seq<Step> {
    ts.map_values(|t: Turn| Step::Turn(t))
}

/// One look step for each mouse-motion event, in the order they came.
pub open spec fn look_steps(n: nat) -> Seq<Step> {
    Seq::new(n, |i: int| Step::Look(i as usize))
}

pub open spec fn looks_enabled(config: ControllerConfig, input: FrameInput) -> bool {
    config.mouse_look && has_window(input)
}

pub open spec fn capture_enabled(config: ControllerConfig, input: FrameInput) -> bool {
    config.cursor_capture && has_window(input) && input.left_just_pressed
}

/// The steps of one frame: every movement, then every turn, then the mouse
/// look events, then the pointer capture.
pub open spec fn plan_of(config: ControllerConfig, input: FrameInput) -> Seq<Step> {
    let looks = if looks_enabled(config, input) {
        look_steps(input.motion_events as nat)
    } else {
        Seq::empty()
    };
    move_steps(movements_of(input.keys))
        + turn_steps(turns_of(input.keys))
        + looks
        + only_if(capture_enabled(config, input), Step::Capture)
}

/// Lays out one frame of the controller as an ordered list of steps:
/// translation first, then keyboard turns, then mouse look, then capture.
/// The order is part of the contract, since turning before or after a mouse
/// look event gives a different orientation.
pub fn plan_frame(config: &ControllerConfig, input: &FrameInput) -> (r: Vec<Step>)
    ensures
        r@ == plan_of(*config, *input),
{
    let ms = movements(&input.keys);
    let ts = turns(&input.keys);
    let mut r: Vec<Step> = Vec::new();
    let mut i: usize = 0;
    while i < ms.len()
        invariant
            i <= ms@.len(),
            r@ =~= move_steps(ms@.subrange(0, i as int)),
        decreases ms@.len() - i,
    {
        r.push(Step::Move(ms[i]));
        i = i + 1;
    }
    assert(ms@.subrange(0, ms@.len() as int) =~= ms@);
    let ghost done = r@;
    let mut j: usize = 0;
    while j < ts.len()
        invariant
            j <= ts@.len(),
            r@ =~= done + turn_steps(ts@.subrange(0, j as int)),
        decreases ts@.len() - j,
    {
        r.push(Step::Turn(ts[j]));
        j = j + 1;
    }
    assert(ts@.subrange(0, ts@.len() as int) =~= ts@);
    let ghost done2 = r@;
    let looks = config.mouse_look && input.window_count == 1;
    if looks {
        let mut k: usize = 0;
        while k < input.motion_events
            invariant
                k <= input.motion_events,
                r@ =~= done2 + look_steps(k as nat),
            decreases input.motion_events - k,
        {
            r.push(Step::Look(k));
            k = k + 1;
        }
    }
    let ghost done3 = r@;
    if config.cursor_capture && input.window_count == 1 && input.left_just_pressed {
        r.push(Step::Capture);
    }
    assert(r@ =~= done3 + only_if(capture_enabled(*config, *input), Step::Capture));
    r
}

} // verus!
