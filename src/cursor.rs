use vstd::prelude::*;

verus! {

/// How the pointer is held by the window.
#[derive(Clone, Copy, Debug, PartialEq, Eq, Structural)]
pub enum GrabMode {
    /// The pointer moves freely and may leave the window.
    Free,
    /// The pointer cannot leave the window.
    Confined,
    /// The pointer is held in place inside the window.
    Locked,
}

/// The visibility and grab mode of the window's pointer.
#[derive(Clone, Copy, Debug, PartialEq, Eq, Structural)]
pub struct CursorState {
    pub visible: bool,
    pub grab_mode: GrabMode,
}

/// The state a captured pointer is in: hidden and locked.
pub open spec fn captured() -> CursorState {
    CursorState { visible: false, grab_mode: GrabMode::Locked }
}

/// The pointer state after one frame, given whether the left button went down.
pub open spec fn after_click(state: CursorState, left_just_pressed: bool) -> CursorState {
    if left_just_pressed { captured() } else { state }
}

/// Captures the pointer on the frame the left button goes down; otherwise the
/// state is kept. Nothing ever releases it.
pub fn grab_mouse(state: CursorState, left_just_pressed: bool) -> (r: CursorState)
    ensures
        r == after_click(state, left_just_pressed),
{
    if left_just_pressed {
        CursorState { visible: false, grab_mode: GrabMode::Locked }
    } else {
        state
    }
}

/// The pointer state after a run of frames, given for each whether the left
/// button went down.
pub open spec fn after_clicks(state: CursorState, clicks: Seq<bool>) -> CursorState
    decreases clicks.len(),
{
    if clicks.len() == 0 {
        state
    } else {
        after_clicks(after_click(state, clicks[0]), clicks.drop_first())
    }
}

/// Once the pointer is captured, later frames leave it hidden and locked,
/// whether or not the left button goes down again.
pub proof fn lemma_captured_stays(clicks: Seq<bool>)
    ensures
        after_clicks(captured(), clicks) == captured(),
    decreases clicks.len(),
{
    if clicks.len() > 0 {
        lemma_captured_stays(clicks.drop_first());
    }
}

/// A run of frames in which the left button goes down at least once ends
/// with the pointer hidden and locked, whatever state it started in.
pub proof fn lemma_click_captures(state: CursorState, clicks: Seq<bool>)
    requires
        exists|k: int| 0 <= k < clicks.len() && clicks[k],
    ensures
        after_clicks(state, clicks) == captured(),
    decreases clicks.len(),
{
    if clicks[0] {
        lemma_captured_stays(clicks.drop_first());
    } else {
        let k = choose|k: int| 0 <= k < clicks.len() && clicks[k];
        assert(clicks.drop_first()[k - 1]);
        lemma_click_captures(after_click(state, clicks[0]), clicks.drop_first());
    }
}

/// Clicking again right after a capture changes nothing.
pub proof fn lemma_grab_idempotent(state: CursorState)
    ensures
        after_click(after_click(state, true), true) == after_click(state, true),
{
}

} // verus!
