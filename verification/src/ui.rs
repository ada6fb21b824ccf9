//! The settings panel: its layout literals and the per-frame effect of
//! user interaction on the shared render settings.
//!
//! The immediate-mode GUI toolkit runs in the surrounding application; it
//! reports what the user did to a widget as a `PanelEvent`, and this module
//! applies the event to the settings — enforcing the shininess floor the
//! panel promises — so every state the panel can produce is pinned down
//! here. Drag candidates arrive as 32-bit float bit patterns.

use vstd::prelude::*;

use crate::state::{Obj, State, Vec3Bits};

verus! {

/// The panel's default width in logical units, applied only the first
/// time it is shown.
pub const PANEL_DEFAULT_WIDTH: u32 = 300;

/// The panel's default height in logical units, applied only the first
/// time it is shown.
pub const PANEL_DEFAULT_HEIGHT: u32 = 100;

/// The panel's default position, applied only the first time it is shown.
pub const PANEL_DEFAULT_POS_X: u32 = 0;

/// The panel's default position, applied only the first time it is shown.
pub const PANEL_DEFAULT_POS_Y: u32 = 0;

/// Bit pattern of the 32-bit float `0.01`, the drag sensitivity of both
/// drag controls.
pub const DRAG_SPEED_BITS: u32 = 0x3C23_D70A;

/// The panel's window title.
pub fn panel_title() -> (s: &'static str)
    ensures
        s@ == "Render settings"@,
{
    "Render settings"
}

/// The label of the camera drag control, the panel's first widget.
pub fn camera_label() -> (s: &'static str)
    ensures
        s@ == "camera pos"@,
{
    "camera pos"
}

/// The label of the shininess drag control, the panel's second widget.
pub fn shininess_label() -> (s: &'static str)
    ensures
        s@ == "shininess"@,
{
    "shininess"
}

/// The static text shown above the object selectors, followed by a
/// horizontal separator.
pub fn select_object_label() -> (s: &'static str)
    ensures
        s@ == "Select object!"@,
{
    "Select object!"
}

/// The three mutually exclusive object selectors in display order:
/// "Sphere", "Cube", "Torus", each with the object it selects.
pub fn object_selectors() -> (v: Vec<(&'static str, Obj)>)
    ensures
        v@.len() == 3,
        v@[0].0@ == "Sphere"@ && v@[0].1 == Obj::Sphere,
        v@[1].0@ == "Cube"@ && v@[1].1 == Obj::Cube,
        v@[2].0@ == "Torus"@ && v@[2].1 == Obj::Torus,
{
    let mut v: Vec<(&'static str, Obj)> = Vec::new();
    v.push(("Sphere", Obj::Sphere));
    v.push(("Cube", Obj::Cube));
    v.push(("Torus", Obj::Torus));
    v
}

/// The shininess floor: a candidate whose sign bit is set — every float
/// at or below negative zero, dragged however far — is clamped to plus
/// zero; every non-negative candidate is kept as it is.
pub open spec fn clamp_shininess_spec(bits: u32) -> u32 {
    if bits >= 0x8000_0000 {
        0
    } else {
        bits
    }
}

/// Applies the shininess floor to a dragged candidate value.
pub fn clamp_shininess(bits: u32) -> (r: u32)
    ensures
        r == clamp_shininess_spec(bits),
{
    if bits >= 0x8000_0000 {
        0
    } else {
        bits
    }
}

/// Whatever the drag direction or starting value, the stored shininess
/// never has its sign bit set: it is never below `0.0`, and a candidate
/// already at or above `0.0` passes through unchanged.
pub proof fn lemma_shininess_floor(bits: u32)
    ensures
        clamp_shininess_spec(bits) < 0x8000_0000,
        bits < 0x8000_0000 ==> clamp_shininess_spec(bits) == bits,
{
}

/// One user interaction with the panel, as the GUI toolkit reports it:
/// the dragged candidate values, or the selector the user chose.
#[derive(Clone, Copy, Debug, PartialEq, Eq, Structural)]
pub enum PanelEvent {
    CameraDragged(Vec3Bits),
    ShininessDragged(u32),
    ObjectSelected(Obj),
}

/// The settings after one panel event: exactly the targeted field
/// changes — the camera takes the dragged values as they are, the
/// shininess takes the dragged value clamped at the floor, a selector
/// sets its object.
pub open spec fn panel_event_applied(s: State, ev: PanelEvent) -> State {
    match ev {
        PanelEvent::CameraDragged(eye) => State { camera_eye: eye, ..s },
        PanelEvent::ShininessDragged(bits) => State {
            shininess: clamp_shininess_spec(bits),
            ..s
        },
        PanelEvent::ObjectSelected(o) => State { obj: o, ..s },
    }
}

/// A panel event preserves the settings' invariant: the only field an
/// event can set to a fresh value under the floor is the shininess, and
/// the floor clears its sign bit.
pub proof fn lemma_panel_event_preserves_wf(s: State, ev: PanelEvent)
    requires
        s.wf(),
    ensures
        panel_event_applied(s, ev).wf(),
{
}

/// A whole frame of panel events preserves the settings' invariant.
pub proof fn lemma_panel_events_preserve_wf(s: State, evs: Seq<PanelEvent>)
    requires
        s.wf(),
    ensures
        panel_events_applied(s, evs).wf(),
    decreases evs.len(),
{
    if evs.len() > 0 {
        lemma_panel_event_preserves_wf(s, evs[0]);
        lemma_panel_events_preserve_wf(panel_event_applied(s, evs[0]), evs.drop_first());
    }
}

/// Applies one panel event to the settings in place.
pub fn apply_panel_event(state: &mut State, ev: PanelEvent)
    ensures
        *final(state) == panel_event_applied(*old(state), ev),
        old(state).wf() ==> final(state).wf(),
{
    match ev {
        PanelEvent::CameraDragged(eye) => {
            state.camera_eye = eye;
        },
        PanelEvent::ShininessDragged(bits) => {
            state.shininess = clamp_shininess(bits);
        },
        PanelEvent::ObjectSelected(o) => {
            state.obj = o;
        },
    }
}

/// The settings after a whole frame's panel events, applied in order.
pub open spec fn panel_events_applied(s: State, evs: Seq<PanelEvent>) -> State
    decreases evs.len(),
{
    if evs.len() == 0 {
        s
    } else {
        panel_events_applied(panel_event_applied(s, evs[0]), evs.drop_first())
    }
}

/// Applies one frame's panel events to the settings in place, in order.
pub fn apply_panel_events(state: &mut State, evs: &Vec<PanelEvent>)
    ensures
        *final(state) == panel_events_applied(*old(state), evs@),
        old(state).wf() ==> final(state).wf(),
{
    let ghost all = evs@;
    let ghost start = *state;
    proof {
        assert(all.skip(0) =~= all);
        if start.wf() {
            lemma_panel_events_preserve_wf(start, all);
        }
    }
    for i in 0..evs.len()
        invariant
            all == evs@,
            panel_events_applied(start, all) == panel_events_applied(*state, all.skip(i as int)),
    {
        proof {
            assert(all.skip(i as int).drop_first() =~= all.skip(i as int + 1));
        }
        apply_panel_event(state, evs[i]);
    }
    proof {
        assert(all.skip(evs@.len() as int) =~= Seq::<PanelEvent>::empty());
    }
}

} // verus!
