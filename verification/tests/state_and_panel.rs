use shader_preview::state::{Obj, State, Vec3Bits};
use shader_preview::ui::{
    apply_panel_event, apply_panel_events, camera_label, clamp_shininess, object_selectors,
    panel_title, select_object_label, shininess_label, PanelEvent, DRAG_SPEED_BITS,
    PANEL_DEFAULT_HEIGHT, PANEL_DEFAULT_POS_X, PANEL_DEFAULT_POS_Y, PANEL_DEFAULT_WIDTH,
};

#[test]
fn default_state_fields() {
    let s = State::new();
    assert_eq!(f32::from_bits(s.camera_eye.x), 0.0);
    assert_eq!(f32::from_bits(s.camera_eye.y), 0.0);
    assert_eq!(f32::from_bits(s.camera_eye.z), 15.0);
    assert_eq!(f32::from_bits(s.shininess), 10.0);
    assert_eq!(s.obj, Obj::Sphere);
}

#[test]
fn object_codes_are_exact() {
    assert_eq!(Obj::Cube.code(), 0);
    assert_eq!(Obj::Torus.code(), 1);
    assert_eq!(Obj::Sphere.code(), 2);
}

#[test]
fn object_code_round_trip() {
    for o in [Obj::Cube, Obj::Torus, Obj::Sphere] {
        assert_eq!(Obj::from_code(o.code()), Some(o));
    }
}

#[test]
fn object_code_rejects_everything_else() {
    assert_eq!(Obj::from_code(-1), None);
    assert_eq!(Obj::from_code(3), None);
    assert_eq!(Obj::from_code(i32::MIN), None);
    assert_eq!(Obj::from_code(i32::MAX), None);
}

#[test]
fn shininess_drag_below_zero_clamps_to_zero() {
    let dragged = (-3.5f32).to_bits();
    assert_eq!(f32::from_bits(clamp_shininess(dragged)), 0.0);
    let negative_zero = (-0.0f32).to_bits();
    assert_eq!(clamp_shininess(negative_zero), 0.0f32.to_bits());
}

#[test]
fn shininess_drag_non_negative_passes_through() {
    let dragged = 7.25f32.to_bits();
    assert_eq!(f32::from_bits(clamp_shininess(dragged)), 7.25);
    assert_eq!(clamp_shininess(0.0f32.to_bits()), 0.0f32.to_bits());
}

#[test]
fn shininess_event_applies_floor_and_touches_nothing_else() {
    let mut s = State::new();
    apply_panel_event(&mut s, PanelEvent::ShininessDragged((-1.0f32).to_bits()));
    assert_eq!(f32::from_bits(s.shininess), 0.0);
    assert_eq!(s.camera_eye, State::new().camera_eye);
    assert_eq!(s.obj, State::new().obj);
}

#[test]
fn camera_drag_takes_values_as_they_are() {
    let mut s = State::new();
    let eye = Vec3Bits {
        x: 1.5f32.to_bits(),
        y: (-2.0f32).to_bits(),
        z: 30.0f32.to_bits(),
    };
    apply_panel_event(&mut s, PanelEvent::CameraDragged(eye));
    assert_eq!(s.camera_eye, eye);
    assert_eq!(s.shininess, State::new().shininess);
    assert_eq!(s.obj, State::new().obj);
}

#[test]
fn panel_events_apply_in_order() {
    let mut s = State::new();
    let evs = vec![
        PanelEvent::ObjectSelected(Obj::Cube),
        PanelEvent::ShininessDragged(2.0f32.to_bits()),
        PanelEvent::ObjectSelected(Obj::Torus),
    ];
    apply_panel_events(&mut s, &evs);
    assert_eq!(s.obj, Obj::Torus);
    assert_eq!(f32::from_bits(s.shininess), 2.0);
}

#[test]
fn panel_literals() {
    assert_eq!(panel_title(), "Render settings");
    assert_eq!(camera_label(), "camera pos");
    assert_eq!(shininess_label(), "shininess");
    assert_eq!(select_object_label(), "Select object!");
    assert_eq!(PANEL_DEFAULT_WIDTH, 300);
    assert_eq!(PANEL_DEFAULT_HEIGHT, 100);
    assert_eq!(PANEL_DEFAULT_POS_X, 0);
    assert_eq!(PANEL_DEFAULT_POS_Y, 0);
    assert_eq!(f32::from_bits(DRAG_SPEED_BITS), 0.01);
}

#[test]
fn object_selectors_in_display_order() {
    let sel = object_selectors();
    assert_eq!(sel.len(), 3);
    assert_eq!(sel[0], ("Sphere", Obj::Sphere));
    assert_eq!(sel[1], ("Cube", Obj::Cube));
    assert_eq!(sel[2], ("Torus", Obj::Torus));
}
