use spotify_binds::hotkey::{listener_step, Bind, BindSet, InputEvent, KeyEvent, ModState};
use spotify_binds::keys::KeyCode;
use spotify_binds::settings::unbound_bind;

fn binds_with_toggle(toggle: &str) -> BindSet {
    let u = unbound_bind();
    BindSet::parse(toggle, &u, &u, &u, &u, &u, &u, &u)
}

#[test]
fn bind_parse_reads_key_and_modifiers() {
    let b = Bind::parse("Ctrl+Shift+A");
    assert_eq!(b.key, Some(KeyCode::KeyA));
    assert!(b.ctrl);
    assert!(b.shift);
    assert!(!b.alt);

    let plain = Bind::parse("B");
    assert_eq!(plain.key, Some(KeyCode::KeyB));
    assert!(!plain.ctrl && !plain.shift && !plain.alt);

    let unbound = Bind::parse(&unbound_bind());
    assert_eq!(unbound.key, None);
}

#[test]
fn ctrl_bind_fires_exactly_once_with_ctrl_held() {
    let bs = binds_with_toggle("Ctrl+A");
    let mut st = ModState { ctrl: true, shift: false, alt: false };
    let acts = listener_step(&bs, &mut st, InputEvent::Press(KeyCode::KeyA));
    assert_eq!(acts, vec![KeyEvent::Toggle]);
}

#[test]
fn extra_modifier_suppresses_the_bind() {
    let bs = binds_with_toggle("Ctrl+A");
    let mut st = ModState { ctrl: true, shift: true, alt: false };
    let acts = listener_step(&bs, &mut st, InputEvent::Press(KeyCode::KeyA));
    assert!(acts.is_empty());
}

#[test]
fn missing_modifier_suppresses_the_bind() {
    let bs = binds_with_toggle("Ctrl+A");
    let mut st = ModState::new();
    let acts = listener_step(&bs, &mut st, InputEvent::Press(KeyCode::KeyA));
    assert!(acts.is_empty());
}

#[test]
fn plain_bind_fires_only_with_no_modifiers() {
    let bs = binds_with_toggle("A");
    let mut st = ModState::new();
    let acts = listener_step(&bs, &mut st, InputEvent::Press(KeyCode::KeyA));
    assert_eq!(acts, vec![KeyEvent::Toggle]);

    let mut held = ModState { ctrl: true, shift: false, alt: false };
    let none = listener_step(&bs, &mut held, InputEvent::Press(KeyCode::KeyA));
    assert!(none.is_empty());
}

#[test]
fn modifier_presses_update_state_and_fire_nothing() {
    let bs = binds_with_toggle("Ctrl+A");
    let mut st = ModState::new();

    let acts = listener_step(&bs, &mut st, InputEvent::Press(KeyCode::ControlLeft));
    assert!(acts.is_empty());
    assert!(st.ctrl && !st.shift && !st.alt);

    let acts = listener_step(&bs, &mut st, InputEvent::Press(KeyCode::ShiftRight));
    assert!(acts.is_empty());
    assert!(st.ctrl && st.shift);

    let acts = listener_step(&bs, &mut st, InputEvent::Press(KeyCode::Alt));
    assert!(acts.is_empty());
    assert!(st.alt);

    let acts = listener_step(&bs, &mut st, InputEvent::Release(KeyCode::ControlRight));
    assert!(acts.is_empty());
    assert!(!st.ctrl && st.shift && st.alt);

    listener_step(&bs, &mut st, InputEvent::Release(KeyCode::ShiftLeft));
    listener_step(&bs, &mut st, InputEvent::Release(KeyCode::Alt));
    assert_eq!(st, ModState::new());
}

#[test]
fn press_release_sequence_fires_at_the_right_moment() {
    let bs = binds_with_toggle("Ctrl+A");
    let mut st = ModState::new();

    assert!(listener_step(&bs, &mut st, InputEvent::Press(KeyCode::ControlLeft)).is_empty());
    let acts = listener_step(&bs, &mut st, InputEvent::Press(KeyCode::KeyA));
    assert_eq!(acts, vec![KeyEvent::Toggle]);

    assert!(listener_step(&bs, &mut st, InputEvent::Release(KeyCode::KeyA)).is_empty());
    assert!(listener_step(&bs, &mut st, InputEvent::Release(KeyCode::ControlLeft)).is_empty());

    let after = listener_step(&bs, &mut st, InputEvent::Press(KeyCode::KeyA));
    assert!(after.is_empty());
}

#[test]
fn all_matching_binds_fire_in_order() {
    let u = unbound_bind();
    let bs = BindSet::parse("Ctrl+A", &u, "Ctrl+A", &u, &u, &u, &u, "Ctrl+A");
    let mut st = ModState { ctrl: true, shift: false, alt: false };
    let acts = listener_step(&bs, &mut st, InputEvent::Press(KeyCode::KeyA));
    assert_eq!(acts, vec![KeyEvent::Toggle, KeyEvent::Pause, KeyEvent::Mute]);
}

#[test]
fn releases_fire_nothing() {
    let bs = binds_with_toggle("A");
    let mut st = ModState::new();
    let acts = listener_step(&bs, &mut st, InputEvent::Release(KeyCode::KeyA));
    assert!(acts.is_empty());
}
