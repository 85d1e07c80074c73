use frender::math::vector::Vec2;
use frender::window::event::{Key, KeyModifiers, MouseButton};
use frender::window::{KeyboardManager, MouseManager};

#[test]
fn modifier_bits() {
    let none = KeyModifiers::new(0);
    assert_eq!(none.bits(), 0);
    assert!(!none.shift() && !none.ctrl() && !none.alt() && !none.cmd());
    assert!(!none.num_lock() && !none.caps_lock());

    let checks: [(u16, fn(&KeyModifiers) -> bool); 10] = [
        (KeyModifiers::L_SHIFT, KeyModifiers::l_shift),
        (KeyModifiers::R_SHIFT, KeyModifiers::r_shift),
        (KeyModifiers::L_CTRL, KeyModifiers::l_ctrl),
        (KeyModifiers::R_CTRL, KeyModifiers::r_ctrl),
        (KeyModifiers::L_ALT, KeyModifiers::l_alt),
        (KeyModifiers::R_ALT, KeyModifiers::r_alt),
        (KeyModifiers::L_CMD, KeyModifiers::l_cmd),
        (KeyModifiers::R_CMD, KeyModifiers::r_cmd),
        (KeyModifiers::NUM_LOCK, KeyModifiers::num_lock),
        (KeyModifiers::CAPS_LOCK, KeyModifiers::caps_lock),
    ];
    for (n, (mask, _)) in checks.iter().enumerate() {
        assert_eq!(*mask, 1u16 << n);
        let modifiers = KeyModifiers::new(*mask);
        for (m, (_, held)) in checks.iter().enumerate() {
            assert_eq!(held(&modifiers), n == m);
        }
    }
}

#[test]
fn either_side_counts_for_a_modifier() {
    assert!(KeyModifiers::new(KeyModifiers::L_SHIFT).shift());
    assert!(KeyModifiers::new(KeyModifiers::R_SHIFT).shift());
    assert!(!KeyModifiers::new(KeyModifiers::L_CTRL).shift());
    assert!(KeyModifiers::new(KeyModifiers::L_CTRL).ctrl());
    assert!(KeyModifiers::new(KeyModifiers::R_CTRL).ctrl());
    assert!(KeyModifiers::new(KeyModifiers::L_ALT).alt());
    assert!(KeyModifiers::new(KeyModifiers::R_ALT).alt());
    assert!(KeyModifiers::new(KeyModifiers::L_CMD).cmd());
    assert!(KeyModifiers::new(KeyModifiers::R_CMD).cmd());
    assert!(!KeyModifiers::new(KeyModifiers::NUM_LOCK | KeyModifiers::CAPS_LOCK).cmd());
    assert_eq!(KeyModifiers::default().bits(), 0);
}

#[test]
fn keys_and_buttons_are_numbered_in_order() {
    assert_eq!(Key::Key0.index(), 0);
    assert_eq!(Key::A.index(), 10);
    assert_eq!(Key::Q.index(), 26);
    assert_eq!(Key::Unknown.index(), 106);
    assert_eq!(MouseButton::Left.index(), 0);
    assert_eq!(MouseButton::Forward.index(), 4);
}

#[test]
fn keyboard_edges() {
    let mut keys = KeyboardManager::new();
    assert!(!keys.is_pressed(Key::A));
    assert!(!keys.just_pressed(Key::A));
    assert!(!keys.just_released(Key::A));

    keys.set(Key::A, true);
    assert!(keys.is_pressed(Key::A));
    assert!(keys.just_pressed(Key::A));
    assert!(!keys.just_released(Key::A));
    assert!(!keys.is_pressed(Key::B));

    keys.update();
    assert!(keys.is_pressed(Key::A));
    assert!(!keys.just_pressed(Key::A));

    keys.set(Key::A, false);
    assert!(!keys.is_pressed(Key::A));
    assert!(keys.just_released(Key::A));

    keys.update();
    assert!(!keys.just_released(Key::A));
    keys.set(Key::Unknown, true);
    assert!(keys.just_pressed(Key::Unknown));
    assert!(!keys.just_pressed(Key::RightSuper));
}

#[test]
fn mouse_edges_and_motion() {
    let mut mouse = MouseManager::new(Vec2::new(3, 4));
    assert_eq!(mouse.pos(), Vec2::new(3, 4));
    assert_eq!(mouse.delta(), Vec2::new(0, 0));
    assert!(!mouse.is_pressed(MouseButton::Left));

    mouse.set(MouseButton::Left, true);
    assert!(mouse.is_pressed(MouseButton::Left));
    assert!(mouse.just_pressed(MouseButton::Left));
    assert!(!mouse.is_pressed(MouseButton::Right));
    mouse.update();
    assert!(mouse.is_pressed(MouseButton::Left));
    assert!(!mouse.just_pressed(MouseButton::Left));
    mouse.set(MouseButton::Left, false);
    assert!(mouse.just_released(MouseButton::Left));
    mouse.update();
    assert!(!mouse.just_released(MouseButton::Left));

    mouse.set_pos(Vec2::new(10, 1));
    assert_eq!(mouse.pos(), Vec2::new(10, 1));
    assert_eq!(mouse.delta(), Vec2::new(7, -3));
    mouse.set_pos(Vec2::new(10, 1));
    assert_eq!(mouse.delta(), Vec2::new(0, 0));
}

#[test]
fn frame_loop_ends_on_q_or_with_the_window() {
    let mut keys = KeyboardManager::new();
    assert!(keys.keeps_running(true));
    assert!(!keys.keeps_running(false));
    keys.set(Key::Q, true);
    assert!(!keys.keeps_running(true));
    keys.set(Key::Q, false);
    keys.set(Key::W, true);
    assert!(keys.keeps_running(true));
}

#[test]
fn frame_start_takes_in_pointer_and_buttons() {
    let mut mouse = MouseManager::new(Vec2::new(1, 1));
    mouse.set(MouseButton::Back, true);
    mouse.begin_frame(Vec2::new(4, 6), true, false, true);
    assert_eq!(mouse.pos(), Vec2::new(4, 6));
    assert_eq!(mouse.last_pos(), Vec2::new(1, 1));
    assert_eq!(mouse.delta(), Vec2::new(3, 5));
    assert!(mouse.is_pressed(MouseButton::Left));
    assert!(!mouse.is_pressed(MouseButton::Right));
    assert!(mouse.is_pressed(MouseButton::Middle));
    assert!(mouse.is_pressed(MouseButton::Back));
    assert!(mouse.just_pressed(MouseButton::Left));
    mouse.update();
    mouse.begin_frame(Vec2::new(4, 6), false, false, true);
    assert!(mouse.just_released(MouseButton::Left));
    assert!(!mouse.just_pressed(MouseButton::Middle));
}
