use mallet::input::{Input, Poll, Reading, Signal, User};
use mallet::key::{Key, KeyboardKey, MouseButton};

fn held(key: Key) -> Reading {
    Reading { key, signal: Signal { before: true, now: true, repeat: false } }
}

fn pressed(key: Key) -> Reading {
    Reading { key, signal: Signal { before: false, now: true, repeat: false } }
}

fn released(key: Key) -> Reading {
    Reading { key, signal: Signal { before: true, now: false, repeat: false } }
}

fn poll_of(reading: Vec<Reading>) -> Poll {
    let mut poll = Poll::new();
    poll.reading = reading;
    poll
}

#[test]
fn keys_have_their_names() {
    assert_eq!(Key::Keyboard(KeyboardKey::Null).name(), "Null");
    assert_eq!(Key::Keyboard(KeyboardKey::Zero).name(), "Zero");
    assert_eq!(Key::Keyboard(KeyboardKey::One).name(), "1");
    assert_eq!(Key::Keyboard(KeyboardKey::Nine).name(), "9");
    assert_eq!(Key::Keyboard(KeyboardKey::A).name(), "A");
    assert_eq!(Key::Keyboard(KeyboardKey::Tab).name(), "Tabulator");
    assert_eq!(Key::Keyboard(KeyboardKey::NumLock).name(), "Number Lock");
    assert_eq!(Key::Keyboard(KeyboardKey::LeftControl).name(), "L. Control");
    assert_eq!(Key::Keyboard(KeyboardKey::RightSuper).name(), "R. Super");
    assert_eq!(Key::Keyboard(KeyboardKey::KbMenu).name(), "Keyboard Menu");
    assert_eq!(Key::Keyboard(KeyboardKey::Kp0).name(), "Pad 0");
    assert_eq!(Key::Keyboard(KeyboardKey::KpEqual).name(), "Pad Equal");
    assert_eq!(Key::Keyboard(KeyboardKey::VolumeDown).name(), "Volume Down");
    assert_eq!(Key::Mouse(MouseButton::Left).name(), "Mouse Left");
    assert_eq!(Key::Mouse(MouseButton::Back).name(), "Mouse Back");
}

#[test]
fn names_stand_for_their_keys() {
    assert_eq!(Key::from("Null"), Key::Keyboard(KeyboardKey::Null));
    assert_eq!(Key::from("1"), Key::Keyboard(KeyboardKey::One));
    assert_eq!(Key::from("Zero"), Key::Keyboard(KeyboardKey::Zero));
    assert_eq!(Key::from("Left"), Key::Keyboard(KeyboardKey::Left));
    assert_eq!(Key::from("Left Bracket"), Key::Keyboard(KeyboardKey::LeftBracket));
    assert_eq!(Key::from("F1"), Key::Keyboard(KeyboardKey::F1));
    assert_eq!(Key::from("F12"), Key::Keyboard(KeyboardKey::F12));
    assert_eq!(Key::from("Back"), Key::Keyboard(KeyboardKey::Back));
    assert_eq!(Key::from("Mouse Back"), Key::Mouse(MouseButton::Back));
    assert_eq!(Key::from("Mouse Middle"), Key::Mouse(MouseButton::Middle));
}

#[test]
fn a_name_of_no_key_stands_for_the_null_key() {
    assert_eq!(Key::from(""), Key::Keyboard(KeyboardKey::Null));
    assert_eq!(Key::from("0"), Key::Keyboard(KeyboardKey::Null));
    assert_eq!(Key::from("a"), Key::Keyboard(KeyboardKey::Null));
    assert_eq!(Key::from("KEY_A"), Key::Keyboard(KeyboardKey::Null));
    assert_eq!(Key::from("Mouse"), Key::Keyboard(KeyboardKey::Null));
}

#[test]
fn a_name_of_no_key_is_told_from_the_name_of_the_null_key() {
    assert_eq!(Key::parse("Null"), Some(Key::Keyboard(KeyboardKey::Null)));
    assert_eq!(Key::parse("Banana"), None);
    assert_eq!(Key::parse(""), None);
    assert_eq!(Key::parse("0"), None);
    assert_eq!(Key::parse("a"), None);
    assert_eq!(Key::parse("null"), None);
    assert_eq!(Key::parse("Mouse"), None);
    assert_eq!(Key::parse("Mouse Left "), None);
    assert_eq!(Key::parse("1"), Some(Key::Keyboard(KeyboardKey::One)));
    assert_eq!(Key::parse("L. Control"), Some(Key::Keyboard(KeyboardKey::LeftControl)));
    assert_eq!(Key::parse("Mouse Back"), Some(Key::Mouse(MouseButton::Back)));
}

#[test]
fn every_key_is_named_apart() {
    let keyboard = [
        KeyboardKey::Null, KeyboardKey::Apostrophe, KeyboardKey::Comma, KeyboardKey::Minus,
        KeyboardKey::Period, KeyboardKey::Slash, KeyboardKey::Zero, KeyboardKey::One,
        KeyboardKey::Two, KeyboardKey::Three, KeyboardKey::Four, KeyboardKey::Five,
        KeyboardKey::Six, KeyboardKey::Seven, KeyboardKey::Eight, KeyboardKey::Nine,
        KeyboardKey::Semicolon, KeyboardKey::Equal, KeyboardKey::A, KeyboardKey::B,
        KeyboardKey::C, KeyboardKey::D, KeyboardKey::E, KeyboardKey::F, KeyboardKey::G,
        KeyboardKey::H, KeyboardKey::I, KeyboardKey::J, KeyboardKey::K, KeyboardKey::L,
        KeyboardKey::M, KeyboardKey::N, KeyboardKey::O, KeyboardKey::P, KeyboardKey::Q,
        KeyboardKey::R, KeyboardKey::S, KeyboardKey::T, KeyboardKey::U, KeyboardKey::V,
        KeyboardKey::W, KeyboardKey::X, KeyboardKey::Y, KeyboardKey::Z,
        KeyboardKey::LeftBracket, KeyboardKey::Backslash, KeyboardKey::RightBracket,
        KeyboardKey::Grave, KeyboardKey::Space, KeyboardKey::Escape, KeyboardKey::Enter,
        KeyboardKey::Tab, KeyboardKey::Backspace, KeyboardKey::Insert, KeyboardKey::Delete,
        KeyboardKey::Right, KeyboardKey::Left, KeyboardKey::Down, KeyboardKey::Up,
        KeyboardKey::PageUp, KeyboardKey::PageDown, KeyboardKey::Home, KeyboardKey::End,
        KeyboardKey::CapsLock, KeyboardKey::ScrollLock, KeyboardKey::NumLock,
        KeyboardKey::PrintScreen, KeyboardKey::Pause, KeyboardKey::F1, KeyboardKey::F2,
        KeyboardKey::F3, KeyboardKey::F4, KeyboardKey::F5, KeyboardKey::F6, KeyboardKey::F7,
        KeyboardKey::F8, KeyboardKey::F9, KeyboardKey::F10, KeyboardKey::F11, KeyboardKey::F12,
        KeyboardKey::LeftShift, KeyboardKey::LeftControl, KeyboardKey::LeftAlt,
        KeyboardKey::LeftSuper, KeyboardKey::RightShift, KeyboardKey::RightControl,
        KeyboardKey::RightAlt, KeyboardKey::RightSuper, KeyboardKey::KbMenu, KeyboardKey::Kp0,
        KeyboardKey::Kp1, KeyboardKey::Kp2, KeyboardKey::Kp3, KeyboardKey::Kp4, KeyboardKey::Kp5,
        KeyboardKey::Kp6, KeyboardKey::Kp7, KeyboardKey::Kp8, KeyboardKey::Kp9,
        KeyboardKey::KpDecimal, KeyboardKey::KpDivide, KeyboardKey::KpMultiply,
        KeyboardKey::KpSubtract, KeyboardKey::KpAdd, KeyboardKey::KpEnter, KeyboardKey::KpEqual,
        KeyboardKey::Back, KeyboardKey::Menu, KeyboardKey::VolumeUp, KeyboardKey::VolumeDown,
    ];
    assert_eq!(keyboard.len(), 110);
    for key in keyboard {
        let key = Key::Keyboard(key);
        assert_eq!(Key::from(key.name()), key);
        assert_eq!(Key::parse(key.name()), Some(key));
    }
    let mouse = [
        MouseButton::Left, MouseButton::Right, MouseButton::Middle, MouseButton::Side,
        MouseButton::Extra, MouseButton::Forward, MouseButton::Back,
    ];
    for button in mouse {
        let key = Key::Mouse(button);
        assert_eq!(Key::from(key.name()), key);
        assert_eq!(Key::parse(key.name()), Some(key));
    }
}

#[test]
fn a_signal_tells_press_from_release() {
    let press = Signal { before: false, now: true, repeat: false };
    assert!(press.press() && press.down() && !press.up() && !press.release());
    let release = Signal { before: true, now: false, repeat: false };
    assert!(release.release() && release.up() && !release.down() && !release.press());
    let hold = Signal { before: true, now: true, repeat: false };
    assert!(hold.down() && !hold.press() && !hold.release());
    let idle = Signal::idle();
    assert!(idle.up() && !idle.press() && !idle.release() && !idle.down());
}

#[test]
fn a_button_that_was_not_read_is_idle() {
    let poll = poll_of(vec![pressed(Key::Keyboard(KeyboardKey::A))]);
    assert_eq!(poll.signal(Key::Keyboard(KeyboardKey::B)), Signal::idle());
    assert!(Key::Keyboard(KeyboardKey::B).get_up(&poll));
    assert!(!Key::Keyboard(KeyboardKey::A).get_up(&poll));
}

#[test]
fn the_first_reading_of_a_button_counts() {
    let key = Key::Keyboard(KeyboardKey::A);
    let poll = poll_of(vec![pressed(key), released(key)]);
    assert!(key.get_press(&poll));
    assert!(!key.get_release(&poll));
}

#[test]
fn a_key_that_repeats_counts_as_pressed() {
    let key = Key::Keyboard(KeyboardKey::Backspace);
    let poll = poll_of(
        vec![Reading { key, signal: Signal { before: true, now: true, repeat: true } }],
    );
    assert!(key.get_press(&poll));
    let button = Key::Mouse(MouseButton::Left);
    let poll = poll_of(
        vec![Reading { key: button, signal: Signal { before: true, now: true, repeat: true } }],
    );
    assert!(!button.get_press(&poll));
}

#[test]
fn a_binding_with_a_modifier_wants_it_held() {
    let control = Key::Keyboard(KeyboardKey::LeftControl);
    let x = Key::Keyboard(KeyboardKey::X);
    let input = Input::new(Some(control), x);
    assert!(!input.get_press(&poll_of(vec![pressed(x)])));
    assert!(input.get_press(&poll_of(vec![held(control), pressed(x)])));
    assert!(input.get_press(&poll_of(vec![pressed(control), pressed(x)])));
    assert!(!input.get_press(&poll_of(vec![held(control), held(x)])));
    assert!(input.get_down(&poll_of(vec![held(control), held(x)])));
    assert!(!input.get_down(&poll_of(vec![held(x)])));
    assert!(input.get_release(&poll_of(vec![held(control), released(x)])));
    assert!(!input.get_release(&poll_of(vec![released(x)])));
    assert!(input.get_up(&poll_of(vec![])));
    assert!(!input.get_up(&poll_of(vec![held(control)])));
}

#[test]
fn a_binding_without_a_modifier_goes_by_its_button() {
    let w = Key::Keyboard(KeyboardKey::W);
    let input = Input::new(None, w);
    assert!(input.get_press(&poll_of(vec![pressed(w)])));
    assert!(input.get_down(&poll_of(vec![held(w)])));
    assert!(input.get_release(&poll_of(vec![released(w)])));
    assert!(input.get_up(&poll_of(vec![released(w)])));
    assert!(!input.get_up(&poll_of(vec![held(w)])));
}

#[test]
fn the_bindings_of_a_fresh_installation() {
    let user = User::default();
    assert_eq!(user.mouse_speed, [1000, 1000]);
    assert_eq!(user.move_x_a, Input::new(None, Key::Keyboard(KeyboardKey::W)));
    assert_eq!(user.move_x_b, Input::new(None, Key::Keyboard(KeyboardKey::S)));
    assert_eq!(user.move_y_a, Input::new(None, Key::Keyboard(KeyboardKey::A)));
    assert_eq!(user.move_y_b, Input::new(None, Key::Keyboard(KeyboardKey::D)));
    assert_eq!(user.interact, Input::new(None, Key::Mouse(MouseButton::Left)));
    assert_eq!(user.look, Input::new(None, Key::Mouse(MouseButton::Right)));
    assert_eq!(user.texture, Input::new(None, Key::Keyboard(KeyboardKey::Seven)));
    assert_eq!(user.entity, Input::new(None, Key::Keyboard(KeyboardKey::Eight)));
    assert_eq!(user.position, Input::new(None, Key::Keyboard(KeyboardKey::One)));
    assert_eq!(user.face, Input::new(None, Key::Keyboard(KeyboardKey::Six)));
    let control = Some(Key::Keyboard(KeyboardKey::LeftControl));
    assert_eq!(user.user, Input::new(control, Key::Keyboard(KeyboardKey::Z)));
    assert_eq!(user.reload, Input::new(control, Key::Keyboard(KeyboardKey::X)));
    assert_eq!(user.import, Input::new(control, Key::Keyboard(KeyboardKey::C)));
    assert_eq!(user.export, Input::new(control, Key::Keyboard(KeyboardKey::V)));
    assert_eq!(user.exit, Input::new(control, Key::Keyboard(KeyboardKey::B)));
}
