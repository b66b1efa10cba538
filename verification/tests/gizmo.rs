use mallet::gizmo::{Data, State};
use mallet::input::{Poll, Reading, Signal};
use mallet::key::{Key, MouseButton};
use mallet::shape::{Color, Rectangle, Vector2};
use mallet::window::Window;

fn frame(x: i64, y: i64, before: bool, now: bool) -> Poll {
    let mut poll = Poll::new();
    poll.mouse = Vector2::new(x, y);
    poll.time = 16;
    poll.reading = vec![
        Reading {
            key: Key::Mouse(MouseButton::Left),
            signal: Signal { before, now, repeat: false },
        },
    ];
    poll
}

fn button() -> Rectangle {
    Rectangle::new(20000, 20000, 160000, 32000)
}

#[test]
fn a_record_that_was_never_drawn_is_fresh() {
    let mut window = Window::new();
    let data = *Data::get(&mut window, "Position");
    assert_eq!(
        data,
        Data { hover: 0, focus: 0, active: false, scroll_shift: 0, scroll_shape: 0 }
    );
    assert_eq!(data, Data::default());
}

#[test]
fn looking_a_record_up_twice_gives_the_same_record() {
    let mut window = Window::new();
    Data::get(&mut window, "Rotation").hover = 250;
    let first = *Data::get(&mut window, "Position");
    let between = window.clone();
    let second = *Data::get(&mut window, "Position");
    assert_eq!(first, second);
    assert_eq!(window, between);
    assert_eq!(window.gizmo.len(), 2);
}

#[test]
fn a_write_to_a_record_is_there_at_the_next_lookup() {
    let mut window = Window::new();
    {
        let data = Data::get(&mut window, "##Entity Data");
        data.hover = 700;
        data.active = true;
        data.scroll_shape = 500000;
    }
    Data::get(&mut window, "Other").focus = 1;
    let data = *Data::get(&mut window, "##Entity Data");
    assert_eq!(data.hover, 700);
    assert!(data.active);
    assert_eq!(data.scroll_shape, 500000);
    assert_eq!(Data::get(&mut window, "Other").focus, 1);
    assert_eq!(Data::get(&mut window, "Other").hover, 0);
}

#[test]
fn of_two_records_under_one_identity_the_first_counts() {
    let mut window = Window::new();
    Data::get(&mut window, "X").hover = 1;
    let slot = window.gizmo[0].clone();
    window.gizmo.push(slot);
    window.gizmo[1].data.hover = 2;
    assert_eq!(Data::get(&mut window, "X").hover, 1);
    assert_eq!(window.gizmo.len(), 2);
}

#[test]
fn a_control_warms_by_sixteen_a_second() {
    let mut poll = Poll::new();
    poll.time = 10;
    let mut data = Data::default();
    data.set_hover(&poll, true);
    assert_eq!(data.hover, 160);
    data.set_hover(&poll, true);
    assert_eq!(data.hover, 320);
    data.set_hover(&poll, false);
    assert_eq!(data.hover, 160);
    data.set_focus(&poll, true);
    assert_eq!(data.focus, 160);
    assert_eq!(data.hover, 160);
    data.set_focus(&poll, false);
    data.set_focus(&poll, false);
    assert_eq!(data.focus, 0);
}

#[test]
fn animated_values_stay_between_zero_and_one() {
    let mut data = Data::default();
    let times = [0i64, 1, 16, 33, 1000, 62, 63, i64::MAX, i64::MIN, -5, 7];
    let mut k = 0;
    for round in 0..200 {
        let mut poll = Poll::new();
        poll.time = times[round % times.len()];
        k = (k * 7 + 3) % 11;
        data.set_hover(&poll, k % 2 == 0);
        data.set_focus(&poll, k % 3 == 0);
        assert!(0 <= data.hover && data.hover <= 1000);
        assert!(0 <= data.focus && data.focus <= 1000);
    }
}

#[test]
fn a_long_frame_warms_a_control_all_the_way() {
    let mut poll = Poll::new();
    poll.time = 63;
    let mut data = Data::default();
    data.set_hover(&poll, true);
    assert_eq!(data.hover, 1000);
    poll.time = 62;
    let mut data = Data::default();
    data.set_hover(&poll, true);
    assert_eq!(data.hover, 992);
}

#[test]
fn a_control_rises_as_it_warms_and_sinks_as_it_is_pressed() {
    let mut data = Data::default();
    assert_eq!(data.get_point(), 0);
    data.hover = 1000;
    assert_eq!(data.get_point(), 4000);
    data.focus = 1000;
    assert_eq!(data.get_point(), 0);
    data.hover = 0;
    assert_eq!(data.get_point(), -4000);
    data.hover = 500;
    data.focus = 250;
    assert_eq!(data.get_point(), 1000);
    assert_eq!(
        data.get_shape(&Rectangle::new(1, 5000, 3, 4)),
        Rectangle::new(1, 4000, 3, 4)
    );
}

#[test]
fn a_cold_control_is_three_quarters_as_bright() {
    let mut data = Data::default();
    assert_eq!(data.get_color(&Color::new(255, 68, 138, 77)), Color::new(191, 51, 103, 77));
    data.hover = 1000;
    assert_eq!(data.get_color(&Color::new(255, 68, 138, 77)), Color::new(255, 68, 138, 77));
    data.hover = 500;
    assert_eq!(data.get_color(&Color::new(255, 68, 138, 0)), Color::new(223, 59, 120, 0));
}

#[test]
fn the_pointer_over_a_control_is_hover() {
    let mut window = Window::new();
    let state = State::get(&mut window, &frame(30000, 30000, false, false), button());
    assert_eq!(state, State { hover: true, focus: false, click: false });
    let state = State::get(&mut window, &frame(10000, 30000, false, false), button());
    assert_eq!(state, State { hover: false, focus: false, click: false });
    assert_eq!(window.count, 2);
    assert_eq!(window.focus, None);
}

#[test]
fn a_press_over_a_control_takes_the_mouse() {
    let mut window = Window::new();
    window.count = 3;
    let state = State::get(&mut window, &frame(30000, 30000, false, true), button());
    assert_eq!(state, State { hover: true, focus: true, click: false });
    assert_eq!(window.focus, Some(3));
    assert_eq!(window.count, 4);
}

#[test]
fn a_press_beside_a_control_takes_nothing() {
    let mut window = Window::new();
    let state = State::get(&mut window, &frame(0, 0, false, true), button());
    assert_eq!(state, State { hover: false, focus: false, click: false });
    assert_eq!(window.focus, None);
}

#[test]
fn a_held_button_takes_nothing() {
    let mut window = Window::new();
    let state = State::get(&mut window, &frame(30000, 30000, true, true), button());
    assert_eq!(state, State { hover: true, focus: false, click: false });
    assert_eq!(window.focus, None);
}

#[test]
fn press_and_release_over_a_control_is_a_click() {
    let mut window = Window::new();
    window.begin();
    let state = State::get(&mut window, &frame(30000, 30000, false, true), button());
    assert!(state.focus && !state.click);
    window.begin();
    let state = State::get(&mut window, &frame(31000, 30000, true, true), button());
    assert!(state.focus && !state.click);
    assert_eq!(window.focus, Some(0));
    window.begin();
    let state = State::get(&mut window, &frame(32000, 30000, true, false), button());
    assert_eq!(state, State { hover: true, focus: true, click: true });
    assert_eq!(window.focus, None);
}

#[test]
fn press_inside_and_release_outside_is_no_click() {
    let mut window = Window::new();
    window.begin();
    let state = State::get(&mut window, &frame(30000, 30000, false, true), button());
    assert_eq!(state, State { hover: true, focus: true, click: false });
    assert_eq!(window.focus, Some(0));
    window.begin();
    let state = State::get(&mut window, &frame(300000, 30000, true, true), button());
    assert_eq!(state, State { hover: false, focus: true, click: false });
    assert_eq!(window.focus, Some(0));
    window.begin();
    let state = State::get(&mut window, &frame(300000, 30000, true, false), button());
    assert_eq!(state, State { hover: false, focus: true, click: false });
    assert_eq!(window.focus, None);
    window.begin();
    let state = State::get(&mut window, &frame(30000, 30000, false, false), button());
    assert_eq!(state, State { hover: true, focus: false, click: false });
}

#[test]
fn press_outside_and_release_inside_is_no_click() {
    let mut window = Window::new();
    window.begin();
    State::get(&mut window, &frame(300000, 30000, false, true), button());
    assert_eq!(window.focus, None);
    window.begin();
    let state = State::get(&mut window, &frame(30000, 30000, true, false), button());
    assert_eq!(state, State { hover: true, focus: false, click: false });
}

#[test]
fn of_controls_in_one_place_one_takes_the_mouse() {
    let mut window = Window::new();
    window.begin();
    let poll = frame(30000, 30000, false, true);
    let states: Vec<State> = (0..5).map(|_| State::get(&mut window, &poll, button())).collect();
    assert_eq!(states.iter().filter(|s| s.focus).count(), 1);
    assert!(states[0].focus);
    assert_eq!(window.focus, Some(0));
    window.begin();
    let poll = frame(30000, 30000, true, false);
    let states: Vec<State> = (0..5).map(|_| State::get(&mut window, &poll, button())).collect();
    assert_eq!(states.iter().filter(|s| s.focus).count(), 1);
    assert_eq!(states.iter().filter(|s| s.click).count(), 1);
    assert!(states[0].click);
    assert_eq!(window.focus, None);
}

#[test]
fn the_mouse_stays_with_the_control_that_took_it() {
    let mut window = Window::new();
    window.begin();
    let poll = frame(30000, 30000, false, true);
    let other = Rectangle::new(20000, 100000, 160000, 32000);
    assert!(!State::get(&mut window, &poll, other).focus);
    assert!(State::get(&mut window, &poll, button()).focus);
    assert_eq!(window.focus, Some(1));
    window.begin();
    let poll = frame(30000, 110000, true, true);
    let first = State::get(&mut window, &poll, other);
    let second = State::get(&mut window, &poll, button());
    assert_eq!(first, State { hover: true, focus: false, click: false });
    assert_eq!(second, State { hover: false, focus: true, click: false });
}

#[test]
fn the_last_token_takes_nothing() {
    let mut window = Window::new();
    window.count = u64::MAX;
    let poll = frame(30000, 30000, false, true);
    let state = State::get(&mut window, &poll, button());
    assert_eq!(state, State { hover: true, focus: false, click: false });
    assert_eq!(window.focus, None);
    assert_eq!(window.count, u64::MAX);
    window.focus = Some(u64::MAX);
    let state = State::get(&mut window, &poll, button());
    assert!(!state.focus);
}

#[test]
fn a_frame_begins_at_the_origin_with_the_first_token() {
    let mut window = Window::new();
    window.point(Vector2::new(5, 6));
    window.skip();
    window.skip();
    assert_eq!(window.count, 2);
    window.begin();
    assert_eq!(window.point, Vector2::new(0, 0));
    assert_eq!(window.count, 0);
}

#[test]
fn a_holder_that_took_no_token_is_let_go() {
    let mut window = Window::new();
    window.focus = Some(5);
    window.count = 3;
    window.begin();
    assert_eq!(window.focus, None);
    window.focus = Some(1);
    window.count = 3;
    window.begin();
    assert_eq!(window.focus, Some(1));
    window.focus = Some(3);
    window.count = 3;
    window.begin();
    assert_eq!(window.focus, None);
}

#[test]
fn a_clip_region_gates_hover_and_drawing() {
    let mut window = Window::new();
    let clip = Rectangle::new(0, 0, 100000, 100000);
    window.shape(Some(clip));
    let inside = Rectangle::new(50000, 50000, 100000, 100000);
    let outside = Rectangle::new(100000, 0, 50000, 50000);
    assert!(window.check_draw(inside));
    assert!(!window.check_draw(outside));
    assert!(window.check_mouse(&frame(60000, 60000, false, false), inside));
    assert!(!window.check_mouse(&frame(120000, 60000, false, false), inside));
    assert!(!window.check_mouse(&frame(120000, 10000, false, false), outside));
    window.shape(None);
    assert!(window.check_draw(outside));
    assert!(window.check_mouse(&frame(120000, 60000, false, false), inside));
    assert!(window.check_mouse(&frame(120000, 10000, false, false), outside));
}

#[test]
fn two_controls_under_one_identity_share_a_record() {
    let mut window = Window::new();
    let mut draw = mallet::draw::Canvas::new();
    let mut poll = frame(30000, 30000, false, false);
    poll.time = 10;
    window.point(Vector2::new(20000, 20000));
    let (_, first) = window.button(&mut draw, &poll, "Same");
    let (_, second) = window.button(&mut draw, &poll, "Same");
    assert_eq!(first.hover, 160);
    assert_eq!(second.hover, 0);
    assert_eq!(window.gizmo.len(), 1);
    assert_eq!(window.count, 2);
}
