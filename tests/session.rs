use batlights::codec::{encode_color, encode_mic, encode_pattern, encode_power};
use batlights::controller::Color;
use batlights::session::{ActiveTab, App, ColorChannel, Effect, Key};

#[test]
fn new_session_defaults() {
    let app = App::new();
    assert!(app.power);
    assert_eq!(app.color, Color { r: 255, g: 255, b: 0 });
    assert_eq!(app.pattern, 0);
    assert_eq!(app.mic_sensitivity, 0);
    assert_eq!(app.active_tab, ActiveTab::Color);
    assert_eq!(app.color_selection, ColorChannel::Red);
}

#[test]
fn color_increment_saturates_from_253() {
    let mut app = App::new();
    app.color = Color { r: 253, g: 0, b: 0 };
    for _ in 0..3 {
        let e = app.on_key(Key::Up);
        assert_eq!(app.color.r, 255);
        assert_eq!(e, Effect::Emit(encode_color(Color { r: 255, g: 0, b: 0 })));
    }
}

#[test]
fn color_decrement_moves_selected_channel() {
    let mut app = App::new();
    assert_eq!(app.on_key(Key::Char('2')), Effect::Nothing);
    assert_eq!(app.color_selection, ColorChannel::Green);
    let e = app.on_key(Key::Char('j'));
    assert_eq!(app.color, Color { r: 255, g: 250, b: 0 });
    assert_eq!(e, Effect::Emit(encode_color(Color { r: 255, g: 250, b: 0 })));
    app.on_key(Key::Char('3'));
    let e = app.on_key(Key::Down);
    assert_eq!(app.color.b, 0);
    assert_eq!(e, Effect::Emit(encode_color(Color { r: 255, g: 250, b: 0 })));
    app.on_key(Key::Char('1'));
    app.on_key(Key::Char('k'));
    assert_eq!(app.color.r, 255);
}

#[test]
fn six_forward_rotations_return_to_start() {
    let mut app = App::new();
    let start = app;
    let expected = [ActiveTab::Pattern, ActiveTab::Mic, ActiveTab::Color];
    for i in 0..6 {
        assert_eq!(app.on_key(Key::Tab), Effect::Nothing);
        assert_eq!(app.active_tab, expected[i % 3]);
    }
    assert_eq!(app, start);
}

#[test]
fn backward_rotation_reverses() {
    let mut app = App::new();
    app.on_key(Key::BackTab);
    assert_eq!(app.active_tab, ActiveTab::Mic);
    app.on_key(Key::BackTab);
    assert_eq!(app.active_tab, ActiveTab::Pattern);
    app.on_key(Key::Tab);
    assert_eq!(app.active_tab, ActiveTab::Mic);
}

#[test]
fn power_pressed_twice_restores_power() {
    let mut app = App::new();
    let start = app;
    let first = app.on_key(Key::Char('p'));
    assert!(!app.power);
    let second = app.on_key(Key::Char('p'));
    assert_eq!(app, start);
    let (a, b) = match (first, second) {
        (Effect::Emit(a), Effect::Emit(b)) => (a, b),
        _ => panic!("both presses must send a frame"),
    };
    assert_eq!(a, encode_power(false));
    assert_eq!(b, encode_power(true));
    let differing: Vec<usize> = (0..9).filter(|&i| a[i] != b[i]).collect();
    assert_eq!(differing, vec![3]);
}

#[test]
fn quit_sends_nothing_and_keeps_state() {
    let mut app = App::new();
    let start = app;
    assert_eq!(app.on_key(Key::Char('q')), Effect::Quit);
    assert_eq!(app, start);
}

#[test]
fn pattern_tab_adjusts_and_clamps_in_frame() {
    let mut app = App::new();
    app.on_key(Key::Tab);
    assert_eq!(app.on_key(Key::Down), Effect::Emit(encode_pattern(0)));
    assert_eq!(app.pattern, 0);
    app.pattern = 210;
    assert_eq!(app.on_key(Key::Up), Effect::Emit(encode_pattern(210)));
    assert_eq!(app.pattern, 211);
    app.pattern = 255;
    assert_eq!(app.on_key(Key::Char('k')), Effect::Emit(encode_pattern(255)));
    assert_eq!(app.pattern, 255);
}

#[test]
fn mic_tab_adjusts_full_range() {
    let mut app = App::new();
    app.on_key(Key::BackTab);
    assert_eq!(app.on_key(Key::Up), Effect::Emit(encode_mic(1)));
    app.mic_sensitivity = 255;
    assert_eq!(app.on_key(Key::Up), Effect::Emit(encode_mic(255)));
    assert_eq!(app.on_key(Key::Char('j')), Effect::Emit(encode_mic(254)));
}

#[test]
fn unrecognised_keys_change_nothing() {
    let mut app = App::new();
    let start = app;
    assert_eq!(app.on_key(Key::Other), Effect::Nothing);
    assert_eq!(app.on_key(Key::Char('x')), Effect::Nothing);
    assert_eq!(app, start);
    app.on_key(Key::Tab);
    let on_pattern = app;
    assert_eq!(app.on_key(Key::Char('1')), Effect::Nothing);
    assert_eq!(app, on_pattern);
}

#[test]
fn increment_then_decrement_restores_color() {
    let mut app = App::new();
    app.on_key(Key::Char('3'));
    let start = app;
    app.on_key(Key::Up);
    assert_eq!(app.color.b, 5);
    assert_eq!(app.on_key(Key::Down), Effect::Emit(encode_color(start.color)));
    assert_eq!(app, start);
}
