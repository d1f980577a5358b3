use launchpad_mk2::binds::{Binding, BoardBinds, Key};
use launchpad_mk2::blank_binds;
use launchpad_mk2::button::{Button, ButtonStroke};
use launchpad_mk2::keyboard::{grid_bind, pre_initialization};

fn board_strokes() -> Vec<ButtonStroke> {
    let mut buttons = vec![
        Button::Up,
        Button::Down,
        Button::Left,
        Button::Right,
        Button::Session,
        Button::User1,
        Button::User2,
        Button::Mixer,
        Button::Volume,
        Button::Pan,
        Button::SendA,
        Button::SendB,
        Button::Stop,
        Button::Mute,
        Button::Solo,
        Button::RecordArm,
    ];
    for row in 1..=8u8 {
        for col in 1..=8u8 {
            buttons.push(Button::Grid(row, col));
        }
    }
    let mut strokes = Vec::new();
    for b in buttons {
        strokes.push(ButtonStroke::Press(b));
        strokes.push(ButtonStroke::Release(b));
    }
    strokes
}

#[test]
fn blank_binds_are_all_nothing() {
    let table = blank_binds();
    assert_eq!(table.len(), 80);
    assert!(table.iter().all(|b| *b == Binding::Nothing));
}

#[test]
fn new_tables_bind_nothing() {
    let binds = BoardBinds::new();
    for s in board_strokes() {
        assert_eq!(binds.binding_for(s), Binding::Nothing);
    }
}

#[test]
fn bind_reads_back_and_leaves_the_rest() {
    let mut binds = BoardBinds::new();
    let stroke = ButtonStroke::Press(Button::Grid(7, 3));
    binds.bind(stroke, Binding::PressKey(Key::QKey));
    for s in board_strokes() {
        let expected = if s == stroke { Binding::PressKey(Key::QKey) } else { Binding::Nothing };
        assert_eq!(binds.binding_for(s), expected);
    }
    binds.bind(stroke, Binding::ClickLeft);
    assert_eq!(binds.binding_for(stroke), Binding::ClickLeft);
    assert_eq!(binds.binding_for(ButtonStroke::Release(Button::Grid(7, 3))), Binding::Nothing);
}

#[test]
fn right_column_and_last_pad_are_separate() {
    let mut binds = BoardBinds::new();
    binds.bind(ButtonStroke::Press(Button::RecordArm), Binding::ClickLeft);
    binds.bind(ButtonStroke::Press(Button::Grid(1, 8)), Binding::PressKey(Key::GKey));
    assert_eq!(binds.binding_for(ButtonStroke::Press(Button::RecordArm)), Binding::ClickLeft);
    assert_eq!(
        binds.binding_for(ButtonStroke::Press(Button::Grid(1, 8))),
        Binding::PressKey(Key::GKey)
    );
}

#[test]
fn grid_bind_binds_press_and_release() {
    let mut binds = BoardBinds::new();
    grid_bind(&mut binds, 5, 2, Key::LShiftKey);
    assert_eq!(
        binds.binding_for(ButtonStroke::Press(Button::Grid(5, 2))),
        Binding::PressKey(Key::LShiftKey)
    );
    assert_eq!(
        binds.binding_for(ButtonStroke::Release(Button::Grid(5, 2))),
        Binding::ReleaseKey(Key::LShiftKey)
    );
}

#[test]
fn keyboard_layout_bindings() {
    let mut binds = BoardBinds::new();
    pre_initialization(&mut binds);
    let grid = [
        ((7, 3), Key::QKey),
        ((7, 4), Key::WKey),
        ((7, 5), Key::EKey),
        ((7, 6), Key::RKey),
        ((6, 3), Key::AKey),
        ((6, 4), Key::SKey),
        ((6, 5), Key::DKey),
        ((5, 2), Key::LShiftKey),
        ((3, 6), Key::GKey),
    ];
    for s in board_strokes() {
        let mut expected = Binding::Nothing;
        if s == ButtonStroke::Press(Button::Up) {
            expected = Binding::ClickLeft;
        }
        for ((row, col), key) in grid.iter() {
            if s == ButtonStroke::Press(Button::Grid(*row, *col)) {
                expected = Binding::PressKey(*key);
            }
            if s == ButtonStroke::Release(Button::Grid(*row, *col)) {
                expected = Binding::ReleaseKey(*key);
            }
        }
        assert_eq!(binds.binding_for(s), expected);
    }
}
