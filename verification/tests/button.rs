use launchpad_mk2::button::{Button, ButtonStroke, BOARD_SLOTS};

fn board_buttons() -> Vec<Button> {
    let mut all = vec![
        Button::Up,
        Button::Down,
        Button::Left,
        Button::Right,
        Button::Session,
        Button::User1,
        Button::User2,
        Button::Mixer,
        Button::Volume,
        Button::Pan,
        Button::SendA,
        Button::SendB,
        Button::Stop,
        Button::Mute,
        Button::Solo,
        Button::RecordArm,
    ];
    for row in 1..=8u8 {
        for col in 1..=8u8 {
            all.push(Button::Grid(row, col));
        }
    }
    all
}

#[test]
fn id_of_round_buttons() {
    assert_eq!(Button::Up.id(), 104);
    assert_eq!(Button::Down.id(), 105);
    assert_eq!(Button::Mixer.id(), 111);
    assert_eq!(Button::Volume.id(), 89);
    assert_eq!(Button::Pan.id(), 79);
    assert_eq!(Button::RecordArm.id(), 19);
}

#[test]
fn id_of_grid_pads() {
    assert_eq!(Button::Grid(1, 1).id(), 11);
    assert_eq!(Button::Grid(3, 4).id(), 34);
    assert_eq!(Button::Grid(8, 8).id(), 88);
}

#[test]
fn index_of_round_buttons() {
    assert_eq!(Button::Up.index(), 0);
    assert_eq!(Button::Mixer.index(), 7);
    assert_eq!(Button::Volume.index(), 16);
    assert_eq!(Button::Pan.index(), 25);
    assert_eq!(Button::SendA.index(), 34);
    assert_eq!(Button::SendB.index(), 43);
    assert_eq!(Button::Stop.index(), 52);
    assert_eq!(Button::Mute.index(), 61);
    assert_eq!(Button::Solo.index(), 70);
    assert_eq!(Button::RecordArm.index(), 79);
}

#[test]
fn index_of_grid_pads() {
    assert_eq!(Button::Grid(8, 1).index(), 8);
    assert_eq!(Button::Grid(8, 8).index(), 15);
    assert_eq!(Button::Grid(7, 3).index(), 19);
    assert_eq!(Button::Grid(1, 1).index(), 71);
    assert_eq!(Button::Grid(1, 8).index(), 78);
}

#[test]
fn board_buttons_fill_the_slots_once() {
    let mut seen = vec![false; BOARD_SLOTS];
    for b in board_buttons() {
        assert!(b.is_on_board());
        let i = b.index();
        assert!(i < BOARD_SLOTS);
        assert!(!seen[i], "slot {} taken twice", i);
        seen[i] = true;
    }
    assert!(seen.iter().all(|s| *s));
}

#[test]
fn board_buttons_have_distinct_ids() {
    let ids: Vec<u8> = board_buttons().iter().map(|b| b.id()).collect();
    for (i, a) in ids.iter().enumerate() {
        for b in ids.iter().skip(i + 1) {
            assert_ne!(a, b);
        }
    }
}

#[test]
fn off_board_addresses() {
    assert!(!Button::Grid(0, 1).is_on_board());
    assert!(!Button::Grid(9, 1).is_on_board());
    assert!(!Button::Grid(2, 0).is_on_board());
    assert!(!Button::Grid(2, 9).is_on_board());
    assert!(Button::Stop.is_on_board());
}

#[test]
fn from_top_controls() {
    assert_eq!(ButtonStroke::from([176, 104, 127]), ButtonStroke::Press(Button::Up));
    assert_eq!(ButtonStroke::from([176, 108, 1]), ButtonStroke::Press(Button::Session));
    assert_eq!(ButtonStroke::from([176, 111, 0]), ButtonStroke::Release(Button::Mixer));
}

#[test]
fn from_right_column() {
    assert_eq!(ButtonStroke::from([144, 89, 127]), ButtonStroke::Press(Button::Volume));
    assert_eq!(ButtonStroke::from([144, 19, 0]), ButtonStroke::Release(Button::RecordArm));
    assert_eq!(ButtonStroke::from([144, 49, 5]), ButtonStroke::Press(Button::Stop));
}

#[test]
fn from_grid() {
    assert_eq!(ButtonStroke::from([144, 34, 127]), ButtonStroke::Press(Button::Grid(3, 4)));
    assert_eq!(ButtonStroke::from([144, 11, 0]), ButtonStroke::Release(Button::Grid(1, 1)));
    assert_eq!(ButtonStroke::from([144, 88, 64]), ButtonStroke::Press(Button::Grid(8, 8)));
    assert_eq!(ButtonStroke::from([144, 20, 127]), ButtonStroke::Press(Button::Grid(2, 0)));
}

#[test]
fn unknown_messages() {
    assert_eq!(ButtonStroke::try_from_message([128, 34, 0]), None);
    assert_eq!(ButtonStroke::try_from_message([176, 103, 127]), None);
    assert_eq!(ButtonStroke::try_from_message([176, 112, 127]), None);
    assert_eq!(ButtonStroke::try_from_message([176, 34, 127]), None);
    assert_eq!(ButtonStroke::try_from_message([144, 10, 127]), None);
    assert_eq!(ButtonStroke::try_from_message([144, 90, 127]), None);
    assert_eq!(ButtonStroke::try_from_message([144, 104, 127]), None);
    assert_eq!(
        ButtonStroke::try_from_message([144, 55, 127]),
        Some(ButtonStroke::Press(Button::Grid(5, 5)))
    );
}

#[test]
fn message_round_trip() {
    for b in board_buttons() {
        let status = match b {
            Button::Up
            | Button::Down
            | Button::Left
            | Button::Right
            | Button::Session
            | Button::User1
            | Button::User2
            | Button::Mixer => 176,
            _ => 144,
        };
        assert_eq!(ButtonStroke::from([status, b.id(), 127]), ButtonStroke::Press(b));
        assert_eq!(ButtonStroke::from([status, b.id(), 0]), ButtonStroke::Release(b));
    }
}

#[test]
fn unwrap_gives_the_button() {
    assert_eq!(ButtonStroke::Press(Button::Grid(4, 2)).unwrap(), Button::Grid(4, 2));
    assert_eq!(ButtonStroke::Release(Button::Solo).unwrap(), Button::Solo);
}

#[test]
fn led_messages() {
    assert_eq!(ButtonStroke::Press(Button::Grid(3, 4)).led_message(), [0x90, 34, 127]);
    assert_eq!(ButtonStroke::Release(Button::Grid(3, 4)).led_message(), [0x80, 34, 0]);
    assert_eq!(ButtonStroke::Press(Button::Up).led_message(), [0x90, 104, 127]);
}
