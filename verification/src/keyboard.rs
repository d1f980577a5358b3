use vstd::prelude::*;

use crate::binds::{Binding, BoardBinds, Key};
use crate::button::{Button, ButtonStroke};

verus! {

/// The pad at `(row, col)` holds `key` down while it is pressed.
pub open spec fn with_grid_bind(
    m: Map<ButtonStroke, Binding>,
    row: u8,
    col: u8,
    key: Key,
) -> Map<ButtonStroke, Binding> {
    m.insert(ButtonStroke::Press(Button::Grid(row, col)), Binding::PressKey(key)).insert(
        ButtonStroke::Release(Button::Grid(row, col)),
        Binding::ReleaseKey(key),
    )
}

/// The bindings that [`pre_initialization`] adds: a press of `Up` clicks the
/// left mouse button, and nine pads stand for the keys Q, W, E, R (row 7,
/// columns 3 to 6), A, S, D (row 6, columns 3 to 5), left Shift (row 5,
/// column 2) and G (row 3, column 6).
pub open spec fn keyboard_layout(m: Map<ButtonStroke, Binding>) -> Map<ButtonStroke, Binding> {
    let m = m.insert(ButtonStroke::Press(Button::Up), Binding::ClickLeft);
    let m = with_grid_bind(m, 7, 3, Key::QKey);
    let m = with_grid_bind(m, 7, 4, Key::WKey);
    let m = with_grid_bind(m, 7, 5, Key::EKey);
    let m = with_grid_bind(m, 7, 6, Key::RKey);
    let m = with_grid_bind(m, 6, 3, Key::AKey);
    let m = with_grid_bind(m, 6, 4, Key::SKey);
    let m = with_grid_bind(m, 6, 5, Key::DKey);
    let m = with_grid_bind(m, 5, 2, Key::LShiftKey);
    with_grid_bind(m, 3, 6, Key::GKey)
}

/// What the layout binds: a press of `Up` clicks the left mouse button, and
/// each of nine pads holds its key down from press to release; every other
/// stroke keeps what it had.
pub proof fn lemma_layout_bindings(m: Map<ButtonStroke, Binding>, s: ButtonStroke)
    ensures
        keyboard_layout(m)[ButtonStroke::Press(Button::Up)] == Binding::ClickLeft,
        keyboard_layout(m)[ButtonStroke::Press(Button::Grid(7, 3))] == Binding::PressKey(Key::QKey),
        keyboard_layout(m)[ButtonStroke::Release(Button::Grid(7, 3))] == Binding::ReleaseKey(
            Key::QKey,
        ),
        keyboard_layout(m)[ButtonStroke::Press(Button::Grid(7, 4))] == Binding::PressKey(Key::WKey),
        keyboard_layout(m)[ButtonStroke::Release(Button::Grid(7, 4))] == Binding::ReleaseKey(
            Key::WKey,
        ),
        keyboard_layout(m)[ButtonStroke::Press(Button::Grid(7, 5))] == Binding::PressKey(Key::EKey),
        keyboard_layout(m)[ButtonStroke::Release(Button::Grid(7, 5))] == Binding::ReleaseKey(
            Key::EKey,
        ),
        keyboard_layout(m)[ButtonStroke::Press(Button::Grid(7, 6))] == Binding::PressKey(Key::RKey),
        keyboard_layout(m)[ButtonStroke::Release(Button::Grid(7, 6))] == Binding::ReleaseKey(
            Key::RKey,
        ),
        keyboard_layout(m)[ButtonStroke::Press(Button::Grid(6, 3))] == Binding::PressKey(Key::AKey),
        keyboard_layout(m)[ButtonStroke::Release(Button::Grid(6, 3))] == Binding::ReleaseKey(
            Key::AKey,
        ),
        keyboard_layout(m)[ButtonStroke::Press(Button::Grid(6, 4))] == Binding::PressKey(Key::SKey),
        keyboard_layout(m)[ButtonStroke::Release(Button::Grid(6, 4))] == Binding::ReleaseKey(
            Key::SKey,
        ),
        keyboard_layout(m)[ButtonStroke::Press(Button::Grid(6, 5))] == Binding::PressKey(Key::DKey),
        keyboard_layout(m)[ButtonStroke::Release(Button::Grid(6, 5))] == Binding::ReleaseKey(
            Key::DKey,
        ),
        keyboard_layout(m)[ButtonStroke::Press(Button::Grid(5, 2))] == Binding::PressKey(
            Key::LShiftKey,
        ),
        keyboard_layout(m)[ButtonStroke::Release(Button::Grid(5, 2))] == Binding::ReleaseKey(
            Key::LShiftKey,
        ),
        keyboard_layout(m)[ButtonStroke::Press(Button::Grid(3, 6))] == Binding::PressKey(Key::GKey),
        keyboard_layout(m)[ButtonStroke::Release(Button::Grid(3, 6))] == Binding::ReleaseKey(
            Key::GKey,
        ),
        keyboard_layout(m).dom() == m.dom().union(
            set![
                ButtonStroke::Press(Button::Up),
                ButtonStroke::Press(Button::Grid(7, 3)),
                ButtonStroke::Release(Button::Grid(7, 3)),
                ButtonStroke::Press(Button::Grid(7, 4)),
                ButtonStroke::Release(Button::Grid(7, 4)),
                ButtonStroke::Press(Button::Grid(7, 5)),
                ButtonStroke::Release(Button::Grid(7, 5)),
                ButtonStroke::Press(Button::Grid(7, 6)),
                ButtonStroke::Release(Button::Grid(7, 6)),
                ButtonStroke::Press(Button::Grid(6, 3)),
                ButtonStroke::Release(Button::Grid(6, 3)),
                ButtonStroke::Press(Button::Grid(6, 4)),
                ButtonStroke::Release(Button::Grid(6, 4)),
                ButtonStroke::Press(Button::Grid(6, 5)),
                ButtonStroke::Release(Button::Grid(6, 5)),
                ButtonStroke::Press(Button::Grid(5, 2)),
                ButtonStroke::Release(Button::Grid(5, 2)),
                ButtonStroke::Press(Button::Grid(3, 6)),
                ButtonStroke::Release(Button::Grid(3, 6)),
            ],
        ),
        s != ButtonStroke::Press(Button::Up) && (forall|row: u8, col: u8|
            (s == ButtonStroke::Press(Button::Grid(row, col)) || s == ButtonStroke::Release(
                Button::Grid(row, col),
            )) ==> !((row == 7 && 3 <= col <= 6) || (row == 6 && 3 <= col <= 5) || (row == 5
                && col == 2) || (row == 3 && col == 6))) ==> keyboard_layout(m)[s] == m[s],
{
    assert(keyboard_layout(m).dom() =~= m.dom().union(
        set![
            ButtonStroke::Press(Button::Up),
            ButtonStroke::Press(Button::Grid(7, 3)),
            ButtonStroke::Release(Button::Grid(7, 3)),
            ButtonStroke::Press(Button::Grid(7, 4)),
            ButtonStroke::Release(Button::Grid(7, 4)),
            ButtonStroke::Press(Button::Grid(7, 5)),
            ButtonStroke::Release(Button::Grid(7, 5)),
            ButtonStroke::Press(Button::Grid(7, 6)),
            ButtonStroke::Release(Button::Grid(7, 6)),
            ButtonStroke::Press(Button::Grid(6, 3)),
            ButtonStroke::Release(Button::Grid(6, 3)),
            ButtonStroke::Press(Button::Grid(6, 4)),
            ButtonStroke::Release(Button::Grid(6, 4)),
            ButtonStroke::Press(Button::Grid(6, 5)),
            ButtonStroke::Release(Button::Grid(6, 5)),
            ButtonStroke::Press(Button::Grid(5, 2)),
            ButtonStroke::Release(Button::Grid(5, 2)),
            ButtonStroke::Press(Button::Grid(3, 6)),
            ButtonStroke::Release(Button::Grid(3, 6)),
        ],
    ));
}

/// Binds the press and the release of the pad at `(row, col)` to `key` going
/// down and coming back up.
pub fn grid_bind(binds: &mut BoardBinds, row: u8, col: u8, key: Key)
    requires
        Button::Grid(row, col).on_board(),
    ensures
        final(binds)@ == with_grid_bind(old(binds)@, row, col, key),
{
    binds.bind(ButtonStroke::Press(Button::Grid(row, col)), Binding::PressKey(key));
    binds.bind(ButtonStroke::Release(Button::Grid(row, col)), Binding::ReleaseKey(key));
}

/// Adds the bindings of the keyboard layout; every other stroke keeps what it had.
pub fn pre_initialization(binds: &mut BoardBinds)
    ensures
        final(binds)@ == keyboard_layout(old(binds)@),
{
    binds.bind(ButtonStroke::Press(Button::Up), Binding::ClickLeft);

    grid_bind(binds, 7, 3, Key::QKey);
    grid_bind(binds, 7, 4, Key::WKey);
    grid_bind(binds, 7, 5, Key::EKey);
    grid_bind(binds, 7, 6, Key::RKey);

    grid_bind(binds, 6, 3, Key::AKey);
    grid_bind(binds, 6, 4, Key::SKey);
    grid_bind(binds, 6, 5, Key::DKey);

    grid_bind(binds, 5, 2, Key::LShiftKey);

    grid_bind(binds, 3, 6, Key::GKey);
}

} // verus!
