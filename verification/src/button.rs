use vstd::prelude::*;

verus! {

/// A button of the Launchpad MK2: the eight round buttons of the top row,
/// the eight round buttons of the right column, and the pads of the grid,
/// addressed by row (counted from the bottom) and column (counted from the left).
#[derive(Debug, Clone, Copy, PartialEq, Eq, Structural)]
pub enum Button {
    Up,
    Down,
    Left,
    Right,
    Session,
    User1,
    User2,
    Mixer,
    Volume,
    Pan,
    SendA,
    SendB,
    Stop,
    Mute,
    Solo,
    RecordArm,
    Grid(u8, u8),
}

const UP: u8 = 104;
const DOWN: u8 = 105;
const LEFT: u8 = 106;
const RIGHT: u8 = 107;
const SESSION: u8 = 108;
const USER1: u8 = 109;
const USER2: u8 = 110;
const MIXER: u8 = 111;

const VOLUME: u8 = 89;
const PAN: u8 = 79;
const SENDA: u8 = 69;
const SENDB: u8 = 59;
const STOP: u8 = 49;
const MUTE: u8 = 39;
const SOLO: u8 = 29;
const RECORD_ARM: u8 = 19;

impl Button {
    /// The MIDI note or controller number of the button.
    pub open spec fn spec_id(self) -> int {
        match self {
            Button::Up => 104,
            Button::Down => 105,
            Button::Left => 106,
            Button::Right => 107,
            Button::Session => 108,
            Button::User1 => 109,
            Button::User2 => 110,
            Button::Mixer => 111,
            Button::Volume => 89,
            Button::Pan => 79,
            Button::SendA => 69,
            Button::SendB => 59,
            Button::Stop => 49,
            Button::Mute => 39,
            Button::Solo => 29,
            Button::RecordArm => 19,
            Button::Grid(row, col) => 10 * row + col,
        }
    }

    /// The number fits in a byte (always so, but for a grid pad with an
    /// address outside the board).
    pub open spec fn has_id(self) -> bool {
        self.spec_id() <= 255
    }

    /// The MIDI note or controller number of the button.
    pub fn id(&self) -> (r: u8)
        requires
            self.has_id(),
        ensures
            r == self.spec_id(),
    {
        match self {
            Button::Up => UP,
            Button::Down => DOWN,
            Button::Left => LEFT,
            Button::Right => RIGHT,
            Button::Session => SESSION,
            Button::User1 => USER1,
            Button::User2 => USER2,
            Button::Mixer => MIXER,
            Button::Volume => VOLUME,
            Button::Pan => PAN,
            Button::SendA => SENDA,
            Button::SendB => SENDB,
            Button::Stop => STOP,
            Button::Mute => MUTE,
            Button::Solo => SOLO,
            Button::RecordArm => RECORD_ARM,
            Button::Grid(row, col) => 10 * *row + *col,
        }
    }
}


impl Button {
    /// The slot of the button in a table of [`BOARD_SLOTS`] entries: the top row
    /// first, then the rows of the grid from the top down, each with its pads from
    /// the left and its round button on the right.
    pub open spec fn spec_index(self) -> int {
        match self {
            Button::Up => 0,
            Button::Down => 1,
            Button::Left => 2,
            Button::Right => 3,
            Button::Session => 4,
            Button::User1 => 5,
            Button::User2 => 6,
            Button::Mixer => 7,
            Button::Volume => 16,
            Button::Pan => 25,
            Button::SendA => 34,
            Button::SendB => 43,
            Button::Stop => 52,
            Button::Mute => 61,
            Button::Solo => 70,
            Button::RecordArm => 79,
            Button::Grid(row, col) => 8 + 9 * (8 - row) + (col - 1),
        }
    }

    /// The slot is defined: a grid pad lies no higher than the eighth row and
    /// no further left than the first column.
    pub open spec fn has_index(self) -> bool {
        match self {
            Button::Grid(row, col) => row <= 8 && col >= 1,
            _ => true,
        }
    }

    /// The button is one of the eighty buttons of the device.
    pub open spec fn on_board(self) -> bool {
        match self {
            Button::Grid(row, col) => 1 <= row <= 8 && 1 <= col <= 8,
            _ => true,
        }
    }

    /// The slot of the button in a table of [`BOARD_SLOTS`] entries.
    pub fn index(&self) -> (r: usize)
        requires
            self.has_index(),
        ensures
            r == self.spec_index(),
    {
        match self {
            Button::Up => 0,
            Button::Down => 1,
            Button::Left => 2,
            Button::Right => 3,
            Button::Session => 4,
            Button::User1 => 5,
            Button::User2 => 6,
            Button::Mixer => 7,
            Button::Volume => 16,
            Button::Pan => 25,
            Button::SendA => 34,
            Button::SendB => 43,
            Button::Stop => 52,
            Button::Mute => 61,
            Button::Solo => 70,
            Button::RecordArm => 79,
            Button::Grid(row, col) => {
                let offset: usize = 8;
                let row_index: usize = (8 - *row) as usize;
                let col_index: usize = (*col - 1) as usize;
                offset + (row_index * 9) + col_index
            },
        }
    }

    /// Whether the button is one of the eighty buttons of the device.
    pub fn is_on_board(&self) -> (r: bool)
        ensures
            r == self.on_board(),
    {
        match self {
            Button::Grid(row, col) => 1 <= *row && *row <= 8 && 1 <= *col && *col <= 8,
            _ => true,
        }
    }
}

/// The number of buttons of the device, and of slots in a table indexed by [`Button::index`].
pub const BOARD_SLOTS: usize = 80;


/// A button going down or coming back up.
#[derive(Debug, Clone, Copy, PartialEq, Eq, Structural)]
pub enum ButtonStroke {
    Press(Button),
    Release(Button),
}

/// Status byte of the messages that report the round buttons of the top row.
pub const TOP_CONTROLS: u8 = 176;

/// Status byte of the messages that report the grid and the right column.
pub const LOWER_NINE_ROWS: u8 = 144;

/// The round button of the top row with controller number `id`.
pub open spec fn control_button(id: int) -> Button {
    if id == 104 {
        Button::Up
    } else if id == 105 {
        Button::Down
    } else if id == 106 {
        Button::Left
    } else if id == 107 {
        Button::Right
    } else if id == 108 {
        Button::Session
    } else if id == 109 {
        Button::User1
    } else if id == 110 {
        Button::User2
    } else {
        Button::Mixer
    }
}

/// The round button of the right column with note number `id`.
pub open spec fn side_button(id: int) -> Button {
    if id == 89 {
        Button::Volume
    } else if id == 79 {
        Button::Pan
    } else if id == 69 {
        Button::SendA
    } else if id == 59 {
        Button::SendB
    } else if id == 49 {
        Button::Stop
    } else if id == 39 {
        Button::Mute
    } else if id == 29 {
        Button::Solo
    } else {
        Button::RecordArm
    }
}

/// The button that a message with this status byte and note number reports:
/// a controller 104 to 111 under [`TOP_CONTROLS`], or a note 11 to 89 under
/// [`LOWER_NINE_ROWS`], whose tens give the row and whose units give the column
/// (column 9 being the round button on the right).
pub open spec fn message_button(status: int, note: int) -> Option<Button> {
    if status == TOP_CONTROLS && 104 <= note <= 111 {
        Some(control_button(note))
    } else if status == LOWER_NINE_ROWS && 11 <= note <= 89 {
        if note % 10 == 9 {
            Some(side_button(note))
        } else {
            Some(Button::Grid((note / 10) as u8, (note % 10) as u8))
        }
    } else {
        None
    }
}

/// The stroke that a three-byte message reports: a press where the velocity
/// byte is not zero, a release where it is.
pub open spec fn message_stroke(data: Seq<u8>) -> Option<ButtonStroke> {
    match message_button(data[0] as int, data[1] as int) {
        Some(b) => Some(
            if data[2] != 0 {
                ButtonStroke::Press(b)
            } else {
                ButtonStroke::Release(b)
            },
        ),
        None => None,
    }
}

impl ButtonStroke {
    /// The button of the stroke.
    pub open spec fn button(self) -> Button {
        match self {
            ButtonStroke::Press(button) => button,
            ButtonStroke::Release(button) => button,
        }
    }

    /// The stroke that a three-byte message from the device reports, or `None`
    /// for a message that reports no button.
    pub fn try_from_message(data: [u8; 3]) -> (r: Option<ButtonStroke>)
        ensures
            r == message_stroke(data@),
    {
        let status = data[0];
        let note = data[1];
        let press = data[2];
        let button = if status == TOP_CONTROLS && UP <= note && note <= MIXER {
            if note == UP {
                Button::Up
            } else if note == DOWN {
                Button::Down
            } else if note == LEFT {
                Button::Left
            } else if note == RIGHT {
                Button::Right
            } else if note == SESSION {
                Button::Session
            } else if note == USER1 {
                Button::User1
            } else if note == USER2 {
                Button::User2
            } else {
                Button::Mixer
            }
        } else if status == LOWER_NINE_ROWS && 11 <= note && note <= 89 {
            let row = note / 10;
            let col = note % 10;
            if col == 9 {
                if note == VOLUME {
                    Button::Volume
                } else if note == PAN {
                    Button::Pan
                } else if note == SENDA {
                    Button::SendA
                } else if note == SENDB {
                    Button::SendB
                } else if note == STOP {
                    Button::Stop
                } else if note == MUTE {
                    Button::Mute
                } else if note == SOLO {
                    Button::Solo
                } else {
                    Button::RecordArm
                }
            } else {
                Button::Grid(row, col)
            }
        } else {
            return None;
        };
        if press != 0 {
            Some(ButtonStroke::Press(button))
        } else {
            Some(ButtonStroke::Release(button))
        }
    }

    /// The stroke that a three-byte message from the device reports; the message
    /// must report a button.
    pub fn from(data: [u8; 3]) -> (r: ButtonStroke)
        requires
            message_stroke(data@) is Some,
        ensures
            message_stroke(data@) == Some(r),
    {
        Self::try_from_message(data).unwrap()
    }

    /// The button of the stroke.
    pub fn unwrap(self) -> (r: Button)
        ensures
            r == self.button(),
    {
        match self {
            ButtonStroke::Press(button) => button,
            ButtonStroke::Release(button) => button,
        }
    }
}


impl ButtonStroke {
    /// The message that lights the button of a press, or darkens the button of
    /// a release: a note-on with velocity 127, or a note-off with velocity 0.
    pub open spec fn spec_led_message(self) -> Seq<u8> {
        match self {
            ButtonStroke::Press(b) => seq![0x90u8, b.spec_id() as u8, 127u8],
            ButtonStroke::Release(b) => seq![0x80u8, b.spec_id() as u8, 0u8],
        }
    }

    /// The message that lights the button of a press, or darkens the button of
    /// a release.
    pub fn led_message(&self) -> (r: [u8; 3])
        requires
            self.button().has_id(),
        ensures
            r@ == self.spec_led_message(),
            r@[0] == (if *self is Press { 0x90u8 } else { 0x80u8 }),
            r@[1] == self.button().spec_id(),
            r@[2] == (if *self is Press { 127u8 } else { 0u8 }),
    {
        match self {
            ButtonStroke::Press(button) => [0x90, button.id(), 127],
            ButtonStroke::Release(button) => [0x80, button.id(), 0],
        }
    }
}

impl Button {
    /// The buttons that the device reports: every button of the board, and the
    /// grid addresses of column 0 that notes 20, 30, ... 80 name.
    pub open spec fn is_reported(self) -> bool {
        match self {
            Button::Grid(row, col) => 1 <= row <= 8 && col <= 8 && 11 <= 10 * row + col,
            _ => true,
        }
    }

    /// The status byte of the messages that report the button.
    pub open spec fn status_byte(self) -> u8 {
        match self {
            Button::Up | Button::Down | Button::Left | Button::Right | Button::Session
            | Button::User1 | Button::User2 | Button::Mixer => TOP_CONTROLS,
            _ => LOWER_NINE_ROWS,
        }
    }
}

/// The message that reports a button going down or up.
pub open spec fn stroke_message(b: Button, velocity: u8) -> Seq<u8> {
    seq![b.status_byte(), b.spec_id() as u8, velocity]
}

/// Every button that the device reports comes back from the message that
/// carries its status byte and its number: pressed for a velocity other than
/// zero, released for zero.
pub proof fn lemma_message_round_trip(b: Button, velocity: u8)
    requires
        b.is_reported(),
    ensures
        b.has_id(),
        message_stroke(stroke_message(b, velocity)) == Some(
            if velocity != 0 {
                ButtonStroke::Press(b)
            } else {
                ButtonStroke::Release(b)
            },
        ),
{
    let m = stroke_message(b, velocity);
    assert(m[0] == b.status_byte() && m[1] == b.spec_id() as u8 && m[2] == velocity);
    if let Button::Grid(row, col) = b {
        let note = 10 * row + col;
        assert(note / 10 == row && note % 10 == col && note <= 88) by (nonlinear_arith)
            requires
                note == 10 * row + col,
                1 <= row <= 8,
                col <= 8,
        ;
    }
}

/// A message that reports a stroke names, by its status byte and its number,
/// a button that the device reports, and is a press exactly when its velocity
/// is not zero.
pub proof fn lemma_message_decodes(data: Seq<u8>)
    requires
        data.len() == 3,
        message_stroke(data) is Some,
    ensures
        ({
            let s = message_stroke(data)->0;
            &&& s.button().is_reported()
            &&& s.button().has_id()
            &&& s.button().status_byte() == data[0]
            &&& s.button().spec_id() == data[1]
            &&& (s is Press <==> data[2] != 0)
        }),
{
    let note = data[1] as int;
    assert(10 * (note / 10) + note % 10 == note) by (nonlinear_arith);
}

/// Two buttons that the device reports never share a number.
pub proof fn lemma_id_injective(a: Button, b: Button)
    requires
        a.is_reported(),
        b.is_reported(),
        a.spec_id() == b.spec_id(),
    ensures
        a == b,
{
    if let Button::Grid(ra, ca) = a {
        assert((10 * ra + ca) / 10 == ra && (10 * ra + ca) % 10 == ca) by (nonlinear_arith)
            requires
                ca <= 8,
        ;
    }
    if let Button::Grid(rb, cb) = b {
        assert((10 * rb + cb) / 10 == rb && (10 * rb + cb) % 10 == cb) by (nonlinear_arith)
            requires
                cb <= 8,
        ;
    }
}

/// Every button of the board has a number, and a slot below [`BOARD_SLOTS`].
pub proof fn lemma_index_in_range(b: Button)
    requires
        b.on_board(),
    ensures
        b.has_id(),
        b.has_index(),
        0 <= b.spec_index() < BOARD_SLOTS,
{
}

/// Two buttons of the board never share a slot.
pub proof fn lemma_index_injective(a: Button, b: Button)
    requires
        a.on_board(),
        b.on_board(),
        a.spec_index() == b.spec_index(),
    ensures
        a == b,
{
    if let Button::Grid(ra, ca) = a {
        if let Button::Grid(rb, cb) = b {
            assert(ra == rb && ca == cb) by (nonlinear_arith)
                requires
                    1 <= ra <= 8,
                    1 <= ca <= 8,
                    1 <= rb <= 8,
                    1 <= cb <= 8,
                    9 * (8 - ra) + ca == 9 * (8 - rb) + cb,
            ;
        }
    }
}

/// The answer to a reported stroke goes to the button that was struck: its
/// note number is the number that the message carried, lit for a press and
/// darkened for a release.
pub proof fn lemma_led_answers_struck_button(data: Seq<u8>)
    requires
        data.len() == 3,
        message_stroke(data) is Some,
    ensures
        ({
            let s = message_stroke(data)->0;
            &&& s.button().has_id()
            &&& s.spec_led_message()[1] == data[1]
            &&& s.spec_led_message()[0] == (if data[2] != 0 { 0x90u8 } else { 0x80u8 })
        }),
{
    lemma_message_decodes(data);
}

/// Every button that the device reports lies on the board, but for the grid
/// addresses of column 0.
pub proof fn lemma_reported_on_board(b: Button)
    requires
        b.is_reported(),
        b matches Button::Grid(_, col) ==> col != 0,
    ensures
        b.on_board(),
{
}


/// The stroke of `b` that a message with velocity `velocity` reports.
pub open spec fn struck(b: Button, velocity: u8) -> ButtonStroke {
    if velocity != 0 {
        ButtonStroke::Press(b)
    } else {
        ButtonStroke::Release(b)
    }
}

/// The numbers that the device gives its round buttons: controllers 104 to 111
/// along the top row from the left, notes 89 down to 19 along the right column
/// from the top.
pub proof fn lemma_round_button_numbers()
    ensures
        Button::Up.spec_id() == 104,
        Button::Down.spec_id() == 105,
        Button::Left.spec_id() == 106,
        Button::Right.spec_id() == 107,
        Button::Session.spec_id() == 108,
        Button::User1.spec_id() == 109,
        Button::User2.spec_id() == 110,
        Button::Mixer.spec_id() == 111,
        Button::Volume.spec_id() == 89,
        Button::Pan.spec_id() == 79,
        Button::SendA.spec_id() == 69,
        Button::SendB.spec_id() == 59,
        Button::Stop.spec_id() == 49,
        Button::Mute.spec_id() == 39,
        Button::Solo.spec_id() == 29,
        Button::RecordArm.spec_id() == 19,
{
}

/// A pad's number has its row in the tens and its column in the units.
pub proof fn lemma_grid_number(row: u8, col: u8)
    ensures
        Button::Grid(row, col).spec_id() == 10 * row + col,
{
}

/// Every pad of the board decodes from its note: a message under status 144
/// whose note is not in the right column reports the pad whose row is the tens
/// of the note and whose column is its units.
pub proof fn lemma_grid_message(note: u8, velocity: u8)
    requires
        11 <= note <= 89,
        note % 10 != 9,
    ensures
        message_stroke(seq![144u8, note, velocity]) == Some(
            struck(Button::Grid(note / 10, note % 10), velocity),
        ),
{
}

/// The round buttons decode from their fixed numbers: controllers 104 to 111
/// under status 176, notes 89 down to 19 under status 144.
pub proof fn lemma_round_button_messages(velocity: u8)
    ensures
        message_stroke(seq![176u8, 104u8, velocity]) == Some(struck(Button::Up, velocity)),
        message_stroke(seq![176u8, 105u8, velocity]) == Some(struck(Button::Down, velocity)),
        message_stroke(seq![176u8, 106u8, velocity]) == Some(struck(Button::Left, velocity)),
        message_stroke(seq![176u8, 107u8, velocity]) == Some(struck(Button::Right, velocity)),
        message_stroke(seq![176u8, 108u8, velocity]) == Some(struck(Button::Session, velocity)),
        message_stroke(seq![176u8, 109u8, velocity]) == Some(struck(Button::User1, velocity)),
        message_stroke(seq![176u8, 110u8, velocity]) == Some(struck(Button::User2, velocity)),
        message_stroke(seq![176u8, 111u8, velocity]) == Some(struck(Button::Mixer, velocity)),
        message_stroke(seq![144u8, 89u8, velocity]) == Some(struck(Button::Volume, velocity)),
        message_stroke(seq![144u8, 79u8, velocity]) == Some(struck(Button::Pan, velocity)),
        message_stroke(seq![144u8, 69u8, velocity]) == Some(struck(Button::SendA, velocity)),
        message_stroke(seq![144u8, 59u8, velocity]) == Some(struck(Button::SendB, velocity)),
        message_stroke(seq![144u8, 49u8, velocity]) == Some(struck(Button::Stop, velocity)),
        message_stroke(seq![144u8, 39u8, velocity]) == Some(struck(Button::Mute, velocity)),
        message_stroke(seq![144u8, 29u8, velocity]) == Some(struck(Button::Solo, velocity)),
        message_stroke(seq![144u8, 19u8, velocity]) == Some(struck(Button::RecordArm, velocity)),
{
}

/// The slot of a pad of the board: eight slots for the top row, then nine
/// slots per row of the grid from row 8 down, the pads from column 1 on.
pub proof fn lemma_grid_slot(row: u8, col: u8)
    requires
        1 <= row <= 8,
        1 <= col <= 8,
    ensures
        Button::Grid(row, col).spec_index() == 8 + 9 * (8 - row) + (col - 1),
{
}

/// A button's slot follows from its number: a button of the top row sits at
/// its controller number less 104; any other button of the board sits in the
/// row block of the tens of its note, at the column of its units, the right
/// column's button last in its block.
pub proof fn lemma_slot_from_number(b: Button)
    requires
        b.on_board(),
    ensures
        b.status_byte() == TOP_CONTROLS ==> b.spec_index() == b.spec_id() - 104,
        b.status_byte() == LOWER_NINE_ROWS ==> b.spec_index() == 8 + 9 * (8 - b.spec_id() / 10)
            + (b.spec_id() % 10 - 1),
{
    if let Button::Grid(row, col) = b {
        let n = 10 * row + col;
        assert(n / 10 == row && n % 10 == col) by (nonlinear_arith)
            requires
                n == 10 * row + col,
                1 <= col <= 8,
        ;
    }
}

/// A message reports a button exactly when it is a controller 104 to 111 under
/// status 176, or a note 11 to 89 under status 144.
pub proof fn lemma_reported_messages(data: Seq<u8>)
    requires
        data.len() == 3,
    ensures
        message_stroke(data) is Some <==> (data[0] == 176 && 104 <= data[1] <= 111) || (data[0]
            == 144 && 11 <= data[1] <= 89),
{
}

/// The button of a stroke is the button pressed or released.
pub proof fn lemma_stroke_button(b: Button)
    ensures
        ButtonStroke::Press(b).button() == b,
        ButtonStroke::Release(b).button() == b,
{
}

/// The board holds the sixteen round buttons and the pads of rows 1 to 8 and
/// columns 1 to 8.
pub proof fn lemma_board_buttons(b: Button)
    ensures
        b.on_board() <==> match b {
            Button::Grid(row, col) => 1 <= row <= 8 && 1 <= col <= 8,
            _ => true,
        },
{
}

/// The answer message is a note-on with velocity 127 for a press and a
/// note-off with velocity 0 for a release, to the button's number.
pub proof fn lemma_led_message_bytes(s: ButtonStroke)
    requires
        s.button().has_id(),
    ensures
        s.spec_led_message().len() == 3,
        s.spec_led_message()[0] == (if s is Press { 0x90u8 } else { 0x80u8 }),
        s.spec_led_message()[1] == s.button().spec_id(),
        s.spec_led_message()[2] == (if s is Press { 127u8 } else { 0u8 }),
{
}

} // verus!
