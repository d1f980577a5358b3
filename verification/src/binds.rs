use vstd::prelude::*;

use crate::blank_binds;
use crate::button::{lemma_index_injective, lemma_index_in_range, ButtonStroke};

verus! {

/// The keys of the keyboard that a button can stand for.
#[derive(Debug, Clone, Copy, PartialEq, Eq, Structural)]
pub enum Key {
    QKey,
    WKey,
    EKey,
    RKey,
    AKey,
    SKey,
    DKey,
    GKey,
    LShiftKey,
}

/// What a stroke of a button sets off.
#[derive(Debug, Clone, Copy, PartialEq, Eq, Structural)]
pub enum Binding {
    /// Nothing happens.
    Nothing,
    /// A click of the left mouse button.
    ClickLeft,
    /// The key goes down.
    PressKey(Key),
    /// The key comes back up.
    ReleaseKey(Key),
}

/// What each stroke of each button of the board sets off: one table for the
/// presses and one for the releases, each indexed by [`Button::index`].
pub struct BoardBinds {
    press: [Binding; 80],
    release: [Binding; 80],
}

impl BoardBinds {
    /// The entry of the tables that holds what the stroke sets off.
    pub closed spec fn slot(self, stroke: ButtonStroke) -> Binding {
        match stroke {
            ButtonStroke::Press(b) => self.press@[b.spec_index()],
            ButtonStroke::Release(b) => self.release@[b.spec_index()],
        }
    }
}

impl View for BoardBinds {
    type V = Map<ButtonStroke, Binding>;

    /// What each stroke of a button of the board sets off.
    closed spec fn view(&self) -> Map<ButtonStroke, Binding> {
        Map::new(|s: ButtonStroke| s.button().on_board(), |s: ButtonStroke| self.slot(s))
    }
}

/// The strokes of the buttons of the board.
pub open spec fn board_strokes() -> Set<ButtonStroke> {
    Set::new(|s: ButtonStroke| s.button().on_board())
}

/// Every stroke of the board bound to nothing.
pub open spec fn unbound() -> Map<ButtonStroke, Binding> {
    Map::new(|s: ButtonStroke| s.button().on_board(), |s: ButtonStroke| Binding::Nothing)
}

impl BoardBinds {
    /// Tables that bind every stroke of the board to nothing.
    pub fn new() -> (r: BoardBinds)
        ensures
            r@ == unbound(),
    {
        let r = BoardBinds { press: blank_binds(), release: blank_binds() };
        proof {
            assert forall|s: ButtonStroke| s.button().on_board() implies r.slot(s)
                == Binding::Nothing by {
                lemma_index_in_range(s.button());
            }
        }
        assert(r@ =~= unbound());
        r
    }

    /// Binds the stroke to `binding`; every other stroke keeps what it had.
    pub fn bind(&mut self, stroke: ButtonStroke, binding: Binding)
        requires
            stroke.button().on_board(),
        ensures
            final(self)@ == old(self)@.insert(stroke, binding),
    {
        let ghost before = *self;
        proof {
            lemma_index_in_range(stroke.button());
        }
        match stroke {
            ButtonStroke::Press(button) => {
                let i = button.index();
                self.press[i] = binding;
            },
            ButtonStroke::Release(button) => {
                let i = button.index();
                self.release[i] = binding;
            },
        }
        proof {
            assert forall|s: ButtonStroke| s.button().on_board() && s != stroke implies self.slot(s)
                == before.slot(s) by {
                lemma_index_in_range(s.button());
                if s.button().spec_index() == stroke.button().spec_index() {
                    lemma_index_injective(s.button(), stroke.button());
                }
            }
        }
        assert(self@ =~= before@.insert(stroke, binding));
    }

    /// What the stroke sets off.
    pub fn binding_for(&self, stroke: ButtonStroke) -> (r: Binding)
        requires
            stroke.button().on_board(),
        ensures
            r == self@[stroke],
    {
        proof {
            lemma_index_in_range(stroke.button());
        }
        match stroke {
            ButtonStroke::Press(button) => self.press[button.index()],
            ButtonStroke::Release(button) => self.release[button.index()],
        }
    }
}


/// Tables hold a binding for every stroke of the board and for nothing else.
pub proof fn lemma_binds_cover_board(binds: BoardBinds)
    ensures
        binds@.dom() == board_strokes(),
{
    assert(binds@.dom() =~= board_strokes());
}

/// After a stroke is bound, looking it up gives back the binding, and looking
/// up any other stroke gives what it had before.
pub proof fn lemma_bind_reads_back(
    before: BoardBinds,
    after: BoardBinds,
    stroke: ButtonStroke,
    binding: Binding,
    other: ButtonStroke,
)
    requires
        stroke.button().on_board(),
        other.button().on_board(),
        after@ == before@.insert(stroke, binding),
    ensures
        after@[stroke] == binding,
        other != stroke ==> after@[other] == before@[other],
        after@.dom() == before@.dom(),
{
    lemma_binds_cover_board(before);
    assert(after@.dom() =~= before@.dom());
}

} // verus!
