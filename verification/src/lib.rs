use vstd::prelude::*;

pub mod binds;
pub mod button;
pub mod keyboard;
pub mod ports;

use crate::binds::Binding;

pub use crate::ports::MK2_NAME;

verus! {

/// A table of [`button::BOARD_SLOTS`] entries that binds every slot to nothing.
pub fn blank_binds() -> (r: [Binding; 80])
    ensures
        forall|i: int| 0 <= i < 80 ==> r@[i] == Binding::Nothing,
{
    [Binding::Nothing; 80]
}

} // verus!
