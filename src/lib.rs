//! Console prompts for text, numbers, multiline text, passwords and a choice
//! among options.
//!
//! The library holds the prompt configurations and every decision a prompt
//! makes on the text it reads: trimming, falling back to a default, parsing a
//! number, mapping an ordinal to an option, and accumulating multiline input.
//! Reading from the terminal is left to the caller, which hands the lines it
//! read to these functions.

pub mod input;
pub mod password;
pub mod selection;
pub mod text;

pub use input::{Input, LineEvent, MultilineAction, editor_returned, multiline_step};
pub use password::Password;
pub use selection::Selection;

use vstd::prelude::*;

verus! {

/// The entry point: makes prompts of each kind.
pub struct ZenConsoleInput;

impl ZenConsoleInput {
    pub fn new() -> (r: ZenConsoleInput) {
        ZenConsoleInput
    }

    /// A fresh text prompt.
    pub fn input(&self) -> (r: Input)
        ensures
            r@ == input::InputView::initial(),
    {
        Input::new()
    }

    /// A fresh selection prompt.
    pub fn selection(&self) -> (r: Selection)
        ensures
            r@.message == Seq::<char>::empty(),
            r@.options == Seq::<Seq<char>>::empty(),
    {
        Selection::new()
    }

    /// A fresh password prompt.
    pub fn password(&self) -> (r: Password)
        ensures
            r.message@ == Seq::<char>::empty(),
    {
        Password::new()
    }
}

} // verus!
