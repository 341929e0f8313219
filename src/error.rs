//! The ways a parse can fail.
use vstd::prelude::*;

verus! {

#[derive(Debug, PartialEq, Eq, Structural, Clone, Copy)]
pub enum LustreCollectorError {
    /// The command output is not valid UTF-8.
    Utf8Error,
    /// A number that starts at this character offset does not fit in 64 bits.
    NumberOverflow { position: usize },
    /// Input from this character offset on matches no grammar.
    ContentLeft { position: usize },
}

} // verus!
