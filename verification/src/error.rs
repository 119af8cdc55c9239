use vstd::prelude::*;

verus! {

/// The ways a prompt call can fail instead of producing a selection.
#[derive(Clone, Copy, Debug, PartialEq, Eq, Structural)]
pub enum Error {
    /// Reading from or writing to the terminal failed.
    Io,
    /// The cursor landed on an index outside the supplied choice sequence.
    InvalidChoice(usize),
    /// The input stream closed before the user confirmed or aborted.
    NoMoreInput,
    /// The user pressed the interrupt combination.
    UserAborted,
}

} // verus!
