use vstd::prelude::*;

use crate::error::Error;

verus! {

/// The outcome of the free-text prompt, given what reading one line
/// returned: a line is the answer as it stands; a stream that closed
/// first is `NoMoreInput`.
pub fn input_from_line(line: Option<String>) -> (r: Result<String, Error>)
    ensures
        r == (match line {
            Option::Some(s) => Ok::<String, Error>(s),
            Option::None => Err::<String, Error>(Error::NoMoreInput),
        }),
{
    match line {
        Option::Some(s) => Ok(s),
        Option::None => Err(Error::NoMoreInput),
    }
}

} // verus!
