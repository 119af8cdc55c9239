use vstd::prelude::*;

verus! {

/// A key as the terminal reports it, reduced to the shapes the prompts
/// react to. The caller that reads the terminal hands each reported key
/// over in this form; keys outside these shapes arrive as `Other`.
#[derive(Clone, Copy, Debug, PartialEq, Eq, Structural)]
pub enum RawKey {
    /// A printable character, the newline included.
    Char(char),
    /// A control combination: Ctrl held together with a character.
    Ctrl(char),
    /// The up arrow.
    Up,
    /// The down arrow.
    Down,
    /// Any other key.
    Other,
}

/// One logical key event, as the selection engine consumes it.
#[derive(Clone, Copy, Debug, PartialEq, Eq, Structural)]
pub enum KeyEvent {
    /// Move the cursor up one row.
    Up,
    /// Move the cursor down one row.
    Down,
    /// Confirm the current selection.
    Enter,
    /// A printable character: `' '` toggles in checkbox mode, `'y'` and
    /// `'n'` answer a confirmation; elsewhere characters are ignored.
    Char(char),
    /// The interrupt combination: abort the prompt.
    Interrupt,
    /// A key the engine ignores.
    Other,
}

/// The logical event a raw key stands for: a bare newline is Enter,
/// Ctrl-c is the interrupt, the arrows move the cursor, any other
/// character passes through as itself, and every other key is ignored.
pub open spec fn decode_spec(raw: RawKey) -> KeyEvent {
    match raw {
        RawKey::Char(c) => if c == '\n' {
            KeyEvent::Enter
        } else {
            KeyEvent::Char(c)
        },
        RawKey::Ctrl(c) => if c == 'c' {
            KeyEvent::Interrupt
        } else {
            KeyEvent::Other
        },
        RawKey::Up => KeyEvent::Up,
        RawKey::Down => KeyEvent::Down,
        RawKey::Other => KeyEvent::Other,
    }
}

/// Decode one raw key into the logical event the engine consumes.
pub fn decode(raw: RawKey) -> (ev: KeyEvent)
    ensures
        ev == decode_spec(raw),
{
    match raw {
        RawKey::Char(c) => if c == '\n' {
            KeyEvent::Enter
        } else {
            KeyEvent::Char(c)
        },
        RawKey::Ctrl(c) => if c == 'c' {
            KeyEvent::Interrupt
        } else {
            KeyEvent::Other
        },
        RawKey::Up => KeyEvent::Up,
        RawKey::Down => KeyEvent::Down,
        RawKey::Other => KeyEvent::Other,
    }
}

} // verus!
