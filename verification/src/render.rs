use vstd::prelude::*;
use vstd::string::StrSliceExecFns;
use vstd::utf8::encode_utf8;

use crate::state::SelectionState;

verus! {

// --- The escape sequences the renderer emits, as byte sequences ---

/// The ASCII decimal digits of `n`, most significant first.
pub open spec fn dec_bytes(n: nat) -> Seq<u8>
    decreases n,
{
    if n < 10 {
        seq![(48 + n) as u8]
    } else {
        dec_bytes(n / 10) + seq![(48 + n % 10) as u8]
    }
}

/// The escape sequence that moves the terminal cursor up `n` rows.
pub open spec fn cursor_up_bytes(n: u16) -> Seq<u8> {
    seq![27u8, 91u8] + dec_bytes(n as nat) + seq![65u8]
}

/// The escape sequence that hides the terminal cursor.
pub open spec fn hide_cursor_bytes() -> Seq<u8> {
    seq![27u8, 91u8, 63u8, 50u8, 53u8, 108u8]
}

/// The escape sequence that shows the terminal cursor again.
pub open spec fn show_cursor_bytes() -> Seq<u8> {
    seq![27u8, 91u8, 63u8, 50u8, 53u8, 104u8]
}

/// The escape sequence that clears the current line.
pub open spec fn clear_line_bytes() -> Seq<u8> {
    seq![27u8, 91u8, 50u8, 75u8]
}

/// The escape sequence that turns on bold styling.
pub open spec fn bold_bytes() -> Seq<u8> {
    seq![27u8, 91u8, 49u8, 109u8]
}

/// The escape sequence that resets all styling.
pub open spec fn reset_bytes() -> Seq<u8> {
    seq![27u8, 91u8, 109u8]
}

/// The escape sequence that switches the foreground color to green.
pub open spec fn fg_green_bytes() -> Seq<u8> {
    seq![27u8, 91u8, 51u8, 56u8, 59u8, 53u8, 59u8, 50u8, 109u8]
}

/// The bytes that switch the foreground color to green. Emitted by the
/// library itself: the headers color their question mark unconditionally,
/// so their byte sequences stay functions of the prompt alone.
fn esc_fg_green() -> (r: Vec<u8>)
    ensures
        r@ == fg_green_bytes(),
{
    let mut r: Vec<u8> = Vec::new();
    r.push(27u8);
    r.push(91u8);
    r.push(51u8);
    r.push(56u8);
    r.push(59u8);
    r.push(53u8);
    r.push(59u8);
    r.push(50u8);
    r.push(109u8);
    proof {
        assert(r@ =~= fg_green_bytes());
    }
    r
}

// --- Trusted wrappers around termion's sequence constants ---

/// Relies on termion::cursor::Up: its display form is the escape "\x1b[",
/// the row count in decimal, then "A".
#[verifier::external_body]
fn esc_cursor_up(n: u16) -> (r: Vec<u8>)
    ensures
        r@ == cursor_up_bytes(n),
{
    format!("{}", termion::cursor::Up(n)).into_bytes()
}

/// Relies on termion::cursor::Hide: its display form is the escape
/// "\x1b[?25l".
#[verifier::external_body]
fn esc_hide_cursor() -> (r: Vec<u8>)
    ensures
        r@ == hide_cursor_bytes(),
{
    format!("{}", termion::cursor::Hide).into_bytes()
}

/// Relies on termion::cursor::Show: its display form is the escape
/// "\x1b[?25h".
#[verifier::external_body]
fn esc_show_cursor() -> (r: Vec<u8>)
    ensures
        r@ == show_cursor_bytes(),
{
    format!("{}", termion::cursor::Show).into_bytes()
}

/// Relies on termion::clear::CurrentLine: its display form is the escape
/// "\x1b[2K".
#[verifier::external_body]
fn esc_clear_line() -> (r: Vec<u8>)
    ensures
        r@ == clear_line_bytes(),
{
    format!("{}", termion::clear::CurrentLine).into_bytes()
}

/// Relies on termion::style::Bold: its display form is the escape
/// "\x1b[1m".
#[verifier::external_body]
fn esc_bold() -> (r: Vec<u8>)
    ensures
        r@ == bold_bytes(),
{
    format!("{}", termion::style::Bold).into_bytes()
}

/// Relies on termion::style::Reset: its display form is the escape
/// "\x1b[m".
#[verifier::external_body]
fn esc_reset() -> (r: Vec<u8>)
    ensures
        r@ == reset_bytes(),
{
    format!("{}", termion::style::Reset).into_bytes()
}

// --- Frames ---

/// Append one rendered piece to the frame being built.
fn push_bytes(out: &mut Vec<u8>, piece: Vec<u8>)
    ensures
        final(out)@ == old(out)@ + piece@,
{
    let mut piece = piece;
    out.append(&mut piece);
}

/// One row of a single-select repaint: fresh line back at column one,
/// line cleared, then the label behind the cursor marker; the focused row
/// is bold and marked '>'.
pub open spec fn list_line_bytes(label: Seq<char>, focused: bool) -> Seq<u8> {
    encode_utf8("\n\r"@) + clear_line_bytes() + (if focused {
        bold_bytes() + encode_utf8("  > "@) + encode_utf8(label) + reset_bytes()
    } else {
        encode_utf8("    "@) + encode_utf8(label)
    })
}

/// Compute one single-select row.
fn list_line(label: &String, focused: bool) -> (out: Vec<u8>)
    ensures
        out@ == list_line_bytes(label@, focused),
{
    let mut out = "\n\r".as_bytes_vec();
    push_bytes(&mut out, esc_clear_line());
    if focused {
        push_bytes(&mut out, esc_bold());
        push_bytes(&mut out, "  > ".as_bytes_vec());
        push_bytes(&mut out, label.as_str().as_bytes_vec());
        push_bytes(&mut out, esc_reset());
    } else {
        push_bytes(&mut out, "    ".as_bytes_vec());
        push_bytes(&mut out, label.as_str().as_bytes_vec());
    }
    proof {
        assert(out@ =~= list_line_bytes(label@, focused));
    }
    out
}

/// The rows of a single-select repaint, in choice order.
pub open spec fn list_lines_bytes(labels: Seq<String>, cursor: int) -> Seq<u8>
    decreases labels.len(),
{
    if labels.len() == 0 {
        Seq::empty()
    } else {
        list_lines_bytes(labels.drop_last(), cursor) + list_line_bytes(
            labels.last()@,
            cursor == labels.len() - 1,
        )
    }
}

/// One full single-select repaint: move up over the whole block, then
/// repaint every row; the block height never varies, so the distance
/// moved is always the number of choices.
pub open spec fn list_repaint_bytes(labels: Seq<String>, cursor: int) -> Seq<u8> {
    cursor_up_bytes(labels.len() as u16) + list_lines_bytes(labels, cursor)
}

/// Compute the bytes of one full single-select repaint.
pub fn repaint_list(labels: &Vec<String>, cursor: usize) -> (out: Vec<u8>)
    requires
        (cursor as int) < labels@.len(),
        labels@.len() <= 0xFFFF,
    ensures
        out@ == list_repaint_bytes(labels@, cursor as int),
{
    let n = labels.len();
    let mut out = esc_cursor_up(n as u16);
    let mut i: usize = 0;
    proof {
        assert(labels@.take(0) =~= Seq::<String>::empty());
        assert(out@ =~= cursor_up_bytes(n as u16) + list_lines_bytes(labels@.take(0), cursor as int));
    }
    while i < n
        invariant
            n == labels@.len(),
            i <= n,
            out@ == cursor_up_bytes(n as u16) + list_lines_bytes(
                labels@.take(i as int),
                cursor as int,
            ),
        decreases n - i,
    {
        push_bytes(&mut out, list_line(&labels[i], i == cursor));
        proof {
            let taken = labels@.take(i as int + 1);
            assert(taken.drop_last() =~= labels@.take(i as int));
            assert(taken.last() == labels@[i as int]);
            assert(out@ =~= cursor_up_bytes(n as u16) + list_lines_bytes(taken, cursor as int));
        }
        i = i + 1;
    }
    proof {
        assert(labels@.take(n as int) =~= labels@);
    }
    out
}

/// One row of a multi-select repaint: as in the single-select row, with a
/// filled or empty mark in front of the label for a selected or
/// unselected item; selected rows are bold too.
pub open spec fn checkbox_line_bytes(label: Seq<char>, focused: bool, selected: bool) -> Seq<u8> {
    encode_utf8("\n\r"@) + clear_line_bytes() + (if focused {
        bold_bytes() + encode_utf8(" > "@)
    } else {
        encode_utf8("   "@)
    }) + (if selected {
        bold_bytes() + encode_utf8("\u{25cf} "@) + encode_utf8(label) + reset_bytes()
    } else {
        encode_utf8("\u{25cb} "@) + encode_utf8(label)
    }) + reset_bytes()
}

/// Compute one multi-select row.
fn checkbox_line(label: &String, focused: bool, selected: bool) -> (out: Vec<u8>)
    ensures
        out@ == checkbox_line_bytes(label@, focused, selected),
{
    let mut out = "\n\r".as_bytes_vec();
    push_bytes(&mut out, esc_clear_line());
    if focused {
        push_bytes(&mut out, esc_bold());
        push_bytes(&mut out, " > ".as_bytes_vec());
    } else {
        push_bytes(&mut out, "   ".as_bytes_vec());
    }
    if selected {
        push_bytes(&mut out, esc_bold());
        push_bytes(&mut out, "\u{25cf} ".as_bytes_vec());
        push_bytes(&mut out, label.as_str().as_bytes_vec());
        push_bytes(&mut out, esc_reset());
    } else {
        push_bytes(&mut out, "\u{25cb} ".as_bytes_vec());
        push_bytes(&mut out, label.as_str().as_bytes_vec());
    }
    push_bytes(&mut out, esc_reset());
    proof {
        assert(out@ =~= checkbox_line_bytes(label@, focused, selected));
    }
    out
}

/// The rows of a multi-select repaint, in choice order.
pub open spec fn checkbox_lines_bytes(labels: Seq<String>, cursor: int, sel: Seq<bool>) -> Seq<u8>
    decreases labels.len(),
{
    if labels.len() == 0 {
        Seq::empty()
    } else {
        checkbox_lines_bytes(labels.drop_last(), cursor, sel) + checkbox_line_bytes(
            labels.last()@,
            cursor == labels.len() - 1,
            sel[labels.len() - 1],
        )
    }
}

/// One full multi-select repaint: move up over the whole block, then
/// repaint every row with its cursor and selection marks.
pub open spec fn checkbox_repaint_bytes(labels: Seq<String>, cursor: int, sel: Seq<bool>) -> Seq<
    u8,
> {
    cursor_up_bytes(labels.len() as u16) + checkbox_lines_bytes(labels, cursor, sel)
}

/// Compute the bytes of one full multi-select repaint.
pub fn repaint_checkbox(labels: &Vec<String>, state: &SelectionState) -> (out: Vec<u8>)
    requires
        state.wf(labels@.len()),
        labels@.len() <= 0xFFFF,
    ensures
        out@ == checkbox_repaint_bytes(labels@, state.cursor as int, state.selected@),
{
    let n = labels.len();
    let mut out = esc_cursor_up(n as u16);
    let mut i: usize = 0;
    proof {
        assert(labels@.take(0) =~= Seq::<String>::empty());
        assert(out@ =~= cursor_up_bytes(n as u16) + checkbox_lines_bytes(
            labels@.take(0),
            state.cursor as int,
            state.selected@,
        ));
    }
    while i < n
        invariant
            n == labels@.len(),
            state.wf(labels@.len()),
            i <= n,
            out@ == cursor_up_bytes(n as u16) + checkbox_lines_bytes(
                labels@.take(i as int),
                state.cursor as int,
                state.selected@,
            ),
        decreases n - i,
    {
        push_bytes(&mut out, checkbox_line(&labels[i], i == state.cursor, state.selected[i]));
        proof {
            let taken = labels@.take(i as int + 1);
            assert(taken.drop_last() =~= labels@.take(i as int));
            assert(taken.last() == labels@[i as int]);
            assert(out@ =~= cursor_up_bytes(n as u16) + checkbox_lines_bytes(
                taken,
                state.cursor as int,
                state.selected@,
            ));
        }
        i = i + 1;
    }
    proof {
        assert(labels@.take(n as int) =~= labels@);
    }
    out
}

/// A run of `k` fresh lines: the blank block the header leaves for the
/// repaints to overwrite.
pub open spec fn newlines_bytes(k: int) -> Seq<u8>
    decreases k,
{
    if k <= 0 {
        Seq::empty()
    } else {
        newlines_bytes(k - 1) + encode_utf8("\n"@)
    }
}

/// The opening of a single-select prompt, painted once: cursor hidden,
/// "[?] " in green, the prompt text, and one fresh line per choice so the
/// first repaint has a block to move up over.
pub open spec fn list_header_bytes(prompt: Seq<char>, n: int) -> Seq<u8> {
    hide_cursor_bytes() + fg_green_bytes() + encode_utf8("[?] "@) + reset_bytes() + encode_utf8(
        prompt,
    ) + encode_utf8("\n"@) + newlines_bytes(n - 1)
}

/// The opening of a multi-select prompt: as the single-select opening,
/// with the hint that Space selects.
pub open spec fn checkbox_header_bytes(prompt: Seq<char>, n: int) -> Seq<u8> {
    hide_cursor_bytes() + fg_green_bytes() + encode_utf8("[?] "@) + reset_bytes() + encode_utf8(
        prompt,
    ) + encode_utf8(" (Press <space> to select)"@) + encode_utf8("\n"@) + newlines_bytes(n - 1)
}

/// Append `k` fresh lines to the frame being built.
fn push_newlines(out: &mut Vec<u8>, k: usize)
    ensures
        final(out)@ == old(out)@ + newlines_bytes(k as int),
{
    let mut i: usize = 0;
    proof {
        assert(old(out)@ + newlines_bytes(0) =~= old(out)@);
    }
    while i < k
        invariant
            i <= k,
            out@ == old(out)@ + newlines_bytes(i as int),
        decreases k - i,
    {
        push_bytes(out, "\n".as_bytes_vec());
        proof {
            assert(out@ =~= old(out)@ + newlines_bytes(i as int + 1));
        }
        i = i + 1;
    }
}

/// Compute the opening bytes of a single-select prompt over `n` choices.
pub fn paint_list_header(prompt: &str, n: usize) -> (out: Vec<u8>)
    requires
        n >= 1,
    ensures
        out@ == list_header_bytes(prompt@, n as int),
{
    let mut out = esc_hide_cursor();
    push_bytes(&mut out, esc_fg_green());
    push_bytes(&mut out, "[?] ".as_bytes_vec());
    push_bytes(&mut out, esc_reset());
    push_bytes(&mut out, prompt.as_bytes_vec());
    push_bytes(&mut out, "\n".as_bytes_vec());
    push_newlines(&mut out, n - 1);
    out
}

/// Compute the opening bytes of a multi-select prompt over `n` choices.
pub fn paint_checkbox_header(prompt: &str, n: usize) -> (out: Vec<u8>)
    requires
        n >= 1,
    ensures
        out@ == checkbox_header_bytes(prompt@, n as int),
{
    let mut out = esc_hide_cursor();
    push_bytes(&mut out, esc_fg_green());
    push_bytes(&mut out, "[?] ".as_bytes_vec());
    push_bytes(&mut out, esc_reset());
    push_bytes(&mut out, prompt.as_bytes_vec());
    push_bytes(&mut out, " (Press <space> to select)".as_bytes_vec());
    push_bytes(&mut out, "\n".as_bytes_vec());
    push_newlines(&mut out, n - 1);
    out
}

/// The opening of a yes/no confirmation: "[?] " in green, the prompt, and
/// the answer hint with the default capitalised.
pub open spec fn confirm_header_bytes(prompt: Seq<char>, default: bool) -> Seq<u8> {
    fg_green_bytes() + encode_utf8("[?] "@) + reset_bytes() + encode_utf8(prompt) + (if default {
        encode_utf8(" (Y/n) "@)
    } else {
        encode_utf8(" (y/N) "@)
    })
}

/// Compute the opening bytes of a yes/no confirmation.
pub fn paint_confirm_header(prompt: &str, default: bool) -> (out: Vec<u8>)
    ensures
        out@ == confirm_header_bytes(prompt@, default),
{
    let mut out = esc_fg_green();
    push_bytes(&mut out, "[?] ".as_bytes_vec());
    push_bytes(&mut out, esc_reset());
    push_bytes(&mut out, prompt.as_bytes_vec());
    if default {
        push_bytes(&mut out, " (Y/n) ".as_bytes_vec());
    } else {
        push_bytes(&mut out, " (y/N) ".as_bytes_vec());
    }
    out
}

/// The opening of a free-text prompt: "[?] " in green, the prompt, and a
/// space for the answer to follow on the same line.
pub open spec fn input_header_bytes(prompt: Seq<char>) -> Seq<u8> {
    fg_green_bytes() + encode_utf8("[?] "@) + reset_bytes() + encode_utf8(prompt) + encode_utf8(
        " "@,
    )
}

/// Compute the opening bytes of a free-text prompt.
pub fn paint_input_header(prompt: &str) -> (out: Vec<u8>)
    ensures
        out@ == input_header_bytes(prompt@),
{
    let mut out = esc_fg_green();
    push_bytes(&mut out, "[?] ".as_bytes_vec());
    push_bytes(&mut out, esc_reset());
    push_bytes(&mut out, prompt.as_bytes_vec());
    push_bytes(&mut out, " ".as_bytes_vec());
    out
}

/// The bytes that close a choice prompt on any exit path: a fresh line
/// back at column one, and the cursor shown again.
pub open spec fn close_bytes() -> Seq<u8> {
    encode_utf8("\n\r"@) + show_cursor_bytes()
}

/// Compute the bytes that close a choice prompt.
pub fn paint_close() -> (out: Vec<u8>)
    ensures
        out@ == close_bytes(),
{
    let mut out = "\n\r".as_bytes_vec();
    push_bytes(&mut out, esc_show_cursor());
    out
}

/// Law: the single-select repaint is a function of the labels and the
/// cursor alone, so repainting the same selection state twice produces
/// identical output bytes.
pub proof fn lemma_list_repaint_idempotent(
    labels: Seq<String>,
    cursor: int,
    first: Seq<u8>,
    second: Seq<u8>,
)
    requires
        first == list_repaint_bytes(labels, cursor),
        second == list_repaint_bytes(labels, cursor),
    ensures
        first == second,
{
}

/// Law: the multi-select repaint is a function of the labels, the cursor
/// and the flags alone, so repainting the same selection state twice
/// produces identical output bytes.
pub proof fn lemma_checkbox_repaint_idempotent(
    labels: Seq<String>,
    cursor: int,
    sel: Seq<bool>,
    first: Seq<u8>,
    second: Seq<u8>,
)
    requires
        first == checkbox_repaint_bytes(labels, cursor, sel),
        second == checkbox_repaint_bytes(labels, cursor, sel),
    ensures
        first == second,
{
}

} // verus!
