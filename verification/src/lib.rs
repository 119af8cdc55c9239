//! Interactive command-line selection prompts, verified.
//!
//! The core is the selection engine shared by the list and checkbox prompts:
//! a key decoder that turns raw keys into logical events, a selection state
//! machine that applies events to a cursor and per-item flags, and an
//! incremental renderer that computes the exact byte sequence of each
//! repaint. Terminal I/O itself stays outside the library; callers feed the
//! engine plain key events and write the rendered bytes to the terminal.

mod checkbox;
mod choice;
mod confirm;
mod error;
mod input;
mod key;
mod list;
mod render;
mod state;

pub use checkbox::{
    checkbox_from_events, checkbox_values, lemma_checkbox_exhausted,
    lemma_checkbox_interrupt_aborts, run_checkbox, run_checkbox_spec, selected_indices,
    true_indices,
};
pub use choice::Choice;
pub use confirm::{
    confirm_decides, confirm_from_events, lemma_decline_overrides_default, run_confirm_spec,
};
pub use error::Error;
pub use input::input_from_line;
pub use key::{decode, decode_spec, KeyEvent, RawKey};
pub use list::{
    lemma_list_exhausted, lemma_list_interrupt_aborts, list_from_events, pick, run_list,
    run_list_spec,
};
pub use render::{
    bold_bytes, checkbox_header_bytes, checkbox_line_bytes, checkbox_lines_bytes,
    checkbox_repaint_bytes, clear_line_bytes, close_bytes, confirm_header_bytes, cursor_up_bytes,
    dec_bytes, fg_green_bytes, hide_cursor_bytes, lemma_checkbox_repaint_idempotent,
    input_header_bytes, lemma_list_repaint_idempotent, list_header_bytes, list_line_bytes,
    list_lines_bytes, list_repaint_bytes, newlines_bytes, paint_checkbox_header, paint_close,
    paint_confirm_header, paint_input_header, paint_list_header, repaint_checkbox, repaint_list,
    reset_bytes, show_cursor_bytes,
};
pub use state::{
    cursor_after, lemma_cursor_stays_in_range, lemma_toggle_involution, next_cursor, next_selected,
    step_spec, Mode, SelectionState, Step,
};
