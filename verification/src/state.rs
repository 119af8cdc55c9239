use vstd::prelude::*;

use crate::key::KeyEvent;

verus! {

/// Whether a prompt selects one item or many.
#[derive(Clone, Copy, Debug, PartialEq, Eq, Structural)]
pub enum Mode {
    /// Single-select: Space is ignored.
    List,
    /// Multi-select: Space toggles the focused item.
    Checkbox,
}

/// What one applied event means for the prompt loop.
#[derive(Clone, Copy, Debug, PartialEq, Eq, Structural)]
pub enum Step {
    /// The prompt stays active; repaint and read the next key.
    Continue,
    /// The user confirmed the current selection.
    Confirmed,
    /// The user pressed the interrupt combination.
    Aborted,
}

/// The cursor after one event over `n` choices: Up and Down move one row
/// and clamp at the first and last item; nothing wraps, and no other
/// event moves the cursor.
pub open spec fn next_cursor(cur: nat, n: nat, ev: KeyEvent) -> nat {
    match ev {
        KeyEvent::Up => if cur > 0 {
            (cur - 1) as nat
        } else {
            cur
        },
        KeyEvent::Down => if cur + 1 < n {
            (cur + 1) as nat
        } else {
            cur
        },
        _ => cur,
    }
}

/// The per-item flags after one event: in checkbox mode Space toggles the
/// flag under the cursor; every other event, and every event in list
/// mode, leaves the flags unchanged.
pub open spec fn next_selected(sel: Seq<bool>, cur: nat, ev: KeyEvent, mode: Mode) -> Seq<bool> {
    if ev == KeyEvent::Char(' ') && mode == Mode::Checkbox {
        sel.update(cur as int, !sel[cur as int])
    } else {
        sel
    }
}

/// Whether an event ends the prompt: Enter confirms, the interrupt
/// aborts, and everything else keeps the prompt active.
pub open spec fn step_spec(ev: KeyEvent) -> Step {
    match ev {
        KeyEvent::Enter => Step::Confirmed,
        KeyEvent::Interrupt => Step::Aborted,
        _ => Step::Continue,
    }
}

/// The live state of one prompt: the focused index and, for checkbox
/// prompts, one selected flag per choice.
#[derive(Debug)]
pub struct SelectionState {
    /// The index of the focused choice.
    pub cursor: usize,
    /// One flag per choice; list prompts leave them all false.
    pub selected: Vec<bool>,
}

impl SelectionState {
    /// The state fits a choice sequence of length `n`: one flag per choice
    /// and the cursor on a valid index.
    pub open spec fn wf(self, n: nat) -> bool {
        &&& self.selected@.len() == n
        &&& (self.cursor as nat) < n
    }

    /// The initial state over `n` choices: the cursor on the first choice
    /// and nothing selected.
    pub fn new(n: usize) -> (s: SelectionState)
        requires
            n >= 1,
        ensures
            s.wf(n as nat),
            s.cursor == 0,
            s.selected@ == Seq::new(n as nat, |i: int| false),
    {
        let mut selected: Vec<bool> = Vec::new();
        let mut i: usize = 0;
        while i < n
            invariant
                i <= n,
                selected@ == Seq::new(i as nat, |j: int| false),
            decreases n - i,
        {
            selected.push(false);
            i = i + 1;
            assert(selected@ =~= Seq::new(i as nat, |j: int| false));
        }
        SelectionState { cursor: 0, selected }
    }

    /// Apply one key event, following the transition table: Enter
    /// confirms, the interrupt aborts, Up and Down move the cursor one row
    /// and clamp at the walls, Space toggles the focused flag in checkbox
    /// mode, and every other event changes nothing.
    pub fn apply(&mut self, ev: KeyEvent, mode: Mode) -> (step: Step)
        requires
            old(self).wf(old(self).selected@.len()),
        ensures
            step == step_spec(ev),
            final(self).cursor as nat == next_cursor(
                old(self).cursor as nat,
                old(self).selected@.len(),
                ev,
            ),
            final(self).selected@ == next_selected(
                old(self).selected@,
                old(self).cursor as nat,
                ev,
                mode,
            ),
            final(self).wf(old(self).selected@.len()),
    {
        match ev {
            KeyEvent::Enter => Step::Confirmed,
            KeyEvent::Interrupt => Step::Aborted,
            KeyEvent::Up => {
                if self.cursor > 0 {
                    self.cursor = self.cursor - 1;
                }
                Step::Continue
            },
            KeyEvent::Down => {
                let len = self.selected.len();
                if self.cursor + 1 < len {
                    self.cursor = self.cursor + 1;
                }
                Step::Continue
            },
            KeyEvent::Char(c) => {
                if c == ' ' && mode == Mode::Checkbox {
                    let flag = self.selected[self.cursor];
                    self.selected[self.cursor] = !flag;
                }
                Step::Continue
            },
            KeyEvent::Other => Step::Continue,
        }
    }
}

/// The cursor after a whole sequence of events, folding `next_cursor`
/// from the left.
pub open spec fn cursor_after(cur: nat, n: nat, evs: Seq<KeyEvent>) -> nat
    decreases evs.len(),
{
    if evs.len() == 0 {
        cur
    } else {
        cursor_after(next_cursor(cur, n, evs[0]), n, evs.drop_first())
    }
}

/// Law: over a non-empty choice sequence the cursor stays on a valid
/// index whatever events arrive; movement clamps at the walls, never
/// wraps and never goes below the first item.
pub proof fn lemma_cursor_stays_in_range(cur: nat, n: nat, evs: Seq<KeyEvent>)
    requires
        n >= 1,
        cur < n,
    ensures
        cursor_after(cur, n, evs) < n,
    decreases evs.len(),
{
    if evs.len() > 0 {
        lemma_cursor_stays_in_range(next_cursor(cur, n, evs[0]), n, evs.drop_first());
    }
}

/// Law: in checkbox mode, toggling the item under an unchanged cursor
/// twice restores the original flags; Space is an involution per index.
pub proof fn lemma_toggle_involution(sel: Seq<bool>, cur: nat)
    requires
        cur < sel.len(),
    ensures
        next_selected(
            next_selected(sel, cur, KeyEvent::Char(' '), Mode::Checkbox),
            cur,
            KeyEvent::Char(' '),
            Mode::Checkbox,
        ) == sel,
{
    assert(next_selected(
        next_selected(sel, cur, KeyEvent::Char(' '), Mode::Checkbox),
        cur,
        KeyEvent::Char(' '),
        Mode::Checkbox,
    ) =~= sel);
}

} // verus!
