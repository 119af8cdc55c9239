use vstd::prelude::*;
use vstd::slice::slice_index_get;

use crate::choice::Choice;
use crate::error::Error;
use crate::key::KeyEvent;
use crate::state::{next_cursor, Mode, SelectionState, Step};

verus! {

/// The outcome of a single-select prompt over `n` choices fed the events
/// `evs`, starting with the cursor on `cur`: the first Enter confirms the
/// index the cursor then stands on, the first interrupt aborts, and a
/// stream that ends first exhausts the prompt.
pub open spec fn run_list_spec(cur: nat, n: nat, evs: Seq<KeyEvent>) -> Result<nat, Error>
    decreases evs.len(),
{
    if evs.len() == 0 {
        Err(Error::NoMoreInput)
    } else {
        match evs[0] {
            KeyEvent::Enter => Ok(cur),
            KeyEvent::Interrupt => Err(Error::UserAborted),
            _ => run_list_spec(next_cursor(cur, n, evs[0]), n, evs.drop_first()),
        }
    }
}

/// Run the single-select state machine over a whole event sequence and
/// return the confirmed index, or the error the events force.
pub fn run_list(n: usize, events: &Vec<KeyEvent>) -> (r: Result<usize, Error>)
    requires
        n >= 1,
    ensures
        match r {
            Ok(i) => run_list_spec(0, n as nat, events@) == Ok::<nat, Error>(i as nat) && i < n,
            Err(e) => run_list_spec(0, n as nat, events@) == Err::<nat, Error>(e),
        },
{
    let mut state = SelectionState::new(n);
    let mut i: usize = 0;
    proof {
        assert(events@.skip(0) =~= events@);
    }
    while i < events.len()
        invariant
            n >= 1,
            i <= events@.len(),
            state.wf(n as nat),
            run_list_spec(0, n as nat, events@) == run_list_spec(
                state.cursor as nat,
                n as nat,
                events@.skip(i as int),
            ),
        decreases events@.len() - i,
    {
        let ev = events[i];
        let ghost pre = events@.skip(i as int);
        proof {
            assert(pre[0] == events@[i as int]);
            assert(pre.drop_first() =~= events@.skip(i as int + 1));
        }
        let cursor_before = state.cursor;
        let step = state.apply(ev, Mode::List);
        match step {
            Step::Confirmed => {
                return Ok(cursor_before);
            },
            Step::Aborted => {
                return Err(Error::UserAborted);
            },
            Step::Continue => {
                i = i + 1;
            },
        }
    }
    proof {
        assert(events@.skip(i as int) =~= Seq::<KeyEvent>::empty());
    }
    Err(Error::NoMoreInput)
}

/// The value of the choice at `idx`: the mapping from a confirmed cursor
/// to a prompt result, with an out-of-range index surfacing as the
/// invariant-violation error instead of a panic.
pub fn pick<'c, C: Choice>(choices: &'c [C], idx: usize) -> (r: Result<&'c C::Value, Error>)
    ensures
        idx < choices@.len() ==> (r matches Ok(v) && *v == choices@[idx as int].value_spec()),
        idx >= choices@.len() ==> r == Err::<&C::Value, Error>(Error::InvalidChoice(idx)),
{
    if idx < choices.len() {
        Ok(slice_index_get(choices, idx).value())
    } else {
        Err(Error::InvalidChoice(idx))
    }
}

/// Everything of a single-select prompt but the terminal itself: feed a
/// whole event sequence to the engine and return a reference to the value
/// of the choice the user confirmed.
pub fn list_from_events<'c, C: Choice>(choices: &'c [C], events: &Vec<KeyEvent>) -> (r: Result<
    &'c C::Value,
    Error,
>)
    requires
        choices@.len() >= 1,
    ensures
        (match run_list_spec(0, choices@.len(), events@) {
            Ok(i) => r matches Ok(v) && *v == choices@[i as int].value_spec(),
            Err(e) => r == Err::<&C::Value, Error>(e),
        }),
{
    let n = choices.len();
    match run_list(n, events) {
        Ok(i) => pick(choices, i),
        Err(e) => Err(e),
    }
}

/// Law: an interrupt that arrives while the prompt is still active — at
/// position `k`, with no Enter and no interrupt anywhere before it —
/// makes the outcome `UserAborted`, whatever else the history held.
pub proof fn lemma_list_interrupt_aborts(cur: nat, n: nat, evs: Seq<KeyEvent>, k: int)
    requires
        0 <= k < evs.len(),
        evs[k] == KeyEvent::Interrupt,
        forall|j: int| 0 <= j < k ==> evs[j] != KeyEvent::Enter && evs[j] != KeyEvent::Interrupt,
    ensures
        run_list_spec(cur, n, evs) == Err::<nat, Error>(Error::UserAborted),
    decreases k,
{
    if k > 0 {
        assert(evs[0] != KeyEvent::Enter && evs[0] != KeyEvent::Interrupt);
        let rest = evs.drop_first();
        assert forall|j: int| 0 <= j < k - 1 implies rest[j] != KeyEvent::Enter && rest[j]
            != KeyEvent::Interrupt by {
            assert(rest[j] == evs[j + 1]);
        }
        assert(rest[k - 1] == evs[k]);
        lemma_list_interrupt_aborts(next_cursor(cur, n, evs[0]), n, rest, k - 1);
    }
}

/// Law: if the stream ends before any Enter or interrupt is seen, the
/// outcome is `NoMoreInput`, never a default selection.
pub proof fn lemma_list_exhausted(cur: nat, n: nat, evs: Seq<KeyEvent>)
    requires
        forall|j: int|
            0 <= j < evs.len() ==> evs[j] != KeyEvent::Enter && evs[j] != KeyEvent::Interrupt,
    ensures
        run_list_spec(cur, n, evs) == Err::<nat, Error>(Error::NoMoreInput),
    decreases evs.len(),
{
    if evs.len() > 0 {
        assert(evs[0] != KeyEvent::Enter && evs[0] != KeyEvent::Interrupt);
        let rest = evs.drop_first();
        assert forall|j: int| 0 <= j < rest.len() implies rest[j] != KeyEvent::Enter && rest[j]
            != KeyEvent::Interrupt by {
            assert(rest[j] == evs[j + 1]);
        }
        lemma_list_exhausted(next_cursor(cur, n, evs[0]), n, rest);
    }
}

} // verus!
