use vstd::prelude::*;
use vstd::slice::slice_index_get;

use crate::choice::Choice;
use crate::error::Error;
use crate::key::KeyEvent;
use crate::state::{next_cursor, next_selected, Mode, SelectionState, Step};

verus! {

/// The outcome of a multi-select prompt over `n` choices fed the events
/// `evs`, starting from cursor `cur` and flags `sel`: the first Enter
/// confirms the flags as they then stand, the first interrupt aborts, and
/// a stream that ends first exhausts the prompt.
pub open spec fn run_checkbox_spec(cur: nat, sel: Seq<bool>, n: nat, evs: Seq<KeyEvent>) -> Result<
    Seq<bool>,
    Error,
>
    decreases evs.len(),
{
    if evs.len() == 0 {
        Err(Error::NoMoreInput)
    } else {
        match evs[0] {
            KeyEvent::Enter => Ok(sel),
            KeyEvent::Interrupt => Err(Error::UserAborted),
            _ => run_checkbox_spec(
                next_cursor(cur, n, evs[0]),
                next_selected(sel, cur, evs[0], Mode::Checkbox),
                n,
                evs.drop_first(),
            ),
        }
    }
}

/// The indices whose flag is set, in increasing order: the positions a
/// confirmed checkbox prompt reports, in original choice order.
pub open spec fn true_indices(sel: Seq<bool>) -> Seq<int>
    decreases sel.len(),
{
    if sel.len() == 0 {
        Seq::empty()
    } else {
        true_indices(sel.drop_last()) + (if sel.last() {
            seq![sel.len() - 1]
        } else {
            Seq::empty()
        })
    }
}

/// Collect the indices whose flag is set, in increasing order.
pub fn selected_indices(sel: &Vec<bool>) -> (r: Vec<usize>)
    ensures
        r@.map_values(|x: usize| x as int) == true_indices(sel@),
        forall|j: int| 0 <= j < r@.len() ==> (r@[j] as int) < sel@.len(),
{
    let mut r: Vec<usize> = Vec::new();
    let mut i: usize = 0;
    proof {
        assert(sel@.take(0) =~= Seq::<bool>::empty());
        assert(r@.map_values(|x: usize| x as int) =~= Seq::<int>::empty());
    }
    while i < sel.len()
        invariant
            i <= sel@.len(),
            r@.map_values(|x: usize| x as int) == true_indices(sel@.take(i as int)),
            forall|j: int| 0 <= j < r@.len() ==> (r@[j] as int) < i,
        decreases sel@.len() - i,
    {
        let ghost r_old = r@;
        if sel[i] {
            r.push(i);
        }
        proof {
            let taken = sel@.take(i as int + 1);
            assert(taken.drop_last() =~= sel@.take(i as int));
            assert(taken.last() == sel@[i as int]);
            if sel@[i as int] {
                assert(r@ == r_old.push(i));
                assert(r@.map_values(|x: usize| x as int) =~= r_old.map_values(
                    |x: usize| x as int,
                ) + seq![i as int]);
            }
            assert(r@.map_values(|x: usize| x as int) == true_indices(taken));
        }
        i = i + 1;
    }
    proof {
        assert(sel@.take(sel@.len() as int) =~= sel@);
    }
    r
}

/// Run the multi-select state machine over a whole event sequence and
/// return the selected indices in original choice order, or the error the
/// events force.
pub fn run_checkbox(n: usize, events: &Vec<KeyEvent>) -> (r: Result<Vec<usize>, Error>)
    requires
        n >= 1,
    ensures
        match r {
            Ok(ixs) => {
                &&& run_checkbox_spec(
                    0,
                    Seq::new(n as nat, |i: int| false),
                    n as nat,
                    events@,
                ) matches Ok(sel)
                &&& ixs@.map_values(|x: usize| x as int) == true_indices(sel)
                &&& forall|j: int| 0 <= j < ixs@.len() ==> ixs@[j] < n
            },
            Err(e) => run_checkbox_spec(0, Seq::new(n as nat, |i: int| false), n as nat, events@)
                == Err::<Seq<bool>, Error>(e),
        },
{
    let mut state = SelectionState::new(n);
    let mut i: usize = 0;
    proof {
        assert(events@.skip(0) =~= events@);
    }
    while i < events.len()
        invariant
            n >= 1,
            i <= events@.len(),
            state.wf(n as nat),
            run_checkbox_spec(0, Seq::new(n as nat, |i: int| false), n as nat, events@)
                == run_checkbox_spec(
                state.cursor as nat,
                state.selected@,
                n as nat,
                events@.skip(i as int),
            ),
        decreases events@.len() - i,
    {
        let ev = events[i];
        let ghost pre = events@.skip(i as int);
        proof {
            assert(pre[0] == events@[i as int]);
            assert(pre.drop_first() =~= events@.skip(i as int + 1));
        }
        let step = state.apply(ev, Mode::Checkbox);
        match step {
            Step::Confirmed => {
                let ixs = selected_indices(&state.selected);
                return Ok(ixs);
            },
            Step::Aborted => {
                return Err(Error::UserAborted);
            },
            Step::Continue => {
                i = i + 1;
            },
        }
    }
    proof {
        assert(events@.skip(i as int) =~= Seq::<KeyEvent>::empty());
    }
    Err(Error::NoMoreInput)
}

/// References to the values of the choices at the given indices, kept in
/// the indices' order.
pub fn checkbox_values<'c, C: Choice>(choices: &'c [C], indices: &Vec<usize>) -> (r: Vec<
    &'c C::Value,
>)
    requires
        forall|j: int| 0 <= j < indices@.len() ==> (indices@[j] as int) < choices@.len(),
    ensures
        r@.len() == indices@.len(),
        forall|j: int| 0 <= j < r@.len() ==> *r@[j] == choices@[indices@[j] as int].value_spec(),
{
    let mut r: Vec<&'c C::Value> = Vec::new();
    let mut i: usize = 0;
    while i < indices.len()
        invariant
            forall|j: int| 0 <= j < indices@.len() ==> (indices@[j] as int) < choices@.len(),
            i <= indices@.len(),
            r@.len() == i,
            forall|j: int| 0 <= j < i ==> *r@[j] == choices@[indices@[j] as int].value_spec(),
        decreases indices@.len() - i,
    {
        let idx = indices[i];
        r.push(slice_index_get(choices, idx).value());
        i = i + 1;
    }
    r
}

/// Everything of a multi-select prompt but the terminal itself: feed a
/// whole event sequence to the engine and return references to the values
/// of the selected choices, in original choice order.
pub fn checkbox_from_events<'c, C: Choice>(choices: &'c [C], events: &Vec<KeyEvent>) -> (r: Result<
    Vec<&'c C::Value>,
    Error,
>)
    requires
        choices@.len() >= 1,
    ensures
        (match run_checkbox_spec(
            0,
            Seq::new(choices@.len(), |i: int| false),
            choices@.len(),
            events@,
        ) {
            Ok(sel) => {
                &&& r matches Ok(vs)
                &&& vs@.len() == true_indices(sel).len()
                &&& forall|j: int|
                    0 <= j < vs@.len() ==> *vs@[j] == choices@[true_indices(sel)[j]].value_spec()
            },
            Err(e) => r == Err::<Vec<&C::Value>, Error>(e),
        }),
{
    let n = choices.len();
    match run_checkbox(n, events) {
        Ok(ixs) => {
            let vs = checkbox_values(choices, &ixs);
            Ok(vs)
        },
        Err(e) => Err(e),
    }
}

/// Law: an interrupt that arrives while the prompt is still active — at
/// position `k`, with no Enter and no interrupt anywhere before it —
/// makes the outcome `UserAborted`; no partial selection escapes.
pub proof fn lemma_checkbox_interrupt_aborts(
    cur: nat,
    sel: Seq<bool>,
    n: nat,
    evs: Seq<KeyEvent>,
    k: int,
)
    requires
        0 <= k < evs.len(),
        evs[k] == KeyEvent::Interrupt,
        forall|j: int| 0 <= j < k ==> evs[j] != KeyEvent::Enter && evs[j] != KeyEvent::Interrupt,
    ensures
        run_checkbox_spec(cur, sel, n, evs) == Err::<Seq<bool>, Error>(Error::UserAborted),
    decreases k,
{
    if k > 0 {
        assert(evs[0] != KeyEvent::Enter && evs[0] != KeyEvent::Interrupt);
        let rest = evs.drop_first();
        assert forall|j: int| 0 <= j < k - 1 implies rest[j] != KeyEvent::Enter && rest[j]
            != KeyEvent::Interrupt by {
            assert(rest[j] == evs[j + 1]);
        }
        assert(rest[k - 1] == evs[k]);
        lemma_checkbox_interrupt_aborts(
            next_cursor(cur, n, evs[0]),
            next_selected(sel, cur, evs[0], Mode::Checkbox),
            n,
            rest,
            k - 1,
        );
    }
}

/// Law: if the stream ends before any Enter or interrupt is seen, the
/// outcome is `NoMoreInput`, never a default or partial selection.
pub proof fn lemma_checkbox_exhausted(cur: nat, sel: Seq<bool>, n: nat, evs: Seq<KeyEvent>)
    requires
        forall|j: int|
            0 <= j < evs.len() ==> evs[j] != KeyEvent::Enter && evs[j] != KeyEvent::Interrupt,
    ensures
        run_checkbox_spec(cur, sel, n, evs) == Err::<Seq<bool>, Error>(Error::NoMoreInput),
    decreases evs.len(),
{
    if evs.len() > 0 {
        assert(evs[0] != KeyEvent::Enter && evs[0] != KeyEvent::Interrupt);
        let rest = evs.drop_first();
        assert forall|j: int| 0 <= j < rest.len() implies rest[j] != KeyEvent::Enter && rest[j]
            != KeyEvent::Interrupt by {
            assert(rest[j] == evs[j + 1]);
        }
        lemma_checkbox_exhausted(
            next_cursor(cur, n, evs[0]),
            next_selected(sel, cur, evs[0], Mode::Checkbox),
            n,
            rest,
        );
    }
}

} // verus!
