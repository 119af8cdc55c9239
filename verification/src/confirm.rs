use vstd::prelude::*;

use crate::error::Error;
use crate::key::KeyEvent;

verus! {

/// Whether an event settles a yes/no confirmation: Enter takes the
/// default, 'y'/'Y' answers yes, 'n'/'N' answers no, and the interrupt
/// aborts; everything else leaves the question open.
pub open spec fn confirm_decides(ev: KeyEvent) -> bool {
    ||| ev == KeyEvent::Enter
    ||| ev == KeyEvent::Char('y')
    ||| ev == KeyEvent::Char('Y')
    ||| ev == KeyEvent::Char('n')
    ||| ev == KeyEvent::Char('N')
    ||| ev == KeyEvent::Interrupt
}

/// The outcome of a yes/no confirmation with the given default, fed the
/// events `evs`: the first deciding event settles it, and a stream that
/// ends first exhausts the prompt.
pub open spec fn run_confirm_spec(default: bool, evs: Seq<KeyEvent>) -> Result<bool, Error>
    decreases evs.len(),
{
    if evs.len() == 0 {
        Err(Error::NoMoreInput)
    } else if evs[0] == KeyEvent::Enter {
        Ok(default)
    } else if evs[0] == KeyEvent::Char('y') || evs[0] == KeyEvent::Char('Y') {
        Ok(true)
    } else if evs[0] == KeyEvent::Char('n') || evs[0] == KeyEvent::Char('N') {
        Ok(false)
    } else if evs[0] == KeyEvent::Interrupt {
        Err(Error::UserAborted)
    } else {
        run_confirm_spec(default, evs.drop_first())
    }
}

/// Everything of a yes/no confirmation but the terminal itself: feed a
/// whole event sequence and return the answer the events force, with
/// Enter falling back on the default.
pub fn confirm_from_events(default: bool, events: &Vec<KeyEvent>) -> (r: Result<bool, Error>)
    ensures
        r == run_confirm_spec(default, events@),
{
    let mut i: usize = 0;
    proof {
        assert(events@.skip(0) =~= events@);
    }
    while i < events.len()
        invariant
            i <= events@.len(),
            run_confirm_spec(default, events@) == run_confirm_spec(
                default,
                events@.skip(i as int),
            ),
        decreases events@.len() - i,
    {
        let ev = events[i];
        let ghost pre = events@.skip(i as int);
        proof {
            assert(pre[0] == events@[i as int]);
            assert(pre.drop_first() =~= events@.skip(i as int + 1));
        }
        match ev {
            KeyEvent::Enter => {
                return Ok(default);
            },
            KeyEvent::Char(c) => {
                if c == 'y' || c == 'Y' {
                    return Ok(true);
                }
                if c == 'n' || c == 'N' {
                    return Ok(false);
                }
                i = i + 1;
            },
            KeyEvent::Interrupt => {
                return Err(Error::UserAborted);
            },
            _ => {
                i = i + 1;
            },
        }
    }
    proof {
        assert(events@.skip(i as int) =~= Seq::<KeyEvent>::empty());
    }
    Err(Error::NoMoreInput)
}

/// Law: a 'n' that arrives while the confirmation is still open — at
/// position `k`, with nothing deciding before it — answers no, whatever
/// the default was.
pub proof fn lemma_decline_overrides_default(default: bool, evs: Seq<KeyEvent>, k: int)
    requires
        0 <= k < evs.len(),
        evs[k] == KeyEvent::Char('n') || evs[k] == KeyEvent::Char('N'),
        forall|j: int| 0 <= j < k ==> !confirm_decides(evs[j]),
    ensures
        run_confirm_spec(default, evs) == Ok::<bool, Error>(false),
    decreases k,
{
    if k > 0 {
        assert(!confirm_decides(evs[0]));
        let rest = evs.drop_first();
        assert forall|j: int| 0 <= j < k - 1 implies !confirm_decides(rest[j]) by {
            assert(rest[j] == evs[j + 1]);
        }
        assert(rest[k - 1] == evs[k]);
        lemma_decline_overrides_default(default, rest, k - 1);
    }
}

} // verus!
