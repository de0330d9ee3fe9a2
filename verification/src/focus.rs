//! The focus ring: an optional cursor over `n` selectable slots.
//!
//! The same cursor discipline is shared by task-list rows, the sibling task
//! tables of the browser, and the text fields of the task form.  A ring never
//! inspects what its slots are; it only maintains the invariant that the
//! cursor is either absent or a valid index, and moves it with wrap-around.

use vstd::prelude::*;

verus! {

/// The cursor invariant: absent, or a valid index below the slot count.
pub open spec fn ring_wf(cursor: Option<usize>, len: usize) -> bool {
    cursor matches Some(i) ==> i < len
}

/// Where the cursor lands after moving forward: one step with wrap-around,
/// or the first slot when nothing was focused, or nowhere on an empty ring.
pub open spec fn spec_ring_next(cursor: Option<usize>, len: usize) -> Option<usize> {
    match cursor {
        Some(i) => Some(((i + 1) % (len as int)) as usize),
        None => if len == 0 {
            None
        } else {
            Some(0)
        },
    }
}

/// Where the cursor lands after moving backward: one step with wrap-around,
/// or the first slot when nothing was focused, or nowhere on an empty ring.
pub open spec fn spec_ring_previous(cursor: Option<usize>, len: usize) -> Option<usize> {
    match cursor {
        Some(i) => Some(if i == 0 {
            (len - 1) as usize
        } else {
            (i - 1) as usize
        }),
        None => if len == 0 {
            None
        } else {
            Some(0)
        },
    }
}

/// Move the cursor one slot forward, wrapping past the last slot.
pub fn ring_next(cursor: Option<usize>, len: usize) -> (r: Option<usize>)
    requires
        ring_wf(cursor, len),
    ensures
        r == spec_ring_next(cursor, len),
        ring_wf(r, len),
{
    match cursor {
        Some(i) => Some((i + 1) % len),
        None => if len == 0 {
            None
        } else {
            Some(0)
        },
    }
}

/// Move the cursor one slot backward, wrapping past the first slot.
pub fn ring_previous(cursor: Option<usize>, len: usize) -> (r: Option<usize>)
    requires
        ring_wf(cursor, len),
    ensures
        r == spec_ring_previous(cursor, len),
        ring_wf(r, len),
{
    match cursor {
        Some(i) => Some(if i == 0 {
            len - 1
        } else {
            i - 1
        }),
        None => if len == 0 {
            None
        } else {
            Some(0)
        },
    }
}

/// Moving forward and then backward returns a present cursor to where it was,
/// on any ring with at least one slot.
pub proof fn lemma_ring_next_previous(cursor: Option<usize>, len: usize)
    requires
        ring_wf(cursor, len),
        cursor is Some,
    ensures
        spec_ring_previous(spec_ring_next(cursor, len), len) == cursor,
{
    let i = cursor->0;
    if i + 1 < len {
        assert((i + 1) % (len as int) == i + 1) by {
            vstd::arithmetic::div_mod::lemma_small_mod((i + 1) as nat, len as nat);
        }
    } else {
        assert((i + 1) % (len as int) == 0) by {
            vstd::arithmetic::div_mod::lemma_mod_self_0(len as int);
        }
    }
}

/// On an empty ring, moving in either direction leaves the cursor absent.
pub proof fn lemma_ring_empty(cursor: Option<usize>)
    requires
        ring_wf(cursor, 0),
    ensures
        spec_ring_next(cursor, 0) is None,
        spec_ring_previous(cursor, 0) is None,
{
}

} // verus!
