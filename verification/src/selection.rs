//! Wraparound movement of a selection index over a list of records.
//!
//! Each list view owns one index into the collection behind it. Moving
//! down from the last entry wraps to the first; moving up from the first
//! wraps to the last. A collection with no entries leaves the index
//! untouched, so an empty cache never forces an out-of-range index.

use vstd::prelude::*;

verus! {

/// The index reached by one downward step from `i` in a list of `len`
/// entries: the next index, wrapping from the end back to `0`.
pub open spec fn wrap_next(i: nat, len: nat) -> nat {
    if len == 0 {
        i
    } else if i + 1 >= len {
        0
    } else {
        i + 1
    }
}

/// The index reached by one upward step from `i` in a list of `len`
/// entries: the previous index, wrapping from `0` to the end.
pub open spec fn wrap_prev(i: nat, len: nat) -> nat {
    if len == 0 {
        i
    } else if i == 0 {
        (len - 1) as nat
    } else {
        (i - 1) as nat
    }
}

/// The index after `n` downward steps from `i`.
pub open spec fn down_n(i: nat, len: nat, n: nat) -> nat
    decreases n,
{
    if n == 0 {
        i
    } else {
        wrap_next(down_n(i, len, (n - 1) as nat), len)
    }
}

/// The index after `n` upward steps from `i`.
pub open spec fn up_n(i: nat, len: nat, n: nat) -> nat
    decreases n,
{
    if n == 0 {
        i
    } else {
        wrap_prev(up_n(i, len, (n - 1) as nat), len)
    }
}

/// One downward step of the selection over a list of `len` entries.
pub fn select_down(selected: usize, len: usize) -> (r: usize)
    ensures
        r == wrap_next(selected as nat, len as nat),
        len > 0 ==> r < len,
{
    if len == 0 {
        selected
    } else if selected >= len - 1 {
        0
    } else {
        selected + 1
    }
}

/// One upward step of the selection over a list of `len` entries.
pub fn select_up(selected: usize, len: usize) -> (r: usize)
    ensures
        r == wrap_prev(selected as nat, len as nat),
        len > 0 && selected < len ==> r < len,
{
    if len == 0 {
        selected
    } else if selected > 0 {
        selected - 1
    } else {
        len - 1
    }
}

/// The record the selection points at, or `None` when the collection is
/// empty or the index has outlived a shrinking refresh. Rendering through
/// this function can never read out of range.
pub fn selected_record<T>(items: &Vec<T>, selected: usize) -> (r: Option<&T>)
    ensures
        match r {
            Some(t) => selected < items@.len() && *t == items@[selected as int],
            None => selected >= items@.len(),
        },
{
    if selected < items.len() {
        Some(&items[selected])
    } else {
        None
    }
}

proof fn lemma_down_n_from_zero(len: nat, n: nat)
    requires
        1 <= len,
        n <= len,
    ensures
        down_n(0, len, n) == if n == len {
            0nat
        } else {
            n
        },
    decreases n,
{
    if n > 0 {
        lemma_down_n_from_zero(len, (n - 1) as nat);
    }
}

proof fn lemma_up_n_from_zero(len: nat, n: nat)
    requires
        1 <= len,
        1 <= n <= len,
    ensures
        up_n(0, len, n) == (len - n) as nat,
    decreases n,
{
    if n > 1 {
        lemma_up_n_from_zero(len, (n - 1) as nat);
    } else {
        assert(up_n(0, len, 0) == 0);
    }
}

/// An index inside the collection's range stays inside it under any
/// number of downward steps.
pub proof fn lemma_down_n_in_range(i: nat, len: nat, n: nat)
    requires
        1 <= len,
        i < len,
    ensures
        down_n(i, len, n) < len,
    decreases n,
{
    if n > 0 {
        lemma_down_n_in_range(i, len, (n - 1) as nat);
    }
}

/// An index inside the collection's range stays inside it under any
/// number of upward steps.
pub proof fn lemma_up_n_in_range(i: nat, len: nat, n: nat)
    requires
        1 <= len,
        i < len,
    ensures
        up_n(i, len, n) < len,
    decreases n,
{
    if n > 0 {
        lemma_up_n_in_range(i, len, (n - 1) as nat);
    }
}

/// Law: over a list of `len >= 1` entries, `len` downward steps from the
/// first entry return the selection to the first entry, and so do `len`
/// upward steps.
pub proof fn lemma_selection_cycle(len: nat)
    requires
        1 <= len,
    ensures
        down_n(0, len, len) == 0,
        up_n(0, len, len) == 0,
{
    lemma_down_n_from_zero(len, len);
    lemma_up_n_from_zero(len, len);
}

/// Law: over a list of `len >= 1` entries, an upward step followed by a
/// downward step returns the selection to where it stood, and so does a
/// downward step followed by an upward step.
pub proof fn lemma_up_down_inverse(i: nat, len: nat)
    requires
        1 <= len,
        i < len,
    ensures
        wrap_prev(wrap_next(i, len), len) == i,
        wrap_next(wrap_prev(i, len), len) == i,
{
}

} // verus!
