//! Stepping round an ordered, non-empty sequence: the selector that the camera
//! modes and the scroll targets share.
use vstd::prelude::*;

verus! {

/// The index after `index` in a cycle of `len` places: the next one, and the
/// first after the last.
pub open spec fn next_index(index: int, len: int) -> int {
    (index + 1) % len
}

/// The index reached from `index` after `steps` steps round a cycle of `len`
/// places, taken one at a time.
pub open spec fn index_after(index: int, len: int, steps: nat) -> int
    decreases steps,
{
    if steps == 0 {
        index
    } else {
        next_index(index_after(index, len, (steps - 1) as nat), len)
    }
}

/// The index after `index` in a cycle of `len` places.
pub fn cycle_next(index: usize, len: usize) -> (next: usize)
    requires
        index < len,
    ensures
        next == next_index(index as int, len as int),
        next < len,
{
    assert(next_index(index as int, len as int) == if index + 1 < len {
        index + 1
    } else {
        0
    }) by (nonlinear_arith)
        requires
            0 <= index < len,
    ;
    if index + 1 < len {
        index + 1
    } else {
        0
    }
}

/// Stepping round a cycle adds the steps to the index, modulo the length.
pub proof fn lemma_index_after(index: int, len: int, steps: nat)
    requires
        0 <= index < len,
    ensures
        index_after(index, len, steps) == (index + steps) % len,
        0 <= index_after(index, len, steps) < len,
    decreases steps,
{
    if steps == 0 {
        assert(index % len == index) by (nonlinear_arith)
            requires
                0 <= index < len,
        ;
    } else {
        lemma_index_after(index, len, (steps - 1) as nat);
        let before = index + steps - 1;
        assert(((before % len) + 1) % len == (before + 1) % len && 0 <= (before + 1) % len < len)
            by (nonlinear_arith)
            requires
                len > 0,
                before >= 0,
        ;
    }
}

/// Cyclic closure: as many steps as the cycle has places lead back to the
/// start, from every place.
pub proof fn lemma_cycle_closes(index: int, len: int)
    requires
        0 <= index < len,
    ensures
        index_after(index, len, len as nat) == index,
{
    lemma_index_after(index, len, len as nat);
    assert((index + len) % len == index) by (nonlinear_arith)
        requires
            0 <= index < len,
    ;
}

} // verus!
