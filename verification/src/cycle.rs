//! Arithmetic of cyclic traversal: stepping an ordinal forward and backward
//! through `count` positions with wraparound, and the laws of those steps.

use vstd::prelude::*;
use vstd::arithmetic::div_mod::lemma_mod_add_multiples_vanish;
use vstd::arithmetic::div_mod::lemma_mod_self_0;
use vstd::arithmetic::div_mod::lemma_small_mod;

verus! {

/// The ordinal reached from `ordinal` by `offset` positions in a cycle of
/// `modulus` positions.
pub open spec fn shifted(ordinal: int, offset: int, modulus: int) -> int {
    (ordinal + offset) % modulus
}

/// The ordinal that follows `ordinal` in a cycle of `count` positions.
pub open spec fn successor(count: int, ordinal: int) -> int {
    shifted(ordinal, 1, count)
}

/// The ordinal that precedes `ordinal` in a cycle of `count` positions.
pub open spec fn predecessor(count: int, ordinal: int) -> int {
    shifted(ordinal, count - 1, count)
}

/// `successor` applied `steps` times.
pub open spec fn successor_times(count: int, ordinal: int, steps: nat) -> int
    decreases steps,
{
    if steps == 0 {
        ordinal
    } else {
        successor(count, successor_times(count, ordinal, (steps - 1) as nat))
    }
}

/// `predecessor` applied `steps` times.
pub open spec fn predecessor_times(count: int, ordinal: int, steps: nat) -> int
    decreases steps,
{
    if steps == 0 {
        ordinal
    } else {
        predecessor(count, predecessor_times(count, ordinal, (steps - 1) as nat))
    }
}

/// A shift by less than one turn either stays below the modulus or wraps
/// around once.
pub proof fn lemma_shifted_wraps(ordinal: int, offset: int, modulus: int)
    requires
        0 <= ordinal < modulus,
        0 <= offset <= modulus,
    ensures
        shifted(ordinal, offset, modulus) == if ordinal + offset < modulus {
            ordinal + offset
        } else {
            ordinal + offset - modulus
        },
        0 <= shifted(ordinal, offset, modulus) < modulus,
{
    let sum = ordinal + offset;
    if sum < modulus {
        lemma_small_mod(sum as nat, modulus as nat);
    } else if sum == modulus {
        lemma_mod_self_0(modulus);
    } else {
        lemma_small_mod((sum - modulus) as nat, modulus as nat);
        lemma_mod_add_multiples_vanish(sum - modulus, modulus);
    }
}

/// The successor is the next ordinal, and the first one after the last; the
/// predecessor is the ordinal before, and the last one before the first.
pub proof fn lemma_neighbours(count: int, ordinal: int)
    requires
        0 <= ordinal < count,
    ensures
        successor(count, ordinal) == if ordinal + 1 == count {
            0
        } else {
            ordinal + 1
        },
        predecessor(count, ordinal) == if ordinal == 0 {
            count - 1
        } else {
            ordinal - 1
        },
        0 <= successor(count, ordinal) < count,
        0 <= predecessor(count, ordinal) < count,
{
    lemma_shifted_wraps(ordinal, 1, count);
    lemma_shifted_wraps(ordinal, count - 1, count);
}

/// Stepping forward and then backward, or backward and then forward, comes
/// back to the ordinal it started from.
pub proof fn lemma_mutual_inverse(count: int, ordinal: int)
    requires
        0 <= ordinal < count,
    ensures
        predecessor(count, successor(count, ordinal)) == ordinal,
        successor(count, predecessor(count, ordinal)) == ordinal,
{
    lemma_neighbours(count, ordinal);
    lemma_neighbours(count, successor(count, ordinal));
    lemma_neighbours(count, predecessor(count, ordinal));
}

/// In a cycle of one position both steps stay where they are.
pub proof fn lemma_single_member_self_loop(count: int, ordinal: int)
    requires
        count == 1,
        0 <= ordinal < count,
    ensures
        successor(count, ordinal) == ordinal,
        predecessor(count, ordinal) == ordinal,
{
    lemma_neighbours(count, ordinal);
}

/// Up to one full turn, `steps` forward steps add `steps` to the ordinal and
/// wrap around at most once.
pub proof fn lemma_successor_times(count: int, ordinal: int, steps: nat)
    requires
        0 <= ordinal < count,
        steps <= count,
    ensures
        successor_times(count, ordinal, steps) == if ordinal + steps < count {
            ordinal + steps
        } else {
            ordinal + steps - count
        },
    decreases steps,
{
    if steps > 0 {
        let before = (steps - 1) as nat;
        lemma_successor_times(count, ordinal, before);
        lemma_neighbours(count, successor_times(count, ordinal, before));
    }
}

/// Up to one full turn, `steps` backward steps take `steps` from the ordinal
/// and wrap around at most once.
pub proof fn lemma_predecessor_times(count: int, ordinal: int, steps: nat)
    requires
        0 <= ordinal < count,
        steps <= count,
    ensures
        predecessor_times(count, ordinal, steps) == if ordinal >= steps {
            ordinal - steps
        } else {
            ordinal - steps + count
        },
    decreases steps,
{
    if steps > 0 {
        let before = (steps - 1) as nat;
        lemma_predecessor_times(count, ordinal, before);
        lemma_neighbours(count, predecessor_times(count, ordinal, before));
    }
}

/// As many steps as the cycle has positions, forward or backward, come back
/// to the ordinal they started from.
pub proof fn lemma_cyclic_closure(count: int, ordinal: int)
    requires
        0 <= ordinal < count,
    ensures
        successor_times(count, ordinal, count as nat) == ordinal,
        predecessor_times(count, ordinal, count as nat) == ordinal,
{
    lemma_successor_times(count, ordinal, count as nat);
    lemma_predecessor_times(count, ordinal, count as nat);
}

/// Computes `shifted` for an ordinal below the modulus and an offset of at
/// most one turn. The sum is formed in 128 bits, where it cannot overflow.
pub fn shift(ordinal: usize, offset: usize, modulus: usize) -> (landing: usize)
    requires
        ordinal < modulus,
        offset <= modulus,
    ensures
        landing == shifted(ordinal as int, offset as int, modulus as int),
        landing < modulus,
{
    proof {
        lemma_shifted_wraps(ordinal as int, offset as int, modulus as int);
    }
    let sum: u128 = ordinal as u128 + offset as u128;
    let wrapped: u128 = sum % (modulus as u128);
    wrapped as usize
}

} // verus!
