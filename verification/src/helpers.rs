//! Bit-level helpers shared by the scheduler and the resource manager:
//! the bitmask vocabulary (`bit_set`, `is_top_bit`), the constant-time
//! most-significant-bit scan that dispatch is built on, and `TaskMask`,
//! which turns a list of task ids into an authorization/release bitmask.
use vstd::prelude::*;

verus! {

/// Bit `i` of `mask` is set. Bits are indexed from the least significant;
/// bit `i` stands for task id `i`.
pub open spec fn bit_set(mask: u32, i: u32) -> bool {
    i < 32 && (mask >> i) & 1u32 == 1u32
}

/// `i` is the highest set bit of `mask`: it is set, and every higher bit is
/// clear. Under the fixed priority convention (a task's id doubles as its
/// priority, larger id = higher priority) this is the dispatch choice.
pub open spec fn is_top_bit(mask: u32, i: u32) -> bool {
    bit_set(mask, i) && forall|j: u32| i < j < 32 ==> !bit_set(mask, j)
}

/// The highest set bit determines itself: a mask has at most one top bit,
/// so dispatch from a given ready mask is deterministic.
pub proof fn lemma_top_bit_unique(mask: u32, i: u32, j: u32)
    requires
        is_top_bit(mask, i),
        is_top_bit(mask, j),
    ensures
        i == j,
{
    if i < j {
        assert(!bit_set(mask, j));
    }
    if j < i {
        assert(!bit_set(mask, i));
    }
}

/// Index of the most significant set bit of `val`, or 0 when `val` is 0.
/// Runs in constant time through the hardware count-leading-zeros primitive
/// rather than a scan of the table.
pub fn get_msb(val: u32) -> (r: usize)
    ensures
        val == 0 ==> r == 0,
        val != 0 ==> r < 32 && is_top_bit(val, r as u32),
{
    proof {
        vstd::std_specs::bits::axiom_u32_leading_zeros(val);
    }
    let z = val.leading_zeros();
    if z >= 32 {
        0
    } else {
        let r = (31 - z) as usize;
        proof {
            let zs = vstd::std_specs::bits::u32_leading_zeros(val);
            let k: u32 = (31 - zs) as u32;
            assert((val >> k) & 1u32 != 0u32);
            assert(((val >> k) & 1u32 != 0u32) ==> (val >> k) & 1u32 == 1u32) by (bit_vector);
            assert forall|j: u32| (r as u32) < j < 32 implies !bit_set(val, j) by {
                assert((val >> j) & 1u32 == 0u32);
            }
        }
        r
    }
}

/// Takes a list of task ids and returns the bitmask with exactly those
/// bits set.
pub struct TaskMask<const N: usize> {}

impl<const N: usize> TaskMask<N> {
    /// The returned mask has bit `b` set exactly when some entry of `tasks`
    /// is `b`.
    pub fn generate(tasks: [u32; N]) -> (mask: u32)
        requires
            forall|k: int| 0 <= k < N ==> tasks[k] < 32,
        ensures
            forall|b: u32| bit_set(mask, b) <==> exists|k: int| 0 <= k < N && tasks[k] == b,
    {
        let mut task_mask: u32 = 0;
        let mut i: usize = 0;
        proof {
            assert(forall|b: u32| (0u32 >> b) & 1u32 == 0u32) by (bit_vector);
        }
        while i < N
            invariant
                i <= N,
                forall|k: int| 0 <= k < N ==> tasks[k] < 32,
                forall|b: u32| bit_set(task_mask, b) <==> exists|k: int| 0 <= k < i && tasks[k] == b,
            decreases N - i,
        {
            let t = tasks[i];
            let next_mask = task_mask | (1u32 << t);
            proof {
                assert(forall|b: u32|
                    t < 32 ==> (bit_set(task_mask | (1u32 << t), b) <==> (bit_set(task_mask, b)
                        || b == t))) by (bit_vector);
                assert forall|b: u32| bit_set(next_mask, b) implies exists|k: int|
                    0 <= k < i + 1 && tasks[k] == b by {
                    if bit_set(task_mask, b) {
                        let k = choose|k: int| 0 <= k < i && tasks[k] == b;
                        assert(0 <= k < i + 1 && tasks[k] == b);
                    } else {
                        assert(tasks[i as int] == b);
                    }
                }
                assert forall|b: u32| (exists|k: int| 0 <= k < i + 1 && tasks[k] == b) implies
                    bit_set(next_mask, b) by {
                    let k = choose|k: int| 0 <= k < i + 1 && tasks[k] == b;
                    if k < i {
                        assert(bit_set(task_mask, b));
                    } else {
                        assert(b == t);
                    }
                }
            }
            task_mask = next_mask;
            i = i + 1;
        }
        task_mask
    }
}

} // verus!
