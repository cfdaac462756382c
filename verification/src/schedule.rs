//! Reward distribution schedules.
//!
//! A schedule entry `(start, end, amount)` pays out `amount` tokens evenly over
//! the blocks `start..end`. Both the governance ticket rewards and the LP
//! staking rewards accrue by these schedules.
use vstd::prelude::*;
use crate::math::{
    DECIMAL_FRACTIONAL, Decimal, checked_multiply_ratio, mul_decimal, spec_mul_decimal,
    spec_ratio_atomics,
};

verus! {

/// One entry of a distribution schedule: start height, end height, amount.
pub type ScheduleEntry = (u64, u64, u128);

/// A schedule is valid when every entry spans at least one block and no two
/// entries overlap.
pub open spec fn spec_valid_schedule(s: Seq<ScheduleEntry>) -> bool {
    &&& forall|i: int| 0 <= i < s.len() ==> (#[trigger] s[i]).0 < s[i].1
    &&& forall|i: int, j: int|
        0 <= i < s.len() && 0 <= j < s.len() && i != j ==> #[trigger] s[i].1 <= #[trigger] s[j].0
            || s[j].1 <= s[i].0
}

pub open spec fn spec_min(a: int, b: int) -> int {
    if a < b {
        a
    } else {
        b
    }
}

pub open spec fn spec_max(a: int, b: int) -> int {
    if a < b {
        b
    } else {
        a
    }
}

/// Whether an entry pays anything between the heights `last` and `height`:
/// it does unless it starts after `height` or ends before `last`.
pub open spec fn entry_applies(e: ScheduleEntry, last: u64, height: u64) -> bool {
    !(e.0 > height || e.1 < last)
}

/// The blocks of `e` that lie between `last` and `height`.
pub open spec fn entry_passed_blocks(e: ScheduleEntry, last: u64, height: u64) -> int {
    spec_min(e.1 as int, height as int) - spec_max(e.0 as int, last as int)
}

/// The per-block payout of `e`, as the atomics of a decimal.
pub open spec fn entry_rate(e: ScheduleEntry) -> int {
    spec_ratio_atomics(e.2 as int, e.1 - e.0)
}

/// What `e` pays between `last` and `height`: the per-block payout times the
/// blocks passed, rounded down.
pub open spec fn entry_reward(e: ScheduleEntry, last: u64, height: u64) -> int {
    if entry_applies(e, last, height) {
        spec_mul_decimal(entry_passed_blocks(e, last, height), entry_rate(e))
    } else {
        0
    }
}

/// What the whole schedule pays between `last` and `height`.
pub open spec fn schedule_reward(s: Seq<ScheduleEntry>, last: u64, height: u64) -> int
    decreases s.len(),
{
    if s.len() == 0 {
        0
    } else {
        schedule_reward(s.drop_last(), last, height) + entry_reward(s.last(), last, height)
    }
}

/// The computation of `entry_reward` stays within 128 bits and divides by a
/// non-zero number of blocks.
pub open spec fn entry_reward_defined(e: ScheduleEntry, last: u64, height: u64) -> bool {
    entry_applies(e, last, height) ==> {
        &&& entry_passed_blocks(e, last, height) >= 0
        &&& e.0 < e.1
        &&& entry_rate(e) <= u128::MAX
        &&& entry_reward(e, last, height) <= u128::MAX
    }
}

/// The computation of `schedule_reward` stays within 128 bits at every step.
pub open spec fn schedule_reward_defined(s: Seq<ScheduleEntry>, last: u64, height: u64) -> bool {
    &&& forall|i: int| 0 <= i < s.len() ==> entry_reward_defined(#[trigger] s[i], last, height)
    &&& forall|k: int| 0 <= k <= s.len() ==> #[trigger] schedule_reward(s.take(k), last, height) <= u128::MAX
}

/// A schedule whose entries can be computed pays a non-negative amount.
pub(crate) proof fn lemma_schedule_reward_nonneg(s: Seq<ScheduleEntry>, last: u64, height: u64)
    requires
        forall|i: int| 0 <= i < s.len() ==> entry_reward_defined(#[trigger] s[i], last, height),
    ensures
        schedule_reward(s, last, height) >= 0,
    decreases s.len(),
{
    if s.len() > 0 {
        assert forall|i: int| 0 <= i < s.drop_last().len() implies entry_reward_defined(
            #[trigger] s.drop_last()[i],
            last,
            height,
        ) by {
            assert(s.drop_last()[i] == s[i]);
        }
        lemma_schedule_reward_nonneg(s.drop_last(), last, height);
        let e = s.last();
        assert(entry_reward_defined(s[s.len() - 1], last, height));
        if entry_applies(e, last, height) {
            let k: int = 1_000_000_000_000_000_000;
            assert(e.2 * k >= 0) by (nonlinear_arith)
                requires
                    e.2 >= 0,
                    k > 0,
            ;
            assert(entry_rate(e) >= 0);
            assert(entry_passed_blocks(e, last, height) * entry_rate(e) >= 0) by (nonlinear_arith)
                requires
                    entry_passed_blocks(e, last, height) >= 0,
                    entry_rate(e) >= 0,
            ;
        }
    }
}

/// Nothing is paid between a height and itself: the rewards of a schedule
/// over an empty span of blocks are zero.
pub proof fn law_no_reward_at_same_height(s: Seq<ScheduleEntry>, height: u64)
    ensures
        schedule_reward(s, height, height) == 0,
    decreases s.len(),
{
    if s.len() > 0 {
        law_no_reward_at_same_height(s.drop_last(), height);
        let e = s.last();
        if entry_applies(e, height, height) {
            assert(entry_passed_blocks(e, height, height) == 0);
            assert(0 * entry_rate(e) == 0);
        }
    }
}

/// Whether `schedule` is valid: every entry ends after it starts and no two
/// entries overlap.
pub fn is_valid_schedule(schedule: &Vec<ScheduleEntry>) -> (r: bool)
    ensures
        r == spec_valid_schedule(schedule@),
{
    let n = schedule.len();
    let mut i: usize = 0;
    while i < n
        invariant
            n == schedule@.len(),
            i <= n,
            forall|k: int| 0 <= k < i ==> (#[trigger] schedule@[k]).0 < schedule@[k].1,
            forall|k: int, l: int|
                0 <= k < i && 0 <= l < n && k != l ==> #[trigger] schedule@[k].1
                    <= #[trigger] schedule@[l].0 || schedule@[l].1 <= schedule@[k].0,
        decreases n - i,
    {
        let a = schedule[i];
        if a.0 >= a.1 {
            return false;
        }
        let mut j: usize = 0;
        while j < n
            invariant
                n == schedule@.len(),
                i < n,
                j <= n,
                a == schedule@[i as int],
                forall|l: int|
                    0 <= l < j && l != i ==> #[trigger] schedule@[l].0 >= a.1 || schedule@[l].1
                        <= a.0,
            decreases n - j,
        {
            if j != i {
                let b = schedule[j];
                if !(a.1 <= b.0 || b.1 <= a.0) {
                    return false;
                }
            }
            j = j + 1;
        }
        i = i + 1;
    }
    true
}

/// What `schedule` pays between the heights `last` and `height`
/// (the loop of `State::compute_reward` and of
/// `TicketState::compute_distributed_reward`).
pub fn schedule_distributed_amount(schedule: &Vec<ScheduleEntry>, last: u64, height: u64) -> (r:
    u128)
    requires
        schedule_reward_defined(schedule@, last, height),
    ensures
        r as int == schedule_reward(schedule@, last, height),
{
    let n = schedule.len();
    let mut distributed: u128 = 0;
    let mut i: usize = 0;
    proof {
        assert(schedule@.take(0) =~= Seq::<ScheduleEntry>::empty());
    }
    while i < n
        invariant
            n == schedule@.len(),
            i <= n,
            schedule_reward_defined(schedule@, last, height),
            distributed as int == schedule_reward(schedule@.take(i as int), last, height),
        decreases n - i,
    {
        let s = schedule[i];
        proof {
            assert(schedule@.take(i + 1).drop_last() =~= schedule@.take(i as int));
            assert(schedule@.take(i + 1).last() == s);
            assert(entry_reward_defined(schedule@[i as int], last, height));
            assert(schedule_reward(schedule@.take(i + 1), last, height) <= u128::MAX);
        }
        if s.0 > height || s.1 < last {
            i = i + 1;
            continue;
        }
        let hi = if s.1 < height {
            s.1
        } else {
            height
        };
        let lo = if s.0 < last {
            last
        } else {
            s.0
        };
        let passed_blocks = hi - lo;
        let num_blocks = s.1 - s.0;
        let per_block = Decimal::from_ratio(s.2, num_blocks as u128);
        let amount = mul_decimal(passed_blocks as u128, per_block);
        distributed = distributed + amount;
        i = i + 1;
    }
    proof {
        assert(schedule@.take(n as int) =~= schedule@);
    }
    distributed
}

/// What `schedule` pays between the heights `last` and `height`, when every
/// step of the computation stays within 128 bits; nothing otherwise, where
/// the contract's arithmetic panics.
pub fn checked_schedule_distributed_amount(schedule: &Vec<ScheduleEntry>, last: u64, height: u64) -> (r:
    Option<u128>)
    ensures
        r is Some <==> schedule_reward_defined(schedule@, last, height),
        r is Some ==> r->Some_0 as int == schedule_reward(schedule@, last, height),
{
    let n = schedule.len();
    let mut distributed: u128 = 0;
    let mut i: usize = 0;
    proof {
        assert(schedule@.take(0) =~= Seq::<ScheduleEntry>::empty());
    }
    while i < n
        invariant
            n == schedule@.len(),
            i <= n,
            forall|j: int| 0 <= j < i ==> entry_reward_defined(#[trigger] schedule@[j], last, height),
            forall|k: int| 0 <= k <= i ==> #[trigger] schedule_reward(schedule@.take(k), last, height)
                <= u128::MAX,
            distributed as int == schedule_reward(schedule@.take(i as int), last, height),
        decreases n - i,
    {
        let s = schedule[i];
        proof {
            assert(schedule@.take(i + 1).drop_last() =~= schedule@.take(i as int));
            assert(schedule@.take(i + 1).last() == s);
        }
        if s.0 > height || s.1 < last {
            proof {
                assert(schedule_reward(schedule@.take(i + 1), last, height) == distributed);
            }
            i = i + 1;
            continue;
        }
        let hi = if s.1 < height {
            s.1
        } else {
            height
        };
        let lo = if s.0 < last {
            last
        } else {
            s.0
        };
        if hi < lo || s.1 <= s.0 {
            proof {
                assert(!entry_reward_defined(schedule@[i as int], last, height));
            }
            return None;
        }
        let passed_blocks = hi - lo;
        let num_blocks = s.1 - s.0;
        let per_block = match checked_multiply_ratio(s.2, DECIMAL_FRACTIONAL, num_blocks as u128) {
            Some(v) => v,
            None => {
                proof {
                    assert(!entry_reward_defined(schedule@[i as int], last, height));
                }
                return None;
            },
        };
        let amount = match checked_multiply_ratio(passed_blocks as u128, per_block, DECIMAL_FRACTIONAL) {
            Some(v) => v,
            None => {
                proof {
                    assert(!entry_reward_defined(schedule@[i as int], last, height));
                }
                return None;
            },
        };
        proof {
            assert(entry_reward_defined(schedule@[i as int], last, height));
            assert(schedule_reward(schedule@.take(i + 1), last, height) == distributed + amount);
        }
        if distributed > u128::MAX - amount {
            proof {
                assert(schedule_reward(schedule@.take(i + 1), last, height) > u128::MAX);
            }
            return None;
        }
        distributed = distributed + amount;
        i = i + 1;
    }
    proof {
        assert(schedule@.take(n as int) =~= schedule@);
    }
    Some(distributed)
}

/// The reward index `index` can take what `schedule` pays between `last`
/// and `height`, spread over `divisor` (with nothing to spread over, the
/// index does not move), within 128 bits.
pub open spec fn index_growth_defined(
    index: u128,
    divisor: u128,
    schedule: Seq<ScheduleEntry>,
    last: u64,
    height: u64,
) -> bool {
    divisor != 0 ==> {
        &&& schedule_reward_defined(schedule, last, height)
        &&& index + spec_ratio_atomics(schedule_reward(schedule, last, height), divisor as int)
            <= u128::MAX
    }
}

/// Whether raising the reward index `index` by the payout of `schedule`
/// between `last` and `height`, spread over `divisor`, stays within 128 bits.
pub fn index_growth_fits(
    index: u128,
    divisor: u128,
    schedule: &Vec<ScheduleEntry>,
    last: u64,
    height: u64,
) -> (r: bool)
    ensures
        r == index_growth_defined(index, divisor, schedule@, last, height),
{
    if divisor == 0 {
        return true;
    }
    match checked_schedule_distributed_amount(schedule, last, height) {
        None => false,
        Some(distributed) => match checked_multiply_ratio(distributed, DECIMAL_FRACTIONAL, divisor) {
            None => false,
            Some(ratio) => index <= u128::MAX - ratio,
        },
    }
}

/// Bringing a reward of `amount` units, last brought up to the index `own`,
/// up to the index `global` stays within 128 bits, with `pending` already
/// owed.
pub open spec fn reward_growth_defined(amount: u128, global: u128, own: u128, pending: u128) -> bool {
    &&& spec_mul_decimal(amount as int, global as int) <= u128::MAX
    &&& spec_mul_decimal(amount as int, own as int) <= u128::MAX
    &&& spec_mul_decimal(amount as int, global as int) >= spec_mul_decimal(amount as int, own as int)
        ==> pending + spec_mul_decimal(amount as int, global as int) - spec_mul_decimal(
        amount as int,
        own as int,
    ) <= u128::MAX
}

/// Whether bringing a reward up to the index `global` stays within 128 bits.
pub fn reward_growth_fits(amount: u128, global: u128, own: u128, pending: u128) -> (r: bool)
    ensures
        r == reward_growth_defined(amount, global, own, pending),
{
    let total = match checked_multiply_ratio(amount, global, DECIMAL_FRACTIONAL) {
        Some(v) => v,
        None => {
            return false;
        },
    };
    let earlier = match checked_multiply_ratio(amount, own, DECIMAL_FRACTIONAL) {
        Some(v) => v,
        None => {
            return false;
        },
    };
    if total >= earlier {
        pending <= u128::MAX - (total - earlier)
    } else {
        true
    }
}

/// A copy of a schedule.
pub fn copy_schedule(schedule: &Vec<ScheduleEntry>) -> (r: Vec<ScheduleEntry>)
    ensures
        r@ == schedule@,
{
    let mut r: Vec<ScheduleEntry> = Vec::new();
    let mut i: usize = 0;
    while i < schedule.len()
        invariant
            i <= schedule@.len(),
            r@ == schedule@.take(i as int),
        decreases schedule@.len() - i,
    {
        r.push(schedule[i]);
        proof {
            assert(schedule@.take(i + 1) =~= schedule@.take(i as int).push(schedule@[i as int]));
        }
        i = i + 1;
    }
    proof {
        assert(schedule@.take(i as int) =~= schedule@);
    }
    r
}

} // verus!
