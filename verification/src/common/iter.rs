//! Splitting a run of items into power-of-two sized chunks.
use vstd::prelude::*;

verus! {

/// The largest power of two that is at most `n`, for `n >= 1`.
pub open spec fn highest_power_of_two(n: nat) -> nat
    decreases n,
{
    if n <= 1 {
        1
    } else {
        2 * highest_power_of_two(n / 2)
    }
}

/// The size of the chunk taken from `remaining` items: the largest power of
/// two that fits, capped at `max_chunk`.
pub open spec fn chunk_size(remaining: nat, max_chunk: nat) -> nat {
    if remaining >= max_chunk {
        max_chunk
    } else {
        highest_power_of_two(remaining)
    }
}

/// The chunks that cover positions `pos` to `n`: each chunk as its first
/// position and its size.
pub open spec fn chunk_plan(pos: nat, n: nat, max_chunk: nat) -> Seq<(nat, nat)>
    decreases n - pos,
{
    if pos >= n || max_chunk == 0 {
        Seq::empty()
    } else {
        let c = chunk_size((n - pos) as nat, max_chunk);
        if c == 0 || pos + c > n {
            Seq::empty()
        } else {
            seq![(pos, c)] + chunk_plan(pos + c, n, max_chunk)
        }
    }
}

/// The sum of the sizes of chunks.
pub open spec fn total_size(plan: Seq<(nat, nat)>) -> nat
    decreases plan.len(),
{
    if plan.len() == 0 {
        0
    } else {
        plan[0].1 + total_size(plan.drop_first())
    }
}

/// The largest power of two at most `n` is at most `n` and more than half
/// of `n`.
pub proof fn lemma_highest_power_of_two(n: nat)
    requires
        n >= 1,
    ensures
        1 <= highest_power_of_two(n) <= n < 2 * highest_power_of_two(n),
    decreases n,
{
    if n > 1 {
        lemma_highest_power_of_two(n / 2);
    }
}

/// The chunks of the plan cover the positions from `pos` to `n` exactly:
/// each starts where the previous one ended, and their sizes add up to
/// `n - pos`.
pub proof fn lemma_chunk_plan_covers(pos: nat, n: nat, max_chunk: nat)
    requires
        max_chunk >= 1,
        pos <= n,
    ensures
        total_size(chunk_plan(pos, n, max_chunk)) == n - pos,
        chunk_plan(pos, n, max_chunk).len() > 0 ==> chunk_plan(pos, n, max_chunk)[0].0 == pos,
        forall|i: int|
            0 <= i < chunk_plan(pos, n, max_chunk).len() - 1 ==> #[trigger] chunk_plan(
                pos,
                n,
                max_chunk,
            )[i + 1].0 == chunk_plan(pos, n, max_chunk)[i].0 + chunk_plan(pos, n, max_chunk)[i].1,
    decreases n - pos,
{
    if pos < n {
        let c = chunk_size((n - pos) as nat, max_chunk);
        lemma_highest_power_of_two((n - pos) as nat);
        lemma_chunk_plan_covers(pos + c, n, max_chunk);
        let plan = chunk_plan(pos, n, max_chunk);
        let rest = chunk_plan(pos + c, n, max_chunk);
        assert(plan.drop_first() =~= rest);
        assert forall|i: int| 0 <= i < plan.len() - 1 implies #[trigger] plan[i + 1].0 == plan[i].0
            + plan[i].1 by {
            if i > 0 {
                assert(plan[i] == rest[i - 1]);
                assert(plan[i + 1] == rest[i]);
            }
        }
    }
}

/// The largest power of two at most `n` is a power of two.
proof fn lemma_highest_is_pow2(n: nat)
    ensures
        vstd::arithmetic::power2::is_pow2(highest_power_of_two(n) as int),
    decreases n,
{
    reveal(vstd::arithmetic::power2::is_pow2);
    if n > 1 {
        lemma_highest_is_pow2(n / 2);
        let h = highest_power_of_two(n / 2);
        assert(h >= 1) by {
            if n / 2 >= 1 {
                lemma_highest_power_of_two(n / 2);
            }
        }
        assert((2 * h) as int % 2 == 0 && (2 * h) as int / 2 == h as int);
    }
}

/// Every chunk of the plan starts where the plan says, takes the largest
/// power of two of items that fits in what is left, capped at `max_chunk`,
/// and so is a power of two (when `max_chunk` is), at least one and at most
/// `max_chunk` items long, and ends within the items.
pub proof fn lemma_chunk_plan_sizes(pos: nat, n: nat, max_chunk: nat)
    requires
        max_chunk >= 1,
        vstd::arithmetic::power2::is_pow2(max_chunk as int),
        pos <= n,
    ensures
        forall|i: int|
            0 <= i < chunk_plan(pos, n, max_chunk).len() ==> {
                let (start, size) = #[trigger] chunk_plan(pos, n, max_chunk)[i];
                &&& pos <= start < n
                &&& size == chunk_size((n - start) as nat, max_chunk)
                &&& 1 <= size <= max_chunk
                &&& start + size <= n
                &&& vstd::arithmetic::power2::is_pow2(size as int)
            },
    decreases n - pos,
{
    if pos < n {
        let c = chunk_size((n - pos) as nat, max_chunk);
        lemma_highest_power_of_two((n - pos) as nat);
        lemma_highest_is_pow2((n - pos) as nat);
        lemma_chunk_plan_sizes(pos + c, n, max_chunk);
        let plan = chunk_plan(pos, n, max_chunk);
        let rest = chunk_plan(pos + c, n, max_chunk);
        assert forall|i: int| 0 <= i < plan.len() implies {
            let (start, size) = #[trigger] plan[i];
            &&& pos <= start < n
            &&& size == chunk_size((n - start) as nat, max_chunk)
            &&& 1 <= size <= max_chunk
            &&& start + size <= n
            &&& vstd::arithmetic::power2::is_pow2(size as int)
        } by {
            if i > 0 {
                assert(plan[i] == rest[i - 1]);
            }
        }
    }
}

/// A power of two is a power of two in the recursive sense.
pub proof fn lemma_pow2_is_pow2(p: nat)
    ensures
        vstd::arithmetic::power2::is_pow2(vstd::arithmetic::power2::pow2(p) as int),
{
    vstd::arithmetic::power2::is_pow2_equiv(vstd::arithmetic::power2::pow2(p) as int);
    vstd::arithmetic::power::lemma_pow_positive(2, p);
    assert(vstd::arithmetic::power::pow(2, p) == vstd::arithmetic::power2::pow2(p) as int);
}

/// `firsts` holds, for each chunk of `plan`, the item of `items` at its
/// first position and its size.
pub open spec fn firsts_of_plan<T>(firsts: Seq<(T, usize)>, items: Seq<T>, plan: Seq<(nat, nat)>) -> bool {
    &&& firsts.len() == plan.len()
    &&& forall|i: int|
        0 <= i < firsts.len() ==> #[trigger] firsts[i].0 == items[plan[i].0 as int] && firsts[i].1 == plan[i].1
}

/// The first item of each power-of-two sized chunk of `items`, with the size
/// of that chunk.
///
/// Chunks are sized from the largest power of two that fits in the remaining
/// items down to one, following the binary representation of the number of
/// items; a chunk is never larger than `2^max_power`.
pub fn power_chunk_firsts<T: Copy>(items: &[T], max_power: usize) -> (r: Vec<(T, usize)>)
    requires
        max_power < usize::BITS,
    ensures
        firsts_of_plan(r@, items@, chunk_plan(0, items@.len(), pow2_usize(max_power))),
{
    let max_chunk: usize = 1usize << max_power;
    proof {
        lemma_pow2_usize(max_power);
    }
    let n = items.len();
    let mut pos: usize = 0;
    let mut out: Vec<(T, usize)> = Vec::new();
    let ghost plan = chunk_plan(0, n as nat, max_chunk as nat);
    let ghost mut done: Seq<(nat, nat)> = Seq::empty();
    while pos < n
        invariant
            pos <= n,
            n == items@.len(),
            max_chunk == pow2_usize(max_power),
            max_chunk >= 1,
            plan == chunk_plan(0, n as nat, max_chunk as nat),
            plan == done + chunk_plan(pos as nat, n as nat, max_chunk as nat),
            out@.len() == done.len(),
            forall|i: int|
                0 <= i < done.len() ==> #[trigger] out@[i].0 == items@[done[i].0 as int]
                    && out@[i].1 == done[i].1,
        decreases n - pos,
    {
        let remaining = n - pos;
        let chunk = if remaining >= max_chunk {
            max_chunk
        } else {
            highest_power_of_two_usize(remaining)
        };
        proof {
            lemma_highest_power_of_two(remaining as nat);
            assert(chunk_plan(pos as nat, n as nat, max_chunk as nat) == seq![(pos as nat, chunk as nat)]
                + chunk_plan((pos + chunk) as nat, n as nat, max_chunk as nat));
        }
        let ghost out_before = out@;
        out.push((items[pos], chunk));
        proof {
            let old_done = done;
            done = done.push((pos as nat, chunk as nat));
            assert(plan =~= done + chunk_plan((pos + chunk) as nat, n as nat, max_chunk as nat));
            assert forall|i: int| 0 <= i < done.len() implies #[trigger] out@[i].0 == items@[done[
                i
            ].0 as int] && out@[i].1 == done[i].1 by {
                if i < old_done.len() {
                    assert(out@[i] == out_before[i]);
                }
            }
        }
        pos = pos + chunk;
    }
    proof {
        assert(chunk_plan(pos as nat, n as nat, max_chunk as nat) =~= Seq::<(nat, nat)>::empty());
        assert(done =~= plan);
        assert(plan == chunk_plan(0, items@.len(), pow2_usize(max_power)));
        assert(firsts_of_plan(out@, items@, plan));
    }
    out
}

/// `2^p` as a machine word.
pub open spec fn pow2_usize(p: usize) -> nat {
    vstd::arithmetic::power2::pow2(p as nat)
}

proof fn lemma_pow2_usize(p: usize)
    requires
        p < usize::BITS,
    ensures
        (1usize << p) == pow2_usize(p),
        pow2_usize(p) >= 1,
{
    vstd::bits::lemma_usize_pow2_no_overflow(p as nat);
    vstd::bits::lemma_usize_shl_is_mul(1, p);
    vstd::arithmetic::power2::lemma_pow2_pos(p as nat);
}

/// The largest power of two at most `n`.
fn highest_power_of_two_usize(n: usize) -> (r: usize)
    requires
        n >= 1,
    ensures
        r == highest_power_of_two(n as nat),
{
    let mut p: usize = 1;
    let mut m: usize = n;
    while m > 1
        invariant
            1 <= m <= n,
            p * highest_power_of_two(m as nat) == highest_power_of_two(n as nat),
            p * m <= n,
            p >= 1,
        decreases m,
    {
        proof {
            assert(highest_power_of_two(m as nat) == 2 * highest_power_of_two((m / 2) as nat));
            assert(p * (2 * highest_power_of_two((m / 2) as nat)) == (2 * p) * highest_power_of_two(
                (m / 2) as nat,
            )) by (nonlinear_arith);
            assert((2 * p) * (m / 2) <= p * m) by (nonlinear_arith)
                requires
                    m > 1,
                    p >= 1,
            ;
            assert(2 * p <= p * m) by (nonlinear_arith)
                requires
                    m > 1,
                    p >= 1,
            ;
        }
        p = 2 * p;
        m = m / 2;
    }
    p
}

} // verus!
