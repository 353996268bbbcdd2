use vstd::prelude::*;

verus! {

/// One mebibyte, the step by which the chunk size grows.
pub const CHUNK_STEP: u64 = 1048576;

/// The chunk size tried first: five mebibytes.
pub const INITIAL_CHUNK_SIZE: u64 = 5242880;

/// The largest number of parts a multipart upload may have.
pub const MAX_PARTS: u64 = 10000;

/// Number of chunks of `chunk` bytes needed to cover `size` bytes.
pub open spec fn parts_for(size: nat, chunk: nat) -> nat
    recommends
        chunk > 0,
{
    size / chunk + if size % chunk == 0 {
        0nat
    } else {
        1nat
    }
}

/// A chunk size of the form `INITIAL_CHUNK_SIZE + k * CHUNK_STEP`.
pub open spec fn is_chunk_step(chunk: nat) -> bool {
    chunk >= INITIAL_CHUNK_SIZE && (chunk - INITIAL_CHUNK_SIZE) % (CHUNK_STEP as int) == 0
}

/// A chunk size on the growth ladder that keeps the part count within bounds.
pub open spec fn admissible(size: nat, chunk: nat) -> bool {
    is_chunk_step(chunk) && parts_for(size, chunk) <= MAX_PARTS
}

/// `plan` is the chunk plan of a file of `size` bytes: the smallest admissible
/// chunk size, and the part count that it gives.
pub open spec fn is_plan_for(size: nat, plan: ChunkPlan) -> bool {
    &&& admissible(size, plan.chunk_size as nat)
    &&& plan.num_parts == parts_for(size, plan.chunk_size as nat)
    &&& forall|c: nat| #[trigger]
        is_chunk_step(c) && c < plan.chunk_size ==> parts_for(size, c) > MAX_PARTS
}

/// The chunk size and part count chosen for a file.
#[derive(Clone, Copy, Debug, PartialEq, Eq, Structural)]
pub struct ChunkPlan {
    pub chunk_size: u64,
    pub num_parts: u64,
}

/// `parts_for(size, chunk) <= m` exactly when `m` chunks cover the file.
proof fn lemma_parts_bound(size: nat, chunk: nat, m: nat)
    requires
        chunk > 0,
    ensures
        parts_for(size, chunk) <= m <==> size <= m * chunk,
{
    let q = size / chunk;
    let r = size % chunk;
    assert(size == chunk * q + r) by {
        vstd::arithmetic::div_mod::lemma_fundamental_div_mod(size as int, chunk as int);
    }
    assert(0 <= r < chunk);
    if r == 0 {
        assert(q <= m <==> q * chunk <= m * chunk) by (nonlinear_arith)
            requires
                chunk > 0,
        ;
    } else {
        assert(q + 1 <= m ==> size <= m * chunk) by (nonlinear_arith)
            requires
                size == chunk * q + r,
                r < chunk,
        ;
        assert(size <= m * chunk ==> q + 1 <= m) by (nonlinear_arith)
            requires
                size == chunk * q + r,
                r > 0,
                chunk > 0,
        ;
    }
}

/// `steps` counts the rungs above the initial size needed to reach `needed`.
proof fn lemma_steps(needed: int, steps: int)
    requires
        0 <= needed <= 1844674407370956,
        steps == if needed <= INITIAL_CHUNK_SIZE {
            0int
        } else {
            (needed - INITIAL_CHUNK_SIZE) / (CHUNK_STEP as int) + if (needed - INITIAL_CHUNK_SIZE)
                % (CHUNK_STEP as int) == 0 {
                0int
            } else {
                1int
            }
        },
    ensures
        0 <= steps * CHUNK_STEP <= needed + CHUNK_STEP,
        INITIAL_CHUNK_SIZE + steps * CHUNK_STEP >= needed,
        forall|k: int|
            0 <= k < steps ==> #[trigger] (INITIAL_CHUNK_SIZE + k * CHUNK_STEP) < needed,
{
    if needed > INITIAL_CHUNK_SIZE {
        let over = needed - INITIAL_CHUNK_SIZE;
        let q = over / (CHUNK_STEP as int);
        let r = over % (CHUNK_STEP as int);
        assert(over == CHUNK_STEP * q + r) by {
            vstd::arithmetic::div_mod::lemma_fundamental_div_mod(over, CHUNK_STEP as int);
        }
        assert(0 <= r < CHUNK_STEP);
        assert(q >= 0);
        assert(steps * CHUNK_STEP <= needed + CHUNK_STEP) by (nonlinear_arith)
            requires
                over == 1048576 * q + r,
                steps == q + if r == 0 { 0int } else { 1int },
                r >= 0,
                over == needed - 5242880,
        ;
        assert(steps * CHUNK_STEP >= over) by (nonlinear_arith)
            requires
                over == 1048576 * q + r,
                steps == q + if r == 0 { 0int } else { 1int },
                r < 1048576,
        ;
        assert forall|k: int|
            0 <= k < steps implies #[trigger] (INITIAL_CHUNK_SIZE + k * CHUNK_STEP) < needed by {
            assert(k * 1048576 < over) by (nonlinear_arith)
                requires
                    over == 1048576 * q + r,
                    steps == q + if r == 0 { 0int } else { 1int },
                    0 <= r,
                    0 <= k < steps,
            ;
        }
    }
}

/// Choose the chunk size for a file of `file_size` bytes: the smallest size on
/// the ladder `5 MiB, 6 MiB, 7 MiB, ...` for which the file fits in at most
/// `MAX_PARTS` chunks, together with the resulting number of chunks.
pub fn chunk_plan(file_size: u64) -> (r: ChunkPlan)
    ensures
        is_plan_for(file_size as nat, r),
{
    // the smallest chunk that fits the file into MAX_PARTS pieces
    let needed: u64 = file_size / MAX_PARTS + if file_size % MAX_PARTS == 0 {
        0
    } else {
        1
    };
    let steps: u64 = if needed <= INITIAL_CHUNK_SIZE {
        0
    } else {
        let over: u64 = needed - INITIAL_CHUNK_SIZE;
        over / CHUNK_STEP + if over % CHUNK_STEP == 0 {
            0
        } else {
            1
        }
    };
    assert(needed <= 1844674407370956) by {
        assert(file_size / 10000 <= 1844674407370955);
    }
    proof {
        lemma_steps(needed as int, steps as int);
    }
    let chunk_size: u64 = INITIAL_CHUNK_SIZE + steps * CHUNK_STEP;
    assert(file_size / chunk_size <= file_size / 2) by {
        vstd::arithmetic::div_mod::lemma_div_is_ordered_by_denominator(
            file_size as int,
            2,
            chunk_size as int,
        );
    }
    let num_parts: u64 = file_size / chunk_size + if file_size % chunk_size == 0 {
        0
    } else {
        1
    };
    proof {
        let s = file_size as nat;
        let n = needed as nat;
        let cs = chunk_size as nat;
        assert(parts_for(s, MAX_PARTS as nat) == n);
        lemma_parts_bound(s, MAX_PARTS as nat, n);
        assert(s <= MAX_PARTS * cs) by (nonlinear_arith)
            requires
                s <= n * 10000,
                cs >= n,
        ;
        lemma_parts_bound(s, cs, MAX_PARTS as nat);
        assert((cs - INITIAL_CHUNK_SIZE) % (CHUNK_STEP as int) == 0) by {
            vstd::arithmetic::div_mod::lemma_mod_multiples_basic(steps as int, CHUNK_STEP as int);
        }
        assert forall|c: nat| #[trigger]
            is_chunk_step(c) && c < cs implies parts_for(s, c) > MAX_PARTS by {
            let k: int = (c - INITIAL_CHUNK_SIZE) / (CHUNK_STEP as int);
            assert(c - INITIAL_CHUNK_SIZE == CHUNK_STEP * k) by {
                vstd::arithmetic::div_mod::lemma_fundamental_div_mod(
                    c - INITIAL_CHUNK_SIZE,
                    CHUNK_STEP as int,
                );
            }
            assert(k < steps) by (nonlinear_arith)
                requires
                    c - 5242880 == 1048576 * k,
                    c < 5242880 + steps * 1048576,
            ;
            // every rung below the chosen one is smaller than `needed`
            assert(c < n);
            lemma_parts_bound(s, MAX_PARTS as nat, (n - 1) as nat);
            assert(s > (n - 1) * 10000);
            assert(10000 * c <= (n - 1) * 10000) by (nonlinear_arith)
                requires
                    c <= n - 1,
            ;
            lemma_parts_bound(s, c, MAX_PARTS as nat);
        }
    }
    ChunkPlan { chunk_size, num_parts }
}

/// The chunk plan of a file depends on its size alone: re-creating a tracker
/// for the same file gives the same chunk size and number of parts.
pub proof fn plan_is_deterministic(size: nat, a: ChunkPlan, b: ChunkPlan)
    requires
        is_plan_for(size, a),
        is_plan_for(size, b),
    ensures
        a == b,
{
    if a.chunk_size < b.chunk_size {
        assert(is_chunk_step(a.chunk_size as nat));
    } else if b.chunk_size < a.chunk_size {
        assert(is_chunk_step(b.chunk_size as nat));
    }
}

} // verus!
