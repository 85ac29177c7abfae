//! The benchmark matrix: one invocation per (job, block size, queue depth)
//! triple, in nested iteration order.
use vstd::prelude::*;

verus! {

/// One planned run of the benchmarking process.
pub struct Invocation {
    pub job: String,
    pub bs: String,
    pub iodepth: u32,
}

/// The position of the triple (i, j, k) in the nested iteration order:
/// jobs outermost, block sizes in the middle, queue depths innermost.
pub open spec fn matrix_index(i: int, j: int, k: int, n_bs: int, n_depth: int) -> int {
    (i * n_bs + j) * n_depth + k
}

/// Whether every planned entry whose slot is already filled carries the
/// right job, block size and queue depth for its position.
pub open spec fn plan_prefix_ok(
    plan: Seq<Invocation>,
    jobs: Seq<String>,
    bss: Seq<String>,
    depths: Seq<u32>,
) -> bool {
    forall|a: int, b: int, c: int|
        0 <= a < jobs.len() && 0 <= b < bss.len() && 0 <= c < depths.len() && matrix_index(
            a,
            b,
            c,
            bss.len() as int,
            depths.len() as int,
        ) < plan.len() ==> {
            let entry = #[trigger] plan[matrix_index(a, b, c, bss.len() as int, depths.len() as int)];
            entry.job@ == jobs[a]@ && entry.bs@ == bss[b]@ && entry.iodepth == depths[c]
        }
}

/// Plans the whole benchmark matrix: exactly one invocation per
/// (job, block size, queue depth) triple, jobs outermost, block sizes in the
/// middle, queue depths innermost.
pub fn plan_invocations(jobs: &Vec<String>, bss: &Vec<String>, depths: &Vec<u32>) -> (plan: Vec<
    Invocation,
>)
    requires
        jobs@.len() * bss@.len() * depths@.len() <= usize::MAX,
    ensures
        plan@.len() == jobs@.len() * bss@.len() * depths@.len(),
        forall|i: int, j: int, k: int|
            0 <= i < jobs@.len() && 0 <= j < bss@.len() && 0 <= k < depths@.len() ==> {
                let entry = #[trigger] plan@[matrix_index(
                    i,
                    j,
                    k,
                    bss@.len() as int,
                    depths@.len() as int,
                )];
                entry.job@ == jobs@[i]@ && entry.bs@ == bss@[j]@ && entry.iodepth == depths@[k]
            },
{
    let ghost n_jobs = jobs@.len() as int;
    let ghost n_bs = bss@.len() as int;
    let ghost n_depth = depths@.len() as int;
    let mut plan: Vec<Invocation> = Vec::new();
    let mut i: usize = 0;
    proof {
        assert(plan@.len() == 0);
        assert((i as int) * n_bs * n_depth == 0) by (nonlinear_arith)
            requires
                i == 0,
        ;
    }
    while i < jobs.len()
        invariant
            0 <= i <= n_jobs,
            n_jobs == jobs@.len(),
            n_bs == bss@.len(),
            n_depth == depths@.len(),
            n_jobs * n_bs * n_depth <= usize::MAX,
            plan@.len() == (i as int) * n_bs * n_depth,
            plan_prefix_ok(plan@, jobs@, bss@, depths@),
        decreases n_jobs - i,
    {
        proof {
            lemma_block_bound(i as int, n_jobs, n_bs, n_depth);
        }
        let mut j: usize = 0;
        while j < bss.len()
            invariant
                0 <= i < n_jobs,
                0 <= j <= n_bs,
                n_jobs == jobs@.len(),
                n_bs == bss@.len(),
                n_depth == depths@.len(),
                n_jobs * n_bs * n_depth <= usize::MAX,
                (i as int + 1) * n_bs * n_depth <= usize::MAX,
                plan@.len() == (i as int) * n_bs * n_depth + (j as int) * n_depth,
                plan_prefix_ok(plan@, jobs@, bss@, depths@),
            decreases n_bs - j,
        {
            let mut k: usize = 0;
            while k < depths.len()
                invariant
                    0 <= i < n_jobs,
                    0 <= j < n_bs,
                    0 <= k <= n_depth,
                    n_jobs == jobs@.len(),
                    n_bs == bss@.len(),
                    n_depth == depths@.len(),
                    n_jobs * n_bs * n_depth <= usize::MAX,
                    (i as int + 1) * n_bs * n_depth <= usize::MAX,
                    plan@.len() == (i as int) * n_bs * n_depth + (j as int) * n_depth + (k as int),
                    plan_prefix_ok(plan@, jobs@, bss@, depths@),
                decreases n_depth - k,
            {
                proof {
                    lemma_slot_bound(i as int, j as int, k as int, n_jobs, n_bs, n_depth);
                }
                let entry = Invocation {
                    job: jobs[i].clone(),
                    bs: bss[j].clone(),
                    iodepth: depths[k],
                };
                let ghost prev = plan@;
                plan.push(entry);
                proof {
                    assert forall|a: int, b: int, c: int|
                        0 <= a < n_jobs && 0 <= b < n_bs && 0 <= c < n_depth && matrix_index(
                            a,
                            b,
                            c,
                            n_bs,
                            n_depth,
                        ) < plan@.len() implies {
                        let entry2 = plan@[matrix_index(a, b, c, n_bs, n_depth)];
                        entry2.job@ == jobs@[a]@ && entry2.bs@ == bss@[b]@ && entry2.iodepth
                            == depths@[c]
                    } by {
                        if matrix_index(a, b, c, n_bs, n_depth) == prev.len() {
                            lemma_index_injective(
                                a,
                                b,
                                c,
                                i as int,
                                j as int,
                                k as int,
                                n_bs,
                                n_depth,
                            );
                        }
                    }
                }
                k = k + 1;
            }
            j = j + 1;
            proof {
                assert((i as int) * n_bs * n_depth + (j as int - 1) * n_depth + n_depth == (i as int)
                * n_bs * n_depth + (j as int) * n_depth) by (nonlinear_arith);
            }
        }
        i = i + 1;
        proof {
            assert((i as int - 1) * n_bs * n_depth + n_bs * n_depth == (i as int) * n_bs
                * n_depth) by (nonlinear_arith);
        }
    }
    proof {
        assert forall|a: int, b: int, c: int|
            0 <= a < n_jobs && 0 <= b < n_bs && 0 <= c < n_depth implies matrix_index(
            a,
            b,
            c,
            n_bs,
            n_depth,
        ) < plan@.len() by {
            lemma_slot_in_total(a, b, c, n_jobs, n_bs, n_depth);
        }
    }
    plan
}

proof fn lemma_block_bound(i: int, n_jobs: int, n_bs: int, n_depth: int) by (nonlinear_arith)
    requires
        0 <= i < n_jobs,
        0 <= n_bs,
        0 <= n_depth,
        n_jobs * n_bs * n_depth <= usize::MAX,
    ensures
        (i + 1) * n_bs * n_depth <= usize::MAX,
        i * n_bs * n_depth >= 0,
{
}

proof fn lemma_slot_bound(i: int, j: int, k: int, n_jobs: int, n_bs: int, n_depth: int) by (nonlinear_arith)
    requires
        0 <= i < n_jobs,
        0 <= j < n_bs,
        0 <= k < n_depth,
        (i + 1) * n_bs * n_depth <= usize::MAX,
    ensures
        i * n_bs * n_depth + j * n_depth + k + 1 <= (i + 1) * n_bs * n_depth,
        i * n_bs * n_depth + j * n_depth + k >= 0,
        matrix_index(i, j, k, n_bs, n_depth) == i * n_bs * n_depth + j * n_depth + k,
{
}

proof fn lemma_slot_in_total(i: int, j: int, k: int, n_jobs: int, n_bs: int, n_depth: int) by (nonlinear_arith)
    requires
        0 <= i < n_jobs,
        0 <= j < n_bs,
        0 <= k < n_depth,
    ensures
        0 <= matrix_index(i, j, k, n_bs, n_depth) < n_jobs * n_bs * n_depth,
{
}

proof fn lemma_index_injective(
    a: int,
    b: int,
    c: int,
    i: int,
    j: int,
    k: int,
    n_bs: int,
    n_depth: int,
) by (nonlinear_arith)
    requires
        0 <= a,
        0 <= b < n_bs,
        0 <= c < n_depth,
        0 <= i,
        0 <= j < n_bs,
        0 <= k < n_depth,
        matrix_index(a, b, c, n_bs, n_depth) == matrix_index(i, j, k, n_bs, n_depth),
    ensures
        a == i && b == j && c == k,
{
}

} // verus!
