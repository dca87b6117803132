//! Batch sampling: counting how many sampled points lie inside the set.
//!
//! Drawing a point and testing it is the caller's business. The sampler asks
//! a membership oracle once per point and counts the hits.

use vstd::prelude::*;

verus! {

/// Number of hits in a sequence of oracle answers.
pub open spec fn count_hits(answers: Seq<bool>) -> nat
    decreases answers.len(),
{
    if answers.len() == 0 {
        0
    } else {
        count_hits(answers.drop_last()) + if answers.last() {
            1nat
        } else {
            0nat
        }
    }
}

/// The hits never outnumber the answers; they equal them when every answer
/// is a hit, and are zero when none is.
pub proof fn lemma_count_hits_bounds(answers: Seq<bool>)
    ensures
        count_hits(answers) <= answers.len(),
        (forall|i: int| 0 <= i < answers.len() ==> answers[i]) ==> count_hits(answers)
            == answers.len(),
        (forall|i: int| 0 <= i < answers.len() ==> !answers[i]) ==> count_hits(answers) == 0,
    decreases answers.len(),
{
    if answers.len() > 0 {
        lemma_count_hits_bounds(answers.drop_last());
    }
}

/// Adds one oracle answer to a running count of hits.
pub fn tally(hits: u64, inside: bool) -> (next: u64)
    requires
        hits < u64::MAX,
    ensures
        next == hits + (if inside {
            1nat
        } else {
            0nat
        }),
{
    if inside {
        hits + 1
    } else {
        hits
    }
}

/// Samples one batch: asks `is_inside` for `iterations` points, each tested
/// with at most `mandelbrot_iters` steps of the recurrence, and returns how
/// many it found inside the set.
///
/// `is_inside` draws one random point of the bounding disk and says whether
/// it belongs to the set. The result is the number of hits among the
/// `iterations` answers it gave, so it never exceeds `iterations`.
pub fn calc_points<F: Fn(u64) -> bool>(
    iterations: u64,
    mandelbrot_iters: u64,
    is_inside: F,
) -> (ret: u64)
    requires
        call_requires(is_inside, (mandelbrot_iters,)),
    ensures
        ret <= iterations,
        exists|answers: Seq<bool>|
            {
                &&& answers.len() == iterations
                &&& forall|i: int|
                    0 <= i < answers.len() ==> call_ensures(
                        is_inside,
                        (mandelbrot_iters,),
                        #[trigger] answers[i],
                    )
                &&& ret == count_hits(answers)
            },
        (forall|r: bool| call_ensures(is_inside, (mandelbrot_iters,), r) ==> r) ==> ret
            == iterations,
        (forall|r: bool| call_ensures(is_inside, (mandelbrot_iters,), r) ==> !r) ==> ret == 0,
{
    let mut i: u64 = 0;
    let mut ret: u64 = 0;
    let ghost mut answers: Seq<bool> = Seq::empty();
    while i < iterations
        invariant
            i <= iterations,
            ret <= i,
            call_requires(is_inside, (mandelbrot_iters,)),
            answers.len() == i,
            forall|k: int|
                0 <= k < answers.len() ==> call_ensures(
                    is_inside,
                    (mandelbrot_iters,),
                    #[trigger] answers[k],
                ),
            ret == count_hits(answers),
        decreases iterations - i,
    {
        let inside = is_inside(mandelbrot_iters);
        proof {
            let longer = answers.push(inside);
            assert(longer.drop_last() =~= answers);
            assert(longer.last() == inside);
            answers = longer;
        }
        ret = tally(ret, inside);
        i = i + 1;
    }
    proof {
        lemma_count_hits_bounds(answers);
    }
    ret
}

} // verus!
