use vstd::prelude::*;

use crate::interval::Interval;
use crate::scales::Degree;

verus! {

/// The total of a sequence of step sizes.
pub open spec fn seq_sum(s: Seq<usize>) -> int
    decreases s.len(),
{
    if s.len() == 0 {
        0
    } else {
        seq_sum(s.drop_last()) + s.last()
    }
}

/// `s` rotated left by `k` places: the steps of a pattern as heard from its
/// `k`-th step on, wrapping round to the start.
pub open spec fn rotate_left(s: Seq<usize>, k: int) -> Seq<usize> {
    s.subrange(k, s.len() as int) + s.subrange(0, k)
}

/// The sum of the first `n` steps of `s` rotated left by `k` (of all of
/// them, when there are fewer than `n`).
pub open spec fn rotated_offset(s: Seq<usize>, k: int, n: int) -> int {
    let r = rotate_left(s, k);
    if n <= r.len() {
        seq_sum(r.take(n))
    } else {
        seq_sum(r)
    }
}

/// The interval that degree `d` lies at above the root of the mode that
/// starts `rotation` steps into the step pattern `steps`.
pub open spec fn mode_interval(steps: Seq<usize>, rotation: int, d: Degree) -> Option<Interval> {
    d.resolve(rotated_offset(steps, rotation, d.number() - 1))
}

/// The interval at degree `degree` of the mode that starts `offset` steps
/// into the step pattern `intervals`: the pattern is rotated left by
/// `offset`, the steps before the degree are summed, and the sum is named
/// by the degree's candidates.
pub fn interval_for(intervals: &[usize], offset: usize, degree: Degree) -> (r: Option<Interval>)
    requires
        offset <= intervals@.len(),
        seq_sum(intervals@) <= usize::MAX,
    ensures
        r == mode_interval(intervals@, offset as int, degree),
{
    let len = intervals.len();
    let n = degree.as_number() - 1;
    let count = if n < len {
        n
    } else {
        len
    };
    let ghost rotated = rotate_left(intervals@, offset as int);
    proof {
        lemma_rotation_keeps_sum(intervals@, offset as int);
    }
    let mut sum: usize = 0;
    let mut j: usize = 0;
    while j < count
        invariant
            j <= count,
            count <= len,
            len == intervals@.len(),
            offset <= len,
            rotated == rotate_left(intervals@, offset as int),
            seq_sum(rotated) == seq_sum(intervals@),
            seq_sum(intervals@) <= usize::MAX,
            sum == seq_sum(rotated.take(j as int)),
        decreases count - j,
    {
        let idx = if j < len - offset {
            offset + j
        } else {
            j - (len - offset)
        };
        proof {
            assert(rotated[j as int] == intervals@[idx as int]);
            assert(rotated.take(j + 1).drop_last() =~= rotated.take(j as int));
            lemma_prefix_sum_bounded(rotated, j + 1);
        }
        sum = sum + intervals[idx];
        j = j + 1;
    }
    proof {
        if n > len {
            assert(rotated.take(len as int) =~= rotated);
        }
    }
    degree.interval(sum)
}

/// Whatever the step pattern and the rotation, the first degree of a mode
/// is its root, a perfect unison above itself.
pub proof fn lemma_first_degree_is_unison(steps: Seq<usize>, rotation: int)
    requires
        0 <= rotation <= steps.len(),
    ensures
        mode_interval(steps, rotation, Degree::First) == Some(Interval::PerfectUnison),
{
    assert(rotate_left(steps, rotation).take(0) =~= Seq::<usize>::empty());
}

/// Each further degree adds the next step of the rotated pattern, which
/// wraps round to the start of the pattern after its last step.
pub proof fn lemma_rotated_offset_step(s: Seq<usize>, k: int, n: int)
    requires
        0 <= k <= s.len(),
        0 <= n < s.len(),
    ensures
        rotated_offset(s, k, 0) == 0,
        rotated_offset(s, k, n + 1) == rotated_offset(s, k, n) + if k + n < s.len() {
            s[k + n]
        } else {
            s[k + n - s.len()]
        },
{
    let r = rotate_left(s, k);
    assert(r.take(0) =~= Seq::<usize>::empty());
    assert(r.take(n + 1).drop_last() =~= r.take(n));
}

/// Octave closure: the offset of the last degree of any rotation, plus the
/// step that wraps round to the root, is the whole pattern's span.
pub proof fn lemma_octave_closure(s: Seq<usize>, k: int)
    requires
        0 <= k < s.len(),
    ensures
        rotated_offset(s, k, s.len() - 1) + s[(k + s.len() - 1) % (s.len() as int)] == seq_sum(s),
{
    let len = s.len() as int;
    let r = rotate_left(s, k);
    lemma_rotated_offset_step(s, k, len - 1);
    lemma_rotation_keeps_sum(s, k);
    assert(r.take(len) =~= r);
    if k == 0 {
        assert((k + len - 1) % len == k + len - 1) by (nonlinear_arith)
            requires
                0 <= k + len - 1 < len,
        ;
    } else {
        assert((k + len - 1) % len == k + len - 1 - len) by (nonlinear_arith)
            requires
                len <= k + len - 1 < 2 * len,
        ;
    }
}

proof fn lemma_seq_sum_nonnegative(s: Seq<usize>)
    ensures
        seq_sum(s) >= 0,
    decreases s.len(),
{
    if s.len() > 0 {
        lemma_seq_sum_nonnegative(s.drop_last());
    }
}

proof fn lemma_seq_sum_concat(a: Seq<usize>, b: Seq<usize>)
    ensures
        seq_sum(a + b) == seq_sum(a) + seq_sum(b),
    decreases b.len(),
{
    if b.len() == 0 {
        assert(a + b =~= a);
    } else {
        assert((a + b).drop_last() =~= a + b.drop_last());
        lemma_seq_sum_concat(a, b.drop_last());
    }
}

proof fn lemma_rotation_keeps_sum(s: Seq<usize>, k: int)
    requires
        0 <= k <= s.len(),
    ensures
        seq_sum(rotate_left(s, k)) == seq_sum(s),
{
    let front = s.subrange(0, k);
    let back = s.subrange(k, s.len() as int);
    assert(s =~= front + back);
    lemma_seq_sum_concat(front, back);
    lemma_seq_sum_concat(back, front);
}

proof fn lemma_prefix_sum_bounded(s: Seq<usize>, n: int)
    requires
        0 <= n <= s.len(),
    ensures
        seq_sum(s.take(n)) <= seq_sum(s),
{
    assert(s =~= s.take(n) + s.skip(n));
    lemma_seq_sum_concat(s.take(n), s.skip(n));
    lemma_seq_sum_nonnegative(s.skip(n));
}

} // verus!
