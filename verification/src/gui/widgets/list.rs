//! A list of messages drawn at the bottom of its area: which messages, and
//! which of their wrapped lines, fit.
use vstd::prelude::*;

verus! {

/// The first message drawn: only the last `area_height` messages can show.
pub open spec fn first_shown(count: usize, area_height: u16) -> usize {
    if count > area_height {
        (count - area_height) as usize
    } else {
        0
    }
}

/// The first message that can show among `count` messages in an area
/// `area_height` lines high.
pub fn first_shown_message(count: usize, area_height: u16) -> (r: usize)
    ensures
        r == first_shown(count, area_height),
{
    count.saturating_sub(area_height as usize)
}

/// The number of lines of a list of messages, each wrapped to its number
/// of lines.
pub open spec fn sum_heights(h: Seq<usize>) -> int
    decreases h.len(),
{
    if h.len() == 0 {
        0
    } else {
        h[0] + sum_heights(h.drop_first())
    }
}

/// How the messages are cut to the block's height: when the lines are at
/// least the block's height, the first message is dropped if the others
/// are more than the height, and otherwise its first lines are dropped so
/// that the lines fill the block exactly. Gives the number of messages
/// dropped and the number of lines dropped from the first message kept.
pub open spec fn trim_lines(h: Seq<usize>, block_height: usize) -> (nat, int)
    decreases h.len(),
{
    if h.len() == 0 {
        (0, 0)
    } else if sum_heights(h) >= block_height {
        if sum_heights(h) - h[0] > block_height {
            let (k, d) = trim_lines(h.drop_first(), block_height);
            (k + 1, d)
        } else {
            (0, sum_heights(h) - block_height)
        }
    } else {
        (0, 0)
    }
}

proof fn lemma_sum_skip(h: Seq<usize>, i: int)
    requires
        0 <= i < h.len(),
    ensures
        sum_heights(h.skip(i)) == h[i] + sum_heights(h.skip(i + 1)),
{
    assert(h.skip(i).drop_first() =~= h.skip(i + 1));
}

proof fn lemma_trim_skip(h: Seq<usize>, i: int, block_height: usize)
    requires
        0 <= i < h.len(),
        sum_heights(h.skip(i)) >= block_height,
        sum_heights(h.skip(i)) - h[i] > block_height,
    ensures
        trim_lines(h.skip(i), block_height).0 == trim_lines(h.skip(i + 1), block_height).0 + 1,
        trim_lines(h.skip(i), block_height).1 == trim_lines(h.skip(i + 1), block_height).1,
{
    assert(h.skip(i).drop_first() =~= h.skip(i + 1));
    assert(h.skip(i)[0] == h[i]);
}

proof fn lemma_sum_nonneg(h: Seq<usize>)
    ensures
        sum_heights(h) >= 0,
    decreases h.len(),
{
    if h.len() > 0 {
        lemma_sum_nonneg(h.drop_first());
    }
}

/// Cuts the wrapped messages, of `heights` lines each, to a block
/// `block_height` lines high (see `trim_lines`). The lines kept fit the
/// block, and fill it when there were enough.
pub fn fit_to_height(heights: &Vec<usize>, block_height: usize) -> (r: (usize, usize))
    requires
        sum_heights(heights@) <= usize::MAX,
    ensures
        r.0 == trim_lines(heights@, block_height).0,
        r.1 == trim_lines(heights@, block_height).1,
        r.0 <= heights@.len(),
        r.0 < heights@.len() ==> r.1 <= heights@[r.0 as int],
        r.0 == heights@.len() ==> r.1 == 0,
        sum_heights(heights@.skip(r.0 as int)) - r.1 <= block_height,
        sum_heights(heights@) >= block_height ==> sum_heights(heights@.skip(r.0 as int)) - r.1
            == block_height,
{
    let ghost h = heights@;
    let n = heights.len();
    let mut total: usize = 0;
    let mut i: usize = n;
    assert(h.skip(n as int) =~= Seq::<usize>::empty());
    while i > 0
        invariant
            i <= n,
            n == h.len(),
            h == heights@,
            sum_heights(h) <= usize::MAX,
            total == sum_heights(h.skip(i as int)),
        decreases i,
    {
        proof {
            lemma_sum_skip(h, i - 1);
            lemma_sum_nonneg(h.take(i - 1));
            lemma_sum_prefix(h, i - 1);
        }
        total = total + heights[i - 1];
        i = i - 1;
    }
    assert(h.skip(0) =~= h);
    let mut k: usize = 0;
    while k < n
        invariant
            k <= n,
            n == h.len(),
            h == heights@,
            total == sum_heights(h.skip(k as int)),
            trim_lines(h, block_height).0 == trim_lines(h.skip(k as int), block_height).0 + k,
            trim_lines(h, block_height).1 == trim_lines(h.skip(k as int), block_height).1,
            k > 0 ==> total > block_height,
        decreases n - k,
    {
        proof {
            lemma_sum_skip(h, k as int);
            lemma_sum_nonneg(h.skip(k + 1));
            assert(h.skip(k as int)[0] == h[k as int]);
        }
        if total >= block_height {
            if total - heights[k] > block_height {
                proof {
                    lemma_trim_skip(h, k as int, block_height);
                }
                total = total - heights[k];
                k = k + 1;
            } else {
                return (k, total - block_height);
            }
        } else {
            return (k, 0);
        }
    }
    assert(h.skip(n as int) =~= Seq::<usize>::empty());
    (k, 0)
}

proof fn lemma_sum_prefix(h: Seq<usize>, i: int)
    requires
        0 <= i <= h.len(),
    ensures
        sum_heights(h) == sum_heights(h.take(i)) + sum_heights(h.skip(i)),
    decreases i,
{
    if i > 0 {
        lemma_sum_prefix(h.drop_first(), i - 1);
        assert(h.drop_first().take(i - 1) =~= h.take(i).drop_first());
        assert(h.drop_first().skip(i - 1) =~= h.skip(i));
        assert(h.take(i)[0] == h[0]);
    } else {
        assert(h.skip(0) =~= h);
        assert(h.take(0) =~= Seq::<usize>::empty());
    }
}

} // verus!
