//! Laying out the key hints at the bottom of the screen: hints of given
//! display widths, separated by a divider, broken into lines that fit.
use vstd::prelude::*;

verus! {

/// A piece of a line of hints.
#[derive(Clone, Copy, Debug, PartialEq, Eq, Structural)]
pub enum HintPiece {
    /// The hint at this position of the list.
    Hint(usize),
    /// The divider between two hints.
    Divider,
}

impl DeepView for HintPiece {
    type V = HintPiece;

    open spec fn deep_view(&self) -> HintPiece {
        *self
    }
}

/// The layout so far: the finished lines, the line being filled, its
/// width, and the number of lines counted.
pub struct WrapState {
    pub lines: Seq<Seq<HintPiece>>,
    pub line: Seq<HintPiece>,
    pub width: int,
    pub count: int,
}

/// A line loses a divider at its end.
pub open spec fn without_trailing_divider(line: Seq<HintPiece>) -> Seq<HintPiece> {
    if line.len() > 0 && line.last() == HintPiece::Divider {
        line.drop_last()
    } else {
        line
    }
}

/// The room for hints: the screen width less a margin of 4 (at least 0).
pub open spec fn hint_room(width: u16) -> int {
    if width < 4 {
        0
    } else {
        width - 4
    }
}

/// Places hint `i` of width `w`: when it does not fit on the line, the line
/// is finished (and counted) first; a divider follows the hint when another
/// hint follows and the divider fits.
pub open spec fn place_hint(s: WrapState, i: int, w: int, n: int, divider: int, room: int) -> WrapState {
    let s1 = if s.width + w > room {
        WrapState {
            lines: s.lines.push(without_trailing_divider(s.line)),
            line: Seq::empty(),
            width: 0,
            count: s.count + 1,
        }
    } else {
        s
    };
    let s2 = WrapState { line: s1.line.push(HintPiece::Hint(i as usize)), width: s1.width + w, ..s1 };
    if i < n - 1 && s2.width + divider <= room {
        WrapState { line: s2.line.push(HintPiece::Divider), width: s2.width + divider, ..s2 }
    } else {
        s2
    }
}

/// The layout after the first `k` hints.
pub open spec fn wrap_prefix(widths: Seq<u16>, k: int, divider: u16, width: u16) -> WrapState
    decreases k,
{
    if k <= 0 {
        WrapState { lines: Seq::empty(), line: Seq::empty(), width: 0, count: 1 }
    } else {
        place_hint(
            wrap_prefix(widths, k - 1, divider, width),
            k - 1,
            widths[k - 1] as int,
            widths.len() as int,
            divider as int,
            hint_room(width),
        )
    }
}

/// Whether the first `k` hints are laid out without a width or the count
/// of lines leaving 16 bits.
pub open spec fn wrap_fits(widths: Seq<u16>, k: int, divider: u16, width: u16) -> bool
    decreases k,
{
    if k <= 0 {
        true
    } else {
        let s = wrap_prefix(widths, k - 1, divider, width);
        let w = widths[k - 1] as int;
        &&& wrap_fits(widths, k - 1, divider, width)
        &&& s.width + w <= u16::MAX
        &&& s.count + 1 <= u16::MAX
        &&& w + divider <= u16::MAX
        &&& s.width + w + divider <= u16::MAX
    }
}

/// The lines of all hints and their number: the last line is added when it
/// is not empty.
pub open spec fn spec_wrap_hints(widths: Seq<u16>, divider: u16, width: u16) -> (
    Seq<Seq<HintPiece>>,
    int,
) {
    let s = wrap_prefix(widths, widths.len() as int, divider, width);
    if s.line.len() > 0 {
        (s.lines.push(without_trailing_divider(s.line)), s.count)
    } else {
        (s.lines, s.count)
    }
}

proof fn lemma_fits_prefix(widths: Seq<u16>, k: int, j: int, divider: u16, width: u16)
    requires
        0 <= j <= k,
        wrap_fits(widths, k, divider, width),
    ensures
        wrap_fits(widths, j, divider, width),
    decreases k - j,
{
    if j < k {
        lemma_fits_prefix(widths, k - 1, j, divider, width);
    }
}

fn drop_trailing_divider(line: &mut Vec<HintPiece>)
    ensures
        final(line)@ == without_trailing_divider(old(line)@),
{
    let n = line.len();
    if n > 0 && line[n - 1] == HintPiece::Divider {
        line.pop();
    }
}

/// Breaks hints of the given display widths into lines of at most the
/// screen width less 4, a divider of `divider` columns between two hints of
/// a line; a hint wider than the room takes a line of its own. Returns the
/// lines and how many lines the layout counts.
pub fn wrap_hints(widths: &Vec<u16>, divider: u16, width: u16) -> (r: (Vec<Vec<HintPiece>>, u16))
    requires
        wrap_fits(widths@, widths@.len() as int, divider, width),
    ensures
        r.0.deep_view() == spec_wrap_hints(widths@, divider, width).0,
        r.1 as int == spec_wrap_hints(widths@, divider, width).1,
{
    let room: u16 = if width < 4 {
        0
    } else {
        width - 4
    };
    let n = widths.len();
    let mut lines: Vec<Vec<HintPiece>> = Vec::new();
    let mut line: Vec<HintPiece> = Vec::new();
    let mut current: u16 = 0;
    let mut count: u16 = 1;
    let mut i: usize = 0;
    while i < n
        invariant
            n == widths@.len(),
            i <= n,
            room as int == hint_room(width),
            wrap_fits(widths@, n as int, divider, width),
            ({
                let s = wrap_prefix(widths@, i as int, divider, width);
                &&& lines.deep_view() == s.lines
                &&& line@ == s.line
                &&& current as int == s.width
                &&& count as int == s.count
            }),
        decreases n - i,
    {
        proof {
            lemma_fits_prefix(widths@, n as int, i + 1, divider, width);
        }
        let w = widths[i];
        if current + w > room {
            drop_trailing_divider(&mut line);
            let finished = line;
            let ghost fv = finished@;
            assert(finished.deep_view() =~= fv);
            let ghost before = lines.deep_view();
            lines.push(finished);
            assert(lines.deep_view() =~= before.push(fv));
            line = Vec::new();
            current = 0;
            count = count + 1;
        }
        line.push(HintPiece::Hint(i));
        current = current + w;
        if i < n - 1 && current + divider <= room {
            line.push(HintPiece::Divider);
            current = current + divider;
        }
        i = i + 1;
    }
    if line.len() > 0 {
        drop_trailing_divider(&mut line);
        let ghost fv = line@;
        assert(line.deep_view() =~= fv);
        let ghost before = lines.deep_view();
        lines.push(line);
        assert(lines.deep_view() =~= before.push(fv));
    }
    (lines, count)
}

/// Whether `wrap_hints` can lay out these hints: no width and no count of
/// lines leaves 16 bits on the way.
pub fn hints_fit(widths: &Vec<u16>, divider: u16, width: u16) -> (r: bool)
    ensures
        r == wrap_fits(widths@, widths@.len() as int, divider, width),
{
    let room: u16 = if width < 4 {
        0
    } else {
        width - 4
    };
    let n = widths.len();
    let mut current: u16 = 0;
    let mut count: u16 = 1;
    let mut i: usize = 0;
    while i < n
        invariant
            n == widths@.len(),
            i <= n,
            room as int == hint_room(width),
            wrap_fits(widths@, i as int, divider, width),
            ({
                let s = wrap_prefix(widths@, i as int, divider, width);
                &&& current as int == s.width
                &&& count as int == s.count
            }),
        decreases n - i,
    {
        let w = widths[i];
        let ghost s = wrap_prefix(widths@, i as int, divider, width);
        if current as u32 + w as u32 > u16::MAX as u32 || count as u32 + 1 > u16::MAX as u32
            || w as u32 + divider as u32 > u16::MAX as u32 || current as u32 + w as u32
            + divider as u32 > u16::MAX as u32 {
            proof {
                lemma_unfits_after(widths@, i as int + 1, n as int, divider, width);
            }
            return false;
        }
        if current + w > room {
            current = 0;
            count = count + 1;
        }
        current = current + w;
        if i < n - 1 && current + divider <= room {
            current = current + divider;
        }
        i = i + 1;
    }
    true
}

proof fn lemma_unfits_after(widths: Seq<u16>, k: int, n: int, divider: u16, width: u16)
    requires
        1 <= k <= n,
        !wrap_fits(widths, k, divider, width),
    ensures
        !wrap_fits(widths, n, divider, width),
    decreases n - k,
{
    if k < n {
        lemma_unfits_after(widths, k + 1, n, divider, width);
    }
}

/// The hints of a sequence of pieces, in order.
pub open spec fn hint_indices(s: Seq<HintPiece>) -> Seq<usize>
    decreases s.len(),
{
    if s.len() == 0 {
        Seq::empty()
    } else {
        match s.last() {
            HintPiece::Hint(i) => hint_indices(s.drop_last()).push(i),
            HintPiece::Divider => hint_indices(s.drop_last()),
        }
    }
}

proof fn lemma_hint_indices_concat(a: Seq<HintPiece>, b: Seq<HintPiece>)
    ensures
        hint_indices(a + b) == hint_indices(a) + hint_indices(b),
    decreases b.len(),
{
    if b.len() == 0 {
        assert(a + b =~= a);
        assert(hint_indices(a) + hint_indices(b) =~= hint_indices(a));
    } else {
        lemma_hint_indices_concat(a, b.drop_last());
        assert((a + b).drop_last() =~= a + b.drop_last());
        assert((a + b).last() == b.last());
        match b.last() {
            HintPiece::Hint(i) => {
                assert(hint_indices(a) + hint_indices(b.drop_last()).push(i) =~= (hint_indices(a)
                    + hint_indices(b.drop_last())).push(i));
            },
            HintPiece::Divider => {},
        }
    }
}

proof fn lemma_drop_divider_keeps_hints(line: Seq<HintPiece>)
    ensures
        hint_indices(without_trailing_divider(line)) == hint_indices(line),
{
}

proof fn lemma_wrap_prefix_hints(widths: Seq<u16>, k: int, divider: u16, width: u16)
    requires
        0 <= k <= widths.len(),
    ensures
        hint_indices(wrap_prefix(widths, k, divider, width).lines.flatten() + wrap_prefix(
            widths,
            k,
            divider,
            width,
        ).line) == Seq::new(k as nat, |i: int| i as usize),
    decreases k,
{
    broadcast use Seq::lemma_flatten_push;

    if k == 0 {
        let s = wrap_prefix(widths, 0, divider, width);
        assert(s.lines.flatten() + s.line =~= Seq::<HintPiece>::empty());
        assert(Seq::new(0nat, |i: int| i as usize) =~= Seq::<usize>::empty());
    } else {
        lemma_wrap_prefix_hints(widths, k - 1, divider, width);
        let s = wrap_prefix(widths, k - 1, divider, width);
        let w = widths[k - 1] as int;
        let room = hint_room(width);
        let s1 = if s.width + w > room {
            WrapState {
                lines: s.lines.push(without_trailing_divider(s.line)),
                line: Seq::empty(),
                width: 0,
                count: s.count + 1,
            }
        } else {
            s
        };
        assert(hint_indices(s1.lines.flatten() + s1.line) == hint_indices(
            s.lines.flatten() + s.line,
        )) by {
            if s.width + w > room {
                lemma_hint_indices_concat(s1.lines.flatten(), s1.line);
                lemma_hint_indices_concat(s.lines.flatten(), s.line);
                lemma_hint_indices_concat(s.lines.flatten(), without_trailing_divider(s.line));
                lemma_drop_divider_keeps_hints(s.line);
                assert(s1.lines.flatten() =~= s.lines.flatten() + without_trailing_divider(s.line));
                assert(hint_indices(s1.line) =~= Seq::<usize>::empty());
                assert(hint_indices(s1.lines.flatten()) + hint_indices(s1.line) =~= hint_indices(
                    s1.lines.flatten(),
                ));
            }
        }
        let line2 = s1.line.push(HintPiece::Hint((k - 1) as usize));
        let n = wrap_prefix(widths, k, divider, width);
        lemma_hint_indices_concat(s1.lines.flatten(), s1.line);
        lemma_hint_indices_concat(s1.lines.flatten(), line2);
        assert(hint_indices(line2) == hint_indices(s1.line).push((k - 1) as usize)) by {
            assert(line2.drop_last() =~= s1.line);
        }
        assert(n.lines == s1.lines);
        if n.line == line2.push(HintPiece::Divider) {
            lemma_hint_indices_concat(s1.lines.flatten(), line2.push(HintPiece::Divider));
            assert(line2.push(HintPiece::Divider).drop_last() =~= line2);
        }
        assert(Seq::new(k as nat, |i: int| i as usize) =~= Seq::new(
            (k - 1) as nat,
            |i: int| i as usize,
        ).push((k - 1) as usize));
        assert(hint_indices(n.lines.flatten() + n.line) =~= Seq::new(
            k as nat,
            |i: int| i as usize,
        ));
    }
}

/// Every hint is laid out once, and in order: the hints of the lines, one
/// line after the other, are the hints `0, 1, ...` given.
pub proof fn lemma_wrap_keeps_hints(widths: Seq<u16>, divider: u16, width: u16)
    ensures
        hint_indices(spec_wrap_hints(widths, divider, width).0.flatten()) == Seq::new(
            widths.len(),
            |i: int| i as usize,
        ),
{
    broadcast use Seq::lemma_flatten_push;

    let s = wrap_prefix(widths, widths.len() as int, divider, width);
    lemma_wrap_prefix_hints(widths, widths.len() as int, divider, width);
    lemma_hint_indices_concat(s.lines.flatten(), s.line);
    if s.line.len() > 0 {
        lemma_hint_indices_concat(s.lines.flatten(), without_trailing_divider(s.line));
        lemma_drop_divider_keeps_hints(s.line);
    } else {
        assert(s.lines.flatten() + s.line =~= s.lines.flatten());
    }
}

} // verus!
