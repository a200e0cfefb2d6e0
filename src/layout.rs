use vstd::prelude::*;
use vstd::string::StrSliceExecFns;
use vstd::string::StringExecFns;
use crate::config::Element;
use crate::decimal::{decimal, push_decimal};

verus! {

/// The latest content of one segment: its text and the width it takes.
pub struct Slot {
    pub text: String,
    pub width: u32,
}

/// The index of the first split marker at or after `i`, or the number of
/// elements when there is none.
pub open spec fn split_from(elems: Seq<Element>, i: int) -> int
    decreases elems.len() - i,
{
    if i >= elems.len() {
        elems.len() as int
    } else if elems[i].is_split() {
        i
    } else {
        split_from(elems, i + 1)
    }
}

/// The index of the first split marker, or the number of elements.
pub open spec fn split_of(elems: Seq<Element>) -> int {
    split_from(elems, 0)
}

/// The texts of the slots in `[lo, hi)`, one after the other.
pub open spec fn texts(slots: Seq<Slot>, lo: int, hi: int) -> Seq<char>
    decreases hi - lo,
{
    if hi <= lo {
        Seq::empty()
    } else {
        texts(slots, lo, hi - 1) + slots[hi - 1].text@
    }
}

/// The summed widths of the slots in `[lo, hi)`.
pub open spec fn widths(slots: Seq<Slot>, lo: int, hi: int) -> int
    decreases hi - lo,
{
    if hi <= lo {
        0
    } else {
        widths(slots, lo, hi - 1) + slots[hi - 1].width
    }
}

/// The start of the right-aligned group: past the split marker, or the end.
pub open spec fn right_start(elems: Seq<Element>) -> int {
    let k = split_of(elems);
    if k < elems.len() { k + 1 } else { k }
}

/// Text of the left-aligned group.
pub open spec fn left_text(elems: Seq<Element>, slots: Seq<Slot>) -> Seq<char> {
    texts(slots, 0, split_of(elems))
}

/// Text of the right-aligned group.
pub open spec fn right_text(elems: Seq<Element>, slots: Seq<Slot>) -> Seq<char> {
    texts(slots, right_start(elems), elems.len() as int)
}

/// Width of the left-aligned group.
pub open spec fn left_width(elems: Seq<Element>, slots: Seq<Slot>) -> int {
    widths(slots, 0, split_of(elems))
}

/// Width of the right-aligned group.
pub open spec fn right_width(elems: Seq<Element>, slots: Seq<Slot>) -> int {
    widths(slots, right_start(elems), elems.len() as int)
}

/// The pixel offset at which the right-aligned group begins; zero when that
/// group alone is wider than the bar.
pub open spec fn spacing(right: int, bar: int) -> int {
    if right <= bar { bar - right } else { 0 }
}

/// The left-aligned text as shown. When both groups do not fit, the left
/// text is cut to one character more than the pixels that are left for it
/// and an ellipsis is added; when the right group alone does not fit, the
/// left group is left out.
pub open spec fn shown_left(left: Seq<char>, lw: int, rw: int, bar: int) -> Seq<char> {
    if lw + rw <= bar {
        left
    } else if rw > bar {
        Seq::empty()
    } else {
        let keep = bar - rw + 1;
        let kept = if keep < left.len() { left.take(keep) } else { left };
        kept.push('…')
    }
}

/// The line handed to the renderer for the given segments, contents and bar
/// width.
pub open spec fn render(elems: Seq<Element>, slots: Seq<Slot>, bar: u32) -> Seq<char> {
    let lw = left_width(elems, slots);
    let rw = right_width(elems, slots);
    shown_left(left_text(elems, slots), lw, rw, bar as int) + "^pa("@
        + decimal(spacing(rw, bar as int) as nat) + ")"@ + right_text(elems, slots) + "\n"@
}

proof fn lemma_widths_bound(slots: Seq<Slot>, lo: int, hi: int)
    requires
        lo <= hi,
    ensures
        0 <= widths(slots, lo, hi) <= (hi - lo) * 0xFFFF_FFFF,
    decreases hi - lo,
{
    if lo < hi {
        lemma_widths_bound(slots, lo, hi - 1);
    }
}

proof fn lemma_split_prefix(elems: Seq<Element>, i: int)
    requires
        0 <= i <= elems.len(),
        forall|j: int| 0 <= j < i ==> !elems[j].is_split(),
    ensures
        split_of(elems) == split_from(elems, i),
{
    lemma_split_prefix_step(elems, 0, i);
}

proof fn lemma_split_prefix_step(elems: Seq<Element>, lo: int, i: int)
    requires
        0 <= lo <= i <= elems.len(),
        forall|j: int| lo <= j < i ==> !elems[j].is_split(),
    ensures
        split_from(elems, lo) == split_from(elems, i),
    decreases i - lo,
{
    if lo < i {
        lemma_split_prefix_step(elems, lo + 1, i);
    }
}

proof fn lemma_same_contents(s1: Seq<Slot>, s2: Seq<Slot>, lo: int, hi: int)
    requires
        s1.len() == s2.len(),
        0 <= lo,
        hi <= s1.len(),
        forall|i: int| 0 <= i < s1.len() ==> s1[i].text@ == s2[i].text@ && s1[i].width == s2[i].width,
    ensures
        texts(s1, lo, hi) == texts(s2, lo, hi),
        widths(s1, lo, hi) == widths(s2, lo, hi),
    decreases hi - lo,
{
    if lo < hi {
        lemma_same_contents(s1, s2, lo, hi - 1);
    }
}

/// Without a split marker, every segment belongs to the left-aligned group
/// and the right-aligned group is empty.
pub proof fn law_no_split_all_left(elems: Seq<Element>, slots: Seq<Slot>)
    requires
        elems.len() == slots.len(),
        forall|i: int| 0 <= i < elems.len() ==> !elems[i].is_split(),
    ensures
        left_text(elems, slots) == texts(slots, 0, elems.len() as int),
        left_width(elems, slots) == widths(slots, 0, elems.len() as int),
        right_text(elems, slots) == Seq::<char>::empty(),
        right_width(elems, slots) == 0,
{
    lemma_split_prefix(elems, elems.len() as int);
}

/// With the first split marker at `k`, the segments before it form the
/// left-aligned group and all those after it the right-aligned group, however
/// many further markers follow.
pub proof fn law_first_split_divides(elems: Seq<Element>, slots: Seq<Slot>, k: int)
    requires
        elems.len() == slots.len(),
        0 <= k < elems.len(),
        elems[k].is_split(),
        forall|i: int| 0 <= i < k ==> !elems[i].is_split(),
    ensures
        left_text(elems, slots) == texts(slots, 0, k),
        left_width(elems, slots) == widths(slots, 0, k),
        right_text(elems, slots) == texts(slots, k + 1, elems.len() as int),
        right_width(elems, slots) == widths(slots, k + 1, elems.len() as int),
{
    lemma_split_prefix(elems, k);
}

/// The line depends on the segments, the bar width and the texts and widths
/// held, and on nothing else: laying out the same contents twice gives the
/// same line.
pub proof fn law_layout_repeatable(elems: Seq<Element>, s1: Seq<Slot>, s2: Seq<Slot>, bar: u32)
    requires
        elems.len() == s1.len(),
        s1.len() == s2.len(),
        forall|i: int| 0 <= i < s1.len() ==> s1[i].text@ == s2[i].text@ && s1[i].width == s2[i].width,
    ensures
        render(elems, s1, bar) == render(elems, s2, bar),
{
    let n = elems.len() as int;
    let k = split_of(elems);
    assert(0 <= k <= n) by {
        lemma_split_range(elems, 0);
    }
    lemma_same_contents(s1, s2, 0, k);
    lemma_same_contents(s1, s2, right_start(elems), n);
}

proof fn lemma_split_range(elems: Seq<Element>, i: int)
    requires
        0 <= i,
    ensures
        i <= split_from(elems, i) <= elems.len() || (i > elems.len() && split_from(elems, i) == elems.len()),
    decreases elems.len() - i,
{
    if i < elems.len() && !elems[i].is_split() {
        lemma_split_range(elems, i + 1);
    }
}

/// When both groups do not fit but the right one does, the left text keeps
/// one character more than the pixels left for it, an ellipsis follows, and
/// the right group starts where its width leaves off from the bar's end.
pub proof fn law_truncation(left: Seq<char>, lw: int, rw: int, bar: int)
    requires
        0 <= rw <= bar,
        lw + rw > bar,
    ensures
        shown_left(left, lw, rw, bar).len() == (if bar - rw + 1 < left.len() { bar - rw + 1 } else { left.len() as int }) + 1,
        shown_left(left, lw, rw, bar).last() == '…',
        forall|i: int| 0 <= i < shown_left(left, lw, rw, bar).len() - 1 ==> shown_left(left, lw, rw, bar)[i] == left[i],
        spacing(rw, bar) == bar - rw,
{
}

/// When both groups fit, the left text is shown whole and the right group
/// starts where its width leaves off from the bar's end.
pub proof fn law_no_truncation(left: Seq<char>, lw: int, rw: int, bar: int)
    requires
        0 <= lw,
        0 <= rw,
        lw + rw <= bar,
    ensures
        shown_left(left, lw, rw, bar) == left,
        spacing(rw, bar) == bar - rw,
{
}

/// Adds the texts and widths of the slots in `[lo, hi)` to `text` and `sum`.
fn collect(slots: &Vec<Slot>, lo: usize, hi: usize, text: &mut String) -> (sum: u128)
    requires
        lo <= hi <= slots.len(),
    ensures
        final(text)@ == old(text)@ + texts(slots@, lo as int, hi as int),
        sum == widths(slots@, lo as int, hi as int),
        sum < 0x1_0000_0000_0000_0000_0000_0000,
{
    let mut sum: u128 = 0;
    let mut i: usize = lo;
    while i < hi
        invariant
            lo <= i <= hi <= slots.len(),
            text@ == old(text)@ + texts(slots@, lo as int, i as int),
            sum == widths(slots@, lo as int, i as int),
        decreases hi - i,
    {
        proof {
            lemma_widths_bound(slots@, lo as int, i as int);
            assert((i - lo) * 0xFFFF_FFFF <= 0xFFFF_FFFF_FFFF_FFFF * 0xFFFF_FFFF) by (nonlinear_arith)
                requires
                    0 <= i - lo <= 0xFFFF_FFFF_FFFF_FFFF;
        }
        text.append(slots[i].text.as_str());
        sum = sum + slots[i].width as u128;
        i = i + 1;
        assert(texts(slots@, lo as int, i as int) == texts(slots@, lo as int, i - 1) + slots@[i - 1].text@);
    }
    proof {
        lemma_widths_bound(slots@, lo as int, hi as int);
        assert((hi - lo) * 0xFFFF_FFFF < 0x1_0000_0000_0000_0000_0000_0000) by (nonlinear_arith)
            requires
                0 <= hi - lo <= 0xFFFF_FFFF_FFFF_FFFF;
    }
    sum
}

/// Builds the renderer line from the segments, their latest contents and the
/// width of the bar.
pub fn layout(elems: &Vec<Element>, slots: &Vec<Slot>, bar: u32) -> (line: String)
    requires
        elems.len() == slots.len(),
    ensures
        line@ == render(elems@, slots@, bar),
{
    let n = elems.len();
    let mut k: usize = 0;
    while k < n && !matches!(elems[k], Element::Right)
        invariant
            0 <= k <= n == elems.len(),
            forall|j: int| 0 <= j < k ==> !elems@[j].is_split(),
        decreases n - k,
    {
        k = k + 1;
    }
    proof {
        lemma_split_prefix(elems@, k as int);
    }
    let start: usize = if k < n { k + 1 } else { k };
    let mut left = String::new();
    let lw = collect(slots, 0, k, &mut left);
    let mut right = String::new();
    let rw = collect(slots, start, n, &mut right);
    let w = bar as u128;
    let mut line = if lw + rw <= w {
        left
    } else if rw > w {
        String::new()
    } else {
        let len = left.as_str().unicode_len();
        let keep = w - rw + 1;
        let kept = if keep < len as u128 {
            left.as_str().substring_char(0, keep as usize)
        } else {
            left.as_str()
        };
        proof {
            if keep >= len as u128 {
                assert(left@.take(left@.len() as int) == left@);
            }
        }
        let mut s = String::from_str(kept);
        proof {
            reveal_strlit("…");
        }
        s.append("…");
        s
    };
    line.append("^pa(");
    let gap: u64 = if rw <= w { (w - rw) as u64 } else { 0 };
    push_decimal(&mut line, gap);
    line.append(")");
    line.append(right.as_str());
    line.append("\n");
    line
}

} // verus!
