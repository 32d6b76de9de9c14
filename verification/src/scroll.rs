//! The height model of a virtualized message list: one height estimate per
//! item, their running total, and the window of items that a viewport needs.
//!
//! Heights and offsets are whole layout units.

use vstd::prelude::*;

verus! {

/// Items kept beyond the visible part of the list, on either side.
pub const VISIBLE_BUFFER: usize = 2;

/// Sum of the first `upto` heights of `h`.
pub open spec fn heights_sum(h: Seq<u32>, upto: int) -> int
    decreases upto,
{
    if upto <= 0 {
        0
    } else {
        heights_sum(h, upto - 1) + h[upto - 1]
    }
}

/// Where item `i` of `h` begins: the sum of the heights before it.
pub open spec fn item_top(h: Seq<u32>, i: int) -> int {
    heights_sum(h, i)
}

/// Where item `i` of `h` ends: the sum of the heights up to and including it.
pub open spec fn item_bottom(h: Seq<u32>, i: int) -> int {
    heights_sum(h, i + 1)
}

/// Sum of all heights of `h`.
pub open spec fn heights_total(h: Seq<u32>) -> int {
    heights_sum(h, h.len() as int)
}

/// `h`, grown with `default` entries to at least `len` entries.
pub open spec fn padded(h: Seq<u32>, default: u32, len: int) -> Seq<u32> {
    if len <= h.len() {
        h
    } else {
        h + Seq::new((len - h.len()) as nat, |i: int| default)
    }
}

/// `h` after item `index` was measured as `height`: grown with `default`
/// entries so that it holds item `index`, which then gets `height`.
pub open spec fn with_measured(h: Seq<u32>, default: u32, index: int, height: u32) -> Seq<u32> {
    padded(h, default, index + 1).update(index, height)
}

/// The first item at or after `from` whose top lies beyond `offset`, or
/// `h.len()`.
pub open spec fn first_top_beyond(h: Seq<u32>, offset: int, from: int) -> int
    decreases h.len() - from,
{
    if 0 <= from < h.len() && item_top(h, from) <= offset {
        first_top_beyond(h, offset, from + 1)
    } else {
        from
    }
}

/// The first item at or after `from` whose bottom lies beyond `limit`, or
/// `h.len()`.
pub open spec fn first_bottom_beyond(h: Seq<u32>, limit: int, from: int) -> int
    decreases h.len() - from,
{
    if 0 <= from < h.len() && item_bottom(h, from) <= limit {
        first_bottom_beyond(h, limit, from + 1)
    } else {
        from
    }
}

/// The window `(start, end)` of items to draw for a viewport of height
/// `viewport` scrolled to `offset`.
///
/// Past the end of the content the window is empty, at the item count.
/// Otherwise `start` is the first item whose top lies beyond `offset`, moved
/// back by the buffer and not below zero, and `end` is the first item from
/// there on whose bottom lies beyond `offset + viewport`, moved on by the
/// buffer and not beyond the item count.
pub open spec fn visible_window(h: Seq<u32>, offset: int, viewport: int) -> (int, int) {
    if offset > heights_total(h) {
        (h.len() as int, h.len() as int)
    } else {
        let first = first_top_beyond(h, offset, 0);
        let last = first_bottom_beyond(h, offset + viewport, first);
        (
            if first >= VISIBLE_BUFFER {
                first - VISIBLE_BUFFER
            } else {
                0
            },
            if last + VISIBLE_BUFFER <= h.len() {
                last + VISIBLE_BUFFER
            } else {
                h.len() as int
            },
        )
    }
}

/// Whether item `i` of `h` overlaps the viewport.
pub open spec fn overlaps_viewport(h: Seq<u32>, offset: int, viewport: int, i: int) -> bool {
    &&& 0 <= i < h.len()
    &&& item_top(h, i) < offset + viewport
    &&& item_bottom(h, i) > offset
}

/// Sums grow with the number of heights summed.
pub proof fn lemma_heights_sum_monotonic(h: Seq<u32>, i: int, j: int)
    requires
        0 <= i <= j,
    ensures
        0 <= heights_sum(h, i) <= heights_sum(h, j),
    decreases j,
{
    if j > 0 {
        if i < j {
            lemma_heights_sum_monotonic(h, i, j - 1);
        } else {
            lemma_heights_sum_monotonic(h, i - 1, j - 1);
        }
    }
}

/// A sum of `upto` heights is at most `upto` times the largest height.
pub proof fn lemma_heights_sum_bound(h: Seq<u32>, upto: int)
    requires
        0 <= upto,
    ensures
        heights_sum(h, upto) <= upto * 0xffff_ffff,
    decreases upto,
{
    if upto > 0 {
        lemma_heights_sum_bound(h, upto - 1);
    }
}

/// A sum of as many heights as a list can hold leaves room for one more.
pub proof fn lemma_heights_sum_fits(h: Seq<u32>, upto: int)
    requires
        0 <= upto <= usize::MAX,
    ensures
        0 <= heights_sum(h, upto),
        heights_sum(h, upto) + 0xffff_ffff <= u128::MAX,
{
    lemma_heights_sum_bound(h, upto);
    lemma_heights_sum_monotonic(h, 0, upto);
    assert(upto * 0xffff_ffff <= 0xffff_ffff_ffff_ffff * 0xffff_ffff) by (nonlinear_arith)
        requires
            0 <= upto <= 0xffff_ffff_ffff_ffff,
    ;
}

/// A sum depends on the heights summed only.
pub proof fn lemma_heights_sum_prefix(a: Seq<u32>, b: Seq<u32>, upto: int)
    requires
        0 <= upto <= a.len(),
        upto <= b.len(),
        forall|i: int| 0 <= i < upto ==> a[i] == b[i],
    ensures
        heights_sum(a, upto) == heights_sum(b, upto),
    decreases upto,
{
    if upto > 0 {
        lemma_heights_sum_prefix(a, b, upto - 1);
    }
}

/// Replacing one height changes the sums that include it by the difference.
pub proof fn lemma_heights_sum_update(h: Seq<u32>, index: int, height: u32, upto: int)
    requires
        0 <= index < h.len(),
        0 <= upto <= h.len(),
    ensures
        heights_sum(h.update(index, height), upto) == if index < upto {
            heights_sum(h, upto) - h[index] + height
        } else {
            heights_sum(h, upto)
        },
    decreases upto,
{
    if upto > 0 {
        lemma_heights_sum_update(h, index, height, upto - 1);
    }
}

/// `first_top_beyond` is the least item at or after `from` whose top lies
/// beyond `offset`, or the item count.
pub proof fn lemma_first_top_beyond(h: Seq<u32>, offset: int, from: int)
    requires
        0 <= from <= h.len(),
    ensures
        from <= first_top_beyond(h, offset, from) <= h.len(),
        first_top_beyond(h, offset, from) < h.len() ==> item_top(
            h,
            first_top_beyond(h, offset, from),
        ) > offset,
        forall|i: int|
            from <= i < first_top_beyond(h, offset, from) ==> #[trigger] item_top(h, i) <= offset,
    decreases h.len() - from,
{
    if from < h.len() && item_top(h, from) <= offset {
        lemma_first_top_beyond(h, offset, from + 1);
    }
}

/// `first_bottom_beyond` is the least item at or after `from` whose bottom
/// lies beyond `limit`, or the item count.
pub proof fn lemma_first_bottom_beyond(h: Seq<u32>, limit: int, from: int)
    requires
        0 <= from <= h.len(),
    ensures
        from <= first_bottom_beyond(h, limit, from) <= h.len(),
        first_bottom_beyond(h, limit, from) < h.len() ==> item_bottom(
            h,
            first_bottom_beyond(h, limit, from),
        ) > limit,
        forall|i: int|
            from <= i < first_bottom_beyond(h, limit, from) ==> #[trigger] item_bottom(h, i)
                <= limit,
    decreases h.len() - from,
{
    if from < h.len() && item_bottom(h, from) <= limit {
        lemma_first_bottom_beyond(h, limit, from + 1);
    }
}

/// The window is a range of items: `0 <= start <= end <= item count`.
pub proof fn lemma_visible_window_bounds(h: Seq<u32>, offset: int, viewport: int)
    ensures
        0 <= visible_window(h, offset, viewport).0 <= visible_window(h, offset, viewport).1
            <= h.len(),
{
    let first = first_top_beyond(h, offset, 0);
    lemma_first_top_beyond(h, offset, 0);
    lemma_first_bottom_beyond(h, offset + viewport, first);
}

/// The window holds every item that overlaps the viewport.
pub proof fn lemma_visible_window_covers(h: Seq<u32>, offset: int, viewport: int, i: int)
    requires
        overlaps_viewport(h, offset, viewport, i),
    ensures
        visible_window(h, offset, viewport).0 <= i < visible_window(h, offset, viewport).1,
{
    lemma_heights_sum_monotonic(h, i + 1, h.len() as int);
    let first = first_top_beyond(h, offset, 0);
    lemma_first_top_beyond(h, offset, 0);
    let last = first_bottom_beyond(h, offset + viewport, first);
    lemma_first_bottom_beyond(h, offset + viewport, first);
    if first > i + 1 {
        assert(item_top(h, i + 1) <= offset);
    }
    if last < i {
        lemma_heights_sum_monotonic(h, last + 1, i);
    }
}

/// With no items the window is empty.
pub proof fn lemma_visible_window_empty(offset: int, viewport: int)
    ensures
        visible_window(Seq::<u32>::empty(), offset, viewport) == (0int, 0int),
{
}

/// Past the end of the content the window is empty, at the item count.
pub proof fn lemma_visible_window_past_end(h: Seq<u32>, offset: int, viewport: int)
    requires
        offset > heights_total(h),
    ensures
        visible_window(h, offset, viewport) == (h.len() as int, h.len() as int),
{
}

/// The height estimates and their total, kept together.
#[derive(Debug)]
struct HeightTable {
    heights: Vec<u32>,
    total: u128,
}

impl HeightTable {
    spec fn consistent(self) -> bool {
        self.total == heights_total(self.heights@)
    }

    fn empty() -> (r: Self)
        ensures
            r.consistent(),
            r.heights@ == Seq::<u32>::empty(),
    {
        HeightTable { heights: Vec::new(), total: 0 }
    }

    /// Grows the table with `default` entries to at least `len` entries.
    fn pad(&mut self, default: u32, len: usize)
        requires
            old(self).consistent(),
        ensures
            final(self).consistent(),
            final(self).heights@ == padded(old(self).heights@, default, len as int),
    {
        while self.heights.len() < len
            invariant
                self.consistent(),
                old(self).heights@.len() <= self.heights@.len(),
                self.heights@.len() <= len || self.heights@ == old(self).heights@,
                self.heights@ == padded(
                    old(self).heights@,
                    default,
                    self.heights@.len() as int,
                ),
            decreases len - self.heights.len(),
        {
            let ghost before = self.heights@;
            proof {
                lemma_heights_sum_fits(before, before.len() as int);
            }
            self.heights.push(default);
            self.total = self.total + default as u128;
            proof {
                lemma_heights_sum_prefix(before, self.heights@, before.len() as int);
                assert(self.heights@ =~= padded(
                    old(self).heights@,
                    default,
                    self.heights@.len() as int,
                ));
            }
        }
    }

    /// Installs `height` for item `index`.
    fn install(&mut self, index: usize, height: u32)
        requires
            old(self).consistent(),
            index < old(self).heights@.len(),
        ensures
            final(self).consistent(),
            final(self).heights@ == old(self).heights@.update(index as int, height),
    {
        let previous: u32 = self.heights[index];
        let count: usize = self.heights.len();
        proof {
            let h = self.heights@;
            lemma_heights_sum_update(h, index as int, height, count as int);
            lemma_heights_sum_fits(h.update(index as int, height), count as int);
            lemma_heights_sum_monotonic(h, index as int + 1, count as int);
            lemma_heights_sum_monotonic(h, 0, index as int);
        }
        self.heights.set(index, height);
        self.total = self.total - previous as u128 + height as u128;
    }

    /// Where item `index` begins, or where the content ends if there is no
    /// such item.
    fn top(&self, index: usize) -> (top: u128)
        requires
            self.consistent(),
        ensures
            top == if index <= self.heights@.len() {
                item_top(self.heights@, index as int)
            } else {
                heights_total(self.heights@)
            },
    {
        let count: usize = self.heights.len();
        if index >= count {
            return self.total;
        }
        let mut top: u128 = 0;
        let mut i: usize = 0;
        while i < index
            invariant
                i <= index < count,
                count == self.heights@.len(),
                top == heights_sum(self.heights@, i as int),
            decreases index - i,
        {
            proof {
                lemma_heights_sum_fits(self.heights@, i as int);
            }
            top = top + self.heights[i] as u128;
            i += 1;
        }
        top
    }

    /// The window of items for a viewport of height `viewport` at `offset`.
    fn window(&self, offset: u64, viewport: u64) -> (r: (usize, usize))
        requires
            self.consistent(),
        ensures
            (r.0 as int, r.1 as int) == visible_window(
                self.heights@,
                offset as int,
                viewport as int,
            ),
            r.0 <= r.1 <= self.heights@.len(),
    {
        let count: usize = self.heights.len();
        let ghost h = self.heights@;
        proof {
            lemma_visible_window_bounds(h, offset as int, viewport as int);
        }
        if offset as u128 > self.total {
            return (count, count);
        }
        let mut top: u128 = 0;
        let mut first: usize = 0;
        while first < count && top <= offset as u128
            invariant
                first <= count,
                count == h.len(),
                h == self.heights@,
                top == heights_sum(h, first as int),
                first_top_beyond(h, offset as int, 0) == first_top_beyond(
                    h,
                    offset as int,
                    first as int,
                ),
            decreases count - first,
        {
            proof {
                lemma_heights_sum_fits(h, first as int);
            }
            top = top + self.heights[first] as u128;
            first += 1;
        }
        let limit: u128 = offset as u128 + viewport as u128;
        let mut last: usize = first;
        proof {
            lemma_heights_sum_fits(h, last as int);
        }
        while last < count && top + self.heights[last] as u128 <= limit
            invariant
                first <= last <= count,
                count == h.len(),
                h == self.heights@,
                top == heights_sum(h, last as int),
                top + 0xffff_ffff <= u128::MAX,
                first_bottom_beyond(h, limit as int, first as int) == first_bottom_beyond(
                    h,
                    limit as int,
                    last as int,
                ),
            decreases count - last,
        {
            top = top + self.heights[last] as u128;
            last += 1;
            proof {
                lemma_heights_sum_fits(h, last as int);
            }
        }
        let start: usize = if first >= VISIBLE_BUFFER {
            first - VISIBLE_BUFFER
        } else {
            0
        };
        let end: usize = if count >= VISIBLE_BUFFER && last <= count - VISIBLE_BUFFER {
            last + VISIBLE_BUFFER
        } else {
            count
        };
        (start, end)
    }
}

/// The scroll model as plain values.
pub struct ScrollView {
    /// The height estimate of each item, by position.
    pub heights: Seq<u32>,
    /// The estimate that an item has before it is measured.
    pub estimated_default_height: u32,
    /// The height of the viewport.
    pub viewport_height: u64,
    /// How far the content is scrolled.
    pub scroll_offset: u64,
    /// Whether the view follows the end of the list.
    pub stick_to_bottom: bool,
}

/// Height estimates for the items of a list, with their total kept equal to
/// their sum, and what a viewport was last given.
#[derive(Debug)]
pub struct ScrollState {
    table: HeightTable,
    estimated_default_height: u32,
    viewport_height: u64,
    scroll_offset: u64,
    stick_to_bottom: bool,
}

impl View for ScrollState {
    type V = ScrollView;

    closed spec fn view(&self) -> ScrollView {
        ScrollView {
            heights: self.table.heights@,
            estimated_default_height: self.estimated_default_height,
            viewport_height: self.viewport_height,
            scroll_offset: self.scroll_offset,
            stick_to_bottom: self.stick_to_bottom,
        }
    }
}

impl ScrollState {
    #[verifier::type_invariant]
    spec fn total_is_sum(self) -> bool {
        self.table.consistent()
    }

    /// A model without items that follows the end of the list.
    pub fn new(estimated_default_height: u32) -> (r: Self)
        ensures
            r@ == (ScrollView {
                heights: Seq::<u32>::empty(),
                estimated_default_height,
                viewport_height: 0,
                scroll_offset: 0,
                stick_to_bottom: true,
            }),
    {
        ScrollState {
            table: HeightTable::empty(),
            estimated_default_height,
            viewport_height: 0,
            scroll_offset: 0,
            stick_to_bottom: true,
        }
    }

    /// Installs the measured `height` of item `index`. Items up to `index`
    /// that had no estimate yet get the default estimate first.
    pub fn record_measured_height(&mut self, index: usize, height: u32)
        requires
            index < usize::MAX,
        ensures
            final(self)@ == (ScrollView {
                heights: with_measured(
                    old(self)@.heights,
                    old(self)@.estimated_default_height,
                    index as int,
                    height,
                ),
                ..old(self)@
            }),
    {
        proof {
            use_type_invariant(&*self);
        }
        let mut table = HeightTable::empty();
        core::mem::swap(&mut self.table, &mut table);
        table.pad(self.estimated_default_height, index + 1);
        table.install(index, height);
        self.table = table;
    }

    /// Gives every item below `count` an estimate: the default one where it
    /// had none.
    pub fn ensure_item_count(&mut self, count: usize)
        ensures
            final(self)@ == (ScrollView {
                heights: padded(
                    old(self)@.heights,
                    old(self)@.estimated_default_height,
                    count as int,
                ),
                ..old(self)@
            }),
    {
        proof {
            use_type_invariant(&*self);
        }
        let mut table = HeightTable::empty();
        core::mem::swap(&mut self.table, &mut table);
        table.pad(self.estimated_default_height, count);
        self.table = table;
    }

    /// The height of the whole content: the sum of the estimates.
    pub fn total_height(&self) -> (total: u128)
        ensures
            total == heights_total(self@.heights),
    {
        proof {
            use_type_invariant(self);
        }
        self.table.total
    }

    /// Where item `index` begins: the sum of the estimates before it. For an
    /// index beyond the last item, where the content ends.
    pub fn top_of(&self, index: usize) -> (top: u128)
        ensures
            top == if index <= self@.heights.len() {
                item_top(self@.heights, index as int)
            } else {
                heights_total(self@.heights)
            },
    {
        proof {
            use_type_invariant(self);
        }
        self.table.top(index)
    }

    /// The window `(start, end)` of items to draw for a viewport of height
    /// `viewport_height` scrolled to `scroll_offset`.
    pub fn visible_range(&self, scroll_offset: u64, viewport_height: u64) -> (r: (usize, usize))
        ensures
            (r.0 as int, r.1 as int) == visible_window(
                self@.heights,
                scroll_offset as int,
                viewport_height as int,
            ),
            0 <= r.0 <= r.1 <= self@.heights.len(),
    {
        proof {
            use_type_invariant(self);
        }
        self.table.window(scroll_offset, viewport_height)
    }

    /// Sets whether the view follows the end of the list.
    pub fn set_stick_to_bottom(&mut self, stick_to_bottom: bool)
        ensures
            final(self)@ == (ScrollView { stick_to_bottom, ..old(self)@ }),
    {
        proof {
            use_type_invariant(&*self);
        }
        self.stick_to_bottom = stick_to_bottom;
    }

    /// Sets the height of the viewport.
    pub fn set_viewport_height(&mut self, viewport_height: u64)
        ensures
            final(self)@ == (ScrollView { viewport_height, ..old(self)@ }),
    {
        proof {
            use_type_invariant(&*self);
        }
        self.viewport_height = viewport_height;
    }

    /// Sets how far the content is scrolled.
    pub fn set_scroll_offset(&mut self, scroll_offset: u64)
        ensures
            final(self)@ == (ScrollView { scroll_offset, ..old(self)@ }),
    {
        proof {
            use_type_invariant(&*self);
        }
        self.scroll_offset = scroll_offset;
    }

    /// How many items have an estimate.
    pub fn item_count(&self) -> (count: usize)
        ensures
            count == self@.heights.len(),
    {
        self.table.heights.len()
    }

    /// The estimate of item `index`: its own where it has one, else the
    /// default estimate.
    pub fn height_of(&self, index: usize) -> (height: u32)
        ensures
            height == if index < self@.heights.len() {
                self@.heights[index as int]
            } else {
                self@.estimated_default_height
            },
    {
        if index < self.table.heights.len() {
            self.table.heights[index]
        } else {
            self.estimated_default_height
        }
    }

    /// The estimate that an item has before it is measured.
    pub fn estimated_default_height(&self) -> (height: u32)
        ensures
            height == self@.estimated_default_height,
    {
        self.estimated_default_height
    }

    /// The height of the viewport as last set.
    pub fn viewport_height(&self) -> (height: u64)
        ensures
            height == self@.viewport_height,
    {
        self.viewport_height
    }

    /// How far the content is scrolled, as last set.
    pub fn scroll_offset(&self) -> (offset: u64)
        ensures
            offset == self@.scroll_offset,
    {
        self.scroll_offset
    }

    /// Whether the view follows the end of the list.
    pub fn stick_to_bottom(&self) -> (stick: bool)
        ensures
            stick == self@.stick_to_bottom,
    {
        self.stick_to_bottom
    }

    /// The window of items for the viewport and offset last set.
    pub fn current_visible_range(&self) -> (r: (usize, usize))
        ensures
            (r.0 as int, r.1 as int) == visible_window(
                self@.heights,
                self@.scroll_offset as int,
                self@.viewport_height as int,
            ),
            0 <= r.0 <= r.1 <= self@.heights.len(),
    {
        self.visible_range(self.scroll_offset, self.viewport_height)
    }
}

} // verus!
