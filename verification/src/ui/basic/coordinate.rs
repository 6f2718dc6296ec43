//! Sizes, margins, spacings and layouts of UI elements, in whole pixels.
use vstd::prelude::*;

verus! {

/// A margin on two opposite sides, or on all four.
#[derive(Clone, Copy)]
pub enum Margin {
    /// Margin on either side of top and bottom
    Vertical(i32),
    /// Margin on either side of left and right
    Horizontal(i32),
    /// Margin on all sides: `h` left and right, `v` top and bottom
    Perpendicular { h: i32, v: i32 },
}

/// A value with an x and a y component.
pub trait Coordinate: Sized {
    fn x(&self) -> i32;

    fn y(&self) -> i32;

    fn values(&self) -> (&i32, &i32);

    fn new(a: i32, b: i32) -> Self;
}

/// Spacing in pixels between laid out child items.
#[derive(Debug, Clone, Copy)]
pub struct Spacing(pub i16);

#[derive(Debug, Clone, Copy, PartialEq, Eq, Structural)]
pub struct Size {
    pub width: i32,
    pub height: i32,
}

impl Coordinate for Size {
    fn x(&self) -> (r: i32)
        ensures
            r == self.width,
    {
        self.width
    }

    fn y(&self) -> (r: i32)
        ensures
            r == self.height,
    {
        self.height
    }

    fn values(&self) -> (r: (&i32, &i32))
        ensures
            *r.0 == self.width,
            *r.1 == self.height,
    {
        (&self.width, &self.height)
    }

    fn new(a: i32, b: i32) -> (r: Size)
        ensures
            r.width == a,
            r.height == b,
    {
        Size { width: a, height: b }
    }
}

/// Layout of panels inside a panel, with the spacing between the laid out items.
#[derive(Clone, Copy)]
pub enum Layout {
    Vertical(Spacing),
    Horizontal(Spacing),
}

/// What a margin takes off a width and a height: the margin of each side.
pub open spec fn margin_cut(margin: Margin) -> (int, int) {
    match margin {
        Margin::Vertical(m) => (0, 2 * m),
        Margin::Horizontal(m) => (2 * m, 0),
        Margin::Perpendicular { h, v } => (2 * h, 2 * v),
    }
}

/// Whether taking the margin off both sides of `size` stays within `i32`.
pub open spec fn shrink_fits(size: Size, margin: Margin) -> bool {
    &&& i32::MIN <= margin_cut(margin).0 <= i32::MAX
    &&& i32::MIN <= margin_cut(margin).1 <= i32::MAX
    &&& i32::MIN <= size.width - margin_cut(margin).0 <= i32::MAX
    &&& i32::MIN <= size.height - margin_cut(margin).1 <= i32::MAX
}

/// The size left inside a margin.
pub open spec fn shrunk_size(size: Size, margin: Margin) -> Size {
    Size {
        width: (size.width - margin_cut(margin).0) as i32,
        height: (size.height - margin_cut(margin).1) as i32,
    }
}

/// The free length that `count` items share along an axis of `length` pixels,
/// with `margin` at both ends and `space` between neighbours.
pub open spec fn shared_length(length: int, margin: int, space: int, count: int) -> int {
    length - 2 * margin - space * (count - 1)
}

/// Whether the arithmetic of `Size::divide` stays within `i32`.
pub open spec fn divide_fits(size: Size, divisor: u32, margin: i32, layout: Layout) -> bool {
    let space = match layout {
        Layout::Vertical(s) => s.0 as int,
        Layout::Horizontal(s) => s.0 as int,
    };
    &&& divisor <= i32::MAX
    &&& i32::MIN <= 2 * margin <= i32::MAX
    &&& i32::MIN <= space * (divisor - 1) <= i32::MAX
    &&& i32::MIN <= size.width - 2 * margin <= i32::MAX
    &&& i32::MIN <= size.height - 2 * margin <= i32::MAX
    &&& i32::MIN <= shared_length(size.width as int, margin as int, space, divisor as int) <= i32::MAX
    &&& i32::MIN <= shared_length(size.height as int, margin as int, space, divisor as int)
        <= i32::MAX
}

/// The sum of the widths (`horizontal`) or of the heights of a run of sizes.
pub open spec fn sum_along(sizes: Seq<Size>, horizontal: bool) -> int
    decreases sizes.len(),
{
    if sizes.len() == 0 {
        0
    } else {
        sum_along(sizes.drop_last(), horizontal) + if horizontal {
            sizes.last().width as int
        } else {
            sizes.last().height as int
        }
    }
}

proof fn lemma_sum_along_constant(sizes: Seq<Size>, horizontal: bool, value: int, n: int)
    requires
        0 <= n <= sizes.len(),
        forall|i: int|
            0 <= i < n ==> (if horizontal {
                sizes[i].width as int
            } else {
                sizes[i].height as int
            }) == value,
    ensures
        sum_along(sizes.subrange(0, n), horizontal) == n * value,
    decreases n,
{
    if n > 0 {
        lemma_sum_along_constant(sizes, horizontal, value, n - 1);
        let s = sizes.subrange(0, n);
        assert(s.drop_last() =~= sizes.subrange(0, n - 1));
        assert(s.last() == sizes[n - 1]);
        assert((if horizontal {
            sizes[n - 1].width as int
        } else {
            sizes[n - 1].height as int
        }) == value);
        assert(sum_along(s, horizontal) == sum_along(s.drop_last(), horizontal) + value);
        assert(n * value == (n - 1) * value + value) by (nonlinear_arith);
    } else {
        assert(sizes.subrange(0, n).len() == 0);
    }
}

impl Size {
    /// Splits this size into `divisor` sizes laid out side by side (or on top
    /// of each other), with `margin` around them and the layout's spacing
    /// between them. The last one takes what the integer division leaves over.
    pub fn divide(&self, divisor: u32, margin: i32, layout: Layout) -> (r: Vec<Size>)
        requires
            divisor != 0,
            divide_fits(*self, divisor, margin, layout),
            match layout {
                Layout::Horizontal(s) => shared_length(
                    self.width as int,
                    margin as int,
                    s.0 as int,
                    divisor as int,
                ) > 0,
                Layout::Vertical(s) => shared_length(
                    self.height as int,
                    margin as int,
                    s.0 as int,
                    divisor as int,
                ) > 0,
            },
        ensures
            r@.len() == divisor,
            match layout {
                Layout::Horizontal(s) => {
                    let total = shared_length(self.width as int, margin as int, s.0 as int, divisor as int);
                    &&& forall|i: int| 0 <= i < r@.len() ==> #[trigger] r@[i].height == self.height - 2 * margin
                    &&& forall|i: int| 0 <= i < r@.len() - 1 ==> #[trigger] r@[i].width == total / divisor as int
                    &&& r@[r@.len() - 1].width == total / divisor as int + total % divisor as int
                    &&& sum_along(r@, true) == total
                },
                Layout::Vertical(s) => {
                    let total = shared_length(self.height as int, margin as int, s.0 as int, divisor as int);
                    &&& forall|i: int| 0 <= i < r@.len() ==> #[trigger] r@[i].width == self.width - 2 * margin
                    &&& forall|i: int| 0 <= i < r@.len() - 1 ==> #[trigger] r@[i].height == total / divisor as int
                    &&& r@[r@.len() - 1].height == total / divisor as int + total % divisor as int
                    &&& sum_along(r@, false) == total
                },
            },
    {
        let d: i32 = divisor as i32;
        let horizontal = match layout {
            Layout::Horizontal(_) => true,
            Layout::Vertical(_) => false,
        };
        let space: i32 = match layout {
            Layout::Horizontal(Spacing(s)) => s as i32,
            Layout::Vertical(Spacing(s)) => s as i32,
        };
        let length = if horizontal {
            self.width
        } else {
            self.height
        };
        let total: i32 = length - (margin * 2) - space * (d - 1);
        let element: i32 = total / d;
        proof {
            assert(0 <= d * element <= total) by (nonlinear_arith)
                requires
                    total > 0,
                    d > 0,
                    element == (total as int) / (d as int),
            ;
        }
        let diff: i32 = total - (d * element);
        proof {
            assert(diff == (total as int) % (d as int)) by (nonlinear_arith)
                requires
                    total > 0,
                    d > 0,
                    element == (total as int) / (d as int),
                    diff == total - d * element,
            ;
            assert(0 <= diff < d) by (nonlinear_arith)
                requires
                    diff == (total as int) % (d as int),
                    d > 0,
            ;
            assert(0 <= element <= total && element + diff <= total) by (nonlinear_arith)
                requires
                    total > 0,
                    d > 0,
                    element == (total as int) / (d as int),
                    diff == total - d * element,
                    0 <= diff < d,
            ;
        }
        let mut result: Vec<Size> = Vec::new();
        let mut i: i32 = 0;
        while i < d - 1
            invariant
                0 <= i <= d - 1,
                d == divisor,
                d > 0,
                result@.len() == i,
                forall|k: int|
                    0 <= k < i ==> #[trigger] result@[k] == (if horizontal {
                        Size { width: element, height: (self.height - 2 * margin) as i32 }
                    } else {
                        Size { width: (self.width - 2 * margin) as i32, height: element }
                    }),
                i32::MIN <= self.height - 2 * margin <= i32::MAX,
                i32::MIN <= self.width - 2 * margin <= i32::MAX,
                i32::MIN <= 2 * margin <= i32::MAX,
            decreases d - 1 - i,
        {
            if horizontal {
                result.push(Size { width: element, height: self.height - margin * 2 });
            } else {
                result.push(Size { width: self.width - margin * 2, height: element });
            }
            i = i + 1;
        }
        if horizontal {
            result.push(Size { width: element + diff, height: self.height - margin * 2 });
        } else {
            result.push(Size { width: self.width - margin * 2, height: element + diff });
        }
        proof {
            lemma_sum_along_constant(result@, horizontal, element as int, d - 1);
            assert(result@.drop_last() =~= result@.subrange(0, d - 1));
            assert((d - 1) * element + element + diff == total) by (nonlinear_arith)
                requires
                    diff == total - d * element,
            ;
        }
        result
    }

    /// The size left inside a margin of `margin` pixels on every side.
    pub fn shrink_by_margin(size: Size, margin: i32) -> (r: Size)
        requires
            shrink_fits(size, Margin::Perpendicular { h: margin, v: margin }),
        ensures
            r == shrunk_size(size, Margin::Perpendicular { h: margin, v: margin }),
    {
        let width = size.width - (margin * 2);
        let height = size.height - (margin * 2);
        Size { width, height }
    }

    /// The size left inside a margin.
    pub fn shrink_axis_aligned(size: Size, margin: Margin) -> (r: Size)
        requires
            shrink_fits(size, margin),
        ensures
            r == shrunk_size(size, margin),
    {
        match margin {
            Margin::Vertical(m) => Size { width: size.width, height: size.height - m * 2 },
            Margin::Horizontal(m) => Size { width: size.width - m * 2, height: size.height },
            Margin::Perpendicular { h, v } => Size {
                width: size.width - h * 2,
                height: size.height - v * 2,
            },
        }
    }
}

} // verus!
