use crate::geom::Coord;
use crate::geom::Rect;
use crate::geom::Size;
use crate::grid::Vec2D;
use crate::grid::lemma_row_major_in_bounds;
use crate::grid::row_major_index;
use vstd::arithmetic::div_mod::lemma_fundamental_div_mod_converse;
use vstd::arithmetic::div_mod::lemma_mod_bound;
use vstd::arithmetic::div_mod::lemma_multiply_divide_lt;
use vstd::prelude::*;

verus! {

/// All coordinates of `rect`, in row-major order: row by row from
/// `min.y` to `max.y`, and within a row column by column from `min.x`
/// to `max.x`.
pub open spec fn rect_trace(rect: Rect) -> Seq<Coord> {
    Seq::new(
        (rect.spec_width() * rect.spec_height()) as nat,
        |i: int|
            Coord {
                x: (rect.spec_min().x + i % rect.spec_width()) as usize,
                y: (rect.spec_min().y + i / rect.spec_width()) as usize,
            },
    )
}

/// Row-major position of a coordinate of `rect` within `rect_trace(rect)`.
pub open spec fn rect_trace_pos(rect: Rect, c: Coord) -> int {
    (c.y - rect.spec_min().y) * rect.spec_width() + (c.x - rect.spec_min().x)
}

/// The cursor coordinate one step further in the row-major walk of
/// `rect`: one column right, or the first column of the next row once a
/// row is finished.  Stepping off the last cell yields the exhausted
/// state, one row below `max`.
pub open spec fn spec_step(rect: Rect, c: Coord) -> Coord {
    if c.x < rect.spec_max().x {
        Coord { x: (c.x + 1) as usize, y: c.y }
    } else {
        Coord { x: rect.spec_min().x, y: (c.y + 1) as usize }
    }
}

/// A cursor is either at a coordinate of `rect` or in the single
/// exhausted state just below the rectangle.
pub open spec fn valid_cursor(rect: Rect, c: Coord) -> bool {
    rect.spec_contains(c) || (c.x == rect.spec_min().x && c.y == rect.spec_max().y + 1)
}

/// The coordinates a walk of `rect` still visits when its cursor is at
/// `c`: the row-major trace from `c` on, or nothing once exhausted.
pub open spec fn coords_from(rect: Rect, c: Coord) -> Seq<Coord> {
    if c.y > rect.spec_max().y {
        Seq::empty()
    } else {
        rect_trace(rect).skip(rect_trace_pos(rect, c))
    }
}

/// The trace entry at position `i` lies in the rectangle, and `i` is its
/// row-major position.
pub proof fn lemma_trace_index(rect: Rect, i: int)
    requires
        rect.ordered(),
        0 <= i < rect.spec_width() * rect.spec_height(),
    ensures
        rect.spec_contains(rect_trace(rect)[i]),
        rect_trace_pos(rect, rect_trace(rect)[i]) == i,
{
    let w = rect.spec_width();
    let h = rect.spec_height();
    lemma_mod_bound(i, w);
    lemma_multiply_divide_lt(i, w, h);
    vstd::arithmetic::div_mod::lemma_div_pos_is_pos(i, w);
    vstd::arithmetic::div_mod::lemma_fundamental_div_mod(i, w);
    assert(i / w * w + i % w == i) by (nonlinear_arith)
        requires
            w != 0,
            i == w * (i / w) + i % w,
    ;
}

/// A coordinate of the rectangle is found in the trace exactly at its
/// row-major position.
pub proof fn lemma_trace_pos(rect: Rect, c: Coord)
    requires
        rect.ordered(),
        rect.spec_contains(c),
    ensures
        0 <= rect_trace_pos(rect, c) < rect.spec_width() * rect.spec_height(),
        rect_trace(rect)[rect_trace_pos(rect, c)] == c,
{
    let w = rect.spec_width();
    let h = rect.spec_height();
    let dx = c.x - rect.spec_min().x;
    let dy = c.y - rect.spec_min().y;
    let pos = rect_trace_pos(rect, c);
    assert(0 <= pos < w * h) by (nonlinear_arith)
        requires
            pos == dy * w + dx,
            0 <= dx < w,
            0 <= dy < h,
    ;
    lemma_fundamental_div_mod_converse(pos, w, dy, dx);
    assert(rect_trace(rect)[pos] == c);
}

/// Stepping the cursor from a coordinate of the rectangle drops exactly
/// the first entry of the coordinates still to visit.
pub proof fn lemma_step_trace(rect: Rect, c: Coord)
    requires
        rect.ordered(),
        rect.spec_contains(c),
        rect.spec_max().y < usize::MAX,
    ensures
        coords_from(rect, c).len() > 0,
        coords_from(rect, c)[0] == c,
        coords_from(rect, spec_step(rect, c)) == coords_from(rect, c).skip(1),
        valid_cursor(rect, spec_step(rect, c)),
        rect.spec_contains(spec_step(rect, c)) <==> !(c == rect.spec_max()),
{
    let w = rect.spec_width();
    let h = rect.spec_height();
    lemma_trace_pos(rect, c);
    let nc = spec_step(rect, c);
    let pos = rect_trace_pos(rect, c);
    if c.x < rect.spec_max().x {
        lemma_trace_pos(rect, nc);
        assert(rect_trace_pos(rect, nc) == pos + 1);
        assert(coords_from(rect, nc) =~= coords_from(rect, c).skip(1));
    } else if c.y < rect.spec_max().y {
        assert(rect.spec_contains(nc));
        lemma_trace_pos(rect, nc);
        assert(rect_trace_pos(rect, nc) == pos + 1) by (nonlinear_arith)
            requires
                pos == (c.y - rect.spec_min().y) * w + (c.x - rect.spec_min().x),
                rect_trace_pos(rect, nc) == (c.y + 1 - rect.spec_min().y) * w,
                c.x - rect.spec_min().x == w - 1,
        ;
        assert(coords_from(rect, nc) =~= coords_from(rect, c).skip(1));
    } else {
        assert(c == rect.spec_max());
        assert(pos == w * h - 1) by (nonlinear_arith)
            requires
                pos == (h - 1) * w + (w - 1),
        ;
        assert(coords_from(rect, nc) =~= coords_from(rect, c).skip(1));
    }
}

/// How the flat position moves when the cursor steps: by one inside a
/// row, by the stride of the walk at the end of a row.
pub proof fn lemma_step_offset(gsize: Size, rect: Rect, c: Coord)
    requires
        rect.ordered(),
        gsize.spec_contains(rect.spec_max()),
        rect.spec_contains(c),
    ensures
        gsize.spec_contains(c),
        c.x < rect.spec_max().x ==> row_major_index(gsize, spec_step(rect, c))
            == row_major_index(gsize, c) + 1,
        c.x == rect.spec_max().x ==> row_major_index(gsize, spec_step(rect, c))
            == row_major_index(gsize, c) + (gsize.width - rect.spec_width() + 1),
{
    if c.x == rect.spec_max().x {
        let nc = spec_step(rect, c);
        assert(row_major_index(gsize, nc) == (c.y + 1) * gsize.width + rect.spec_min().x);
        assert((c.y + 1) * gsize.width == c.y * gsize.width + gsize.width) by (nonlinear_arith);
    }
}

/// Cursor of a rectangle walk: the coordinate the walk will yield next,
/// together with its flat position in the backing buffer.
#[derive(Clone, Copy, Debug, PartialEq, Eq, Structural)]
pub struct Cursor {
    /// The coordinate the next step yields.
    pub coord: Coord,
    /// Flat position of `coord`; meaningful only until exhaustion.
    pub off: usize,
}

/// Iterator over a rectangle within a Vec2D, borrowing it shared.
pub struct RectIter<'a, Elem> {
    /// The container being read.
    pub grid: &'a Vec2D<Elem>,
    /// The sub-rectangle being walked.
    pub rect: Rect,
    /// Where the walk stands.
    pub cur: Cursor,
    /// Flat positions to move at the end of a row: the columns outside
    /// the rectangle, plus one.
    pub stride: usize,
}

impl<'a, Elem> RectIter<'a, Elem> {
    /// A well-formed iterator: the rectangle fits in the container and
    /// the cursor, with its flat position, lies inside the rectangle or
    /// in the exhausted state.  Factories only hand out well-formed
    /// iterators, and `next` keeps them so.
    pub open spec fn wf(self) -> bool {
        &&& self.rect.ordered()
        &&& self.grid.spec_size().spec_contains(self.rect.spec_max())
        &&& valid_cursor(self.rect, self.cur.coord)
        &&& self.rect.spec_contains(self.cur.coord) ==> self.cur.off == row_major_index(
            self.grid.spec_size(),
            self.cur.coord,
        )
        &&& self.stride == self.grid.spec_size().width - self.rect.spec_width() + 1
    }

    /// Whether the walk is exhausted.
    pub open spec fn spec_done(self) -> bool {
        self.cur.coord.y > self.rect.spec_max().y
    }

    /// The coordinates this iterator still visits, in order.
    pub open spec fn remaining(self) -> Seq<Coord> {
        coords_from(self.rect, self.cur.coord)
    }

    /// The elements this iterator still visits, in order.
    pub open spec fn remaining_values(self) -> Seq<Elem> {
        self.remaining().map(
            |i: int, c: Coord| self.grid@[row_major_index(self.grid.spec_size(), c)],
        )
    }

    /// Produce the next (coordinate, element) pair, or `None` once the
    /// rectangle is exhausted.
    pub fn next(&mut self) -> (r: Option<(Coord, &'a Elem)>)
        requires
            old(self).wf(),
        ensures
            final(self).wf(),
            r is Some <==> !old(self).spec_done(),
            old(self).spec_done() ==> *final(self) == *old(self),
            match r {
                Some(item) => {
                    &&& final(self).grid == old(self).grid
                    &&& final(self).rect == old(self).rect
                    &&& old(self).remaining().len() > 0
                    &&& item.0 == old(self).remaining()[0]
                    &&& item.0 == old(self).cur.coord
                    &&& item.1 == &old(self).grid@[row_major_index(
                        old(self).grid.spec_size(),
                        item.0,
                    )]
                    &&& final(self).cur.coord == spec_step(old(self).rect, item.0)
                    &&& final(self).remaining() == old(self).remaining().skip(1)
                },
                None => true,
            },
    {
        proof {
            use_type_invariant(self.grid);
            use_type_invariant(&self.rect);
        }
        let maxc = self.rect.max_coord();
        if self.cur.coord.y > maxc.y {
            return None;
        }
        let c = self.cur.coord;
        proof {
            self.grid.lemma_len_bounded();
            lemma_step_trace(self.rect, c);
            lemma_step_offset(self.grid.spec_size(), self.rect, c);
            lemma_row_major_in_bounds(self.grid.spec_size(), c);
            if self.rect.spec_contains(spec_step(self.rect, c)) {
                lemma_row_major_in_bounds(self.grid.spec_size(), spec_step(self.rect, c));
            }
        }
        let e = self.grid.elem_at(self.cur.off);
        if c.x < maxc.x {
            self.cur = Cursor { coord: Coord { x: c.x + 1, y: c.y }, off: self.cur.off + 1 };
        } else if c.y < maxc.y {
            self.cur = Cursor {
                coord: Coord { x: self.rect.min_coord().x, y: c.y + 1 },
                off: self.cur.off + self.stride,
            };
        } else {
            self.cur = Cursor {
                coord: Coord { x: self.rect.min_coord().x, y: c.y + 1 },
                off: self.cur.off,
            };
        }
        Some((c, e))
    }
}

/// Mutable iterator over a rectangle within a Vec2D, borrowing it
/// exclusively: while the iterator lives, all access to the container
/// goes through it, so the walk needs no per-step bounds check.
pub struct RectIterMut<'a, Elem> {
    /// The container being walked, exclusively borrowed.
    pub grid: &'a mut Vec2D<Elem>,
    /// The sub-rectangle being walked.
    pub rect: Rect,
    /// Where the walk stands.
    pub cur: Cursor,
    /// Flat positions to move at the end of a row: the columns outside
    /// the rectangle, plus one.
    pub stride: usize,
}

impl<'a, Elem> RectIterMut<'a, Elem> {
    /// A well-formed iterator: the rectangle fits in the container as it
    /// currently stands, and the cursor, with its flat position, lies
    /// inside the rectangle or in the exhausted state.  Factories only
    /// hand out well-formed iterators, and `next` keeps them so.
    pub open spec fn wf(self) -> bool {
        &&& self.rect.ordered()
        &&& mut_ref_current(self.grid).spec_size().spec_contains(self.rect.spec_max())
        &&& valid_cursor(self.rect, self.cur.coord)
        &&& self.rect.spec_contains(self.cur.coord) ==> self.cur.off == row_major_index(
            mut_ref_current(self.grid).spec_size(),
            self.cur.coord,
        )
        &&& self.stride == mut_ref_current(self.grid).spec_size().width - self.rect.spec_width()
            + 1
    }

    /// Whether the walk is exhausted.
    pub open spec fn spec_done(self) -> bool {
        self.cur.coord.y > self.rect.spec_max().y
    }

    /// The coordinates this iterator still visits, in order.
    pub open spec fn remaining(self) -> Seq<Coord> {
        coords_from(self.rect, self.cur.coord)
    }

    /// Produce the next (coordinate, element) pair, or `None` once the
    /// rectangle is exhausted.  Writing through the returned reference
    /// updates the container at exactly that coordinate's flat position.
    pub fn next(&mut self) -> (r: Option<(Coord, &mut Elem)>)
        requires
            old(self).wf(),
        ensures
            final(self).wf(),
            r is Some <==> !old(self).spec_done(),
            old(self).spec_done() ==> *final(self) == *old(self),
            final(self).rect == old(self).rect,
            final(self).stride == old(self).stride,
            mut_ref_future(final(self).grid) == mut_ref_future(old(self).grid),
            match r {
                Some(item) => {
                    &&& old(self).remaining().len() > 0
                    &&& item.0 == old(self).remaining()[0]
                    &&& item.0 == old(self).cur.coord
                    &&& *item.1 == mut_ref_current(old(self).grid)@[row_major_index(
                        mut_ref_current(old(self).grid).spec_size(),
                        item.0,
                    )]
                    &&& mut_ref_current(final(self).grid)@ == mut_ref_current(
                        old(self).grid,
                    )@.update(
                        row_major_index(mut_ref_current(old(self).grid).spec_size(), item.0),
                        *final(item.1),
                    )
                    &&& mut_ref_current(final(self).grid).spec_size() == mut_ref_current(
                        old(self).grid,
                    ).spec_size()
                    &&& final(self).cur.coord == spec_step(old(self).rect, item.0)
                    &&& final(self).remaining() == old(self).remaining().skip(1)
                },
                None => mut_ref_current(final(self).grid) == mut_ref_current(old(self).grid),
            },
    {
        proof {
            use_type_invariant(&*self.grid);
            use_type_invariant(&self.rect);
        }
        let maxc = self.rect.max_coord();
        if self.cur.coord.y > maxc.y {
            return None;
        }
        let c = self.cur.coord;
        proof {
            self.grid.lemma_len_bounded();
            lemma_step_trace(self.rect, c);
            lemma_step_offset(mut_ref_current(self.grid).spec_size(), self.rect, c);
            lemma_row_major_in_bounds(mut_ref_current(self.grid).spec_size(), c);
            if self.rect.spec_contains(spec_step(self.rect, c)) {
                lemma_row_major_in_bounds(
                    mut_ref_current(self.grid).spec_size(),
                    spec_step(self.rect, c),
                );
            }
        }
        let e = self.grid.elem_mut(self.cur.off);
        if c.x < maxc.x {
            self.cur = Cursor { coord: Coord { x: c.x + 1, y: c.y }, off: self.cur.off + 1 };
        } else if c.y < maxc.y {
            self.cur = Cursor {
                coord: Coord { x: self.rect.min_coord().x, y: c.y + 1 },
                off: self.cur.off + self.stride,
            };
        } else {
            self.cur = Cursor {
                coord: Coord { x: self.rect.min_coord().x, y: c.y + 1 },
                off: self.cur.off,
            };
        }
        Some((c, e))
    }
}

impl<Elem> Vec2D<Elem> {
    /// Create an iterator over a rectangular region of the Vec2D with
    /// the `start` coord. None is returned if the given `rect` does
    /// not fit entirely within the Vec2D or if the `start` coord is
    /// not within `rect`.
    pub fn rect_iter_at<'a>(&'a self, rect: Rect, start: Coord) -> (r: Option<RectIter<'a, Elem>>)
        ensures
            r is Some <==> (self.spec_size().spec_contains(rect.spec_max())
                && rect.spec_contains(start)),
            r is Some ==> {
                &&& r->0.wf()
                &&& r->0.grid == self
                &&& r->0.rect == rect
                &&& r->0.cur.coord == start
                &&& r->0.remaining() == coords_from(rect, start)
            },
    {
        if self.size().contains_coord(rect.max_coord()) && rect.contains_coord(start) {
            proof {
                use_type_invariant(&rect);
            }
            let stride = self.stride(&rect);
            let off = self.start_offset(start);
            Some(RectIter { grid: self, rect, cur: Cursor { coord: start, off }, stride })
        } else {
            None
        }
    }

    /// Create an iterator over a rectangular region of the
    /// Vec2D. None is returned if the given `rect` does not fit
    /// entirely within the Vec2D.
    pub fn rect_iter<'a>(&'a self, rect: Rect) -> (r: Option<RectIter<'a, Elem>>)
        ensures
            r is Some <==> self.spec_size().spec_contains(rect.spec_max()),
            r is Some ==> {
                &&& r->0.wf()
                &&& r->0.grid == self
                &&& r->0.rect == rect
                &&& r->0.cur.coord == rect.spec_min()
                &&& r->0.remaining() == rect_trace(rect)
            },
    {
        proof {
            use_type_invariant(&rect);
            lemma_trace_pos(rect, rect.spec_min());
            assert(rect_trace(rect).skip(0) =~= rect_trace(rect));
        }
        self.rect_iter_at(rect, rect.min_coord())
    }

    /// Create a mutable iterator over a rectangular region of the Vec2D
    /// with the `start` coord. None is returned if the given `rect` does
    /// not fit entirely within the Vec2D or if the `start` coord is not
    /// within `rect`.
    pub fn rect_iter_mut_at<'a>(&'a mut self, rect: Rect, start: Coord) -> (r: Option<
        RectIterMut<'a, Elem>,
    >)
        ensures
            r is Some <==> (old(self).spec_size().spec_contains(rect.spec_max())
                && rect.spec_contains(start)),
            match r {
                Some(it) => {
                    &&& it.wf()
                    &&& mut_ref_current(it.grid) == *old(self)
                    &&& mut_ref_future(it.grid) == *final(self)
                    &&& it.rect == rect
                    &&& it.cur.coord == start
                    &&& it.remaining() == coords_from(rect, start)
                },
                None => *final(self) == *old(self),
            },
    {
        if self.size().contains_coord(rect.max_coord()) && rect.contains_coord(start) {
            proof {
                use_type_invariant(&rect);
            }
            let stride = self.stride(&rect);
            let off = self.start_offset(start);
            Some(RectIterMut { grid: self, rect, cur: Cursor { coord: start, off }, stride })
        } else {
            None
        }
    }

    /// Create a mutable iterator over a rectangular region of the
    /// Vec2D. None is returned if the given `rect` does not fit
    /// entirely within the Vec2D.
    pub fn rect_iter_mut<'a>(&'a mut self, rect: Rect) -> (r: Option<RectIterMut<'a, Elem>>)
        ensures
            r is Some <==> old(self).spec_size().spec_contains(rect.spec_max()),
            match r {
                Some(it) => {
                    &&& it.wf()
                    &&& mut_ref_current(it.grid) == *old(self)
                    &&& mut_ref_future(it.grid) == *final(self)
                    &&& it.rect == rect
                    &&& it.cur.coord == rect.spec_min()
                    &&& it.remaining() == rect_trace(rect)
                },
                None => *final(self) == *old(self),
            },
    {
        proof {
            use_type_invariant(&rect);
            lemma_trace_pos(rect, rect.spec_min());
            assert(rect_trace(rect).skip(0) =~= rect_trace(rect));
        }
        let start = rect.min_coord();
        self.rect_iter_mut_at(rect, start)
    }

    /// Mutable iterator over the entire Vec2D; the container must not be
    /// empty.
    pub fn iter_mut<'a>(&'a mut self) -> (it: RectIterMut<'a, Elem>)
        requires
            old(self).spec_size().width >= 1,
            old(self).spec_size().height >= 1,
        ensures
            it.wf(),
            mut_ref_current(it.grid) == *old(self),
            mut_ref_future(it.grid) == *final(self),
            it.rect.spec_min() == (Coord { x: 0, y: 0 }),
            it.rect.spec_max() == (Coord {
                x: (old(self).spec_size().width - 1) as usize,
                y: (old(self).spec_size().height - 1) as usize,
            }),
            it.cur.coord == (Coord { x: 0, y: 0 }),
            it.remaining() == rect_trace(it.rect),
    {
        let rect = self.rect();
        self.rect_iter_mut(rect).unwrap()
    }

    /// Iterator over the entire Vec2D; the container must not be empty.
    pub fn iter<'a>(&'a self) -> (it: RectIter<'a, Elem>)
        requires
            self.spec_size().width >= 1,
            self.spec_size().height >= 1,
        ensures
            it.wf(),
            it.grid == self,
            it.rect.spec_min() == (Coord { x: 0, y: 0 }),
            it.rect.spec_max() == (Coord {
                x: (self.spec_size().width - 1) as usize,
                y: (self.spec_size().height - 1) as usize,
            }),
            it.cur.coord == (Coord { x: 0, y: 0 }),
            it.remaining() == rect_trace(it.rect),
    {
        let rect = self.rect();
        self.rect_iter(rect).unwrap()
    }
}

} // verus!
