use crate::geom::Coord;
use crate::geom::Rect;
use crate::geom::Size;
use crate::grid::lemma_row_major_in_bounds;
use crate::grid::lemma_row_major_injective;
use crate::grid::row_major_index;
use crate::iters::RectIter;
use crate::iters::coords_from;
use crate::iters::lemma_trace_index;
use crate::iters::lemma_trace_pos;
use crate::iters::rect_trace;
use crate::iters::rect_trace_pos;
use vstd::prelude::*;

verus! {

/// Row-major precedence: `a` is visited before `b` when it lies on an
/// earlier row, or on the same row in an earlier column.
pub open spec fn row_major_before(a: Coord, b: Coord) -> bool {
    a.y < b.y || (a.y == b.y && a.x < b.x)
}

/// A rectangle built from ordered corners `a <= b` spans
/// `b.x - a.x + 1` columns and `b.y - a.y + 1` rows.
pub proof fn lemma_rect_dimensions(r: Rect, a: Coord, b: Coord)
    requires
        r.spec_min() == a,
        r.spec_max() == b,
    ensures
        r.spec_width() == b.x - a.x + 1,
        r.spec_height() == b.y - a.y + 1,
{
}

/// The row-major walk of a rectangle visits every coordinate of the
/// rectangle exactly once, nothing outside it, and in row-major order:
/// rows from `min.y` up, and within a row columns from `min.x` up.
pub proof fn lemma_trace_visits_rect_exactly_once(rect: Rect)
    requires
        rect.ordered(),
    ensures
        rect_trace(rect).len() == rect.spec_width() * rect.spec_height(),
        forall|i: int|
            0 <= i < rect_trace(rect).len() ==> rect.spec_contains(#[trigger] rect_trace(rect)[i]),
        forall|c: Coord|
            #[trigger] rect.spec_contains(c) ==> 0 <= rect_trace_pos(rect, c) < rect_trace(
                rect,
            ).len() && rect_trace(rect)[rect_trace_pos(rect, c)] == c,
        forall|i: int, j: int|
            0 <= i < j < rect_trace(rect).len() ==> rect_trace(rect)[i] != rect_trace(rect)[j],
        forall|i: int, j: int|
            0 <= i < j < rect_trace(rect).len() ==> row_major_before(
                #[trigger] rect_trace(rect)[i],
                #[trigger] rect_trace(rect)[j],
            ),
{
    let t = rect_trace(rect);
    let w = rect.spec_width();
    assert forall|i: int| 0 <= i < t.len() implies rect.spec_contains(#[trigger] t[i]) by {
        lemma_trace_index(rect, i);
    }
    assert forall|c: Coord| #[trigger] rect.spec_contains(c) implies 0 <= rect_trace_pos(rect, c)
        < t.len() && t[rect_trace_pos(rect, c)] == c by {
        lemma_trace_pos(rect, c);
    }
    assert forall|i: int, j: int| 0 <= i < j < t.len() implies t[i] != t[j] by {
        lemma_trace_index(rect, i);
        lemma_trace_index(rect, j);
    }
    assert forall|i: int, j: int| 0 <= i < j < t.len() implies row_major_before(
        #[trigger] t[i],
        #[trigger] t[j],
    ) by {
        lemma_trace_index(rect, i);
        lemma_trace_index(rect, j);
        let a = t[i];
        let b = t[j];
        let dxa = a.x - rect.spec_min().x;
        let dya = a.y - rect.spec_min().y;
        let dxb = b.x - rect.spec_min().x;
        let dyb = b.y - rect.spec_min().y;
        assert(dya < dyb || (dya == dyb && dxa < dxb)) by (nonlinear_arith)
            requires
                dya * w + dxa < dyb * w + dxb,
                0 <= dxa < w,
                0 <= dxb < w,
                0 <= dya,
                0 <= dyb,
        ;
    }
}

/// Writing a value at a coordinate's flat position is afterwards seen at
/// exactly that coordinate, and at no other coordinate of the container.
pub proof fn lemma_write_then_read<Elem>(buf: Seq<Elem>, size: Size, c: Coord, v: Elem)
    requires
        size.spec_contains(c),
        buf.len() == size.spec_area(),
    ensures
        buf.update(row_major_index(size, c), v)[row_major_index(size, c)] == v,
        forall|d: Coord|
            #[trigger] size.spec_contains(d) && d != c ==> buf.update(
                row_major_index(size, c),
                v,
            )[row_major_index(size, d)] == buf[row_major_index(size, d)],
{
    lemma_row_major_in_bounds(size, c);
    assert forall|d: Coord| #[trigger] size.spec_contains(d) && d != c implies buf.update(
        row_major_index(size, c),
        v,
    )[row_major_index(size, d)] == buf[row_major_index(size, d)] by {
        lemma_row_major_in_bounds(size, d);
        if row_major_index(size, c) == row_major_index(size, d) {
            lemma_row_major_injective(size, c, d);
        }
    }
}

/// Two shared iterators with the same container contents, rectangle and
/// cursor still visit the same coordinates and will produce the same
/// values: advancing them in lock-step keeps their outputs identical.
pub proof fn lemma_shared_iterators_agree<Elem>(it1: RectIter<Elem>, it2: RectIter<Elem>)
    requires
        it1.grid@ == it2.grid@,
        it1.grid.spec_size() == it2.grid.spec_size(),
        it1.rect == it2.rect,
        it1.cur.coord == it2.cur.coord,
    ensures
        it1.spec_done() == it2.spec_done(),
        it1.remaining() == it2.remaining(),
        it1.remaining_values() == it2.remaining_values(),
{
    assert(it1.remaining_values() =~= it2.remaining_values());
}

/// A walk of `rect` begun at an interior coordinate `start` visits
/// exactly the coordinates of `rect` at or after `start` in row-major
/// precedence, in row-major order, and none before `start`.
pub proof fn lemma_walk_from_start(rect: Rect, start: Coord)
    requires
        rect.ordered(),
        rect.spec_contains(start),
    ensures
        coords_from(rect, start) == rect_trace(rect).skip(rect_trace_pos(rect, start)),
        coords_from(rect, start).len() > 0,
        coords_from(rect, start)[0] == start,
        forall|c: Coord|
            #[trigger] rect.spec_contains(c) ==> (coords_from(rect, start).contains(c) <==> !(
            row_major_before(c, start))),
        forall|c: Coord|
            rect.spec_contains(c) ==> ((rect_trace_pos(rect, c) >= rect_trace_pos(rect, start))
                <==> !(row_major_before(c, start))),
{
    let t = rect_trace(rect);
    let w = rect.spec_width();
    let p0 = rect_trace_pos(rect, start);
    lemma_trace_pos(rect, start);
    assert forall|c: Coord| rect.spec_contains(c) implies ((rect_trace_pos(rect, c)
        >= rect_trace_pos(rect, start)) <==> !(row_major_before(c, start))) by {
        let dxa = c.x - rect.spec_min().x;
        let dya = c.y - rect.spec_min().y;
        let dxb = start.x - rect.spec_min().x;
        let dyb = start.y - rect.spec_min().y;
        assert((dya * w + dxa >= dyb * w + dxb) <==> (dya > dyb || (dya == dyb && dxa >= dxb)))
            by (nonlinear_arith)
            requires
                0 <= dxa < w,
                0 <= dxb < w,
                0 <= dya,
                0 <= dyb,
        ;
    }
    assert forall|c: Coord| #[trigger] rect.spec_contains(c) implies (coords_from(
        rect,
        start,
    ).contains(c) <==> !(row_major_before(c, start))) by {
        lemma_trace_pos(rect, c);
        let p = rect_trace_pos(rect, c);
        if p >= p0 {
            assert(coords_from(rect, start)[p - p0] == c);
            assert(coords_from(rect, start).contains(c));
        }
        if coords_from(rect, start).contains(c) {
            let k = choose|k: int|
                0 <= k < coords_from(rect, start).len() && coords_from(rect, start)[k] == c;
            lemma_trace_index(rect, k + p0);
        }
    }
}

} // verus!
