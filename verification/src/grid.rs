use crate::geom::Coord;
use crate::geom::Rect;
use crate::geom::Size;
use vstd::prelude::*;

verus! {

/// Flat position of coordinate `c` in a row-major buffer of the given
/// size: all of row 0 first, then row 1, and so on.
pub open spec fn row_major_index(size: Size, c: Coord) -> int {
    c.y * size.width + c.x
}

/// A coordinate inside `size` has its flat position inside the buffer.
pub proof fn lemma_row_major_in_bounds(size: Size, c: Coord)
    requires
        size.spec_contains(c),
    ensures
        0 <= row_major_index(size, c) < size.spec_area(),
{
    assert(c.y * size.width + c.x < size.width * size.height) by (nonlinear_arith)
        requires
            0 <= c.x < size.width,
            0 <= c.y < size.height,
    ;
}

/// Distinct coordinates inside `size` have distinct flat positions.
pub proof fn lemma_row_major_injective(size: Size, a: Coord, b: Coord)
    requires
        size.spec_contains(a),
        size.spec_contains(b),
        row_major_index(size, a) == row_major_index(size, b),
    ensures
        a == b,
{
    assert(a.y == b.y && a.x == b.x) by (nonlinear_arith)
        requires
            0 <= a.x < size.width,
            0 <= b.x < size.width,
            0 <= a.y,
            0 <= b.y,
            a.y * size.width + a.x == b.y * size.width + b.x,
    ;
}

/// Container for 2D data: one flat, row-major buffer whose length always
/// equals the area of its size.
#[derive(Debug)]
pub struct Vec2D<Elem> {
    elems: Vec<Elem>,
    size: Size,
}

impl<Elem> View for Vec2D<Elem> {
    type V = Seq<Elem>;

    /// The flat, row-major contents of the container.
    closed spec fn view(&self) -> Seq<Elem> {
        self.elems@
    }
}

impl<Elem> Vec2D<Elem> {
    /// The backing buffer always holds exactly `area` elements.
    #[verifier::type_invariant]
    pub open spec fn shape_ok(self) -> bool {
        self@.len() == self.spec_size().spec_area()
    }

    /// Width and height of the container.
    pub closed spec fn spec_size(self) -> Size {
        self.size
    }

    /// The contents fit the machine's address range: the buffer is a
    /// real vector, so its length is a machine word.
    pub proof fn lemma_len_bounded(&self)
        ensures
            self@.len() <= usize::MAX,
    {
        broadcast use vstd::std_specs::vec::axiom_spec_len;

        assert(vstd::std_specs::vec::spec_vec_len(&self.elems) == self.elems@.len());
    }

    /// Create a Vec2D with the given `size`. The contents are set to
    /// `src`. None is returned if the `size` does not match the
    /// length of `src`.
    pub fn from_vec(size: Size, src: Vec<Elem>) -> (r: Option<Vec2D<Elem>>)
        ensures
            r is Some <==> src@.len() == size.spec_area(),
            r is Some ==> r->0@ == src@ && r->0.spec_size() == size,
    {
        let len = src.len();
        match size.width.checked_mul(size.height) {
            Some(area) => {
                if area == len {
                    Some(Vec2D { elems: src, size })
                } else {
                    None
                }
            },
            None => None,
        }
    }

    /// Returns element at the given coord or `None` if the coord is
    /// outside the Vec2D.
    pub fn get(&self, coord: Coord) -> (r: Option<&Elem>)
        ensures
            r is Some <==> self.spec_size().spec_contains(coord),
            r is Some ==> r->0 == &self@[row_major_index(self.spec_size(), coord)],
    {
        proof {
            use_type_invariant(self);
        }
        if self.size.contains_coord(coord) {
            proof {
                self.lemma_len_bounded();
                lemma_row_major_in_bounds(self.size, coord);
            }
            let i = coord.y * self.size.width + coord.x;
            Some(&self.elems[i])
        } else {
            None
        }
    }

    /// Returns a mutable reference to the element at the given coord or
    /// `None` if the coord is outside the Vec2D.
    pub fn get_mut(&mut self, coord: Coord) -> (r: Option<&mut Elem>)
        ensures
            r is Some <==> old(self).spec_size().spec_contains(coord),
            match r {
                Some(e) => {
                    &&& *e == old(self)@[row_major_index(old(self).spec_size(), coord)]
                    &&& final(self)@ == old(self)@.update(
                        row_major_index(old(self).spec_size(), coord),
                        *final(e),
                    )
                    &&& final(self).spec_size() == old(self).spec_size()
                },
                None => *final(self) == *old(self),
            },
    {
        proof {
            use_type_invariant(&*self);
        }
        if self.size.contains_coord(coord) {
            proof {
                self.lemma_len_bounded();
                lemma_row_major_in_bounds(self.size, coord);
            }
            let i = coord.y * self.size.width + coord.x;
            Some(&mut self.elems[i])
        } else {
            None
        }
    }

    /// Shortcut for self.size.rect(); the container must not be empty.
    pub fn rect(&self) -> (r: Rect)
        requires
            self.spec_size().width >= 1,
            self.spec_size().height >= 1,
        ensures
            r.spec_min() == (Coord { x: 0, y: 0 }),
            r.spec_max() == (Coord {
                x: (self.spec_size().width - 1) as usize,
                y: (self.spec_size().height - 1) as usize,
            }),
    {
        self.size.rect()
    }

    /// Width and height.
    pub fn size(&self) -> (s: Size)
        ensures
            s == self.spec_size(),
    {
        self.size
    }

    /// The flat, row-major backing buffer.
    pub fn elems(&self) -> (s: &[Elem])
        ensures
            s@ == self@,
    {
        self.elems.as_slice()
    }

    /// Shared reference to the element at a flat position.
    pub(crate) fn elem_at(&self, i: usize) -> (e: &Elem)
        requires
            i < self@.len(),
        ensures
            e == &self@[i as int],
    {
        &self.elems[i]
    }

    /// Mutable reference to the element at a flat position; writing
    /// through it updates exactly that position.
    pub(crate) fn elem_mut(&mut self, i: usize) -> (e: &mut Elem)
        requires
            i < old(self)@.len(),
        ensures
            *e == old(self)@[i as int],
            final(self)@ == old(self)@.update(i as int, *final(e)),
            final(self).spec_size() == old(self).spec_size(),
    {
        proof {
            use_type_invariant(&*self);
        }
        &mut self.elems[i]
    }

    /// How many flat positions to move, at the end of a row of `rect`,
    /// to land on the first column of the rectangle one row down.
    pub(crate) fn stride(&self, rect: &Rect) -> (s: usize)
        requires
            rect.spec_width() <= self.spec_size().width,
        ensures
            s == self.spec_size().width - rect.spec_width() + 1,
    {
        proof {
            use_type_invariant(rect);
        }
        self.size.width - rect.width() + 1
    }

    /// Flat position of the `start` element.
    pub(crate) fn start_offset(&self, start: Coord) -> (off: usize)
        requires
            self.spec_size().spec_contains(start),
        ensures
            off == row_major_index(self.spec_size(), start),
    {
        proof {
            use_type_invariant(self);
            self.lemma_len_bounded();
            lemma_row_major_in_bounds(self.size, start);
        }
        start.y * self.size.width + start.x
    }
}

impl<Elem: Clone> Vec2D<Elem> {
    /// Create a Vec2D with the given `size`. All elements are
    /// initialized as copies of the `example` element.
    pub fn from_example(size: Size, example: &Elem) -> (g: Vec2D<Elem>)
        requires
            size.spec_area() <= usize::MAX,
        ensures
            g.spec_size() == size,
            g@.len() == size.spec_area(),
            forall|i: int| 0 <= i < g@.len() ==> cloned(*example, #[trigger] g@[i]),
    {
        let n = size.area();
        let mut elems: Vec<Elem> = Vec::new();
        while elems.len() < n
            invariant
                elems@.len() <= n,
                forall|i: int| 0 <= i < elems@.len() ==> cloned(*example, #[trigger] elems@[i]),
            decreases n - elems@.len(),
        {
            elems.push(example.clone());
        }
        Vec2D { elems, size }
    }

    /// Resize in-place so that `size()` is equal to `new_size`.
    /// Elements keep their flat positions as far as both shapes reach;
    /// growth fills the new trailing positions with copies of `value`.
    pub fn resize(&mut self, new_size: Size, value: Elem)
        requires
            new_size.spec_area() <= usize::MAX,
        ensures
            final(self).spec_size() == new_size,
            final(self)@.len() == new_size.spec_area(),
            forall|i: int|
                0 <= i < old(self)@.len() && i < new_size.spec_area() ==> final(self)@[i] == old(
                    self,
                )@[i],
            forall|i: int|
                old(self)@.len() <= i < new_size.spec_area() ==> cloned(
                    value,
                    #[trigger] final(self)@[i],
                ),
    {
        let n = new_size.area();
        // Swap in an empty, zero-sized placeholder so the buffer can be
        // reshaped by value; the placeholder is well-shaped on its own.
        let empty: Vec<Elem> = Vec::new();
        let zero = Size::new(0, 0);
        proof {
            assert(zero == (Size { width: 0usize, height: 0usize }));
            assert(zero.width == 0);
            assert(zero.spec_area() == 0);
        }
        let mut tmp = Vec2D { elems: empty, size: zero };
        core::mem::swap(self, &mut tmp);
        let Vec2D { elems: mut elems, size: _ } = tmp;
        let ghost before = elems@;
        elems.resize(n, value);
        proof {
            if n <= before.len() {
                assert(elems@ == before.subrange(0, n as int));
            } else {
                assert(elems@.subrange(0, before.len() as int) == before);
                assert(forall|i: int|
                    0 <= i < before.len() ==> elems@[i] == before.subrange(
                        0,
                        before.len() as int,
                    )[i]);
            }
        }
        *self = Vec2D { elems, size: new_size };
    }
}

} // verus!
