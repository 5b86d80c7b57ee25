use vec2d::Coord;
use vec2d::Rect;
use vec2d::Size;
use vec2d::Vec2D;

#[test]
fn test_coord() {
    let coord = Coord::new(1, 2);
    assert_eq!(coord.x, 1);
    assert_eq!(coord.y, 2);
}

#[test]
fn test_coord_add() {
    let a = Coord::new(1, 2);
    let b = Coord::new(5, 9);
    assert_eq!(a + b, Coord::new(6, 11));
}

#[test]
fn test_rect() {
    let rect = Rect::new(Coord::new(1, 2), Coord::new(5, 3)).unwrap();
    assert_eq!(rect.width(), 5);
    assert_eq!(rect.height(), 2);

    assert_eq!(rect.width(), rect.size().width);
    assert_eq!(rect.height(), rect.size().height);

    assert_eq!(rect.contains_coord(Coord::new(0, 0)), false);
    assert_eq!(rect.contains_coord(Coord::new(4, 3)), true);
}

#[test]
fn test_bad_rect() {
    assert_eq!(
        Rect::new(Coord::new(2, 1), Coord::new(1, 1)).is_none(),
        true
    );
    assert_eq!(
        Rect::new(Coord::new(1, 2), Coord::new(1, 1)).is_none(),
        true
    );
}

#[test]
fn test_size() {
    let size = Size::new(3, 2);
    assert_eq!(size.width, 3);
    assert_eq!(size.height, 2);

    assert_eq!(size.area(), 6);

    assert_eq!(size.contains_coord(Coord::new(1, 1)), true);
    assert_eq!(size.contains_coord(Coord::new(4, 1)), false);
    assert_eq!(size.contains_coord(Coord::new(1, 3)), false);

    let rect = size.rect();
    assert_eq!(rect.min_coord(), Coord::new(0, 0));
    assert_eq!(rect.max_coord(), Coord::new(2, 1));
}

#[test]
fn test_rect_iter_mut() {
    let elems = vec![1, 2, 3, 4];
    let mut grid = Vec2D::from_vec(Size::new(2, 2), elems).unwrap();
    let rect = Rect::new(Coord::new(0, 0), Coord::new(1, 1)).unwrap();

    let mut actual_coords = Vec::new();
    let mut it = grid.rect_iter_mut(rect).unwrap();
    while let Some((coord, elem)) = it.next() {
        *elem = -(*elem);
        actual_coords.push((coord.x, coord.y));
    }
    assert_eq!(actual_coords, [(0, 0), (1, 0), (0, 1), (1, 1)]);
    assert_eq!(grid.elems(), &[-1, -2, -3, -4][..]);
}

#[test]
fn test_two_iterators() {
    let size = Size::new(2, 1);
    let v = Vec2D::from_vec(size, vec![0, 1]).unwrap();

    let mut iter1 = v.rect_iter(size.rect()).unwrap();
    let mut iter2 = v.rect_iter(size.rect()).unwrap();

    loop {
        match (iter1.next(), iter2.next()) {
            (Some((coord1, elem1)), Some((coord2, elem2))) => {
                assert_eq!(coord1, coord2);
                assert_eq!(elem1, elem2);
            }
            (None, None) => break,
            _ => panic!("iterators disagree on length"),
        }
    }
}

#[test]
fn test_rect_iter_at() {
    let size = Size::new(1, 2);
    let v = Vec2D::from_vec(size, vec![0, 1]).unwrap();

    let start = Coord::new(0, 1);
    let mut iter = v.rect_iter_at(size.rect(), start).unwrap();
    let (coord, elem) = iter.next().unwrap();
    assert_eq!((coord, *elem), (start, 1));
    assert_eq!(iter.next().is_none(), true);
}

#[test]
fn test_from_vec_length_mismatch() {
    assert!(Vec2D::from_vec(Size::new(2, 2), vec![1, 2, 3]).is_none());
    assert!(Vec2D::from_vec(Size::new(2, 2), vec![1, 2, 3, 4, 5]).is_none());
    assert!(Vec2D::from_vec(Size::new(2, 2), vec![1, 2, 3, 4]).is_some());
    assert!(Vec2D::<u8>::from_vec(Size::new(0, 0), Vec::new()).is_some());
    assert!(Vec2D::<u8>::from_vec(Size::new(0, 5), Vec::new()).is_some());
}

#[test]
fn test_from_example() {
    let grid = Vec2D::from_example(Size::new(10, 10), &42);
    let mut it = grid.iter();
    let mut count = 0;
    while let Some((_coord, item)) = it.next() {
        assert_eq!(*item, 42);
        count += 1;
    }
    assert_eq!(count, 100);
}

#[test]
fn test_get() {
    let v = Vec2D::from_vec(
        Size::new(3, 3),
        vec!['a', 'b', 'c', 'd', 'e', 'f', 'g', 'h', 'i'],
    )
    .unwrap();
    assert_eq!(v.get(Coord::new(1, 0)), Some(&'b'));
    assert_eq!(v.get(Coord::new(1, 2)), Some(&'h'));
    assert_eq!(v.get(Coord::new(3, 0)), None);
    assert_eq!(v.get(Coord::new(0, 3)), None);
}

#[test]
fn test_get_mut() {
    let mut v = Vec2D::from_vec(
        Size::new(3, 3),
        vec!['a', 'b', 'c', 'd', 'e', 'f', 'g', 'h', 'i'],
    )
    .unwrap();
    assert_eq!(v.get_mut(Coord::new(1, 0)), Some(&mut 'b'));
    assert_eq!(v.get_mut(Coord::new(1, 2)), Some(&mut 'h'));
    assert_eq!(v.get_mut(Coord::new(3, 0)), None);

    *v.get_mut(Coord::new(2, 1)).unwrap() = 'z';
    assert_eq!(v.get(Coord::new(2, 1)), Some(&'z'));
    assert_eq!(v.elems(), &['a', 'b', 'c', 'd', 'e', 'z', 'g', 'h', 'i'][..]);
}

#[test]
fn test_sub_rect_iteration_order() {
    // A 2-wide, 2-tall rectangle inside a 4x3 container: the walk must
    // visit only its four coordinates, row by row, skipping the columns
    // outside the rectangle.
    let v = Vec2D::from_vec(
        Size::new(4, 3),
        vec![0, 1, 2, 3, 10, 11, 12, 13, 20, 21, 22, 23],
    )
    .unwrap();
    let rect = Rect::new(Coord::new(1, 1), Coord::new(2, 2)).unwrap();
    let mut it = v.rect_iter(rect).unwrap();
    let mut seen = Vec::new();
    while let Some((coord, elem)) = it.next() {
        seen.push(((coord.x, coord.y), *elem));
    }
    assert_eq!(
        seen,
        [((1, 1), 11), ((2, 1), 12), ((1, 2), 21), ((2, 2), 22)]
    );
}

#[test]
fn test_single_cell_rect() {
    let v = Vec2D::from_vec(Size::new(3, 3), vec![0, 1, 2, 3, 4, 5, 6, 7, 8]).unwrap();
    let rect = Rect::new(Coord::new(2, 2), Coord::new(2, 2)).unwrap();
    assert_eq!(rect.width(), 1);
    assert_eq!(rect.height(), 1);
    let mut it = v.rect_iter(rect).unwrap();
    let (coord, elem) = it.next().unwrap();
    assert_eq!((coord, *elem), (Coord::new(2, 2), 8));
    assert!(it.next().is_none());
}

#[test]
fn test_rect_iter_rejects_oversized_rect() {
    let v = Vec2D::from_vec(Size::new(2, 2), vec![1, 2, 3, 4]).unwrap();
    let too_wide = Rect::new(Coord::new(0, 0), Coord::new(2, 1)).unwrap();
    let too_tall = Rect::new(Coord::new(0, 0), Coord::new(1, 2)).unwrap();
    assert!(v.rect_iter(too_wide).is_none());
    assert!(v.rect_iter(too_tall).is_none());
    let mut v = v;
    assert!(v.rect_iter_mut(too_wide).is_none());
}

#[test]
fn test_rect_iter_at_rejects_start_outside_rect() {
    let v = Vec2D::from_vec(Size::new(3, 3), vec![0, 1, 2, 3, 4, 5, 6, 7, 8]).unwrap();
    let rect = Rect::new(Coord::new(1, 1), Coord::new(2, 2)).unwrap();
    assert!(v.rect_iter_at(rect, Coord::new(0, 0)).is_none());
    assert!(v.rect_iter_at(rect, Coord::new(1, 1)).is_some());
    let mut v = v;
    assert!(v.rect_iter_mut_at(rect, Coord::new(0, 1)).is_none());
}

#[test]
fn test_rect_iter_at_interior_start() {
    // Starting in the middle of a row visits the rest of the rectangle,
    // in row-major order, and nothing before the start.
    let v = Vec2D::from_vec(Size::new(3, 2), vec![0, 1, 2, 10, 11, 12]).unwrap();
    let rect = v.rect();
    let mut it = v.rect_iter_at(rect, Coord::new(1, 0)).unwrap();
    let mut seen = Vec::new();
    while let Some((coord, elem)) = it.next() {
        seen.push(((coord.x, coord.y), *elem));
    }
    assert_eq!(
        seen,
        [((1, 0), 1), ((2, 0), 2), ((0, 1), 10), ((1, 1), 11), ((2, 1), 12)]
    );
}

#[test]
fn test_iter_mut_write_then_get() {
    // A value written through the exclusive iterator is afterwards seen
    // by `get` at the same coordinate.
    let mut grid = Vec2D::from_vec(Size::new(2, 2), vec![1, 2, 3, 4]).unwrap();
    let mut it = grid.iter_mut();
    while let Some((coord, elem)) = it.next() {
        if coord == Coord::new(1, 0) {
            *elem = 99;
        }
    }
    assert_eq!(grid.get(Coord::new(1, 0)), Some(&99));
    assert_eq!(grid.get(Coord::new(0, 0)), Some(&1));
    assert_eq!(grid.get(Coord::new(0, 1)), Some(&3));
    assert_eq!(grid.get(Coord::new(1, 1)), Some(&4));
}

#[test]
fn test_sub_rect_iter_mut_leaves_outside_alone() {
    let mut grid = Vec2D::from_vec(
        Size::new(3, 3),
        vec![0, 1, 2, 3, 4, 5, 6, 7, 8],
    )
    .unwrap();
    let rect = Rect::new(Coord::new(1, 1), Coord::new(2, 2)).unwrap();
    let mut it = grid.rect_iter_mut(rect).unwrap();
    while let Some((_coord, elem)) = it.next() {
        *elem += 100;
    }
    assert_eq!(grid.elems(), &[0, 1, 2, 3, 104, 105, 6, 107, 108][..]);
}

#[test]
fn test_resize_grow() {
    let mut grid = Vec2D::from_vec(Size::new(2, 2), vec![1, 2, 3, 4]).unwrap();
    grid.resize(Size::new(3, 2), 9);
    assert_eq!(grid.size(), Size::new(3, 2));
    // Prior elements keep their flat positions; new trailing positions
    // take the fill value.
    assert_eq!(grid.elems(), &[1, 2, 3, 4, 9, 9][..]);
}

#[test]
fn test_resize_shrink() {
    let mut grid = Vec2D::from_vec(Size::new(3, 2), vec![1, 2, 3, 4, 5, 6]).unwrap();
    grid.resize(Size::new(2, 2), 0);
    assert_eq!(grid.size(), Size::new(2, 2));
    assert_eq!(grid.elems(), &[1, 2, 3, 4][..]);
}

#[test]
fn test_iter_matches_rect_iter() {
    let v = Vec2D::from_vec(Size::new(2, 2), vec![5, 6, 7, 8]).unwrap();
    let mut it = v.iter();
    let mut seen = Vec::new();
    while let Some((coord, elem)) = it.next() {
        seen.push(((coord.x, coord.y), *elem));
    }
    assert_eq!(seen, [((0, 0), 5), ((1, 0), 6), ((0, 1), 7), ((1, 1), 8)]);
}
