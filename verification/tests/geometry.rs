use layer_effects::geometry::{saturating_add, saturating_sub, Point, Rectangle, Size};

fn rect(x: i32, y: i32, w: i32, h: i32) -> Rectangle<i32> {
    Rectangle { loc: Point { x, y }, size: Size { w, h } }
}

#[test]
fn intersection_of_overlapping_rects() {
    let a = rect(0, 0, 10, 10);
    let b = rect(5, -5, 10, 10);
    assert_eq!(a.intersection(b), Some(rect(5, 0, 5, 5)));
    assert_eq!(b.intersection(a), Some(rect(5, 0, 5, 5)));
    assert!(a.overlaps(b));
    assert_eq!(a.intersection(rect(2, 3, 4, 5)), Some(rect(2, 3, 4, 5)));
}

#[test]
fn touching_rects_share_nothing() {
    let a = rect(0, 0, 10, 10);
    assert_eq!(a.intersection(rect(10, 0, 10, 10)), None);
    assert_eq!(a.intersection(rect(0, 10, 10, 10)), None);
    assert_eq!(a.intersection(rect(-10, 0, 10, 10)), None);
    assert!(!a.overlaps(rect(10, 0, 10, 10)));
}

#[test]
fn an_empty_rect_inside_another_is_shared() {
    assert_eq!(rect(0, 0, 10, 10).intersection(rect(5, 5, 0, 2)), Some(rect(5, 5, 0, 2)));
}

#[test]
fn rects_beyond_the_last_coordinate_are_cut_off() {
    let a = rect(i32::MAX - 5, 0, 100, 10);
    assert_eq!(a.intersection(rect(i32::MAX - 8, 2, 100, 1)), Some(rect(i32::MAX - 5, 2, 5, 1)));
    assert_eq!(saturating_add(i32::MAX, 1), i32::MAX);
    assert_eq!(saturating_add(i32::MIN, -1), i32::MIN);
    assert_eq!(saturating_add(3, -5), -2);
    assert_eq!(saturating_sub(i32::MIN, 1), i32::MIN);
    assert_eq!(saturating_sub(i32::MAX, -1), i32::MAX);
    assert_eq!(saturating_sub(3, 5), -2);
}

#[test]
fn extremities_give_location_and_size() {
    let r = Rectangle::<i32>::from_extremities(Point { x: 3, y: 4 }, Point { x: 10, y: 24 });
    assert_eq!(r, rect(3, 4, 7, 20));
    let r = Rectangle::<i32>::from_extremities(
        Point { x: i32::MIN, y: 0 },
        Point { x: i32::MAX, y: 1 },
    );
    assert_eq!(r, rect(i32::MIN, 0, i32::MAX, 1));
}

#[test]
fn intersection_covers_what_both_cover() {
    let inside = |r: Rectangle<i32>, x: i32, y: i32| {
        r.loc.x <= x && x < r.loc.x + r.size.w && r.loc.y <= y && y < r.loc.y + r.size.h
    };
    for ax in 0..4 {
        for aw in 0..4 {
            for bx in 0..4 {
                for bw in 0..4 {
                    let a = rect(ax, 1, aw, 3);
                    let b = rect(bx, 0, bw, 3);
                    let common = a.intersection(b);
                    for x in -1..9 {
                        for y in -1..5 {
                            let shared = common.is_some_and(|r| inside(r, x, y));
                            assert_eq!(shared, inside(a, x, y) && inside(b, x, y));
                        }
                    }
                }
            }
        }
    }
}
