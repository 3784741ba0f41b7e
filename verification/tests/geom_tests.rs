use pong::geom::Rect;
use pong::geom::above_centre;
use pong::geom::overlaps;

#[test]
fn overlap_is_symmetric_on_samples() {
    let a = Rect { x: 0, y: 0, w: 100, h: 100 };
    let b = Rect { x: 50, y: 50, w: 100, h: 100 };
    let c = Rect { x: 200, y: 0, w: 10, h: 10 };
    assert!(overlaps(&a, &b));
    assert!(overlaps(&b, &a));
    assert!(!overlaps(&a, &c));
    assert!(!overlaps(&c, &a));
}

#[test]
fn touching_rectangles_overlap() {
    let a = Rect { x: 0, y: 0, w: 100, h: 100 };
    let b = Rect { x: 100, y: 0, w: 100, h: 100 };
    assert!(overlaps(&a, &b));
    let apart = Rect { x: 101, y: 0, w: 100, h: 100 };
    assert!(!overlaps(&a, &apart));
}

#[test]
fn above_centre_compares_vertical_centres() {
    let paddle = Rect { x: 0, y: 100, w: 12, h: 80 };
    // Centre of the paddle is at y = 140.
    let higher = Rect { x: 0, y: 120, w: 10, h: 10 };
    let lower = Rect { x: 0, y: 150, w: 10, h: 10 };
    let level = Rect { x: 0, y: 135, w: 10, h: 10 };
    assert!(above_centre(&higher, &paddle));
    assert!(!above_centre(&lower, &paddle));
    // Equal centres do not count as above.
    assert!(!above_centre(&level, &paddle));
}
