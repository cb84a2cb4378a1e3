use olivec::{barycentric, normalize_rect, normalize_triangle, NormalizedRect};

#[test]
fn normalize_rect_clamps_to_the_canvas() {
    let nr = normalize_rect(20, 30, 90, 80, 100, 100).unwrap();
    assert_eq!(nr.x1, 20);
    assert_eq!(nr.x2, 99);
    assert_eq!(nr.y1, 30);
    assert_eq!(nr.y2, 99);
    assert_eq!(nr.ox1, 20);
    assert_eq!(nr.ox2, 109);
    assert_eq!(nr.oy1, 30);
    assert_eq!(nr.oy2, 109);
}

#[test]
fn normalize_rect_keeps_an_inner_rectangle() {
    let nr = normalize_rect(5, 6, 10, 20, 100, 100).unwrap();
    assert_eq!((nr.x1, nr.x2, nr.y1, nr.y2), (5, 14, 6, 25));
}

#[test]
fn normalize_rect_handles_negative_sizes() {
    // a negative size extends the span backwards from its anchor
    let nr = normalize_rect(10, 10, -5, -3, 100, 100).unwrap();
    assert_eq!((nr.x1, nr.x2, nr.y1, nr.y2), (6, 10, 8, 10));
}

#[test]
fn normalize_rect_clips_a_partly_visible_rectangle() {
    let nr = normalize_rect(-5, -5, 20, 20, 10, 10).unwrap();
    assert_eq!((nr.x1, nr.x2, nr.y1, nr.y2), (0, 9, 0, 9));
    assert_eq!((nr.ox1, nr.ox2, nr.oy1, nr.oy2), (-5, 14, -5, 14));
}

#[test]
fn normalize_rect_rejects_an_invisible_rectangle() {
    assert!(normalize_rect(-10, -10, 5, 5, 100, 100).is_none());
    assert!(normalize_rect(100, 0, 5, 5, 100, 100).is_none());
    assert!(normalize_rect(0, 100, 5, 5, 100, 100).is_none());
    assert!(normalize_rect(0, -5, 5, 5, 100, 100).is_none());
}

#[test]
fn normalize_rect_rejects_an_empty_rectangle() {
    assert!(normalize_rect(10, 10, 0, 5, 100, 100).is_none());
    assert!(normalize_rect(10, 10, 5, 0, 100, 100).is_none());
}

#[test]
fn normalize_rect_rejects_everything_right_of_an_empty_canvas() {
    assert!(normalize_rect(5, 5, 3, 3, 0, 10).is_none());
    assert!(normalize_rect(5, 5, 3, 3, 10, 0).is_none());
}

#[test]
fn normalize_rect_crossing_an_empty_axis_clips_to_an_empty_range() {
    // the span crosses x == 0, so the rectangle counts as visible even on a
    // width-0 canvas; the clipped range x1..=x2 is then empty
    let nr = normalize_rect(-2, 5, 5, 3, 0, 10).unwrap();
    assert_eq!((nr.x1, nr.x2), (0, -1));
    assert_eq!((nr.y1, nr.y2), (5, 7));
}

#[test]
fn normalized_rect_default_is_zero() {
    let nr = NormalizedRect::default();
    assert_eq!((nr.x1, nr.x2, nr.y1, nr.y2), (0, 0, 0, 0));
    assert_eq!((nr.ox1, nr.ox2, nr.oy1, nr.oy2), (0, 0, 0, 0));
}

#[test]
fn normalize_triangle_takes_the_bounding_box() {
    let (mut lx, mut hx, mut ly, mut hy) = (0, 0, 0, 0);
    let visible = normalize_triangle(
        100, 100, 10, 10, 50, 20, 30, 60, &mut lx, &mut hx, &mut ly, &mut hy,
    );
    assert!(visible);
    assert_eq!((lx, hx, ly, hy), (10, 50, 10, 60));
}

#[test]
fn normalize_triangle_clips_to_the_canvas() {
    let (mut lx, mut hx, mut ly, mut hy) = (0, 0, 0, 0);
    let visible = normalize_triangle(
        40, 40, -10, 10, 50, 20, 30, 60, &mut lx, &mut hx, &mut ly, &mut hy,
    );
    assert!(visible);
    assert_eq!((lx, hx, ly, hy), (0, 39, 10, 39));
}

#[test]
fn normalize_triangle_rejects_a_triangle_outside_the_canvas() {
    let (mut lx, mut hx, mut ly, mut hy) = (0, 0, 0, 0);
    let visible = normalize_triangle(
        100, 100, -10, 10, -50, 20, -30, 60, &mut lx, &mut hx, &mut ly, &mut hy,
    );
    assert!(!visible);
}

#[test]
fn normalize_triangle_rejects_an_empty_canvas() {
    let (mut lx, mut hx, mut ly, mut hy) = (0, 0, 0, 0);
    let visible = normalize_triangle(
        0, 0, 10, 10, 50, 20, 30, 60, &mut lx, &mut hx, &mut ly, &mut hy,
    );
    assert!(!visible);
}

#[test]
fn barycentric_finds_a_point_inside() {
    let (mut u1, mut u2, mut det) = (0, 0, 0);
    let inside = barycentric(0, 0, 10, 0, 0, 10, 2, 2, &mut u1, &mut u2, &mut det);
    assert!(inside);
    assert_eq!(det, 100);
    assert_eq!(u1, 60);
    assert_eq!(u2, 20);
}

#[test]
fn barycentric_rejects_a_point_outside() {
    let (mut u1, mut u2, mut det) = (0, 0, 0);
    let inside = barycentric(0, 0, 10, 0, 0, 10, 20, 20, &mut u1, &mut u2, &mut det);
    assert!(!inside);
}

#[test]
fn barycentric_accepts_a_corner() {
    let (mut u1, mut u2, mut det) = (0, 0, 0);
    let inside = barycentric(0, 0, 10, 0, 0, 10, 0, 0, &mut u1, &mut u2, &mut det);
    assert!(inside);
    assert_eq!(u1, det);
    assert_eq!(u2, 0);
}
