use olivec::{rgba, Canvas};

#[test]
fn new_canvas_is_zeroed() {
    let c = Canvas::new(10, 10);
    assert_eq!(c.get_width(), 10);
    assert_eq!(c.get_height(), 10);
    let data = c.get_data();
    assert_eq!(data.len(), 400);
    assert!(data.iter().all(|&b| b == 0));
}

#[test]
fn from_buffer_rejects_an_undersized_buffer() {
    assert!(Canvas::from_buffer(vec![0; 99], 10, 10).is_none());
    assert!(Canvas::from_buffer(vec![0; 0], 1, 1).is_none());
}

#[test]
fn from_buffer_accepts_a_buffer_of_exactly_the_right_size() {
    let c = Canvas::from_buffer(vec![7; 100], 10, 10).unwrap();
    assert_eq!(c.get_width(), 10);
    assert_eq!(c.get_height(), 10);
}

#[test]
fn from_buffer_accepts_a_larger_buffer() {
    assert!(Canvas::from_buffer(vec![0; 150], 10, 10).is_some());
}

#[test]
fn from_buffer_keeps_the_pixels() {
    let c = Canvas::from_buffer(vec![0x04030201; 4], 2, 2).unwrap();
    let data = c.get_data();
    assert_eq!(&data[0..4], &[1, 2, 3, 4]);
    assert_eq!(&data[12..16], &[1, 2, 3, 4]);
}

#[test]
fn set_pixel_writes_inside_the_canvas() {
    let mut c = Canvas::new(100, 100);
    c.set_pixel(20, 20, rgba(69, 69, 69, 255));
    let data = c.get_data();
    let at = (20 * 100 + 20) * 4;
    assert_eq!(&data[at..at + 4], &[69, 69, 69, 255]);
}

#[test]
fn set_pixel_outside_the_canvas_is_a_no_op() {
    let mut c = Canvas::new(10, 10);
    c.set_pixel(-1, 5, 0xFFFFFFFF);
    c.set_pixel(5, -1, 0xFFFFFFFF);
    c.set_pixel(10, 5, 0xFFFFFFFF);
    c.set_pixel(5, 10, 0xFFFFFFFF);
    c.set_pixel(i32::MIN, i32::MAX, 0xFFFFFFFF);
    assert!(c.get_data().iter().all(|&b| b == 0));
}

#[test]
fn set_pixel_writes_the_left_and_top_border() {
    let mut c = Canvas::new(10, 10);
    c.set_pixel(0, 5, 0x04030201);
    c.set_pixel(5, 0, 0x04030201);
    c.set_pixel(0, 0, 0x04030201);
    let data = c.get_data();
    for at in [(5 * 10) * 4, 5 * 4, 0] {
        assert_eq!(&data[at..at + 4], &[1, 2, 3, 4]);
    }
}

#[test]
fn set_view_pixel_writes_through_the_view() {
    let mut c = Canvas::new(10, 10);
    let view = c.subcanvas(2, 3, 4, 4).unwrap();
    c.set_view_pixel(&view, 1, 2, 0x04030201);
    c.set_view_pixel(&view, 0, 0, 0x08070605);
    let data = c.get_data();
    // the view starts at pixel (2, 3), so (1, 2) in the view is (3, 5)
    let at = (5 * 10 + 3) * 4;
    assert_eq!(&data[at..at + 4], &[1, 2, 3, 4]);
    let origin = (3 * 10 + 2) * 4;
    assert_eq!(&data[origin..origin + 4], &[5, 6, 7, 8]);
}

#[test]
fn set_view_pixel_outside_the_view_is_a_no_op() {
    let mut c = Canvas::new(10, 10);
    let view = c.subcanvas(2, 3, 4, 4).unwrap();
    c.set_view_pixel(&view, -1, 0, 0xFFFFFFFF);
    c.set_view_pixel(&view, 0, -1, 0xFFFFFFFF);
    c.set_view_pixel(&view, 4, 0, 0xFFFFFFFF);
    c.set_view_pixel(&view, 0, 4, 0xFFFFFFFF);
    assert!(c.get_data().iter().all(|&b| b == 0));
}

#[test]
fn canvas_normalize_rect_uses_the_canvas_size() {
    let c = Canvas::new(100, 100);
    let nr = c.normalize_rect(20, 30, 90, 80).unwrap();
    assert_eq!((nr.x1, nr.x2, nr.y1, nr.y2), (20, 99, 30, 99));
    assert!(c.normalize_rect(-10, -10, 5, 5).is_none());
}

#[test]
fn subcanvas_takes_an_inner_region() {
    let c = Canvas::new(100, 100);
    let sc = c.subcanvas(10, 10, 20, 30).unwrap();
    assert_eq!(sc.get_width(), 20);
    assert_eq!(sc.get_height(), 30);
}

#[test]
fn subcanvas_clips_to_the_canvas() {
    let c = Canvas::new(100, 100);
    let sc = c.subcanvas(90, 90, 20, 20).unwrap();
    assert_eq!(sc.get_width(), 10);
    assert_eq!(sc.get_height(), 10);
}

#[test]
fn subcanvas_outside_the_canvas_is_none() {
    let c = Canvas::new(100, 100);
    assert!(c.subcanvas(200, 200, 10, 10).is_none());
    assert!(c.subcanvas(-50, 0, 10, 10).is_none());
    assert!(c.subcanvas(0, 0, 0, 10).is_none());
}

#[test]
fn empty_canvas_has_no_subcanvas() {
    let c = Canvas::new(0, 0);
    assert_eq!(c.get_width(), 0);
    assert_eq!(c.get_data().len(), 0);
    assert!(c.subcanvas(-1, -1, 3, 3).is_none());
}

#[test]
fn subcanvas_of_a_subcanvas_nests() {
    let c = Canvas::new(100, 100);
    let sc = c.subcanvas(10, 10, 50, 50).unwrap();
    let inner = sc.subcanvas(5, 5, 10, 10).unwrap();
    assert_eq!(inner.get_width(), 10);
    assert_eq!(inner.get_height(), 10);
    let clipped = sc.subcanvas(45, 45, 20, 20).unwrap();
    assert_eq!(clipped.get_width(), 5);
    assert_eq!(clipped.get_height(), 5);
    assert!(sc.subcanvas(60, 60, 5, 5).is_none());
}

#[test]
fn subcanvas_normalize_rect_uses_the_region_size() {
    let c = Canvas::new(100, 100);
    let sc = c.subcanvas(10, 10, 20, 20).unwrap();
    let nr = sc.normalize_rect(5, 5, 30, 30).unwrap();
    assert_eq!((nr.x1, nr.x2, nr.y1, nr.y2), (5, 19, 5, 19));
}
