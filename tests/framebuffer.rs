use refractor::framebuffer::Framebuffer;

#[test]
fn new_buffer_is_black() {
    let fb = Framebuffer::new(4, 3);
    assert_eq!(fb.width(), 4);
    assert_eq!(fb.height(), 3);
    assert_eq!(fb.buffer().len(), 12);
    assert!(fb.buffer().iter().all(|p| *p == 0));
    assert_eq!(fb.current_color(), 0xFFFFFF);
}

#[test]
fn empty_buffer() {
    let fb = Framebuffer::new(0, 5);
    assert_eq!(fb.buffer().len(), 0);
}

#[test]
fn point_sets_row_major_pixel() {
    let mut fb = Framebuffer::new(4, 3);
    fb.set_current_color(0x123456);
    fb.point(2, 1);
    for (i, p) in fb.buffer().iter().enumerate() {
        if i == 6 {
            assert_eq!(*p, 0x123456);
        } else {
            assert_eq!(*p, 0);
        }
    }
}

#[test]
fn point_at_last_pixel() {
    let mut fb = Framebuffer::new(4, 3);
    fb.set_current_color(7);
    fb.point(3, 2);
    assert_eq!(fb.buffer()[11], 7);
}

#[test]
fn point_outside_is_ignored() {
    let mut fb = Framebuffer::new(4, 3);
    fb.set_current_color(7);
    fb.point(4, 0);
    fb.point(0, 3);
    assert!(fb.buffer().iter().all(|p| *p == 0));
}

#[test]
fn clear_paints_background() {
    let mut fb = Framebuffer::new(3, 2);
    fb.point(1, 1);
    fb.set_background_color(0x00FF00);
    fb.clear();
    assert!(fb.buffer().iter().all(|p| *p == 0x00FF00));
    assert_eq!(fb.current_color(), 0xFFFFFF);
}
