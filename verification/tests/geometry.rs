use score_ocr::geometry::{scale_rect, PixelRect, Rectangle, REFERENCE_HEIGHT, REFERENCE_WIDTH};

#[test]
fn reference_size_changes_nothing() {
    let rect = Rectangle { x: 914, y: 371, width: 98, height: 19 };
    assert_eq!(
        scale_rect(rect, REFERENCE_WIDTH, REFERENCE_HEIGHT),
        PixelRect { x: 914, y: 371, width: 98, height: 19 }
    );
    let whole = Rectangle { x: 0, y: 0, width: 1920, height: 1080 };
    assert_eq!(
        scale_rect(whole, 1920, 1080),
        PixelRect { x: 0, y: 0, width: 1920, height: 1080 }
    );
}

#[test]
fn axes_are_scaled_apart() {
    let rect = Rectangle { x: 960, y: 540, width: 192, height: 108 };
    assert_eq!(
        scale_rect(rect, 3840, 1080),
        PixelRect { x: 1920, y: 540, width: 384, height: 108 }
    );
    assert_eq!(
        scale_rect(rect, 1920, 2160),
        PixelRect { x: 960, y: 1080, width: 192, height: 216 }
    );
}

#[test]
fn scaling_rounds_down() {
    let rect = Rectangle { x: 914, y: 371, width: 98, height: 19 };
    assert_eq!(
        scale_rect(rect, 1280, 720),
        PixelRect { x: 609, y: 247, width: 65, height: 12 }
    );
}

#[test]
fn tiny_images_give_empty_rectangles() {
    let rect = Rectangle { x: 914, y: 371, width: 98, height: 19 };
    assert_eq!(
        scale_rect(rect, 10, 10),
        PixelRect { x: 4, y: 3, width: 0, height: 0 }
    );
    assert_eq!(
        scale_rect(rect, 0, 0),
        PixelRect { x: 0, y: 0, width: 0, height: 0 }
    );
}

#[test]
fn huge_sizes_do_not_wrap() {
    let rect = Rectangle { x: u32::MAX, y: u32::MAX, width: 1920, height: 1080 };
    assert_eq!(
        scale_rect(rect, u32::MAX, u32::MAX),
        PixelRect {
            x: 9607679200583133,
            y: 17080318578814460,
            width: 4294967295,
            height: 4294967295,
        }
    );
}
