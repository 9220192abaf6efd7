use pixel_undo::image::CanvasError;
use pixel_undo::image::Image;
use pixel_undo::image::RGB;

fn white() -> RGB {
    RGB { r: 255, g: 255, b: 255 }
}

#[test]
fn canvas_starts_white() {
    let img = Image::new(2, 2).unwrap();
    assert_eq!(img.width(), 2);
    assert_eq!(img.height(), 2);
    assert_eq!(img.cells(), vec![255u8; 12]);
}

#[test]
fn new_rejects_zero_width() {
    assert_eq!(Image::new(0, 5).unwrap_err(), CanvasError::InvalidDimensions);
}

#[test]
fn new_rejects_zero_height() {
    assert_eq!(Image::new(5, 0).unwrap_err(), CanvasError::InvalidDimensions);
}

#[test]
fn brush_same_color_is_unchanged() {
    let img = Image::new(3, 2).unwrap();
    let outcome = img.brush(1, 1, white()).unwrap();
    assert!(outcome.is_none());
    assert_eq!(img.cells(), vec![255u8; 18]);
}

#[test]
fn brush_changes_one_cell_and_keeps_receiver() {
    let img = Image::new(3, 2).unwrap();
    let red = RGB { r: 255, g: 0, b: 0 };
    let painted = img.brush(1, 0, red).unwrap().unwrap();

    let mut expected = vec![255u8; 18];
    // cell (1, 0) sits at row-major index 1, bytes 3..6
    expected[4] = 0;
    expected[5] = 0;
    assert_eq!(painted.cells(), expected);
    assert_eq!(painted.width(), 3);
    assert_eq!(painted.height(), 2);

    // the receiver is an immutable snapshot: still all white
    assert_eq!(img.cells(), vec![255u8; 18]);
}

#[test]
fn brush_row_major_indexing() {
    let img = Image::new(3, 2).unwrap();
    let blue = RGB { r: 0, g: 0, b: 255 };
    let painted = img.brush(0, 1, blue).unwrap().unwrap();

    let mut expected = vec![255u8; 18];
    // cell (0, 1) sits at row-major index 3, bytes 9..12
    expected[9] = 0;
    expected[10] = 0;
    assert_eq!(painted.cells(), expected);
}

#[test]
fn brush_out_of_bounds_is_rejected() {
    let img = Image::new(3, 2).unwrap();
    let red = RGB { r: 255, g: 0, b: 0 };
    assert_eq!(img.brush(3, 0, red).unwrap_err(), CanvasError::OutOfBounds);
    assert_eq!(img.brush(0, 2, red).unwrap_err(), CanvasError::OutOfBounds);
    assert_eq!(img.cells(), vec![255u8; 18]);
}

#[test]
fn clone_copies_the_grid() {
    let img = Image::new(2, 1).unwrap();
    let green = RGB { r: 0, g: 255, b: 0 };
    let painted = img.brush(0, 0, green).unwrap().unwrap();
    let copy = painted.clone();
    assert_eq!(copy.width(), 2);
    assert_eq!(copy.height(), 1);
    assert_eq!(copy.cells(), painted.cells());
}
