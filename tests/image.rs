use drawmetry::{CircleImage, PngImage};

#[test]
fn faded_marker_quarters_alpha_only() {
    let normal = PngImage {
        width: 2,
        height: 1,
        data: vec![10, 20, 30, 255, 1, 2, 3, 7],
    };
    let img = CircleImage::new(normal);
    assert_eq!(img.normal.data, vec![10, 20, 30, 255, 1, 2, 3, 7]);
    assert_eq!(img.transparent.data, vec![10, 20, 30, 63, 1, 2, 3, 1]);
    assert_eq!((img.transparent.width, img.transparent.height), (2, 1));
}

#[test]
fn partial_pixel_is_left_alone() {
    let normal = PngImage {
        width: 1,
        height: 1,
        data: vec![0, 0, 0, 200, 9, 9, 9],
    };
    let img = CircleImage::new(normal);
    assert_eq!(img.transparent.data, vec![0, 0, 0, 50, 9, 9, 9]);
}
