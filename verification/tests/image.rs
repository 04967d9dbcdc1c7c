use ironrdp::graphics::image_processing::PixelFormat;
use ironrdp::session::image::DecodedImage;
use rdp_client::image::{can_be_allocated, copy_region, pack_rows, Region};

fn region(left: u16, top: u16, right: u16, bottom: u16) -> Region {
    Region { left, top, right, bottom }
}

#[test]
fn rows_are_packed() {
    let data: Vec<u8> = (0..40).collect();
    assert_eq!(pack_rows(&data, 16, 1, 3), vec![0, 1, 2, 3, 16, 17, 18, 19, 32, 33, 34, 35]);
}

#[test]
fn a_row_that_ends_outside_the_data_is_left_out() {
    let data: Vec<u8> = (0..34).collect();
    assert_eq!(pack_rows(&data, 16, 1, 3), vec![0, 1, 2, 3, 16, 17, 18, 19]);
    assert_eq!(pack_rows(&data, 16, 9, 1), Vec::from(&data[..0]));
}

#[test]
fn no_rows_and_no_columns_pack_to_nothing() {
    let data: Vec<u8> = (0..16).collect();
    assert!(pack_rows(&data, 8, 1, 0).is_empty());
    assert!(pack_rows(&data, 8, 0, 2).is_empty());
    assert!(pack_rows(&[], 8, 1, 2).is_empty());
}

#[test]
fn rows_without_a_gap_stay_as_they_are() {
    let data: Vec<u8> = (0..24).collect();
    assert_eq!(pack_rows(&data, 8, 2, 3), data);
}

#[test]
fn a_region_counts_its_last_row_and_column() {
    let r = region(3, 4, 5, 9);
    assert_eq!(r.width(), 3);
    assert_eq!(r.height(), 6);
    let dot = region(7, 7, 7, 7);
    assert_eq!(dot.width(), 1);
    assert_eq!(dot.height(), 1);
}

#[test]
fn a_region_fits_up_to_the_edges() {
    let image = DecodedImage::new(PixelFormat::RgbA32, 8, 4);
    assert!(region(0, 0, 7, 3).fits(&image));
    assert!(region(7, 3, 7, 3).fits(&image));
    assert!(!region(0, 0, 8, 3).fits(&image));
    assert!(!region(0, 0, 7, 4).fits(&image));
    assert!(!region(2, 0, 1, 0).fits(&image));
    assert!(!region(0, 2, 0, 1).fits(&image));
    assert!(!region(0, 0, 65535, 0).fits(&image));
    assert!(!region(0, 0, 0, 65535).fits(&image));
    assert!(!region(65535, 65535, 65535, 65535).fits(&image));
}

#[test]
fn a_desktop_can_be_allocated() {
    assert!(can_be_allocated(0, 0));
    assert!(can_be_allocated(1920, 1080));
    assert_eq!(can_be_allocated(65535, 65535), usize::BITS == 64);
}

#[test]
fn a_copied_region_has_four_bytes_per_pixel() {
    let image = DecodedImage::new(PixelFormat::RgbA32, 8, 4);
    assert_eq!(copy_region(&image, &region(1, 1, 3, 2)), vec![0; 3 * 2 * 4]);
    assert_eq!(copy_region(&image, &region(0, 0, 7, 3)).len(), 8 * 4 * 4);
}
