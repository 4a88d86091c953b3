use thermal_printer::{Image, Pixel};

fn dark() -> Pixel {
    Pixel::new(0, 0, 0, 255)
}

fn light() -> Pixel {
    Pixel::new(255, 255, 255, 255)
}

fn transparent() -> Pixel {
    Pixel::new(0, 0, 0, 0)
}

#[test]
fn pixel_accessors_return_channels() {
    let p = Pixel::new(1, 2, 3, 4);
    assert_eq!(p.red(), 1);
    assert_eq!(p.green(), 2);
    assert_eq!(p.blue(), 3);
    assert_eq!(p.alpha(), 4);
}

#[test]
fn luminance_threshold_classifies_pixels() {
    // fully transparent never prints, whatever the colour
    assert!(!Pixel::new(0, 0, 0, 0).is_gray());
    // opaque black prints
    assert!(Pixel::new(0, 0, 0, 255).is_gray());
    // opaque white does not
    assert!(!Pixel::new(255, 255, 255, 255).is_gray());
    // average 229 is dark, average 230 is not
    assert!(Pixel::new(229, 229, 229, 1).is_gray());
    assert!(!Pixel::new(230, 230, 230, 1).is_gray());
}

#[test]
fn single_black_pixel_rasters_to_0x80() {
    let img = Image::new(vec![dark()], 1, 1);
    assert_eq!(img.to_raster(), vec![0x80]);
}

#[test]
fn single_transparent_pixel_rasters_to_0x00() {
    let img = Image::new(vec![transparent()], 1, 1);
    assert_eq!(img.to_raster(), vec![0x00]);
}

#[test]
fn row_is_padded_to_whole_bytes_with_light_bits() {
    // width 10: two bytes per row; the last six bits of the second byte are 0
    let pixels = vec![dark(); 10];
    let img = Image::new(pixels, 10, 1);
    assert_eq!(img.to_raster(), vec![0xff, 0xc0]);
}

#[test]
fn raster_bytes_per_row_is_width_ceiled_by_eight() {
    for (width, per_row) in [(1u16, 1usize), (7, 1), (8, 1), (9, 2), (16, 2), (17, 3)] {
        let pixels = vec![light(); width as usize * 2];
        let img = Image::new(pixels, width, 2);
        assert_eq!(img.to_raster().len(), per_row * 2);
    }
}

#[test]
fn raster_is_row_major_msb_first() {
    // 3x2: row one dark-light-dark, row two light-dark-light
    let pixels = vec![dark(), light(), dark(), light(), dark(), light()];
    let img = Image::new(pixels, 3, 2);
    assert_eq!(img.to_raster(), vec![0b1010_0000, 0b0100_0000]);
}

#[test]
fn zero_sized_buffer_rasters_to_nothing() {
    let none: Vec<Pixel> = Vec::new();
    assert_eq!(Image::new(none.clone(), 0, 0).to_raster(), Vec::<u8>::new());
    assert_eq!(Image::new(none.clone(), 0, 5).to_raster(), Vec::<u8>::new());
    assert_eq!(Image::new(none, 7, 0).to_raster(), Vec::<u8>::new());
}

#[test]
fn raster_conversion_is_pure() {
    let pixels = vec![dark(), light(), light(), dark()];
    let img = Image::new(pixels, 2, 2);
    assert_eq!(img.to_raster(), img.to_raster());
}

#[test]
fn get_pixels_splits_rows() {
    let pixels = vec![
        Pixel::new(1, 0, 0, 255),
        Pixel::new(2, 0, 0, 255),
        Pixel::new(3, 0, 0, 255),
        Pixel::new(4, 0, 0, 255),
    ];
    let img = Image::new(pixels, 2, 2);
    assert_eq!(img.width(), 2);
    assert_eq!(img.height(), 2);
    let rows = img.get_pixels();
    assert_eq!(rows.len(), 2);
    assert_eq!(rows[0].len(), 2);
    assert_eq!(rows[1].len(), 2);
    assert_eq!(rows[0][0].red(), 1);
    assert_eq!(rows[0][1].red(), 2);
    assert_eq!(rows[1][0].red(), 3);
    assert_eq!(rows[1][1].red(), 4);
}
