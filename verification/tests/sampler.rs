use screen_color_picker::color::SampledColor;
use screen_color_picker::sampler::{
    sample, CaptureError, PreviewBuffer, RgbaBuffer, PREVIEW_HEIGHT, PREVIEW_WIDTH,
};

/// A grid in which every pixel tells its own column and row.
fn coordinate_grid(width: u32, height: u32) -> RgbaBuffer {
    let mut pixels = Vec::new();
    for y in 0..height {
        for x in 0..width {
            pixels.push(x as u8);
            pixels.push(y as u8);
            pixels.push((x + y) as u8);
            pixels.push(255);
        }
    }
    RgbaBuffer { width, height, pixels }
}

fn preview_pixel(preview: &PreviewBuffer, x: u32, y: u32) -> SampledColor {
    let at = 4 * (y * preview.width + x) as usize;
    SampledColor {
        red: preview.pixels[at],
        green: preview.pixels[at + 1],
        blue: preview.pixels[at + 2],
        alpha: preview.pixels[at + 3],
    }
}

#[test]
fn preview_size_is_ninety_by_ninety() {
    assert_eq!((PREVIEW_WIDTH, PREVIEW_HEIGHT), (90, 90));
}

#[test]
fn centre_of_the_magnified_grid_is_source_pixel_15_15() {
    let source = coordinate_grid(30, 30);
    let expected = source.pixel(15, 15).unwrap();
    let (preview, color) = sample(Some(source)).unwrap();
    assert_eq!(color, expected);
    assert_eq!(color, SampledColor { red: 15, green: 15, blue: 30, alpha: 255 });
    assert_eq!(preview_pixel(&preview, 45, 45), color);
    assert_eq!(preview.center(), color);
}

#[test]
fn magnified_grid_has_the_preview_size() {
    let (preview, _) = sample(Some(coordinate_grid(30, 30))).unwrap();
    assert_eq!(preview.width, 90);
    assert_eq!(preview.height, 90);
    assert_eq!(preview.pixels.len(), 4 * 90 * 90);
}

#[test]
fn every_preview_pixel_is_the_source_pixel_it_magnifies() {
    let source = coordinate_grid(30, 30);
    let (preview, _) = sample(Some(source.clone())).unwrap();
    for y in 0..90 {
        for x in 0..90 {
            assert_eq!(
                Some(preview_pixel(&preview, x, y)),
                source.pixel(x / 3, y / 3)
            );
        }
    }
}

#[test]
fn neighbouring_colours_are_not_blended() {
    let mut pixels = Vec::new();
    for y in 0..30u32 {
        for x in 0..30u32 {
            let value = if (x + y) % 2 == 0 { 0 } else { 255 };
            pixels.push(value);
            pixels.push(value);
            pixels.push(value);
            pixels.push(255);
        }
    }
    let (preview, color) = sample(Some(RgbaBuffer { width: 30, height: 30, pixels })).unwrap();
    assert_eq!(color, SampledColor { red: 0, green: 0, blue: 0, alpha: 255 });
    for channel in preview.pixels.iter() {
        assert!(*channel == 0 || *channel == 255);
    }
}

#[test]
fn a_capture_of_another_size_is_magnified_too() {
    let source = coordinate_grid(60, 60);
    let (preview, color) = sample(Some(source.clone())).unwrap();
    assert_eq!(preview.pixels.len(), 4 * 90 * 90);
    assert_eq!(Some(color), source.pixel(30, 30));
}

#[test]
fn a_capture_of_the_preview_size_is_kept_as_it_is() {
    let source = coordinate_grid(90, 90);
    let (preview, color) = sample(Some(source.clone())).unwrap();
    assert_eq!(preview.pixels, source.pixels);
    assert_eq!(Some(color), source.pixel(45, 45));
}

#[test]
fn a_single_pixel_fills_the_preview() {
    let source = RgbaBuffer { width: 1, height: 1, pixels: vec![9, 8, 7, 6] };
    let (preview, color) = sample(Some(source)).unwrap();
    assert_eq!(color, SampledColor { red: 9, green: 8, blue: 7, alpha: 6 });
    for pixel in preview.pixels.chunks(4) {
        assert_eq!(pixel, [9, 8, 7, 6]);
    }
}

#[test]
fn zero_sized_source_is_an_empty_region() {
    let no_width = RgbaBuffer { width: 0, height: 30, pixels: Vec::new() };
    let no_height = RgbaBuffer { width: 30, height: 0, pixels: Vec::new() };
    let nothing = RgbaBuffer { width: 0, height: 0, pixels: vec![1, 2, 3, 4] };
    assert_eq!(sample(Some(no_width)).err(), Some(CaptureError::EmptyRegion));
    assert_eq!(sample(Some(no_height)).err(), Some(CaptureError::EmptyRegion));
    assert_eq!(sample(Some(nothing)).err(), Some(CaptureError::EmptyRegion));
}

#[test]
fn missing_capture_is_unavailable() {
    assert_eq!(sample(None).err(), Some(CaptureError::CaptureUnavailable));
}

#[test]
fn capture_with_the_wrong_byte_count_is_unavailable() {
    let short = RgbaBuffer { width: 30, height: 30, pixels: vec![0; 4 * 30 * 30 - 1] };
    let long = RgbaBuffer { width: 30, height: 30, pixels: vec![0; 4 * 30 * 30 + 4] };
    let empty = RgbaBuffer { width: 30, height: 30, pixels: Vec::new() };
    assert_eq!(sample(Some(short)).err(), Some(CaptureError::CaptureUnavailable));
    assert_eq!(sample(Some(long)).err(), Some(CaptureError::CaptureUnavailable));
    assert_eq!(sample(Some(empty)).err(), Some(CaptureError::CaptureUnavailable));
}

#[test]
fn pixel_reads_inside_the_grid_only() {
    let grid = coordinate_grid(4, 3);
    assert_eq!(
        grid.pixel(3, 2),
        Some(SampledColor { red: 3, green: 2, blue: 5, alpha: 255 })
    );
    assert_eq!(
        grid.pixel(0, 0),
        Some(SampledColor { red: 0, green: 0, blue: 0, alpha: 255 })
    );
    assert_eq!(grid.pixel(4, 0), None);
    assert_eq!(grid.pixel(0, 3), None);
    let broken = RgbaBuffer { width: 4, height: 3, pixels: vec![0; 47] };
    assert_eq!(broken.pixel(0, 0), None);
}
