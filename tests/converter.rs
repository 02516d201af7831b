use std::io::Cursor;
use waveshare_rpi::converter::center_on_canvas;
use waveshare_rpi::epd_configs::{epd7in5_v2, EpdConfig};
use waveshare_rpi::{
    image_to_epd, image_to_frame, text_to_epd, ColorMode, ConvertError, CropMode,
    EpdImageOptions, RotationMode, SourceImage,
};

fn panel_8x8() -> EpdConfig {
    EpdConfig { init_commands: vec![], width: 8, height: 8 }
}

fn options_for(config: EpdConfig, crop_mode: CropMode) -> EpdImageOptions {
    let mut options = EpdImageOptions::new();
    options.crop_mode = crop_mode;
    options.load_epd_config(config);
    options
}

fn solid(width: u32, height: u32, rgba: [u8; 4]) -> SourceImage {
    let pixels: Vec<u8> = (0..width * height).flat_map(|_| rgba).collect();
    SourceImage::from_rgba(width, height, pixels).unwrap()
}

fn png_bytes(width: u32, height: u32, rgba: [u8; 4]) -> Vec<u8> {
    let img = image::RgbaImage::from_pixel(width, height, image::Rgba(rgba));
    let mut bytes = Cursor::new(Vec::new());
    image::DynamicImage::ImageRgba8(img).write_to(&mut bytes, image::ImageFormat::Png).unwrap();
    bytes.into_inner()
}

/// A minimal TrueType font with a handful of glyphs.
const TINY_FONT: [u8; 400] = [
    0x00, 0x01, 0x00, 0x00, 0x00, 0x07, 0x00, 0x40, 0x00, 0x02, 0x00, 0x30, 0x63, 0x6d, 0x61, 0x70,
    0x00, 0x09, 0x00, 0x76, 0x00, 0x00, 0x01, 0x00, 0x00, 0x00, 0x00, 0x2c, 0x67, 0x6c, 0x79, 0x66,
    0xf1, 0xcb, 0x66, 0x98, 0x00, 0x00, 0x01, 0x34, 0x00, 0x00, 0x00, 0x5c, 0x68, 0x65, 0x61, 0x64,
    0xf2, 0x35, 0xdd, 0xf8, 0x00, 0x00, 0x00, 0x7c, 0x00, 0x00, 0x00, 0x36, 0x68, 0x68, 0x65, 0x61,
    0x06, 0x61, 0x00, 0xca, 0x00, 0x00, 0x00, 0xb4, 0x00, 0x00, 0x00, 0x24, 0x68, 0x6d, 0x74, 0x78,
    0x04, 0x74, 0x00, 0x6a, 0x00, 0x00, 0x00, 0xf8, 0x00, 0x00, 0x00, 0x08, 0x6c, 0x6f, 0x63, 0x61,
    0x00, 0x2e, 0x00, 0x14, 0x00, 0x00, 0x01, 0x2c, 0x00, 0x00, 0x00, 0x06, 0x6d, 0x61, 0x78, 0x70,
    0x00, 0x05, 0x00, 0x0b, 0x00, 0x00, 0x00, 0xd8, 0x00, 0x00, 0x00, 0x20, 0x00, 0x01, 0x00, 0x00,
    0x00, 0x01, 0x00, 0x00, 0xf5, 0x9c, 0x29, 0x44, 0x5f, 0x0f, 0x3c, 0xf5, 0x00, 0x02, 0x03, 0xe8,
    0x00, 0x00, 0x00, 0x00, 0xb4, 0x92, 0xf4, 0x00, 0x00, 0x00, 0x00, 0x00, 0xdc, 0x2f, 0xa6, 0x5c,
    0x00, 0x06, 0x00, 0x00, 0x02, 0x58, 0x02, 0xbc, 0x00, 0x00, 0x00, 0x03, 0x00, 0x02, 0x00, 0x00,
    0x00, 0x00, 0x00, 0x00, 0x00, 0x01, 0x00, 0x00, 0x04, 0x00, 0xfe, 0x70, 0x00, 0x00, 0x02, 0x58,
    0x00, 0x06, 0xff, 0xff, 0x02, 0x58, 0x00, 0x01, 0x00, 0x00, 0x00, 0x00, 0x00, 0x00, 0x00, 0x00,
    0x00, 0x00, 0x00, 0x00, 0x00, 0x00, 0x00, 0x02, 0x00, 0x01, 0x00, 0x00, 0x00, 0x02, 0x00, 0x0b,
    0x00, 0x02, 0x00, 0x00, 0x00, 0x00, 0x00, 0x00, 0x00, 0x00, 0x00, 0x00, 0x00, 0x00, 0x00, 0x00,
    0x00, 0x00, 0x00, 0x00, 0x00, 0x00, 0x00, 0x00, 0x02, 0x58, 0x00, 0x64, 0x02, 0x1c, 0x00, 0x06,
    0x00, 0x00, 0x00, 0x01, 0x00, 0x00, 0x00, 0x03, 0x00, 0x00, 0x00, 0x0c, 0x00, 0x04, 0x00, 0x20,
    0x00, 0x00, 0x00, 0x04, 0x00, 0x04, 0x00, 0x01, 0x00, 0x00, 0x00, 0x41, 0xff, 0xff, 0x00, 0x00,
    0x00, 0x41, 0xff, 0xff, 0xff, 0xc0, 0x00, 0x01, 0x00, 0x00, 0x00, 0x00, 0x00, 0x00, 0x00, 0x14,
    0x00, 0x2e, 0x00, 0x00, 0x00, 0x02, 0x00, 0x64, 0x00, 0x00, 0x02, 0x58, 0x02, 0xbc, 0x00, 0x03,
    0x00, 0x07, 0x00, 0x00, 0x33, 0x11, 0x21, 0x11, 0x25, 0x21, 0x11, 0x21, 0x64, 0x01, 0xf4, 0xfe,
    0x34, 0x01, 0xa4, 0xfe, 0x5c, 0x02, 0xbc, 0xfd, 0x44, 0x28, 0x02, 0x6c, 0x00, 0x02, 0x00, 0x06,
    0x00, 0x00, 0x02, 0x1d, 0x02, 0x90, 0x00, 0x02, 0x00, 0x0a, 0x00, 0x00, 0x13, 0x33, 0x03, 0x01,
    0x13, 0x33, 0x13, 0x23, 0x27, 0x23, 0x07, 0xad, 0xc4, 0x63, 0xfe, 0xf8, 0xda, 0x60, 0xdd, 0x59,
    0x3e, 0xef, 0x42, 0x01, 0x0b, 0x01, 0x40, 0xfd, 0xb5, 0x02, 0x90, 0xfd, 0x70, 0xc8, 0xc8, 0x00,
];

const WHITE: [u8; 4] = [255, 255, 255, 255];
const BLACK: [u8; 4] = [0, 0, 0, 255];

#[test]
fn white_image_gives_all_ones() {
    let options = options_for(panel_8x8(), CropMode::Center);
    let frame = image_to_frame(solid(8, 8, WHITE), options).unwrap();
    assert_eq!(frame, vec![0xFF; 8]);
}

#[test]
fn black_image_gives_all_zeros() {
    let options = options_for(panel_8x8(), CropMode::Center);
    let frame = image_to_frame(solid(8, 8, BLACK), options).unwrap();
    assert_eq!(frame, vec![0x00; 8]);
}

#[test]
fn encoded_white_and_black_images_convert() {
    let options = options_for(panel_8x8(), CropMode::Center);
    assert_eq!(image_to_epd(&png_bytes(8, 8, WHITE), options).unwrap(), vec![0xFF; 8]);
    assert_eq!(image_to_epd(&png_bytes(8, 8, BLACK), options).unwrap(), vec![0x00; 8]);
}

#[test]
fn frame_length_matches_panel_in_both_modes() {
    let config = epd7in5_v2::epd_config();
    for mode in [CropMode::Center, CropMode::CropToFit] {
        let options = options_for(config.clone(), mode);
        for (w, h) in [(30u32, 50u32), (50, 30), (64, 64), (3, 90)] {
            let frame = image_to_frame(solid(w, h, WHITE), options).unwrap();
            assert_eq!(frame.len(), 800 * 480 / 8);
        }
    }
}

#[test]
fn crop_to_fit_covers_the_panel() {
    let options = options_for(panel_8x8(), CropMode::CropToFit);
    let frame = image_to_frame(solid(40, 16, BLACK), options).unwrap();
    assert_eq!(frame, vec![0x00; 8]);
}

#[test]
fn center_pads_a_narrow_picture_with_white() {
    // A black 4x8 portrait picture on an 8x8 panel: no rotation, resized to
    // 4x8 and centred with two white columns on each side.
    let mut options = options_for(panel_8x8(), CropMode::Center);
    options.rotation_mode = RotationMode::Automatic;
    let frame = image_to_frame(solid(4, 8, BLACK), options).unwrap();
    assert_eq!(frame, vec![0b1100_0011; 8]);
}

#[test]
fn center_on_canvas_balances_margins() {
    let img = vec![0u8; 3 * 2];
    let canvas = center_on_canvas(&img, 3, 2, 8, 2);
    let row: Vec<u8> = canvas[..8].to_vec();
    assert_eq!(row, vec![255, 255, 0, 0, 0, 255, 255, 255]);
    let img = vec![0u8; 4 * 1];
    let canvas = center_on_canvas(&img, 4, 1, 4, 4);
    assert_eq!(canvas[4..8].to_vec(), vec![0, 0, 0, 0]);
    assert!(canvas[..4].iter().chain(canvas[8..].iter()).all(|p| *p == 255));
}

#[test]
fn automatic_rotation_turns_portrait_image_on_landscape_panel() {
    let options = options_for(epd7in5_v2::epd_config(), CropMode::Center);
    assert!(options.check_rotation(480, 800));
    assert!(!options.check_rotation(800, 480));
    assert!(!options.check_rotation(100, 100));
}

#[test]
fn forced_rotation_modes() {
    let mut options = options_for(panel_8x8(), CropMode::Center);
    options.rotation_mode = RotationMode::ForceLandscape;
    assert!(options.check_rotation(4, 8));
    assert!(!options.check_rotation(8, 4));
    options.rotation_mode = RotationMode::ForcePortrait;
    assert!(options.check_rotation(8, 4));
    assert!(!options.check_rotation(4, 8));
}

#[test]
fn rotation_turns_the_picture_clockwise() {
    // 16x8 source whose left half is black and right half white, on an 8x16
    // portrait panel: turned clockwise, the black half ends on top.
    let config = EpdConfig { init_commands: vec![], width: 8, height: 16 };
    let options = options_for(config, CropMode::Center);
    let mut pixels = Vec::new();
    for _y in 0..8 {
        for x in 0..16 {
            pixels.extend_from_slice(if x < 8 { &BLACK } else { &WHITE });
        }
    }
    let source = SourceImage::from_rgba(16, 8, pixels).unwrap();
    let frame = image_to_frame(source, options).unwrap();
    assert_eq!(frame.len(), 16);
    assert_eq!(frame[..8].to_vec(), vec![0x00; 8]);
    assert_eq!(frame[8..].to_vec(), vec![0xFF; 8]);
}

#[test]
fn downscaling_fits_the_panel() {
    let options = options_for(panel_8x8(), CropMode::Center);
    let frame = image_to_frame(solid(32, 32, BLACK), options).unwrap();
    assert_eq!(frame, vec![0x00; 8]);
}

#[test]
fn color_is_reduced_to_luma_before_dithering() {
    // Pure red has luma 54 and pure green luma 182: error diffusion leaves
    // about a fifth of the red pixels white and about seven tenths of the
    // green ones.
    let options = options_for(panel_8x8(), CropMode::Center);
    let ones = |frame: Vec<u8>| -> u32 { frame.iter().map(|b| b.count_ones()).sum() };
    let red = ones(image_to_frame(solid(8, 8, [255, 0, 0, 255]), options).unwrap());
    let green = ones(image_to_frame(solid(8, 8, [0, 255, 0, 255]), options).unwrap());
    assert!(red > 4 && red < 24, "red gave {} white pixels", red);
    assert!(green > 36 && green < 56, "green gave {} white pixels", green);
}

#[test]
fn mid_gray_dithers_to_a_mix() {
    let options = options_for(panel_8x8(), CropMode::Center);
    let frame = image_to_frame(solid(8, 8, [128, 128, 128, 255]), options).unwrap();
    let ones: u32 = frame.iter().map(|b| b.count_ones()).sum();
    assert!(ones > 16 && ones < 48);
}

#[test]
fn zero_panel_size_is_invalid() {
    let mut options = EpdImageOptions::new();
    assert_eq!(image_to_frame(solid(8, 8, WHITE), options), Err(ConvertError::InvalidDimensions));
    options.epd_width = 8;
    assert_eq!(image_to_epd(&png_bytes(8, 8, WHITE), options), Err(ConvertError::InvalidDimensions));
    options.epd_height = u32::MAX as usize + 1;
    assert_eq!(image_to_frame(solid(8, 8, WHITE), options), Err(ConvertError::InvalidDimensions));
}

#[test]
fn undecodable_bytes_fail_to_load() {
    let options = options_for(panel_8x8(), CropMode::Center);
    assert_eq!(image_to_epd(b"not an image", options), Err(ConvertError::SourceLoad));
}

#[test]
fn single_pixel_wide_panel_cannot_be_dithered() {
    let config = EpdConfig { init_commands: vec![], width: 1, height: 8 };
    let options = options_for(config.clone(), CropMode::CropToFit);
    assert_eq!(image_to_frame(solid(4, 4, WHITE), options), Err(ConvertError::TooNarrow));
    let options = options_for(config, CropMode::Center);
    assert_eq!(image_to_frame(solid(4, 4, WHITE), options), Err(ConvertError::TooNarrow));
}

#[test]
fn source_image_checks_its_shape() {
    assert!(SourceImage::from_rgba(2, 2, vec![0; 16]).is_some());
    assert!(SourceImage::from_rgba(2, 2, vec![0; 15]).is_none());
    assert!(SourceImage::from_rgba(0, 2, vec![]).is_none());
    let img = SourceImage::from_rgba(3, 1, vec![0; 12]).unwrap();
    assert_eq!((img.width(), img.height()), (3, 1));
}

#[test]
fn options_default_and_loaded() {
    let options = EpdImageOptions::new();
    assert_eq!(options, EpdImageOptions::default());
    assert_eq!(options.crop_mode, CropMode::Center);
    assert_eq!(options.rotation_mode, RotationMode::Automatic);
    assert_eq!(options.color_mode, ColorMode::BlackWhite);
    assert_eq!((options.epd_width, options.epd_height), (0, 0));
    let mut loaded = options;
    loaded.load_epd_config(epd7in5_v2::epd_config());
    assert_eq!((loaded.epd_width, loaded.epd_height), (800, 480));
}

#[test]
fn black_white_red_converts_like_black_white() {
    let mut options = options_for(panel_8x8(), CropMode::Center);
    options.color_mode = ColorMode::BlackWhiteRed;
    assert_eq!(image_to_frame(solid(8, 8, BLACK), options).unwrap(), vec![0x00; 8]);
}

#[test]
fn text_with_unreadable_font_fails() {
    assert_eq!(text_to_epd("hi", b"no font", 24, 16, 16), Err(ConvertError::FontLoad));
}

#[test]
fn text_on_zero_sized_canvas_is_invalid() {
    assert_eq!(text_to_epd("hi", b"no font", 24, 0, 16), Err(ConvertError::InvalidDimensions));
}

#[test]
fn wide_panorama_converts() {
    for mode in [CropMode::Center, CropMode::CropToFit] {
        let options = options_for(panel_8x8(), mode);
        let frame = image_to_frame(solid(20000, 20, BLACK), options).unwrap();
        assert_eq!(frame.len(), 8);
    }
}

#[test]
fn empty_text_leaves_the_canvas_white() {
    assert_eq!(text_to_epd("", &TINY_FONT, 24, 8, 8), Ok(vec![0xFF; 8]));
}

#[test]
fn text_frame_has_the_canvas_size() {
    let frame = text_to_epd("A", &TINY_FONT, 24, 32, 32).unwrap();
    assert_eq!(frame.len(), 32 * 32 / 8);
}

#[test]
fn text_canvas_too_large_is_invalid() {
    assert_eq!(
        text_to_epd("", &TINY_FONT, 24, 70000, 70000),
        Err(ConvertError::InvalidDimensions)
    );
}
