use cue_clicker::color::RGB2;
use cue_clicker::distance::{
    inner_calc_color_distance, parse_info_line, sort_u32, RGB2Info, TopList,
};
use cue_clicker::image_data::load_image;
use cue_clicker::palette::{distinct_colors, parse_rgb_line};

#[test]
fn distance_squared_symmetric_nonnegative_zero_on_self() {
    let a = RGB2::new(52, 182, 81);
    let b = RGB2::new(53, 182, 81);
    assert_eq!(a.distance_squared(&b), b.distance_squared(&a));
    assert_eq!(a.distance_squared(&b), 1);
    assert_eq!(a.distance_squared(&a), 0);
    let c = RGB2::new(255, 0, 255);
    let d = RGB2::new(0, 255, 0);
    assert_eq!(c.distance_squared(&d), 3 * 255 * 255);
}

#[test]
fn distinct_colors_keeps_first_occurrence_order() {
    let a = RGB2::new(1, 2, 3);
    let b = RGB2::new(4, 5, 6);
    let c = RGB2::new(7, 8, 9);
    let pixels = vec![a, b, a, c, b, a];
    let distinct = distinct_colors(&pixels);
    assert_eq!(distinct, vec![a, b, c]);
    let empty: Vec<RGB2> = Vec::new();
    assert!(distinct_colors(&empty).is_empty());
}

#[test]
fn parse_rgb_line_accepts_the_list_format() {
    assert_eq!(
        parse_rgb_line(&b"52, 182, 81".to_vec()),
        Some(RGB2::new(52, 182, 81))
    );
    assert_eq!(
        parse_rgb_line(&b"052, 001, 000".to_vec()),
        Some(RGB2::new(52, 1, 0))
    );
    assert_eq!(
        parse_rgb_line(&b"255, 255, 255".to_vec()),
        Some(RGB2::new(255, 255, 255))
    );
}

#[test]
fn parse_rgb_line_rejects_malformed_lines() {
    assert_eq!(parse_rgb_line(&b"".to_vec()), None);
    assert_eq!(parse_rgb_line(&b"52,182,81".to_vec()), None);
    assert_eq!(parse_rgb_line(&b"52, 182".to_vec()), None);
    assert_eq!(parse_rgb_line(&b"52, 182, 81, 7".to_vec()), None);
    assert_eq!(parse_rgb_line(&b"256, 0, 0".to_vec()), None);
    assert_eq!(parse_rgb_line(&b"52, 182, 81 ".to_vec()), None);
    assert_eq!(parse_rgb_line(&b"99999999999999999999, 0, 0".to_vec()), None);
    assert_eq!(parse_rgb_line(&b"a, 0, 0".to_vec()), None);
}

#[test]
fn parse_info_line_reads_a_statistics_row() {
    let line = b"52, 182, 81, 441, 1, 121, 200, 50".to_vec();
    let info = parse_info_line(&line).unwrap();
    assert_eq!(info.inner, RGB2::new(52, 182, 81));
    assert_eq!(info.max, 441);
    assert_eq!(info.min, 1);
    assert_eq!(info.middle, 121);
    assert_eq!(info.middle_10, 200);
    assert_eq!(info.middle_n10, 50);
    assert_eq!(parse_info_line(&b"52, 182, 81, 441, 1, 121, 200".to_vec()), None);
    assert_eq!(
        parse_info_line(&b"52, 182, 81, 441, 1, 121, 200, 4294967296".to_vec()),
        None
    );
}

#[test]
fn sort_u32_orders_values() {
    let v = vec![5u32, 1, 4, 4, 0, 9];
    assert_eq!(sort_u32(&v), vec![0, 1, 4, 4, 5, 9]);
}

#[test]
fn color_statistics_of_a_known_palette() {
    // Palette at distances 1..=21 along the red axis from black: squared
    // distances 1, 4, ..., 441.
    let basic = RGB2::new(0, 0, 0);
    let mut palette = Vec::new();
    for r in 1..=21u8 {
        palette.push(RGB2::new(r, 0, 0));
    }
    let info = inner_calc_color_distance(basic, &palette);
    assert_eq!(info.inner, basic);
    assert_eq!(info.min, 1);
    assert_eq!(info.max, 441);
    // 21 distances: the median is the 11th smallest, 11 * 11.
    assert_eq!(info.middle, 121);
    assert_eq!(info.middle_10, 441);
    assert_eq!(info.middle_n10, 1);
}

#[test]
fn top_list_keeps_the_ten_smallest_medians() {
    let mut top = TopList::new();
    for k in 0..12u32 {
        // Offer medians 12, 11, ..., 1.
        let middle = 12 - k;
        let info = RGB2Info {
            inner: RGB2::new(k as u8, 0, 0),
            max: 100,
            min: 0,
            middle,
            middle_10: 0,
            middle_n10: 0,
        };
        top.push(info);
    }
    let items = top.items();
    assert_eq!(items.len(), 10);
    for (i, info) in items.iter().enumerate() {
        assert_eq!(info.middle, (i + 1) as u32);
    }
}

#[test]
fn top_list_full_replaces_the_largest_median() {
    let mut top = TopList::new();
    for middle in [30u32, 10, 50, 20, 60, 40, 70, 90, 80, 100] {
        top.push(RGB2Info {
            inner: RGB2::new(0, 0, 0),
            max: 0,
            min: 0,
            middle,
            middle_10: 0,
            middle_n10: 0,
        });
    }
    top.push(RGB2Info {
        inner: RGB2::new(1, 1, 1),
        max: 0,
        min: 0,
        middle: 5,
        middle_10: 0,
        middle_n10: 0,
    });
    let medians: Vec<u32> = top.items().iter().map(|i| i.middle).collect();
    assert_eq!(medians, vec![5, 10, 20, 30, 40, 50, 60, 70, 80, 90]);
}

#[test]
fn top_list_full_ignores_a_larger_median() {
    let mut top = TopList::new();
    for middle in 1..=10u32 {
        top.push(RGB2Info {
            inner: RGB2::new(middle as u8, 0, 0),
            max: 0,
            min: 0,
            middle,
            middle_10: 0,
            middle_n10: 0,
        });
    }
    let before: Vec<u32> = top.items().iter().map(|i| i.middle).collect();
    top.push(RGB2Info {
        inner: RGB2::new(99, 0, 0),
        max: 0,
        min: 0,
        middle: 50,
        middle_10: 0,
        middle_n10: 0,
    });
    let after: Vec<u32> = top.items().iter().map(|i| i.middle).collect();
    assert_eq!(before, after);
}

#[test]
fn load_image_decodes_a_png() {
    // Encode a 3 x 2 PNG whose pixels are known, and check the decoder
    // hands back exactly those pixels in row-major order.
    let img = image::RgbImage::from_fn(3, 2, |x, y| image::Rgb([x as u8, y as u8, 7]));
    let mut bytes: Vec<u8> = Vec::new();
    image::DynamicImage::ImageRgb8(img)
        .write_to(&mut std::io::Cursor::new(&mut bytes), image::ImageFormat::Png)
        .unwrap();
    let decoded = load_image(&bytes).unwrap();
    assert_eq!(decoded.width, 3);
    assert_eq!(decoded.height, 2);
    assert_eq!(decoded.pixels.len(), 6);
    for y in 0..2u8 {
        for x in 0..3u8 {
            assert_eq!(
                decoded.pixels[(y as usize) * 3 + (x as usize)],
                RGB2::new(x, y, 7)
            );
        }
    }
    assert!(load_image(&b"not an image".to_vec()).is_none());
}
