use cue_clicker::color::RGB2;
use cue_clicker::dispatch::{dispatch, InputEvent};
use cue_clicker::finder::{check_image_match, match_algorithm};
use cue_clicker::image_data::Image;
use cue_clicker::mask::process_area;
use cue_clicker::matcher::Matcher;
use cue_clicker::types::{MatchOptions, Point, SearchResult};

fn solid_image(width: usize, height: usize, c: RGB2) -> Image {
    let pixels = vec![c; width * height];
    Image::new(width, height, pixels).unwrap()
}

fn template_b_exact() -> Matcher {
    Matcher::new(
        false,
        vec![RGB2::new(52, 182, 81), RGB2::new(58, 198, 90)],
        20,
    )
    .unwrap()
}

#[test]
fn all_match_tiny_image() {
    let img = solid_image(10, 8, RGB2::new(52, 182, 81));
    let template = template_b_exact();
    let options = MatchOptions::new(false, 10, 8);
    let mask = process_area(&img, &template, options);
    assert_eq!(mask.hits, 80);
    let origin = Point::new(0, 0, 10, 8);
    let found = match_algorithm(origin, &mask, options);
    assert_eq!(found, SearchResult::Found(5, 4));
    let plan = dispatch(5, 4, true);
    assert_eq!(plan.len(), 1);
    assert_eq!(plan[0], InputEvent::CursorMove(5, 4));
}

#[test]
fn near_miss_exact() {
    let img = solid_image(10, 8, RGB2::new(53, 182, 81));
    let template = template_b_exact();
    let origin = Point::new(0, 0, 10, 8);

    let options = MatchOptions::new(false, 10, 8);
    let mask = process_area(&img, &template, options);
    assert_eq!(mask.hits, 0);
    assert_eq!(match_algorithm(origin, &mask, options), SearchResult::NotFound);

    let forced = MatchOptions::new(true, 10, 8);
    let forced_mask = process_area(&img, &template, forced);
    assert_eq!(forced_mask.hits, 80);
    assert_eq!(
        match_algorithm(origin, &forced_mask, forced),
        SearchResult::Found(5, 4)
    );
}

#[test]
fn hits_below_window_threshold() {
    // A 20 x 20 image with exactly 79 matching pixels: one short of the
    // 10 x 8 window, so the pipeline must stop at the early-exit gate.
    let matching = RGB2::new(52, 182, 81);
    let other = RGB2::new(0, 0, 0);
    let mut pixels = Vec::new();
    for i in 0..400 {
        if i % 5 == 0 && i < 395 {
            pixels.push(matching);
        } else {
            pixels.push(other);
        }
    }
    let img = Image::new(20, 20, pixels).unwrap();
    let template = template_b_exact();
    let options = MatchOptions::new(false, 10, 8);
    let mask = process_area(&img, &template, options);
    assert_eq!(mask.hits, 79);
    let origin = Point::new(0, 0, 20, 20);
    let r = check_image_match(&img, &template, options, origin).unwrap();
    assert_eq!(r, SearchResult::NotFound);
}

#[test]
fn classify_marks_exactly_the_matching_cells() {
    // 4 x 3 image with two matching pixels at (1, 0) and (2, 2).
    let m = RGB2::new(52, 182, 81);
    let o = RGB2::new(10, 20, 30);
    let pixels = vec![
        o, m, o, o, // row 0
        o, o, o, o, // row 1
        o, o, m, o, // row 2
    ];
    let img = Image::new(4, 3, pixels).unwrap();
    let template = template_b_exact();
    let options = MatchOptions::new(false, 1, 1);
    let mask = process_area(&img, &template, options);
    assert_eq!(mask.hits, 2);
    assert!(mask.get(1, 0));
    assert!(mask.get(2, 2));
    assert!(!mask.get(0, 0));
    assert!(!mask.get(2, 1));
}

#[test]
fn finder_prefers_smaller_x_then_smaller_y() {
    // Two 2 x 2 all-true blocks; the one with the smaller column wins.
    let m = RGB2::new(52, 182, 81);
    let o = RGB2::new(0, 0, 0);
    // 6 x 6 image, blocks with origins (1, 3) and (3, 0).
    let mut pixels = vec![o; 36];
    for (x, y) in [(1, 3), (2, 3), (1, 4), (2, 4), (3, 0), (4, 0), (3, 1), (4, 1)] {
        pixels[y * 6 + x] = m;
    }
    let img = Image::new(6, 6, pixels).unwrap();
    let template = template_b_exact();
    let options = MatchOptions::new(false, 2, 2);
    let mask = process_area(&img, &template, options);
    let found = match_algorithm(Point::new(0, 0, 6, 6), &mask, options);
    // Origin (1, 3) comes first in scan order; its centre is (2, 4).
    assert_eq!(found, SearchResult::Found(2, 4));
}

#[test]
fn finder_offsets_by_the_capture_origin() {
    let img = solid_image(10, 8, RGB2::new(52, 182, 81));
    let template = template_b_exact();
    let options = MatchOptions::new(false, 10, 8);
    let mask = process_area(&img, &template, options);
    let origin = Point::new(100, 200, 110, 208);
    assert_eq!(
        match_algorithm(origin, &mask, options),
        SearchResult::Found(105, 204)
    );
}

#[test]
fn window_larger_than_image_is_internal_error() {
    let img = solid_image(4, 4, RGB2::new(52, 182, 81));
    let template = template_b_exact();
    let options = MatchOptions::new(false, 10, 8);
    let r = check_image_match(&img, &template, options, Point::new(0, 0, 4, 4));
    assert_eq!(r, Err(cue_clicker::types::ErrorKind::Internal));
}

#[test]
fn empty_template_is_rejected() {
    assert!(Matcher::new(false, Vec::new(), 20).is_none());
    assert!(Matcher::new(true, vec![RGB2::new(1, 2, 3)], 0).is_some());
}

#[test]
fn zero_threshold_distance_never_matches() {
    let template = Matcher::new(true, vec![RGB2::new(52, 182, 81)], 0).unwrap();
    let img = solid_image(3, 3, RGB2::new(52, 182, 81));
    let mask = process_area(&img, &template, MatchOptions::new(false, 1, 1));
    assert_eq!(mask.hits, 0);
}
