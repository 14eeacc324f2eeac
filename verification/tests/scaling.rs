use minibooru::scale::scaled_dimensions;

#[test]
fn landscape_fits_by_its_width() {
    assert_eq!(scaled_dimensions(1920, 1080, 200), Some((200, 112)));
    assert_eq!(scaled_dimensions(4000, 3000, 200), Some((200, 150)));
}

#[test]
fn portrait_fits_by_its_height() {
    assert_eq!(scaled_dimensions(1080, 1920, 200), Some((112, 200)));
    assert_eq!(scaled_dimensions(3, 4, 200), Some((150, 200)));
}

#[test]
fn square_stays_square() {
    assert_eq!(scaled_dimensions(512, 512, 200), Some((200, 200)));
    assert_eq!(scaled_dimensions(200, 200, 200), Some((200, 200)));
}

#[test]
fn small_frames_grow_to_the_box() {
    assert_eq!(scaled_dimensions(10, 5, 200), Some((200, 100)));
}

#[test]
fn a_frame_without_area_has_no_thumbnail_size() {
    assert_eq!(scaled_dimensions(0, 10, 200), None);
    assert_eq!(scaled_dimensions(10, 0, 200), None);
    assert_eq!(scaled_dimensions(0, 0, 0), None);
}

#[test]
fn extreme_aspects_round_down_to_nothing() {
    assert_eq!(scaled_dimensions(1000, 1, 100), Some((100, 0)));
    assert_eq!(scaled_dimensions(3, 2, 1), Some((1, 0)));
}

#[test]
fn largest_values_do_not_overflow() {
    assert_eq!(scaled_dimensions(u32::MAX, u32::MAX, u32::MAX), Some((u32::MAX, u32::MAX)));
    assert_eq!(scaled_dimensions(u32::MAX, u32::MAX - 1, u32::MAX), Some((u32::MAX, u32::MAX - 1)));
    assert_eq!(scaled_dimensions(u32::MAX, 1, u32::MAX), Some((u32::MAX, 1)));
    assert_eq!(scaled_dimensions(7, 5, 0), Some((0, 0)));
}

#[test]
fn scaled_frames_fit_and_keep_their_aspect() {
    for (w, h, t) in [(1920u32, 1080u32, 200u32), (1080, 1920, 200), (641, 479, 128), (17, 4001, 300), (5, 5, 7)] {
        let (ow, oh) = scaled_dimensions(w, h, t).unwrap();
        assert!(ow <= t && oh <= t);
        assert_eq!(ow.max(oh), t);
        let cross = (ow as i64 * h as i64 - oh as i64 * w as i64).abs();
        assert!(cross < w.max(h) as i64);
    }
}
