use led_glyph::glyph::{glyph_animation_frames, AnimationMode, Glyph};

#[test]
fn should_return_error_if_row_data_not_equal_to_size_args() {
    let bitmap: Vec<u8> = vec![0x01, 0x02, 0x03];
    let glyph_result = Glyph::new(4, bitmap);
    assert_eq!(glyph_result, Err("Not enough row data as per size"));
}

#[test]
fn should_return_glyph_object_if_row_data_equal_to_size_args() {
    let bitmap: Vec<u8> = vec![0x01, 0x02, 0x03];
    let glyph = Glyph::new(3, bitmap.clone()).unwrap();
    assert_eq!(glyph.width(), 3);
    assert_eq!(glyph.height(), 3);
    assert_eq!(glyph.bitmap(), &bitmap);
}

#[test]
fn should_return_frame_data_for_next_animation_mode() {
    let glyph1 = Glyph::new(3, vec![0x01, 0x02, 0x03]).unwrap();
    let glyph2 = Glyph::new(3, vec![0x04, 0x05, 0x06]).unwrap();
    let glyph3 = Glyph::new(3, vec![0x07, 0x08, 0x09]).unwrap();
    let glyphs = vec![glyph1, glyph2, glyph3];
    let frame_data = glyph_animation_frames(glyphs, AnimationMode::Next).unwrap();
    assert_eq!(
        frame_data,
        vec!(0x01, 0x02, 0x03, 0x04, 0x05, 0x06, 0x07, 0x08, 0x09)
    );
}

#[test]
fn should_return_frame_data_for_scroll_animation_mode() {
    let glyph1 = Glyph::new(3, vec![0x04, 0x02, 0x01]).unwrap();
    let glyph2 = Glyph::new(3, vec![0x01, 0x02, 0x04]).unwrap();
    let glyphs = vec![glyph1, glyph2];
    let frame_data = glyph_animation_frames(glyphs, AnimationMode::Scroll).unwrap();
    assert_eq!(
        vec![
            0x04, 0x02, 0x01, // Frame 1
            0x00, 0x04, 0x02, // Frame 2
            0x00, 0x00, 0x05, // Frame 3
            0x00, 0x01, 0x02, // Frame 4
            0x01, 0x02, 0x04, // Frame 5
            0x02, 0x04, 0x00, // Frame 6
            0x04, 0x00, 0x00, // Frame 7
            0x00, 0x00, 0x00, // Frame 8
        ],
        frame_data
    );
}

#[test]
fn next_mode_output_length_is_sum_of_heights() {
    let glyph1 = Glyph::new(2, vec![0x01, 0x02]).unwrap();
    let glyph2 = Glyph::new(2, vec![0x03, 0x00]).unwrap();
    let glyph3 = Glyph::new(2, vec![0x02, 0x01]).unwrap();
    let glyphs = vec![glyph1, glyph2, glyph3];
    let frame_data = glyph_animation_frames(glyphs, AnimationMode::Next).unwrap();
    assert_eq!(frame_data.len(), 6);
}

#[test]
fn scroll_mode_output_length_is_frame_count_times_height() {
    // Two size-3 glyphs: the full reel row is 2 * (3 + 1) + 2 = 10 columns,
    // so there are 10 - 2 = 8 frames of 3 rows each.
    let glyph1 = Glyph::new(3, vec![0x07, 0x00, 0x07]).unwrap();
    let glyph2 = Glyph::new(3, vec![0x01, 0x01, 0x01]).unwrap();
    let glyphs = vec![glyph1, glyph2];
    let frame_data = glyph_animation_frames(glyphs, AnimationMode::Scroll).unwrap();
    assert_eq!(frame_data.len(), 8 * 3);
}

#[test]
fn scroll_mode_single_glyph_scrolls_off_into_blank() {
    let glyph = Glyph::new(2, vec![0x01, 0x02]).unwrap();
    let frame_data = glyph_animation_frames(vec![glyph], AnimationMode::Scroll).unwrap();
    assert_eq!(frame_data, vec![0x01, 0x02, 0x02, 0x00, 0x00, 0x00]);
}

#[test]
fn generate_frames_twice_yields_identical_output() {
    let make_glyphs = || {
        vec![
            Glyph::new(3, vec![0x04, 0x02, 0x01]).unwrap(),
            Glyph::new(3, vec![0x01, 0x02, 0x04]).unwrap(),
        ]
    };
    let first = glyph_animation_frames(make_glyphs(), AnimationMode::Scroll).unwrap();
    let second = glyph_animation_frames(make_glyphs(), AnimationMode::Scroll).unwrap();
    assert_eq!(first, second);
    let first_next = glyph_animation_frames(make_glyphs(), AnimationMode::Next).unwrap();
    let second_next = glyph_animation_frames(make_glyphs(), AnimationMode::Next).unwrap();
    assert_eq!(first_next, second_next);
}

#[test]
fn mixed_height_glyphs_are_rejected_in_next_mode() {
    let glyph1 = Glyph::new(3, vec![0x01, 0x02, 0x03]).unwrap();
    let glyph2 = Glyph::new(2, vec![0x01, 0x02]).unwrap();
    let result = glyph_animation_frames(vec![glyph1, glyph2], AnimationMode::Next);
    assert_eq!(result, Err("HeightMismatch"));
}

#[test]
fn mixed_height_glyphs_are_rejected_in_scroll_mode() {
    let glyph1 = Glyph::new(3, vec![0x01, 0x02, 0x03]).unwrap();
    let glyph2 = Glyph::new(2, vec![0x01, 0x02]).unwrap();
    let result = glyph_animation_frames(vec![glyph1, glyph2], AnimationMode::Scroll);
    assert_eq!(result, Err("HeightMismatch"));
}

#[test]
fn glyph_dimension_check_holds_at_size_bounds() {
    assert!(Glyph::new(0, Vec::new()).is_ok());
    assert!(Glyph::new(0, vec![0x01]).is_err());
    assert!(Glyph::new(255, vec![0x00; 255]).is_ok());
    assert!(Glyph::new(255, vec![0x00; 254]).is_err());
    assert!(Glyph::new(5, vec![0x00; 6]).is_err());
}
