use led_glyph::bitmap::{BitmapRepository, TestDataAccess};
use led_glyph::glyph_cli::CliAnimationMode;

fn get_valid_glyph_bitmap_str() -> String {
    let glyph_bitmap_str = r#"
    {
        "meta": {
            "name": "5x5-basic-ascii",
            "width": 5,
            "height": 5,
            "bit_order": "msb_left",
            "version": 1
        },
        "glyphs": {
            "A": ["01110", "10001", "11111", "10001", "10001"],
            "B": ["11110", "10001", "11110", "10001", "11110"]
        }
    }"#;
    String::from(glyph_bitmap_str)
}

#[test]
fn should_return_u8_for_valid_binary_string() {
    let bin_string = String::from("10101010");
    let bin_data = BitmapRepository::<TestDataAccess>::binary_string_to_u8(&bin_string).unwrap();

    assert_eq!(0b10101010, bin_data);
}

#[test]
fn should_return_error_for_invalid_binary_string() {
    let bin_string = String::from("ab101010");
    let err = BitmapRepository::<TestDataAccess>::binary_string_to_u8(&bin_string).unwrap_err();

    assert_eq!(format!("Invalid binary string: {bin_string}"), err);
}

#[test]
fn should_return_error_for_valid_binary_string_but_size_greater_than_eight() {
    let bin_string = String::from("110101010");
    let err = BitmapRepository::<TestDataAccess>::binary_string_to_u8(&bin_string).unwrap_err();

    assert_eq!("Binary string longer than 8 bits", err);
}

#[test]
fn should_return_u8_vector_for_valid_binary_string_vector() {
    let binary_str_vector = vec![
        String::from("11111111"),
        String::from("00000000"),
        String::from("10101010"),
    ];
    let bin_data_vector =
        BitmapRepository::<TestDataAccess>::convert_bitmap_data(&binary_str_vector).unwrap();
    let expected_bin_data_vector: Vec<u8> = vec![0b11111111, 0b00000000, 0b10101010];
    assert_eq!(expected_bin_data_vector, bin_data_vector);
}

#[test]
fn should_return_error_for_invalid_binary_string_vector() {
    let binary_str_vector = vec![
        String::from("11111111"),
        String::from("00000000"),
        String::from("ab101010"),
    ];
    let err =
        BitmapRepository::<TestDataAccess>::convert_bitmap_data(&binary_str_vector).unwrap_err();
    assert_eq!(format!("Invalid binary string: ab101010"), err);
}

#[test]
fn should_return_error_for_valid_binary_string_vector_but_size_greater_than_eight() {
    let binary_str_vector = vec![
        String::from("11111111"),
        String::from("00000000"),
        String::from("110101010"),
    ];
    let err =
        BitmapRepository::<TestDataAccess>::convert_bitmap_data(&binary_str_vector).unwrap_err();
    assert_eq!("Binary string longer than 8 bits", err);
}

#[test]
fn should_return_error_when_glyph_data_file_contains_invalid_format_data() {
    let invalid_data_format_access = TestDataAccess::success("Some Invalid data format");
    let mut bitmap_repository = BitmapRepository::<TestDataAccess>::new(invalid_data_format_access);

    let bitmap_result = bitmap_repository.generate_char_bitmap(8, 'C');
    assert!(bitmap_result.is_err());
}

#[test]
fn should_return_error_when_glyph_data_file_read_error_occurs() {
    let error_msg = "File not found";
    let invalid_data_format_access = TestDataAccess::read_fail(error_msg);
    let mut bitmap_repository = BitmapRepository::<TestDataAccess>::new(invalid_data_format_access);

    let message = bitmap_repository.generate_char_bitmap(8, 'C').unwrap_err();
    assert_eq!(error_msg, message);
}

#[test]
fn should_return_error_when_char_bitmap_data_not_aligned_with_grid_size() {
    let glyph_bitmap_str = r#"
    {
        "meta": {
            "name": "5x5-basic-ascii",
            "width": 5,
            "height": 5,
            "bit_order": "msb_left",
            "version": 1
        },
        "glyphs": {
            "A": ["01110", "10001", "11111", "10001", "10001", "11111"],
            "B": ["11110", "10001", "11110", "10001", "11110"]
        }
    }"#;
    let success_data_access = TestDataAccess::success(glyph_bitmap_str);
    let mut bitmap_repository = BitmapRepository::<TestDataAccess>::new(success_data_access);
    let result = bitmap_repository.generate_char_bitmap(5, 'A');
    assert!(result.is_err());
}

#[test]
fn should_return_error_when_char_bitmap_not_found_in_glyph_data_file() {
    let expected_error_msg = "Bitmap not found for character C";
    let glyph_bitmap = get_valid_glyph_bitmap_str();
    let success_data_access = TestDataAccess::success(glyph_bitmap.as_str());
    let mut bitmap_repository = BitmapRepository::<TestDataAccess>::new(success_data_access);
    let error_msg = bitmap_repository.generate_char_bitmap(5, 'C').unwrap_err();
    assert_eq!(expected_error_msg, error_msg);
}

#[test]
fn should_return_char_bitmap_data_as_u8_vec_from_glyph_data_file() {
    let glyph_bitmap = get_valid_glyph_bitmap_str();
    let success_data_access = TestDataAccess::success(glyph_bitmap.as_str());
    let mut bitmap_repository = BitmapRepository::<TestDataAccess>::new(success_data_access);
    bitmap_repository.generate_char_bitmap(5, 'a').unwrap();
    let expected_written_u8_vec = vec![0b01110, 0b10001, 0b11111, 0b10001, 0b10001];
    assert_eq!(
        expected_written_u8_vec,
        bitmap_repository.data_access.written_data
    );
}

#[test]
fn should_return_error_when_any_string_char_bitmap_not_found_in_glyph_data_file() {
    let expected_error_msg = "Bitmap not found for character C";
    let glyph_bitmap = get_valid_glyph_bitmap_str();
    let success_data_access = TestDataAccess::success(glyph_bitmap.as_str());
    let mut bitmap_repository = BitmapRepository::<TestDataAccess>::new(success_data_access);
    let string_input = String::from("AbaBC");
    let error_msg = bitmap_repository
        .generate_string_bitmap(5, string_input, CliAnimationMode::Next)
        .unwrap_err();
    assert_eq!(expected_error_msg, error_msg);
}

#[test]
fn should_return_string_bitmap_data_as_u8_vec_from_glyph_data_file() {
    let glyph_bitmap = get_valid_glyph_bitmap_str();
    let success_data_access = TestDataAccess::success(glyph_bitmap.as_str());
    let mut bitmap_repository = BitmapRepository::<TestDataAccess>::new(success_data_access);
    let string_input = String::from("AbaB");
    bitmap_repository
        .generate_string_bitmap(5, string_input, CliAnimationMode::Next)
        .unwrap();
    let char_a_u8_vec: Vec<u8> = vec![0b01110, 0b10001, 0b11111, 0b10001, 0b10001];
    let char_b_u8_vec: Vec<u8> = vec![0b11110, 0b10001, 0b11110, 0b10001, 0b11110];
    let mut expected_written_u8_vec: Vec<u8> = Vec::new();
    expected_written_u8_vec.extend_from_slice(&char_a_u8_vec);
    expected_written_u8_vec.extend_from_slice(&char_b_u8_vec);
    expected_written_u8_vec.extend_from_slice(&char_a_u8_vec);
    expected_written_u8_vec.extend_from_slice(&char_b_u8_vec);
    assert_eq!(
        expected_written_u8_vec,
        bitmap_repository.data_access.written_data
    );
}

#[test]
fn should_return_error_when_writing_the_stream_fails() {
    let glyph_bitmap = get_valid_glyph_bitmap_str();
    let failing_access = TestDataAccess::write_fail(glyph_bitmap.as_str());
    let mut bitmap_repository = BitmapRepository::<TestDataAccess>::new(failing_access);
    let result = bitmap_repository.generate_char_bitmap(5, 'A');
    assert!(result.is_err());
}

#[test]
fn length_eight_rows_decode_for_any_binary_content() {
    for value in [0u8, 1, 0x55, 0xAA, 0xFE, 0xFF] {
        let bin_string = format!("{value:08b}");
        let decoded =
            BitmapRepository::<TestDataAccess>::binary_string_to_u8(&bin_string).unwrap();
        assert_eq!(decoded, value);
    }
}

#[test]
fn length_nine_rows_fail_regardless_of_content() {
    for bin_string in ["000000000", "111111111", "101010101"] {
        let owned = String::from(bin_string);
        let err = BitmapRepository::<TestDataAccess>::binary_string_to_u8(&owned).unwrap_err();
        assert_eq!("Binary string longer than 8 bits", err);
    }
}

#[test]
fn empty_rows_are_invalid() {
    let bin_string = String::new();
    let err = BitmapRepository::<TestDataAccess>::binary_string_to_u8(&bin_string).unwrap_err();
    assert_eq!("Invalid binary string: ", err);
}
