use led_glyph::printer::{first_10_chars, get_todo_text_format};
use led_glyph::text::decimal_string;
use led_glyph::todo_repo::Todo;

#[test]
fn first_10_chars_cuts_long_names() {
    assert_eq!(
        first_10_chars(&String::from("First Todo Long Title")),
        "First Todo"
    );
    assert_eq!(first_10_chars(&String::from("short")), "short");
    assert_eq!(first_10_chars(&String::from("")), "");
}

#[test]
fn todo_text_format_holds_all_fields_tab_separated() {
    let todo = Todo {
        id: String::from("id-first"),
        name: String::from("First Todo Long Title"),
        description: String::from("First Todo very long description"),
        completed: false,
    };
    assert_eq!(
        get_todo_text_format(todo),
        "id-first\tfalse\tFirst Todo\t\tFirst Todo very long description"
    );
}

#[test]
fn decimal_rendering_matches_the_standard_one() {
    for n in [0u16, 1, 9, 10, 99, 100, 201, 500, 65535] {
        assert_eq!(decimal_string(n), format!("{n}"));
    }
}
