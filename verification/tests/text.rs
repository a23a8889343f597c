use arrively::text::{append_decimal, chars_of, with_number};

#[test]
fn chars_of_keeps_every_character_in_order() {
    assert_eq!(chars_of(""), Vec::<char>::new());
    assert_eq!(chars_of("a@b"), vec!['a', '@', 'b']);
    assert_eq!(chars_of("jos\u{e9}"), vec!['j', 'o', 's', '\u{e9}']);
}

#[test]
fn numbers_are_written_in_decimal() {
    assert_eq!(with_number("", 0), "0");
    assert_eq!(with_number("", 7), "7");
    assert_eq!(with_number("", 10), "10");
    assert_eq!(with_number("", 42), "42");
    assert_eq!(with_number("", 1200), "1200");
    assert_eq!(with_number("", 1234567890), "1234567890");
    assert_eq!(with_number("", i32::MAX), "2147483647");
}

#[test]
fn negative_numbers_carry_a_minus() {
    assert_eq!(with_number("", -1), "-1");
    assert_eq!(with_number("", -10), "-10");
    assert_eq!(with_number("", -907), "-907");
    assert_eq!(with_number("", i32::MIN), "-2147483648");
}

#[test]
fn the_number_follows_the_prefix() {
    assert_eq!(with_number("No settings found for ID: ", 15), "No settings found for ID: 15");
    let mut text = String::from("id ");
    append_decimal(&mut text, -3);
    append_decimal(&mut text, 30);
    assert_eq!(text, "id -330");
}

#[test]
fn decimal_agrees_with_the_standard_library() {
    for n in [0, 1, 9, 10, 11, 99, 100, 101, 65535, -1, -9, -10, -99, -100, -65536] {
        assert_eq!(with_number("", n), n.to_string());
    }
}
