use georgix::vga::{Character, Color, ColorCode, Console, BUFFER_WIDTH};

fn character_at(console: &Console, row: usize, column: usize) -> char {
    char::from(console.character_at(row, column).codepoint)
}

fn print(console: &mut Console, text: &str) {
    console.write_str(text, ColorCode::new(Color::LightGray, Color::Black));
}

#[test]
fn constructing_a_light_gray_on_black_color_code() {
    assert_eq!(ColorCode::new(Color::LightGray, Color::Black), ColorCode(7))
}

#[test]
fn constructing_a_white_on_green_color_code() {
    assert_eq!(ColorCode::new(Color::White, Color::Green), ColorCode(47))
}

#[test]
fn constructing_a_character_with_an_invalid_codepoint() {
    assert_eq!(
        Character::new(195, ColorCode::new(Color::LightGray, Color::Black)),
        Character { codepoint: 0xfe, color: ColorCode::new(Color::LightGray, Color::Black) }
    );
}

#[test]
fn printing_one_line() {
    let mut console = Console::new();
    console.clear();
    print(&mut console, "Some test string that fits on a single line");

    for (i, expected) in "Some test string that fits on a single line".chars().enumerate() {
        assert_eq!(expected, character_at(&console, 0, i));
    }
}

#[test]
fn printing_one_line_that_wraps() {
    let mut console = Console::new();
    console.clear();

    print(
        &mut console,
        "'The time has come,' the Walrus said, 'to talk of many things: \
        of shoes, and ships, and sealing wax, and cabbages and kings, \
        and why the sea is boiling hot, and whether pigs have wings.'",
    );

    for (i, expected) in "'The time has come,' the Walrus said, 'to talk of many things: of shoes, and shi".chars().enumerate() {
        assert_eq!(expected, character_at(&console, 0, i));
    }

    for (i, expected) in "ps, and sealing wax, and cabbages and kings, and why the sea is boiling hot, and".chars().enumerate() {
        assert_eq!(expected, character_at(&console, 1, i));
    }

    for (i, expected) in " whether pigs have wings.'".chars().enumerate() {
        assert_eq!(expected, character_at(&console, 2, i));
    }

    for i in 26..80 {
        assert_eq!(Character::blank(), console.character_at(2, i));
    }
}

#[test]
fn printing_two_lines() {
    let mut console = Console::new();
    console.clear();
    print(&mut console, "Some test string\nover two lines");

    for (i, expected) in "Some test string".chars().enumerate() {
        assert_eq!(expected, character_at(&console, 0, i));
    }

    for (i, expected) in "over two lines".chars().enumerate() {
        assert_eq!(expected, character_at(&console, 1, i));
    }
}

#[test]
fn printing_many_lines() {
    let mut console = Console::new();
    console.clear();

    for i in 1..=100 {
        print(&mut console, &format!("Hello, {}!\n", i));
    }

    for (i, expected) in "Hello, 77!".chars().enumerate() {
        assert_eq!(expected, character_at(&console, 0, i));
    }

    for (i, expected) in "Hello, 90!".chars().enumerate() {
        assert_eq!(expected, character_at(&console, 13, i));
    }

    for (i, expected) in "Hello, 100!".chars().enumerate() {
        assert_eq!(expected, character_at(&console, 23, i));
    }

    for i in 0..80 {
        assert_eq!(Character::blank(), console.character_at(24, i));
    }
}

#[test]
fn unprintable_bytes_show_as_a_square() {
    let mut console = Console::new();
    print(&mut console, "a\tb");
    assert_eq!(0xfe, console.character_at(0, 1).codepoint);
    assert_eq!(3, console.column());
    assert_eq!(BUFFER_WIDTH, 80);
}
