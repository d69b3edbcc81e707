use keyshow::buffer::DisplayBuffer;
use keyshow::keys::Key;

#[test]
fn typing_abc_shows_abc() {
    let mut b = DisplayBuffer::new();
    assert_eq!(b.press(Key::KeyA), "A");
    assert_eq!(b.press(Key::KeyB), "AB");
    assert_eq!(b.press(Key::KeyC), "ABC");
    assert_eq!(b.content(), "ABC");
}

#[test]
fn backspace_erases_the_last_character() {
    let mut b = DisplayBuffer::new();
    b.press(Key::KeyA);
    b.press(Key::KeyB);
    assert_eq!(b.press(Key::Backspace), "A");
    assert_eq!(b.content(), "A");
}

#[test]
fn backspace_on_fresh_buffer_leaves_a_space() {
    let mut b = DisplayBuffer::new();
    assert_eq!(b.content(), "");
    assert_eq!(b.press(Key::Backspace), " ");
    assert_eq!(b.content(), " ");
}

#[test]
fn repeated_backspaces_on_empty_stay_one_space() {
    let mut b = DisplayBuffer::new();
    for _ in 0..25 {
        assert_eq!(b.press(Key::Backspace), " ");
        assert_eq!(b.content(), " ");
    }
}

#[test]
fn erasing_the_last_character_leaves_a_space() {
    let mut b = DisplayBuffer::new();
    b.press(Key::KeyQ);
    assert_eq!(b.press(Key::Backspace), " ");
    assert_eq!(b.content(), " ");
}

#[test]
fn six_hundred_characters_keep_one_hundred() {
    let mut b = DisplayBuffer::new();
    let mut last = String::new();
    for _ in 0..600 {
        last = b.apply("x");
    }
    assert_eq!(b.content().chars().count(), 100);
    assert_eq!(last, "xxxxxxxxxx");
    assert_eq!(b.visible(), "xxxxxxxxxx");
}

#[test]
fn six_hundred_key_presses_keep_one_hundred() {
    let mut b = DisplayBuffer::new();
    for _ in 0..600 {
        b.press(Key::KeyX);
    }
    assert_eq!(b.content(), "X".repeat(100));
    assert_eq!(b.visible(), "XXXXXXXXXX");
}

#[test]
fn trim_fires_once_when_passing_the_limit() {
    let mut b = DisplayBuffer::new();
    for _ in 0..500 {
        b.apply("a");
    }
    assert_eq!(b.content().chars().count(), 500);
    assert_eq!(b.apply("b"), "b");
    assert_eq!(b.content(), "b");
}

#[test]
fn trim_drops_exactly_five_hundred_of_a_long_glyph() {
    let mut b = DisplayBuffer::new();
    for _ in 0..499 {
        b.apply("a");
    }
    assert_eq!(b.apply("F12"), "12");
    assert_eq!(b.content(), "12");
}

#[test]
fn trim_counts_characters_not_bytes() {
    let mut b = DisplayBuffer::new();
    for _ in 0..501 {
        b.press(Key::UpArrow);
    }
    assert_eq!(b.content(), "↑");
    assert_eq!(b.visible(), "↑");
}

#[test]
fn window_shows_trailing_ten_characters() {
    let mut b = DisplayBuffer::new();
    let mut last = String::new();
    for c in ["a", "b", "c", "d", "e", "f", "g", "h", "i", "j", "k", "l"] {
        last = b.apply(c);
    }
    assert_eq!(last, "cdefghijkl");
    assert_eq!(b.content(), "abcdefghijkl");
}

#[test]
fn window_of_short_text_is_the_whole_text() {
    let mut b = DisplayBuffer::new();
    assert_eq!(b.apply("Alt"), "Alt");
    assert_eq!(b.apply("C-L"), "AltC-L");
}

#[test]
fn multi_character_glyphs_are_appended_whole() {
    let mut b = DisplayBuffer::new();
    b.press(Key::ControlLeft);
    assert_eq!(b.press(Key::KeyC), "C-LC");
    assert_eq!(b.press(Key::Return), "C-LC<-|");
    assert_eq!(b.press(Key::F11), "C-LC<-|F11");
    assert_eq!(b.press(Key::Space), "-LC<-|F11 ");
}

#[test]
fn backspace_erases_one_character_of_a_multi_character_glyph() {
    let mut b = DisplayBuffer::new();
    b.press(Key::Escape);
    assert_eq!(b.press(Key::Backspace), "Es");
}

#[test]
fn only_the_exact_erase_glyph_erases() {
    let mut b = DisplayBuffer::new();
    b.apply("A");
    assert_eq!(b.apply("Backspace"), "ABackspace");
    assert_eq!(b.apply("backspace"), "ABackspac");
}

#[test]
fn content_is_never_empty_after_an_edit() {
    let mut b = DisplayBuffer::new();
    let keys = [Key::Backspace, Key::KeyA, Key::Backspace, Key::Backspace, Key::F1, Key::Backspace];
    for k in keys {
        b.press(k);
        assert!(!b.content().is_empty());
        assert!(!b.visible().is_empty());
    }
}
