use ferret8::emulator::display::{Display, DISPLAY_HEIGHT, DISPLAY_WIDTH};

#[test]
fn test_transform_cords() {
    let mut display = Display::new();
    display.set(DISPLAY_WIDTH - 1, DISPLAY_HEIGHT - 1, true);
    assert_eq!(display.get(DISPLAY_WIDTH - 1, DISPLAY_HEIGHT - 1), true);
    assert_eq!(display.cell(DISPLAY_HEIGHT * DISPLAY_WIDTH - 1), true);
}

#[test]
fn test_cords_are_row_major() {
    assert_eq!(Display::transform_cords(30, 30), 1950);
    assert_eq!(Display::transform_cords(0, 15), 960);
    assert_eq!(Display::transform_cords(5, 0), 5);
    assert_eq!(Display::transform_cords(63, 31), 2047);
    assert_eq!(Display::transform_cords(0, 0), 0);
}

#[test]
fn test_new_display_is_blank_and_clean() {
    let display = Display::new();
    for y in 0..DISPLAY_HEIGHT {
        for x in 0..DISPLAY_WIDTH {
            assert_eq!(display.get(x, y), false);
        }
    }
    assert_eq!(display.is_dirty(), false);
}

#[test]
fn test_set_touches_one_pixel() {
    let mut display = Display::default();
    display.set(3, 4, true);
    for y in 0..DISPLAY_HEIGHT {
        for x in 0..DISPLAY_WIDTH {
            assert_eq!(display.get(x, y), x == 3 && y == 4);
        }
    }
    assert_eq!(display.cell(4 * 64 + 3), true);
    assert_eq!(display.is_dirty(), false);
    display.set(3, 4, false);
    assert_eq!(display.get(3, 4), false);
}

#[test]
fn test_clear_blanks_and_raises_flag() {
    let mut display = Display::new();
    display.set(0, 0, true);
    display.set(63, 31, true);
    display.clear();
    for y in 0..DISPLAY_HEIGHT {
        for x in 0..DISPLAY_WIDTH {
            assert_eq!(display.get(x, y), false);
        }
    }
    assert_eq!(display.is_dirty(), true);
}

#[test]
fn test_dirty_flag_round_trip() {
    let mut display = Display::new();
    display.set(1, 1, true);
    display.mark_dirty();
    assert_eq!(display.is_dirty(), true);
    assert_eq!(display.get(1, 1), true);
    display.mark_clean();
    assert_eq!(display.is_dirty(), false);
    assert_eq!(display.get(1, 1), true);
}
