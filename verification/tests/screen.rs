use chip8::screen::Screen;

#[test]
fn new_screen_is_all_off() {
    let s = Screen::new();
    for r in 0..32 {
        for c in 0..64 {
            assert!(!s.get(r, c));
        }
    }
}

#[test]
fn set_and_get_round_trip() {
    let mut s = Screen::new();
    s.set(3, 7, true);
    assert!(s.get(3, 7));
    assert!(!s.get(7, 3));
    s.set(3, 7, false);
    assert!(!s.get(3, 7));
}

#[test]
fn clear_turns_everything_off() {
    let mut s = Screen::new();
    s.set(0, 0, true);
    s.set(31, 63, true);
    s.clear();
    assert!(!s.get(0, 0));
    assert!(!s.get(31, 63));
}

#[test]
fn clearing_twice_equals_clearing_once() {
    let mut once = Screen::new();
    once.set(5, 5, true);
    once.clear();
    let mut twice = Screen::new();
    twice.set(5, 5, true);
    twice.clear();
    twice.clear();
    assert_eq!(once.render(), twice.render());
    for r in 0..32 {
        for c in 0..64 {
            assert!(!twice.get(r, c));
        }
    }
}

#[test]
fn render_layout() {
    let mut s = Screen::new();
    s.set(0, 0, true);
    s.set(1, 2, true);
    let text = s.render();
    let lines: Vec<&str> = text.split('\n').collect();
    // 32 rows, one trailing blank line, one empty split tail.
    assert_eq!(lines.len(), 34);
    assert_eq!(lines[0].len(), 64);
    assert_eq!(&lines[0][0..2], "X ");
    assert_eq!(&lines[1][0..4], "  X ");
    assert_eq!(lines[2], " ".repeat(64));
    assert_eq!(lines[32], "");
    assert_eq!(lines[33], "");
}
