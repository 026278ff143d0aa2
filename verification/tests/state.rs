use stopwatch::event::{Action, KeyCode, KeyEvent};
use stopwatch::state::Timers;
use stopwatch::theme::{Color, Theme};

fn press(code: KeyCode) -> KeyEvent {
    KeyEvent { code, no_modifiers: true, is_press: true }
}

#[test]
fn fresh_state_defaults() {
    let t = Timers::default();
    assert_eq!(t.elapsed, 0);
    assert!(!t.running);
    assert!(!t.exit);
    assert_eq!(t.theme, Theme::default());
    assert_eq!(t.theme.fg, Color::White);
    assert_eq!(t.theme.bg, Color::Black);
}

#[test]
fn with_theme_keeps_the_rest() {
    let theme = Theme { fg: Color::LightCyan, bg: Color::DarkGray };
    let t = Timers::default().with_theme(theme);
    assert_eq!(t.theme, theme);
    assert_eq!(t.elapsed, 0);
    assert!(!t.running);
    assert!(!t.exit);
}

#[test]
fn toggle_is_an_involution() {
    let mut t = Timers::default();
    t.toggle_running();
    assert!(t.running);
    t.toggle_running();
    assert!(!t.running);
    let mut u = Timers::default();
    u.toggle_running();
    u.elapsed = 1234;
    let before = u;
    u.toggle_running();
    u.toggle_running();
    assert_eq!(u, before);
}

#[test]
fn toggle_and_advance_three_seconds() {
    let mut t = Timers::default();
    t.toggle_running();
    t.advance(1000);
    t.advance(1000);
    t.advance(1000);
    assert_eq!(t.elapsed, 3000);
    assert!(t.running);
}

#[test]
fn advance_while_paused_is_a_no_op() {
    let mut t = Timers::default();
    t.advance(5000);
    assert_eq!(t.elapsed, 0);
    assert!(!t.running);
    assert!(!t.exit);
}

#[test]
fn advance_is_additive() {
    let mut split = Timers::default();
    split.toggle_running();
    split.advance(300);
    split.advance(700);
    let mut whole = Timers::default();
    whole.toggle_running();
    whole.advance(1000);
    assert_eq!(split, whole);
    assert_eq!(split.elapsed, 1000);
}

#[test]
fn reset_zeroes_elapsed_while_running() {
    let mut t = Timers::default();
    t.toggle_running();
    t.elapsed = 45000;
    t.reset();
    assert_eq!(t.elapsed, 0);
    assert!(t.running);
    assert!(!t.exit);
}

#[test]
fn reset_zeroes_elapsed_while_paused() {
    let mut t = Timers::default();
    t.elapsed = 777;
    t.reset();
    assert_eq!(t.elapsed, 0);
    assert!(!t.running);
}

#[test]
fn request_exit_is_one_way() {
    let mut t = Timers::default();
    t.request_exit();
    assert!(t.exit);
    t.toggle_running();
    assert!(t.exit);
}

#[test]
fn tick_space_starts_counting_after_the_toggle() {
    let mut t = Timers::default();
    let cont = t.tick(Some(press(KeyCode::Char(' '))), 16);
    assert!(cont);
    assert!(t.running);
    // The toggle frame itself already counts: input is handled first, then
    // time advances under the post-transition running flag.
    assert_eq!(t.elapsed, 16);
}

#[test]
fn tick_space_pauses_before_the_advance() {
    let mut t = Timers::default();
    t.toggle_running();
    t.elapsed = 500;
    let cont = t.tick(Some(press(KeyCode::Char(' '))), 16);
    assert!(cont);
    assert!(!t.running);
    // Pausing in this frame means the frame's budget is not counted.
    assert_eq!(t.elapsed, 500);
}

#[test]
fn tick_r_resets_then_advances() {
    let mut t = Timers::default();
    t.toggle_running();
    t.elapsed = 90000;
    let cont = t.tick(Some(press(KeyCode::Char('r'))), 16);
    assert!(cont);
    assert!(t.running);
    assert_eq!(t.elapsed, 16);
}

#[test]
fn tick_without_event_advances_only_while_running() {
    let mut t = Timers::default();
    assert!(t.tick(None, 16));
    assert_eq!(t.elapsed, 0);
    t.toggle_running();
    assert!(t.tick(None, 16));
    assert_eq!(t.elapsed, 16);
}

#[test]
fn tick_ignores_modified_keys_releases_and_other_keys() {
    let mut t = Timers::default();
    let modified = KeyEvent { code: KeyCode::Char(' '), no_modifiers: false, is_press: true };
    let release = KeyEvent { code: KeyCode::Esc, no_modifiers: true, is_press: false };
    let other_char = press(KeyCode::Char('x'));
    let other_key = press(KeyCode::Other);
    assert!(t.tick(Some(modified), 16));
    assert!(t.tick(Some(release), 16));
    assert!(t.tick(Some(other_char), 16));
    assert!(t.tick(Some(other_key), 16));
    assert!(!t.running);
    assert!(!t.exit);
    assert_eq!(t.elapsed, 0);
}

#[test]
fn escape_requests_exit_and_nothing_moves_afterwards() {
    let mut t = Timers::default();
    t.toggle_running();
    t.advance(1000);
    let cont = t.tick(Some(press(KeyCode::Esc)), 16);
    assert!(!cont);
    assert!(t.exit);
    // The exit frame does not count its budget: the loop stops the instant
    // exit is requested.
    assert_eq!(t.elapsed, 1000);
    let before = t;
    // Further frames, whatever they carry, change nothing.
    assert!(!t.tick(Some(press(KeyCode::Char(' '))), 16));
    assert!(!t.tick(Some(press(KeyCode::Char('r'))), 16));
    assert!(!t.tick(None, 16));
    assert_eq!(t, before);
}

#[test]
fn classify_maps_exactly_three_keys() {
    assert_eq!(stopwatch::event::classify(&press(KeyCode::Esc)), Action::Exit);
    assert_eq!(stopwatch::event::classify(&press(KeyCode::Char(' '))), Action::Toggle);
    assert_eq!(stopwatch::event::classify(&press(KeyCode::Char('r'))), Action::Reset);
    assert_eq!(stopwatch::event::classify(&press(KeyCode::Char('R'))), Action::Ignore);
    let shifted_esc = KeyEvent { code: KeyCode::Esc, no_modifiers: false, is_press: true };
    assert_eq!(stopwatch::event::classify(&shifted_esc), Action::Ignore);
    let repeat_space = KeyEvent { code: KeyCode::Char(' '), no_modifiers: true, is_press: false };
    assert_eq!(stopwatch::event::classify(&repeat_space), Action::Ignore);
}
