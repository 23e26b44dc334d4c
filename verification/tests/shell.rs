use snek::grid::{Arena, Coordinates, Direction};
use snek::keys::{Key, KeyPress};
use snek::shell::App;

fn plain(key: Key) -> KeyPress {
    KeyPress { key, control: false }
}

fn ready() -> App {
    let mut app = App::new();
    app.observe_size(Arena::new(10, 10));
    app
}

#[test]
fn new_application_is_running_and_empty() {
    let app = App::new();
    assert!(app.running);
    assert_eq!(app.size(), None);
    assert!(app.game().is_none());
    assert!(app.wants_prompt());
    assert!(app.in_order());
}

#[test]
fn keys_are_passed_over_until_the_viewport_is_known() {
    let mut app = App::new();
    app.handle_input(plain(Key::Char('q')));
    assert!(app.running);
    app.handle_input(plain(Key::Char(' ')));
    assert!(app.game().is_none());
}

#[test]
fn first_viewport_is_kept() {
    let mut app = App::new();
    app.observe_size(Arena::new(10, 10));
    app.observe_size(Arena::new(20, 20));
    assert_eq!(app.size(), Some(Arena::new(10, 10)));
}

#[test]
fn quit_keys_stop_the_application() {
    let mut app = ready();
    app.handle_input(plain(Key::Esc));
    assert!(!app.running);
    let mut app = ready();
    app.handle_input(plain(Key::Char('q')));
    assert!(!app.running);
    let mut app = ready();
    app.handle_input(KeyPress { key: Key::Char('c'), control: true });
    assert!(!app.running);
    let mut app = ready();
    app.handle_input(KeyPress { key: Key::Char('C'), control: true });
    assert!(!app.running);
    let mut app = ready();
    app.handle_input(plain(Key::Char('c')));
    assert!(app.running);
    app.handle_input(plain(Key::Char('x')));
    app.handle_input(plain(Key::Other));
    assert!(app.running);
    app.quit();
    assert!(!app.running);
}

#[test]
fn space_starts_a_session() {
    let mut app = ready();
    app.handle_input(plain(Key::Char(' ')));
    assert!(!app.wants_prompt());
    let game = app.game().expect("a session");
    assert_eq!(game.head(), Coordinates::new(5, 5));
    assert_eq!(game.score(), 0);
}

#[test]
fn space_leaves_a_running_session_alone() {
    let mut app = ready();
    app.handle_input(plain(Key::Char(' ')));
    app.tick();
    app.handle_input(plain(Key::Char(' ')));
    assert_eq!(app.game().expect("a session").head(), Coordinates::new(5, 4));
}

#[test]
fn space_restarts_an_ended_session() {
    let mut app = App::new();
    app.observe_size(Arena::new(3, 3));
    app.handle_input(plain(Key::Char(' ')));
    app.tick();
    assert!(app.wants_prompt());
    assert!(app.game().expect("a session").over());
    app.tick();
    assert_eq!(app.game().expect("a session").head(), Coordinates::new(1, 0));
    app.handle_input(plain(Key::Char(' ')));
    assert!(!app.wants_prompt());
    assert_eq!(app.game().expect("a session").head(), Coordinates::new(1, 1));
    assert_eq!(app.game().expect("a session").score(), 0);
}

#[test]
fn too_small_a_viewport_starts_nothing() {
    let mut app = App::new();
    app.observe_size(Arena::new(2, 2));
    app.handle_input(plain(Key::Char(' ')));
    assert!(app.game().is_none());
    assert!(app.wants_prompt());
    app.tick();
    assert!(app.game().is_none());
}

#[test]
fn arrow_keys_steer_the_session() {
    let mut app = ready();
    app.handle_input(plain(Key::Left));
    assert!(app.game().is_none());
    app.handle_input(plain(Key::Char(' ')));
    app.handle_input(plain(Key::Left));
    assert_eq!(app.game().expect("a session").direction(), Direction::Left);
    app.tick();
    assert_eq!(app.game().expect("a session").head(), Coordinates::new(4, 5));
    assert!(app.in_order());
}

#[test]
fn resize_drops_viewport_and_session() {
    let mut app = ready();
    app.handle_input(plain(Key::Char(' ')));
    app.handle_resize();
    assert_eq!(app.size(), None);
    assert!(app.game().is_none());
    assert!(app.running);
}

#[test]
fn tick_without_a_session_does_nothing() {
    let mut app = ready();
    app.tick();
    assert!(app.game().is_none());
    assert!(app.running);
    assert_eq!(app.size(), Some(Arena::new(10, 10)));
}
