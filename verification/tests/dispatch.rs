use crossterm::event::KeyCode;
use leightbox::app::{App, ConnectionType, File, HostInfo, Ipv4Addr};
use leightbox::create_app;

fn session() -> App<'static> {
    let files = vec![
        File::new(String::from("A"), 100),
        File::new(String::from("B"), 200),
        File::new(String::from("C"), 300),
    ];
    let host = HostInfo::new(Ipv4Addr::new(127, 0, 0, 1), String::from("abcd123"));
    create_app(ConnectionType::Connect, host, files)
}

#[test]
fn create_app_starts_a_running_session() {
    let app = session();
    assert_eq!(app.title, "leightbox");
    assert!(!app.should_quit);
    assert_eq!(app.connection_type, ConnectionType::Connect);
    assert!(app.connected_clients.is_empty());
    assert_eq!(app.available_files.len(), 3);
    assert_eq!(app.available_files.selected(), Some(0));
    assert!(app.downloading_files.is_empty());
    assert!(app.finished_files.is_empty());
    assert_eq!(app.host_info.ip(), Ipv4Addr::new(127, 0, 0, 1));
    assert_eq!(app.host_info.password(), "abcd123");
}

#[test]
fn app_new_keeps_the_given_title() {
    let host = HostInfo::new(Ipv4Addr::new(10, 0, 0, 2), String::new());
    let app = App::new("other", ConnectionType::Host, host, Vec::new());
    assert_eq!(app.title, "other");
    assert_eq!(app.connection_type, ConnectionType::Host);
    assert_eq!(app.available_files.selected(), None);
}

#[test]
fn move_then_claim_then_claim_again() {
    let mut app = session();
    app.available_files.unselect();
    assert_eq!(app.available_files.selected(), None);

    app.match_keycode(KeyCode::Char('j'));
    assert_eq!(app.available_files.selected(), Some(0));
    assert_eq!(app.available_files.items()[0].name(), "A");

    app.match_keycode(KeyCode::Char('j'));
    assert_eq!(app.available_files.selected(), Some(1));
    assert_eq!(app.available_files.items()[1].name(), "B");

    app.match_keycode(KeyCode::Enter);
    assert_eq!(app.downloading_files.len(), 1);
    assert_eq!(app.downloading_files[0].name(), "B");
    assert_eq!(app.downloading_files[0].size(), 200);
    assert_eq!(app.available_files.len(), 3);
    assert_eq!(app.available_files.items()[1].name(), "B");
    assert!(app.available_files.items()[1].is_selected());
    assert!(!app.available_files.items()[0].is_selected());
    assert!(!app.available_files.items()[2].is_selected());

    app.match_keycode(KeyCode::Enter);
    assert_eq!(app.downloading_files.len(), 1);
    assert_eq!(app.downloading_files[0].name(), "B");
    assert_eq!(app.available_files.len(), 3);
    assert_eq!(app.available_files.selected(), Some(1));
    assert!(!app.should_quit);
}

#[test]
fn k_moves_back() {
    let mut app = session();
    app.match_keycode(KeyCode::Char('k'));
    assert_eq!(app.available_files.selected(), Some(2));
    app.match_keycode(KeyCode::Char('k'));
    assert_eq!(app.available_files.selected(), Some(1));
}

#[test]
fn q_asks_to_quit() {
    let mut app = session();
    app.match_keycode(KeyCode::Char('q'));
    assert!(app.should_quit);
    assert_eq!(app.available_files.selected(), Some(0));
    assert!(app.downloading_files.is_empty());
}

#[test]
fn quit_is_never_taken_back() {
    let mut app = session();
    app.match_keycode(KeyCode::Char('q'));
    let keys = [
        KeyCode::Char('j'),
        KeyCode::Char('k'),
        KeyCode::Enter,
        KeyCode::Char('x'),
        KeyCode::Esc,
        KeyCode::Char('q'),
        KeyCode::F(1),
        KeyCode::Enter,
    ];
    for key in keys {
        app.match_keycode(key);
        assert!(app.should_quit);
    }
}

#[test]
fn enter_without_cursor_does_nothing() {
    let mut app = session();
    app.available_files.unselect();
    app.match_keycode(KeyCode::Enter);
    assert!(app.downloading_files.is_empty());
    for file in app.available_files.items() {
        assert!(!file.is_selected());
    }
    assert_eq!(app.available_files.selected(), None);
}

#[test]
fn enter_on_empty_session_does_nothing() {
    let host = HostInfo::new(Ipv4Addr::new(127, 0, 0, 1), String::new());
    let mut app = create_app(ConnectionType::Connect, host, Vec::new());
    app.match_keycode(KeyCode::Char('j'));
    app.match_keycode(KeyCode::Char('k'));
    app.match_keycode(KeyCode::Enter);
    assert_eq!(app.available_files.selected(), None);
    assert!(app.downloading_files.is_empty());
    assert!(!app.should_quit);
}

#[test]
fn other_keys_are_ignored() {
    let mut app = session();
    let keys = [
        KeyCode::Char('Q'),
        KeyCode::Char('J'),
        KeyCode::Char('x'),
        KeyCode::Char(' '),
        KeyCode::Esc,
        KeyCode::Up,
        KeyCode::Down,
        KeyCode::Tab,
        KeyCode::Backspace,
        KeyCode::F(5),
        KeyCode::Null,
    ];
    for key in keys {
        app.match_keycode(key);
        assert!(!app.should_quit);
        assert_eq!(app.available_files.selected(), Some(0));
        assert!(app.downloading_files.is_empty());
        assert!(app.finished_files.is_empty());
    }
}

#[test]
fn each_entry_is_downloaded_once() {
    let mut app = session();
    app.match_keycode(KeyCode::Enter);
    app.match_keycode(KeyCode::Char('j'));
    app.match_keycode(KeyCode::Enter);
    app.match_keycode(KeyCode::Char('k'));
    app.match_keycode(KeyCode::Enter);
    app.match_keycode(KeyCode::Char('j'));
    app.match_keycode(KeyCode::Enter);
    assert_eq!(app.downloading_files.len(), 2);
    assert_eq!(app.downloading_files[0].name(), "A");
    assert_eq!(app.downloading_files[1].name(), "B");
}

#[test]
fn on_tick_changes_nothing() {
    let mut app = session();
    app.match_keycode(KeyCode::Char('j'));
    app.on_tick();
    assert!(!app.should_quit);
    assert_eq!(app.available_files.selected(), Some(1));
    assert_eq!(app.available_files.len(), 3);
    assert!(app.downloading_files.is_empty());
}
