use jobdash::event::{Command, Config, Event, Key, Reading, DEFAULT_TICK_RATE_MS};

#[test]
fn q_quits() {
    assert_eq!(Key::Char('q').command(), Command::Quit);
}

#[test]
fn arrows_move_the_cursor() {
    assert_eq!(Key::Down.command(), Command::Down);
    assert_eq!(Key::Up.command(), Command::Up);
}

#[test]
fn every_other_key_is_unbound() {
    let keys = [
        Key::Backspace,
        Key::Left,
        Key::Right,
        Key::Home,
        Key::End,
        Key::PageUp,
        Key::PageDown,
        Key::BackTab,
        Key::Delete,
        Key::Insert,
        Key::F(1),
        Key::F(12),
        Key::Char('Q'),
        Key::Char('j'),
        Key::Char('\n'),
        Key::Alt('q'),
        Key::Ctrl('q'),
        Key::Ctrl('c'),
        Key::Null,
        Key::Esc,
        Key::Unsupported,
    ];
    for key in keys {
        assert_eq!(key.command(), Command::Other);
    }
}

#[test]
fn default_tick_rate_is_a_quarter_second() {
    assert_eq!(DEFAULT_TICK_RATE_MS, 250);
    assert_eq!(Config::default(), Config { tick_rate_ms: 250 });
}

#[test]
fn events_compare_by_content() {
    assert_eq!(Event::Input(Key::Up), Event::Input(Key::Up));
    assert_ne!(Event::Input(Key::Up), Event::Input(Key::Down));
    assert_ne!(Event::Input(Key::Char('q')), Event::Tick);
    assert_eq!(Event::Tick, Event::Tick);
}

#[test]
fn pressed_key_is_sent_on_as_input() {
    assert_eq!(Reading::Pressed(Key::Down).event(), Some(Event::Input(Key::Down)));
    assert_eq!(Reading::Pressed(Key::Char('q')).event(), Some(Event::Input(Key::Char('q'))));
}

#[test]
fn failed_or_closed_input_sends_nothing() {
    assert_eq!(Reading::Failed.event(), None);
    assert_eq!(Reading::Closed.event(), None);
}
