use lightify::action::{key_to_action, Action, Key};

#[test]
fn vim_keys_and_arrows_move() {
    assert_eq!(key_to_action(Key::Char('j')), Some(Action::MoveDown));
    assert_eq!(key_to_action(Key::Down), Some(Action::MoveDown));
    assert_eq!(key_to_action(Key::Char('k')), Some(Action::MoveUp));
    assert_eq!(key_to_action(Key::Up), Some(Action::MoveUp));
    assert_eq!(key_to_action(Key::Char('g')), Some(Action::GoTop));
    assert_eq!(key_to_action(Key::Char('G')), Some(Action::GoBottom));
}

#[test]
fn other_bindings() {
    assert_eq!(key_to_action(Key::Char('h')), Some(Action::FocusSidebar));
    assert_eq!(key_to_action(Key::Char('l')), Some(Action::FocusMain));
    assert_eq!(key_to_action(Key::Enter), Some(Action::Select));
    assert_eq!(key_to_action(Key::Char(' ')), Some(Action::PlayPause));
    assert_eq!(key_to_action(Key::Char('n')), Some(Action::Next));
    assert_eq!(key_to_action(Key::Char('N')), Some(Action::Prev));
    assert_eq!(key_to_action(Key::Char('>')), Some(Action::SeekForward));
    assert_eq!(key_to_action(Key::Char('<')), Some(Action::SeekBackward));
    assert_eq!(key_to_action(Key::Char('+')), Some(Action::VolumeUp));
    assert_eq!(key_to_action(Key::Char('-')), Some(Action::VolumeDown));
    assert_eq!(key_to_action(Key::Char('R')), Some(Action::Refresh));
    assert_eq!(key_to_action(Key::Char('q')), Some(Action::Quit));
}

#[test]
fn unbound_keys_do_nothing() {
    assert_eq!(key_to_action(Key::Char('x')), None);
    assert_eq!(key_to_action(Key::Char('r')), None);
    assert_eq!(key_to_action(Key::Other), None);
}
