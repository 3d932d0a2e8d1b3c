use rject::keymap::{bound_keys, command_for_key, KeyPress, ListCommand};

#[test]
fn keys_map_to_commands() {
    assert_eq!(command_for_key(KeyPress::Esc), Some(ListCommand::Quit));
    assert_eq!(command_for_key(KeyPress::Char('h')), Some(ListCommand::Help));
    assert_eq!(command_for_key(KeyPress::Char('p')), Some(ListCommand::Preview));
    assert_eq!(command_for_key(KeyPress::Char('k')), Some(ListCommand::MoveUp));
    assert_eq!(command_for_key(KeyPress::Char('j')), Some(ListCommand::MoveDown));
    assert_eq!(command_for_key(KeyPress::Char('r')), Some(ListCommand::Refresh));
    assert_eq!(command_for_key(KeyPress::Char('D')), Some(ListCommand::Delete));
    assert_eq!(command_for_key(KeyPress::Char('n')), Some(ListCommand::NewProject));
}

#[test]
fn other_keys_do_nothing() {
    assert_eq!(command_for_key(KeyPress::Char('d')), None);
    assert_eq!(command_for_key(KeyPress::Char('q')), None);
    assert_eq!(command_for_key(KeyPress::Char('N')), None);
}

#[test]
fn bound_keys_are_exactly_the_commanded_keys() {
    let keys = bound_keys();
    assert_eq!(keys.len(), 8);
    let mut commands = Vec::new();
    for (i, k) in keys.iter().enumerate() {
        let c = command_for_key(*k).expect("bound key has a command");
        assert!(!commands.contains(&c));
        commands.push(c);
        assert!(!keys[..i].contains(k));
    }
}
