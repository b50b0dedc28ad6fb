use cruzalex_themes::keys::{command_for, Command, Key};

#[test]
fn browsing_keys_give_their_commands() {
    let plain = |key: Key| command_for(false, true, false, key);
    assert_eq!(plain(Key::Char('q')), Command::Quit);
    assert_eq!(plain(Key::Esc), Command::Quit);
    assert_eq!(plain(Key::Up), Command::Previous);
    assert_eq!(plain(Key::Char('k')), Command::Previous);
    assert_eq!(plain(Key::Down), Command::Next);
    assert_eq!(plain(Key::Char('j')), Command::Next);
    assert_eq!(plain(Key::PageUp), Command::PreviousPage);
    assert_eq!(plain(Key::PageDown), Command::NextPage);
    assert_eq!(plain(Key::Home), Command::First);
    assert_eq!(plain(Key::Char('g')), Command::First);
    assert_eq!(plain(Key::End), Command::Last);
    assert_eq!(plain(Key::Char('G')), Command::Last);
    assert_eq!(plain(Key::Enter), Command::Apply);
    assert_eq!(plain(Key::Char('i')), Command::Install);
    assert_eq!(plain(Key::Char('x')), Command::Delete);
    assert_eq!(plain(Key::Char('r')), Command::Refresh);
    assert_eq!(plain(Key::Char('f')), Command::ToggleFavorite);
    assert_eq!(plain(Key::Char('/')), Command::EnterSearch);
    assert_eq!(plain(Key::Tab), Command::CycleFilter);
    assert_eq!(plain(Key::Char('s')), Command::CycleSort);
    assert_eq!(plain(Key::Char('p')), Command::TogglePreview);
    assert_eq!(plain(Key::Char('z')), Command::Nothing);
    assert_eq!(plain(Key::Backspace), Command::Nothing);
    assert_eq!(plain(Key::Other), Command::Nothing);
}

#[test]
fn control_changes_three_letters() {
    let ctrl = |key: Key| command_for(false, true, true, key);
    let plain = |key: Key| command_for(false, true, false, key);
    assert_eq!(ctrl(Key::Char('c')), Command::Quit);
    assert_eq!(plain(Key::Char('c')), Command::Nothing);
    assert_eq!(ctrl(Key::Char('u')), Command::PreviousPage);
    assert_eq!(plain(Key::Char('u')), Command::Nothing);
    assert_eq!(ctrl(Key::Char('d')), Command::NextPage);
    assert_eq!(plain(Key::Char('d')), Command::Nothing);
    assert_eq!(ctrl(Key::Char('q')), Command::Quit);
    assert_eq!(ctrl(Key::Char('j')), Command::Next);
    assert_eq!(ctrl(Key::Char('i')), Command::Install);
}

#[test]
fn searching_keys_belong_to_the_search() {
    let typed = |key: Key| command_for(true, true, false, key);
    assert_eq!(typed(Key::Esc), Command::ExitSearch);
    assert_eq!(typed(Key::Enter), Command::SubmitSearch);
    assert_eq!(typed(Key::Backspace), Command::SearchBackspace);
    assert_eq!(typed(Key::Char('q')), Command::SearchInput('q'));
    assert_eq!(typed(Key::Char('/')), Command::SearchInput('/'));
    assert_eq!(command_for(true, true, true, Key::Char('c')), Command::SearchInput('c'));
    assert_eq!(typed(Key::Up), Command::Nothing);
    assert_eq!(typed(Key::Tab), Command::Nothing);
}

#[test]
fn released_keys_give_no_command() {
    assert_eq!(command_for(false, false, false, Key::Char('q')), Command::Nothing);
    assert_eq!(command_for(true, false, false, Key::Char('a')), Command::Nothing);
    assert_eq!(command_for(false, false, true, Key::Char('c')), Command::Nothing);
}
