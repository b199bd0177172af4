use sympil::action::{Action, Mode};
use sympil::bindings::KeyBindings;
use sympil::conf::AppConfiguration;
use sympil::error::Error;
use sympil::keynames::{
    extract_modifiers, key_event_to_string, parse_key_code_with_modifiers, parse_key_event,
    parse_key_sequence,
};
use sympil::keys::{KeyCode, KeyEvent, KeyModifiers};

#[test]
fn test_simple_keys() {
    assert_eq!(
        parse_key_event("a").unwrap(),
        KeyEvent::new(KeyCode::Char('a'), KeyModifiers::empty())
    );

    assert_eq!(
        parse_key_event("enter").unwrap(),
        KeyEvent::new(KeyCode::Enter, KeyModifiers::empty())
    );

    assert_eq!(
        parse_key_event("esc").unwrap(),
        KeyEvent::new(KeyCode::Esc, KeyModifiers::empty())
    );
}

#[test]
fn test_with_modifiers() {
    assert_eq!(
        parse_key_event("ctrl-a").unwrap(),
        KeyEvent::new(KeyCode::Char('a'), KeyModifiers::control())
    );

    assert_eq!(
        parse_key_event("alt-enter").unwrap(),
        KeyEvent::new(KeyCode::Enter, KeyModifiers::alt())
    );

    assert_eq!(
        parse_key_event("shift-esc").unwrap(),
        KeyEvent::new(KeyCode::Esc, KeyModifiers::shift())
    );
}

#[test]
fn test_multiple_modifiers() {
    assert_eq!(
        parse_key_event("ctrl-alt-a").unwrap(),
        KeyEvent::new(
            KeyCode::Char('a'),
            KeyModifiers::control() | KeyModifiers::alt()
        )
    );

    assert_eq!(
        parse_key_event("ctrl-shift-enter").unwrap(),
        KeyEvent::new(KeyCode::Enter, KeyModifiers::control() | KeyModifiers::shift())
    );
}

#[test]
fn test_reverse_multiple_modifiers() {
    assert_eq!(
        key_event_to_string(&KeyEvent::new(
            KeyCode::Char('a'),
            KeyModifiers::control() | KeyModifiers::alt()
        )),
        "ctrl-alt-a".to_string()
    );
}

#[test]
fn test_invalid_keys() {
    assert!(parse_key_event("invalid-key").is_err());
    assert!(parse_key_event("ctrl-invalid-key").is_err());
}

#[test]
fn test_case_insensitivity() {
    assert_eq!(
        parse_key_event("CTRL-a").unwrap(),
        KeyEvent::new(KeyCode::Char('a'), KeyModifiers::control())
    );

    assert_eq!(
        parse_key_event("AlT-eNtEr").unwrap(),
        KeyEvent::new(KeyCode::Enter, KeyModifiers::alt())
    );
}

#[test]
fn test_config() {
    let c = AppConfiguration::default();
    assert_eq!(
        c.keybindings
            .get(&Mode::Global)
            .unwrap()
            .get(&parse_key_sequence("<q>").unwrap())
            .unwrap(),
        &Action::ToggleShowQuit
    );
}

#[test]
fn invalid_key_reports_the_name_it_could_not_read() {
    assert_eq!(
        parse_key_event("Ctrl-Invalid-Key"),
        Err(Error::InvalidKeyEvent("invalid-key".to_string()))
    );
}

#[test]
fn shift_turns_a_letter_into_upper_case() {
    assert_eq!(
        parse_key_event("shift-a").unwrap(),
        KeyEvent::new(KeyCode::Char('A'), KeyModifiers::shift())
    );
}

#[test]
fn back_tab_brings_its_own_shift() {
    assert_eq!(
        parse_key_event("backtab").unwrap(),
        KeyEvent::new(KeyCode::BackTab, KeyModifiers::shift())
    );
    assert_eq!(
        parse_key_event("back tab").unwrap(),
        KeyEvent::new(KeyCode::BackTab, KeyModifiers::shift())
    );
}

#[test]
fn named_keys_are_read() {
    assert_eq!(parse_key_event("f12").unwrap().code, KeyCode::F(12));
    assert_eq!(parse_key_event("space").unwrap().code, KeyCode::Char(' '));
    assert_eq!(parse_key_event("hyphen").unwrap().code, KeyCode::Char('-'));
    assert_eq!(parse_key_event("minus").unwrap().code, KeyCode::Char('-'));
    assert_eq!(parse_key_event("pagedown").unwrap().code, KeyCode::PageDown);
}

#[test]
fn a_character_of_several_bytes_names_no_key() {
    assert!(parse_key_event("é").is_err());
}

#[test]
fn modifiers_are_split_off_in_any_order() {
    let (rest, modifiers) = extract_modifiers("shift-alt-ctrl-x");
    assert_eq!(rest, "x");
    assert_eq!(modifiers.bits, 7);
    let (rest, modifiers) = extract_modifiers("enter");
    assert_eq!(rest, "enter");
    assert_eq!(modifiers, KeyModifiers::empty());
}

#[test]
fn key_code_errors_hold_the_text() {
    assert_eq!(
        parse_key_code_with_modifiers("nokey", KeyModifiers::empty()),
        Err(Error::InvalidKeyEvent("nokey".to_string()))
    );
    assert_eq!(
        parse_key_code_with_modifiers("tab", KeyModifiers::control()),
        Ok(KeyEvent::new(KeyCode::Tab, KeyModifiers::control()))
    );
}

#[test]
fn sequences_of_several_keys_are_read_in_order() {
    assert_eq!(
        parse_key_sequence("<ctrl-x><ctrl-s>").unwrap(),
        vec![
            KeyEvent::new(KeyCode::Char('x'), KeyModifiers::control()),
            KeyEvent::new(KeyCode::Char('s'), KeyModifiers::control()),
        ]
    );
    assert_eq!(
        parse_key_sequence("<g><g><enter>").unwrap(),
        vec![
            KeyEvent::new(KeyCode::Char('g'), KeyModifiers::empty()),
            KeyEvent::new(KeyCode::Char('g'), KeyModifiers::empty()),
            KeyEvent::new(KeyCode::Enter, KeyModifiers::empty()),
        ]
    );
}

#[test]
fn a_sequence_without_brackets_is_one_key() {
    assert_eq!(
        parse_key_sequence("q").unwrap(),
        vec![KeyEvent::new(KeyCode::Char('q'), KeyModifiers::empty())]
    );
}

#[test]
fn unpaired_brackets_are_refused_with_the_whole_text() {
    assert_eq!(
        parse_key_sequence("<q"),
        Err(Error::InvalidKeyEvent("<q".to_string()))
    );
}

#[test]
fn a_sequence_fails_at_its_first_bad_key() {
    assert_eq!(
        parse_key_sequence("<a><nokey><alsonot>"),
        Err(Error::InvalidKeyEvent("nokey".to_string()))
    );
}

#[test]
fn keys_are_written_with_their_modifiers_in_fixed_order() {
    let all = KeyModifiers::alt() | KeyModifiers::shift() | KeyModifiers::control();
    assert_eq!(
        key_event_to_string(&KeyEvent::new(KeyCode::Enter, all)),
        "ctrl-shift-alt-enter"
    );
    assert_eq!(
        key_event_to_string(&KeyEvent::new(KeyCode::Char(' '), KeyModifiers::empty())),
        "space"
    );
    assert_eq!(
        key_event_to_string(&KeyEvent::new(KeyCode::F(11), KeyModifiers::empty())),
        "f(11)"
    );
    assert_eq!(
        key_event_to_string(&KeyEvent::new(KeyCode::Null, KeyModifiers::empty())),
        ""
    );
}

#[test]
fn default_bindings_hold_every_page_table() {
    let bindings = KeyBindings::default();
    assert_eq!(bindings.modes.len(), 9);
    let login = bindings.get(&Mode::Login).unwrap();
    assert_eq!(
        login.get(&vec![KeyEvent::new(KeyCode::BackTab, KeyModifiers::shift())]),
        Some(&Action::Back)
    );
    assert_eq!(
        login.get(&vec![KeyEvent::new(KeyCode::Tab, KeyModifiers::empty())]),
        Some(&Action::Forward)
    );
    assert_eq!(bindings.get(&Mode::WorldMap).unwrap().bindings.len(), 0);
    assert!(bindings.get(&Mode::Signup).is_none());
    let global = bindings.get(&Mode::Global).unwrap();
    assert_eq!(
        global.get(&vec![KeyEvent::new(KeyCode::Char(' '), KeyModifiers::control())]),
        Some(&Action::ToggleShowHelp)
    );
    assert_eq!(
        global.get(&vec![KeyEvent::new(KeyCode::Char('z'), KeyModifiers::empty())]),
        None
    );
}
