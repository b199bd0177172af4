use ratatui::crossterm::event as term;
use sympil::input::{to_input_request, InputRequest};
use sympil::keys::{KeyCode, KeyEvent, KeyEventKind, KeyModifiers};

fn code_to_terminal(code: KeyCode) -> term::KeyCode {
    match code {
        KeyCode::Backspace => term::KeyCode::Backspace,
        KeyCode::Enter => term::KeyCode::Enter,
        KeyCode::Left => term::KeyCode::Left,
        KeyCode::Right => term::KeyCode::Right,
        KeyCode::Up => term::KeyCode::Up,
        KeyCode::Down => term::KeyCode::Down,
        KeyCode::Home => term::KeyCode::Home,
        KeyCode::End => term::KeyCode::End,
        KeyCode::PageUp => term::KeyCode::PageUp,
        KeyCode::PageDown => term::KeyCode::PageDown,
        KeyCode::Tab => term::KeyCode::Tab,
        KeyCode::BackTab => term::KeyCode::BackTab,
        KeyCode::Delete => term::KeyCode::Delete,
        KeyCode::Insert => term::KeyCode::Insert,
        KeyCode::F(n) => term::KeyCode::F(n),
        KeyCode::Char(c) => term::KeyCode::Char(c),
        KeyCode::Null => term::KeyCode::Null,
        KeyCode::Esc => term::KeyCode::Esc,
    }
}

fn kind_to_terminal(kind: KeyEventKind) -> term::KeyEventKind {
    match kind {
        KeyEventKind::Press => term::KeyEventKind::Press,
        KeyEventKind::Repeat => term::KeyEventKind::Repeat,
        KeyEventKind::Release => term::KeyEventKind::Release,
    }
}

fn request_from_outside(request: tui_input::InputRequest) -> InputRequest {
    match request {
        tui_input::InputRequest::SetCursor(at) => InputRequest::SetCursor(at),
        tui_input::InputRequest::InsertChar(c) => InputRequest::InsertChar(c),
        tui_input::InputRequest::GoToPrevChar => InputRequest::GoToPrevChar,
        tui_input::InputRequest::GoToNextChar => InputRequest::GoToNextChar,
        tui_input::InputRequest::GoToPrevWord => InputRequest::GoToPrevWord,
        tui_input::InputRequest::GoToNextWord => InputRequest::GoToNextWord,
        tui_input::InputRequest::GoToStart => InputRequest::GoToStart,
        tui_input::InputRequest::GoToEnd => InputRequest::GoToEnd,
        tui_input::InputRequest::DeletePrevChar => InputRequest::DeletePrevChar,
        tui_input::InputRequest::DeleteNextChar => InputRequest::DeleteNextChar,
        tui_input::InputRequest::DeletePrevWord => InputRequest::DeletePrevWord,
        tui_input::InputRequest::DeleteNextWord => InputRequest::DeleteNextWord,
        tui_input::InputRequest::DeleteLine => InputRequest::DeleteLine,
        tui_input::InputRequest::DeleteTillEnd => InputRequest::DeleteTillEnd,
    }
}

#[test]
fn keys_lead_to_the_requests_that_tui_input_makes_of_them() {
    let mut codes = vec![
        KeyCode::Backspace,
        KeyCode::Enter,
        KeyCode::Left,
        KeyCode::Right,
        KeyCode::Up,
        KeyCode::Down,
        KeyCode::Home,
        KeyCode::End,
        KeyCode::PageUp,
        KeyCode::PageDown,
        KeyCode::Tab,
        KeyCode::BackTab,
        KeyCode::Delete,
        KeyCode::Insert,
        KeyCode::F(1),
        KeyCode::F(12),
        KeyCode::Null,
        KeyCode::Esc,
    ];
    for c in ('a'..='z').chain('A'..='Z').chain("0 .-é漢\n".chars()) {
        codes.push(KeyCode::Char(c));
    }
    let kinds = [KeyEventKind::Press, KeyEventKind::Repeat, KeyEventKind::Release];
    let mut compared = 0;
    for code in codes {
        for bits in 0u8..64 {
            for kind in kinds {
                let key = KeyEvent { code, modifiers: KeyModifiers { bits }, kind };
                let event = term::Event::Key(term::KeyEvent::new_with_kind(
                    code_to_terminal(code),
                    term::KeyModifiers::from_bits_truncate(bits),
                    kind_to_terminal(kind),
                ));
                let outside =
                    tui_input::backend::crossterm::to_input_request(&event).map(request_from_outside);
                assert_eq!(to_input_request(&key), outside, "{:?}", key);
                compared += 1;
            }
        }
    }
    assert_eq!(compared, (18 + 26 + 26 + 7) * 64 * 3);
}
