use sympil::action::{Action, InputMode, Mode};
use sympil::component::{ActionSender, Ctx, Modal, Outgoing};
use sympil::components::clip::{handle_key_event, render_intro, render_menu, Clip};
use sympil::components::controls::Controls;
use sympil::components::filepicker::Filepicker;
use sympil::components::filestats::Filestats;
use sympil::components::help::Help;
use sympil::components::loader::Loader;
use sympil::components::log::Log;
use sympil::components::login::Login as EmailLogin;
use sympil::components::menu::Menu;
use sympil::components::mouselist::MouseList;
use sympil::components::navigation::Navigation;
use sympil::components::popup::Popup;
use sympil::components::quit::Quit;
use sympil::components::textinput::{InputMode as BoxMode, TextInput};
use sympil::components::toast::Toast;
use sympil::components::wave::{RandomSignal, Signal, Wave};
use sympil::conf::{AppConfiguration, Args};
use sympil::directory::{DirectoryRead, FileEntry};
use sympil::keys::{
    KeyCode, KeyEvent, KeyModifiers, MouseButton, MouseEvent, MouseEventKind,
};
use sympil::layout::Rect;
use sympil::render::{Color, Frame, Widget};
use sympil::scroll::{MouseListState, ScrollState};

fn ctx_at(now: u64) -> Ctx {
    let args = Args {
        web: false,
        username: None,
        password: None,
        config_file: String::new(),
        app_data_path: String::new(),
        log_level: String::new(),
    };
    let mut ctx = Ctx::new(AppConfiguration::default(), args);
    ctx.now = now;
    ctx
}

fn key(code: KeyCode) -> KeyEvent {
    KeyEvent::new(code, KeyModifiers::empty())
}

fn mouse(kind: MouseEventKind, column: u16, row: u16) -> MouseEvent {
    MouseEvent { kind, column, row, modifiers: KeyModifiers::empty() }
}

fn screen() -> Rect {
    Rect { x: 0, y: 0, width: 100, height: 40 }
}

fn text_of(widget: &Widget) -> Vec<String> {
    match widget {
        Widget::Paragraph(p) => p
            .lines
            .iter()
            .map(|l| l.spans.iter().map(|s| s.content.as_str()).collect::<String>())
            .collect(),
        Widget::List(l) => l
            .items
            .iter()
            .map(|i| i.line.spans.iter().map(|s| s.content.as_str()).collect::<String>())
            .collect(),
        Widget::Block(b) => b
            .titles
            .iter()
            .map(|t| t.line.spans.iter().map(|s| s.content.as_str()).collect::<String>())
            .collect(),
        _ => Vec::new(),
    }
}

fn home() -> DirectoryRead {
    DirectoryRead {
        path: "/home/ann".to_string(),
        parent: "/home".to_string(),
        entries: vec![
            FileEntry {
                name: "notes.md".to_string(),
                ctime: Some(0),
                path: "/home/ann/notes.md".to_string(),
                size: 12,
                is_dir: false,
            },
            FileEntry {
                name: "music".to_string(),
                ctime: None,
                path: "/home/ann/music".to_string(),
                size: 4,
                is_dir: true,
            },
            FileEntry {
                name: ".cache".to_string(),
                ctime: None,
                path: "/home/ann/.cache".to_string(),
                size: 9,
                is_dir: true,
            },
        ],
    }
}

#[test]
fn toast_of_five_seconds_leaves_on_the_fifth_tick_and_not_on_the_fourth() {
    let mut toast = Toast::new(0);
    assert_eq!(toast.toasts.len(), 1);
    assert_eq!(toast.toasts[0].duration, 5);
    for second in 1..=4u64 {
        toast.update(Action::Render, &ctx_at(second * 1_000_000));
        assert_eq!(toast.toasts.len(), 1, "after {} seconds", second);
        assert_eq!(toast.toasts[0].duration, 5 - second);
    }
    toast.update(Action::Render, &ctx_at(5_000_000));
    assert!(toast.toasts.is_empty());
}

#[test]
fn toast_ages_by_the_clock_and_not_by_the_frames() {
    let mut toast = Toast::new(0);
    for frame in 1..=30u64 {
        toast.render_tick(frame * 30_000);
    }
    // thirty frames within 0.9 seconds
    assert_eq!(toast.toasts[0].duration, 5);
    assert_eq!(toast.render_frames, 30);
    toast.render_tick(1_000_000);
    assert_eq!(toast.toasts[0].duration, 4);
    assert_eq!(toast.render_frames, 0);
    assert_eq!(toast.render_start_time, 1_000_000);
    // a clock that stepped back ages nothing
    toast.render_tick(500_000);
    assert_eq!(toast.toasts[0].duration, 4);
}

#[test]
fn toast_stack_takes_new_toasts_at_its_end() {
    let mut toast = Toast::new(0);
    toast.update(Action::Toast("Hello".to_string(), "World".to_string()), &ctx_at(0));
    assert_eq!(toast.toasts.len(), 2);
    assert_eq!(
        toast.toasts[1],
        Modal {
            title: Some("Hello".to_string()),
            content: "World".to_string(),
            subaction: None,
            duration: 5
        }
    );
    toast.update(Action::CloseToast, &ctx_at(0));
    assert_eq!(toast.toasts.len(), 1);
    assert_eq!(toast.toasts[0].content, "This is a toast message.");
    toast.update(Action::CloseToast, &ctx_at(0));
    toast.update(Action::CloseToast, &ctx_at(0));
    assert!(toast.toasts.is_empty());
    assert_eq!(toast.handle_key_events(key(KeyCode::Esc)), Some(Action::CloseToast));
    assert_eq!(toast.handle_key_events(key(KeyCode::Enter)), Some(Action::SelectOption));
    assert_eq!(toast.handle_key_events(key(KeyCode::Tab)), None);
    assert_eq!(toast.current_mode(), InputMode::Normal);
}

#[test]
fn toast_draws_its_front_entry_inside_its_border() {
    let mut toast = Toast::new(0);
    toast.register_action_handler(ActionSender::new());
    toast.register_layout_handler(screen());
    assert!(toast.area.width > 2);
    assert_eq!(toast.content_area.x, toast.area.x + 1);
    assert_eq!(toast.content_area.width, toast.area.width - 2);
    assert_eq!(toast.content_area.y, toast.area.y + 1);
    let mut frame = Frame::new(screen());
    toast.draw(&mut frame);
    assert_eq!(frame.ops.len(), 3);
    assert_eq!(frame.ops[0].widget, Widget::Clear);
    assert_eq!(text_of(&frame.ops[1].widget), vec!["This is a toast message."]);
    assert_eq!(text_of(&frame.ops[2].widget), vec!["Toast"]);
    toast.toasts.clear();
    let mut frame = Frame::new(screen());
    toast.draw(&mut frame);
    assert!(frame.ops.is_empty());
}

#[test]
fn popup_answers_cycle_and_yes_hands_out_the_follow_up() {
    let mut popup = Popup::new();
    let ctx = ctx_at(0);
    assert_eq!(popup.update(Action::Forward, &ctx), None);
    assert_eq!(popup.menu_index, 0);
    popup.update(Action::Popup("Sure?".to_string(), "Really".to_string()), &ctx);
    assert_eq!(popup.popups.len(), 1);
    popup.popups[0].subaction = Some(Action::Quit);
    popup.update(Action::Forward, &ctx);
    assert_eq!(popup.menu_index, 1);
    popup.update(Action::Forward, &ctx);
    assert_eq!(popup.menu_index, 0);
    popup.update(Action::Back, &ctx);
    assert_eq!(popup.menu_index, 1);
    assert_eq!(popup.update(Action::SelectOption, &ctx), Some(Action::Quit));
    assert!(popup.popups.is_empty());
    popup.update(Action::Popup("Again".to_string(), "?".to_string()), &ctx);
    popup.menu_index = 0;
    assert_eq!(popup.update(Action::SelectOption, &ctx), None);
    assert!(popup.popups.is_empty());
    popup.update(Action::Popup("Third".to_string(), "?".to_string()), &ctx);
    popup.update(Action::ClosePopup, &ctx);
    assert!(popup.popups.is_empty());
    assert_eq!(popup.handle_key_events(key(KeyCode::Esc)), Some(Action::ClosePopup));
}

#[test]
fn popup_draws_the_answers_only_where_something_follows() {
    let mut popup = Popup::new();
    popup.register_layout_handler(screen());
    popup.update(Action::Popup("Title".to_string(), "Body".to_string()), &ctx_at(0));
    let mut frame = Frame::new(screen());
    popup.draw(&mut frame);
    assert_eq!(frame.ops.len(), 3);
    assert_eq!(text_of(&frame.ops[1].widget), vec!["Title", "[x]"]);
    assert_eq!(text_of(&frame.ops[2].widget), vec!["Body", "", ""]);
    popup.popups[0].subaction = Some(Action::Quit);
    popup.menu_index = 1;
    let mut frame = Frame::new(screen());
    popup.draw(&mut frame);
    assert_eq!(text_of(&frame.ops[2].widget), vec!["Body", "", "No|Yes"]);
    match &frame.ops[2].widget {
        Widget::Paragraph(p) => {
            assert_eq!(p.lines[2].spans[2].style.bg, Some(Color::Yellow));
            assert_eq!(p.lines[2].spans[0].style.bg, None);
        }
        other => panic!("unexpected widget {:?}", other),
    }
}

#[test]
fn quit_dialog_sends_quit_only_on_yes() {
    let mut quit = Quit::new();
    let ctx = ctx_at(0);
    quit.register_action_handler(ActionSender::new());
    assert_eq!(quit.handle_key_events(key(KeyCode::Enter)), None);
    quit.update(Action::SelectOption, &ctx);
    assert!(quit.action_tx.as_ref().unwrap().queue.is_empty());
    quit.update(Action::ToggleShowQuit, &ctx);
    assert!(quit.show);
    assert_eq!(quit.menu_index, 0);
    assert_eq!(quit.handle_key_events(key(KeyCode::Char('l'))), Some(Action::Forward));
    assert_eq!(quit.handle_key_events(key(KeyCode::Char('h'))), Some(Action::Back));
    quit.update(Action::SelectOption, &ctx);
    assert!(!quit.show);
    assert!(quit.action_tx.as_ref().unwrap().queue.is_empty());
    quit.update(Action::ToggleShowQuit, &ctx);
    quit.update(Action::Forward, &ctx);
    assert_eq!(quit.menu_index, 1);
    quit.update(Action::SelectOption, &ctx);
    assert!(!quit.show);
    assert_eq!(quit.action_tx.as_ref().unwrap().queue, vec![Outgoing::Send(Action::Quit)]);
    quit.update(Action::ToggleShowQuit, &ctx);
    quit.update(Action::ClosePopup, &ctx);
    assert!(!quit.show);
    quit.register_layout_handler(screen());
    assert_eq!(quit.area.height, 3);
    let mut frame = Frame::new(screen());
    quit.draw(&mut frame);
    assert!(frame.ops.is_empty());
    quit.update(Action::ToggleShowQuit, &ctx);
    quit.draw(&mut frame);
    assert_eq!(text_of(&frame.ops[1].widget), vec!["Close Application?"]);
    assert_eq!(text_of(&frame.ops[2].widget), vec!["No|Yes"]);
}

#[test]
fn help_toggles_and_hides_on_escape() {
    let mut help = Help::new();
    help.update(Action::ToggleShowHelp, &ctx_at(0));
    assert!(help.show);
    help.register_layout_handler(screen());
    let mut frame = Frame::new(screen());
    help.draw(&mut frame);
    assert_eq!(frame.ops.len(), 2);
    assert_eq!(text_of(&frame.ops[1].widget), vec!["Key-Bindings"]);
    assert_eq!(help.handle_key_events(key(KeyCode::Esc)), Some(Action::Update));
    assert!(!help.show);
    assert_eq!(help.handle_key_events(key(KeyCode::Enter)), Some(Action::SelectOption));
    help.update(Action::Tick, &ctx_at(0));
    assert!(!help.show);
}

#[test]
fn loader_shows_a_new_picture_every_third_tick() {
    let mut loader = Loader::new();
    loader.register_layout_handler(screen());
    assert_eq!(loader.area.height, 1);
    let pictures = ["⡇", "⠏", "⠛", "⠹", "⢸", "⣰", "⣤", "⣆"];
    for tick in 0..30usize {
        let mut frame = Frame::new(screen());
        loader.draw(&mut frame);
        assert_eq!(text_of(&frame.ops[0].widget), vec![pictures[(tick / 3) % 8]]);
        loader.update(Action::Render, &ctx_at(0));
    }
    loader.update(Action::Tick, &ctx_at(0));
    assert_eq!(loader.render_ticker, 30);
    loader.render_ticker = usize::MAX;
    loader.render_tick();
    assert_eq!(loader.render_ticker, usize::MAX);
}

#[test]
fn menu_selects_round_the_pages_while_it_shows() {
    let mut menu = Menu::new();
    let ctx = ctx_at(0);
    assert_eq!(menu.update(Action::SelectOption, &ctx), None);
    menu.update(Action::Forward, &ctx);
    assert_eq!(menu.options.state.selected(), None);
    menu.show = true;
    assert_eq!(menu.update(Action::SelectOption, &ctx), Some(Action::ChangeMode(Mode::Home)));
    menu.update(Action::Back, &ctx);
    menu.update(Action::Back, &ctx);
    assert_eq!(menu.options.state.selected(), Some(6));
    assert_eq!(
        menu.update(Action::SelectOption, &ctx),
        Some(Action::ChangeMode(Mode::Settings))
    );
    menu.update(Action::Forward, &ctx);
    assert_eq!(menu.options.state.selected(), Some(0));
    menu.register_layout_handler(screen());
    let mut frame = Frame::new(screen());
    menu.draw(&mut frame);
    assert_eq!(
        text_of(&frame.ops[2].widget),
        vec!["Home", "Chat", "Map", "Filebrowser", "MusicPlayer", "Blog", "Settings"]
    );
    assert_eq!(menu.handle_key_events(key(KeyCode::Esc)), Some(Action::Update));
    assert!(!menu.show);
    assert_eq!(menu.handle_key_events(key(KeyCode::Esc)), None);
}

#[test]
fn navigation_moves_through_the_views() {
    let mut navigation = Navigation::new();
    let ctx = ctx_at(0);
    assert_eq!(
        navigation.update(Action::NextView, &ctx),
        Some(Action::ChangeMode(Mode::Home))
    );
    assert_eq!(
        navigation.update(Action::NextView, &ctx),
        Some(Action::ChangeMode(Mode::Chat))
    );
    assert_eq!(
        navigation.update(Action::PreviousView, &ctx),
        Some(Action::ChangeMode(Mode::Home))
    );
    assert_eq!(
        navigation.update(Action::PreviousView, &ctx),
        Some(Action::ChangeMode(Mode::Settings))
    );
    assert_eq!(navigation.update(Action::Tick, &ctx), None);
    assert_eq!(navigation.handle_key_events(key(KeyCode::Esc)), Some(Action::EnterNormal));
}

#[test]
fn navigation_follows_the_pointer() {
    let mut navigation = Navigation::new();
    let ctx = ctx_at(0);
    let bar = Rect { x: 0, y: 0, width: 70, height: 1 };
    navigation.register_layout_handler(bar);
    assert_eq!(navigation.areas.len(), 7);
    let third = navigation.areas[2];
    let moved = mouse(MouseEventKind::Moved, third.x, third.y);
    assert_eq!(navigation.handle_mouse_events(moved), None);
    assert_eq!(navigation.current, None);
    navigation.update(Action::Mouse(moved), &ctx);
    assert_eq!(navigation.handle_mouse_events(moved), None);
    assert_eq!(navigation.current, Some(Mode::WorldMap));
    let away = mouse(MouseEventKind::Moved, 5, 30);
    navigation.update(Action::Mouse(away), &ctx);
    navigation.handle_mouse_events(away);
    assert_eq!(navigation.current, None);
    let press = mouse(MouseEventKind::Down(MouseButton::Left), third.x, third.y);
    navigation.update(Action::Mouse(press), &ctx);
    assert_eq!(
        navigation.handle_mouse_events(press),
        Some(Action::ChangeMode(Mode::WorldMap))
    );
    assert_eq!(navigation.options.state.selected(), Some(2));
    let mut frame = Frame::new(bar);
    navigation.draw(&mut frame);
    assert_eq!(frame.ops.len(), 8);
    assert_eq!(text_of(&frame.ops[3].widget), vec!["[Map]"]);
    assert_eq!(text_of(&frame.ops[1].widget), vec![" Home "]);
}

#[test]
fn file_pane_scrolls_only_while_it_has_the_keys() {
    let text = "one\ntwo\nthree\nfour".to_string();
    let mut pane = Filestats::new(text, "note".to_string(), 0, ScrollState::new(4));
    let ctx = ctx_at(0);
    pane.update(Action::Forward, &ctx);
    assert_eq!(pane.state.position, 0);
    pane.update(Action::ToggleSidebar, &ctx);
    assert!(pane.scrollable);
    pane.update(Action::Forward, &ctx);
    pane.update(Action::Forward, &ctx);
    assert_eq!(pane.state.position, 2);
    pane.update(Action::Back, &ctx);
    assert_eq!(pane.state.position, 1);
    pane.scroll_top();
    assert_eq!(pane.state.position, 0);
    pane.scroll_down();
    pane.scroll_up();
    assert_eq!(pane.state.position, 0);
}

#[test]
fn file_pane_draws_name_date_text_and_scrollbar() {
    let text = "# Title\n\nfirst\n\nsecond\n".to_string();
    let mut pane = Filestats::new(text.clone(), "note".to_string(), 86_400 + 3_661, ScrollState::new(5));
    pane.state.position = 4;
    pane.register_layout_handler(Rect { x: 0, y: 0, width: 40, height: 11 });
    let mut frame = Frame::new(screen());
    pane.draw(&mut frame);
    assert_eq!(frame.ops.len(), 5);
    assert_eq!(text_of(&frame.ops[1].widget), vec!["File: note"]);
    assert_eq!(text_of(&frame.ops[2].widget), vec!["1970-01-02 01:01:01"]);
    // ten rows of text: the rendered markdown fits, so it shows from its top
    assert_eq!(frame.ops[3].area.height, 10);
    match &frame.ops[3].widget {
        Widget::Markdown(m) => {
            assert_eq!(m.source, text);
            assert_eq!(m.scroll, 0);
        }
        other => panic!("unexpected widget {:?}", other),
    }
    match &frame.ops[4].widget {
        Widget::Scrollbar(bar) => {
            assert_eq!(bar.content_length, 0);
            assert_eq!(bar.position, 0);
        }
        other => panic!("unexpected widget {:?}", other),
    }
    assert_eq!(pane.state.view_size, 10);
    assert_eq!(pane.state.position, 4);
    let empty = Filestats::empty(7);
    assert_eq!(empty.ctime, 7);
    assert_eq!(empty.state.max, 0);
}

#[test]
fn file_pane_scrolls_a_long_text_to_its_line() {
    let mut text = String::new();
    for i in 0..50 {
        text.push_str(&format!("line {}\n\n", i));
    }
    let mut pane = Filestats::new(text, "long".to_string(), 0, ScrollState::new(96));
    pane.state.position = 7;
    pane.register_layout_handler(Rect { x: 0, y: 0, width: 40, height: 11 });
    let mut frame = Frame::new(screen());
    pane.draw(&mut frame);
    match &frame.ops[3].widget {
        Widget::Markdown(m) => assert_eq!(m.scroll, 7),
        other => panic!("unexpected widget {:?}", other),
    }
    match &frame.ops[4].widget {
        Widget::Scrollbar(bar) => {
            assert_eq!(bar.content_length, 86);
            assert_eq!(bar.position, 7);
        }
        other => panic!("unexpected widget {:?}", other),
    }
}

#[test]
fn picker_lists_and_enters_directories() {
    let mut picker = Filepicker::new(false, None, home());
    assert!(picker.show);
    assert_eq!(picker.directory, "/home/ann");
    let names: Vec<&str> = picker.files.items.iter().map(|f| f.name.as_str()).collect();
    assert_eq!(names, vec!["..", "music", "notes.md"]);
    assert_eq!(picker.files.items[0].size, 16);
    picker.register_action_handler(ActionSender::new());
    let ctx = ctx_at(0);
    picker.update(Action::Forward, &ctx);
    picker.update(Action::Forward, &ctx);
    assert_eq!(picker.files.state.selected(), Some(1));
    assert_eq!(picker.selected_directory(), Some("/home/ann/music".to_string()));
    assert_eq!(
        picker.wanted_directory(&key(KeyCode::Enter)),
        Some("/home/ann/music".to_string())
    );
    let music = DirectoryRead {
        path: "/home/ann/music".to_string(),
        parent: "/home/ann".to_string(),
        entries: Vec::new(),
    };
    assert_eq!(picker.handle_key_events(key(KeyCode::Enter), Some(music)), Some(Action::Update));
    assert_eq!(picker.directory, "/home/ann/music");
    assert_eq!(picker.files.items.len(), 1);
    assert_eq!(picker.files.items[0].path, "/home/ann");
    assert_eq!(picker.files.state.selected(), Some(0));
}

#[test]
fn picker_answers_a_file_with_a_toast() {
    let mut picker = Filepicker::new(false, None, home());
    picker.register_action_handler(ActionSender::new());
    picker.files.state.select(Some(2));
    assert_eq!(picker.selected_directory(), None);
    assert_eq!(picker.wanted_directory(&key(KeyCode::Enter)), None);
    picker.load_selected(None);
    assert_eq!(
        picker.action_tx.as_ref().unwrap().queue,
        vec![Outgoing::Send(Action::Toast(
            "Error".to_string(),
            "Selected item is not a directory".to_string()
        ))]
    );
    assert_eq!(picker.directory, "/home/ann");
}

#[test]
fn picker_shows_hidden_entries_on_demand() {
    let mut picker = Filepicker::new(true, Some(vec!["md".to_string()]), home());
    assert!(!picker.show);
    assert_eq!(picker.restrictions, vec!["md".to_string()]);
    assert_eq!(picker.wanted_directory(&key(KeyCode::Char('.'))), Some("/home/ann".to_string()));
    assert_eq!(
        picker.handle_key_events(key(KeyCode::Char('.')), Some(home())),
        Some(Action::Update)
    );
    assert!(picker.hidden);
    let names: Vec<&str> = picker.files.items.iter().map(|f| f.name.as_str()).collect();
    assert_eq!(names, vec!["..", "music", ".cache", "notes.md"]);
    picker.update(Action::OpenFilepicker, &ctx_at(0));
    assert!(picker.show);
    assert_eq!(picker.handle_key_events(key(KeyCode::Esc), None), Some(Action::Update));
    assert!(!picker.show);
    assert_eq!(picker.handle_key_events(key(KeyCode::Char('x')), None), None);
    picker.register_popup_layout_handler(screen());
    assert_eq!(picker.areas.len(), 2);
}

#[test]
fn picker_draws_its_rows_with_signs() {
    let mut picker = Filepicker::new(false, None, home());
    picker.register_layout_handler(Rect { x: 0, y: 0, width: 20, height: 10 });
    assert_eq!(picker.areas[1], Rect { x: 1, y: picker.areas[0].y + 1, width: 18, height: picker.areas[0].height - 2 });
    let mut frame = Frame::new(screen());
    picker.draw(&mut frame);
    assert_eq!(frame.ops.len(), 4);
    assert_eq!(text_of(&frame.ops[1].widget), vec!["/home/ann"]);
    assert_eq!(text_of(&frame.ops[2].widget), vec!["◎"]);
    assert_eq!(text_of(&frame.ops[3].widget), vec!["🖿 ..", "🖿 music", "  notes.md"]);
    picker.popup = true;
    picker.show = false;
    let mut frame = Frame::new(screen());
    picker.draw(&mut frame);
    assert!(frame.ops.is_empty());
}

#[test]
fn picker_selects_the_row_where_the_button_is_released() {
    let mut picker = Filepicker::new(false, None, home());
    picker.register_action_handler(ActionSender::new());
    picker.register_layout_handler(Rect { x: 0, y: 0, width: 20, height: 10 });
    let inside = picker.areas[1];
    picker.mouse = Some(mouse(MouseEventKind::Up(MouseButton::Left), inside.x, inside.y));
    assert_eq!(picker.handle_mouse_events(mouse(MouseEventKind::Moved, 0, 0)), None);
    // both areas hold the point; the last one wins the selection
    assert_eq!(picker.files.state.selected(), Some(1));
    assert_eq!(
        picker.action_tx.as_ref().unwrap().queue,
        vec![
            Outgoing::Send(Action::ChangeMode(Mode::Home)),
            Outgoing::Send(Action::ChangeMode(Mode::Chat))
        ]
    );
}

#[test]
fn mouse_list_selects_rows_under_the_pointer() {
    let items = vec!["a".to_string(), "b".to_string(), "c".to_string()];
    let mut list = MouseList::new(items, MouseListState::new(3));
    list.register_layout_handler(Rect { x: 0, y: 0, width: 10, height: 3 });
    assert_eq!(list.state.areas.len(), 3);
    assert_eq!(list.state.areas[1], Rect { x: 0, y: 1, width: 10, height: 1 });
    assert_eq!(list.handle_mouse_events(mouse(MouseEventKind::Moved, 0, 0)), None);
    assert_eq!(list.state.selected, None);
    list.mouse = Some(mouse(MouseEventKind::Moved, 4, 2));
    list.handle_mouse_events(mouse(MouseEventKind::Moved, 0, 0));
    assert_eq!(list.state.selected, Some(2));
    assert_eq!(list.state.position, 2);
    list.scroll_top();
    assert_eq!(list.state.position, 0);
    list.scroll_down();
    list.scroll_up();
    list.scroll_up();
    assert_eq!(list.state.position, 0);
    assert_eq!(list.update(Action::Forward, &ctx_at(0)), None);
    let mut frame = Frame::new(screen());
    list.draw(&mut frame);
    assert_eq!(frame.ops.len(), 5);
    assert_eq!(text_of(&frame.ops[3].widget), vec!["c"]);
    match &frame.ops[3].widget {
        Widget::Paragraph(p) => assert!(p.style.bold),
        other => panic!("unexpected widget {:?}", other),
    }
    assert_eq!(list.state.view_size, 3);
    assert_eq!(MouseList::default().items.len(), 0);
    let copy = list.state.clone();
    assert_eq!(copy, list.state);
}

#[test]
fn controls_count_seconds_while_they_play() {
    let mut controls = Controls::new(0);
    controls.update(Action::Tick, &ctx_at(2_000_000));
    assert_eq!(controls.time, 0);
    controls.update(Action::PausePlay, &ctx_at(2_000_000));
    assert!(controls.playing);
    controls.update(Action::Tick, &ctx_at(2_500_000));
    assert_eq!(controls.time, 1);
    assert_eq!(controls.start_time, 2_500_000);
    controls.update(Action::Tick, &ctx_at(3_000_000));
    assert_eq!(controls.time, 1);
    controls.tick(3_500_000);
    assert_eq!(controls.time, 2);
    controls.time = 754;
    controls.register_layout_handler(Rect { x: 0, y: 0, width: 30, height: 8 });
    let mut frame = Frame::new(screen());
    controls.draw(&mut frame);
    assert_eq!(frame.ops.len(), 3);
    match &frame.ops[1].widget {
        Widget::LineGauge(g) => assert_eq!(g.label, "12:34 ⏪︎ ⏸︎ ⏩︎ "),
        other => panic!("unexpected widget {:?}", other),
    }
    assert_eq!(frame.ops[1].area, Rect { x: 0, y: 7, width: 30, height: 1 });
    assert_eq!(text_of(&frame.ops[2].widget), vec!["Now Playing: 1093 - YEAT (2093)"]);
    assert_eq!(controls.state.view_size, 6);
    controls.time = 5;
    controls.playing = false;
    let mut frame = Frame::new(screen());
    controls.draw(&mut frame);
    match &frame.ops[1].widget {
        Widget::LineGauge(g) => assert_eq!(g.label, "00:05 ⏪︎ ⏯ ⏩︎ "),
        other => panic!("unexpected widget {:?}", other),
    }
}

#[test]
fn log_panel_reads_and_scrolls() {
    let mut log = Log::new(100);
    let mut ctx = ctx_at(0);
    ctx.today = 200;
    assert_eq!(log.log, "test text");
    assert_eq!(log.log_path(), None);
    log.update(Action::ToggleLog, &ctx, None);
    assert!(log.show);
    assert_eq!(log.wants_log(&Action::Tick), None);
    log.update(Action::Tick, &ctx, Some(Ok("ignored".to_string())));
    assert_eq!(log.log, "test text");
    log.register_config_handler(AppConfiguration::default());
    assert_eq!(log.wants_log(&Action::Tick), Some("~/.sympil/sympil.log".to_string()));
    assert_eq!(log.wants_log(&Action::Render), None);
    log.update(Action::Tick, &ctx, Some(Ok("a\nb\nc\nd\n".to_string())));
    assert_eq!(log.log, "a\nb\nc\nd\n");
    assert_eq!(log.last_refresh, 200);
    assert_eq!(log.state, ScrollState { position: 3, view_size: 1, max: 4 });
    log.update(Action::Back, &ctx, None);
    assert_eq!(log.state.position, 2);
    log.update(Action::Forward, &ctx, None);
    log.update(Action::Forward, &ctx, None);
    assert_eq!(log.state.position, 3);
    log.update(Action::Tick, &ctx, Some(Err("gone".to_string())));
    assert_eq!(log.log, "Failed to read log file");
    assert_eq!(log.handle_key_events(key(KeyCode::Esc)), Some(Action::Update));
    assert!(!log.show);
    log.update(Action::Forward, &ctx, None);
    assert_eq!(log.state.position, 0);
}

#[test]
fn log_panel_draws_its_text_from_the_line_it_stands_at() {
    let mut log = Log::new(0);
    log.register_config_handler(AppConfiguration::default());
    log.register_layout_handler(screen());
    let mut frame = Frame::new(screen());
    log.draw(&mut frame);
    assert!(frame.ops.is_empty());
    log.show = true;
    let mut text = String::new();
    for i in 0..100 {
        text.push_str(&format!("{}\n", i));
    }
    log.tick(1, Ok(text.clone()));
    assert_eq!(log.state.position, 99);
    log.draw(&mut frame);
    assert_eq!(frame.ops.len(), 4);
    assert_eq!(text_of(&frame.ops[1].widget), vec!["Log"]);
    let window = frame.ops[2].area.height as usize;
    assert!(window > 1);
    match &frame.ops[2].widget {
        Widget::Paragraph(p) => assert_eq!(p.scroll_y as usize, 100 - window),
        other => panic!("unexpected widget {:?}", other),
    }
    assert_eq!(log.state.view_size, window);
    assert_eq!(log.state.position, 100 - window);
}

#[test]
fn wave_keeps_its_levels_in_range() {
    let mut wave = Wave::new();
    assert_eq!(wave.sparkline.points.len(), 300);
    assert!(wave.sparkline.points.iter().all(|p| *p < 100));
    let second = wave.sparkline.points[1];
    wave.update(Action::Tick, &ctx_at(0));
    assert_eq!(wave.sparkline.points.len(), 300);
    assert_eq!(wave.sparkline.points[0], second);
    wave.update(Action::Render, &ctx_at(0));
    assert_eq!(wave.sparkline.points[0], second);
    let mut signal = Signal::new(RandomSignal::new(5, 6), 3, 2);
    assert_eq!(signal.points, vec![5, 5, 5]);
    signal.points = vec![1, 2, 3];
    signal.source = RandomSignal::new(7, 8);
    signal.on_tick();
    assert_eq!(signal.points, vec![3, 7, 7]);
    signal.tick_rate = 10;
    signal.on_tick();
    assert_eq!(signal.points, vec![7; 10]);
    let mut source = RandomSignal::new(10, 20);
    for _ in 0..100 {
        let v = source.next().unwrap();
        assert!((10..20).contains(&v));
    }
    wave.register_layout_handler(Rect { x: 3, y: 4, width: 5, height: 6 });
    assert_eq!(wave.area, Rect { x: 3, y: 4, width: 5, height: 6 });
    let mut frame = Frame::new(screen());
    wave.draw(&mut frame);
    assert_eq!(frame.ops[1].widget, Widget::Sparkline(wave.sparkline.points.clone()));
    assert_eq!(wave.handle_key_events(key(KeyCode::Enter)), None);
}

#[test]
fn text_box_edits_by_characters() {
    let mut page = EmailLogin::new();
    assert_eq!(page.handle_events(key(KeyCode::Char('x'))), None);
    assert_eq!(page.input, "");
    assert_eq!(page.handle_events(key(KeyCode::Char('e'))), None);
    assert_eq!(page.input_mode, BoxMode::Editing);
    for c in "añb".chars() {
        assert_eq!(page.handle_events(key(KeyCode::Char(c))), Some(true));
    }
    assert_eq!(page.input, "añb");
    assert_eq!(page.character_index, 3);
    assert_eq!(page.byte_index(), 4);
    page.handle_events(key(KeyCode::Left));
    assert_eq!(page.byte_index(), 3);
    page.handle_events(key(KeyCode::Backspace));
    assert_eq!(page.input, "ab");
    assert_eq!(page.character_index, 1);
    page.handle_events(key(KeyCode::Char('c')));
    assert_eq!(page.input, "acb");
    page.handle_events(key(KeyCode::Right));
    page.handle_events(key(KeyCode::Right));
    assert_eq!(page.character_index, 3);
    page.handle_events(key(KeyCode::Left));
    page.handle_events(key(KeyCode::Left));
    page.handle_events(key(KeyCode::Left));
    page.handle_events(key(KeyCode::Left));
    assert_eq!(page.character_index, 0);
    page.handle_events(key(KeyCode::Backspace));
    assert_eq!(page.input, "acb");
    page.handle_events(key(KeyCode::Enter));
    assert_eq!(page.messages, vec!["acb".to_string()]);
    assert_eq!(page.input, "");
    assert_eq!(page.input_mode, BoxMode::Editing);
    page.handle_events(key(KeyCode::Esc));
    assert_eq!(page.input_mode, BoxMode::Normal);
    assert_eq!(page.clamp_cursor(9), 0);
    let mut frame = Frame::new(screen());
    page.draw(&mut frame);
    assert_eq!(frame.ops.len(), 1);
    assert_eq!(frame.ops[0].area.x, 25);
    assert_eq!(frame.ops[0].area.width, 50);
    assert_eq!(frame.ops[0].area.height, 3);
    assert_eq!(frame.cursor, None);
}

#[test]
fn text_input_submits_and_asks_for_pages() {
    let mut input = TextInput::new();
    input.register_action_handler(ActionSender::new());
    assert_eq!(input.handle_events(key(KeyCode::Char('i'))), None);
    assert_eq!(
        input.tx.as_ref().unwrap().queue,
        vec![Outgoing::Send(Action::ChangePage(sympil::action::Page::Home))]
    );
    input.handle_mouse(mouse(MouseEventKind::Down(MouseButton::Left), 0, 0));
    assert_eq!(input.input_mode, BoxMode::Editing);
    input.handle_events(key(KeyCode::Char('a')));
    input.handle_events(key(KeyCode::Char('@')));
    assert_eq!(input.input, "a@");
    let mut frame = Frame::new(screen());
    input.draw(&mut frame);
    assert_eq!(frame.ops.len(), 3);
    assert_eq!(frame.ops[1].area, Rect { x: 30, y: 7, width: 40, height: 25 });
    assert_eq!(frame.ops[2].widget, Widget::IntroEffect(40));
    assert_eq!(frame.cursor, Some(sympil::layout::Position { x: 33, y: 8 }));
    assert_eq!(input.handle_events(key(KeyCode::Enter)), Some(true));
    assert_eq!(input.messages, vec!["a@".to_string()]);
    assert_eq!(input.input_mode, BoxMode::Normal);
    assert_eq!(
        input.tx.as_ref().unwrap().queue[1],
        Outgoing::Send(Action::SubmitEmail(String::new()))
    );
    input.delete_char();
    input.move_cursor_right();
    assert_eq!(input.character_index, 0);
}

#[test]
fn opening_screen_and_its_keys() {
    let mut frame = Frame::new(screen());
    render_intro(&mut frame);
    assert_eq!(frame.ops.len(), 4);
    assert_eq!(frame.ops[1].area, Rect { x: 33, y: 19, width: 33, height: 2 });
    assert_eq!(text_of(&frame.ops[1].widget), vec!["| S Y M P I L |", "Coming soon..."]);
    assert_eq!(frame.ops[2].area.y, 23);
    assert_eq!(
        frame.ops[2].widget,
        Widget::Hyperlink("https://github.com/orhun/ratzilla".to_string())
    );
    let mut frame = Frame::new(screen());
    render_menu(&mut frame);
    assert_eq!(
        text_of(&frame.ops[0].widget),
        vec!["", "[g] GitHub Repository", "[d] Demo"]
    );
    assert_eq!(frame.ops[1].widget, Widget::IntroEffect(100));
    assert_eq!(
        handle_key_event(key(KeyCode::Char('g'))),
        Some(("https://github.com/orhun/ratzilla", true))
    );
    assert_eq!(
        handle_key_event(key(KeyCode::Char('d'))),
        Some(("https://orhun.dev/ratzilla/demo", false))
    );
    assert_eq!(handle_key_event(key(KeyCode::Enter)), None);
    let mut clip = Clip::new();
    assert_eq!(clip.text, "Press Ctrl+C to copy.\nPress Ctrl+V to paste.");
    assert_eq!(clip.handle_events(key(KeyCode::Char('c'))), None);
    assert_eq!(Clip::clipboard_request(key(KeyCode::Char('c')), true), Some(Some("i like rats")));
    assert_eq!(Clip::clipboard_request(key(KeyCode::Char('v')), true), Some(None));
    assert_eq!(Clip::clipboard_request(key(KeyCode::Char('v')), false), None);
    clip.paste("pasted".to_string());
    assert_eq!(clip.text, "pasted");
}

#[test]
fn clipboard_text_is_drawn_framed_over_the_whole_surface() {
    let mut clip = Clip::new();
    clip.paste("from elsewhere".to_string());
    let mut frame = Frame::new(Rect { x: 0, y: 0, width: 60, height: 20 });
    clip.render(&mut frame);
    assert_eq!(frame.ops.len(), 1);
    assert_eq!(frame.ops[0].area, Rect { x: 0, y: 0, width: 60, height: 20 });
    match &frame.ops[0].widget {
        Widget::Paragraph(p) => {
            assert_eq!(p.lines.len(), 1);
            assert_eq!(p.lines[0].spans[0].content, "from elsewhere");
            assert_eq!(p.style.fg, Some(Color::White));
            assert_eq!(p.style.bg, Some(Color::Black));
            let block = p.block.as_ref().unwrap();
            assert_eq!(block.titles.len(), 1);
            assert_eq!(block.titles[0].line.spans[0].content, "Clipboard Example");
        }
        other => panic!("unexpected widget {:?}", other),
    }
}

#[test]
fn menu_and_picker_draw_nothing_before_their_first_layout_pass() {
    let mut frame = Frame::new(Rect { x: 0, y: 0, width: 80, height: 24 });
    let mut menu = Menu::new();
    menu.show = true;
    menu.draw(&mut frame);
    let picker = Filepicker::new(false, None, home());
    picker.draw(&mut frame);
    assert!(frame.ops.is_empty());
    menu.register_layout_handler(Rect { x: 0, y: 0, width: 80, height: 24 });
    menu.draw(&mut frame);
    assert_eq!(frame.ops.len(), 3);
}
