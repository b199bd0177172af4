use sympil::action::{Action, InputMode, Mode, Page};
use sympil::app::{App, InputMode as AppInputMode, PageView};
use sympil::component::{ActionSender, Ctx, Outgoing, Task};
use sympil::conf::{AppConfiguration, Args};
use sympil::directory::{DirectoryRead, FileEntry};
use sympil::error::Error;
use sympil::keys::{
    KeyCode, KeyEvent, KeyModifiers, MouseButton, MouseEvent, MouseEventKind,
};
use sympil::layout::{Position, Rect};
use sympil::pages::blog::Blog;
use sympil::pages::chat::Chat;
use sympil::pages::filebrowser::Filebrowser;
use sympil::pages::home::Home;
use sympil::pages::login::{validate_account, Items, Login};
use sympil::pages::music::MusicPlayer;
use sympil::pages::notfound::NotFound;
use sympil::pages::parts::cursor_in;
use sympil::pages::posts::{markdown_name, markdown_posts, open_file, posts_directory};
use sympil::pages::setting::Setting;
use sympil::pages::settings::{Settings, SubMenuOption};
use sympil::pages::signup::{Items as Steps, Settings as Signup};
use sympil::pages::template::Template;
use sympil::pages::visualizer::Visualizer;
use sympil::pages::worldmap::WorldMap;
use sympil::render::{Frame, Widget};
use sympil::scroll::ScrollState;

fn ctx() -> Ctx {
    let args = Args {
        web: false,
        username: None,
        password: None,
        config_file: String::new(),
        app_data_path: String::new(),
        log_level: String::new(),
    };
    Ctx::new(AppConfiguration::default(), args)
}

fn key(code: KeyCode) -> KeyEvent {
    KeyEvent::new(code, KeyModifiers::empty())
}

fn screen() -> Rect {
    Rect { x: 0, y: 0, width: 100, height: 40 }
}

fn text_of(widget: &Widget) -> Vec<String> {
    match widget {
        Widget::Paragraph(p) => p
            .lines
            .iter()
            .map(|l| l.spans.iter().map(|s| s.content.as_str()).collect::<String>())
            .collect(),
        Widget::List(l) => l
            .items
            .iter()
            .map(|i| i.line.spans.iter().map(|s| s.content.as_str()).collect::<String>())
            .collect(),
        Widget::Block(b) => b
            .titles
            .iter()
            .map(|t| t.line.spans.iter().map(|s| s.content.as_str()).collect::<String>())
            .collect(),
        _ => Vec::new(),
    }
}

fn file(name: &str, is_dir: bool) -> FileEntry {
    FileEntry {
        name: name.to_string(),
        ctime: Some(86_400),
        path: format!("/data/posts/{}", name),
        size: 3,
        is_dir,
    }
}

fn home_directory() -> DirectoryRead {
    DirectoryRead {
        path: "/home/ann".to_string(),
        parent: "/home".to_string(),
        entries: vec![file("notes.md", false), file("music", true)],
    }
}

fn type_text(page: &mut Login, text: &str) {
    for c in text.chars() {
        page.handle_key_events(key(KeyCode::Char(c)));
    }
}

fn lines(n: usize) -> String {
    let mut text = String::new();
    for i in 0..n {
        text.push_str(&format!("line {}\n", i));
    }
    text
}

#[test]
fn login_with_a_text_that_is_no_address_fails_locally() {
    let mut page = Login::new();
    page.register_action_handler(ActionSender::new());
    type_text(&mut page, "not-an-email");
    assert_eq!(page.handle_key_events(key(KeyCode::Tab)), None);
    assert_eq!(page.mode, InputMode::InsertPass);
    type_text(&mut page, "secret");
    assert_eq!(page.handle_key_events(key(KeyCode::Enter)), Some(Action::EnterNormal));
    page.update(Action::EnterNormal, &ctx());
    assert_eq!(page.mode, InputMode::Normal);
    assert_eq!(page.menu_index, 2);
    assert_eq!(page.handle_key_events(key(KeyCode::Enter)), Some(Action::SelectItem));
    assert_eq!(page.update(Action::SelectItem, &ctx()), Some(Action::Login));
    page.action_tx.as_mut().unwrap().drain();
    page.update(Action::EnterProcessing, &ctx());
    assert_eq!(page.mode, InputMode::Processing);
    assert_eq!(page.update(Action::Login, &ctx()), None);
    let sent = page.action_tx.as_mut().unwrap().drain();
    assert_eq!(
        sent,
        vec![
            Outgoing::Send(Action::Toast(
                "Validation Error".to_string(),
                "Not a valid email.".to_string()
            )),
            Outgoing::Send(Action::EnterNormal),
        ]
    );
    assert!(!sent.iter().any(|o| matches!(o, Outgoing::Spawn(_))));
    page.update(Action::EnterNormal, &ctx());
    assert_eq!(page.mode, InputMode::Normal);
}

#[test]
fn login_with_a_valid_account_starts_the_request() {
    let mut page = Login::new();
    page.register_action_handler(ActionSender::new());
    type_text(&mut page, "ann@example.org");
    page.handle_key_events(key(KeyCode::Tab));
    type_text(&mut page, "secret");
    page.action_tx.as_mut().unwrap().drain();
    page.login();
    assert_eq!(
        page.action_tx.as_mut().unwrap().drain(),
        vec![Outgoing::Spawn(Task::Login {
            user: "ann@example.org".to_string(),
            password: "secret".to_string()
        })]
    );
    page.register();
    assert_eq!(
        page.action_tx.as_mut().unwrap().drain(),
        vec![Outgoing::Spawn(Task::Register {
            user: "ann@example.org".to_string(),
            password: "secret".to_string()
        })]
    );
}

#[test]
fn registration_with_a_short_password_fails_locally() {
    let mut page = Login::new();
    page.register_action_handler(ActionSender::new());
    type_text(&mut page, "ann@example.org");
    page.handle_key_events(key(KeyCode::Tab));
    type_text(&mut page, "ab");
    page.action_tx.as_mut().unwrap().drain();
    page.update(Action::Register, &ctx());
    assert_eq!(
        page.action_tx.as_mut().unwrap().drain(),
        vec![
            Outgoing::Send(Action::Toast(
                "Validation Error".to_string(),
                "Failed to validate email.".to_string()
            )),
            Outgoing::Send(Action::EnterNormal),
        ]
    );
}

#[test]
fn accounts_are_validated_as_addresses_with_passwords() {
    assert!(validate_account("ann@example.org", "abc"));
    assert!(!validate_account("ann@example.org", "ab"));
    assert!(validate_account("ann@example.org", "äöü"));
    assert!(!validate_account("ann", "secret"));
    assert!(!validate_account("", "secret"));
    assert!(!validate_account("@example.org", "secret"));
    assert!(!validate_account("ann@", "secret"));
    assert!(!validate_account("ann smith@example.org", "secret"));
}

#[test]
fn login_keys_move_between_the_fields() {
    let mut page = Login::new();
    page.register_action_handler(ActionSender::new());
    assert_eq!(page.current_mode(), InputMode::InsertUser);
    type_text(&mut page, "me");
    assert_eq!(page.email.value(), "me");
    assert_eq!(page.handle_key_events(key(KeyCode::Enter)), None);
    assert_eq!((page.mode, page.menu_index), (InputMode::InsertPass, 1));
    type_text(&mut page, "pw");
    assert_eq!(page.password.value(), "pw");
    assert_eq!(
        page.handle_key_events(KeyEvent::new(KeyCode::BackTab, KeyModifiers::shift())),
        None
    );
    assert_eq!((page.mode, page.menu_index), (InputMode::InsertUser, 0));
    assert_eq!(
        page.action_tx.as_mut().unwrap().drain(),
        vec![
            Outgoing::Send(Action::CompleteInput("me".to_string())),
            Outgoing::Send(Action::CompleteInput("pw".to_string())),
        ]
    );
    assert_eq!(
        page.handle_key_events(KeyEvent::new(KeyCode::BackTab, KeyModifiers::shift())),
        Some(Action::EnterNormal)
    );
    assert_eq!(page.menu_index, 1);
    assert_eq!(page.handle_key_events(key(KeyCode::Esc)), Some(Action::EnterNormal));
    page.update(Action::EnterNormal, &ctx());
    assert_eq!(page.handle_key_events(key(KeyCode::Char('x'))), None);
    assert_eq!(page.email.value(), "me");
    page.update(Action::Back, &ctx());
    assert_eq!(page.menu_index, 0);
    page.update(Action::Back, &ctx());
    assert_eq!(page.menu_index, 4);
    assert_eq!(page.update(Action::SelectItem, &ctx()), Some(Action::Home));
    page.update(Action::Forward, &ctx());
    assert_eq!(page.menu_index, 0);
    assert_eq!(page.update(Action::SelectItem, &ctx()), None);
    assert_eq!(page.mode, InputMode::InsertUser);
    page.update(Action::Forward, &ctx());
    assert_eq!(page.menu_index, 0);
    assert_eq!(page.update(Action::Home, &ctx()), Some(Action::ChangeMode(Mode::Home)));
    assert_eq!(page.mode, InputMode::Normal);
    page.menu_index = 3;
    assert_eq!(page.update(Action::SelectItem, &ctx()), Some(Action::Register));
    page.update(Action::Render, &ctx());
    assert_eq!(page.render_ticker, 1);
    assert_eq!(page.loader.render_ticker, 1);
    assert_eq!(Items::at(1), Items::Password);
}

#[test]
fn login_clicks_go_to_the_part_under_the_pointer() {
    let mut page = Login::new();
    page.register_action_handler(ActionSender::new());
    page.register_layout_handler(screen());
    assert_eq!(page.areas.len(), 5);
    let password = page.areas[1];
    let click = MouseEvent {
        kind: MouseEventKind::Down(MouseButton::Left),
        column: password.x,
        row: password.y,
        modifiers: KeyModifiers::empty(),
    };
    assert_eq!(page.handle_mouse_events(click), None);
    assert_eq!(page.mode, InputMode::InsertUser);
    page.update(Action::Mouse(click), &ctx());
    page.handle_mouse_events(click);
    assert_eq!((page.mode, page.menu_index), (InputMode::InsertPass, 1));
    let submit = page.areas[2];
    let click = MouseEvent { column: submit.x, row: submit.y, ..click };
    page.update(Action::Mouse(click), &ctx());
    page.handle_mouse_events(click);
    assert_eq!(page.menu_index, 2);
    assert_eq!(
        page.action_tx.as_mut().unwrap().drain(),
        vec![
            Outgoing::Send(Action::CompleteInput(String::new())),
            Outgoing::Send(Action::Login)
        ]
    );
}

#[test]
fn login_draws_fields_buttons_and_cursor() {
    let mut page = Login::new();
    page.register_layout_handler(screen());
    type_text(&mut page, "ann@x.y");
    page.handle_key_events(key(KeyCode::Tab));
    type_text(&mut page, "pä");
    let mut frame = Frame::new(screen());
    page.draw(&mut frame);
    assert_eq!(frame.ops.len(), 5);
    assert_eq!(text_of(&frame.ops[0].widget), vec!["Local Account"]);
    assert_eq!(text_of(&frame.ops[1].widget), vec!["Sign In"]);
    assert_eq!(text_of(&frame.ops[2].widget), vec!["Register"]);
    assert_eq!(text_of(&frame.ops[3].widget), vec!["ann@x.y"]);
    // one bullet for every byte of the password
    assert_eq!(text_of(&frame.ops[4].widget), vec!["•••"]);
    let field = page.areas[1];
    assert_eq!(frame.cursor, Some(Position { x: field.x + 3, y: field.y + 1 }));
    page.update(Action::EnterProcessing, &ctx());
    let mut frame = Frame::new(screen());
    page.draw(&mut frame);
    assert_eq!(frame.ops.len(), 1);
    assert_eq!(frame.ops[0].area, page.loader.area);
    assert_eq!(
        cursor_in(Rect { x: 10, y: 5, width: 6, height: 3 }, 1, 40),
        Position { x: 14, y: 6 }
    );
}

#[test]
fn posts_are_the_markdown_files() {
    assert!(markdown_name("post.md"));
    assert!(markdown_name("a.b.md"));
    assert!(!markdown_name(".md"));
    assert!(!markdown_name("post.txt"));
    assert!(!markdown_name("md"));
    let entries = vec![file("b.md", false), file("notes.txt", false), file("a.md", true)];
    let posts = markdown_posts(&entries);
    let names: Vec<&str> = posts.iter().map(|p| p.name.as_str()).collect();
    assert_eq!(names, vec!["b.md", "a.md"]);
    assert!(!posts[1].is_dir);
    assert_eq!(
        posts_directory(&None),
        Err(Error::Configuration("Configuration not set".to_string()))
    );
    assert_eq!(
        posts_directory(&Some(AppConfiguration::default())),
        Ok("~/.sympil/posts/".to_string())
    );
}

#[test]
fn opening_a_long_file_reserves_part_of_the_viewport() {
    let pane = open_file(&file("long.md", false), lines(100), 20);
    assert_eq!(pane.state, ScrollState { position: 0, view_size: 1, max: 96 });
    assert_eq!(pane.title, "long");
    assert_eq!(pane.ctime, 86_400);
    let pane = open_file(&FileEntry { ctime: None, ..file("x.md", false) }, lines(20), 20);
    assert_eq!(pane.state.max, 16);
    assert_eq!(pane.ctime, 0);
}

#[test]
fn opening_a_file_that_fits_reserves_nothing() {
    let pane = open_file(&file("short.md", false), lines(10), 20);
    assert_eq!(pane.state, ScrollState { position: 0, view_size: 1, max: 10 });
}

#[test]
fn blog_lists_posts_and_opens_the_selected_one() {
    let mut blog = Blog::new(5);
    assert_eq!(
        blog.generate_posts(Ok(Vec::new())),
        Err(Error::Configuration("Configuration not set".to_string()))
    );
    let directory = blog.register_config_handler(AppConfiguration::default());
    assert_eq!(directory, "~/.sympil/posts/");
    assert_eq!(
        blog.generate_posts(Err("denied".to_string())),
        Err(Error::Configuration("Failed to read posts directory: denied".to_string()))
    );
    let entries = vec![file("one.md", false), file("skip.txt", false), file("two.md", false)];
    assert_eq!(
        blog.generate_posts(Ok(entries)),
        Ok(Some("~/.sympil/posts//one.md".to_string()))
    );
    assert_eq!(blog.files.items.len(), 2);
    assert_eq!(blog.files.state.selected(), Some(0));
    assert_eq!(
        blog.show_first_post(Some(Err("gone".to_string()))),
        Err(Error::Configuration("Failed to read post file: gone".to_string()))
    );
    assert_eq!(blog.show_first_post(Some(Ok(lines(30)))), Ok(()));
    assert_eq!(blog.content.title, "one");
    assert_eq!(blog.content.state.max, 30);
    blog.register_layout_handler(Rect { x: 0, y: 0, width: 100, height: 20 });
    assert_eq!(blog.area.height, 20);
    assert_eq!(blog.area.width, 18);
    assert_eq!(blog.content.area.width, 82);
    blog.update(Action::Forward, &ctx(), None).unwrap();
    assert_eq!(blog.files.state.selected(), Some(1));
    assert_eq!(
        blog.wanted_file(&Action::SelectOption),
        Some("/data/posts/two.md".to_string())
    );
    assert_eq!(blog.wanted_file(&Action::Forward), None);
    assert_eq!(blog.update(Action::SelectOption, &ctx(), Some(Ok(lines(100)))), Ok(None));
    assert_eq!(blog.open_file, 1);
    assert_eq!(blog.content.title, "two");
    assert_eq!(blog.content.state.max, 96);
    assert_eq!(
        blog.update(Action::SelectOption, &ctx(), Some(Err("locked".to_string()))),
        Err(Error::Configuration("Failed to read post file: locked".to_string()))
    );
    assert_eq!(blog.content.title, "two");
}

#[test]
fn blog_without_posts_says_so() {
    let mut blog = Blog::new(0);
    blog.register_config_handler(AppConfiguration::default());
    assert_eq!(blog.generate_posts(Ok(vec![file("a.txt", false)])), Ok(None));
    assert_eq!(blog.show_first_post(None), Ok(()));
    assert_eq!(blog.content.markdown, "# No posts found");
    assert_eq!(blog.content.title, "");
    assert_eq!(blog.content.state.max, 1);
    assert_eq!(blog.update(Action::SelectOption, &ctx(), None), Ok(None));
}

#[test]
fn blog_sidebar_toggles_with_the_mode() {
    let mut blog = Blog::new(0);
    assert_eq!(blog.handle_key_events(key(KeyCode::Esc)), Some(Action::ToggleSidebar));
    blog.keymap.insert(key(KeyCode::Tab), Action::ToggleSidebar);
    assert_eq!(blog.handle_key_events(key(KeyCode::Tab)), Some(Action::ToggleSidebar));
    assert_eq!(blog.handle_key_events(key(KeyCode::Char('x'))), None);
    blog.update(Action::ToggleSidebar, &ctx(), None).unwrap();
    assert!(!blog.sidebar);
    assert_eq!(blog.mode, InputMode::Normal);
    assert!(blog.content.scrollable);
    assert_eq!(blog.handle_key_events(key(KeyCode::Esc)), None);
    blog.register_layout_handler(screen());
    assert_eq!(blog.area, blog.content.area);
    let mut frame = Frame::new(screen());
    blog.draw(&mut frame);
    assert_eq!(frame.ops.len(), 5);
    blog.update(Action::ToggleSidebar, &ctx(), None).unwrap();
    assert!(blog.sidebar);
    assert_eq!(blog.mode, InputMode::Select);
    let mut frame = Frame::new(screen());
    blog.draw(&mut frame);
    assert_eq!(frame.ops.len(), 6);
    assert!(matches!(frame.ops[0].widget, Widget::List(_)));
}

#[test]
fn setting_needs_markdown_files() {
    let mut setting = Setting::new();
    setting.register_config_handler(AppConfiguration::default());
    assert_eq!(
        setting.generate_posts(Ok(Vec::new())),
        Err(Error::Configuration("No markdown files found".to_string()))
    );
    assert_eq!(
        setting.generate_posts(Ok(vec![file("a.md", false), file("b.md", false)])),
        Ok("~/.sympil/posts//a.md".to_string())
    );
    assert_eq!(
        Setting::check_first_post(Err("no".to_string())),
        Err(Error::Configuration("Failed to read post file: no".to_string()))
    );
    assert_eq!(Setting::check_first_post(Ok(String::new())), Ok(()));
    setting.update(Action::Forward, &ctx(), None).unwrap();
    assert_eq!(setting.wanted_file(&Action::SelectOption), Some("/data/posts/b.md".to_string()));
    setting.update(Action::SelectOption, &ctx(), Some(Ok("x".to_string()))).unwrap();
    assert_eq!(setting.open_file, 1);
    assert_eq!(setting.handle_key_events(key(KeyCode::Backspace)), Some(Action::EnterNormal));
    setting.update(Action::EnterNormal, &ctx(), None).unwrap();
    assert_eq!(setting.mode, InputMode::Normal);
    setting.update(Action::Back, &ctx(), None).unwrap();
    assert_eq!(setting.files.state.selected(), Some(1));
    setting.register_layout_handler(screen());
    let mut frame = Frame::new(screen());
    setting.draw(&mut frame);
    assert_eq!(frame.ops.len(), 2);
    assert_eq!(text_of(&frame.ops[1].widget), vec!["a.md", "b.md"]);
    setting.update(Action::ToggleSidebar, &ctx(), None).unwrap();
    assert!(!setting.sidebar);
    assert_eq!(setting.mode, InputMode::Normal);
    setting.update(Action::ToggleSidebar, &ctx(), None).unwrap();
    assert!(setting.sidebar);
    assert_eq!(setting.mode, InputMode::Select);
}

#[test]
fn filebrowser_sidebar_toggle_hides_the_picker() {
    let mut page = Filebrowser::new(0, home_directory());
    page.register_action_handler(ActionSender::new());
    page.register_config_handler(AppConfiguration::default());
    page.register_layout_handler(screen());
    page.keymap.insert(key(KeyCode::Tab), Action::ToggleSidebar);
    assert!(page.sidebar);
    assert_eq!(page.mode, InputMode::Select);
    let mut frame = Frame::new(screen());
    page.draw(&mut frame);
    assert_eq!(frame.ops.len(), 9);
    assert!(matches!(frame.ops[3].widget, Widget::List(_)));
    let action = page.handle_key_events(key(KeyCode::Tab), None).unwrap();
    assert_eq!(action, Action::ToggleSidebar);
    assert_eq!(page.update(action, &ctx(), None), Ok(None));
    assert!(!page.sidebar);
    assert_eq!(page.mode, InputMode::Normal);
    let mut frame = Frame::new(screen());
    page.draw(&mut frame);
    assert_eq!(frame.ops.len(), 5);
    assert!(!frame.ops.iter().any(|op| matches!(op.widget, Widget::List(_))));
    assert_eq!(page.wanted_directory(&key(KeyCode::Enter)), None);
    page.update(Action::ToggleSidebar, &ctx(), None).unwrap();
    assert!(page.sidebar);
    assert_eq!(page.mode, InputMode::Select);
}

#[test]
fn filebrowser_opens_files_and_passes_over_directories() {
    let mut page = Filebrowser::new(0, home_directory());
    page.register_layout_handler(Rect { x: 0, y: 0, width: 100, height: 20 });
    assert_eq!(page.wanted_file(&Action::SelectOption), None);
    page.update(Action::Forward, &ctx(), None).unwrap();
    page.update(Action::Forward, &ctx(), None).unwrap();
    assert_eq!(page.picker.files.state.selected(), Some(1));
    assert_eq!(page.wanted_file(&Action::SelectOption), None);
    assert_eq!(page.update(Action::SelectOption, &ctx(), Some(Ok(lines(100)))), Ok(None));
    assert_eq!(page.content.markdown, "");
    page.update(Action::Forward, &ctx(), None).unwrap();
    assert_eq!(
        page.wanted_file(&Action::SelectOption),
        Some("/data/posts/notes.md".to_string())
    );
    assert_eq!(
        page.update(Action::SelectOption, &ctx(), Some(Err("nope".to_string()))),
        Err(Error::Configuration("Failed to read post file: nope".to_string()))
    );
    page.update(Action::SelectOption, &ctx(), Some(Ok(lines(100)))).unwrap();
    assert_eq!(page.content.title, "notes");
    assert_eq!(page.content.state.max, 96);
    let music = DirectoryRead {
        path: "/home/ann/music".to_string(),
        parent: "/home/ann".to_string(),
        entries: vec![file("song.mp3", false)],
    };
    page.update(Action::Back, &ctx(), None).unwrap();
    assert_eq!(
        page.wanted_directory(&key(KeyCode::Enter)),
        Some("/data/posts/music".to_string())
    );
    page.handle_key_events(key(KeyCode::Enter), Some(music));
    assert_eq!(page.picker.directory, "/home/ann/music");
}

#[test]
fn home_takes_typed_lines() {
    let mut home = Home::new();
    home.register_action_handler(ActionSender::new());
    assert_eq!(home.handle_key_events(key(KeyCode::Char('a'))), None);
    home.update(Action::EnterInsert, &ctx());
    assert_eq!(home.current_mode(), InputMode::Insert);
    assert_eq!(home.handle_key_events(key(KeyCode::Char('h'))), Some(Action::Update));
    assert_eq!(home.handle_key_events(key(KeyCode::Char('i'))), Some(Action::Update));
    assert_eq!(home.handle_key_events(key(KeyCode::Enter)), Some(Action::EnterNormal));
    assert_eq!(
        home.action_tx.as_mut().unwrap().drain(),
        vec![Outgoing::Send(Action::CompleteInput("hi".to_string()))]
    );
    home.update(Action::CompleteInput("hi".to_string()), &ctx());
    home.update(Action::EnterNormal, &ctx());
    assert_eq!(home.text, vec!["hi".to_string()]);
    assert_eq!(home.mode, InputMode::Normal);
    home.update(Action::ScheduleIncrement, &ctx());
    home.update(Action::ScheduleDecrement, &ctx());
    assert_eq!(
        home.action_tx.as_mut().unwrap().drain(),
        vec![Outgoing::Spawn(Task::Increment(1)), Outgoing::Spawn(Task::Decrement(1))]
    );
    home.update(Action::Render, &ctx());
    home.update(Action::EnterProcessing, &ctx());
    assert_eq!(home.mode, InputMode::Processing);
    assert_eq!(home.last_events.len(), 4);
    home.register_layout_handler(screen());
    let mut frame = Frame::new(screen());
    home.draw(&mut frame);
    assert_eq!(frame.ops.len(), 3);
    let text = text_of(&frame.ops[0].widget);
    assert_eq!(text.len(), 8);
    assert_eq!(text[1], "Press j or k to increment or decrement.");
    assert_eq!(text[3], "Render Ticker: 1");
    assert_eq!(text[7], "hi");
    assert_eq!(text_of(&frame.ops[1].widget), vec!["hi"]);
    assert_eq!(text_of(&frame.ops[2].widget), vec!["[\"a\", \"h\", \"i\", \"enter\"]"]);
    assert_eq!(frame.ops[2].area, Rect { x: 1, y: 39, width: 98, height: 1 });
    assert_eq!(frame.cursor, None);
}

#[test]
fn template_counts_and_shows_help() {
    let mut page = Template::new();
    page.update(Action::Increment(5), &ctx());
    page.update(Action::Decrement(2), &ctx());
    assert_eq!(page.counter, 3);
    page.update(Action::Decrement(7), &ctx());
    assert_eq!(page.counter, 0);
    page.update(Action::Increment(usize::MAX), &ctx());
    page.update(Action::Increment(1), &ctx());
    assert_eq!(page.counter, usize::MAX);
    page.counter = 42;
    page.handle_key_events(key(KeyCode::Char('q')));
    assert_eq!(page.last_events.len(), 1);
    page.update(Action::Tick, &ctx());
    assert_eq!(page.app_ticker, 1);
    assert!(page.last_events.is_empty());
    page.update(Action::Render, &ctx());
    page.update(Action::Render, &ctx());
    page.update(Action::EnterInsert, &ctx());
    page.handle_key_events(key(KeyCode::Char('x')));
    let mut frame = Frame::new(screen());
    page.draw(&mut frame, screen());
    assert_eq!(frame.ops.len(), 3);
    let text = text_of(&frame.ops[0].widget);
    assert_eq!(&text[3..6], &["Counter: 42", "App Ticker: 1", "Render Ticker: 2"]);
    let input = frame.ops[1].area;
    assert_eq!(frame.cursor, Some(Position { x: input.x + 2, y: input.y + 1 }));
    page.update(Action::ToggleShowHelp, &ctx());
    let mut frame = Frame::new(screen());
    page.draw(&mut frame, screen());
    assert_eq!(frame.ops.len(), 6);
    assert_eq!(frame.ops[2].area, Rect { x: 4, y: 2, width: 92, height: 36 });
    assert_eq!(frame.ops[4].area, Rect { x: 6, y: 6, width: 88, height: 28 });
    match &frame.ops[4].widget {
        Widget::Table(table) => {
            assert_eq!(table.header, vec!["Key", "Action"]);
            assert_eq!(table.rows.len(), 7);
            assert_eq!(table.rows[3], vec!["ESC", "Exit Input"]);
        }
        other => panic!("unexpected widget {:?}", other),
    }
}

#[test]
fn chat_sends_what_was_typed_and_shows_it_wrapped() {
    let mut chat = Chat::new();
    let mut context = ctx();
    context.today = 1_000;
    chat.register_action_handler(ActionSender::new());
    chat.update(Action::EnterInput, &context);
    assert_eq!(chat.mode, InputMode::Insert);
    assert_eq!(chat.handle_key_events(key(KeyCode::Enter)), None);
    assert!(chat.action_tx.as_ref().unwrap().queue.is_empty());
    for c in "hello   wide world".chars() {
        chat.handle_key_events(key(KeyCode::Char(c)));
    }
    assert_eq!(chat.handle_key_events(key(KeyCode::Enter)), None);
    assert_eq!(chat.input.value(), "");
    let sent = chat.action_tx.as_mut().unwrap().drain();
    assert_eq!(sent, vec![Outgoing::Send(Action::CompleteInput("hello   wide world".to_string()))]);
    chat.update(Action::CompleteInput("hello   wide world".to_string()), &context);
    assert_eq!(chat.chats.items.len(), 1);
    assert_eq!(chat.chats.items[0].username, "Simplicy");
    assert_eq!(chat.chats.items[0].ctime, 1_000);
    assert_eq!(chat.handle_key_events(key(KeyCode::Esc)), Some(Action::EnterNormal));
    chat.update(Action::EnterNormal, &context);
    chat.update(Action::Forward, &context);
    assert_eq!(chat.chats.state.selected(), Some(0));
    chat.update(Action::EnterProcessing, &context);
    chat.update(Action::Back, &context);
    assert_eq!(chat.chats.state.selected(), Some(0));
    chat.update(Action::EnterInput, &context);
    assert_eq!(chat.chats.state.selected(), None);
    chat.update(Action::ToggleChats, &context);
    chat.update(Action::ToggleUsers, &context);
    chat.register_layout_handler(Rect { x: 0, y: 0, width: 60, height: 20 });
    assert_eq!(chat.overall_areas.len(), 2);
    assert_eq!(chat.users_areas.len(), 2);
    chat.areas[2].width = 14;
    let mut frame = Frame::new(screen());
    chat.draw(&mut frame);
    assert_eq!(frame.ops.len(), 7);
    assert_eq!(text_of(&frame.ops[4].widget), vec!["Simplicy "]);
    // ten columns: the words are wrapped and joined again with single blanks
    assert_eq!(text_of(&frame.ops[5].widget), vec![" hello wide world "]);
    let input = chat.sub_areas[1];
    assert_eq!(frame.cursor, Some(Position { x: input.x, y: input.y + 1 }));
    chat.update(Action::Tick, &context);
    assert_eq!(chat.app_ticker, 1);
    assert!(chat.last_events.is_empty());
}

#[test]
fn settings_take_the_option_that_is_pointed_at() {
    let mut page = Settings::new(AppConfiguration::default());
    assert_eq!(page.default_mode(), InputMode::Normal);
    page.update(Action::SelectOption, &ctx());
    assert_eq!(page.selected_option, None);
    page.update(Action::Back, &ctx());
    page.update(Action::Back, &ctx());
    assert_eq!(page.options.state.selected(), Some(9));
    page.update(Action::SelectOption, &ctx());
    assert_eq!(page.selected_option, Some(SubMenuOption::Support));
    page.update(Action::Forward, &ctx());
    assert_eq!(page.options.state.selected(), Some(9));
    page.update(Action::EnterNormal, &ctx());
    assert_eq!(page.selected_option, None);
    page.update(Action::Forward, &ctx());
    assert_eq!(page.options.state.selected(), Some(0));
    assert_eq!(page.handle_key_events(key(KeyCode::Char('a'))), Some(Action::Update));
    assert_eq!(page.input.value(), "a");
    assert_eq!(page.handle_key_events(key(KeyCode::Enter)), Some(Action::SelectOption));
    assert_eq!(page.handle_key_events(key(KeyCode::Esc)), Some(Action::EnterNormal));
    page.mode = InputMode::OptionInput;
    page.keymap.insert(key(KeyCode::Char('z')), Action::Home);
    assert_eq!(page.handle_key_events(key(KeyCode::Char('z'))), Some(Action::Home));
    assert_eq!(page.handle_key_events(key(KeyCode::Char('y'))), None);
    assert_eq!(page.handle_key_events(key(KeyCode::Backspace)), Some(Action::Update));
    assert_eq!(page.mode, InputMode::Normal);
    page.register_layout_handler(screen());
    assert_eq!(page.areas[1].width, 19);
    assert_eq!(page.areas[2].width, 81);
    let mut frame = Frame::new(screen());
    page.draw(&mut frame);
    assert_eq!(frame.ops.len(), 3);
    assert_eq!(text_of(&frame.ops[0].widget), vec!["You selected: Background Color"]);
    assert_eq!(text_of(&frame.ops[2].widget).len(), 10);
    page.options.state.select(Some(8));
    let mut frame = Frame::new(screen());
    page.draw(&mut frame);
    assert_eq!(frame.ops.len(), 2);
    page.options.state.select(Some(9));
    let mut frame = Frame::new(screen());
    page.draw(&mut frame);
    assert_eq!(
        text_of(&frame.ops[0].widget),
        vec!["For support, please visit our website or contact us via email."]
    );
    page.options.state.select(None);
    let mut frame = Frame::new(screen());
    page.draw(&mut frame);
    assert_eq!(frame.ops[0].widget, Widget::Clear);
    assert_eq!(SubMenuOption::theme().len(), 4);
    assert_eq!(SubMenuOption::account()[1], SubMenuOption::AccountColor);
    assert_eq!(SubMenuOption::help(), vec![SubMenuOption::Faq, SubMenuOption::Support]);
    assert_eq!(SubMenuOption::default(), SubMenuOption::BackgroundColor);
    assert_eq!(
        SubMenuOption::all().iter().map(|o| o.label().len()).max(),
        Some(SubMenuOption::LONGEST as usize)
    );
}

#[test]
fn signup_walks_through_its_steps() {
    let mut page = Signup::new(AppConfiguration::default());
    page.update(Action::Forward, &ctx());
    page.update(Action::Forward, &ctx());
    page.update(Action::Forward, &ctx());
    assert_eq!(page.options.state.selected(), Some(2));
    page.update(Action::SelectOption, &ctx());
    assert_eq!(page.selected_option, Some(Steps::Bio));
    assert_eq!(page.handle_key_events(key(KeyCode::Char('y'))), Some(Action::Update));
    assert_eq!(page.confirm.value(), "y");
    page.register_layout_handler(screen());
    assert_eq!(page.areas.len(), 3);
    assert_eq!(page.areas[1].height, 3);
    let mut frame = Frame::new(screen());
    page.draw(&mut frame);
    assert_eq!(frame.ops.len(), 1);
    page.options.state.select(Some(0));
    let mut frame = Frame::new(screen());
    page.draw(&mut frame);
    assert!(frame.ops.is_empty());
    assert_eq!(Steps::all().len(), 5);
    assert_eq!(Steps::Tos.label(), "Tos");
    assert_eq!(Steps::default(), Steps::Confirm);
}

#[test]
fn music_player_composes_its_parts() {
    let mut page = MusicPlayer::new(0, home_directory());
    page.register_action_handler(ActionSender::new());
    page.register_config_handler(AppConfiguration::default());
    page.register_layout_handler(screen());
    assert_eq!(page.area.width, 18);
    assert_eq!(page.controls.area.width, 82);
    assert_eq!(page.controls.area.height, 8);
    assert_eq!(page.wave.area.height, 32);
    let mut context = ctx();
    context.now = 1_000_000;
    page.update(Action::PausePlay, &context);
    page.update(Action::Tick, &context);
    assert_eq!(page.controls.time, 1);
    page.update(Action::Forward, &context);
    assert_eq!(page.picker.files.state.selected(), Some(0));
    let mut frame = Frame::new(screen());
    page.draw(&mut frame);
    assert_eq!(frame.ops.len(), 9);
    assert_eq!(page.handle_key_events(key(KeyCode::Backspace), None), Some(Action::ToggleSidebar));
    page.update(Action::ToggleSidebar, &context);
    assert!(!page.sidebar);
    assert_eq!(page.mode, InputMode::Normal);
    let mut frame = Frame::new(screen());
    page.draw(&mut frame);
    assert_eq!(frame.ops.len(), 5);
    assert_eq!(page.wanted_directory(&key(KeyCode::Char('.'))), None);
}

#[test]
fn visualizer_and_world_map_cycle_their_menus() {
    let mut page = Visualizer::new();
    page.update(Action::Back, &ctx());
    assert_eq!(page.menu_index, 6);
    page.update(Action::Forward, &ctx());
    assert_eq!(page.menu_index, 0);
    page.menu_index = usize::MAX;
    page.update(Action::Forward, &ctx());
    assert_eq!(page.menu_index, (usize::MAX % 7 + 1) % 7);
    let first = page.sparkline.points[1];
    page.update(Action::Tick, &ctx());
    assert_eq!(page.sparkline.points[0], first);
    assert_eq!(page.handle_key_events(key(KeyCode::Char('a'))), None);
    page.mode = InputMode::Processing;
    assert_eq!(page.handle_key_events(key(KeyCode::Char('a'))), Some(Action::Update));
    assert_eq!(page.input.value(), "a");
    assert_eq!(page.last_events.len(), 2);
    page.register_layout_handler(screen());
    let mut frame = Frame::new(screen());
    page.draw(&mut frame);
    assert_eq!(frame.ops[1].widget, Widget::Chart);
    assert_eq!(frame.ops[2].area, Rect { x: 0, y: 39, width: 100, height: 1 });
    let mut map = WorldMap::new();
    assert_eq!(map.servers.len(), 4);
    assert!(map.servers[0].is_up());
    assert!(!map.servers[1].is_up());
    assert_eq!(map.servers[2].location, "São Paulo");
    assert_eq!((map.servers[3].latitude, map.servers[3].longitude), (135, 10386));
    map.update(Action::Back, &ctx());
    assert_eq!(map.menu_index, 6);
    map.update(Action::Tick, &ctx());
    assert_eq!(map.menu_index, 6);
    assert_eq!(map.handle_key_events(key(KeyCode::Char('a'))), None);
    map.register_layout_handler(screen());
    let mut frame = Frame::new(screen());
    map.draw(&mut frame);
    assert_eq!(frame.ops[0].widget, Widget::WorldMap);
    assert_eq!(frame.ops[0].area, screen());
}

#[test]
fn not_found_page_says_so() {
    let mut frame = Frame::new(screen());
    NotFound::new().draw(&mut frame);
    assert_eq!(frame.ops.len(), 2);
    assert_eq!(text_of(&frame.ops[0].widget), vec!["[404]"]);
    assert_eq!(text_of(&frame.ops[1].widget), vec!["Page not found!"]);
    assert_eq!(frame.ops[0].area.height, 2);
    assert_eq!(frame.ops[1].area.height, 3);
    for op in &frame.ops {
        assert!(screen().x <= op.area.x && op.area.right() <= screen().right());
        assert!(screen().y <= op.area.y && op.area.bottom() <= screen().bottom());
    }
    assert_eq!(frame.ops[0].area.x, frame.ops[1].area.x);
    assert_eq!(frame.ops[0].area.width, frame.ops[1].area.width);
    // a surface without cells is drawn on without failing
    let mut none = Frame::new(Rect { x: 4, y: 4, width: 0, height: 0 });
    NotFound::new().draw(&mut none);
    assert_eq!(none.ops.len(), 2);
}

#[test]
fn pages_draw_nothing_before_their_first_layout_pass() {
    let mut frame = Frame::new(screen());
    Home::new().draw(&mut frame);
    Login::new().draw(&mut frame);
    Chat::new().draw(&mut frame);
    Settings::new(AppConfiguration::default()).draw(&mut frame);
    Signup::new(AppConfiguration::default()).draw(&mut frame);
    Visualizer::new().draw(&mut frame);
    WorldMap::new().draw(&mut frame);
    assert!(frame.ops.is_empty());
    assert_eq!(frame.cursor, None);
    let mut page = Home::new();
    page.register_layout_handler(screen());
    page.draw(&mut frame);
    assert_eq!(frame.ops.len(), 3);
}

#[test]
fn unregistered_page_shows_not_found_and_navigation_recovers() {
    let mut app = App::new();
    let mut queue = vec![Action::ChangePage(Page::Home)];
    let mut frame = Frame::new(screen());
    let title = app.run(&mut frame, &mut queue);
    assert_eq!(app.current_mode, Page::Home);
    assert_eq!(title, None);
    assert_eq!(frame.ops.len(), 2);
    assert_eq!(text_of(&frame.ops[0].widget), vec!["[404]"]);
    assert_eq!(text_of(&frame.ops[1].widget), vec!["Page not found!"]);
    // back to a page that the registry has
    app.handle_events(key(KeyCode::Char('m')));
    assert_eq!(app.current_mode, Page::Help);
    let mut frame = Frame::new(screen());
    let title = app.run(&mut frame, &mut queue);
    assert_eq!(title, Some("sympil - Help".to_string()));
    assert_eq!(frame.ops.len(), 4);
    assert_eq!(text_of(&frame.ops[1].widget), vec!["| S Y M P I L |", "Coming soon..."]);
    let mut queue = vec![Action::ChangePage(Page::Login)];
    let mut frame = Frame::new(screen());
    assert_eq!(app.run(&mut frame, &mut queue), Some("sympil - Login".to_string()));
    assert_eq!(frame.ops.len(), 1);
}

#[test]
fn app_routes_keys_to_the_page_and_falls_back_to_navigation() {
    let mut app = App::new();
    app.register_action_handler(ActionSender::new());
    assert_eq!(app.find_current(), Some(0));
    // the first page starts typing with `e` and then handles every key itself
    app.handle_events(key(KeyCode::Char('e')));
    assert_eq!(app.current_mode, Page::Login);
    app.handle_events(key(KeyCode::Char('q')));
    assert_eq!(app.current_mode, Page::Login);
    match &app.pages.0[0].1 {
        PageView::Login(page) => assert_eq!(page.input, "q"),
        _ => panic!("the first page is the login"),
    }
    app.handle_events(key(KeyCode::Esc));
    app.handle_events(key(KeyCode::Char('q')));
    assert_eq!(app.current_mode, Page::Settings);
    app.handle_events(key(KeyCode::Char('h')));
    assert_eq!(app.current_mode, Page::Login);
    app.input_mode = AppInputMode::Other;
    app.handle_events(key(KeyCode::Char('m')));
    assert_eq!(app.current_mode, Page::Login);
    app.handle_events(key(KeyCode::Char('h')));
    assert_eq!(app.current_mode, Page::Home);
    assert_eq!(app.find_current(), None);
    app.handle_events(key(KeyCode::Char('q')));
    assert_eq!(app.current_mode, Page::Settings);
    app.handle_mouse(MouseEvent {
        kind: MouseEventKind::Down(MouseButton::Left),
        column: 0,
        row: 0,
        modifiers: KeyModifiers::empty(),
    });
    match &app.pages.0[1].1 {
        PageView::Message(page) => {
            assert_eq!(page.input_mode, sympil::components::textinput::InputMode::Editing);
            assert!(page.tx.is_some());
        }
        _ => panic!("the settings page is the message box"),
    }
}

#[test]
fn app_handles_actions_in_order() {
    let mut app = App::new();
    let mut queue = vec![
        Action::Tick,
        Action::ChangePage(Page::Help),
        Action::SubmitEmail("a@b.c".to_string()),
        Action::ChangePage(Page::Login),
    ];
    assert_eq!(app.handle_actions(&mut queue), None);
    // the whole queue is handled, with or without a sender
    assert_eq!(app.current_mode, Page::Login);
    assert!(queue.is_empty());
    let mut queue = vec![Action::ChangePage(Page::Help), Action::SubmitEmail("a@b.c".to_string())];
    app.handle_actions(&mut queue);
    assert_eq!(app.current_mode, Page::Settings);
    assert!(queue.is_empty());
    let mut queue = vec![Action::Tick, Action::Render];
    app.handle_actions(&mut queue);
    assert_eq!(app.current_mode, Page::Settings);
    assert!(queue.is_empty());
    app.tx = Some(ActionSender::new());
    let mut queue = vec![
        Action::SubmitEmail("a@b.c".to_string()),
        Action::ChangePage(Page::Help),
    ];
    app.handle_actions(&mut queue);
    assert_eq!(app.current_mode, Page::Help);
    assert!(queue.is_empty());
    assert_eq!(app.title(), "sympil - Help");
}
