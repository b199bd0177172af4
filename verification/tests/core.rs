use sympil::action::{Action, InputMode, Mode, Page};
use sympil::backend::{inject_backend_footer, query_value, BackendType};
use sympil::bindings::{KeyBindings, ModeBindings};
use sympil::component::{ActionSender, AuthReply, Keymap, Outgoing, Task};
use sympil::conf::{version, AppConfig, AppConfiguration, Args, DatabaseConfig};
use sympil::directory::{DirectoryRead, DirectorySearch, FileEntry};
use sympil::error::{Error, ErrorMessage};
use sympil::fps::{get_current_fps, init_fps_recorder, record_frame, FpsRecorder};
use sympil::input::{to_input_request, Input, InputRequest};
use sympil::keys::{KeyCode, KeyEvent, KeyEventKind, KeyModifiers};
use sympil::layout::{Layout, Position, Rect, Sizing, Slack};
use sympil::scroll::content_scroll;
use sympil::text::{count_lines, remove_all};

fn key(code: KeyCode) -> KeyEvent {
    KeyEvent::new(code, KeyModifiers::empty())
}

fn entry(name: &str, size: u64, is_dir: bool) -> FileEntry {
    FileEntry {
        name: name.to_string(),
        ctime: Some(10),
        path: format!("/data/{}", name),
        size,
        is_dir,
    }
}

#[test]
fn backend_names_round_trip() {
    assert_eq!(BackendType::Dom.as_str(), "dom");
    assert_eq!(BackendType::Canvas.as_str(), "canvas");
    assert_eq!(BackendType::WebGl2.as_str(), "webgl2");
    assert_eq!(BackendType::try_from("DOM".to_string()), Ok(BackendType::Dom));
    assert_eq!(BackendType::try_from("Canvas".to_string()), Ok(BackendType::Canvas));
    assert_eq!(BackendType::try_from("webGL2".to_string()), Ok(BackendType::WebGl2));
    assert_eq!(BackendType::default(), BackendType::Dom);
}

#[test]
fn unknown_backend_is_refused_with_the_name() {
    assert_eq!(
        BackendType::try_from("Vulkan".to_string()),
        Err("Invalid backend type: 'Vulkan'. Valid options are: dom, canvas, webgl2".to_string())
    );
}

#[test]
fn backend_of_the_address_wins_over_the_fallback() {
    assert_eq!(
        BackendType::select(Some("canvas".to_string()), BackendType::Dom),
        BackendType::Canvas
    );
    assert_eq!(
        BackendType::select(Some("nonsense".to_string()), BackendType::WebGl2),
        BackendType::WebGl2
    );
    assert_eq!(BackendType::select(None, BackendType::Canvas), BackendType::Canvas);
}

#[test]
fn footer_marks_the_backend_that_runs() {
    let html = inject_backend_footer(BackendType::Canvas, "/app");
    assert_eq!(
        html,
        "<span style=\"color: #64748b;\">Backend:</span> \
<a href=\"/app?backend=dom\" style=\"color: #94a3b8; text-decoration: none; cursor: pointer;\">dom</a> | \
<span style=\"color: #4ade80; font-weight: bold; text-decoration: none;\">● canvas</span> | \
<span style=\"color: #64748b;\">FPS:</span> \
<span id=\"ratzilla-fps\" style=\"color: #4ade80; font-weight: bold;\">--</span>"
    );
}

#[test]
fn fps_counts_fifteen_intervals_over_the_time_they_took() {
    let mut recorder = init_fps_recorder(0);
    assert_eq!(get_current_fps(&recorder), 15_000_000);
    // sixteen frames, a hundredth of a second apart
    let mut shown = None;
    for i in 1..=16u64 {
        shown = record_frame(&mut recorder, i * 10_000);
    }
    // fifteen intervals in 150 ms are a hundred frames a second
    assert_eq!(shown, Some(100_000));
    assert_eq!(get_current_fps(&recorder), 100_000);
    let inner = recorder.unwrap();
    assert_eq!(inner.tail, 0);
    assert_eq!(inner.elapsed_micros(), 150_000);
}

#[test]
fn fps_without_a_recorder_is_zero_and_records_nothing() {
    let mut none: Option<FpsRecorder> = None;
    assert_eq!(record_frame(&mut none, 5), None);
    assert!(none.is_none());
    assert_eq!(get_current_fps(&none), 0);
}

#[test]
fn fps_survives_a_clock_that_steps_back() {
    let mut recorder = FpsRecorder::new(1_000_000);
    recorder.record(10);
    assert_eq!(recorder.elapsed_micros(), 0);
    assert_eq!(recorder.fps(), 15_000_000);
    assert_eq!(recorder.tail, 1);
}

#[test]
fn default_configuration_is_as_documented() {
    let config = AppConfig::default();
    assert_eq!(config.app_data_path, "~/.sympil");
    assert_eq!(config.log_level, "info");
    assert_eq!(config.popup_timeout, 5);
    assert_eq!(config.username, None);
    assert_eq!(config.password, None);
    assert_eq!(DatabaseConfig::default().db_type, "memory");
    let all = AppConfiguration::default();
    assert_eq!(all.config, config);
    assert_eq!(all.keybindings.modes.len(), 9);
    assert_eq!(all.clone(), all);
}

fn args(log_level: &str, path: &str, user: Option<&str>, pass: Option<&str>) -> Args {
    Args {
        web: false,
        username: user.map(|s| s.to_string()),
        password: pass.map(|s| s.to_string()),
        config_file: "~/.sympil/config.toml".to_string(),
        app_data_path: path.to_string(),
        log_level: log_level.to_string(),
    }
}

#[test]
fn command_line_overrides_the_file() {
    let mut configuration = AppConfiguration::default();
    configuration.config.username = Some("ann".to_string());
    configuration.config.password = Some("secret".to_string());
    configuration.configure(args("debug", "/srv", Some("bob"), None));
    assert_eq!(configuration.config.log_level, "debug");
    assert_eq!(configuration.config.app_data_path, "/srv");
    // an account name of the file stays where the command line gives one too
    assert_eq!(configuration.config.username, Some("ann".to_string()));
    // and is dropped where it gives none
    assert_eq!(configuration.config.password, None);
}

#[test]
fn empty_arguments_leave_the_file_in_force() {
    let mut configuration = AppConfiguration::default();
    configuration.configure(args("", "", None, None));
    assert_eq!(configuration.config.log_level, "info");
    assert_eq!(configuration.config.app_data_path, "~/.sympil");
}

#[test]
fn configuration_without_data_path_is_not_written() {
    let mut config = AppConfig::default();
    assert_eq!(
        AppConfiguration::update(&config, "~/.sympil"),
        Ok("~/.sympil/config.toml".to_string())
    );
    config.app_data_path = String::new();
    assert_eq!(
        AppConfiguration::update(&config, "~/.sympil"),
        Err(Error::InvalidAppDataPath)
    );
}

#[test]
fn error_message_of_an_io_failure() {
    let report = ErrorMessage::from_io("not found".to_string(), "no such file".to_string());
    assert_eq!(report.error, Some("not found".to_string()));
    assert_eq!(report.error_description, Some("no such file".to_string()));
    assert_eq!(report.message, "no such file");
}

#[test]
fn directory_listing_puts_the_way_up_first_and_directories_before_files() {
    let entries = vec![
        entry("b.txt", 5, false),
        entry("zdir", 1, true),
        entry(".hidden", 100, false),
        entry("a.txt", 7, false),
        entry("adir", 2, true),
    ];
    let _ = DirectorySearch::new();
    assert!(DirectorySearch::fits(&entries));
    let files = DirectorySearch::open_directory("/".to_string(), &entries, false);
    let names: Vec<&str> = files.iter().map(|f| f.name.as_str()).collect();
    assert_eq!(names, vec!["..", "zdir", "adir", "b.txt", "a.txt"]);
    assert_eq!(files[0].size, 15);
    assert_eq!(files[0].path, "/");
    assert!(files[0].is_dir);
    assert_eq!(files[0].ctime, None);
    let all = DirectorySearch::open_directory("/".to_string(), &entries, true);
    let names: Vec<&str> = all.iter().map(|f| f.name.as_str()).collect();
    assert_eq!(names, vec!["..", "zdir", "adir", "b.txt", ".hidden", "a.txt"]);
    assert_eq!(all[0].size, 115);
}

#[test]
fn directory_that_could_not_be_read_lists_only_the_way_up() {
    let files = DirectorySearch::open_directory("/home".to_string(), &Vec::new(), false);
    assert_eq!(files.len(), 1);
    assert_eq!(files[0].name, "..");
    assert_eq!(files[0].size, 0);
}

#[test]
fn sizes_that_cannot_be_added_up_are_noticed() {
    let entries = vec![entry("a", u64::MAX, false), entry("b", 1, false)];
    assert!(!DirectorySearch::fits(&entries));
    let read = DirectoryRead { path: "/".to_string(), parent: "/".to_string(), entries };
    assert!(!read.check());
    assert_eq!(FileEntry::default().name, "");
}

#[test]
fn rect_contains_its_cells_and_not_its_far_edges() {
    let rect = Rect { x: 1, y: 2, width: 3, height: 4 };
    assert!(rect.contains(Position::new(1, 2)));
    assert!(rect.contains(Position::new(3, 5)));
    assert!(!rect.contains(Position::new(4, 2)));
    assert!(!rect.contains(Position::new(1, 6)));
    assert!(!rect.contains(Position::new(0, 2)));
    assert_eq!(rect.right(), 4);
    assert_eq!(rect.bottom(), 6);
    assert!(!Rect::default().contains(Position::new(0, 0)));
    let far = Rect { x: 65530, y: 0, width: 100, height: 1 };
    assert_eq!(far.right(), 65535);
}

#[test]
fn rect_margins_and_centering() {
    let rect = Rect { x: 0, y: 0, width: 100, height: 50 };
    assert_eq!(rect.inner(4, 2), Rect { x: 4, y: 2, width: 92, height: 46 });
    assert_eq!(rect.inner(60, 2), Rect::default());
    assert_eq!(rect.inner_centered(40, 26), Rect { x: 30, y: 12, width: 40, height: 26 });
    assert_eq!(rect.inner_centered(200, 60), rect);
    assert_eq!(rect.moved_down(4).y, 4);
    let low = Rect { x: 0, y: 65530, width: 1, height: 5 };
    assert_eq!(low.moved_down(4).y, 65530);
}

#[test]
fn layout_splits_by_the_solver_of_ratatui() {
    let rects = Layout::vertical(vec![Sizing::Length(5), Sizing::Min(0)])
        .split(Rect { x: 2, y: 2, width: 10, height: 10 });
    assert_eq!(
        rects,
        vec![
            Rect { x: 2, y: 2, width: 10, height: 5 },
            Rect { x: 2, y: 7, width: 10, height: 5 }
        ]
    );
    let rects = Layout::horizontal(vec![Sizing::Ratio(1, 3), Sizing::Ratio(2, 3)])
        .spacing(1)
        .split(Rect { x: 0, y: 0, width: 10, height: 2 });
    assert_eq!(
        rects,
        vec![
            Rect { x: 0, y: 0, width: 3, height: 2 },
            Rect { x: 4, y: 0, width: 6, height: 2 }
        ]
    );
    let part = Layout::horizontal(vec![Sizing::Percentage(50)])
        .flex(Slack::End)
        .horizontal_margin(2)
        .vertical_margin(1)
        .single(Rect { x: 0, y: 0, width: 24, height: 10 });
    assert_eq!(part, Rect { x: 12, y: 1, width: 10, height: 8 });
    let centered = Layout::vertical(vec![Sizing::Length(2)])
        .flex(Slack::Center)
        .single(Rect { x: 0, y: 0, width: 4, height: 10 });
    assert_eq!(centered, Rect { x: 0, y: 4, width: 4, height: 2 });
    let filled = Layout::horizontal(vec![Sizing::Max(3), Sizing::Fill(1)])
        .split(Rect { x: 0, y: 0, width: 10, height: 1 });
    assert_eq!(filled[0].width, 3);
    assert_eq!(filled[1].width, 7);
}

#[test]
fn keys_map_to_input_requests() {
    assert_eq!(to_input_request(&key(KeyCode::Char('a'))), Some(InputRequest::InsertChar('a')));
    assert_eq!(
        to_input_request(&KeyEvent::new(KeyCode::Char('A'), KeyModifiers::shift())),
        Some(InputRequest::InsertChar('A'))
    );
    assert_eq!(to_input_request(&key(KeyCode::Backspace)), Some(InputRequest::DeletePrevChar));
    assert_eq!(
        to_input_request(&KeyEvent::new(KeyCode::Char('w'), KeyModifiers::control())),
        Some(InputRequest::DeletePrevWord)
    );
    assert_eq!(
        to_input_request(&KeyEvent::new(KeyCode::Left, KeyModifiers::control())),
        Some(InputRequest::GoToPrevWord)
    );
    assert_eq!(to_input_request(&key(KeyCode::Tab)), None);
    assert_eq!(to_input_request(&key(KeyCode::Enter)), None);
    let released = KeyEvent {
        code: KeyCode::Char('a'),
        modifiers: KeyModifiers::empty(),
        kind: KeyEventKind::Release,
    };
    assert_eq!(to_input_request(&released), None);
    let repeated = KeyEvent {
        code: KeyCode::Char('a'),
        modifiers: KeyModifiers::empty(),
        kind: KeyEventKind::Repeat,
    };
    assert_eq!(to_input_request(&repeated), Some(InputRequest::InsertChar('a')));
}

#[test]
fn input_edits_by_characters_and_words() {
    let mut input = Input::default();
    for c in "hello wörld".chars() {
        input.handle_event(&key(KeyCode::Char(c)));
    }
    assert_eq!(input.value(), "hello wörld");
    assert_eq!(input.cursor(), 11);
    input.handle_event(&key(KeyCode::Backspace));
    assert_eq!(input.value(), "hello wörl");
    input.handle_event(&key(KeyCode::Home));
    assert_eq!(input.cursor(), 0);
    input.handle_event(&key(KeyCode::Delete));
    assert_eq!(input.value(), "ello wörl");
    input.handle_event(&key(KeyCode::Right));
    input.handle_event(&key(KeyCode::Char('X')));
    assert_eq!(input.value(), "eXllo wörl");
    assert_eq!(input.cursor(), 2);
    input.handle_event(&key(KeyCode::End));
    input.handle_event(&KeyEvent::new(KeyCode::Char('w'), KeyModifiers::control()));
    assert_eq!(input.value(), "eXllo ");
    assert_eq!(input.cursor(), 6);
    input.handle_event(&KeyEvent::new(KeyCode::Left, KeyModifiers::control()));
    assert_eq!(input.cursor(), 0);
    input.handle_event(&KeyEvent::new(KeyCode::Char('k'), KeyModifiers::control()));
    assert_eq!(input.value(), "");
    input.handle_event(&key(KeyCode::Enter));
    assert_eq!(input.value(), "");
    input.handle(InputRequest::InsertChar('z'));
    input.handle(InputRequest::SetCursor(9));
    assert_eq!(input.cursor(), 1);
    input.reset();
    assert_eq!((input.value(), input.cursor()), ("", 0));
}

#[test]
fn input_scrolls_to_keep_the_cursor_in_sight() {
    let mut input = Input::default();
    for c in "abcdefghij".chars() {
        input.handle_event(&key(KeyCode::Char(c)));
    }
    assert_eq!(input.visual_scroll(4), 6);
    assert_eq!(input.visual_scroll(20), 0);
    input.handle_event(&key(KeyCode::Home));
    assert_eq!(input.visual_scroll(4), 0);
}

#[test]
fn lines_are_counted_as_the_standard_library_counts_them() {
    for text in ["", "a", "a\n", "a\nb", "a\nb\n", "\n", "\n\n", "a\r\nb\r\n", "x\n\ny"] {
        assert_eq!(count_lines(text), text.lines().count(), "{:?}", text);
    }
}

#[test]
fn pattern_is_removed_everywhere() {
    for name in ["post.md", "a.md.md", ".md", "readme", "x.mdx.md", ""] {
        assert_eq!(remove_all(name, ".md"), name.replace(".md", ""), "{:?}", name);
    }
    assert_eq!(remove_all("aaaa", "aa"), "");
    assert_eq!(remove_all("aaa", "aa"), "a");
}

#[test]
fn viewport_of_a_long_text_holds_lines_back() {
    let state = content_scroll(100, 20);
    assert_eq!(state.max, 96);
    assert_eq!(state.position, 0);
    assert_eq!(state.view_size, 1);
    assert_eq!(content_scroll(20, 20).max, 16);
    assert_eq!(content_scroll(7, 7).max, 6);
}

#[test]
fn viewport_of_a_text_that_fits_holds_nothing_back() {
    assert_eq!(content_scroll(10, 20).max, 10);
    assert_eq!(content_scroll(0, 1).max, 0);
    assert_eq!(content_scroll(19, 20).max, 19);
    assert_eq!(content_scroll(0, 0).max, 0);
}

#[test]
fn tasks_say_what_they_send() {
    let login = Task::Login { user: "a@b.c".to_string(), password: "secret".to_string() };
    let register = Task::Register { user: "a@b.c".to_string(), password: "secret".to_string() };
    assert_eq!(login.opening(), vec![Action::EnterProcessing]);
    assert_eq!(login.endpoint(), Some("http://localhost:8080/api/auth/login"));
    assert_eq!(register.endpoint(), Some("http://localhost:8080/api/auth/register"));
    assert_eq!(Task::Increment(1).endpoint(), None);
    assert_eq!(
        Task::Increment(3).after_wait(),
        vec![Action::Increment(3), Action::EnterNormal]
    );
    assert_eq!(
        Task::Decrement(2).after_wait(),
        vec![Action::Decrement(2), Action::EnterNormal]
    );
    assert!(login.after_wait().is_empty());
    let ok = AuthReply::Answer { authenticated: Some(true), message: "hi".to_string() };
    assert_eq!(
        login.after_reply(ok),
        vec![Action::EnterNormal, Action::LoggedIn, Action::ChangeMode(Mode::Home)]
    );
    let ok = AuthReply::Answer { authenticated: Some(true), message: "hi".to_string() };
    assert_eq!(
        register.after_reply(ok),
        vec![Action::EnterNormal, Action::LoggedIn, Action::ChangeMode(Mode::Signup)]
    );
    let no = AuthReply::Answer { authenticated: Some(false), message: "wrong".to_string() };
    assert_eq!(
        login.after_reply(no),
        vec![
            Action::Toast("Validation Error".to_string(), "wrong".to_string()),
            Action::EnterNormal
        ]
    );
    let unknown = AuthReply::Answer { authenticated: None, message: "eh".to_string() };
    assert_eq!(
        register.after_reply(unknown),
        vec![
            Action::Toast("Validation Error".to_string(), "eh".to_string()),
            Action::EnterNormal
        ]
    );
    assert_eq!(
        login.after_reply(AuthReply::Failed("refused".to_string())),
        vec![
            Action::Toast("Validation Error".to_string(), "refused".to_string()),
            Action::EnterNormal
        ]
    );
    assert!(Task::Increment(1).after_reply(AuthReply::Failed("x".to_string())).is_empty());
}

#[test]
fn sender_queues_in_order_and_drains() {
    let mut tx = ActionSender::new();
    tx.send(Action::Tick);
    tx.spawn(Task::Increment(1));
    tx.send(Action::Quit);
    let other = tx.handle();
    assert!(other.queue.is_empty());
    let sent = tx.drain();
    assert_eq!(
        sent,
        vec![
            Outgoing::Send(Action::Tick),
            Outgoing::Spawn(Task::Increment(1)),
            Outgoing::Send(Action::Quit)
        ]
    );
    assert!(tx.queue.is_empty());
    let mut none: Option<ActionSender> = None;
    sympil::component::emit(&mut none, Action::Tick);
    assert!(sympil::component::collect(&mut none).is_empty());
    let mut some = Some(ActionSender::new());
    sympil::component::emit(&mut some, Action::Tick);
    sympil::component::start(&mut some, Task::Decrement(1));
    assert_eq!(sympil::component::collect(&mut some).len(), 2);
}

#[test]
fn keymap_binds_a_key_to_what_was_inserted_last() {
    let mut keymap = Keymap::new();
    keymap.insert(key(KeyCode::Tab), Action::ToggleSidebar);
    keymap.insert(key(KeyCode::Enter), Action::SelectOption);
    keymap.insert(key(KeyCode::Tab), Action::Quit);
    assert_eq!(keymap.entries.len(), 2);
    assert_eq!(keymap.get(&key(KeyCode::Tab)), Some(&Action::Quit));
    assert_eq!(keymap.get(&key(KeyCode::Enter)), Some(&Action::SelectOption));
    assert_eq!(keymap.get(&key(KeyCode::Esc)), None);
    let bindings = KeyBindings::default();
    let music = Keymap::of_table(bindings.get(&Mode::MusicPlayer).unwrap());
    assert_eq!(music.get(&key(KeyCode::Char(' '))), Some(&Action::PausePlay));
    assert_eq!(music.get(&key(KeyCode::Char('o'))), Some(&Action::OpenFilepicker));
    assert_eq!(music.entries.len(), 4);
}

#[test]
fn modes_and_pages_have_their_defaults() {
    assert_eq!(Mode::default(), Mode::Login);
    assert_eq!(Page::default(), Page::Login);
    assert_eq!(InputMode::default(), InputMode::Normal);
    assert_eq!(Mode::all().len(), Mode::COUNT);
    assert_eq!(Mode::all()[0], Mode::Home);
    assert_eq!(Mode::WorldMap.label(), "Map");
    assert_eq!(InputMode::confirm(), vec![InputMode::Submit, InputMode::Cancel]);
    assert_eq!(Action::Toast("a".into(), "b".into()).clone(), Action::Toast("a".into(), "b".into()));
}

#[test]
fn query_parameters_are_found_by_name() {
    assert_eq!(query_value("?backend=canvas", "backend"), Some("canvas".to_string()));
    assert_eq!(query_value("?a=1&backend=dom&backend=webgl2", "backend"), Some("dom".to_string()));
    assert_eq!(query_value("backend=", "backend"), Some(String::new()));
    assert_eq!(query_value("?notbackend=dom", "backend"), None);
    assert_eq!(query_value("?backend", "backend"), None);
    assert_eq!(query_value("", "backend"), None);
    assert_eq!(query_value("?x=backend=dom", "backend"), None);
}

#[test]
fn default_bindings_fill_in_what_the_file_does_not_bind() {
    let mut own = ModeBindings::new(Mode::Global);
    own.bind(KeyCode::Char('q'), KeyModifiers::empty(), Action::Quit);
    own.bind(KeyCode::Char('z'), KeyModifiers::empty(), Action::Refresh);
    let mut signup = ModeBindings::new(Mode::Signup);
    signup.bind(KeyCode::Enter, KeyModifiers::empty(), Action::SelectItem);
    let mut bindings = KeyBindings { modes: vec![own, signup] };
    bindings.merge_defaults(&KeyBindings::default());
    let global = bindings.get(&Mode::Global).unwrap();
    assert_eq!(global.get(&vec![key(KeyCode::Char('q'))]), Some(&Action::Quit));
    assert_eq!(global.get(&vec![key(KeyCode::Char('z'))]), Some(&Action::Refresh));
    assert_eq!(global.get(&vec![key(KeyCode::Tab)]), Some(&Action::ToggleNav));
    assert_eq!(global.bindings.len(), 11);
    assert_eq!(bindings.modes.len(), 10);
    let home = bindings.get(&Mode::Home).unwrap();
    assert_eq!(home.get(&vec![key(KeyCode::Char('/'))]), Some(&Action::EnterInsert));
    assert_eq!(bindings.get(&Mode::Signup).unwrap().bindings.len(), 1);
    assert_eq!(bindings.get(&Mode::WorldMap).unwrap().bindings.len(), 0);
}

#[test]
fn bindings_are_made_of_what_is_written() {
    let written = vec![
        (Mode::Global, vec![("<q>".to_string(), Action::Quit), ("<ctrl-x><s>".to_string(), Action::Refresh)]),
        (Mode::Home, Vec::new()),
    ];
    let bindings = KeyBindings::from_written(written).unwrap();
    assert_eq!(bindings.modes.len(), 2);
    let global = bindings.get(&Mode::Global).unwrap();
    assert_eq!(global.get(&vec![key(KeyCode::Char('q'))]), Some(&Action::Quit));
    assert_eq!(
        global.get(&vec![
            KeyEvent::new(KeyCode::Char('x'), KeyModifiers::control()),
            key(KeyCode::Char('s'))
        ]),
        Some(&Action::Refresh)
    );
    let bad = vec![(Mode::Global, vec![("<q>".to_string(), Action::Quit), ("<nokey>".to_string(), Action::Tick)])];
    assert_eq!(
        KeyBindings::from_written(bad),
        Err(Error::InvalidKeyEvent("nokey".to_string()))
    );
}

#[test]
fn configuration_starts_from_the_file_or_from_the_defaults() {
    let loaded = AppConfiguration {
        config: AppConfig {
            log_level: "warn".to_string(),
            app_data_path: "/data".to_string(),
            popup_timeout: 9,
            username: Some("ann".to_string()),
            password: None,
        },
        databaseconfig: DatabaseConfig { db_type: "file".to_string() },
        keybindings: KeyBindings { modes: Vec::new() },
    };
    let cfg = AppConfiguration::init(Ok(loaded), args("", "", Some("x"), Some("y"))).unwrap();
    assert_eq!(cfg.config.log_level, "warn");
    assert_eq!(cfg.config.app_data_path, "/data");
    assert_eq!(cfg.config.popup_timeout, 9);
    assert_eq!(cfg.config.username, Some("ann".to_string()));
    assert_eq!(cfg.config.password, None);
    assert_eq!(cfg.databaseconfig.db_type, "file");
    assert_eq!(cfg.keybindings.modes.len(), 9);
    let cfg = AppConfiguration::init(Err(Error::LoadingConfigFile), args("trace", "", None, None))
        .unwrap();
    assert_eq!(cfg.config.log_level, "trace");
    assert_eq!(cfg.config.app_data_path, "~/.sympil");
    assert_eq!(cfg.config.popup_timeout, 5);
    assert_eq!(cfg.keybindings.modes.len(), 9);
}

#[test]
fn version_text_names_the_release_and_the_authors() {
    assert_eq!(version("0.1.0", "Ann <ann@example.org>"), "0.1.0\n\nAuthors: Ann <ann@example.org>\n\n        ");
    assert_eq!(version("", ""), "\n\nAuthors: \n\n        ");
}

#[test]
fn parts_of_a_split_stay_inside_the_area() {
    let areas = [
        Rect { x: 0, y: 0, width: 80, height: 24 },
        Rect { x: 7, y: 3, width: 5, height: 2 },
        Rect { x: 65000, y: 65000, width: 535, height: 535 },
        Rect { x: 10, y: 10, width: 0, height: 0 },
    ];
    let plans = [
        Layout::horizontal(vec![Sizing::Length(200), Sizing::Min(90), Sizing::Percentage(150)]),
        Layout::vertical(vec![Sizing::Length(200), Sizing::Fill(1), Sizing::Ratio(5, 2)])
            .flex(Slack::SpaceAround)
            .spacing(3),
        Layout::horizontal(vec![Sizing::Max(1), Sizing::Percentage(18)]).flex(Slack::Center),
    ];
    for area in areas {
        for plan in &plans {
            let rects = plan.split(area);
            assert_eq!(rects.len(), 3.min(plan.constraints.len()));
            for part in rects {
                assert!(area.x <= part.x && area.y <= part.y, "{:?} in {:?}", part, area);
                assert!(part.right() <= area.right(), "{:?} in {:?}", part, area);
                assert!(part.bottom() <= area.bottom(), "{:?} in {:?}", part, area);
            }
        }
    }
    let tight = Layout::vertical(vec![Sizing::Min(3)])
        .vertical_margin(2)
        .single(Rect { x: 9, y: 9, width: 20, height: 3 });
    assert_eq!(tight, Rect { x: 0, y: 0, width: 0, height: 0 });
}
