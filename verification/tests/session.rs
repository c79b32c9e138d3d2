use kuber_rs::app::logs_keeper::LogsKeeper;
use kuber_rs::app::{App, LogsRequest};
use kuber_rs::errors::Error;
use kuber_rs::input::event_loop::Event;
use kuber_rs::input::{InputAction, Key};
use kuber_rs::pod::Pod;
use kuber_rs::ui::{InputContext, UiContext, UI};

fn running_pod(name: &str) -> Pod {
    Pod {
        name: name.to_string(),
        ready: "1/1".to_string(),
        status: "Running".to_string(),
        restarts: "0".to_string(),
        age: "1d".to_string(),
    }
}

fn pods(names: &[&str]) -> Vec<Pod> {
    names.iter().map(|name| running_pod(name)).collect()
}

fn session(names: &[&str]) -> UI {
    UI::new(App::new("default".to_string(), pods(names)))
}

fn press(ui: &mut UI, key: Key) -> Option<LogsRequest> {
    ui.handle_input(Event::Input(key), UiContext { logs_chunk_height: 10 })
}

fn log_lines(prefix: &str, count: usize) -> Vec<String> {
    (0..count).map(|i| format!("{} {}", prefix, i)).collect()
}

fn fetch(ui: &mut UI, prefix: &str, count: usize) {
    let request = press(ui, Key::Enter).unwrap();
    ui.complete_fetch(request.pod_name, Ok(log_lines(prefix, count))).unwrap();
}

#[test]
fn keeper_starts_empty() {
    let keeper = LogsKeeper::default();
    assert_eq!(keeper.logs(), None);
    assert_eq!(keeper.pod_name(), None);
}

#[test]
fn keeper_holds_name_and_lines() {
    let keeper = LogsKeeper::new("web-0".to_string(), log_lines("l", 2));
    assert_eq!(keeper.logs(), Some(&vec!["l 0".to_string(), "l 1".to_string()]));
    assert_eq!(keeper.pod_name(), Some(&"web-0".to_string()));
}

#[test]
fn new_app_runs_and_holds_the_listing() {
    let app = App::new("staging".to_string(), pods(&["a", "b"]));
    assert!(*app.running());
    assert_eq!(app.namespace(), "staging");
    assert_eq!(app.pods(), Some(&pods(&["a", "b"])));
    assert_eq!(app.get_pods_number(), 2);
    assert_eq!(app.get_pod(1), &running_pod("b"));
    assert_eq!(app.get_pod_name(0), "a");
    assert_eq!(app.pod_logs(), None);
    assert_eq!(app.get_logged_pod_name(), None);
    assert_eq!(app.get_logs_number(), 0);
}

#[test]
fn quit_stops_the_app() {
    let mut app = App::new("default".to_string(), pods(&["a"]));
    let request = app.take_action(InputAction::Quit, InputContext { selected_pod_index: Some(0) });
    assert_eq!(request, None);
    assert!(!*app.running());
}

#[test]
fn fetch_logs_asks_for_the_selected_pod() {
    let mut app = App::new("staging".to_string(), pods(&["a", "b"]));
    let request =
        app.take_action(InputAction::FetchLogs, InputContext { selected_pod_index: Some(1) });
    assert_eq!(
        request,
        Some(LogsRequest { pod_name: "b".to_string(), namespace: "staging".to_string() })
    );
    assert!(*app.running());
    assert_eq!(app.pod_logs(), None);
}

#[test]
fn fetch_logs_without_a_selection_asks_for_nothing() {
    let mut app = App::new("default".to_string(), pods(&["a"]));
    let none = InputContext { selected_pod_index: None };
    assert_eq!(app.take_action(InputAction::FetchLogs, none), None);
    let outside = InputContext { selected_pod_index: Some(1) };
    assert_eq!(app.take_action(InputAction::FetchLogs, outside), None);
    let mut empty = App::new("default".to_string(), Vec::new());
    let none = InputContext { selected_pod_index: None };
    assert_eq!(empty.take_action(InputAction::FetchLogs, none), None);
}

#[test]
fn stopped_app_asks_for_no_logs() {
    let mut app = App::new("default".to_string(), pods(&["a"]));
    app.take_action(InputAction::Quit, InputContext { selected_pod_index: Some(0) });
    let request =
        app.take_action(InputAction::FetchLogs, InputContext { selected_pod_index: Some(0) });
    assert_eq!(request, None);
    assert!(!*app.running());
}

#[test]
fn other_actions_leave_the_app_alone() {
    let mut app = App::new("default".to_string(), pods(&["a"]));
    for action in [
        InputAction::NextPod,
        InputAction::PreviousPod,
        InputAction::LogsUp,
        InputAction::LogsDown,
        InputAction::LogsEnd,
    ] {
        let context = InputContext { selected_pod_index: Some(0) };
        assert_eq!(app.take_action(action, context), None);
        assert!(*app.running());
        assert_eq!(app.pod_logs(), None);
    }
}

#[test]
fn installed_logs_replace_the_old_ones() {
    let mut app = App::new("default".to_string(), pods(&["a", "b"]));
    app.install_logs("a".to_string(), log_lines("a", 3));
    assert_eq!(app.get_logged_pod_name(), Some("a".to_string()));
    assert_eq!(app.get_logs_number(), 3);
    app.install_logs("b".to_string(), log_lines("b", 1));
    assert_eq!(app.get_logged_pod_name(), Some("b".to_string()));
    assert_eq!(app.pod_logs(), Some(&vec!["b 0".to_string()]));
}

#[test]
fn session_starts_on_the_first_pod() {
    let ui = session(&["a", "b", "c"]);
    assert_eq!(ui.selected_pod_index(), Some(0));
    assert_eq!(ui.logger_widget().offset(), 0);
    assert_eq!(ui.logger_widget().pod_name(), None);
    assert_eq!(ui.app().get_pods_number(), 3);
}

#[test]
fn session_on_an_empty_listing_selects_nothing() {
    let ui = session(&[]);
    assert_eq!(ui.selected_pod_index(), None);
}

#[test]
fn next_pod_wraps_around() {
    let mut ui = session(&["a", "b", "c"]);
    ui.select_next_pod();
    assert_eq!(ui.selected_pod_index(), Some(1));
    ui.select_next_pod();
    assert_eq!(ui.selected_pod_index(), Some(2));
    ui.select_next_pod();
    assert_eq!(ui.selected_pod_index(), Some(0));
}

#[test]
fn previous_pod_wraps_around() {
    let mut ui = session(&["a", "b", "c"]);
    ui.select_previous_pod();
    assert_eq!(ui.selected_pod_index(), Some(2));
    ui.select_previous_pod();
    assert_eq!(ui.selected_pod_index(), Some(1));
    ui.select_previous_pod();
    assert_eq!(ui.selected_pod_index(), Some(0));
}

#[test]
fn as_many_steps_as_pods_return_to_the_start() {
    for count in 1..6usize {
        let names: Vec<String> = (0..count).map(|i| format!("pod-{}", i)).collect();
        let names: Vec<&str> = names.iter().map(|n| n.as_str()).collect();
        for start in 0..count {
            let mut ui = session(&names);
            for _ in 0..start {
                ui.select_next_pod();
            }
            assert_eq!(ui.selected_pod_index(), Some(start));
            for _ in 0..count {
                ui.select_next_pod();
            }
            assert_eq!(ui.selected_pod_index(), Some(start));
            for _ in 0..count {
                ui.select_previous_pod();
            }
            assert_eq!(ui.selected_pod_index(), Some(start));
        }
    }
}

#[test]
fn selecting_in_an_empty_listing_changes_nothing() {
    let mut ui = session(&[]);
    ui.select_next_pod();
    assert_eq!(ui.selected_pod_index(), None);
    ui.select_previous_pod();
    assert_eq!(ui.selected_pod_index(), None);
    assert_eq!(press(&mut ui, Key::Down), None);
    assert_eq!(press(&mut ui, Key::Up), None);
    assert_eq!(press(&mut ui, Key::Enter), None);
    assert_eq!(ui.selected_pod_index(), None);
    assert!(*ui.app().running());
}

#[test]
fn arrow_keys_move_the_selection() {
    let mut ui = session(&["a", "b"]);
    assert_eq!(press(&mut ui, Key::Down), None);
    assert_eq!(ui.selected_pod_index(), Some(1));
    assert_eq!(press(&mut ui, Key::Down), None);
    assert_eq!(ui.selected_pod_index(), Some(0));
    assert_eq!(press(&mut ui, Key::Up), None);
    assert_eq!(ui.selected_pod_index(), Some(1));
}

#[test]
fn enter_asks_for_the_logs_of_the_selected_pod() {
    let mut ui = session(&["a", "b"]);
    press(&mut ui, Key::Down);
    assert_eq!(
        press(&mut ui, Key::Enter),
        Some(LogsRequest { pod_name: "b".to_string(), namespace: "default".to_string() })
    );
    assert_eq!(ui.app().pod_logs(), None);
}

#[test]
fn fetched_logs_are_installed_with_a_fresh_viewport() {
    let mut ui = session(&["a", "b"]);
    fetch(&mut ui, "a", 4);
    assert_eq!(ui.app().get_logged_pod_name(), Some("a".to_string()));
    assert_eq!(ui.app().pod_logs(), Some(&log_lines("a", 4)));
    assert_eq!(ui.logger_widget().pod_name(), Some(&"a".to_string()));
    assert_eq!(ui.logger_widget().offset(), 0);
}

#[test]
fn fetching_again_resets_the_offset() {
    let mut ui = session(&["a"]);
    fetch(&mut ui, "a", 4);
    press(&mut ui, Key::PageUp);
    press(&mut ui, Key::PageUp);
    assert_eq!(ui.logger_widget().offset(), 2);
    fetch(&mut ui, "again", 1);
    assert_eq!(ui.logger_widget().offset(), 0);
    assert_eq!(ui.app().get_logged_pod_name(), Some("a".to_string()));
    assert_eq!(ui.app().pod_logs(), Some(&log_lines("again", 1)));
}

#[test]
fn second_fetch_shows_only_the_second_pod() {
    let mut ui = session(&["a", "b"]);
    fetch(&mut ui, "from a", 5);
    press(&mut ui, Key::PageUp);
    press(&mut ui, Key::PageUp);
    press(&mut ui, Key::Down);
    fetch(&mut ui, "from b", 3);
    assert_eq!(ui.app().get_logged_pod_name(), Some("b".to_string()));
    assert_eq!(ui.logger_widget().pod_name(), Some(&"b".to_string()));
    assert_eq!(ui.logger_widget().offset(), 0);
    let (screen, _) = ui.draw_screen(80, 10);
    assert_eq!(screen.pod_logs.title, "Logs: b");
    let texts: Vec<String> =
        screen.pod_logs.items.iter().map(|item| item[0].text.clone()).collect();
    assert_eq!(texts, vec!["from b 2", "from b 1", "from b 0"]);
}

#[test]
fn failed_fetch_changes_nothing_and_is_handed_back() {
    let mut ui = session(&["a", "b"]);
    fetch(&mut ui, "a", 2);
    press(&mut ui, Key::PageUp);
    press(&mut ui, Key::Down);
    let request = press(&mut ui, Key::Enter).unwrap();
    let failure = Error::KubecltNotFound(std::io::Error::new(
        std::io::ErrorKind::NotFound,
        "no such file",
    ));
    let done = ui.complete_fetch(request.pod_name, Err(failure));
    assert!(matches!(done, Err(Error::KubecltNotFound(_))));
    assert_eq!(ui.app().get_logged_pod_name(), Some("a".to_string()));
    assert_eq!(ui.app().pod_logs(), Some(&log_lines("a", 2)));
    assert_eq!(ui.logger_widget().offset(), 1);
    assert_eq!(ui.selected_pod_index(), Some(1));
    assert!(*ui.app().running());
    let done = ui.complete_fetch("b".to_string(), Err(Error::ParseOutputError));
    assert!(matches!(done, Err(Error::ParseOutputError)));
}

#[test]
fn scrolling_without_logs_changes_nothing() {
    let mut ui = session(&["a"]);
    press(&mut ui, Key::PageUp);
    assert_eq!(ui.logger_widget().offset(), 0);
    press(&mut ui, Key::PageDown);
    assert_eq!(ui.logger_widget().offset(), 0);
    press(&mut ui, Key::End);
    assert_eq!(ui.logger_widget().offset(), 0);
}

#[test]
fn offset_stays_between_zero_and_the_line_count() {
    let mut ui = session(&["a"]);
    fetch(&mut ui, "a", 3);
    press(&mut ui, Key::PageDown);
    assert_eq!(ui.logger_widget().offset(), 0);
    for expected in [1, 2, 3, 3, 3] {
        press(&mut ui, Key::PageUp);
        assert_eq!(ui.logger_widget().offset(), expected);
    }
    press(&mut ui, Key::PageDown);
    assert_eq!(ui.logger_widget().offset(), 2);
    press(&mut ui, Key::End);
    assert_eq!(ui.logger_widget().offset(), 0);
}

#[test]
fn quit_stops_the_session_for_good() {
    let mut ui = session(&["a", "b"]);
    assert_eq!(press(&mut ui, Key::Char('q')), None);
    assert!(!*ui.app().running());
    assert_eq!(press(&mut ui, Key::Down), None);
    assert_eq!(ui.selected_pod_index(), Some(0));
    assert_eq!(press(&mut ui, Key::Enter), None);
    let mut ui = session(&["a"]);
    press(&mut ui, Key::F(12));
    assert!(!*ui.app().running());
}

#[test]
fn ticks_and_unbound_keys_change_nothing() {
    let mut ui = session(&["a", "b"]);
    fetch(&mut ui, "a", 3);
    press(&mut ui, Key::Down);
    press(&mut ui, Key::PageUp);
    let context = UiContext { logs_chunk_height: 10 };
    assert_eq!(ui.handle_input(Event::Tick, context), None);
    for key in [Key::Char('x'), Key::F(1), Key::Esc, Key::Left, Key::Other] {
        assert_eq!(press(&mut ui, key), None);
    }
    assert!(*ui.app().running());
    assert_eq!(ui.selected_pod_index(), Some(1));
    assert_eq!(ui.logger_widget().offset(), 1);
    assert_eq!(ui.app().pod_logs(), Some(&log_lines("a", 3)));
}

#[test]
fn drawing_shows_the_selected_pod_and_the_logs() {
    let mut ui = session(&["a", "b"]);
    press(&mut ui, Key::Down);
    let (screen, context) = ui.draw_screen(40, 7);
    assert_eq!(context.logs_chunk_height, 7);
    assert_eq!(screen.selected_pod_index, Some(1));
    assert_eq!(screen.pod_details, Some(running_pod("b")));
    assert_eq!(screen.pod_logs.title, "Logs");
    assert_eq!(screen.pod_logs.items.len(), 1);
    assert_eq!(screen.pod_logs.items[0][0].text, "Press 'Enter' to load pod logs.");
}

#[test]
fn drawing_an_empty_listing_shows_no_details() {
    let mut ui = session(&[]);
    let (screen, _) = ui.draw_screen(40, 7);
    assert_eq!(screen.selected_pod_index, None);
    assert_eq!(screen.pod_details, None);
}

#[test]
fn drawing_keeps_the_viewport_of_the_same_pod() {
    let mut ui = session(&["a"]);
    fetch(&mut ui, "a", 5);
    press(&mut ui, Key::PageUp);
    press(&mut ui, Key::PageUp);
    let (screen, _) = ui.draw_screen(80, 2);
    let texts: Vec<String> =
        screen.pod_logs.items.iter().map(|item| item[0].text.clone()).collect();
    assert_eq!(texts, vec!["a 2", "a 1"]);
    ui.reset_logger_widget_if_required();
    assert_eq!(ui.logger_widget().offset(), 2);
    let (again, _) = ui.draw_screen(80, 2);
    assert_eq!(again, screen);
}
