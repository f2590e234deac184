use gputop::gpu::{GpuInfo, GpuManager};
use gputop::process::ProcessEntry;
use gputop::settings::{AppSettings, SettingsManager};
use gputop::state::{Action, App, AppError, Key, KeyPress, SortColumn, ViewMode};

const T0: i64 = 1_700_000_000_000;

fn mock_gpus() -> Vec<GpuInfo> {
    GpuManager::get_gpu_info(None)
}

fn settings() -> SettingsManager {
    SettingsManager::new(AppSettings::default(), String::from("settings.json"))
}

fn app() -> App {
    let mut app = App::new(1000, None, false, mock_gpus(), settings()).unwrap();
    // No process of the table uses the device: the three mock processes are shown.
    app.update_at(mock_gpus(), &Vec::new(), T0, T0 - 1000);
    app
}

fn key(key: Key) -> KeyPress {
    KeyPress { key, alt: false, control: false }
}

fn ch(c: char) -> KeyPress {
    key(Key::Char(c))
}

fn ctrl(c: char) -> KeyPress {
    KeyPress { key: Key::Char(c), alt: false, control: true }
}

fn alt(c: char) -> KeyPress {
    KeyPress { key: Key::Char(c), alt: true, control: false }
}

fn pids(app: &App) -> Vec<u32> {
    app.processes.iter().map(|p| p.pid).collect()
}

fn type_command(app: &mut App, command: &str) {
    assert_eq!(app.handle_key(ctrl('p')), Action::Nothing);
    assert!(app.show_command_palette);
    for c in command.chars() {
        assert_eq!(app.handle_key(ch(c)), Action::Nothing);
    }
    assert_eq!(app.command_palette_input, command);
    assert_eq!(app.handle_key(key(Key::Enter)), Action::Nothing);
    assert!(!app.show_command_palette);
    assert_eq!(app.command_palette_input, "");
}

#[test]
fn session_begins_on_the_first_device() {
    let app = App::new(500, None, true, mock_gpus(), settings()).unwrap();
    assert!(!app.should_quit);
    assert_eq!(app.current_gpu, 0);
    assert_eq!(app.view_mode, ViewMode::Processes);
    assert_eq!(app.sort_column, SortColumn::GpuUsage);
    assert!(!app.sort_ascending);
    assert_eq!(app.selected_process, None);
    assert_eq!(app.update_interval, 500);
    assert!(app.debug_mode);
    assert!(app.processes.is_empty());
    assert!(app.history.is_empty());
    assert_eq!(app.history.capacity(), 300);
    assert!(app.health_metrics.is_none());
    assert!(app.status_message.is_none());
    assert_eq!(app.settings_manager.get_settings().update_interval_ms, 1000);
}

#[test]
fn session_refuses_a_device_that_is_not_there() {
    match App::new(1000, Some(3), false, mock_gpus(), settings()) {
        Err(error) => {
            assert_eq!(error, AppError::GpuNotFound { index: 3, available: 1 });
            assert_eq!(error.message(), "GPU index 3 not found. Available GPUs: 1");
        }
        Ok(_) => panic!("a device that is not there was accepted"),
    }
    assert!(App::new(1000, Some(0), false, mock_gpus(), settings()).is_ok());
    assert!(App::new(1000, None, false, Vec::new(), settings()).is_err());
}

#[test]
fn update_lists_processes_and_records_health() {
    let app = app();
    assert_eq!(pids(&app), vec![1234, 5678, 9012]);
    assert_eq!(app.history.len(), 1);
    let point = app.history.get(0);
    assert_eq!(point.timestamp, T0);
    assert_eq!(point.utilization, 45_000);
    assert_eq!(point.memory_usage, 25_000);
    assert_eq!(point.temperature, 65_000);
    let health = app.health_metrics.as_ref().unwrap();
    assert_eq!(health.temperature.current, 65_000);
    assert_eq!(health.power.current_draw, 150_000);
    assert_eq!(health.memory.peak_usage_today, 2048 * 1024 * 1024);
}

#[test]
fn update_by_the_clock_records_health_too() {
    let mut app = App::new(1000, None, false, mock_gpus(), settings()).unwrap();
    app.update(mock_gpus(), &Vec::new());
    assert_eq!(pids(&app), vec![1234, 5678, 9012]);
    assert_eq!(app.history.len(), 1);
    assert!(app.health_metrics.is_some());
    app.update(Vec::new(), &Vec::new());
    assert!(app.gpus.is_empty());
    assert_eq!(app.history.len(), 1);
}

#[test]
fn history_keeps_three_hundred_points() {
    let mut app = app();
    for second in 1..400 {
        app.update_at(mock_gpus(), &Vec::new(), T0 + second * 1000, T0 - 1000);
    }
    assert_eq!(app.history.len(), 300);
    assert_eq!(app.history.get(0).timestamp, T0 + 100_000);
    assert_eq!(app.history.get(299).timestamp, T0 + 399_000);
}

#[test]
fn arrows_move_the_selection_and_wrap() {
    let mut app = app();
    assert_eq!(app.handle_key(key(Key::Down)), Action::Nothing);
    assert_eq!(app.selected_process, Some(0));
    app.handle_key(key(Key::Down));
    assert_eq!(app.selected_process, Some(1));
    app.handle_key(key(Key::Up));
    assert_eq!(app.selected_process, Some(0));
    app.handle_key(key(Key::Up));
    assert_eq!(app.selected_process, Some(2));
    app.handle_key(key(Key::Down));
    assert_eq!(app.selected_process, Some(0));
    app.handle_key(ch('j'));
    assert_eq!(app.selected_process, Some(1));
    app.handle_key(ch('k'));
    assert_eq!(app.selected_process, Some(0));
}

#[test]
fn first_up_selects_the_last_row() {
    let mut app = app();
    app.handle_key(key(Key::Up));
    assert_eq!(app.selected_process, Some(2));
}

#[test]
fn paging_moves_ten_rows() {
    let mut app = app();
    app.handle_key(key(Key::Home));
    assert_eq!(app.selected_process, Some(0));
    app.handle_key(key(Key::PageDown));
    assert_eq!(app.selected_process, Some(1));
    app.handle_key(key(Key::PageUp));
    assert_eq!(app.selected_process, Some(0));
    app.handle_key(key(Key::End));
    assert_eq!(app.selected_process, Some(2));
}

#[test]
fn nothing_is_selected_in_an_empty_table() {
    let mut app = App::new(1000, None, false, mock_gpus(), settings()).unwrap();
    for k in [Key::Up, Key::Down, Key::PageUp, Key::PageDown, Key::Home, Key::End, Key::Enter] {
        assert_eq!(app.handle_key(key(k)), Action::Nothing);
        assert_eq!(app.selected_process, None);
        assert!(!app.show_process_details);
    }
    assert_eq!(app.handle_key(key(Key::Delete)), Action::Nothing);
}

#[test]
fn tab_cycles_the_pages() {
    let mut app = app();
    app.handle_key(key(Key::Tab));
    assert_eq!(app.view_mode, ViewMode::Performance);
    app.handle_key(key(Key::Tab));
    app.handle_key(key(Key::Tab));
    assert_eq!(app.view_mode, ViewMode::Health);
    app.handle_key(key(Key::Tab));
    assert_eq!(app.view_mode, ViewMode::Processes);
    app.handle_key(key(Key::BackTab));
    assert_eq!(app.view_mode, ViewMode::Health);
}

#[test]
fn function_keys_switch_devices() {
    let mut gpus = mock_gpus();
    let mut second = gpus[0].clone();
    second.index = 1;
    gpus.push(second);
    let mut app = App::new(1000, None, false, gpus.clone(), settings()).unwrap();
    app.update_at(gpus, &Vec::new(), T0, T0);
    app.handle_key(key(Key::Down));
    app.handle_key(key(Key::F(2)));
    assert_eq!(app.current_gpu, 1);
    assert_eq!(app.selected_process, None);
    // There is no third device.
    app.handle_key(key(Key::Down));
    app.handle_key(key(Key::F(3)));
    assert_eq!(app.current_gpu, 1);
    assert_eq!(app.selected_process, Some(0));
    app.handle_key(key(Key::F(1)));
    assert_eq!(app.current_gpu, 0);
    app.handle_key(key(Key::F(5)));
    app.handle_key(key(Key::F(0)));
    assert_eq!(app.current_gpu, 0);
}

#[test]
fn digits_sort_the_table() {
    let mut app = app();
    app.handle_key(ch('1'));
    assert_eq!(app.sort_column, SortColumn::Pid);
    assert!(!app.sort_ascending);
    assert_eq!(pids(&app), vec![9012, 5678, 1234]);
    app.handle_key(ch('1'));
    assert!(app.sort_ascending);
    assert_eq!(pids(&app), vec![1234, 5678, 9012]);
    // By user, downwards: user2, user1, root.
    app.handle_key(ch('2'));
    assert_eq!(app.sort_column, SortColumn::User);
    assert!(!app.sort_ascending);
    assert_eq!(pids(&app), vec![5678, 1234, 9012]);
    app.handle_key(ch('2'));
    assert_eq!(pids(&app), vec![9012, 1234, 5678]);
    app.handle_key(ch('3'));
    assert_eq!(pids(&app), vec![1234, 5678, 9012]);
    app.handle_key(ch('4'));
    assert_eq!(app.sort_column, SortColumn::MemoryUsage);
    assert_eq!(pids(&app), vec![1234, 5678, 9012]);
    app.handle_key(ch('4'));
    assert_eq!(pids(&app), vec![9012, 5678, 1234]);
    // By command, downwards: python.exe, ffmpeg.exe, blender.exe.
    app.handle_key(ch('5'));
    assert_eq!(pids(&app), vec![1234, 9012, 5678]);
}

#[test]
fn enter_shows_details_of_the_selection() {
    let mut app = app();
    app.handle_key(key(Key::Enter));
    assert!(!app.show_process_details);
    app.handle_key(key(Key::Down));
    app.handle_key(key(Key::Enter));
    assert!(app.show_process_details);
    // While the details are shown, other keys do nothing.
    app.handle_key(key(Key::Down));
    assert_eq!(app.selected_process, Some(0));
    app.handle_key(ch('t'));
    assert!(!app.tree_view);
    app.handle_key(key(Key::Esc));
    assert!(!app.show_process_details);
    app.handle_key(key(Key::Enter));
    assert!(app.show_process_details);
    app.handle_key(key(Key::Enter));
    assert!(!app.show_process_details);
}

#[test]
fn delete_asks_to_end_the_selected_process() {
    let mut app = app();
    assert_eq!(app.handle_key(key(Key::Delete)), Action::Nothing);
    app.handle_key(key(Key::Down));
    app.handle_key(key(Key::Down));
    assert_eq!(app.handle_key(key(Key::Delete)), Action::KillProcess { index: 1, pid: 5678 });
    assert_eq!(app.handle_key(alt('k')), Action::KillProcess { index: 1, pid: 5678 });
    assert_eq!(app.selected_process, Some(1));
    app.selected_process = Some(7);
    assert_eq!(app.handle_key(key(Key::Delete)), Action::Nothing);
}

#[test]
fn selection_follows_a_shrunken_table_after_a_kill() {
    let mut app = app();
    app.selected_process = Some(2);
    let entry = ProcessEntry {
        pid: 77,
        name: String::from("blender"),
        exe_path: String::from("/opt/blender/blender"),
        exe_file_name: Some(String::from("blender")),
        cpu_usage: 10_000,
        memory_kb: 1024,
        user_name: Some(String::from("carol")),
        parent_pid: None,
    };
    app.process_killed(&vec![entry]);
    assert_eq!(pids(&app), vec![77]);
    assert_eq!(app.selected_process, Some(0));
    app.selected_process = None;
    app.process_killed(&Vec::new());
    assert_eq!(pids(&app), vec![1234, 5678, 9012]);
    assert_eq!(app.selected_process, None);
}

#[test]
fn letters_toggle_parts_of_the_screen() {
    let mut app = app();
    app.handle_key(ch('t'));
    assert!(app.tree_view);
    app.handle_key(ch('t'));
    assert!(!app.tree_view);
    app.handle_key(ch('c'));
    assert!(app.panes_collapsed);
    app.handle_key(alt('s'));
    assert!(app.show_settings);
    app.handle_key(key(Key::Esc));
    assert!(!app.show_settings);
    app.handle_key(ch('h'));
    assert!(app.show_help);
    // While the help is shown only h and Esc are taken.
    app.handle_key(ch('t'));
    assert!(!app.tree_view);
    app.handle_key(ch('h'));
    assert!(!app.show_help);
    app.handle_key(ch('h'));
    app.handle_key(key(Key::Esc));
    assert!(!app.show_help);
    // Keys without a meaning do nothing.
    assert_eq!(app.handle_key(ch('z')), Action::Nothing);
    assert_eq!(app.handle_key(ch('s')), Action::Nothing);
    assert_eq!(app.handle_key(ch('e')), Action::Nothing);
    assert_eq!(app.handle_key(ch('p')), Action::Nothing);
    assert_eq!(app.handle_key(key(Key::Other)), Action::Nothing);
    assert!(!app.show_command_palette);
}

#[test]
fn settings_keys_hand_back_actions() {
    let mut app = app();
    app.handle_key(alt('s'));
    assert_eq!(app.handle_key(ch('r')), Action::ResetSettings);
    assert_eq!(app.handle_key(ch('s')), Action::SaveSettings);
    assert_eq!(app.handle_key(ch('x')), Action::Nothing);
    assert!(app.show_settings);
    assert_eq!(app.handle_key(key(Key::Esc)), Action::Nothing);
    assert!(!app.show_settings);
}

#[test]
fn settings_can_be_changed_and_reset() {
    let mut app = app();
    app.settings_manager.get_settings_mut().update_interval_ms = 250;
    assert_eq!(app.settings_manager.get_settings().update_interval_ms, 250);
    assert_eq!(app.settings_manager.config_path(), "settings.json");
    app.settings_manager.reset_to_defaults();
    assert_eq!(*app.settings_manager.get_settings(), AppSettings::default());
}

#[test]
fn export_keys_hand_back_actions() {
    let mut app = app();
    assert_eq!(app.handle_key(ctrl('e')), Action::ExportSnapshot);
    assert_eq!(app.status_message.as_deref(), Some("ðŸ”„ Starting export..."));
    assert!(app.status_message_time.is_some());
    assert_eq!(app.handle_key(ctrl('s')), Action::ExportProcesses);
    app.export_current_data("gputop_snapshot_20240101_120000.csv", None);
    assert_eq!(
        app.status_message.as_deref(),
        Some("âœ… Export successful: gputop_snapshot_20240101_120000.csv")
    );
    app.export_current_data("x.csv", Some("disk full"));
    assert_eq!(app.status_message.as_deref(), Some("âŒ Export failed: disk full"));
    app.export_processes_csv("p.csv", None);
    assert_eq!(app.status_message.as_deref(), Some("âœ… Process export successful: p.csv"));
    app.export_processes_csv("p.csv", Some("denied"));
    assert_eq!(app.status_message.as_deref(), Some("âŒ Process export failed: denied"));
    app.clear_status_message();
    assert!(app.status_message.is_none());
    assert!(app.status_message_time.is_none());
}

#[test]
fn export_without_a_device_is_refused() {
    let mut app = app();
    app.update_at(Vec::new(), &Vec::new(), T0 + 1000, T0);
    assert_eq!(app.handle_key(ctrl('e')), Action::Nothing);
    assert_eq!(app.status_message.as_deref(), Some("âŒ No GPU selected for export"));
}

#[test]
fn status_message_stays_for_its_time() {
    let second: u128 = 1_000_000_000;
    assert!(!App::status_message_expired(None, 10 * second));
    assert!(!App::status_message_expired(Some(0), 10 * second));
    assert!(!App::status_message_expired(Some(10 * second - 1), 10 * second));
    assert!(App::status_message_expired(Some(10 * second), 10 * second));
    let mut app = app();
    app.show_status_message(String::from("hello"));
    app.update_status_message();
    assert_eq!(app.status_message.as_deref(), Some("hello"));
    app.status_message_duration = 0;
    app.update_status_message();
    assert!(app.status_message.is_none());
}

#[test]
fn palette_takes_the_keys_while_open() {
    let mut app = app();
    app.handle_key(ctrl('p'));
    assert!(app.show_command_palette);
    app.handle_key(ch('t'));
    app.handle_key(ch('r'));
    app.handle_key(ch('x'));
    assert!(!app.tree_view);
    assert_eq!(app.command_palette_input, "trx");
    app.handle_key(key(Key::Backspace));
    assert_eq!(app.command_palette_input, "tr");
    app.handle_key(key(Key::Down));
    assert_eq!(app.selected_process, None);
    app.handle_key(key(Key::Esc));
    assert!(!app.show_command_palette);
    assert_eq!(app.command_palette_input, "");
    // Opening the palette again starts with an empty line.
    app.handle_key(ctrl('p'));
    app.handle_key(key(Key::Backspace));
    assert_eq!(app.command_palette_input, "");
}

#[test]
fn commands_are_trimmed_and_lowered() {
    let mut app = app();
    type_command(&mut app, "  Sort PID ");
    assert_eq!(app.sort_column, SortColumn::Pid);
    assert_eq!(pids(&app), vec![9012, 5678, 1234]);
    type_command(&mut app, "sort user");
    assert_eq!(app.sort_column, SortColumn::User);
    type_command(&mut app, "sort gpu");
    assert_eq!(app.sort_column, SortColumn::GpuUsage);
    type_command(&mut app, "sort memory");
    assert_eq!(app.sort_column, SortColumn::MemoryUsage);
    type_command(&mut app, "sort command");
    assert_eq!(app.sort_column, SortColumn::Command);
    type_command(&mut app, "TREE");
    assert!(app.tree_view);
    type_command(&mut app, "collapse");
    assert!(app.panes_collapsed);
    type_command(&mut app, "nonsense");
    assert!(!app.should_quit);
    type_command(&mut app, "help");
    assert!(app.show_help);
    app.handle_key(key(Key::Esc));
    type_command(&mut app, "\tQ\n");
    assert!(app.should_quit);
}

#[test]
fn quit_command_ends_the_session() {
    let mut app = app();
    type_command(&mut app, "quit");
    assert!(app.should_quit);
}

#[test]
fn quit_keys() {
    assert!(ch('q').quits());
    assert!(ctrl('q').quits());
    assert!(ctrl('c').quits());
    assert!(!ch('c').quits());
    assert!(!alt('c').quits());
    assert!(!key(Key::Esc).quits());
}

#[test]
fn messages_expire_after_their_time() {
    let second: u128 = 1_000_000_000;
    let mut app = app();
    app.show_status_message(String::from("hello"));
    app.expire_status_message(Some(10 * second - 1));
    assert_eq!(app.status_message.as_deref(), Some("hello"));
    assert!(app.status_message_time.is_some());
    app.expire_status_message(None);
    assert_eq!(app.status_message.as_deref(), Some("hello"));
    app.expire_status_message(Some(10 * second));
    assert!(app.status_message.is_none());
    assert!(app.status_message_time.is_none());
    app.expire_status_message(Some(20 * second));
    assert!(app.status_message.is_none());
}
