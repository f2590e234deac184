//! The state of the interactive session: what is shown and selected, and
//! what each key does to it. Work that reaches outside the program (ending
//! a process, writing a file) is handed back to the caller as an action.

use crate::clock::wall_clock_millis;
use crate::decimal::{decimal, push_decimal};
use crate::display::{memory_share, memory_share_of};
use crate::gpu::{GpuInfo, GpuInfoView};
use crate::health::{GpuHealthMetrics, Reading};
use crate::monitor::HealthMonitor;
use crate::notifications::{NotificationManager, NotificationQueue};
use crate::process::{
    entry_views, gpu_processes, process_views, sort_processes, sorted_by, GpuProcess,
    GpuProcessView, ProcessEntry, ProcessManager,
};
use crate::settings::SettingsManager;
use crate::text::{lowercase, to_lowercase, trim, trimmed};
use crate::window::{appended, RollingWindow};
use std::time::Instant;
use vstd::prelude::*;
use vstd::string::StringExecFns;

verus! {

/// The page shown.
#[derive(Debug, Clone, Copy, PartialEq, Eq, Structural)]
pub enum ViewMode {
    Processes,
    Performance,
    Hardware,
    Health,
}

/// The column by which the process table is sorted.
#[derive(Debug, Clone, Copy, PartialEq, Eq, Structural)]
pub enum SortColumn {
    Pid,
    User,
    GpuUsage,
    MemoryUsage,
    Command,
}

impl ViewMode {
    /// The page after this one; after the last comes the first.
    pub open spec fn spec_next(self) -> ViewMode {
        match self {
            ViewMode::Processes => ViewMode::Performance,
            ViewMode::Performance => ViewMode::Hardware,
            ViewMode::Hardware => ViewMode::Health,
            ViewMode::Health => ViewMode::Processes,
        }
    }

    /// The page before this one; before the first comes the last.
    pub open spec fn spec_previous(self) -> ViewMode {
        match self {
            ViewMode::Processes => ViewMode::Health,
            ViewMode::Performance => ViewMode::Processes,
            ViewMode::Hardware => ViewMode::Performance,
            ViewMode::Health => ViewMode::Hardware,
        }
    }

    /// The page after this one.
    pub fn next(self) -> (mode: ViewMode)
        ensures
            mode == self.spec_next(),
    {
        match self {
            ViewMode::Processes => ViewMode::Performance,
            ViewMode::Performance => ViewMode::Hardware,
            ViewMode::Hardware => ViewMode::Health,
            ViewMode::Health => ViewMode::Processes,
        }
    }

    /// The page before this one.
    pub fn previous(self) -> (mode: ViewMode)
        ensures
            mode == self.spec_previous(),
    {
        match self {
            ViewMode::Processes => ViewMode::Health,
            ViewMode::Performance => ViewMode::Processes,
            ViewMode::Hardware => ViewMode::Performance,
            ViewMode::Health => ViewMode::Hardware,
        }
    }
}

/// Going to the next page and back again, or back and forth, ends on the
/// page one started from, and so do four steps onward.
pub proof fn lemma_view_modes_cycle(mode: ViewMode)
    ensures
        mode.spec_next().spec_previous() == mode,
        mode.spec_previous().spec_next() == mode,
        mode.spec_next().spec_next().spec_next().spec_next() == mode,
{
}

/// One point of the short history that the charts show.
#[derive(Debug, Clone, Copy, PartialEq, Eq)]
pub struct HistoryPoint {
    /// Milliseconds since the Unix epoch.
    pub timestamp: i64,
    /// Thousandths of a percent.
    pub utilization: u32,
    /// Memory in use as a share of all memory, thousandths of a percent.
    pub memory_usage: u32,
    /// Thousandths of a degree Celsius.
    pub temperature: i32,
}

/// Points kept for the charts: five minutes at one a second.
pub const HISTORY_CAPACITY: usize = 300;

/// How long a status message stays: ten seconds, in nanoseconds.
pub const STATUS_MESSAGE_NANOS: u128 = 10_000_000_000;

/// A key of the keyboard.
#[derive(Debug, Clone, Copy, PartialEq, Eq, Structural)]
pub enum Key {
    Up,
    Down,
    PageUp,
    PageDown,
    Home,
    End,
    /// A function key, by its number.
    F(u8),
    Tab,
    BackTab,
    Enter,
    Delete,
    Esc,
    Backspace,
    Char(char),
    /// Any other key.
    Other,
}

/// A key pressed, with the modifier keys held down with it.
#[derive(Debug, Clone, Copy, PartialEq, Eq, Structural)]
pub struct KeyPress {
    pub key: Key,
    pub alt: bool,
    pub control: bool,
}

impl KeyPress {
    /// Whether the key ends the session: `q`, or `c` with the control key.
    pub open spec fn spec_quits(self) -> bool {
        self.key == Key::Char('q') || (self.key == Key::Char('c') && self.control)
    }

    /// Whether the key ends the session.
    pub fn quits(&self) -> (quits: bool)
        ensures
            quits == self.spec_quits(),
    {
        match self.key {
            Key::Char(c) => c == 'q' || (c == 'c' && self.control),
            _ => false,
        }
    }
}

/// What the caller is to do after a key.
#[derive(Debug, Clone, Copy, PartialEq, Eq, Structural)]
pub enum Action {
    Nothing,
    /// End the process at this place of the table.
    KillProcess { index: usize, pid: u32 },
    /// Write the snapshot of the current device to a file.
    ExportSnapshot,
    /// Write the process table to a file.
    ExportProcesses,
    /// Write the settings to their file.
    SaveSettings,
    /// Put the default settings in place and write them to their file.
    ResetSettings,
}

/// Why a session cannot begin.
#[derive(Debug, Clone, Copy, PartialEq, Eq, Structural)]
pub enum AppError {
    /// The device asked for is not among those found.
    GpuNotFound { index: usize, available: usize },
}

/// The session.
pub struct App {
    pub should_quit: bool,
    pub current_gpu: usize,
    pub view_mode: ViewMode,
    pub sort_column: SortColumn,
    pub sort_ascending: bool,
    pub selected_process: Option<usize>,
    pub filter_text: String,
    pub show_command_palette: bool,
    pub show_help: bool,
    pub show_process_details: bool,
    pub show_settings: bool,
    pub update_interval: u64,
    pub debug_mode: bool,
    pub health_monitor: HealthMonitor,
    pub notification_manager: NotificationManager,
    pub notification_queue: NotificationQueue,
    pub settings_manager: SettingsManager,
    pub gpus: Vec<GpuInfo>,
    pub processes: Vec<GpuProcess>,
    pub history: RollingWindow<HistoryPoint>,
    pub health_metrics: Option<GpuHealthMetrics>,
    pub panes_collapsed: bool,
    pub tree_view: bool,
    pub scroll_offset: usize,
    pub command_palette_input: String,
    pub status_message: Option<String>,
    pub status_message_time: Option<Instant>,
    /// Nanoseconds.
    pub status_message_duration: u128,
}

/// What the keys act on.
pub struct UiView {
    pub should_quit: bool,
    pub current_gpu: usize,
    pub gpu_count: nat,
    pub view_mode: ViewMode,
    pub sort_column: SortColumn,
    pub sort_ascending: bool,
    pub selected_process: Option<usize>,
    pub show_command_palette: bool,
    pub show_help: bool,
    pub show_process_details: bool,
    pub show_settings: bool,
    pub panes_collapsed: bool,
    pub tree_view: bool,
    pub command_palette_input: Seq<char>,
    pub processes: Seq<GpuProcessView>,
    pub status_message: Option<Seq<char>>,
}

pub open spec fn starting_export_message() -> Seq<char> {
    "ðŸ”„ Starting export..."@
}

pub open spec fn no_gpu_message() -> Seq<char> {
    "âŒ No GPU selected for export"@
}

pub open spec fn export_successful_message(filename: Seq<char>) -> Seq<char> {
    "âœ… Export successful: "@ + filename
}

pub open spec fn export_failed_message(error: Seq<char>) -> Seq<char> {
    "âŒ Export failed: "@ + error
}

pub open spec fn process_export_successful_message(filename: Seq<char>) -> Seq<char> {
    "âœ… Process export successful: "@ + filename
}

pub open spec fn process_export_failed_message(error: Seq<char>) -> Seq<char> {
    "âŒ Process export failed: "@ + error
}

pub open spec fn gpu_not_found_message(index: usize, available: usize) -> Seq<char> {
    "GPU index "@ + decimal(index as nat) + " not found. Available GPUs: "@ + decimal(
        available as nat,
    )
}

/// The selection moved one row up; from the first row, or from none, to
/// the last. Nothing moves in an empty table.
pub open spec fn selection_up(ui: UiView) -> UiView {
    if ui.processes.len() == 0 {
        ui
    } else {
        UiView {
            selected_process: match ui.selected_process {
                Some(i) => if i > 0 {
                    Some((i - 1) as usize)
                } else {
                    Some((ui.processes.len() - 1) as usize)
                },
                None => Some((ui.processes.len() - 1) as usize),
            },
            ..ui
        }
    }
}

/// The selection moved one row down; from the last row or beyond, or from
/// none, to the first. Nothing moves in an empty table.
pub open spec fn selection_down(ui: UiView) -> UiView {
    if ui.processes.len() == 0 {
        ui
    } else {
        UiView {
            selected_process: match ui.selected_process {
                Some(i) => if i < ui.processes.len() - 1 {
                    Some((i + 1) as usize)
                } else {
                    Some(0usize)
                },
                None => Some(0usize),
            },
            ..ui
        }
    }
}

/// The selection moved up `steps` rows, one by one.
pub open spec fn selection_up_by(ui: UiView, steps: nat) -> UiView
    decreases steps,
{
    if steps == 0 {
        ui
    } else {
        selection_up(selection_up_by(ui, (steps - 1) as nat))
    }
}

/// The selection moved down `steps` rows, one by one.
pub open spec fn selection_down_by(ui: UiView, steps: nat) -> UiView
    decreases steps,
{
    if steps == 0 {
        ui
    } else {
        selection_down(selection_down_by(ui, (steps - 1) as nat))
    }
}

/// The first row selected, where there is one.
pub open spec fn selection_first(ui: UiView) -> UiView {
    if ui.processes.len() > 0 {
        UiView { selected_process: Some(0usize), ..ui }
    } else {
        ui
    }
}

/// The last row selected, where there is one.
pub open spec fn selection_last(ui: UiView) -> UiView {
    if ui.processes.len() > 0 {
        UiView { selected_process: Some((ui.processes.len() - 1) as usize), ..ui }
    } else {
        ui
    }
}

/// Another device is shown, where there is one of that number; the
/// selection is dropped with the change.
pub open spec fn gpu_switched(ui: UiView, index: usize) -> UiView {
    if index < ui.gpu_count {
        UiView { current_gpu: index, selected_process: None, ..ui }
    } else {
        ui
    }
}

/// The details of the selected process are shown, where one is selected.
pub open spec fn details_shown(ui: UiView) -> UiView {
    if ui.selected_process is Some && ui.processes.len() > 0 {
        UiView { show_process_details: true, ..ui }
    } else {
        ui
    }
}

/// The table sorted by a column: choosing the column it is sorted by turns
/// the direction round, choosing another sorts downwards by that one.
pub open spec fn sorted_by_column(ui: UiView, column: SortColumn) -> UiView {
    let ascending = if ui.sort_column == column {
        !ui.sort_ascending
    } else {
        false
    };
    UiView {
        sort_column: column,
        sort_ascending: ascending,
        processes: sorted_by(ui.processes, column, ascending),
        ..ui
    }
}

/// What a command of the palette does.
pub open spec fn command_executed(ui: UiView, input: Seq<char>) -> UiView {
    let command = lowercase(trimmed(input));
    if command == "quit"@ || command == "q"@ {
        UiView { should_quit: true, ..ui }
    } else if command == "sort pid"@ {
        sorted_by_column(ui, SortColumn::Pid)
    } else if command == "sort user"@ {
        sorted_by_column(ui, SortColumn::User)
    } else if command == "sort gpu"@ {
        sorted_by_column(ui, SortColumn::GpuUsage)
    } else if command == "sort memory"@ {
        sorted_by_column(ui, SortColumn::MemoryUsage)
    } else if command == "sort command"@ {
        sorted_by_column(ui, SortColumn::Command)
    } else if command == "tree"@ {
        UiView { tree_view: !ui.tree_view, ..ui }
    } else if command == "collapse"@ {
        UiView { panes_collapsed: !ui.panes_collapsed, ..ui }
    } else if command == "help"@ {
        UiView { show_help: !ui.show_help, ..ui }
    } else {
        ui
    }
}

/// What a key does while the command palette is open.
pub open spec fn palette_key(ui: UiView, key: Key) -> UiView {
    match key {
        Key::Esc => UiView {
            show_command_palette: false,
            command_palette_input: Seq::empty(),
            ..ui
        },
        Key::Enter => UiView {
            show_command_palette: false,
            command_palette_input: Seq::empty(),
            ..command_executed(ui, ui.command_palette_input)
        },
        Key::Backspace => UiView {
            command_palette_input: if ui.command_palette_input.len() > 0 {
                ui.command_palette_input.drop_last()
            } else {
                ui.command_palette_input
            },
            ..ui
        },
        Key::Char(c) => UiView { command_palette_input: ui.command_palette_input.push(c), ..ui },
        _ => ui,
    }
}

/// What a key does while the help is shown.
pub open spec fn help_key(ui: UiView, key: Key) -> UiView {
    if key == Key::Char('h') || key == Key::Esc {
        UiView { show_help: false, ..ui }
    } else {
        ui
    }
}

/// What a key does while the details of a process are shown.
pub open spec fn details_key(ui: UiView, key: Key) -> UiView {
    if key == Key::Esc || key == Key::Enter {
        UiView { show_process_details: false, ..ui }
    } else {
        ui
    }
}

/// What a key does while the settings are shown.
pub open spec fn settings_key(ui: UiView, key: Key) -> (UiView, Action) {
    if key == Key::Esc {
        (UiView { show_settings: false, ..ui }, Action::Nothing)
    } else if key == Key::Char('r') {
        (ui, Action::ResetSettings)
    } else if key == Key::Char('s') {
        (ui, Action::SaveSettings)
    } else {
        (ui, Action::Nothing)
    }
}

/// The action that ends the selected process, where a process is selected.
pub open spec fn kill_action(ui: UiView) -> Action {
    match ui.selected_process {
        Some(i) => if i < ui.processes.len() {
            Action::KillProcess { index: i, pid: ui.processes[i as int].pid }
        } else {
            Action::Nothing
        },
        None => Action::Nothing,
    }
}

/// What a key does on the main screen.
pub open spec fn main_key(ui: UiView, press: KeyPress) -> (UiView, Action) {
    match press.key {
        Key::Up => (selection_up(ui), Action::Nothing),
        Key::Down => (selection_down(ui), Action::Nothing),
        Key::PageUp => (selection_up_by(ui, 10), Action::Nothing),
        Key::PageDown => (selection_down_by(ui, 10), Action::Nothing),
        Key::Home => (selection_first(ui), Action::Nothing),
        Key::End => (selection_last(ui), Action::Nothing),
        Key::F(n) => if 1 <= n <= 4 {
            (gpu_switched(ui, (n - 1) as usize), Action::Nothing)
        } else {
            (ui, Action::Nothing)
        },
        Key::Tab => (UiView { view_mode: ui.view_mode.spec_next(), ..ui }, Action::Nothing),
        Key::BackTab => (
            UiView { view_mode: ui.view_mode.spec_previous(), ..ui },
            Action::Nothing,
        ),
        Key::Enter => (details_shown(ui), Action::Nothing),
        Key::Delete => (ui, kill_action(ui)),
        Key::Char(c) => char_key(ui, c, press.alt, press.control),
        _ => (ui, Action::Nothing),
    }
}

/// What a character key does on the main screen.
pub open spec fn char_key(ui: UiView, c: char, alt: bool, control: bool) -> (UiView, Action) {
    if c == 'k' {
        if alt {
            (ui, kill_action(ui))
        } else {
            (selection_up(ui), Action::Nothing)
        }
    } else if c == 'j' {
        (selection_down(ui), Action::Nothing)
    } else if c == 't' {
        (UiView { tree_view: !ui.tree_view, ..ui }, Action::Nothing)
    } else if c == 'c' {
        (UiView { panes_collapsed: !ui.panes_collapsed, ..ui }, Action::Nothing)
    } else if c == 'h' {
        (UiView { show_help: !ui.show_help, ..ui }, Action::Nothing)
    } else if c == 's' {
        if alt {
            (UiView { show_settings: !ui.show_settings, ..ui }, Action::Nothing)
        } else if control {
            (ui, Action::ExportProcesses)
        } else {
            (ui, Action::Nothing)
        }
    } else if c == 'p' {
        if control {
            (
                UiView { show_command_palette: true, command_palette_input: Seq::empty(), ..ui },
                Action::Nothing,
            )
        } else {
            (ui, Action::Nothing)
        }
    } else if c == '1' {
        (sorted_by_column(ui, SortColumn::Pid), Action::Nothing)
    } else if c == '2' {
        (sorted_by_column(ui, SortColumn::User), Action::Nothing)
    } else if c == '3' {
        (sorted_by_column(ui, SortColumn::GpuUsage), Action::Nothing)
    } else if c == '4' {
        (sorted_by_column(ui, SortColumn::MemoryUsage), Action::Nothing)
    } else if c == '5' {
        (sorted_by_column(ui, SortColumn::Command), Action::Nothing)
    } else if c == 'e' {
        if control {
            if ui.current_gpu < ui.gpu_count {
                (
                    UiView { status_message: Some(starting_export_message()), ..ui },
                    Action::ExportSnapshot,
                )
            } else {
                (UiView { status_message: Some(no_gpu_message()), ..ui }, Action::Nothing)
            }
        } else {
            (ui, Action::Nothing)
        }
    } else {
        (ui, Action::Nothing)
    }
}

/// What a key does: an open palette takes it first, then the help, the
/// details of a process, the settings, and last the main screen.
pub open spec fn after_key(ui: UiView, press: KeyPress) -> (UiView, Action) {
    if ui.show_command_palette {
        (palette_key(ui, press.key), Action::Nothing)
    } else if ui.show_help {
        (help_key(ui, press.key), Action::Nothing)
    } else if ui.show_process_details {
        (details_key(ui, press.key), Action::Nothing)
    } else if ui.show_settings {
        settings_key(ui, press.key)
    } else {
        main_key(ui, press)
    }
}

/// Whether a message that has been shown for `shown` nanoseconds has had
/// its time, which is `duration` nanoseconds. A message that is not shown
/// cannot expire.
pub open spec fn message_expired(shown: Option<u128>, duration: u128) -> bool {
    match shown {
        Some(gone) => gone >= duration,
        None => false,
    }
}

/// Whether `after` is the session that `before` becomes when a message that
/// has been shown for `shown` nanoseconds is looked after: a message that
/// has had its time is taken away, with the instant from which it was
/// shown, and else nothing changes.
pub open spec fn message_looked_after(before: App, shown: Option<u128>, after: App) -> bool {
    &&& shown is Some <==> before.status_message_time is Some
    &&& after.ui() == if message_expired(shown, before.status_message_duration) {
        UiView { status_message: None, ..before.ui() }
    } else {
        before.ui()
    }
    &&& after.status_message_time == if message_expired(
        shown,
        before.status_message_duration,
    ) {
        None
    } else {
        before.status_message_time
    }
}

/// Whether two sessions agree in all that no key changes.
pub open spec fn same_background(a: App, b: App) -> bool {
    &&& a.filter_text == b.filter_text
    &&& a.update_interval == b.update_interval
    &&& a.debug_mode == b.debug_mode
    &&& a.health_monitor == b.health_monitor
    &&& a.notification_queue == b.notification_queue
    &&& a.settings_manager == b.settings_manager
    &&& a.gpus == b.gpus
    &&& a.history == b.history
    &&& a.health_metrics == b.health_metrics
    &&& a.scroll_offset == b.scroll_offset
    &&& a.status_message_duration == b.status_message_duration
}

/// The point that a device adds to the history at `timestamp`.
pub open spec fn history_point(gpu: GpuInfoView, timestamp: i64) -> HistoryPoint {
    HistoryPoint {
        timestamp,
        utilization: gpu.utilization,
        memory_usage: memory_share_of(gpu.memory_used, gpu.memory_total),
        temperature: gpu.temperature,
    }
}

/// What a device hands to the health monitor.
pub open spec fn reading_of(gpu: GpuInfoView) -> Reading {
    Reading {
        temperature: gpu.temperature,
        power_draw: gpu.power_draw,
        memory_used: gpu.memory_used,
        memory_total: gpu.memory_total,
        gpu_utilization: gpu.utilization,
        gpu_clock: gpu.gpu_clock,
        memory_clock: gpu.memory_clock,
        is_throttling: gpu.throttled,
    }
}

/// The selection after the table has been read anew: a selection beyond
/// the end moves to the last row.
pub open spec fn selection_kept(selected: Option<usize>, rows: nat) -> Option<usize> {
    let at = match selected {
        Some(i) => i,
        None => 0usize,
    };
    if at >= rows && rows > 0 {
        Some((rows - 1) as usize)
    } else {
        selected
    }
}

impl AppError {
    /// The words for the error.
    pub fn message(&self) -> (text: String)
        ensures
            text@ == match *self {
                AppError::GpuNotFound { index, available } => gpu_not_found_message(
                    index,
                    available,
                ),
            },
    {
        match self {
            AppError::GpuNotFound { index, available } => {
                let mut text = String::from_str("GPU index ");
                push_decimal(&mut text, *index as u128);
                text.append(" not found. Available GPUs: ");
                push_decimal(&mut text, *available as u128);
                text
            },
        }
    }
}

impl App {
    /// What the keys act on.
    pub open spec fn ui(&self) -> UiView {
        UiView {
            should_quit: self.should_quit,
            current_gpu: self.current_gpu,
            gpu_count: self.gpus@.len(),
            view_mode: self.view_mode,
            sort_column: self.sort_column,
            sort_ascending: self.sort_ascending,
            selected_process: self.selected_process,
            show_command_palette: self.show_command_palette,
            show_help: self.show_help,
            show_process_details: self.show_process_details,
            show_settings: self.show_settings,
            panes_collapsed: self.panes_collapsed,
            tree_view: self.tree_view,
            command_palette_input: self.command_palette_input@,
            processes: process_views(self.processes@),
            status_message: match self.status_message {
                Some(m) => Some(m@),
                None => None,
            },
        }
    }

    /// A session on the devices found. The device shown is the one asked
    /// for, or the first; a device that is not among those found is an
    /// error.
    pub fn new(
        update_interval: u64,
        selected_gpu: Option<usize>,
        debug: bool,
        gpus: Vec<GpuInfo>,
        settings_manager: SettingsManager,
    ) -> (app: Result<App, AppError>)
        ensures
            ({
                let index = match selected_gpu {
                    Some(i) => i,
                    None => 0usize,
                };
                match app {
                    Ok(app) => {
                        &&& index < gpus@.len()
                        &&& app.ui() == (UiView {
                            should_quit: false,
                            current_gpu: index,
                            gpu_count: gpus@.len(),
                            view_mode: ViewMode::Processes,
                            sort_column: SortColumn::GpuUsage,
                            sort_ascending: false,
                            selected_process: None,
                            show_command_palette: false,
                            show_help: false,
                            show_process_details: false,
                            show_settings: false,
                            panes_collapsed: false,
                            tree_view: false,
                            command_palette_input: Seq::empty(),
                            processes: Seq::empty(),
                            status_message: None,
                        })
                        &&& app.gpus == gpus
                        &&& app.settings_manager == settings_manager
                        &&& app.update_interval == update_interval
                        &&& app.debug_mode == debug
                        &&& app.filter_text@ == Seq::<char>::empty()
                        &&& app.history@ == Seq::<HistoryPoint>::empty()
                        &&& app.health_metrics is None
                        &&& app.status_message_time is None
                        &&& app.status_message_duration == STATUS_MESSAGE_NANOS
                        &&& app.scroll_offset == 0
                    },
                    Err(error) => {
                        &&& index >= gpus@.len()
                        &&& error == (AppError::GpuNotFound { index, available: gpus@.len() as usize })
                    },
                }
            }),
    {
        let current_gpu = match selected_gpu {
            Some(i) => i,
            None => 0,
        };
        if current_gpu >= gpus.len() {
            return Err(AppError::GpuNotFound { index: current_gpu, available: gpus.len() });
        }
        let app = App {
            should_quit: false,
            current_gpu,
            view_mode: ViewMode::Processes,
            sort_column: SortColumn::GpuUsage,
            sort_ascending: false,
            selected_process: None,
            filter_text: String::new(),
            show_command_palette: false,
            show_help: false,
            show_process_details: false,
            show_settings: false,
            update_interval,
            debug_mode: debug,
            health_monitor: HealthMonitor::new(),
            notification_manager: NotificationManager::new(),
            notification_queue: NotificationQueue::new(),
            settings_manager,
            gpus,
            processes: Vec::new(),
            history: RollingWindow::new(HISTORY_CAPACITY),
            health_metrics: None,
            panes_collapsed: false,
            tree_view: false,
            scroll_offset: 0,
            command_palette_input: String::new(),
            status_message: None,
            status_message_time: None,
            status_message_duration: STATUS_MESSAGE_NANOS,
        };
        assert(app.ui().processes =~= Seq::<GpuProcessView>::empty());
        Ok(app)
    }

    /// Moves the selection one row up.
    pub fn select_previous(&mut self)
        ensures
            final(self).ui() == selection_up(old(self).ui()),
            same_background(*final(self), *old(self)),
            final(self).processes == old(self).processes,
            final(self).status_message_time == old(self).status_message_time,
    {
        if self.processes.len() == 0 {
            return ;
        }
        self.selected_process = match self.selected_process {
            Some(i) => if i > 0 {
                Some(i - 1)
            } else {
                Some(self.processes.len() - 1)
            },
            None => Some(self.processes.len() - 1),
        };
    }

    /// Moves the selection one row down.
    pub fn select_next(&mut self)
        ensures
            final(self).ui() == selection_down(old(self).ui()),
            same_background(*final(self), *old(self)),
            final(self).processes == old(self).processes,
            final(self).status_message_time == old(self).status_message_time,
    {
        if self.processes.len() == 0 {
            return ;
        }
        self.selected_process = match self.selected_process {
            Some(i) => if i < self.processes.len() - 1 {
                Some(i + 1)
            } else {
                Some(0)
            },
            None => Some(0),
        };
    }

    /// Moves the selection ten rows up.
    pub fn page_up(&mut self)
        ensures
            final(self).ui() == selection_up_by(old(self).ui(), 10),
            same_background(*final(self), *old(self)),
            final(self).processes == old(self).processes,
            final(self).status_message_time == old(self).status_message_time,
    {
        let mut i: usize = 0;
        while i < 10
            invariant
                i <= 10,
                self.ui() == selection_up_by(old(self).ui(), i as nat),
                same_background(*self, *old(self)),
                self.processes == old(self).processes,
                self.status_message_time == old(self).status_message_time,
            decreases 10 - i,
        {
            self.select_previous();
            i += 1;
        }
    }

    /// Moves the selection ten rows down.
    pub fn page_down(&mut self)
        ensures
            final(self).ui() == selection_down_by(old(self).ui(), 10),
            same_background(*final(self), *old(self)),
            final(self).processes == old(self).processes,
            final(self).status_message_time == old(self).status_message_time,
    {
        let mut i: usize = 0;
        while i < 10
            invariant
                i <= 10,
                self.ui() == selection_down_by(old(self).ui(), i as nat),
                same_background(*self, *old(self)),
                self.processes == old(self).processes,
                self.status_message_time == old(self).status_message_time,
            decreases 10 - i,
        {
            self.select_next();
            i += 1;
        }
    }

    /// Selects the first row.
    pub fn select_first(&mut self)
        ensures
            final(self).ui() == selection_first(old(self).ui()),
            same_background(*final(self), *old(self)),
            final(self).processes == old(self).processes,
            final(self).status_message_time == old(self).status_message_time,
    {
        if self.processes.len() > 0 {
            self.selected_process = Some(0);
        }
    }

    /// Selects the last row.
    pub fn select_last(&mut self)
        ensures
            final(self).ui() == selection_last(old(self).ui()),
            same_background(*final(self), *old(self)),
            final(self).processes == old(self).processes,
            final(self).status_message_time == old(self).status_message_time,
    {
        if self.processes.len() > 0 {
            self.selected_process = Some(self.processes.len() - 1);
        }
    }

    /// Shows another device, where there is one of that number.
    pub fn switch_gpu(&mut self, gpu_idx: usize)
        ensures
            final(self).ui() == gpu_switched(old(self).ui(), gpu_idx),
            same_background(*final(self), *old(self)),
            final(self).processes == old(self).processes,
            final(self).status_message_time == old(self).status_message_time,
    {
        if gpu_idx < self.gpus.len() {
            self.current_gpu = gpu_idx;
            self.selected_process = None;
        }
    }

    /// Goes to the next page.
    pub fn next_view_mode(&mut self)
        ensures
            final(self).ui() == (UiView {
                view_mode: old(self).view_mode.spec_next(),
                ..old(self).ui()
            }),
            same_background(*final(self), *old(self)),
            final(self).processes == old(self).processes,
            final(self).status_message_time == old(self).status_message_time,
    {
        self.view_mode = self.view_mode.next();
    }

    /// Goes to the page before.
    pub fn prev_view_mode(&mut self)
        ensures
            final(self).ui() == (UiView {
                view_mode: old(self).view_mode.spec_previous(),
                ..old(self).ui()
            }),
            same_background(*final(self), *old(self)),
            final(self).processes == old(self).processes,
            final(self).status_message_time == old(self).status_message_time,
    {
        self.view_mode = self.view_mode.previous();
    }

    /// Shows the details of the selected process, where one is selected.
    pub fn show_process_details(&mut self)
        ensures
            final(self).ui() == details_shown(old(self).ui()),
            same_background(*final(self), *old(self)),
            final(self).processes == old(self).processes,
            final(self).status_message_time == old(self).status_message_time,
    {
        if self.selected_process.is_some() && self.processes.len() > 0 {
            self.show_process_details = true;
        }
    }

    /// Sorts the table by a column: the column it is sorted by in the
    /// other direction, another column downwards.
    pub fn set_sort_column(&mut self, column: SortColumn)
        ensures
            final(self).ui() == sorted_by_column(old(self).ui(), column),
            same_background(*final(self), *old(self)),
            final(self).status_message_time == old(self).status_message_time,
    {
        if self.sort_column == column {
            self.sort_ascending = !self.sort_ascending;
        } else {
            self.sort_column = column;
            self.sort_ascending = false;
        }
        self.sort_processes();
    }

    /// Sorts the table by the column and in the direction chosen.
    pub fn sort_processes(&mut self)
        ensures
            final(self).ui() == (UiView {
                processes: sorted_by(
                    old(self).ui().processes,
                    old(self).sort_column,
                    old(self).sort_ascending,
                ),
                ..old(self).ui()
            }),
            same_background(*final(self), *old(self)),
            final(self).status_message_time == old(self).status_message_time,
    {
        sort_processes(&mut self.processes, self.sort_column, self.sort_ascending);
    }

    /// Carries out the command typed into the palette.
    pub fn execute_command(&mut self)
        ensures
            final(self).ui() == command_executed(old(self).ui(), old(self).command_palette_input@),
            same_background(*final(self), *old(self)),
            final(self).status_message_time == old(self).status_message_time,
    {
        let command = to_lowercase(trim(self.command_palette_input.as_str()));
        if command == String::from_str("quit") || command == String::from_str("q") {
            self.should_quit = true;
        } else if command == String::from_str("sort pid") {
            self.set_sort_column(SortColumn::Pid);
        } else if command == String::from_str("sort user") {
            self.set_sort_column(SortColumn::User);
        } else if command == String::from_str("sort gpu") {
            self.set_sort_column(SortColumn::GpuUsage);
        } else if command == String::from_str("sort memory") {
            self.set_sort_column(SortColumn::MemoryUsage);
        } else if command == String::from_str("sort command") {
            self.set_sort_column(SortColumn::Command);
        } else if command == String::from_str("tree") {
            self.tree_view = !self.tree_view;
        } else if command == String::from_str("collapse") {
            self.panes_collapsed = !self.panes_collapsed;
        } else if command == String::from_str("help") {
            self.show_help = !self.show_help;
        }
    }

    /// Takes a key while the command palette is open.
    pub fn handle_command_palette_key(&mut self, key: Key)
        ensures
            final(self).ui() == palette_key(old(self).ui(), key),
            same_background(*final(self), *old(self)),
            final(self).status_message_time == old(self).status_message_time,
    {
        match key {
            Key::Esc => {
                self.show_command_palette = false;
                self.command_palette_input.clear();
            },
            Key::Enter => {
                self.execute_command();
                self.show_command_palette = false;
                self.command_palette_input.clear();
            },
            Key::Backspace => {
                let _ = self.command_palette_input.pop();
            },
            Key::Char(c) => {
                self.command_palette_input.push(c);
            },
            _ => {},
        }
    }

    /// Takes a key while the help is shown.
    pub fn handle_help_key(&mut self, key: Key)
        ensures
            final(self).ui() == help_key(old(self).ui(), key),
            same_background(*final(self), *old(self)),
            final(self).processes == old(self).processes,
            final(self).status_message_time == old(self).status_message_time,
    {
        match key {
            Key::Char(c) => {
                if c == 'h' {
                    self.show_help = false;
                }
            },
            Key::Esc => {
                self.show_help = false;
            },
            _ => {},
        }
    }

    /// Takes a key while the details of a process are shown.
    pub fn handle_process_details_key(&mut self, key: Key)
        ensures
            final(self).ui() == details_key(old(self).ui(), key),
            same_background(*final(self), *old(self)),
            final(self).processes == old(self).processes,
            final(self).status_message_time == old(self).status_message_time,
    {
        match key {
            Key::Esc | Key::Enter => {
                self.show_process_details = false;
            },
            _ => {},
        }
    }

    /// Takes a key while the settings are shown. Saving and resetting the
    /// settings is handed back to the caller.
    pub fn handle_settings_key(&mut self, key: Key) -> (action: Action)
        ensures
            (final(self).ui(), action) == settings_key(old(self).ui(), key),
            same_background(*final(self), *old(self)),
            final(self).processes == old(self).processes,
            final(self).status_message_time == old(self).status_message_time,
    {
        match key {
            Key::Esc => {
                self.show_settings = false;
                Action::Nothing
            },
            Key::Char(c) => {
                if c == 'r' {
                    Action::ResetSettings
                } else if c == 's' {
                    Action::SaveSettings
                } else {
                    Action::Nothing
                }
            },
            _ => Action::Nothing,
        }
    }

    /// The action that ends the selected process, where one is selected.
    pub fn kill_selected_process(&self) -> (action: Action)
        ensures
            action == kill_action(self.ui()),
    {
        match self.selected_process {
            Some(i) => {
                if i < self.processes.len() {
                    Action::KillProcess { index: i, pid: self.processes[i].pid }
                } else {
                    Action::Nothing
                }
            },
            None => Action::Nothing,
        }
    }

    /// Takes a key and says what the caller is to do. An open palette takes
    /// the key first, then the help, the details of a process, the
    /// settings, and last the main screen.
    pub fn handle_key(&mut self, press: KeyPress) -> (action: Action)
        ensures
            (final(self).ui(), action) == after_key(old(self).ui(), press),
            same_background(*final(self), *old(self)),
    {
        if self.show_command_palette {
            self.handle_command_palette_key(press.key);
            return Action::Nothing;
        }
        if self.show_help {
            self.handle_help_key(press.key);
            return Action::Nothing;
        }
        if self.show_process_details {
            self.handle_process_details_key(press.key);
            return Action::Nothing;
        }
        if self.show_settings {
            return self.handle_settings_key(press.key);
        }
        match press.key {
            Key::Up => {
                self.select_previous();
                Action::Nothing
            },
            Key::Down => {
                self.select_next();
                Action::Nothing
            },
            Key::PageUp => {
                self.page_up();
                Action::Nothing
            },
            Key::PageDown => {
                self.page_down();
                Action::Nothing
            },
            Key::Home => {
                self.select_first();
                Action::Nothing
            },
            Key::End => {
                self.select_last();
                Action::Nothing
            },
            Key::F(n) => {
                if 1 <= n && n <= 4 {
                    self.switch_gpu((n - 1) as usize);
                }
                Action::Nothing
            },
            Key::Tab => {
                self.next_view_mode();
                Action::Nothing
            },
            Key::BackTab => {
                self.prev_view_mode();
                Action::Nothing
            },
            Key::Enter => {
                self.show_process_details();
                Action::Nothing
            },
            Key::Delete => self.kill_selected_process(),
            Key::Char(c) => self.handle_char_key(c, press.alt, press.control),
            _ => Action::Nothing,
        }
    }

    fn handle_char_key(&mut self, c: char, alt: bool, control: bool) -> (action: Action)
        ensures
            (final(self).ui(), action) == char_key(old(self).ui(), c, alt, control),
            same_background(*final(self), *old(self)),
    {
        if c == 'k' || c == 'j' {
            self.handle_move_key(c, alt)
        } else if c == 't' || c == 'c' || c == 'h' || c == 's' || c == 'p' {
            self.handle_toggle_key(c, alt, control)
        } else if c == '1' || c == '2' || c == '3' || c == '4' || c == '5' {
            self.handle_sort_key(c);
            Action::Nothing
        } else if c == 'e' {
            self.handle_export_key(control)
        } else {
            Action::Nothing
        }
    }

    fn handle_move_key(&mut self, c: char, alt: bool) -> (action: Action)
        requires
            c == 'k' || c == 'j',
        ensures
            forall|control: bool|
                (final(self).ui(), action) == #[trigger] char_key(old(self).ui(), c, alt, control),
            same_background(*final(self), *old(self)),
    {
        if c == 'k' {
            if alt {
                return self.kill_selected_process();
            }
            self.select_previous();
        } else {
            self.select_next();
        }
        Action::Nothing
    }

    fn handle_toggle_key(&mut self, c: char, alt: bool, control: bool) -> (action: Action)
        requires
            c == 't' || c == 'c' || c == 'h' || c == 's' || c == 'p',
        ensures
            (final(self).ui(), action) == char_key(old(self).ui(), c, alt, control),
            same_background(*final(self), *old(self)),
    {
        if c == 't' {
            self.tree_view = !self.tree_view;
        } else if c == 'c' {
            self.panes_collapsed = !self.panes_collapsed;
        } else if c == 'h' {
            self.show_help = !self.show_help;
        } else if c == 's' {
            if alt {
                self.show_settings = !self.show_settings;
            } else if control {
                return Action::ExportProcesses;
            }
        } else {
            if control {
                self.show_command_palette = true;
                self.command_palette_input.clear();
            }
        }
        Action::Nothing
    }

    fn handle_sort_key(&mut self, c: char)
        requires
            c == '1' || c == '2' || c == '3' || c == '4' || c == '5',
        ensures
            forall|alt: bool, control: bool|
                (final(self).ui(), Action::Nothing) == #[trigger] char_key(
                    old(self).ui(),
                    c,
                    alt,
                    control,
                ),
            same_background(*final(self), *old(self)),
    {
        let column = if c == '1' {
            SortColumn::Pid
        } else if c == '2' {
            SortColumn::User
        } else if c == '3' {
            SortColumn::GpuUsage
        } else if c == '4' {
            SortColumn::MemoryUsage
        } else {
            SortColumn::Command
        };
        self.set_sort_column(column);
    }

    fn handle_export_key(&mut self, control: bool) -> (action: Action)
        ensures
            forall|alt: bool|
                (final(self).ui(), action) == #[trigger] char_key(old(self).ui(), 'e', alt, control),
            same_background(*final(self), *old(self)),
    {
        if control {
            if self.current_gpu < self.gpus.len() {
                self.show_status_message(String::from_str("ðŸ”„ Starting export..."));
                return Action::ExportSnapshot;
            } else {
                self.show_status_message(String::from_str("âŒ No GPU selected for export"));
            }
        }
        Action::Nothing
    }

    /// Shows a message to the user, from now on.
    pub fn show_status_message(&mut self, message: String)
        ensures
            final(self).ui() == (UiView { status_message: Some(message@), ..old(self).ui() }),
            same_background(*final(self), *old(self)),
            final(self).processes == old(self).processes,
            final(self).status_message_time is Some,
    {
        self.status_message = Some(message);
        self.status_message_time = Some(Instant::now());
    }

    /// Takes the message away once it has been shown for its time, by the
    /// monotonic clock. Whatever the clock shows, the session becomes what
    /// `expire_status_message` makes of it for some time shown; so a message
    /// whose time is nothing is always taken away, and a session without a
    /// message is left as it is.
    pub fn update_status_message(&mut self)
        ensures
            exists|shown: Option<u128>| message_looked_after(*old(self), shown, *final(self)),
            final(self).ui() == old(self).ui() || final(self).ui() == (UiView {
                status_message: None,
                ..old(self).ui()
            }),
            old(self).status_message_time is None ==> final(self).ui() == old(self).ui()
                && final(self).status_message_time is None,
            old(self).status_message_time is Some && old(self).status_message_duration == 0
                ==> final(self).ui() == (UiView { status_message: None, ..old(self).ui() })
                && final(self).status_message_time is None,
            same_background(*final(self), *old(self)),
            final(self).processes == old(self).processes,
    {
        let gone = match &self.status_message_time {
            Some(time) => Some(time.elapsed().as_nanos()),
            None => None,
        };
        self.expire_status_message(gone);
        assert(message_looked_after(*old(self), gone, *self));
    }

    /// Looks after a message that has been shown for `shown` nanoseconds,
    /// or after none: a message that has had its time is taken away, with
    /// the instant from which it was shown, and else nothing changes.
    pub fn expire_status_message(&mut self, shown: Option<u128>)
        ensures
            final(self).ui() == if message_expired(shown, old(self).status_message_duration) {
                UiView { status_message: None, ..old(self).ui() }
            } else {
                old(self).ui()
            },
            final(self).status_message_time == if message_expired(
                shown,
                old(self).status_message_duration,
            ) {
                None
            } else {
                old(self).status_message_time
            },
            same_background(*final(self), *old(self)),
            final(self).processes == old(self).processes,
    {
        if Self::status_message_expired(shown, self.status_message_duration) {
            self.clear_status_message();
        }
    }

    /// Whether a message that has been shown for `shown` nanoseconds has
    /// had its time, which is `duration` nanoseconds. A message that is not
    /// shown cannot expire.
    pub fn status_message_expired(shown: Option<u128>, duration: u128) -> (expired: bool)
        ensures
            expired == message_expired(shown, duration),
    {
        match shown {
            Some(gone) => gone >= duration,
            None => false,
        }
    }

    /// Takes the message away.
    pub fn clear_status_message(&mut self)
        ensures
            final(self).ui() == (UiView { status_message: None, ..old(self).ui() }),
            same_background(*final(self), *old(self)),
            final(self).processes == old(self).processes,
            final(self).status_message_time is None,
    {
        self.status_message = None;
        self.status_message_time = None;
    }

    /// Tells the user how the export of the snapshot went: `error` is what
    /// went wrong, if anything did.
    pub fn export_current_data(&mut self, filename: &str, error: Option<&str>)
        ensures
            final(self).ui() == (UiView {
                status_message: Some(
                    match error {
                        None => export_successful_message(filename@),
                        Some(e) => export_failed_message(e@),
                    },
                ),
                ..old(self).ui()
            }),
            same_background(*final(self), *old(self)),
            final(self).processes == old(self).processes,
    {
        let message = match error {
            None => {
                let mut m = String::from_str("âœ… Export successful: ");
                m.append(filename);
                m
            },
            Some(e) => {
                let mut m = String::from_str("âŒ Export failed: ");
                m.append(e);
                m
            },
        };
        self.show_status_message(message);
    }

    /// Tells the user how the export of the process table went: `error` is
    /// what went wrong, if anything did.
    pub fn export_processes_csv(&mut self, filename: &str, error: Option<&str>)
        ensures
            final(self).ui() == (UiView {
                status_message: Some(
                    match error {
                        None => process_export_successful_message(filename@),
                        Some(e) => process_export_failed_message(e@),
                    },
                ),
                ..old(self).ui()
            }),
            same_background(*final(self), *old(self)),
            final(self).processes == old(self).processes,
    {
        let message = match error {
            None => {
                let mut m = String::from_str("âœ… Process export successful: ");
                m.append(filename);
                m
            },
            Some(e) => {
                let mut m = String::from_str("âŒ Process export failed: ");
                m.append(e);
                m
            },
        };
        self.show_status_message(message);
    }

    /// Takes in the devices and the process table read at a tick: the
    /// table is listed and sorted anew.
    fn refresh(&mut self, gpus: Vec<GpuInfo>, entries: &Vec<ProcessEntry>)
        ensures
            final(self).ui() == (UiView {
                gpu_count: gpus@.len(),
                processes: sorted_by(
                    gpu_processes(entry_views(entries@)),
                    old(self).sort_column,
                    old(self).sort_ascending,
                ),
                ..old(self).ui()
            }),
            final(self).gpus == gpus,
            final(self).filter_text == old(self).filter_text,
            final(self).update_interval == old(self).update_interval,
            final(self).debug_mode == old(self).debug_mode,
            final(self).health_monitor == old(self).health_monitor,
            final(self).notification_queue == old(self).notification_queue,
            final(self).settings_manager == old(self).settings_manager,
            final(self).history == old(self).history,
            final(self).health_metrics == old(self).health_metrics,
            final(self).scroll_offset == old(self).scroll_offset,
            final(self).status_message_duration == old(self).status_message_duration,
            final(self).status_message_time == old(self).status_message_time,
    {
        self.gpus = gpus;
        self.processes = ProcessManager::get_gpu_processes(entries);
        sort_processes(&mut self.processes, self.sort_column, self.sort_ascending);
    }

    fn point_of(gpu: &GpuInfo, timestamp: i64) -> (point: HistoryPoint)
        ensures
            point == history_point(gpu@, timestamp),
    {
        HistoryPoint {
            timestamp,
            utilization: gpu.utilization,
            memory_usage: memory_share(gpu.memory_used, gpu.memory_total),
            temperature: gpu.temperature,
        }
    }

    fn reading(gpu: &GpuInfo) -> (reading: Reading)
        ensures
            reading == reading_of(gpu@),
    {
        Reading {
            temperature: gpu.temperature,
            power_draw: gpu.power_draw,
            memory_used: gpu.memory_used,
            memory_total: gpu.memory_total,
            gpu_utilization: gpu.utilization,
            gpu_clock: gpu.gpu_clock,
            memory_clock: gpu.memory_clock,
            is_throttling: gpu.throttled,
        }
    }

    /// Takes in the devices and the process table read when the clock
    /// showed `now`, on a day that began at `day_start`: the table is listed
    /// and sorted anew, and the device shown, where there is one, adds a
    /// point to the history and a sample to the health monitor.
    pub fn update_at(
        &mut self,
        gpus: Vec<GpuInfo>,
        entries: &Vec<ProcessEntry>,
        now: i64,
        day_start: i64,
    )
        ensures
            final(self).ui() == (UiView {
                gpu_count: gpus@.len(),
                processes: sorted_by(
                    gpu_processes(entry_views(entries@)),
                    old(self).sort_column,
                    old(self).sort_ascending,
                ),
                ..old(self).ui()
            }),
            final(self).gpus == gpus,
            final(self).status_message_time == old(self).status_message_time,
            final(self).settings_manager == old(self).settings_manager,
            old(self).current_gpu < gpus@.len() ==> {
                let gpu = gpus@[old(self).current_gpu as int]@;
                &&& final(self).history@ == appended(
                    old(self).history@,
                    old(self).history.spec_capacity(),
                    history_point(gpu, now),
                )
                &&& final(self).health_monitor@ == crate::monitor::state_after(
                    old(self).health_monitor@,
                    now,
                    day_start,
                    reading_of(gpu),
                )
                &&& final(self).health_metrics matches Some(report) && report@
                    == crate::monitor::report_after(
                    old(self).health_monitor@,
                    now,
                    day_start,
                    reading_of(gpu),
                )
            },
            old(self).current_gpu >= gpus@.len() ==> {
                &&& final(self).history == old(self).history
                &&& final(self).health_monitor == old(self).health_monitor
                &&& final(self).health_metrics == old(self).health_metrics
            },
    {
        self.refresh(gpus, entries);
        if self.current_gpu < self.gpus.len() {
            let point = Self::point_of(&self.gpus[self.current_gpu], now);
            let reading = Self::reading(&self.gpus[self.current_gpu]);
            self.history.append(point);
            self.health_metrics = Some(self.health_monitor.update_metrics_at(now, day_start, reading));
        }
    }

    /// Takes in the devices and the process table read now. The wall clock
    /// gives the instant of the history point and of the sample, and a
    /// status message that has had its time is taken away.
    pub fn update(&mut self, gpus: Vec<GpuInfo>, entries: &Vec<ProcessEntry>)
        ensures
            final(self).gpus == gpus,
            final(self).ui().processes == sorted_by(
                gpu_processes(entry_views(entries@)),
                old(self).sort_column,
                old(self).sort_ascending,
            ),
            final(self).settings_manager == old(self).settings_manager,
            final(self).selected_process == old(self).selected_process,
            final(self).current_gpu == old(self).current_gpu,
            old(self).current_gpu < gpus@.len() ==> final(self).health_metrics is Some,
            old(self).current_gpu >= gpus@.len() ==> {
                &&& final(self).history == old(self).history
                &&& final(self).health_monitor == old(self).health_monitor
                &&& final(self).health_metrics == old(self).health_metrics
            },
    {
        self.refresh(gpus, entries);
        if self.current_gpu < self.gpus.len() {
            let point = Self::point_of(&self.gpus[self.current_gpu], wall_clock_millis());
            let gpu = &self.gpus[self.current_gpu];
            let report = self.health_monitor.update_metrics(
                gpu.temperature,
                gpu.power_draw,
                gpu.memory_used,
                gpu.memory_total,
                gpu.utilization,
                gpu.gpu_clock,
                gpu.memory_clock,
                gpu.throttled,
            );
            self.history.append(point);
            self.health_metrics = Some(report);
        }
        self.update_status_message();
    }

    /// Takes in the process table read after a process has been ended: the
    /// table is listed and sorted anew, and a selection beyond its end moves
    /// to its last row.
    pub fn process_killed(&mut self, entries: &Vec<ProcessEntry>)
        ensures
            final(self).ui() == ({
                let processes = sorted_by(
                    gpu_processes(entry_views(entries@)),
                    old(self).sort_column,
                    old(self).sort_ascending,
                );
                UiView {
                    processes,
                    selected_process: selection_kept(old(self).selected_process, processes.len()),
                    ..old(self).ui()
                }
            }),
            same_background(*final(self), *old(self)),
            final(self).status_message_time == old(self).status_message_time,
    {
        self.processes = ProcessManager::get_gpu_processes(entries);
        self.sort_processes();
        let at = match self.selected_process {
            Some(i) => i,
            None => 0,
        };
        if at >= self.processes.len() && self.processes.len() > 0 {
            self.selected_process = Some(self.processes.len() - 1);
        }
    }
}

} // verus!
