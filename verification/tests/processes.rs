use gputop::process::{sort_processes, GpuProcess, ProcessEntry, ProcessManager};
use gputop::state::SortColumn;

fn entry(pid: u32, name: &str, cpu_usage: u32) -> ProcessEntry {
    ProcessEntry {
        pid,
        name: String::from(name),
        exe_path: format!("/usr/bin/{}", name),
        exe_file_name: Some(String::from(name)),
        cpu_usage,
        memory_kb: 2048,
        user_name: Some(String::from("alice")),
        parent_pid: Some(1),
    }
}

fn process(pid: u32, user: &str, command: &str, gpu_usage: u32, memory_usage: u64) -> GpuProcess {
    GpuProcess {
        pid,
        user: String::from(user),
        command: String::from(command),
        gpu_usage,
        memory_usage,
        encoder_usage: 0,
        decoder_usage: 0,
        priority: 0,
        context_id: None,
        container_id: None,
        parent_pid: None,
    }
}

fn pids(processes: &[GpuProcess]) -> Vec<u32> {
    processes.iter().map(|p| p.pid).collect()
}

#[test]
fn mock_processes_are_three() {
    let mock = ProcessManager::get_mock_processes();
    assert_eq!(pids(&mock), vec![1234, 5678, 9012]);
    assert_eq!(mock[0].user, "user1");
    assert_eq!(mock[0].command, "python.exe");
    assert_eq!(mock[0].gpu_usage, 85_200);
    assert_eq!(mock[0].memory_usage, 3 * 1024 * 1024 * 1024);
    assert_eq!(mock[0].context_id, Some(1));
    assert_eq!(mock[0].parent_pid, Some(1000));
    assert_eq!(mock[1].gpu_usage, 65_800);
    assert_eq!(mock[1].memory_usage, 1536 * 1024 * 1024);
    assert_eq!(mock[1].container_id.as_deref(), Some("docker-container-123"));
    assert_eq!(mock[2].user, "root");
    assert_eq!(mock[2].gpu_usage, 25_300);
    assert_eq!(mock[2].encoder_usage, 45_000);
    assert_eq!(mock[2].priority, -10);
    assert_eq!(mock[2].parent_pid, Some(1));
}

#[test]
fn known_programs_are_listed_with_estimates() {
    let found = ProcessManager::get_real_processes(&vec![entry(10, "ffmpeg", 50_000)]);
    assert_eq!(found.len(), 1);
    let p = &found[0];
    assert_eq!(p.pid, 10);
    assert_eq!(p.user, "alice");
    assert_eq!(p.command, "ffmpeg");
    // Seven tenths of the processor share, four tenths for an encoder.
    assert_eq!(p.gpu_usage, 35_000);
    assert_eq!(p.encoder_usage, 20_000);
    assert_eq!(p.decoder_usage, 0);
    assert_eq!(p.memory_usage, 2048 * 1024);
    assert_eq!(p.priority, 0);
    assert_eq!(p.context_id, None);
    assert_eq!(p.container_id, None);
    assert_eq!(p.parent_pid, Some(1));
}

#[test]
fn browsers_get_a_decoder_share() {
    let found = ProcessManager::get_real_processes(&vec![
        entry(1, "chrome", 30_000),
        entry(2, "firefox-bin", 10_000),
    ]);
    assert_eq!(pids(&found), vec![1, 2]);
    assert_eq!(found[0].gpu_usage, 21_000);
    assert_eq!(found[0].decoder_usage, 6_000);
    assert_eq!(found[0].encoder_usage, 0);
    assert_eq!(found[1].decoder_usage, 2_000);
}

#[test]
fn names_are_compared_in_lower_case() {
    let found = ProcessManager::get_real_processes(&vec![
        entry(1, "PYTHON3", 1_000),
        entry(2, "OBS-Studio", 10_000),
    ]);
    assert_eq!(pids(&found), vec![2, 1]);
    assert_eq!(found[0].encoder_usage, 4_000);
    assert_eq!(found[0].command, "OBS-Studio");
}

#[test]
fn the_path_of_the_executable_counts_too() {
    let mut e = entry(5, "worker", 2_000);
    e.exe_path = String::from("/opt/Blender/bin/worker");
    let found = ProcessManager::get_real_processes(&vec![e]);
    assert_eq!(pids(&found), vec![5]);
    // The shares of encoder and decoder go by the name alone.
    let mut e = entry(6, "worker", 2_000);
    e.exe_path = String::from("/opt/ffmpeg/worker");
    let found = ProcessManager::get_real_processes(&vec![e]);
    assert_eq!(found[0].encoder_usage, 0);
}

#[test]
fn busy_processes_are_listed_whatever_their_name() {
    let found = ProcessManager::get_real_processes(&vec![
        entry(1, "bash", 15_000),
        entry(2, "make", 15_001),
        entry(3, "idle", 0),
    ]);
    assert_eq!(pids(&found), vec![2]);
    assert_eq!(found[0].gpu_usage, 10_500);
}

#[test]
fn shares_are_capped_at_the_whole() {
    let found = ProcessManager::get_real_processes(&vec![entry(1, "chrome", 800_000)]);
    assert_eq!(found[0].gpu_usage, 100_000);
    assert_eq!(found[0].decoder_usage, 100_000);
    let found = ProcessManager::get_real_processes(&vec![entry(1, "ffmpeg", u32::MAX)]);
    assert_eq!(found[0].gpu_usage, 100_000);
    assert_eq!(found[0].encoder_usage, 100_000);
}

#[test]
fn unknown_owner_and_missing_file_name_have_fallbacks() {
    let mut e = entry(1, "steam", 5_000);
    e.user_name = None;
    e.exe_file_name = None;
    e.parent_pid = None;
    e.memory_kb = u64::MAX;
    let found = ProcessManager::get_real_processes(&vec![e]);
    assert_eq!(found[0].user, "unknown");
    assert_eq!(found[0].command, "steam");
    assert_eq!(found[0].parent_pid, None);
    assert_eq!(found[0].memory_usage, u64::MAX);
}

#[test]
fn heaviest_users_come_first_and_fifteen_at_most() {
    let mut entries = Vec::new();
    for pid in 0..20u32 {
        entries.push(entry(pid, "game", 20_000 + 1_000 * pid));
    }
    let found = ProcessManager::get_real_processes(&entries);
    assert_eq!(found.len(), 15);
    assert_eq!(pids(&found), (5..20).rev().collect::<Vec<u32>>());
    assert!(found.windows(2).all(|w| w[0].gpu_usage >= w[1].gpu_usage));
}

#[test]
fn equal_users_keep_their_order() {
    let entries = vec![
        entry(3, "vlc", 10_000),
        entry(1, "mpv", 10_000),
        entry(2, "unity", 50_000),
        entry(4, "maya", 10_000),
    ];
    assert_eq!(pids(&ProcessManager::get_real_processes(&entries)), vec![2, 3, 1, 4]);
}

#[test]
fn mock_processes_stand_in_for_an_empty_table() {
    assert_eq!(pids(&ProcessManager::get_gpu_processes(&Vec::new())), vec![1234, 5678, 9012]);
    assert_eq!(
        pids(&ProcessManager::get_gpu_processes(&vec![entry(1, "idle", 0)])),
        vec![1234, 5678, 9012]
    );
    assert_eq!(pids(&ProcessManager::get_gpu_processes(&vec![entry(1, "vlc", 0)])), vec![1]);
}

#[test]
fn sorting_by_each_column() {
    let table = || {
        vec![
            process(3, "bob", "zsh", 10_000, 300),
            process(1, "alice", "Blender", 30_000, 100),
            process(2, "Carol", "apt", 20_000, 200),
        ]
    };
    let sorted = |column, ascending| {
        let mut t = table();
        sort_processes(&mut t, column, ascending);
        pids(&t)
    };
    assert_eq!(sorted(SortColumn::Pid, true), vec![1, 2, 3]);
    assert_eq!(sorted(SortColumn::Pid, false), vec![3, 2, 1]);
    // Capital letters stand before small ones.
    assert_eq!(sorted(SortColumn::User, true), vec![2, 1, 3]);
    assert_eq!(sorted(SortColumn::User, false), vec![3, 1, 2]);
    assert_eq!(sorted(SortColumn::GpuUsage, true), vec![3, 2, 1]);
    assert_eq!(sorted(SortColumn::GpuUsage, false), vec![1, 2, 3]);
    assert_eq!(sorted(SortColumn::MemoryUsage, true), vec![1, 2, 3]);
    assert_eq!(sorted(SortColumn::MemoryUsage, false), vec![3, 2, 1]);
    assert_eq!(sorted(SortColumn::Command, true), vec![1, 2, 3]);
    assert_eq!(sorted(SortColumn::Command, false), vec![3, 2, 1]);
}

#[test]
fn sorting_is_stable_in_both_directions() {
    let mut table = vec![
        process(1, "u", "a", 5, 0),
        process(2, "u", "a", 7, 0),
        process(3, "u", "a", 5, 0),
        process(4, "u", "a", 7, 0),
    ];
    sort_processes(&mut table, SortColumn::GpuUsage, true);
    assert_eq!(pids(&table), vec![1, 3, 2, 4]);
    sort_processes(&mut table, SortColumn::GpuUsage, false);
    assert_eq!(pids(&table), vec![2, 4, 1, 3]);
    sort_processes(&mut table, SortColumn::User, true);
    assert_eq!(pids(&table), vec![2, 4, 1, 3]);
}

#[test]
fn sorting_agrees_with_the_standard_sort() {
    let mut table = Vec::new();
    let mut seed = 12345u32;
    for pid in 0..50u32 {
        seed = seed.wrapping_mul(1_103_515_245).wrapping_add(12_345);
        let user = format!("user{}", seed % 7);
        table.push(process(pid, &user, "cmd", seed % 10, (seed % 13) as u64));
    }
    for ascending in [true, false] {
        let mut ours = table.clone();
        sort_processes(&mut ours, SortColumn::User, ascending);
        let mut theirs = table.clone();
        theirs.sort_by(|a, b| {
            let order = a.user.cmp(&b.user);
            if ascending { order } else { order.reverse() }
        });
        assert_eq!(ours, theirs);
        let mut ours = table.clone();
        sort_processes(&mut ours, SortColumn::GpuUsage, ascending);
        let mut theirs = table.clone();
        theirs.sort_by(|a, b| {
            let order = a.gpu_usage.cmp(&b.gpu_usage);
            if ascending { order } else { order.reverse() }
        });
        assert_eq!(ours, theirs);
    }
}

#[test]
fn sorting_an_empty_table() {
    let mut table: Vec<GpuProcess> = Vec::new();
    sort_processes(&mut table, SortColumn::Pid, true);
    assert!(table.is_empty());
}
