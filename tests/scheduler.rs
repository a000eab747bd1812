use std::path::PathBuf;

use fs_scan::scheduler::{budget_for, default_budget, Action, Scheduler, TASKS_PER_CPU};
use fs_scan::{build_dir_chan, build_dir_chan_done, build_file_chan, ChanResponse};

/// Runs a synthetic scan: `listing(path)` gives the subdirectories and the
/// file sizes of a directory. Tasks run one at a time, oldest first; each
/// reports all its entries, then its end. Returns the scheduler at the end,
/// the largest number of tasks seen running at once, and the number of tasks
/// dispatched.
fn run(
    root: &str,
    budget: usize,
    listing: &dyn Fn(&str) -> (Vec<String>, Vec<u64>),
) -> (Scheduler, usize, usize) {
    let mut s = Scheduler::new(root, budget);
    let mut running: Vec<PathBuf> = vec![PathBuf::from(root)];
    let mut max_running = running.len();
    let mut tasks = 1;
    loop {
        assert!(!running.is_empty());
        let task = running.remove(0);
        let (dirs, files) = listing(task.to_str().unwrap());
        let mut events: Vec<ChanResponse> = Vec::new();
        for d in dirs {
            events.push(build_dir_chan(PathBuf::from(d)));
        }
        for f in files {
            events.push(build_file_chan(f));
        }
        events.push(build_dir_chan_done());
        // the task itself still runs until its end event is consumed
        let mut live = running.len() + 1;
        for ev in events {
            let is_end = ev.t == fs_scan::ResponseType::DoneDir;
            if is_end {
                live -= 1;
            }
            match s.on_event(ev) {
                Action::Dispatch(p) => {
                    running.push(p);
                    tasks += 1;
                    live += 1;
                }
                Action::Wait => {}
                Action::Finished => {
                    assert!(running.is_empty());
                    return (s, max_running, tasks);
                }
            }
            assert_eq!(live, s.active);
            assert!(s.active <= budget);
            max_running = max_running.max(live);
        }
    }
}

fn chain_and_siblings(path: &str) -> (Vec<String>, Vec<u64>) {
    if path == "root" {
        let mut dirs = vec!["root/c1".to_string()];
        for i in 1..=5 {
            dirs.push(format!("root/s{}", i));
        }
        return (dirs, vec![]);
    }
    let last = path.rsplit('/').next().unwrap();
    if let Some(n) = last.strip_prefix('c') {
        let n: usize = n.parse().unwrap();
        if n < 10 {
            return (vec![format!("{}/c{}", path, n + 1)], vec![10]);
        }
    }
    (vec![], vec![10])
}

#[test]
fn budget_of_two_is_respected_and_every_directory_counted() {
    let (s, max_running, tasks) = run("root", 2, &chain_and_siblings);
    assert!(s.done);
    assert!(max_running <= 2);
    assert_eq!(max_running, 2);
    assert_eq!(s.result.directories, 15);
    assert_eq!(tasks, 16);
    assert_eq!(s.result.files, 15);
    assert_eq!(s.result.less_than_4_k, 15);
    assert_eq!(s.active, 0);
    assert!(s.pending.is_empty());
}

fn example_tree(path: &str) -> (Vec<String>, Vec<u64>) {
    match path {
        "top" => (vec!["top/a".to_string(), "top/b".to_string()], vec![500_000]),
        _ => (vec![], vec![10]),
    }
}

#[test]
fn end_to_end_example_histogram() {
    for budget in [1usize, 2, 8] {
        let (s, _, tasks) = run("top", budget, &example_tree);
        assert_eq!(s.result.files, 3);
        assert_eq!(s.result.directories, 2);
        assert_eq!(s.result.less_than_4_k, 2);
        assert_eq!(s.result.between_256_k_512_k, 1);
        assert_eq!(s.result.empty_file, 0);
        assert_eq!(s.result.more_than_1_g, 0);
        assert_eq!(tasks, 3);
        assert_eq!(s.result.path, "top");
    }
}

#[test]
fn unreadable_root_gives_an_empty_run() {
    let mut s = Scheduler::new("/nowhere", 4);
    assert!(matches!(s.on_event(build_dir_chan_done()), Action::Finished));
    assert!(s.done);
    assert_eq!(s.result.files, 0);
    assert_eq!(s.result.directories, 0);
}

#[test]
fn directories_beyond_the_budget_are_queued_and_taken_last_first() {
    let mut s = Scheduler::new("r", 2);
    assert!(matches!(s.on_event(build_dir_chan(PathBuf::from("r/a"))), Action::Dispatch(p) if p == PathBuf::from("r/a")));
    assert_eq!(s.active, 2);
    assert!(matches!(s.on_event(build_dir_chan(PathBuf::from("r/b"))), Action::Wait));
    assert!(matches!(s.on_event(build_dir_chan(PathBuf::from("r/c"))), Action::Wait));
    assert_eq!(s.pending.len(), 2);
    assert_eq!(s.active, 2);
    assert_eq!(s.result.directories, 3);
    // an end hands the freed slot to the most recently queued directory
    assert!(matches!(s.on_event(build_dir_chan_done()), Action::Dispatch(p) if p == PathBuf::from("r/c")));
    assert_eq!(s.active, 2);
    assert!(matches!(s.on_event(build_dir_chan_done()), Action::Dispatch(p) if p == PathBuf::from("r/b")));
    assert!(s.pending.is_empty());
    assert!(matches!(s.on_event(build_dir_chan_done()), Action::Wait));
    assert_eq!(s.active, 1);
    assert!(!s.done);
    assert!(matches!(s.on_event(build_dir_chan_done()), Action::Finished));
    assert_eq!(s.active, 0);
}

#[test]
fn file_events_only_touch_the_histogram() {
    let mut s = Scheduler::new("r", 3);
    assert!(matches!(s.on_event(build_file_chan(0)), Action::Wait));
    assert!(matches!(s.on_event(build_file_chan(4_000)), Action::Wait));
    assert_eq!(s.result.files, 2);
    assert_eq!(s.result.empty_file, 1);
    assert_eq!(s.result.between_4_k_16_k, 1);
    assert_eq!(s.active, 1);
    assert!(s.pending.is_empty());
}

#[test]
fn budget_is_four_tasks_per_cpu() {
    assert_eq!(TASKS_PER_CPU, 4);
    assert_eq!(budget_for(1), 4);
    assert_eq!(budget_for(6), 24);
    assert_eq!(budget_for(usize::MAX), usize::MAX);
    assert_eq!(budget_for(usize::MAX / 4 + 1), usize::MAX);
    let b = default_budget();
    assert!(b >= 4);
    assert_eq!(b % 4, 0);
}
