use project_cleaner::dir_stats::earlier;
use project_cleaner::dir_stats::FileRecord;
use project_cleaner::dir_stats::ModTime;
use project_cleaner::log::get_data_dir;
use project_cleaner::args::confirms;
use project_cleaner::args::Args;
use project_cleaner::pool::chunk_len;
use project_cleaner::pool::chunk_ranges;
use project_cleaner::pool::pool_size;
use project_cleaner::seen::FileKey;
use project_cleaner::seen::SeenFiles;
use project_cleaner::text::joined;
use project_cleaner::text::has_dot_prefix;
use project_cleaner::tree::join_path;
use project_cleaner::DirStats;

fn time(secs: i64, nanos: u32) -> ModTime {
    ModTime { secs, nanos }
}

fn stats(size: Option<u64>, last_mod: Option<ModTime>) -> DirStats {
    DirStats { size, last_mod }
}

fn record(index: u128, is_file: bool, size: Option<u64>, secs: Option<i64>) -> FileRecord {
    FileRecord {
        key: FileKey { volume: 1, index },
        is_file,
        size,
        last_mod: secs.map(|s| time(s, 0)),
    }
}

#[test]
fn addition_sums_sizes_and_keeps_the_later_time() {
    let a = stats(Some(10), Some(time(5, 0)));
    let b = stats(Some(32), Some(time(5, 1)));
    assert_eq!(a.add(b), stats(Some(42), Some(time(5, 1))));
    assert_eq!(b.add(a), stats(Some(42), Some(time(5, 1))));
    assert_eq!(a.add(stats(None, None)), a);
    assert_eq!(stats(None, None).add(a), a);
    assert_eq!(stats(None, None).add(stats(None, None)), stats(None, None));
    assert_eq!(stats(None, Some(time(-3, 0))).add(stats(Some(1), None)), stats(Some(1), Some(time(-3, 0))));
}

#[test]
fn larger_size_sorts_first_and_earlier_time_breaks_ties() {
    let big = stats(Some(100), Some(time(9, 0)));
    let small = stats(Some(1), Some(time(1, 0)));
    assert!(big.sorts_before(&small));
    assert!(!small.sorts_before(&big));
    assert!(big < small);
    let old = stats(Some(100), Some(time(1, 0)));
    assert!(old.sorts_before(&big));
    assert!(old < big);
    assert!(!(big < big));
    assert!(big <= big);
    assert!(small.sorts_before(&stats(None, None)));
    assert!(stats(Some(5), None).sorts_before(&stats(Some(5), Some(time(0, 0)))));
    assert_eq!(big.partial_cmp(&small), Some(std::cmp::Ordering::Less));
    assert_eq!(small.partial_cmp(&big), Some(std::cmp::Ordering::Greater));
    assert_eq!(big.partial_cmp(&big), Some(std::cmp::Ordering::Equal));
}

#[test]
fn earlier_treats_no_time_as_the_earliest() {
    assert!(earlier(None, Some(time(-100, 0))));
    assert!(!earlier(Some(time(0, 0)), None));
    assert!(!earlier(None, None));
    assert!(earlier(Some(time(1, 5)), Some(time(1, 6))));
    assert!(!earlier(Some(time(1, 6)), Some(time(1, 6))));
    assert!(time(1, 999).is_before(&time(2, 0)));
}

#[test]
fn last_mod_days_counts_whole_days() {
    let now = time(10 * 86400 + 5, 0);
    assert_eq!(stats(None, Some(time(5, 0))).last_mod_days(now), Some(10));
    assert_eq!(stats(None, Some(time(6, 0))).last_mod_days(now), Some(9));
    assert_eq!(stats(None, Some(time(5, 1))).last_mod_days(now), Some(9));
    assert_eq!(stats(None, Some(now)).last_mod_days(now), Some(0));
    assert_eq!(stats(None, Some(time(10 * 86400 + 6, 0))).last_mod_days(now), None);
    assert_eq!(stats(Some(1), None).last_mod_days(now), None);
    assert_eq!(stats(None, Some(time(-86400, 0))).last_mod_days(time(0, 0)), Some(1));
    assert_eq!(
        stats(None, Some(time(i64::MIN, 0))).last_mod_days(time(i64::MAX, 0)),
        Some((u64::MAX / 86400) as u64)
    );
}

#[test]
fn files_are_counted_once_by_identity() {
    let files = vec![
        record(1, false, Some(4096), Some(50)),
        record(2, true, Some(100), Some(10)),
        record(3, true, Some(20), Some(30)),
        record(2, true, Some(100), Some(40)),
        record(4, true, None, None),
    ];
    let total = DirStats::new(&files);
    assert_eq!(total, stats(Some(120), Some(time(50, 0))));
    assert_eq!(DirStats::try_new(&files), Some(total));
}

#[test]
fn same_index_on_another_volume_is_another_file() {
    let mut other = record(2, true, Some(7), None);
    other.key.volume = 2;
    let files = vec![record(2, true, Some(100), None), other];
    assert_eq!(DirStats::new(&files), stats(Some(107), None));
}

#[test]
fn nothing_walked_gives_no_statistics() {
    assert_eq!(DirStats::new(&Vec::new()), stats(None, None));
    assert_eq!(DirStats::try_new(&Vec::new()), Some(stats(None, None)));
    assert_eq!(DirStats::empty(), stats(None, None));
    assert_eq!(DirStats::default(), stats(None, None));
}

#[test]
fn a_tree_without_regular_files_has_size_zero() {
    let empty_dir = vec![record(1, false, Some(4096), Some(3))];
    assert_eq!(DirStats::new(&empty_dir), stats(Some(0), Some(time(3, 0))));
    let dirs_only = vec![
        record(1, false, Some(4096), Some(3)),
        record(2, false, Some(4096), Some(9)),
        record(3, false, None, None),
    ];
    assert_eq!(DirStats::new(&dirs_only), stats(Some(0), Some(time(9, 0))));
    let unread = vec![record(1, true, None, None)];
    assert_eq!(DirStats::new(&unread), stats(Some(0), None));
}

#[test]
fn a_total_beyond_the_range_is_reported() {
    let files = vec![record(1, true, Some(u64::MAX), None), record(2, true, Some(1), None)];
    assert_eq!(DirStats::try_new(&files), None);
    let fits = vec![record(1, true, Some(u64::MAX - 1), None), record(2, true, Some(1), None)];
    assert_eq!(DirStats::try_new(&fits), Some(stats(Some(u64::MAX), None)));
}

#[test]
fn sum_takes_a_list_together() {
    let list = vec![
        stats(Some(1), Some(time(1, 0))),
        stats(None, Some(time(7, 0))),
        stats(Some(2), None),
    ];
    assert_eq!(DirStats::sum(&list), stats(Some(3), Some(time(7, 0))));
    assert_eq!(DirStats::sum(&Vec::new()), stats(None, None));
}

#[test]
fn seen_files_tell_new_from_known() {
    let mut seen = SeenFiles::new();
    assert!(seen.insert(FileKey { volume: 1, index: 9 }));
    assert!(!seen.insert(FileKey { volume: 1, index: 9 }));
    assert!(seen.insert(FileKey { volume: 2, index: 9 }));
    assert!(seen.insert(FileKey { volume: 1, index: 10 }));
    assert!(!seen.insert(FileKey { volume: 2, index: 9 }));
}

#[test]
fn pool_takes_half_of_the_cores_and_at_least_one() {
    assert_eq!(pool_size(Some(8), 2), 4);
    assert_eq!(pool_size(Some(1), 2), 1);
    assert_eq!(pool_size(Some(3), 2), 1);
    assert_eq!(pool_size(None, 2), 1);
    assert_eq!(pool_size(Some(16), 1), 16);
    assert_eq!(pool_size(Some(0), 5), 1);
}

#[test]
fn chunks_cover_the_list_without_gaps() {
    assert_eq!(chunk_len(10, 3), 4);
    assert_eq!(chunk_len(9, 3), 3);
    assert_eq!(chunk_len(0, 3), 1);
    assert_eq!(chunk_len(2, 5), 1);
    assert_eq!(chunk_ranges(10, 3), vec![(0, 4), (4, 8), (8, 10)]);
    assert_eq!(chunk_ranges(9, 3), vec![(0, 3), (3, 6), (6, 9)]);
    assert_eq!(chunk_ranges(2, 5), vec![(0, 1), (1, 2)]);
    assert_eq!(chunk_ranges(0, 4), Vec::new());
    assert_eq!(chunk_ranges(7, 1), vec![(0, 7)]);
}

#[test]
fn text_helpers() {
    assert!(has_dot_prefix(".git"));
    assert!(!has_dot_prefix("git."));
    assert!(!has_dot_prefix(""));
    assert_eq!(joined("ab", "cd"), "abcd");
    assert_eq!(join_path("/r", "x"), "/r/x");
    assert_eq!(join_path("/", "x"), "/x");
    assert_eq!(join_path("", "x"), "/x");
    assert_eq!(join_path("rel/", "x"), "rel/x");
}

#[test]
fn data_dir_prefers_the_environment() {
    assert_eq!(get_data_dir(Some("/env".into()), Some("/platform".into())), "/env");
    assert_eq!(get_data_dir(None, Some("/platform".into())), "/platform");
    assert_eq!(get_data_dir(None, None), "./.data");
}

#[test]
fn args_choose_the_root_and_read_the_answer() {
    let mut args = Args { no_icons: false, path: None, no_ui: true, delete_instantly: false, dangerous: false };
    assert_eq!(args.root("/cwd"), "/cwd");
    args.path = Some("/elsewhere".to_string());
    assert_eq!(args.root("/cwd"), "/elsewhere");
    assert!(confirms("y"));
    assert!(confirms("Y"));
    assert!(!confirms("yes"));
    assert!(!confirms(""));
    assert!(!confirms("n"));
}
