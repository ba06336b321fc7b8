use project_cleaner::cache::ScannerCache;
use project_cleaner::entry::Entry;
use project_cleaner::entry::EntryKind;
use project_cleaner::entry::FileFact;
use project_cleaner::gitignore::verdict_of;
use project_cleaner::gitignore::Matcher;
use project_cleaner::heuristic::Heuristic;
use project_cleaner::heuristics::all_heuristics;
use project_cleaner::heuristics::cargo_target::CargoTarget;
use project_cleaner::heuristics::git::GitMatchWeight;
use project_cleaner::heuristics::system::Platform;
use project_cleaner::heuristics::system::System;
use project_cleaner::heuristics::Bundled;
use project_cleaner::matching_state::has_distinct_names;
use project_cleaner::pattern::name_matches;
use project_cleaner::IconColor;
use project_cleaner::Lang;
use project_cleaner::MatchingState;
use project_cleaner::Scanner;

fn entry(name: &str, kind: EntryKind) -> Entry {
    Entry::new(name.to_string(), format!("/d/{}", name), kind)
}

fn state(children: Vec<Entry>) -> MatchingState {
    let mut s = MatchingState::new(children, ScannerCache::new(3), "/d".to_string(), Vec::new());
    s.set_current(1, Lang { name: "Test", icon: "t", short: "t", color: IconColor::uniform(1) });
    s
}

fn listing() -> Vec<Entry> {
    vec![
        entry("Cargo.toml", EntryKind::File),
        entry("target", EntryKind::Directory),
        entry("link", EntryKind::Other),
        entry("gradlew", EntryKind::File),
        entry("build-x", EntryKind::Directory),
    ]
}

#[test]
fn has_file_and_has_directory_look_at_the_kind() {
    let s = state(listing());
    assert_eq!(s.path(), "/d");
    assert_eq!(s.len(), 5);
    assert_eq!(s.has_file("Cargo.toml"), Some("/d/Cargo.toml".to_string()));
    assert_eq!(s.has_directory("Cargo.toml"), None);
    assert_eq!(s.has_directory("target"), Some("/d/target".to_string()));
    assert_eq!(s.has_file("target"), None);
    assert_eq!(s.has_file("link"), None);
    assert_eq!(s.has_directory("link"), None);
    assert_eq!(s.has_file("missing"), None);
    assert_eq!(s.find("link"), Some(2));
    assert_eq!(s.find("nothing"), None);
    assert_eq!(s.entry(1).file_name, "target");
}

#[test]
fn match_file_and_match_directory_use_the_pattern() {
    let s = state(listing());
    assert_eq!(s.match_file("^gradlew(\\.bat)?$"), Some(vec!["/d/gradlew".to_string()]));
    assert_eq!(s.match_directory("build"), Some(vec!["/d/build-x".to_string()]));
    assert_eq!(s.match_file("a"), Some(vec!["/d/Cargo.toml".to_string(), "/d/gradlew".to_string()]));
    assert_eq!(s.match_directory("^x"), Some(Vec::new()));
    assert_eq!(s.match_file("("), None);
    assert_eq!(s.match_directory("("), None);
}

#[test]
fn name_matches_tells_match_from_mismatch_and_bad_pattern() {
    assert_eq!(name_matches("^gradlew(\\.bat)?$", "gradlew.bat"), Some(true));
    assert_eq!(name_matches("^gradlew(\\.bat)?$", "gradlew.sh"), Some(false));
    assert_eq!(name_matches("^build", "build-debug"), Some(true));
    assert_eq!(name_matches("^build", "cmake-build-debug"), Some(false));
    assert_eq!(name_matches("[", "x"), None);
}

#[test]
fn get_all_contents_lists_every_entry_in_order() {
    let s = state(listing());
    let all = s.get_all_contents();
    assert_eq!(all.len(), 5);
    assert_eq!(all[0], ("/d/Cargo.toml".to_string(), EntryKind::File));
    assert_eq!(all[1], ("/d/target".to_string(), EntryKind::Directory));
    assert_eq!(all[2], ("/d/link".to_string(), EntryKind::Other));
}

#[test]
fn inherited_files_belong_to_the_running_heuristic() {
    let mut s = state(listing());
    assert!(s.inherited().is_empty());
    s.inherit("/a".to_string());
    s.inherited_files().push("/b".to_string());
    assert_eq!(s.inherited(), vec!["/a".to_string(), "/b".to_string()]);
    s.set_current(2, Lang::unnamed());
    assert!(s.inherited().is_empty());
    s.set_current(1, Lang::unnamed());
    assert_eq!(s.inherited(), vec!["/a".to_string(), "/b".to_string()]);
    let out = s.process_collected_data(false);
    assert_eq!(out.cache.inherited_files[1], vec!["/a".to_string(), "/b".to_string()]);
    assert!(out.cache.inherited_files[0].is_empty());
}

#[test]
fn facts_answer_for_marker_files() {
    let facts = vec![
        FileFact { dir: "/d/x".to_string(), name: "CMakeCache.txt".to_string(), is_file: true, lines: Vec::new() },
        FileFact { dir: "/d".to_string(), name: ".gitignore".to_string(), is_file: true, lines: vec!["a".to_string()] },
        FileFact { dir: "/d/y".to_string(), name: "pyvenv.cfg".to_string(), is_file: false, lines: vec!["z".to_string()] },
    ];
    let s = MatchingState::new(listing(), ScannerCache::new(1), "/d".to_string(), facts);
    assert!(s.is_file_in("/d/x", "CMakeCache.txt"));
    assert!(!s.is_file_in("/d/x", "other"));
    assert!(!s.is_file_in("/d/y", "pyvenv.cfg"));
    assert_eq!(s.lines_of("/d", ".gitignore"), vec!["a".to_string()]);
    assert!(s.lines_of("/d/y", "pyvenv.cfg").is_empty());
    assert!(s.lines_of("/nowhere", ".gitignore").is_empty());
}

#[test]
fn positive_weight_emits_and_closes_the_entry() {
    let mut s = state(listing());
    s.add_match("target", "first");
    s.add_match("target", "second").weight(500);
    let out = s.process_collected_data(false);
    assert_eq!(out.matches.len(), 1);
    let m = &out.matches[0];
    assert_eq!(m.path(), "/d/target");
    assert_eq!(m.group(), "/d");
    assert_eq!(m.weight(), 1500);
    assert!(!m.dangerous());
    assert_eq!(m.languages().len(), 2);
    assert_eq!(m.languages()[0].comment, "first");
    assert_eq!(m.languages()[1].comment, "second");
    assert_eq!(m.languages()[0].name(), "Test");
    assert!(!out.children[1].descend);
    assert!(out.children[4].descend);
    assert_eq!(out.children.len(), 5);
}

#[test]
fn zero_and_plain_negative_weights_do_nothing() {
    let mut s = state(listing());
    s.add_match("target", "zero").weight(0);
    s.add_match("build-x", "negative").weight(-5);
    let out = s.process_collected_data(true);
    assert_eq!(out.matches.len(), 0);
    assert!(out.children[1].descend);
    assert!(out.children[4].descend);
    assert!(out.cache.marked_to_be_dangerous.is_empty());
}

#[test]
fn dangerous_negative_weight_closes_the_entry_without_the_mode() {
    let mut s = state(listing());
    s.add_match("target", "system").weight(-1).dangerous();
    let out = s.process_collected_data(false);
    assert_eq!(out.matches.len(), 0);
    assert!(!out.children[1].descend);
    assert!(out.cache.marked_to_be_dangerous.is_empty());
}

#[test]
fn dangerous_negative_weight_marks_a_directory_with_the_mode() {
    let mut s = state(listing());
    s.add_match("target", "system").weight(-1).dangerous();
    s.add_match("Cargo.toml", "system file").weight(-1).dangerous();
    let out = s.process_collected_data(true);
    assert_eq!(out.matches.len(), 0);
    assert!(out.children[1].descend);
    assert_eq!(out.cache.marked_to_be_dangerous, vec!["target".to_string()]);
    assert!(!out.cache.dangerous);
}

#[test]
fn positive_sum_wins_over_a_dangerous_statement() {
    let mut s = state(listing());
    s.add_match("target", "system").weight(-1000).dangerous();
    s.add_match("target", "build output").weight(1001);
    let out = s.process_collected_data(true);
    assert_eq!(out.matches.len(), 1);
    assert_eq!(out.matches[0].weight(), 1);
    assert!(out.cache.marked_to_be_dangerous.is_empty());
}

#[test]
fn add_match_on_an_unknown_name_is_dropped() {
    let mut s = state(listing());
    s.add_match("no-such-entry", "oops").weight(5000);
    let out = s.process_collected_data(false);
    assert_eq!(out.matches.len(), 0);
    for e in out.children.iter() {
        assert_eq!(e.descend, e.kind == EntryKind::Directory);
    }
}

#[test]
fn emitted_matches_carry_the_flag_of_the_branch() {
    let mut cache = ScannerCache::new(2);
    cache.mark("d");
    cache.enter("d");
    assert!(cache.dangerous);
    let mut s = MatchingState::new(listing(), cache, "/d".to_string(), Vec::new());
    s.set_current(0, Lang::unnamed());
    s.add_match("target", "x");
    let out = s.process_collected_data(true);
    assert!(out.matches[0].dangerous());
    assert!(out.cache.dangerous);
}

#[test]
fn cache_latches_on_a_marked_name_only() {
    let mut cache = ScannerCache::new(1);
    assert!(!cache.is_marked("opt"));
    cache.mark("opt");
    cache.mark("opt");
    assert!(cache.is_marked("opt"));
    assert_eq!(cache.marked_to_be_dangerous.len(), 1);
    let mut other = cache.fork();
    other.enter("home");
    assert!(!other.dangerous);
    assert!(other.is_marked("opt"));
    cache.enter("opt");
    assert!(cache.dangerous);
    assert!(cache.marked_to_be_dangerous.is_empty());
    cache.enter("anything");
    assert!(cache.dangerous);
}

#[test]
fn cache_reserves_buckets_and_forks_deeply() {
    let mut cache = ScannerCache::new(2);
    assert_eq!(cache.inherited_files.len(), 2);
    cache.reserve_buckets(1);
    assert_eq!(cache.inherited_files.len(), 2);
    cache.reserve_buckets(4);
    assert_eq!(cache.inherited_files.len(), 4);
    cache.inherited_files[3].push("/x".to_string());
    let mut copy = cache.fork();
    copy.inherited_files[3].push("/y".to_string());
    assert_eq!(cache.inherited_files[3], vec!["/x".to_string()]);
    assert_eq!(copy.inherited_files[3], vec!["/x".to_string(), "/y".to_string()]);
}

#[test]
fn matcher_gives_the_verdicts_of_a_gitignore_file() {
    let lines: Vec<String> = vec!["*.log".into(), "!keep.log".into(), "build/".into(), "# note".into(), "".into()];
    let m = Matcher::new("/r", &lines);
    assert_eq!(m.verdict("/r/a.log", false), Some(true));
    assert_eq!(m.verdict("/r/keep.log", false), Some(false));
    assert_eq!(m.verdict("/r/build", true), Some(true));
    assert_eq!(m.verdict("/r/build", false), None);
    assert_eq!(m.verdict("/r/src", true), None);
    let empty = Matcher::new("/r", &Vec::new());
    assert_eq!(empty.verdict("/r/a.log", false), None);
}

#[test]
fn later_matchers_are_asked_first() {
    let outer = Matcher::new("/r", &vec!["*.log".to_string()]);
    let inner = Matcher::new("/r/sub", &vec!["!keep.log".to_string()]);
    let both = vec![outer, inner];
    assert_eq!(verdict_of(&both, "/r/sub/keep.log", false), Some(false));
    assert_eq!(verdict_of(&both, "/r/sub/other.log", false), Some(true));
    assert_eq!(verdict_of(&both, "/r/sub/readme", false), None);
    assert_eq!(verdict_of(&Vec::new(), "/r/x.log", false), None);
}

#[test]
fn git_match_weights() {
    assert_eq!(GitMatchWeight::from_verdict(None), GitMatchWeight::NotMatched);
    assert_eq!(GitMatchWeight::from_verdict(Some(true)), GitMatchWeight::Ignored);
    assert_eq!(GitMatchWeight::from_verdict(Some(false)), GitMatchWeight::Whitelisted);
    assert_eq!(GitMatchWeight::NotMatched.weight(), -1000);
    assert_eq!(GitMatchWeight::Ignored.weight(), 500);
    assert_eq!(GitMatchWeight::Whitelisted.weight(), -10000);
    assert_eq!(
        GitMatchWeight::NotMatched.comment(),
        "File was not included in any .gitignore files that were found."
    );
    assert_eq!(GitMatchWeight::Ignored.comment(), "File was included in one of .gitignore files.");
    assert_eq!(
        GitMatchWeight::Whitelisted.comment(),
        "File was explicitly whitelisted in one of .gitignore files."
    );
}

#[test]
fn bundled_heuristics_come_in_their_order() {
    let all = all_heuristics(Platform::Linux);
    let names: Vec<&str> = all.iter().map(|h| h.info().name).collect();
    assert_eq!(
        names,
        vec![
            "Hidden", "System", "Rust", "Unity", "JavaScript", "Python", "Git", "Venv", "Direnv",
            "Flutter", "CMake", "Gradle"
        ]
    );
    assert_eq!(all[1], Bundled::System(Platform::Linux));
    assert_eq!(all[6].info().color, IconColor::new(202, 166));
    assert_eq!(all[2].info().short, "rs");
}

#[test]
fn system_heuristic_depends_on_the_platform() {
    assert_eq!(System::new(Platform::Linux).dir_name(), "opt");
    assert_eq!(System::new(Platform::MacOs).dir_name(), "Applications");
    assert_eq!(System::new(Platform::Windows).dir_name(), "AppData");
    assert_eq!(System::new(Platform::Windows).info().color, IconColor::uniform(26));
    let mut s = state(vec![entry("AppData", EntryKind::Directory), entry("opt", EntryKind::Directory)]);
    System::new(Platform::Windows).check_for_matches(&mut s);
    let out = s.process_collected_data(false);
    assert!(!out.children[0].descend);
    assert!(out.children[1].descend);
}

#[test]
fn cargo_target_heuristic_speaks_about_target_only() {
    let mut s = state(listing());
    assert_eq!(CargoTarget.info().name, "Rust");
    assert!(CargoTarget.probes(&s).is_empty());
    CargoTarget.check_for_matches(&mut s);
    let out = s.process_collected_data(false);
    assert_eq!(out.matches.len(), 1);
    assert_eq!(out.matches[0].path(), "/d/target");
    assert_eq!(out.matches[0].weight(), 1000);
}

#[test]
fn plan_asks_for_the_marker_files() {
    let scanner: Scanner<Bundled> = Scanner::new("/d", Platform::Linux);
    assert_eq!(scanner.root, "/d");
    assert!(!scanner.dangerous);
    let children = vec![
        entry(".gitignore", EntryKind::File),
        entry("venv", EntryKind::Directory),
        entry("build-cmake", EntryKind::Directory),
        entry("src", EntryKind::Directory),
    ];
    let probes = scanner.plan_directory(&scanner.root_cache(), Some("d"), "/d", &children);
    let asked: Vec<(String, String, bool)> =
        probes.iter().map(|p| (p.dir.clone(), p.name.clone(), p.read)).collect();
    assert_eq!(
        asked,
        vec![
            ("/d".to_string(), ".gitignore".to_string(), true),
            ("/d/venv".to_string(), "pyvenv.cfg".to_string(), false),
            ("/d/build-cmake".to_string(), "CMakeCache.txt".to_string(), false),
        ]
    );
}

#[test]
fn scan_directory_runs_the_heuristics_and_consolidates() {
    let mut scanner: Scanner<Bundled> = Scanner::new("/d", Platform::Linux);
    scanner.dangerous = true;
    let children = vec![
        entry(".gitignore", EntryKind::File),
        entry("opt", EntryKind::Directory),
        entry("node_modules", EntryKind::Directory),
        entry("notes.tmp", EntryKind::File),
    ];
    let facts = vec![FileFact {
        dir: "/d".to_string(),
        name: ".gitignore".to_string(),
        is_file: true,
        lines: vec!["*.tmp".to_string()],
    }];
    let out = scanner.scan_directory(scanner.root_cache(), None, "/d".to_string(), children, facts);
    let mut found: Vec<(String, u32)> =
        out.matches.iter().map(|m| (m.path().to_string(), m.weight())).collect();
    found.sort();
    assert_eq!(found, vec![("/d/notes.tmp".to_string(), 500)]);
    assert_eq!(out.cache.marked_to_be_dangerous, vec!["opt".to_string()]);
    assert_eq!(out.cache.inherited_files[6], vec!["/d".to_string()]);
    assert!(out.children[1].descend);
    assert!(out.children[2].descend);
}

#[test]
fn custom_heuristic_lists_are_run_in_their_order() {
    let scanner = Scanner::with_heuristics("/d", vec![Bundled::Python, Bundled::JavaScript]);
    let children = vec![entry("node_modules", EntryKind::Directory), entry("__pycache__", EntryKind::Directory)];
    let out = scanner.scan_directory(scanner.root_cache(), None, "/d".to_string(), children, Vec::new());
    let found: Vec<&str> = out.matches.iter().map(|m| m.path()).collect();
    assert_eq!(found, vec!["/d/node_modules", "/d/__pycache__"]);
    assert_eq!(out.matches[0].languages()[0].name(), "JavaScript");
    assert_eq!(out.matches[1].languages()[0].name(), "Python");
}

#[test]
fn inherited_files_only_grow_down_a_branch() {
    let scanner: Scanner<Bundled> = Scanner::new("/w", Platform::Linux);
    let top = vec![
        Entry::new(".gitignore".to_string(), "/w/.gitignore".to_string(), EntryKind::File),
        Entry::new("a".to_string(), "/w/a".to_string(), EntryKind::Directory),
        Entry::new("b".to_string(), "/w/b".to_string(), EntryKind::Directory),
    ];
    let parent = scanner.scan_directory(scanner.root_cache(), None, "/w".to_string(), top, Vec::new());
    let seen_above = parent.cache.inherited_files[6].clone();
    assert_eq!(seen_above, vec!["/w".to_string()]);

    let below = vec![Entry::new(".gitignore".to_string(), "/w/a/.gitignore".to_string(), EntryKind::File)];
    let child = scanner.scan_directory(parent.cache.fork(), Some("a"), "/w/a".to_string(), below, Vec::new());
    let seen_below = child.cache.inherited_files[6].clone();
    assert_eq!(seen_below, vec!["/w".to_string(), "/w/a".to_string()]);
    assert_eq!(&seen_below[..seen_above.len()], &seen_above[..]);

    let sibling = scanner.scan_directory(parent.cache.fork(), Some("b"), "/w/b".to_string(), Vec::new(), Vec::new());
    assert_eq!(sibling.cache.inherited_files[6], seen_above);
    for id in 0..parent.cache.inherited_files.len() {
        if id != 6 {
            assert!(child.cache.inherited_files[id].is_empty());
        }
    }
}

#[test]
fn entering_a_marked_directory_latches_the_flag() {
    let mut scanner: Scanner<Bundled> = Scanner::new("/", Platform::Linux);
    scanner.dangerous = true;
    let top = vec![
        Entry::new("opt".to_string(), "/opt".to_string(), EntryKind::Directory),
        Entry::new("srv".to_string(), "/srv".to_string(), EntryKind::Directory),
    ];
    let parent = scanner.scan_directory(scanner.root_cache(), None, "/".to_string(), top, Vec::new());
    assert!(!parent.cache.dangerous);
    assert!(parent.cache.is_marked("opt"));

    let inside = vec![Entry::new("node_modules".to_string(), "/opt/node_modules".to_string(), EntryKind::Directory)];
    let child = scanner.scan_directory(parent.cache.fork(), Some("opt"), "/opt".to_string(), inside, Vec::new());
    assert!(child.cache.dangerous);
    assert!(child.cache.marked_to_be_dangerous.is_empty());
    assert_eq!(child.matches.len(), 1);
    assert!(child.matches[0].dangerous());

    let beside = vec![Entry::new("node_modules".to_string(), "/srv/node_modules".to_string(), EntryKind::Directory)];
    let other = scanner.scan_directory(parent.cache.fork(), Some("srv"), "/srv".to_string(), beside, Vec::new());
    assert!(!other.cache.dangerous);
    assert!(!other.matches[0].dangerous());
}

#[test]
fn git_records_repositories_and_ignore_files() {
    let scanner = Scanner::with_heuristics("/w", vec![Bundled::Git]);
    let top = vec![
        Entry::new(".git".to_string(), "/w/.git".to_string(), EntryKind::Directory),
        Entry::new(".gitignore".to_string(), "/w/.gitignore".to_string(), EntryKind::File),
        Entry::new("x.o".to_string(), "/w/x.o".to_string(), EntryKind::File),
    ];
    let facts = vec![FileFact {
        dir: "/w".to_string(),
        name: ".gitignore".to_string(),
        is_file: true,
        lines: vec!["*.o".to_string()],
    }];
    let out = scanner.scan_directory(scanner.root_cache(), None, "/w".to_string(), top, facts);
    assert_eq!(out.cache.inherited_files[0], vec!["".to_string(), "/w".to_string(), "/w".to_string()]);
    assert_eq!(out.matches.len(), 1);
    assert_eq!(out.matches[0].path(), "/w/x.o");
    assert_eq!(out.matches[0].group(), "/w");

    let plain = vec![Entry::new(".git".to_string(), "/v/.git".to_string(), EntryKind::Directory)];
    let quiet = scanner.scan_directory(scanner.root_cache(), None, "/v".to_string(), plain, Vec::new());
    assert_eq!(quiet.cache.inherited_files[0], vec!["".to_string(), "/v".to_string()]);
    assert!(quiet.matches.is_empty());
    let below = scanner.plan_directory(&out.cache, Some("sub"), "/w/sub", &Vec::new());
    assert_eq!(below.len(), 1);
    assert_eq!(below[0].dir, "/w");
    assert_eq!(below[0].name, ".gitignore");
    assert!(below[0].read);
}

#[test]
fn default_cache_is_the_cache_of_a_root_without_heuristics() {
    let cache = ScannerCache::default();
    assert!(cache.inherited_files.is_empty());
    assert!(!cache.dangerous);
    assert!(cache.marked_to_be_dangerous.is_empty());
}

#[test]
fn listings_are_checked_for_distinct_names() {
    assert!(has_distinct_names(&listing()));
    assert!(has_distinct_names(&Vec::new()));
    let mut twice = listing();
    twice.push(entry("target", EntryKind::File));
    assert!(!has_distinct_names(&twice));
    let mut case = listing();
    case.push(entry("Target", EntryKind::Directory));
    assert!(has_distinct_names(&case));
}

#[test]
fn comments_and_blank_lines_of_a_gitignore_file_say_nothing() {
    let noisy: Vec<String> =
        vec!["# build output".into(), "".into(), "   ".into(), "*.o".into(), "# end".into()];
    let plain: Vec<String> = vec!["*.o".into()];
    let a = Matcher::new("/r", &noisy);
    let b = Matcher::new("/r", &plain);
    for (path, is_dir) in [("/r/x.o", false), ("/r/x.c", false), ("/r/sub", true)] {
        assert_eq!(a.verdict(path, is_dir), b.verdict(path, is_dir));
    }
    assert_eq!(a.verdict("/r/x.o", false), Some(true));
    let dotted = Matcher::new("./r", &plain);
    assert_eq!(dotted.verdict("r/x.o", false), Some(true));
    let broken: Vec<String> = vec!["a[".into(), "*.log".into()];
    let c = Matcher::new("/r", &broken);
    assert_eq!(c.verdict("/r/x.log", false), Some(true));
}
