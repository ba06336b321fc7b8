use project_cleaner::heuristics::system::Platform;
use project_cleaner::heuristics::Bundled;
use project_cleaner::tree::Node;
use project_cleaner::tree::TreeScan;
use project_cleaner::Scanner;

fn file(name: &str) -> Node {
    Node::file(name, Vec::new())
}

fn text(name: &str, lines: &[&str]) -> Node {
    Node::file(name, lines.iter().map(|l| l.to_string()).collect())
}

fn dir(name: &str, children: Vec<Node>) -> Node {
    Node::directory(name, children)
}

fn scan(root_path: &str, root: &Node, dangerous: bool) -> TreeScan {
    let mut scanner: Scanner<Bundled> = Scanner::new(root_path, Platform::Linux);
    scanner.dangerous = dangerous;
    scanner.scan_with_progress(root)
}

fn paths(result: &TreeScan) -> Vec<String> {
    let mut out: Vec<String> = result.matches.iter().map(|m| m.path().to_string()).collect();
    out.sort();
    out
}

#[test]
fn rust_project_emits_target_once() {
    let root = dir(
        "r",
        vec![
            file("Cargo.toml"),
            dir("src", vec![file("main.rs")]),
            dir("target", vec![dir("debug", vec![file("app")])]),
        ],
    );
    let result = scan("/r", &root, false);
    assert_eq!(result.matches.len(), 1);
    let m = &result.matches[0];
    assert_eq!(m.path(), "/r/target");
    assert_eq!(m.group(), "/r");
    assert_eq!(m.weight(), 1000);
    assert!(!m.dangerous());
    let names: Vec<&str> = m.languages().iter().map(|l| l.name()).collect();
    assert_eq!(names, vec!["Rust"]);
    assert_eq!(m.languages()[0].comment, "Found Cargo.toml and target directory.");
    assert_eq!(result.visited, vec!["/r".to_string(), "/r/src".to_string()]);
}

#[test]
fn rust_project_without_manifest_emits_nothing() {
    let root = dir("r", vec![dir("target", vec![dir("debug", vec![])])]);
    let result = scan("/r", &root, false);
    assert_eq!(result.matches.len(), 0);
    assert_eq!(
        result.visited,
        vec!["/r".to_string(), "/r/target".to_string(), "/r/target/debug".to_string()]
    );
}

#[test]
fn nested_js_emits_both_module_directories() {
    let root = dir(
        "p",
        vec![
            file("package.json"),
            dir("node_modules", vec![dir("a", vec![file("index.js")])]),
            dir("a", vec![dir("node_modules", vec![dir("b", vec![file("index.js")])])]),
        ],
    );
    let result = scan("/p", &root, false);
    assert_eq!(paths(&result), vec!["/p/a/node_modules".to_string(), "/p/node_modules".to_string()]);
    for m in result.matches.iter() {
        assert_eq!(m.weight(), 1000);
    }
    assert_eq!(result.visited, vec!["/p".to_string(), "/p/a".to_string()]);
}

#[test]
fn git_ignored_build_dir_adds_to_rust_weight() {
    let root = dir(
        "r",
        vec![
            file("Cargo.toml"),
            dir("target", vec![dir("debug", vec![])]),
            text(".gitignore", &["target/"]),
        ],
    );
    let result = scan("/r", &root, false);
    assert_eq!(result.matches.len(), 1);
    let m = &result.matches[0];
    assert_eq!(m.path(), "/r/target");
    assert_eq!(m.weight(), 1500);
    assert_eq!(m.group(), "/r");
    let names: Vec<&str> = m.languages().iter().map(|l| l.name()).collect();
    assert_eq!(names, vec!["Rust", "Git"]);
}

#[test]
fn whitelisted_file_is_kept() {
    let root = dir(
        "r",
        vec![text(".gitignore", &["*.log", "!keep.log"]), file("a.log"), file("keep.log")],
    );
    let result = scan("/r", &root, false);
    assert_eq!(result.matches.len(), 1);
    let m = &result.matches[0];
    assert_eq!(m.path(), "/r/a.log");
    assert_eq!(m.weight(), 500);
    assert_eq!(m.languages()[0].comment, "File was included in one of .gitignore files.");
}

fn system_tree() -> Node {
    dir(
        "",
        vec![
            dir("opt", vec![dir("foo", vec![dir("bar", vec![]), dir("node_modules", vec![])])]),
            dir("home", vec![dir("node_modules", vec![])]),
        ],
    )
}

#[test]
fn dangerous_mode_off_stays_out_of_system_paths() {
    let result = scan("/", &system_tree(), false);
    assert_eq!(paths(&result), vec!["/home/node_modules".to_string()]);
    assert!(!result.matches[0].dangerous());
    assert_eq!(result.visited, vec!["/".to_string(), "/home".to_string()]);
}

#[test]
fn dangerous_mode_on_flags_matches_under_system_paths() {
    let result = scan("/", &system_tree(), true);
    assert_eq!(
        paths(&result),
        vec!["/home/node_modules".to_string(), "/opt/foo/node_modules".to_string()]
    );
    for m in result.matches.iter() {
        assert_eq!(m.dangerous(), m.path().starts_with("/opt/"));
        assert_ne!(m.path(), "/opt");
    }
    assert!(result.visited.contains(&"/opt".to_string()));
    assert!(result.visited.contains(&"/opt/foo/bar".to_string()));
}

#[test]
fn scan_returns_the_matches_of_the_walk() {
    let scanner: Scanner<Bundled> = Scanner::new("/", Platform::Linux);
    let found: Vec<String> = scanner.scan(&system_tree()).iter().map(|m| m.path().to_string()).collect();
    assert_eq!(found, vec!["/home/node_modules".to_string()]);
}

#[test]
fn scanning_twice_gives_the_same_matches() {
    let first = scan("/", &system_tree(), true);
    let second = scan("/", &system_tree(), true);
    assert_eq!(paths(&first), paths(&second));
    assert_eq!(first.visited, second.visited);
}

#[test]
fn nothing_is_found_once_the_matches_are_deleted() {
    let root = dir(
        "r",
        vec![
            file("Cargo.toml"),
            dir("target", vec![]),
            dir("web", vec![dir("node_modules", vec![])]),
        ],
    );
    let first = scan("/r", &root, false);
    assert_eq!(paths(&first), vec!["/r/target".to_string(), "/r/web/node_modules".to_string()]);
    let pruned = dir("r", vec![file("Cargo.toml"), dir("web", vec![])]);
    let second = scan("/r", &pruned, false);
    assert_eq!(second.matches.len(), 0);
}

#[test]
fn no_match_lies_under_another_match() {
    let root = dir(
        "r",
        vec![
            file("Cargo.toml"),
            dir("target", vec![dir("node_modules", vec![dir("__pycache__", vec![])])]),
            dir("lib", vec![dir("__pycache__", vec![dir("node_modules", vec![])])]),
        ],
    );
    let result = scan("/r", &root, false);
    let found = paths(&result);
    assert_eq!(found, vec!["/r/lib/__pycache__".to_string(), "/r/target".to_string()]);
    for a in found.iter() {
        for b in found.iter() {
            assert!(a == b || !b.starts_with(&format!("{}/", a)));
        }
    }
}

#[test]
fn inherited_gitignore_reaches_subdirectories_of_its_branch_only() {
    let root = dir(
        "w",
        vec![
            dir("a", vec![text(".gitignore", &["*.tmp"]), dir("deep", vec![file("x.tmp")])]),
            dir("b", vec![dir("deep", vec![file("y.tmp")])]),
        ],
    );
    let result = scan("/w", &root, false);
    assert_eq!(paths(&result), vec!["/w/a/deep/x.tmp".to_string()]);
    assert_eq!(result.matches[0].group(), "/w/a");
    assert_eq!(result.matches[0].weight(), 500);
}

#[test]
fn deeper_gitignore_is_asked_first() {
    let root = dir(
        "w",
        vec![
            text(".gitignore", &["*.log"]),
            dir("sub", vec![text(".gitignore", &["!keep.log"]), file("keep.log"), file("other.log")]),
        ],
    );
    let result = scan("/w", &root, false);
    assert_eq!(paths(&result), vec!["/w/sub/other.log".to_string()]);
    assert_eq!(result.matches[0].group(), "/w");
}

#[test]
fn hidden_flag_travels_with_a_match() {
    let root = dir("r", vec![file(".envrc"), dir(".direnv", vec![])]);
    let result = scan("/r", &root, false);
    assert_eq!(result.matches.len(), 1);
    let m = &result.matches[0];
    assert_eq!(m.path(), "/r/.direnv");
    assert_eq!(m.weight(), 2000);
    assert!(m.hidden());
    let names: Vec<&str> = m.languages().iter().map(|l| l.name()).collect();
    assert_eq!(names, vec!["Hidden", "Direnv"]);
    assert_eq!(m.languages()[0].comment, ".direnv starts with a dot.");
}

#[test]
fn unity_project_emits_editor_directories() {
    let root = dir(
        "u",
        vec![
            dir("Assets", vec![]),
            dir("Packages", vec![]),
            dir("ProjectSettings", vec![]),
            dir("Library", vec![]),
            dir("Temp", vec![]),
            dir("Other", vec![]),
        ],
    );
    let result = scan("/u", &root, false);
    assert_eq!(paths(&result), vec!["/u/Library".to_string(), "/u/Temp".to_string()]);
    assert_eq!(
        result.matches[0].languages()[0].comment,
        "Found Assets, Packages, ProjectSettings and Library directory."
    );
}

#[test]
fn cmake_build_tree_needs_its_cache_file() {
    let root = dir(
        "c",
        vec![
            dir("build-debug", vec![file("CMakeCache.txt")]),
            dir("build", vec![file("Makefile")]),
            dir("docs", vec![file("CMakeCache.txt")]),
            dir("old-build", vec![file("CMakeCache.txt")]),
        ],
    );
    let result = scan("/c", &root, false);
    assert_eq!(paths(&result), vec!["/c/build-debug".to_string()]);
    assert_eq!(result.matches[0].languages()[0].name(), "CMake");
}

#[test]
fn gradle_wrapper_marks_build_and_cache() {
    let root = dir("g", vec![file("gradlew.bat"), dir("build", vec![]), dir(".gradle", vec![])]);
    let result = scan("/g", &root, false);
    assert_eq!(paths(&result), vec!["/g/.gradle".to_string(), "/g/build".to_string()]);
    let weights: Vec<u32> = result.matches.iter().map(|m| m.weight()).collect();
    assert_eq!(weights, vec![1000, 2000]);
    let none = dir("g", vec![file("gradlew.txt"), dir("build", vec![])]);
    assert_eq!(scan("/g", &none, false).matches.len(), 0);
}

#[test]
fn flutter_project_marks_build_and_tool_cache() {
    let root = dir(
        "f",
        vec![file(".metadata"), file("pubspec.yaml"), dir("build", vec![]), dir(".dart_tool", vec![])],
    );
    let result = scan("/f", &root, false);
    assert_eq!(paths(&result), vec!["/f/.dart_tool".to_string(), "/f/build".to_string()]);
}

#[test]
fn venv_needs_its_config_file() {
    let with = dir("v", vec![dir("venv", vec![file("pyvenv.cfg")]), dir("env", vec![file("pyvenv.cfg")])]);
    assert_eq!(paths(&scan("/v", &with, false)), vec!["/v/venv".to_string()]);
    let env_only = dir("v", vec![dir("env", vec![file("pyvenv.cfg")])]);
    assert_eq!(paths(&scan("/v", &env_only, false)), vec!["/v/env".to_string()]);
    let shadowed = dir("v", vec![dir("venv", vec![]), dir("env", vec![file("pyvenv.cfg")])]);
    assert_eq!(scan("/v", &shadowed, false).matches.len(), 0);
}

#[test]
fn python_cache_is_matched() {
    let root = dir("p", vec![dir("__pycache__", vec![file("a.pyc")]), file("a.py")]);
    let result = scan("/p", &root, false);
    assert_eq!(paths(&result), vec!["/p/__pycache__".to_string()]);
    assert_eq!(result.matches[0].languages()[0].comment, "Found __pycache__.");
}

#[test]
fn current_project_directory_walk() {
    let root = dir(
        "project",
        vec![
            file("Cargo.toml"),
            file("Cargo.lock"),
            dir("src", vec![file("lib.rs")]),
            dir("tests", vec![file("walker.rs")]),
            dir("target", vec![dir("debug", vec![dir("deps", vec![])])]),
        ],
    );
    let result = scan("/work/project", &root, false);
    let mut counter = 0;
    for data in result.matches.iter() {
        counter += 1;
        println!("Found match: {:#?}", data);
    }
    assert!(counter > 0, "target directory wasn't detected");
    for path in result.visited.iter() {
        println!("Scanning {}", path);
        assert!(!path.ends_with("target/debug"), "target directory wasn't skipped");
    }
}

#[test]
fn a_walk_under_a_dangerous_branch_flags_its_matches() {
    let scanner: Scanner<Bundled> = Scanner::new("/opt", Platform::Linux);
    let mut cache = scanner.root_cache();
    cache.mark("opt");
    let node = dir("opt", vec![dir("tool", vec![dir("__pycache__", vec![])])]);
    let result = scanner.walk_directory(&node, "/opt", Some("opt"), cache, &Vec::new());
    assert_eq!(paths(&result), vec!["/opt/tool/__pycache__".to_string()]);
    assert!(result.matches[0].dangerous());
    assert_eq!(result.visited, vec!["/opt".to_string(), "/opt/tool".to_string()]);
}

#[test]
fn nested_repository_is_grouped_under_its_own_root() {
    let root = dir(
        "w",
        vec![
            dir(".git", vec![]),
            text(".gitignore", &["*.o"]),
            dir("vendor", vec![dir(".git", vec![]), file("a.o"), dir("deep", vec![file("b.o")])]),
        ],
    );
    let result = scan("/w", &root, false);
    let found = paths(&result);
    assert_eq!(found, vec!["/w/vendor/a.o".to_string(), "/w/vendor/deep/b.o".to_string()]);
    for m in result.matches.iter() {
        assert_eq!(m.group(), "/w/vendor");
        assert_eq!(m.weight(), 500);
    }
}

#[test]
fn ignore_file_above_a_repository_applies_inside_it() {
    let root = dir(
        "code",
        vec![
            text(".gitignore", &["*.tmp"]),
            file("y.tmp"),
            dir("p1", vec![dir(".git", vec![]), file("x.tmp"), dir("src", vec![file("z.tmp")])]),
        ],
    );
    let result = scan("/code", &root, false);
    let mut found: Vec<(String, String)> =
        result.matches.iter().map(|m| (m.path().to_string(), m.group().to_string())).collect();
    found.sort();
    assert_eq!(
        found,
        vec![
            ("/code/p1/src/z.tmp".to_string(), "/code/p1".to_string()),
            ("/code/p1/x.tmp".to_string(), "/code/p1".to_string()),
            ("/code/y.tmp".to_string(), "/code".to_string()),
        ]
    );
}

#[test]
fn repository_without_ignore_files_is_left_alone() {
    let root = dir("r", vec![dir(".git", vec![]), file("a.o"), dir("sub", vec![file("b.o")])]);
    let result = scan("/r", &root, false);
    assert!(result.matches.is_empty());
    assert_eq!(result.visited, vec!["/r".to_string(), "/r/.git".to_string(), "/r/sub".to_string()]);
}

#[test]
fn trees_are_checked_for_distinct_names() {
    assert!(system_tree().is_well_formed());
    assert!(dir("r", vec![]).is_well_formed());
    let twice = dir("r", vec![file("a"), dir("b", vec![]), file("a")]);
    assert!(!twice.is_well_formed());
    let deep = dir("r", vec![dir("b", vec![dir("c", vec![file("x"), file("x")])])]);
    assert!(!deep.is_well_formed());
    let same_name_in_two_directories = dir("r", vec![dir("a", vec![file("x")]), dir("b", vec![file("x")])]);
    assert!(same_name_in_two_directories.is_well_formed());
}
