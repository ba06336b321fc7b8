use project_cleaner::args::Args;
use project_cleaner::dir_stats::ModTime;
use project_cleaner::ui::app::App;
use project_cleaner::ui::app::AppState;
use project_cleaner::ui::app::Effect;
use project_cleaner::ui::help::construct_help;
use project_cleaner::ui::handler::handle_key_events;
use project_cleaner::ui::handler::handle_mouse_events;
use project_cleaner::ui::handler::Key;
use project_cleaner::ui::handler::KeyCode;
use project_cleaner::ui::handler::MouseKind;
use project_cleaner::ui::model::Field;
use project_cleaner::ui::model::MatchDataUIStatus;
use project_cleaner::ui::popup::DeletePopUpKind;
use project_cleaner::ui::popup::PopUpKind;
use project_cleaner::ui::popup::PopUpState;
use project_cleaner::ui::table::TableData;
use project_cleaner::CommentedLang;
use project_cleaner::DirStats;
use project_cleaner::IconColor;
use project_cleaner::Lang;
use project_cleaner::MatchData;
use project_cleaner::MatchParameters;

fn lang(name: &'static str) -> Lang {
    Lang { name, icon: "*", short: "x", color: IconColor::uniform(1) }
}

fn found(path: &str, group: &str, names: &[&'static str], dangerous: bool) -> MatchData {
    let mut params = MatchParameters::new(CommentedLang { lang: lang(names[0]), comment: "c".into() });
    for n in names[1..].iter() {
        params = params.add(MatchParameters::new(CommentedLang { lang: lang(n), comment: "c".into() }));
    }
    params.weight(1);
    MatchData::new(path.to_string(), group.to_string(), dangerous, params)
}

fn sized(bytes: u64, secs: i64) -> DirStats {
    DirStats { size: Some(bytes), last_mod: Some(ModTime { secs, nanos: 0 }) }
}

fn table() -> TableData {
    let mut t = TableData::new();
    t.add_match(found("/a/target", "/a", &["Rust"], false));
    t.add_match(found("/b/node_modules", "/b", &["JavaScript"], false));
    t.add_match(found("/a/x.log", "/a", &["Git", "Rust"], true));
    t.add_match(found("/c/build", "/c", &["CMake"], false));
    t
}

fn order(t: &TableData) -> Vec<&str> {
    t.data.iter().map(|g| g.group_path.as_str()).collect()
}

fn key(code: KeyCode) -> Key {
    Key { code, ctrl: false }
}

fn app() -> App {
    let mut a = App::new(Args { no_icons: false, path: None, no_ui: false, delete_instantly: false, dangerous: false });
    a.table = table();
    a
}

fn is_nothing(e: &Effect) -> bool {
    matches!(e, Effect::Nothing)
}

#[test]
fn new_table_is_empty_and_sorted_by_size() {
    let t = TableData::default();
    assert_eq!(t.idx, 0);
    assert_eq!(t.selected_row, None);
    assert!(t.data.is_empty());
    assert_eq!(t.sort_by, Field::Size);
    assert_eq!(t.selected, Field::Size);
    assert!(!t.ascending);
    assert_eq!(t.cleanable_space(), 0);
    assert_eq!(Field::default(), Field::Size);
}

#[test]
fn matches_are_grouped_by_directory() {
    let t = table();
    assert_eq!(t.idx, 4);
    assert_eq!(t.data.len(), 3);
    let a = t.get_by_path("/a").unwrap();
    assert_eq!(a.matches.len(), 2);
    assert!(a.dangerous);
    assert_eq!(a.matches[0].idx, 0);
    assert_eq!(a.matches[1].idx, 2);
    assert_eq!(a.matches[1].path, "/a/x.log");
    assert_eq!(a.status, MatchDataUIStatus::Found);
    assert!(!t.get_by_path("/b").unwrap().dangerous);
    assert!(t.get_by_path("/zzz").is_none());
    assert_eq!(order(&t), vec!["/c", "/a", "/b"]);
    assert_eq!(t.selected_row, Some(1));
}

#[test]
fn group_icons_are_unique_and_in_the_order_of_names() {
    let t = table();
    let a = t.get_by_path("/a").unwrap();
    let names: Vec<&str> = a.get_icons().iter().map(|l| l.name).collect();
    assert_eq!(names, vec!["Git", "Rust"]);
    assert_eq!(a.lang(), "GitRust");
    assert_eq!(a.path(), "/a");
}

#[test]
fn statistics_arrive_by_number() {
    let mut t = table();
    assert!(t.update_match(0, sized(100, 10)));
    assert!(t.update_match(2, sized(50, 30)));
    assert!(!t.update_match(1, DirStats { size: None, last_mod: None }));
    assert!(!t.update_match(99, sized(1, 1)));
    assert_eq!(t.cleanable_space(), 150);
    let a = t.get_by_path("/a").unwrap();
    assert_eq!(a.size(), 150);
    assert_eq!(a.last_mod(), ModTime { secs: 30, nanos: 0 });
    assert_eq!(a.stats().size, Some(150));
    let b = t.get_by_path("/b").unwrap();
    assert_eq!(b.size(), 0);
    assert_eq!(b.stats().size, None);
    assert_eq!(b.last_mod(), ModTime { secs: 0, nanos: 0 });
}

#[test]
fn sort_puts_large_groups_first_and_keeps_the_cursor() {
    let mut t = table();
    t.update_match(1, sized(500, 5));
    t.update_match(0, sized(100, 9));
    t.update_match(3, sized(300, 1));
    t.selected_row = Some(t.data.iter().position(|g| g.group_path == "/c").unwrap());
    t.sort();
    assert_eq!(order(&t), vec!["/b", "/c", "/a"]);
    assert_eq!(t.selected_row, Some(1));
    t.ascending = true;
    t.sort();
    assert_eq!(order(&t), vec!["/a", "/c", "/b"]);
    assert_eq!(t.selected_row, Some(1));
}

#[test]
fn sort_by_path_language_and_time() {
    let mut t = table();
    t.update_match(1, sized(500, 5));
    t.update_match(0, sized(100, 9));
    t.update_match(3, sized(300, 1));
    t.ascending = true;
    t.sort_by = Field::Path;
    t.sort();
    assert_eq!(order(&t), vec!["/a", "/b", "/c"]);
    t.sort_by = Field::Lang;
    t.sort();
    assert_eq!(order(&t), vec!["/c", "/a", "/b"]);
    t.sort_by = Field::LastMod;
    t.sort();
    assert_eq!(order(&t), vec!["/c", "/b", "/a"]);
    t.ascending = false;
    t.sort();
    assert_eq!(order(&t), vec!["/a", "/b", "/c"]);
}

#[test]
fn equal_keys_keep_their_order() {
    let mut t = table();
    t.ascending = true;
    t.sort_by = Field::Path;
    t.sort();
    t.sort_by = Field::Size;
    t.sort();
    assert_eq!(order(&t), vec!["/a", "/b", "/c"]);
    t.ascending = false;
    t.sort();
    assert_eq!(order(&t), vec!["/c", "/b", "/a"]);
}

#[test]
fn sort_popup_cursor_cycles() {
    let mut t = TableData::new();
    let mut seen = vec![t.selected];
    for _ in 0..4 {
        t.sort_right();
        seen.push(t.selected);
    }
    assert_eq!(seen, vec![Field::Size, Field::Lang, Field::Path, Field::LastMod, Field::Size]);
    t.sort_left();
    assert_eq!(t.selected, Field::LastMod);
    t.sort_left();
    assert_eq!(t.selected, Field::Path);
}

#[test]
fn sort_toggle_turns_the_order_or_takes_the_column() {
    let mut t = table();
    t.sort_toggle();
    assert!(t.ascending);
    assert_eq!(t.sort_by, Field::Size);
    t.sort_toggle();
    assert!(!t.ascending);
    t.ascending = true;
    t.sort_right();
    t.sort_right();
    t.sort_toggle();
    assert_eq!(t.sort_by, Field::Path);
    assert!(!t.ascending);
    assert_eq!(order(&t), vec!["/c", "/b", "/a"]);
}

#[test]
fn selection_is_toggled_under_the_cursor() {
    let mut t = table();
    t.update_match(0, sized(100, 9));
    t.update_match(1, sized(500, 5));
    t.sort();
    assert!(!t.is_any_selected());
    assert!(!t.is_selected());
    t.selected_row = Some(order(&t).iter().position(|p| *p == "/a").unwrap());
    t.toggle_select();
    assert!(t.is_selected());
    assert!(t.is_any_selected());
    assert_eq!(t.get_selected_path(), vec!["/a/target".to_string(), "/a/x.log".to_string()]);
    assert_eq!(t.selected_space(), 100);
    t.toggle_select();
    assert!(!t.is_any_selected());
    assert!(t.get_selected_path().is_empty());
    assert_eq!(t.selected_space(), 0);
    t.selected_row = Some(17);
    t.toggle_select();
    assert!(!t.is_selected());
    t.selected_row = None;
    t.toggle_select();
    assert!(!t.is_any_selected());
}

#[test]
fn sort_of_an_empty_table_leaves_no_cursor() {
    let mut t = TableData::new();
    t.sort();
    assert_eq!(t.selected_row, None);
    t.sort_toggle();
    assert_eq!(t.selected_row, None);
}

#[test]
fn cursor_stops_at_the_ends() {
    let mut a = app();
    a.table.selected_row = Some(0);
    a.list_up();
    assert_eq!(a.table.selected_row, Some(0));
    a.list_down();
    a.list_down();
    a.list_down();
    assert_eq!(a.table.selected_row, Some(2));
    a.list_up();
    assert_eq!(a.table.selected_row, Some(1));
    a.table = TableData::new();
    a.table.selected_row = Some(3);
    a.list_down();
    assert_eq!(a.table.selected_row, None);
    assert!(!a.is_highlighted());
}

#[test]
fn quit_asks_when_something_is_selected() {
    let mut a = app();
    a.quit();
    assert!(!a.running);
    let mut b = app();
    b.toggle_select();
    b.quit();
    assert!(b.running);
    assert_eq!(b.popup_state, PopUpState::Open(PopUpKind::Exit));
    assert!(is_nothing(&handle_key_events(key(KeyCode::Char('n')), &mut b)));
    assert_eq!(b.popup_state, PopUpState::Closed);
    b.quit();
    handle_key_events(key(KeyCode::Char('y')), &mut b);
    assert!(!b.running);
}

#[test]
fn stages_follow_each_other() {
    let mut a = app();
    assert_eq!(a.state, AppState::Scanning);
    match a.stage_finished() {
        Effect::StartStats(jobs) => {
            let mut jobs = jobs;
            jobs.sort();
            assert_eq!(
                jobs,
                vec![
                    (0, "/a/target".to_string()),
                    (1, "/b/node_modules".to_string()),
                    (2, "/a/x.log".to_string()),
                    (3, "/c/build".to_string())
                ]
            );
        },
        other => panic!("unexpected effect {:?}", other),
    }
    assert_eq!(a.state, AppState::Calculating);
    assert!(is_nothing(&a.stage_finished()));
    assert_eq!(a.state, AppState::Done);
    assert!(is_nothing(&a.stage_finished()));
    assert_eq!(a.state, AppState::Done);
    assert!(matches!(a.run(), Effect::StartScan));
    assert_eq!(a.state, AppState::Scanning);
}

#[test]
fn keys_on_the_table() {
    let mut a = app();
    a.table.selected_row = Some(0);
    assert!(is_nothing(&handle_key_events(key(KeyCode::Down), &mut a)));
    assert_eq!(a.table.selected_row, Some(1));
    handle_key_events(key(KeyCode::Up), &mut a);
    assert_eq!(a.table.selected_row, Some(0));
    assert!(is_nothing(&handle_key_events(key(KeyCode::Char('r')), &mut a)));
    assert_eq!(a.table.data.len(), 3);
    handle_key_events(key(KeyCode::Char('d')), &mut a);
    assert_eq!(a.popup_state, PopUpState::Closed);
    handle_key_events(key(KeyCode::Char(' ')), &mut a);
    assert_eq!(a.table.selected_row, Some(1));
    assert_eq!(a.table.data[0].status, MatchDataUIStatus::Selected);
    handle_key_events(key(KeyCode::Char('d')), &mut a);
    assert_eq!(a.popup_state, PopUpState::Open(PopUpKind::Delete(DeletePopUpKind::Confirm)));
    match handle_key_events(key(KeyCode::Char('y')), &mut a) {
        Effect::StartDelete(paths) => assert_eq!(paths.len(), a.table.data[0].matches.len()),
        other => panic!("unexpected effect {:?}", other),
    }
    assert_eq!(a.popup_state, PopUpState::Open(PopUpKind::Delete(DeletePopUpKind::Deleting)));
    assert!(is_nothing(&handle_key_events(key(KeyCode::Esc), &mut a)));
    assert_eq!(a.popup_state, PopUpState::Open(PopUpKind::Delete(DeletePopUpKind::Deleting)));
    assert!(matches!(a.delete_finished(), Effect::StartScan));
    assert_eq!(a.popup_state, PopUpState::Closed);
    assert!(a.table.data.is_empty());
    assert_eq!(a.state, AppState::Scanning);
    assert!(is_nothing(&a.delete_finished()));
}

#[test]
fn reload_needs_a_finished_scan() {
    let mut a = app();
    a.state = AppState::Done;
    assert!(matches!(handle_key_events(key(KeyCode::Char('r')), &mut a), Effect::StartScan));
    assert!(a.table.data.is_empty());
    assert_eq!(a.state, AppState::Scanning);
}

#[test]
fn info_popup_opens_scrolls_and_closes() {
    let mut a = app();
    a.table.selected_row = Some(1);
    let shown = a.table.data[1].group_path.clone();
    handle_key_events(key(KeyCode::Char('i')), &mut a);
    assert_eq!(a.popup_state, PopUpState::Open(PopUpKind::Info));
    assert_eq!(a.info_path, Some(shown));
    assert!(matches!(handle_key_events(key(KeyCode::Down), &mut a), Effect::ScrollDown));
    assert!(matches!(handle_key_events(key(KeyCode::Up), &mut a), Effect::ScrollUp));
    assert!(matches!(handle_mouse_events(MouseKind::ScrollDown, &mut a), Effect::ScrollDown));
    assert!(is_nothing(&handle_key_events(key(KeyCode::Char(' ')), &mut a)));
    assert_eq!(a.popup_state, PopUpState::Open(PopUpKind::Info));
    assert!(matches!(handle_key_events(key(KeyCode::Char('i')), &mut a), Effect::ScrollToTop));
    assert_eq!(a.popup_state, PopUpState::Closed);
    assert_eq!(a.info_path, None);
    a.table.selected_row = None;
    a.show_info();
    assert_eq!(a.popup_state, PopUpState::Closed);
}

#[test]
fn sort_popup_moves_and_sorts() {
    let mut a = app();
    handle_key_events(key(KeyCode::Char('s')), &mut a);
    assert_eq!(a.popup_state, PopUpState::Open(PopUpKind::Sort));
    handle_key_events(key(KeyCode::Right), &mut a);
    handle_key_events(key(KeyCode::Right), &mut a);
    assert_eq!(a.table.selected, Field::Path);
    handle_key_events(key(KeyCode::Left), &mut a);
    assert_eq!(a.table.selected, Field::Lang);
    handle_key_events(key(KeyCode::Right), &mut a);
    handle_key_events(key(KeyCode::Char(' ')), &mut a);
    assert_eq!(a.table.sort_by, Field::Path);
    assert_eq!(order(&a.table), vec!["/c", "/b", "/a"]);
    assert!(is_nothing(&handle_key_events(key(KeyCode::Enter), &mut a)));
    assert_eq!(a.popup_state, PopUpState::Open(PopUpKind::Sort));
    assert!(is_nothing(&handle_key_events(key(KeyCode::Up), &mut a)));
    handle_key_events(key(KeyCode::Char('s')), &mut a);
    assert_eq!(a.popup_state, PopUpState::Closed);
}

#[test]
fn interrupt_asks_to_leave_everywhere() {
    let mut a = app();
    handle_key_events(Key { code: KeyCode::Char('c'), ctrl: true }, &mut a);
    assert!(!a.running);
    let mut b = app();
    assert!(is_nothing(&handle_key_events(key(KeyCode::Char('c')), &mut b)));
    assert!(b.running);
    b.focus_sort();
    handle_key_events(Key { code: KeyCode::Char('C'), ctrl: true }, &mut b);
    assert!(!b.running);
    let mut c = app();
    assert!(is_nothing(&handle_key_events(key(KeyCode::Other), &mut c)));
    assert!(c.running);
}

#[test]
fn mouse_wheel_moves_the_cursor() {
    let mut a = app();
    a.table.selected_row = Some(0);
    assert!(is_nothing(&handle_mouse_events(MouseKind::ScrollDown, &mut a)));
    assert_eq!(a.table.selected_row, Some(1));
    handle_mouse_events(MouseKind::ScrollUp, &mut a);
    assert_eq!(a.table.selected_row, Some(0));
    handle_mouse_events(MouseKind::Other, &mut a);
    assert_eq!(a.table.selected_row, Some(0));
    a.focus_sort();
    handle_mouse_events(MouseKind::ScrollDown, &mut a);
    assert_eq!(a.table.selected_row, Some(0));
}

#[test]
fn arriving_matches_and_statistics_reach_the_table() {
    let mut a = App::new(Args { no_icons: true, path: Some("/r".into()), no_ui: false, delete_instantly: true, dangerous: true });
    assert!(a.running);
    a.on_match(found("/r/target", "/r", &["Rust"], false));
    a.on_match(found("/q/target", "/q", &["Rust"], false));
    assert!(a.on_stats(1, sized(9, 1)));
    assert!(!a.on_stats(7, sized(9, 1)));
    a.after_stats();
    assert_eq!(order(&a.table), vec!["/q", "/r"]);
    assert_eq!(a.table.cleanable_space(), 9);
    assert!(matches!(a.scroll_up(), Effect::ScrollUp));
    assert!(matches!(a.scroll_down(), Effect::ScrollDown));
    assert!(matches!(a.reload(), Effect::StartScan));
    assert!(a.table.data.is_empty());
}

#[test]
fn help_line_follows_the_state() {
    let mut a = app();
    a.table.selected_row = None;
    assert_eq!(construct_help(&a), vec![" Scroll [↑↓] ", " Exit [q] "]);
    a.table.selected_row = Some(0);
    assert_eq!(construct_help(&a), vec![" Scroll [↑↓] ", " Info [i] ", " Select [˽] ", " Exit [q] "]);
    a.table.toggle_select();
    a.state = AppState::Done;
    assert_eq!(
        construct_help(&a),
        vec![" Scroll [↑↓] ", " Info [i] ", " Unselect [˽] ", " Delete [d] ", " Reload [r] ", " Exit [q] "]
    );
    a.table.selected_row = Some(1);
    assert_eq!(
        construct_help(&a),
        vec![" Scroll [↑↓] ", " Info [i] ", " Select [˽] ", " Delete [d] ", " Reload [r] ", " Exit [q] "]
    );
    a.focus_sort();
    assert_eq!(construct_help(&a), vec![" Close [q] "]);
}
