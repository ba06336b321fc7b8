//! The state of the interactive interface and what each command does to it.
use vstd::prelude::*;
use crate::args::Args;
use crate::args::ArgsView;
use crate::dir_stats::DirStats;
use crate::match_data::MatchData;
use crate::text::views;
use crate::ui::popup::DeletePopUpKind;
use crate::ui::popup::PopUpKind;
use crate::ui::popup::PopUpState;
use crate::ui::table::any_selected;
use crate::ui::table::empty_table;
use crate::ui::table::left_of;
use crate::ui::table::right_of;
use crate::ui::table::selected_paths;
use crate::ui::table::sorted_table;
use crate::ui::table::with_added;
use crate::ui::table::with_sort_toggled;
use crate::ui::table::with_stats;
use crate::ui::table::with_toggled;
use crate::ui::table::TableData;
use crate::ui::table::TableView;
use crate::views::each_view;

verus! {

/// What the program is busy with.
#[derive(Debug, Clone, Copy, PartialEq, Eq, Structural)]
pub enum AppState {
    /// The scanner is looking for matches.
    Scanning,
    /// The sizes of the matches are being summed.
    Calculating,
    /// Everything is known.
    Done,
}

/// What the caller has to do after a command.
#[derive(Debug, Clone)]
pub enum Effect {
    /// Nothing.
    Nothing,
    /// Start a scan.
    StartScan,
    /// Start to sum the sizes of the matches with these numbers and paths.
    StartStats(Vec<(usize, String)>),
    /// Start to delete these paths.
    StartDelete(Vec<String>),
    /// Scroll the info popup one line up.
    ScrollUp,
    /// Scroll the info popup one line down.
    ScrollDown,
    /// Scroll the info popup to its top.
    ScrollToTop,
}

/// Mathematical value of an [`Effect`].
pub enum EffectView {
    Nothing,
    StartScan,
    StartStats(Seq<(int, Seq<char>)>),
    StartDelete(Seq<Seq<char>>),
    ScrollUp,
    ScrollDown,
    ScrollToTop,
}

/// The numbers and paths in `jobs`.
pub open spec fn jobs_view(jobs: Seq<(usize, String)>) -> Seq<(int, Seq<char>)> {
    Seq::new(jobs.len(), |i: int| (jobs[i].0 as int, jobs[i].1@))
}

impl View for Effect {
    type V = EffectView;

    open spec fn view(&self) -> EffectView {
        match self {
            Effect::Nothing => EffectView::Nothing,
            Effect::StartScan => EffectView::StartScan,
            Effect::StartStats(jobs) => EffectView::StartStats(jobs_view(jobs@)),
            Effect::StartDelete(paths) => EffectView::StartDelete(views(paths@)),
            Effect::ScrollUp => EffectView::ScrollUp,
            Effect::ScrollDown => EffectView::ScrollDown,
            Effect::ScrollToTop => EffectView::ScrollToTop,
        }
    }
}

/// The state of the interface.
#[derive(Debug, Clone)]
pub struct App {
    /// The options that the program was started with.
    pub args: Args,
    /// False once the user has left.
    pub running: bool,
    /// The table of matches.
    pub table: TableData,
    /// What the program is busy with.
    pub state: AppState,
    /// Which popup is open.
    pub popup_state: PopUpState,
    /// The group that the info popup shows.
    pub info_path: Option<String>,
}

/// Mathematical value of an [`App`].
pub struct AppView {
    pub args: ArgsView,
    pub running: bool,
    pub table: TableView,
    pub state: AppState,
    pub popup: PopUpState,
    pub info_path: Option<Seq<char>>,
}

impl View for App {
    type V = AppView;

    open spec fn view(&self) -> AppView {
        AppView {
            args: self.args@,
            running: self.running,
            table: self.table@,
            state: self.state,
            popup: self.popup_state,
            info_path: match self.info_path {
                Some(p) => Some(p@),
                None => None,
            },
        }
    }
}

/// The cursor one row further up; it stops at the first row, and there is
/// none on an empty table.
pub open spec fn cursor_up(t: TableView) -> Option<int> {
    if t.data.len() == 0 {
        None
    } else {
        match t.selected_row {
            Some(e) => if e <= 0 {
                Some(0)
            } else {
                Some(e - 1)
            },
            None => None,
        }
    }
}

/// The cursor one row further down; it stops at the last row, and there is
/// none on an empty table.
pub open spec fn cursor_down(t: TableView) -> Option<int> {
    if t.data.len() == 0 {
        None
    } else {
        match t.selected_row {
            Some(e) => if e >= t.data.len() - 1 {
                Some(t.data.len() - 1)
            } else {
                Some(e + 1)
            },
            None => None,
        }
    }
}

/// The state after the user asked to leave: with a selection the exit popup
/// opens, without one the program ends.
pub open spec fn after_quit(a: AppView) -> AppView {
    if any_selected(a.table) {
        AppView { popup: PopUpState::Open(PopUpKind::Exit), ..a }
    } else {
        AppView { running: false, ..a }
    }
}

/// The state with a new scan under way: an empty table and no popup.
pub open spec fn after_reload(a: AppView) -> AppView {
    AppView { table: empty_table(), popup: PopUpState::Closed, state: AppState::Scanning, ..a }
}

/// The state after the user asked for the details of the group under the
/// cursor.
pub open spec fn after_show_info(a: AppView) -> AppView {
    match a.table.selected_row {
        Some(i) => if 0 <= i < a.table.data.len() {
            AppView {
                popup: PopUpState::Open(PopUpKind::Info),
                info_path: Some(a.table.data[i].path),
                ..a
            }
        } else {
            a
        },
        None => a,
    }
}

/// The state after the popup was closed.
pub open spec fn after_close(a: AppView) -> AppView {
    AppView {
        popup: PopUpState::Closed,
        info_path: if a.popup == PopUpState::Open(PopUpKind::Info) {
            None
        } else {
            a.info_path
        },
        ..a
    }
}

/// The state after the user toggled the selection of the group under the
/// cursor: the cursor moves on to the next row.
pub open spec fn after_toggle(a: AppView) -> AppView {
    let table = with_toggled(a.table);
    AppView { table: TableView { selected_row: cursor_down(table), ..table }, ..a }
}

/// The state after the user asked to delete: with a selection the popup
/// asks for confirmation.
pub open spec fn after_delete(a: AppView) -> AppView {
    if any_selected(a.table) {
        AppView { popup: PopUpState::Open(PopUpKind::Delete(DeletePopUpKind::Confirm)), ..a }
    } else {
        a
    }
}

/// The state while the selected groups are being deleted.
pub open spec fn after_confirm(a: AppView) -> AppView {
    AppView { popup: PopUpState::Open(PopUpKind::Delete(DeletePopUpKind::Deleting)), ..a }
}

/// The numbers and paths of the rows of the first `n` groups.
pub open spec fn all_jobs(t: TableView, n: int) -> Seq<(int, Seq<char>)>
    decreases n,
{
    if n <= 0 || n > t.data.len() {
        Seq::empty()
    } else {
        all_jobs(t, n - 1) + Seq::new(
            t.data[n - 1].matches.len(),
            |j: int| (t.data[n - 1].matches[j].idx, t.data[n - 1].matches[j].path),
        )
    }
}

/// The state after the workers of the current stage have finished: after
/// the scan the sizes are summed, after that everything is known.
pub open spec fn after_stage(a: AppView) -> AppView {
    AppView {
        state: match a.state {
            AppState::Scanning => AppState::Calculating,
            AppState::Calculating => AppState::Done,
            AppState::Done => AppState::Done,
        },
        ..a
    }
}

impl App {
    /// The interface at its start: scanning, with an empty table.
    pub fn new(args: Args) -> (a: Self)
        ensures
            a@ == (AppView {
                args: args@,
                running: true,
                table: empty_table(),
                state: AppState::Scanning,
                popup: PopUpState::Closed,
                info_path: None,
            }),
    {
        App {
            args,
            running: true,
            table: TableData::new(),
            state: AppState::Scanning,
            popup_state: PopUpState::Closed,
            info_path: None,
        }
    }

    /// Begins a scan.
    pub fn run(&mut self) -> (e: Effect)
        ensures
            final(self)@ == (AppView { state: AppState::Scanning, ..old(self)@ }),
            e@ == EffectView::StartScan,
    {
        self.state = AppState::Scanning;
        Effect::StartScan
    }

    /// Takes in a match that the scanner found.
    pub fn on_match(&mut self, data: MatchData)
        requires
            old(self).table.idx < usize::MAX,
        ensures
            final(self)@ == (AppView { table: with_added(old(self)@.table, data@), ..old(self)@ }),
    {
        self.table.add_match(data);
    }

    /// Takes in the statistics of the match with the number `idx`, and
    /// tells whether the table has to be put in order again.
    pub fn on_stats(&mut self, idx: usize, data: DirStats) -> (r: bool)
        ensures
            final(self)@ == (AppView {
                table: with_stats(old(self)@.table, idx as int, data@),
                ..old(self)@
            }),
            r == (crate::ui::table::holder_of(old(self)@.table.data, idx as int, 0) is Some
                && data.size is Some),
    {
        self.table.update_match(idx, data)
    }

    /// Puts the table in order after statistics have arrived.
    pub fn after_stats(&mut self)
        ensures
            final(self)@ == (AppView { table: sorted_table(old(self)@.table), ..old(self)@ }),
    {
        self.table.sort();
    }

    /// Moves on once the workers of the current stage have finished, and
    /// says what is to be started next.
    pub fn stage_finished(&mut self) -> (e: Effect)
        ensures
            final(self)@ == after_stage(old(self)@),
            e@ == match old(self)@.state {
                AppState::Scanning => EffectView::StartStats(
                    all_jobs(old(self)@.table, old(self)@.table.data.len() as int),
                ),
                _ => EffectView::Nothing,
            },
    {
        match self.state {
            AppState::Scanning => {
                self.state = AppState::Calculating;
                let ghost t = self@.table;
                let mut jobs: Vec<(usize, String)> = Vec::new();
                let mut i: usize = 0;
                while i < self.table.data.len()
                    invariant
                        i <= self.table.data.len(),
                        t == self@.table,
                        jobs_view(jobs@) == all_jobs(t, i as int),
                    decreases self.table.data.len() - i,
                {
                    let g = &self.table.data[i];
                    let ghost start = jobs_view(jobs@);
                    let ghost rows = each_view(g.matches@);
                    let mut j: usize = 0;
                    while j < g.matches.len()
                        invariant
                            j <= g.matches.len(),
                            rows == each_view(g.matches@),
                            jobs_view(jobs@) == start + Seq::new(
                                j as nat,
                                |k: int| (rows[k].idx, rows[k].path),
                            ),
                        decreases g.matches.len() - j,
                    {
                        let ghost prev = jobs@;
                        jobs.push((g.matches[j].idx, g.matches[j].path.clone()));
                        proof {
                            assert(jobs_view(jobs@) =~= jobs_view(prev).push(
                                (rows[j as int].idx, rows[j as int].path),
                            ));
                        }
                        j += 1;
                    }
                    i += 1;
                }
                Effect::StartStats(jobs)
            },
            AppState::Calculating => {
                self.state = AppState::Done;
                Effect::Nothing
            },
            AppState::Done => Effect::Nothing,
        }
    }

    /// Once the deletion has finished, closes its popup and begins a new
    /// scan. Does nothing while no deletion is shown as running.
    pub fn delete_finished(&mut self) -> (e: Effect)
        ensures
            old(self)@.popup == PopUpState::Open(PopUpKind::Delete(DeletePopUpKind::Deleting))
                ==> final(self)@ == after_reload(old(self)@) && e@ == EffectView::StartScan,
            old(self)@.popup != PopUpState::Open(PopUpKind::Delete(DeletePopUpKind::Deleting))
                ==> final(self)@ == old(self)@ && e@ == EffectView::Nothing,
    {
        if self.popup_state == PopUpState::Open(PopUpKind::Delete(DeletePopUpKind::Deleting)) {
            self.reload()
        } else {
            Effect::Nothing
        }
    }

    /// The user asks to leave.
    pub fn quit(&mut self)
        ensures
            final(self)@ == after_quit(old(self)@),
    {
        if self.table.is_any_selected() {
            self.popup_state = PopUpState::Open(PopUpKind::Exit);
        } else {
            self.running = false;
        }
    }

    /// The user leaves, selection or not.
    pub fn force_quit(&mut self)
        ensures
            final(self)@ == (AppView { running: false, ..old(self)@ }),
    {
        self.running = false;
    }

    /// Moves the cursor one row up.
    pub fn list_up(&mut self)
        ensures
            final(self)@ == (AppView {
                table: TableView { selected_row: cursor_up(old(self)@.table), ..old(self)@.table },
                ..old(self)@
            }),
    {
        if self.table.data.len() == 0 {
            self.table.selected_row = None;
            return ;
        }
        self.table.selected_row = match self.table.selected_row {
            Some(e) => if e == 0 {
                Some(0)
            } else {
                Some(e - 1)
            },
            None => None,
        };
    }

    /// Moves the cursor one row down.
    pub fn list_down(&mut self)
        ensures
            final(self)@ == (AppView {
                table: TableView { selected_row: cursor_down(old(self)@.table), ..old(self)@.table },
                ..old(self)@
            }),
    {
        let n = self.table.data.len();
        if n == 0 {
            self.table.selected_row = None;
            return ;
        }
        self.table.selected_row = match self.table.selected_row {
            Some(e) => if e >= n - 1 {
                Some(n - 1)
            } else {
                Some(e + 1)
            },
            None => None,
        };
    }

    /// Scrolls the info popup one line up.
    pub fn scroll_up(&mut self) -> (e: Effect)
        ensures
            final(self)@ == old(self)@,
            e@ == EffectView::ScrollUp,
    {
        Effect::ScrollUp
    }

    /// Scrolls the info popup one line down.
    pub fn scroll_down(&mut self) -> (e: Effect)
        ensures
            final(self)@ == old(self)@,
            e@ == EffectView::ScrollDown,
    {
        Effect::ScrollDown
    }

    /// Empties the table and begins a new scan.
    pub fn reload(&mut self) -> (e: Effect)
        ensures
            final(self)@ == after_reload(old(self)@),
            e@ == EffectView::StartScan,
    {
        self.table = TableData::new();
        self.popup_state = PopUpState::Closed;
        self.run()
    }

    /// Opens the sort popup.
    pub fn focus_sort(&mut self)
        ensures
            final(self)@ == (AppView { popup: PopUpState::Open(PopUpKind::Sort), ..old(self)@ }),
    {
        self.popup_state = PopUpState::Open(PopUpKind::Sort);
    }

    /// Opens the info popup on the group under the cursor.
    pub fn show_info(&mut self)
        ensures
            final(self)@ == after_show_info(old(self)@),
    {
        match self.table.selected_row {
            Some(i) => if i < self.table.data.len() {
                self.popup_state = PopUpState::Open(PopUpKind::Info);
                self.info_path = Some(self.table.data[i].group_path.clone());
            },
            None => {},
        }
    }

    /// Closes the popup. The info popup is scrolled back to its top.
    pub fn close_popup(&mut self) -> (e: Effect)
        ensures
            final(self)@ == after_close(old(self)@),
            e@ == if old(self)@.popup == PopUpState::Open(PopUpKind::Info) {
                EffectView::ScrollToTop
            } else {
                EffectView::Nothing
            },
    {
        let effect = match self.popup_state {
            PopUpState::Open(PopUpKind::Info) => {
                self.info_path = None;
                Effect::ScrollToTop
            },
            _ => Effect::Nothing,
        };
        self.popup_state = PopUpState::Closed;
        effect
    }

    /// Moves the cursor of the sort popup one column to the left.
    pub fn sort_left(&mut self)
        ensures
            final(self)@ == (AppView {
                table: TableView { selected: left_of(old(self)@.table.selected), ..old(self)@.table },
                ..old(self)@
            }),
    {
        self.table.sort_left();
    }

    /// Moves the cursor of the sort popup one column to the right.
    pub fn sort_right(&mut self)
        ensures
            final(self)@ == (AppView {
                table: TableView { selected: right_of(old(self)@.table.selected), ..old(self)@.table },
                ..old(self)@
            }),
    {
        self.table.sort_right();
    }

    /// Chooses the column under the cursor of the sort popup.
    pub fn sort_toggle(&mut self)
        ensures
            final(self)@ == (AppView { table: with_sort_toggled(old(self)@.table), ..old(self)@ }),
    {
        self.table.sort_toggle();
    }

    /// Tells whether the cursor is on a row.
    pub fn is_highlighted(&self) -> (r: bool)
        ensures
            r == self@.table.selected_row is Some,
    {
        self.table.selected_row.is_some()
    }

    /// Toggles the selection of the group under the cursor and moves the
    /// cursor on.
    pub fn toggle_select(&mut self)
        ensures
            final(self)@ == after_toggle(old(self)@),
    {
        self.table.toggle_select();
        self.list_down();
    }

    /// The user asks to delete the selected groups.
    pub fn delete(&mut self)
        ensures
            final(self)@ == after_delete(old(self)@),
    {
        if self.table.is_any_selected() {
            self.popup_state = PopUpState::Open(PopUpKind::Delete(DeletePopUpKind::Confirm));
        }
    }

    /// The user confirms the deletion.
    pub fn confirm_delete(&mut self) -> (e: Effect)
        ensures
            final(self)@ == after_confirm(old(self)@),
            e@ == EffectView::StartDelete(
                selected_paths(old(self)@.table.data, old(self)@.table.data.len() as int),
            ),
    {
        let paths = self.table.get_selected_path();
        self.popup_state = PopUpState::Open(PopUpKind::Delete(DeletePopUpKind::Deleting));
        Effect::StartDelete(paths)
    }
}

} // verus!
