//! The line of hints at the bottom of the interface.
use vstd::prelude::*;
use crate::text::views;
use crate::ui::app::App;
use crate::ui::app::AppState;
use crate::ui::app::AppView;
use crate::ui::popup::PopUpState;
use crate::ui::table::any_selected;
use crate::ui::table::cursor_selected;

verus! {

/// The hints for the state `a`, from left to right. With a popup open there
/// is only the hint on how to close it. Else the hints tell how to scroll,
/// how to see details of and select the group under the cursor, how to
/// delete a selection, how to scan again once a scan is done, and how to
/// leave.
pub open spec fn help_of(a: AppView) -> Seq<Seq<char>> {
    match a.popup {
        PopUpState::Open(_) => seq![" Close [q] "@],
        PopUpState::Closed => {
            let scroll = seq![" Scroll [↑↓] "@];
            let cursor = if a.table.selected_row is Some {
                if cursor_selected(a.table) {
                    seq![" Info [i] "@, " Unselect [˽] "@]
                } else {
                    seq![" Info [i] "@, " Select [˽] "@]
                }
            } else {
                Seq::empty()
            };
            let delete = if any_selected(a.table) {
                seq![" Delete [d] "@]
            } else {
                Seq::empty()
            };
            let reload = if a.state == AppState::Done {
                seq![" Reload [r] "@]
            } else {
                Seq::empty()
            };
            scroll + cursor + delete + reload + seq![" Exit [q] "@]
        },
    }
}

/// The hints for the current state, from left to right.
pub fn construct_help(app: &App) -> (r: Vec<String>)
    ensures
        views(r@) == help_of(app@),
{
    let mut out: Vec<String> = Vec::new();
    match app.popup_state {
        PopUpState::Open(_) => {
            out.push(" Close [q] ".to_owned());
        },
        PopUpState::Closed => {
            out.push(" Scroll [↑↓] ".to_owned());
            if app.is_highlighted() {
                out.push(" Info [i] ".to_owned());
                if app.table.is_selected() {
                    out.push(" Unselect [˽] ".to_owned());
                } else {
                    out.push(" Select [˽] ".to_owned());
                }
            }
            if app.table.is_any_selected() {
                out.push(" Delete [d] ".to_owned());
            }
            if app.state == AppState::Done {
                out.push(" Reload [r] ".to_owned());
            }
            out.push(" Exit [q] ".to_owned());
        },
    }
    out
}

} // verus!
