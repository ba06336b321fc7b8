//! What the keys and the mouse do.
use vstd::prelude::*;
use crate::ui::app::after_close;
use crate::ui::app::after_confirm;
use crate::ui::app::after_delete;
use crate::ui::app::after_quit;
use crate::ui::app::after_reload;
use crate::ui::app::after_show_info;
use crate::ui::app::after_toggle;
use crate::ui::app::cursor_down;
use crate::ui::app::cursor_up;
use crate::ui::app::App;
use crate::ui::app::AppState;
use crate::ui::app::AppView;
use crate::ui::app::Effect;
use crate::ui::app::EffectView;
use crate::ui::popup::DeletePopUpKind;
use crate::ui::popup::PopUpKind;
use crate::ui::popup::PopUpState;
use crate::ui::table::left_of;
use crate::ui::table::right_of;
use crate::ui::table::selected_paths;
use crate::ui::table::with_sort_toggled;
use crate::ui::table::TableView;

verus! {

/// The keys that the interface knows.
#[derive(Debug, Clone, Copy, PartialEq, Eq, Structural)]
pub enum KeyCode {
    Esc,
    Enter,
    Up,
    Down,
    Left,
    Right,
    Char(char),
    Other,
}

/// A key press.
#[derive(Debug, Clone, Copy, PartialEq, Eq, Structural)]
pub struct Key {
    /// The key.
    pub code: KeyCode,
    /// Whether the control key was held.
    pub ctrl: bool,
}

/// What the mouse did.
#[derive(Debug, Clone, Copy, PartialEq, Eq, Structural)]
pub enum MouseKind {
    ScrollDown,
    ScrollUp,
    Other,
}

/// What a command does: the state it leaves and what the caller has to do.
pub struct Step {
    pub app: AppView,
    pub effect: EffectView,
}

/// A command that only changes the state.
pub open spec fn quiet(app: AppView) -> Step {
    Step { app, effect: EffectView::Nothing }
}

/// The command of closing the popup.
pub open spec fn close_step(a: AppView) -> Step {
    Step {
        app: after_close(a),
        effect: if a.popup == PopUpState::Open(PopUpKind::Info) {
            EffectView::ScrollToTop
        } else {
            EffectView::Nothing
        },
    }
}

/// The state with the cursor of the table at `row`.
pub open spec fn with_cursor(a: AppView, row: Option<int>) -> AppView {
    AppView { table: TableView { selected_row: row, ..a.table }, ..a }
}

/// What a key does while the popup `kind` is open.
pub open spec fn key_in_popup(a: AppView, kind: PopUpKind, key: Key) -> Step {
    let on_delete_or_exit = kind is Delete || kind is Exit;
    if key.code == KeyCode::Esc || key.code == KeyCode::Char('q') {
        close_step(a)
    } else if key.code == KeyCode::Char('i') && kind is Info {
        close_step(a)
    } else if (key.code == KeyCode::Char('c') || key.code == KeyCode::Char('C')) && key.ctrl {
        quiet(after_quit(a))
    } else if key.code == KeyCode::Enter || key.code == KeyCode::Char('n') {
        if on_delete_or_exit {
            close_step(a)
        } else {
            quiet(a)
        }
    } else if key.code == KeyCode::Char('y') {
        match kind {
            PopUpKind::Delete(_) => Step {
                app: after_confirm(a),
                effect: EffectView::StartDelete(selected_paths(a.table.data, a.table.data.len() as int)),
            },
            PopUpKind::Exit => quiet(AppView { running: false, ..a }),
            _ => quiet(a),
        }
    } else if key.code == KeyCode::Up && kind is Info {
        Step { app: a, effect: EffectView::ScrollUp }
    } else if key.code == KeyCode::Down && kind is Info {
        Step { app: a, effect: EffectView::ScrollDown }
    } else if key.code == KeyCode::Char('s') && kind is Sort {
        close_step(a)
    } else if key.code == KeyCode::Left && kind is Sort {
        quiet(AppView { table: TableView { selected: left_of(a.table.selected), ..a.table }, ..a })
    } else if key.code == KeyCode::Right && kind is Sort {
        quiet(AppView { table: TableView { selected: right_of(a.table.selected), ..a.table }, ..a })
    } else if key.code == KeyCode::Char(' ') {
        match kind {
            PopUpKind::Sort => quiet(AppView { table: with_sort_toggled(a.table), ..a }),
            PopUpKind::Info => quiet(a),
            _ => close_step(a),
        }
    } else {
        quiet(a)
    }
}

/// What a key does while no popup is open.
pub open spec fn key_on_table(a: AppView, key: Key) -> Step {
    if key.code == KeyCode::Esc || key.code == KeyCode::Char('q') {
        quiet(after_quit(a))
    } else if (key.code == KeyCode::Char('c') || key.code == KeyCode::Char('C')) && key.ctrl {
        quiet(after_quit(a))
    } else if key.code == KeyCode::Up {
        quiet(with_cursor(a, cursor_up(a.table)))
    } else if key.code == KeyCode::Down {
        quiet(with_cursor(a, cursor_down(a.table)))
    } else if key.code == KeyCode::Char('r') {
        if a.state == AppState::Done {
            Step { app: after_reload(a), effect: EffectView::StartScan }
        } else {
            quiet(a)
        }
    } else if key.code == KeyCode::Char('d') {
        quiet(after_delete(a))
    } else if key.code == KeyCode::Char('i') {
        quiet(after_show_info(a))
    } else if key.code == KeyCode::Char('s') {
        quiet(AppView { popup: PopUpState::Open(PopUpKind::Sort), ..a })
    } else if key.code == KeyCode::Char(' ') {
        quiet(after_toggle(a))
    } else {
        quiet(a)
    }
}

/// What a key does. While a deletion is running no key does anything.
pub open spec fn key_step(a: AppView, key: Key) -> Step {
    match a.popup {
        PopUpState::Open(kind) => if kind == PopUpKind::Delete(DeletePopUpKind::Deleting) {
            quiet(a)
        } else {
            key_in_popup(a, kind, key)
        },
        PopUpState::Closed => key_on_table(a, key),
    }
}

/// What the mouse does: the wheel moves the cursor of the table, or scrolls
/// the info popup.
pub open spec fn mouse_step(a: AppView, kind: MouseKind) -> Step {
    match a.popup {
        PopUpState::Closed => match kind {
            MouseKind::ScrollDown => quiet(with_cursor(a, cursor_down(a.table))),
            MouseKind::ScrollUp => quiet(with_cursor(a, cursor_up(a.table))),
            MouseKind::Other => quiet(a),
        },
        PopUpState::Open(PopUpKind::Info) => match kind {
            MouseKind::ScrollDown => Step { app: a, effect: EffectView::ScrollDown },
            MouseKind::ScrollUp => Step { app: a, effect: EffectView::ScrollUp },
            MouseKind::Other => quiet(a),
        },
        _ => quiet(a),
    }
}

/// Tells whether the key is the letter `c` with the control key held.
fn is_interrupt(key: &Key) -> (r: bool)
    ensures
        r == ((key.code == KeyCode::Char('c') || key.code == KeyCode::Char('C')) && key.ctrl),
{
    match key.code {
        KeyCode::Char(c) => (c == 'c' || c == 'C') && key.ctrl,
        _ => false,
    }
}

/// Handles a key while the popup `kind` is open.
fn handle_popup_key(key: Key, kind: PopUpKind, app: &mut App) -> (e: Effect)
    requires
        old(app)@.popup == PopUpState::Open(kind),
    ensures
        final(app)@ == key_in_popup(old(app)@, kind, key).app,
        e@ == key_in_popup(old(app)@, kind, key).effect,
{
    let closing = match kind {
        PopUpKind::Delete(_) => true,
        PopUpKind::Exit => true,
        _ => false,
    };
    let info = match kind {
        PopUpKind::Info => true,
        _ => false,
    };
    let sort = match kind {
        PopUpKind::Sort => true,
        _ => false,
    };
    if is_interrupt(&key) {
        // Esc, q and i come first, but none of them is the letter c.
        app.quit();
        return Effect::Nothing;
    }
    match key.code {
        KeyCode::Esc => app.close_popup(),
        KeyCode::Enter => if closing {
            app.close_popup()
        } else {
            Effect::Nothing
        },
        KeyCode::Up => if info {
            app.scroll_up()
        } else {
            Effect::Nothing
        },
        KeyCode::Down => if info {
            app.scroll_down()
        } else {
            Effect::Nothing
        },
        KeyCode::Left => {
            if sort {
                app.sort_left();
            }
            Effect::Nothing
        },
        KeyCode::Right => {
            if sort {
                app.sort_right();
            }
            Effect::Nothing
        },
        KeyCode::Char(c) => {
            if c == 'q' {
                app.close_popup()
            } else if c == 'i' && info {
                app.close_popup()
            } else if c == 'n' {
                if closing {
                    app.close_popup()
                } else {
                    Effect::Nothing
                }
            } else if c == 'y' {
                match kind {
                    PopUpKind::Delete(_) => app.confirm_delete(),
                    PopUpKind::Exit => {
                        app.force_quit();
                        Effect::Nothing
                    },
                    _ => Effect::Nothing,
                }
            } else if c == 's' && sort {
                app.close_popup()
            } else if c == ' ' {
                match kind {
                    PopUpKind::Sort => {
                        app.sort_toggle();
                        Effect::Nothing
                    },
                    PopUpKind::Info => Effect::Nothing,
                    _ => app.close_popup(),
                }
            } else {
                Effect::Nothing
            }
        },
        KeyCode::Other => Effect::Nothing,
    }
}

/// Handles a key while no popup is open.
fn handle_table_key(key: Key, app: &mut App) -> (e: Effect)
    ensures
        final(app)@ == key_on_table(old(app)@, key).app,
        e@ == key_on_table(old(app)@, key).effect,
{
    if is_interrupt(&key) {
        app.quit();
        return Effect::Nothing;
    }
    match key.code {
        KeyCode::Esc => {
            app.quit();
            Effect::Nothing
        },
        KeyCode::Up => {
            app.list_up();
            Effect::Nothing
        },
        KeyCode::Down => {
            app.list_down();
            Effect::Nothing
        },
        KeyCode::Char(c) => {
            if c == 'q' {
                app.quit();
                Effect::Nothing
            } else if c == 'r' {
                if app.state == AppState::Done {
                    app.reload()
                } else {
                    Effect::Nothing
                }
            } else if c == 'd' {
                app.delete();
                Effect::Nothing
            } else if c == 'i' {
                app.show_info();
                Effect::Nothing
            } else if c == 's' {
                app.focus_sort();
                Effect::Nothing
            } else if c == ' ' {
                app.toggle_select();
                Effect::Nothing
            } else {
                Effect::Nothing
            }
        },
        _ => Effect::Nothing,
    }
}

/// Handles a key press and says what the caller has to do.
pub fn handle_key_events(key: Key, app: &mut App) -> (e: Effect)
    ensures
        final(app)@ == key_step(old(app)@, key).app,
        e@ == key_step(old(app)@, key).effect,
{
    match app.popup_state {
        PopUpState::Open(kind) => {
            if kind == PopUpKind::Delete(DeletePopUpKind::Deleting) {
                Effect::Nothing
            } else {
                handle_popup_key(key, kind, app)
            }
        },
        PopUpState::Closed => handle_table_key(key, app),
    }
}

/// Handles a move of the mouse wheel and says what the caller has to do.
pub fn handle_mouse_events(kind: MouseKind, app: &mut App) -> (e: Effect)
    ensures
        final(app)@ == mouse_step(old(app)@, kind).app,
        e@ == mouse_step(old(app)@, kind).effect,
{
    match app.popup_state {
        PopUpState::Closed => match kind {
            MouseKind::ScrollDown => {
                app.list_down();
                Effect::Nothing
            },
            MouseKind::ScrollUp => {
                app.list_up();
                Effect::Nothing
            },
            MouseKind::Other => Effect::Nothing,
        },
        PopUpState::Open(PopUpKind::Info) => match kind {
            MouseKind::ScrollDown => app.scroll_down(),
            MouseKind::ScrollUp => app.scroll_up(),
            MouseKind::Other => Effect::Nothing,
        },
        _ => Effect::Nothing,
    }
}

} // verus!
