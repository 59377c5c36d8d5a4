//! Key presses and what each does to the session.
use vstd::prelude::*;
use crate::app::{App, cursor_down, cursor_left, cursor_right, cursor_up, state_weeks};
use crate::date::MIN_YEAR;

verus! {

/// The identity of a key.
#[derive(Debug, Clone, Copy, PartialEq, Eq, Structural)]
pub enum KeyCode {
    Char(char),
    Esc,
    Left,
    Right,
    Up,
    Down,
    Other,
}

/// A key with the state of the Control modifier.
#[derive(Debug, Clone, Copy, PartialEq, Eq, Structural)]
pub struct KeyPress {
    pub code: KeyCode,
    pub ctrl: bool,
}

/// What the event loop does after a key.
#[derive(Debug, Clone, Copy, PartialEq, Eq, Structural)]
pub enum Command {
    /// Carry on.
    Continue,
    /// Leave the program.
    Quit,
    /// Fetch the year on show and hand the outcome to `App::refresh`.
    Fetch,
}

/// `q`, Escape, or Control-c.
pub open spec fn is_quit_key(k: KeyPress) -> bool {
    k.code == KeyCode::Char('q') || k.code == KeyCode::Esc || (k.code == KeyCode::Char('c')
        && k.ctrl)
}

pub open spec fn is_left_key(k: KeyPress) -> bool {
    k.code == KeyCode::Left || k.code == KeyCode::Char('h')
}

pub open spec fn is_right_key(k: KeyPress) -> bool {
    k.code == KeyCode::Right || k.code == KeyCode::Char('l')
}

pub open spec fn is_up_key(k: KeyPress) -> bool {
    k.code == KeyCode::Up || k.code == KeyCode::Char('k')
}

pub open spec fn is_down_key(k: KeyPress) -> bool {
    k.code == KeyCode::Down || k.code == KeyCode::Char('j')
}

/// A key bound to some action.
pub open spec fn is_bound_key(k: KeyPress) -> bool {
    is_quit_key(k) || k.code == KeyCode::Char('?') || k.code == KeyCode::Char('p') || k.code
        == KeyCode::Char('n') || is_left_key(k) || is_right_key(k) || is_up_key(k) || is_down_key(
        k,
    )
}

/// Applies one key press to the session, with `current_year` the year of the
/// clock. While help is shown any key only closes it. At chrono's earliest year
/// `p` does nothing.
pub fn handle_key(app: &mut App, key: KeyPress, current_year: i32) -> (r: Command)
    ensures
        old(app).show_help ==> r == Command::Continue && *final(app) == (App {
            show_help: false,
            ..*old(app)
        }),
        !old(app).show_help && is_quit_key(key) ==> r == Command::Quit && *final(app) == *old(app),
        !old(app).show_help && key.code == KeyCode::Char('?') ==> r == Command::Continue
            && *final(app) == (App { show_help: true, ..*old(app) }),
        !old(app).show_help && key.code == KeyCode::Char('p') ==> if old(app).year > MIN_YEAR {
            r == Command::Fetch && *final(app) == (App { year: (old(app).year - 1) as i32, ..*old(app) })
        } else {
            r == Command::Continue && *final(app) == *old(app)
        },
        !old(app).show_help && key.code == KeyCode::Char('n') ==> if old(app).year < current_year {
            r == Command::Fetch && *final(app) == (App { year: (old(app).year + 1) as i32, ..*old(app) })
        } else {
            r == Command::Continue && *final(app) == *old(app)
        },
        !old(app).show_help && is_left_key(key) ==> r == Command::Continue && *final(app) == (App {
            cursor: cursor_left(state_weeks(old(app).state), old(app).cursor),
            ..*old(app)
        }),
        !old(app).show_help && is_right_key(key) ==> r == Command::Continue && *final(app) == (App {
            cursor: cursor_right(state_weeks(old(app).state), old(app).cursor),
            ..*old(app)
        }),
        !old(app).show_help && is_up_key(key) ==> r == Command::Continue && *final(app) == (App {
            cursor: cursor_up(state_weeks(old(app).state), old(app).cursor),
            ..*old(app)
        }),
        !old(app).show_help && is_down_key(key) ==> r == Command::Continue && *final(app) == (App {
            cursor: cursor_down(state_weeks(old(app).state), old(app).cursor),
            ..*old(app)
        }),
        !old(app).show_help && !is_bound_key(key) ==> *final(app) == *old(app) && r == (if old(
            app,
        ).should_quit {
            Command::Quit
        } else {
            Command::Continue
        }),
        old(app).wf() ==> final(app).wf(),
{
    if app.show_help {
        app.show_help = false;
        return Command::Continue;
    }
    match key.code {
        KeyCode::Char('q') => Command::Quit,
        KeyCode::Esc => Command::Quit,
        KeyCode::Char('c') if key.ctrl => Command::Quit,
        KeyCode::Char('?') => {
            app.toggle_help();
            Command::Continue
        },
        KeyCode::Char('p') => {
            if app.year > MIN_YEAR {
                app.previous_year();
                Command::Fetch
            } else {
                Command::Continue
            }
        },
        KeyCode::Char('n') => {
            if app.next_year(current_year) {
                Command::Fetch
            } else {
                Command::Continue
            }
        },
        KeyCode::Left | KeyCode::Char('h') => {
            app.move_left();
            Command::Continue
        },
        KeyCode::Right | KeyCode::Char('l') => {
            app.move_right();
            Command::Continue
        },
        KeyCode::Up | KeyCode::Char('k') => {
            app.move_up();
            Command::Continue
        },
        KeyCode::Down | KeyCode::Char('j') => {
            app.move_down();
            Command::Continue
        },
        _ => {
            if app.should_quit {
                Command::Quit
            } else {
                Command::Continue
            }
        },
    }
}

} // verus!
