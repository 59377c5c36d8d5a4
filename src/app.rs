//! The session: loaded data or an error, the year on show, and the cursor over the grid.
use vstd::prelude::*;
use crate::contribution::{GraphQLResponse, Week, week_len};
use crate::date::{
    CalendarDate, MAX_YEAR, MIN_YEAR, date_from_ymd, iso_string, iso_text, valid_ymd,
};
use crate::github::{query_for, query_text};

verus! {

/// Milliseconds of idle time after which the current year is fetched again.
pub const REFRESH_INTERVAL_MS: u64 = 300000;

/// Outcome of the latest fetch.
pub enum AppState {
    Loaded(GraphQLResponse),
    Error(String),
}

/// A selected cell: the week (column) and the day within it (row).
#[derive(Debug, Clone, Copy, PartialEq, Eq, Structural)]
pub struct Cursor {
    pub week: usize,
    pub day: usize,
}

/// The weeks that a state offers; none when the fetch failed.
pub open spec fn state_weeks(s: AppState) -> Seq<Week> {
    match s {
        AppState::Loaded(r) => r.weeks(),
        AppState::Error(_) => Seq::empty(),
    }
}

/// `n - 1`, or zero for an empty run.
pub open spec fn last_index(n: int) -> int {
    if n <= 0 {
        0
    } else {
        n - 1
    }
}

/// Days in week `w`, or zero past the last week.
pub open spec fn day_count(weeks: Seq<Week>, w: int) -> int {
    if 0 <= w < weeks.len() {
        week_len(weeks, w)
    } else {
        0
    }
}

pub open spec fn min_int(a: int, b: int) -> int {
    if a <= b {
        a
    } else {
        b
    }
}

/// The cursor stands on a real week, and on one of its days (on row zero of
/// a week that holds none); on an empty grid it rests at the origin.
pub open spec fn cursor_in_grid(weeks: Seq<Week>, c: Cursor) -> bool {
    if weeks.len() == 0 {
        c.week == 0 && c.day == 0
    } else {
        c.week < weeks.len() && c.day <= last_index(week_len(weeks, c.week as int))
    }
}

/// Position `(w, d)` holds a day.
pub open spec fn is_cell(weeks: Seq<Week>, w: int, d: int) -> bool {
    0 <= w < weeks.len() && 0 <= d < week_len(weeks, w)
}

/// The date text stored at `(w, d)`.
pub open spec fn date_at(weeks: Seq<Week>, w: int, d: int) -> Seq<char> {
    weeks[w].contribution_days@[d].date@
}

/// `(w1, d1)` comes before `(w2, d2)` when weeks are read in order, then days.
pub open spec fn before(w1: int, d1: int, w2: int, d2: int) -> bool {
    w1 < w2 || (w1 == w2 && d1 < d2)
}

pub open spec fn holds_date(weeks: Seq<Week>, target: Seq<char>, w: int, d: int) -> bool {
    is_cell(weeks, w, d) && date_at(weeks, w, d) == target
}

/// The last day of the last week, or the origin for an empty grid.
pub open spec fn fallback_cursor(weeks: Seq<Week>) -> (int, int) {
    if weeks.len() == 0 {
        (0, 0)
    } else {
        (weeks.len() - 1, last_index(week_len(weeks, weeks.len() - 1)))
    }
}

/// Where the cursor goes for `target`: its first occurrence in reading order,
/// else the fallback.
pub open spec fn resolves_to(weeks: Seq<Week>, target: Seq<char>, c: Cursor) -> bool {
    if exists|w: int, d: int| holds_date(weeks, target, w, d) {
        &&& holds_date(weeks, target, c.week as int, c.day as int)
        &&& forall|w: int, d: int|
            holds_date(weeks, target, w, d) ==> !before(w, d, c.week as int, c.day as int)
    } else {
        (c.week as int, c.day as int) == fallback_cursor(weeks)
    }
}

/// The date the cursor is anchored to when `year` is shown on `today`: today
/// itself in the current year, else the same month and day, else December 31.
pub open spec fn target_date(year: int, today: CalendarDate) -> CalendarDate {
    if year == today.year {
        today
    } else if valid_ymd(year, today.month as int, today.day as int) {
        CalendarDate { year: year as i32, month: today.month, day: today.day }
    } else {
        CalendarDate { year: year as i32, month: 12, day: 31 }
    }
}

/// The state that a fetch outcome leads to.
pub open spec fn state_of(fetched: Result<GraphQLResponse, String>) -> AppState {
    match fetched {
        Ok(r) => AppState::Loaded(r),
        Err(e) => AppState::Error(e),
    }
}

/// Milliseconds from `since` to `now`; zero if the clock reads earlier.
pub open spec fn elapsed(since: u64, now: u64) -> int {
    if now >= since {
        now - since
    } else {
        0
    }
}

/// The cursor one week back, its day kept within the new week; unchanged at
/// the first week and on an empty grid.
pub open spec fn cursor_left(weeks: Seq<Week>, c: Cursor) -> Cursor {
    if weeks.len() > 0 && c.week > 0 {
        Cursor {
            week: (c.week - 1) as usize,
            day: min_int(c.day as int, last_index(day_count(weeks, c.week - 1))) as usize,
        }
    } else {
        c
    }
}

/// The cursor one week on, its day kept within the new week; unchanged at
/// the last week (so also on an empty grid).
pub open spec fn cursor_right(weeks: Seq<Week>, c: Cursor) -> Cursor {
    if c.week + 1 < weeks.len() {
        Cursor {
            week: (c.week + 1) as usize,
            day: min_int(c.day as int, last_index(day_count(weeks, c.week + 1))) as usize,
        }
    } else {
        c
    }
}

/// The cursor one day up; unchanged on the first day and on an empty grid.
pub open spec fn cursor_up(weeks: Seq<Week>, c: Cursor) -> Cursor {
    if weeks.len() > 0 && c.day > 0 {
        Cursor { week: c.week, day: (c.day - 1) as usize }
    } else {
        c
    }
}

/// The cursor one day down; unchanged on the week's last day (so also on an
/// empty grid, where every week counts zero days).
pub open spec fn cursor_down(weeks: Seq<Week>, c: Cursor) -> Cursor {
    if c.day < last_index(day_count(weeks, c.week as int)) {
        Cursor { week: c.week, day: (c.day + 1) as usize }
    } else {
        c
    }
}

/// The session as a whole.
pub struct App {
    pub state: AppState,
    pub should_quit: bool,
    pub show_help: bool,
    pub year: i32,
    pub cursor: Cursor,
    /// The login asked for, or none for the authenticated viewer.
    pub username: Option<String>,
    /// Time of the latest fetch, in milliseconds of a monotonic clock.
    pub last_fetch: u64,
}

impl App {
    /// The cursor invariant.
    pub open spec fn wf(&self) -> bool {
        cursor_in_grid(state_weeks(self.state), self.cursor)
    }

    /// Both sessions agree on everything but the cursor.
    pub open spec fn same_but_cursor(&self, other: &App) -> bool {
        &&& self.state == other.state
        &&& self.should_quit == other.should_quit
        &&& self.show_help == other.show_help
        &&& self.year == other.year
        &&& self.last_fetch == other.last_fetch
        &&& self.username == other.username
    }

    /// A session for `today`'s year, built from the outcome of its first fetch,
    /// made at `now`.
    pub fn new(
        username: Option<String>,
        today: CalendarDate,
        fetched: Result<GraphQLResponse, String>,
        now: u64,
    ) -> (r: App)
        requires
            today.wf(),
        ensures
            r.state == state_of(fetched),
            r.year == today.year,
            r.username == username,
            r.last_fetch == now,
            !r.show_help,
            !r.should_quit,
            r.wf(),
            resolves_to(
                state_weeks(r.state),
                iso_text(today),
                r.cursor,
            ),
    {
        let state = match fetched {
            Ok(response) => AppState::Loaded(response),
            Err(e) => AppState::Error(e),
        };
        let target = Self::target_date_for_year(today.year, today);
        let cursor = Self::cursor_for_today(&state, &target);
        App {
            state,
            should_quit: false,
            show_help: false,
            year: today.year,
            cursor,
            username,
            last_fetch: now,
        }
    }

    /// The date text the cursor looks for when `year` is shown on `today`.
    pub fn target_date_for_year(year: i32, today: CalendarDate) -> (r: String)
        requires
            today.wf(),
            MIN_YEAR <= year <= MAX_YEAR,
        ensures
            r@ == iso_text(target_date(year as int, today)),
    {
        if year == today.year {
            iso_string(today)
        } else {
            let target = match date_from_ymd(year, today.month, today.day) {
                Some(d) => d,
                None => {
                    let last = date_from_ymd(year, 12, 31);
                    last.unwrap()
                },
            };
            iso_string(target)
        }
    }

    /// Takes in the outcome of a fetch made at `now` for the year on show:
    /// the state is replaced whole and the cursor anchored afresh.
    pub fn refresh(&mut self, fetched: Result<GraphQLResponse, String>, today: CalendarDate, now: u64)
        requires
            today.wf(),
            MIN_YEAR <= old(self).year <= MAX_YEAR,
        ensures
            final(self).state == state_of(fetched),
            final(self).last_fetch == now,
            final(self).year == old(self).year,
            final(self).username == old(self).username,
            final(self).show_help == old(self).show_help,
            final(self).should_quit == old(self).should_quit,
            final(self).wf(),
            resolves_to(
                state_weeks(final(self).state),
                iso_text(target_date(old(self).year as int, today)),
                final(self).cursor,
            ),
    {
        self.state = match fetched {
            Ok(response) => AppState::Loaded(response),
            Err(e) => AppState::Error(e),
        };
        let target = Self::target_date_for_year(self.year, today);
        self.cursor = Self::cursor_for_today(&self.state, &target);
        self.last_fetch = now;
    }

    /// The query that fetches the year on show for the selected user.
    pub fn fetch_query(&self) -> (r: String)
        ensures
            r@ == query_text(
                match self.username {
                    Some(l) => Some(l@),
                    None => None,
                },
                self.year as int,
            ),
    {
        query_for(&self.username, self.year)
    }

    /// Steps back one year; the caller then fetches it and hands the outcome to `refresh`.
    pub fn previous_year(&mut self)
        requires
            old(self).year > i32::MIN,
        ensures
            final(self).year == old(self).year - 1,
            final(self).state == old(self).state,
            final(self).cursor == old(self).cursor,
            final(self).username == old(self).username,
            final(self).show_help == old(self).show_help,
            final(self).should_quit == old(self).should_quit,
            final(self).last_fetch == old(self).last_fetch,
    {
        self.year = self.year - 1;
    }

    /// Steps on one year unless that would pass `current_year`; true when it
    /// stepped, and the new year is then to be fetched.
    pub fn next_year(&mut self, current_year: i32) -> (fetch: bool)
        ensures
            fetch == (old(self).year < current_year),
            !fetch ==> *final(self) == *old(self),
            fetch ==> {
                &&& final(self).year == old(self).year + 1
                &&& final(self).state == old(self).state
                &&& final(self).cursor == old(self).cursor
                &&& final(self).username == old(self).username
                &&& final(self).show_help == old(self).show_help
                &&& final(self).should_quit == old(self).should_quit
                &&& final(self).last_fetch == old(self).last_fetch
            },
    {
        if self.year < current_year {
            self.year = self.year + 1;
            true
        } else {
            false
        }
    }

    /// Polled on every turn of the event loop. Once the refresh interval has
    /// passed since the last fetch, the current year is due for a fetch (the
    /// answer is true, and `refresh` takes in the outcome); a past year only
    /// has its timer restarted. Before that nothing changes.
    pub fn check_auto_refresh(&mut self, now: u64, current_year: i32) -> (fetch: bool)
        ensures
            fetch == (elapsed(old(self).last_fetch, now) >= REFRESH_INTERVAL_MS
                && old(self).year == current_year),
            elapsed(old(self).last_fetch, now) < REFRESH_INTERVAL_MS ==> *final(self) == *old(self),
            fetch ==> *final(self) == *old(self),
            elapsed(old(self).last_fetch, now) >= REFRESH_INTERVAL_MS && old(self).year
                != current_year ==> {
                &&& final(self).last_fetch == now
                &&& final(self).state == old(self).state
                &&& final(self).cursor == old(self).cursor
                &&& final(self).year == old(self).year
                &&& final(self).username == old(self).username
                &&& final(self).show_help == old(self).show_help
                &&& final(self).should_quit == old(self).should_quit
            },
    {
        let waited = if now >= self.last_fetch {
            now - self.last_fetch
        } else {
            0
        };
        if waited >= REFRESH_INTERVAL_MS {
            if self.year == current_year {
                return true;
            } else {
                self.last_fetch = now;
            }
        }
        false
    }

    /// The first cell in reading order whose date is `target`; else the last
    /// day of the last week; the origin when nothing is loaded.
    pub fn cursor_for_today(state: &AppState, target: &String) -> (r: Cursor)
        ensures
            resolves_to(state_weeks(*state), target@, r),
            cursor_in_grid(state_weeks(*state), r),
    {
        match state {
            AppState::Loaded(response) => {
                let weeks = response.weeks_ref();
                let ghost ws = weeks@;
                let mut wi: usize = 0;
                while wi < weeks.len()
                    invariant
                        ws == weeks@,
                        ws == state_weeks(*state),
                        wi <= ws.len(),
                        forall|w: int, d: int| w < wi ==> !holds_date(ws, target@, w, d),
                    decreases ws.len() - wi,
                {
                    let days = &weeks[wi].contribution_days;
                    let mut di: usize = 0;
                    while di < days.len()
                        invariant
                            ws == weeks@,
                            ws == state_weeks(*state),
                            wi < ws.len(),
                            days@ == ws[wi as int].contribution_days@,
                            di <= days@.len(),
                            forall|w: int, d: int| w < wi ==> !holds_date(ws, target@, w, d),
                            forall|d: int| d < di ==> !holds_date(ws, target@, wi as int, d),
                        decreases days@.len() - di,
                    {
                        if days[di].date == *target {
                            let r = Cursor { week: wi, day: di };
                            assert(holds_date(ws, target@, wi as int, di as int));
                            return r;
                        }
                        di += 1;
                    }
                    wi += 1;
                }
                assert(!exists|w: int, d: int| holds_date(ws, target@, w, d));
                if weeks.len() == 0 {
                    Cursor { week: 0, day: 0 }
                } else {
                    let week = weeks.len() - 1;
                    let n = weeks[week].contribution_days.len();
                    let day = if n == 0 {
                        0
                    } else {
                        n - 1
                    };
                    Cursor { week, day }
                }
            },
            AppState::Error(_) => Cursor { week: 0, day: 0 },
        }
    }

    /// Flips the help overlay.
    pub fn toggle_help(&mut self)
        ensures
            final(self).show_help == !old(self).show_help,
            final(self).state == old(self).state,
            final(self).cursor == old(self).cursor,
            final(self).year == old(self).year,
            final(self).should_quit == old(self).should_quit,
            final(self).last_fetch == old(self).last_fetch,
            final(self).username == old(self).username,
    {
        self.show_help = !self.show_help;
    }

    /// Number of weeks on show; zero when the fetch failed.
    fn weeks_count(&self) -> (r: usize)
        ensures
            r == state_weeks(self.state).len(),
    {
        match &self.state {
            AppState::Loaded(r) => r.weeks_ref().len(),
            AppState::Error(_) => 0,
        }
    }

    /// Number of days in week `week`; zero past the last week or when the fetch failed.
    fn days_in_week(&self, week: usize) -> (r: usize)
        ensures
            r == day_count(state_weeks(self.state), week as int),
    {
        match &self.state {
            AppState::Loaded(r) => {
                let weeks = r.weeks_ref();
                if week < weeks.len() {
                    weeks[week].contribution_days.len()
                } else {
                    0
                }
            },
            AppState::Error(_) => 0,
        }
    }

    /// One week back, keeping the day within the new week; nothing at the first
    /// week, on an empty grid, or when the fetch failed.
    pub fn move_left(&mut self)
        ensures
            state_weeks(old(self).state).len() == 0 ==> *final(self) == *old(self),
            final(self).same_but_cursor(old(self)),
            final(self).cursor == cursor_left(state_weeks(old(self).state), old(self).cursor),
            old(self).cursor.week == 0 ==> *final(self) == *old(self),
            old(self).wf() ==> final(self).wf(),
    {
        if self.weeks_count() > 0 && self.cursor.week > 0 {
            self.cursor.week = self.cursor.week - 1;
            let n = self.days_in_week(self.cursor.week);
            let max_day = if n == 0 {
                0
            } else {
                n - 1
            };
            if max_day < self.cursor.day {
                self.cursor.day = max_day;
            }
        }
    }

    /// One week on, keeping the day within the new week; nothing at the last
    /// week, on an empty grid, or when the fetch failed.
    pub fn move_right(&mut self)
        ensures
            state_weeks(old(self).state).len() == 0 ==> *final(self) == *old(self),
            final(self).same_but_cursor(old(self)),
            final(self).cursor == cursor_right(state_weeks(old(self).state), old(self).cursor),
            old(self).cursor.week + 1 >= state_weeks(old(self).state).len() ==> *final(self)
                == *old(self),
            old(self).wf() ==> final(self).wf(),
    {
        let count = self.weeks_count();
        if count > 0 && self.cursor.week < count - 1 {
            self.cursor.week = self.cursor.week + 1;
            let n = self.days_in_week(self.cursor.week);
            let max_day = if n == 0 {
                0
            } else {
                n - 1
            };
            if max_day < self.cursor.day {
                self.cursor.day = max_day;
            }
        }
    }

    /// One day up within the week; nothing on the first day, on an empty grid,
    /// or when the fetch failed.
    pub fn move_up(&mut self)
        ensures
            state_weeks(old(self).state).len() == 0 ==> *final(self) == *old(self),
            final(self).same_but_cursor(old(self)),
            final(self).cursor == cursor_up(state_weeks(old(self).state), old(self).cursor),
            old(self).cursor.day == 0 ==> *final(self) == *old(self),
            old(self).wf() ==> final(self).wf(),
    {
        if self.weeks_count() > 0 && self.cursor.day > 0 {
            self.cursor.day = self.cursor.day - 1;
        }
    }

    /// One day down within the week; nothing on the week's last day, on an
    /// empty grid, or when the fetch failed.
    pub fn move_down(&mut self)
        ensures
            state_weeks(old(self).state).len() == 0 ==> *final(self) == *old(self),
            final(self).same_but_cursor(old(self)),
            final(self).cursor == cursor_down(state_weeks(old(self).state), old(self).cursor),
            old(self).cursor.day >= last_index(
                day_count(state_weeks(old(self).state), old(self).cursor.week as int),
            ) ==> *final(self) == *old(self),
            old(self).wf() ==> final(self).wf(),
    {
        let n = self.days_in_week(self.cursor.week);
        let max_day = if n == 0 {
            0
        } else {
            n - 1
        };
        if self.cursor.day < max_day {
            self.cursor.day = self.cursor.day + 1;
        }
    }
}

/// Under the cursor invariant, on a loaded grid whose weeks all hold days,
/// the cursor stands on a day.
pub proof fn lemma_cursor_on_day(app: App)
    requires
        app.wf(),
        state_weeks(app.state).len() > 0,
        forall|w: int| 0 <= w < state_weeks(app.state).len() ==> week_len(state_weeks(app.state), w) > 0,
    ensures
        is_cell(state_weeks(app.state), app.cursor.week as int, app.cursor.day as int),
{
}

} // verus!
