use octui::app::{App, AppState, Cursor, REFRESH_INTERVAL_MS};
use octui::contribution::{
    ContributionCalendar, ContributionDay, ContributionLevel, ContributionsCollection, Data,
    GraphQLResponse, User, Week,
};
use octui::date::CalendarDate;
use octui::event::{handle_key, Command, KeyCode, KeyPress};
use octui::github::{user_query, viewer_query};
use octui::layout::{
    calculate_month_positions, classify_cell, contribution_phrase, format_day_info,
    get_selected_day, month_anchors, month_label_gaps, selected_status, title_line, CellStyle,
};

fn day(date: &str, count: u32) -> ContributionDay {
    ContributionDay {
        contribution_count: count,
        date: date.to_string(),
        contribution_level: ContributionLevel::NoActivity,
    }
}

fn week(dates: &[&str]) -> Week {
    Week { contribution_days: dates.iter().map(|d| day(d, 0)).collect() }
}

fn response(weeks: Vec<Week>) -> GraphQLResponse {
    GraphQLResponse {
        data: Data {
            user: User {
                login: "octocat".to_string(),
                contributions_collection: ContributionsCollection {
                    contribution_calendar: ContributionCalendar { total_contributions: 42, weeks },
                },
            },
        },
    }
}

fn numbered_week(w: usize, n: usize) -> Week {
    Week { contribution_days: (0..n).map(|d| day(&format!("x-{w}-{d}"), 0)).collect() }
}

/// Eleven weeks, the last holding 2024-03-15 on its sixth day.
fn grid_with_march_fifteenth() -> Vec<Week> {
    let mut weeks: Vec<Week> = (0..10).map(|w| numbered_week(w, 7)).collect();
    weeks.push(week(&[
        "2024-03-10", "2024-03-11", "2024-03-12", "2024-03-13", "2024-03-14", "2024-03-15",
        "2024-03-16",
    ]));
    weeks
}

fn jagged() -> Vec<Week> {
    vec![numbered_week(0, 2), numbered_week(1, 7), numbered_week(2, 7), numbered_week(3, 3)]
}

fn today() -> CalendarDate {
    CalendarDate { year: 2024, month: 3, day: 15 }
}

fn loaded_app(weeks: Vec<Week>) -> App {
    App::new(None, today(), Ok(response(weeks)), 0)
}

fn key(c: char) -> KeyPress {
    KeyPress { code: KeyCode::Char(c), ctrl: false }
}

#[test]
fn cursor_for_today_finds_exact_position() {
    let state = AppState::Loaded(response(grid_with_march_fifteenth()));
    let c = App::cursor_for_today(&state, &"2024-03-15".to_string());
    assert_eq!(c, Cursor { week: 10, day: 5 });
}

#[test]
fn cursor_for_today_falls_back_to_last_day() {
    let state = AppState::Loaded(response(jagged()));
    let c = App::cursor_for_today(&state, &"1999-01-01".to_string());
    assert_eq!(c, Cursor { week: 3, day: 2 });
}

#[test]
fn cursor_for_today_empty_and_error() {
    let empty = AppState::Loaded(response(vec![]));
    assert_eq!(App::cursor_for_today(&empty, &"2024-03-15".to_string()), Cursor { week: 0, day: 0 });
    let failed = AppState::Error("boom".to_string());
    assert_eq!(App::cursor_for_today(&failed, &"2024-03-15".to_string()), Cursor { week: 0, day: 0 });
}

#[test]
fn new_places_cursor_on_today() {
    let app = loaded_app(grid_with_march_fifteenth());
    assert_eq!(app.cursor, Cursor { week: 10, day: 5 });
    assert_eq!(app.year, 2024);
    assert!(!app.show_help);
}

#[test]
fn new_with_failed_fetch_is_error_state() {
    let app = App::new(Some("someone".to_string()), today(), Err("gh failed".to_string()), 0);
    assert!(matches!(app.state, AppState::Error(ref m) if m == "gh failed"));
    assert_eq!(app.cursor, Cursor { week: 0, day: 0 });
}

#[test]
fn move_left_and_right_stop_at_edges() {
    let mut app = loaded_app(jagged());
    app.cursor = Cursor { week: 0, day: 1 };
    app.move_left();
    assert_eq!(app.cursor, Cursor { week: 0, day: 1 });
    app.cursor = Cursor { week: 3, day: 1 };
    app.move_right();
    assert_eq!(app.cursor, Cursor { week: 3, day: 1 });
}

#[test]
fn move_up_and_down_stop_at_edges() {
    let mut app = loaded_app(jagged());
    app.cursor = Cursor { week: 1, day: 0 };
    app.move_up();
    assert_eq!(app.cursor, Cursor { week: 1, day: 0 });
    app.cursor = Cursor { week: 1, day: 6 };
    app.move_down();
    assert_eq!(app.cursor, Cursor { week: 1, day: 6 });
    app.move_up();
    assert_eq!(app.cursor, Cursor { week: 1, day: 5 });
    app.move_down();
    assert_eq!(app.cursor, Cursor { week: 1, day: 6 });
}

#[test]
fn moving_into_shorter_week_clamps_day() {
    let mut app = loaded_app(jagged());
    app.cursor = Cursor { week: 1, day: 6 };
    app.move_left();
    assert_eq!(app.cursor, Cursor { week: 0, day: 1 });
    app.cursor = Cursor { week: 2, day: 5 };
    app.move_right();
    assert_eq!(app.cursor, Cursor { week: 3, day: 2 });
    app.move_left();
    assert_eq!(app.cursor, Cursor { week: 2, day: 2 });
}

#[test]
fn moves_do_nothing_in_error_state() {
    let mut app = App::new(None, today(), Err("down".to_string()), 0);
    app.move_right();
    app.move_down();
    app.move_left();
    app.move_up();
    assert_eq!(app.cursor, Cursor { week: 0, day: 0 });
}

#[test]
fn next_year_stops_at_current_year() {
    let mut app = loaded_app(jagged());
    assert!(!app.next_year(2024));
    assert_eq!(app.year, 2024);
    app.previous_year();
    assert_eq!(app.year, 2023);
    assert!(app.next_year(2024));
    assert_eq!(app.year, 2024);
}

#[test]
fn previous_year_key_decrements_and_fetches() {
    let mut app = loaded_app(jagged());
    assert_eq!(handle_key(&mut app, key('p'), 2024), Command::Fetch);
    assert_eq!(app.year, 2023);
    assert!(app.fetch_query().contains("from: \"2023-01-01T00:00:00Z\""));
    app.refresh(Err("offline".to_string()), today(), 10);
    assert!(matches!(app.state, AppState::Error(_)));
    assert_eq!(handle_key(&mut app, key('n'), 2024), Command::Fetch);
    assert_eq!(handle_key(&mut app, key('n'), 2024), Command::Continue);
    assert_eq!(app.year, 2024);
}

#[test]
fn keys_quit_help_and_move() {
    let mut app = loaded_app(jagged());
    app.cursor = Cursor { week: 1, day: 3 };
    assert_eq!(handle_key(&mut app, key('q'), 2024), Command::Quit);
    assert_eq!(handle_key(&mut app, KeyPress { code: KeyCode::Esc, ctrl: false }, 2024), Command::Quit);
    assert_eq!(handle_key(&mut app, KeyPress { code: KeyCode::Char('c'), ctrl: true }, 2024), Command::Quit);
    assert_eq!(handle_key(&mut app, key('c'), 2024), Command::Continue);
    assert_eq!(handle_key(&mut app, key('?'), 2024), Command::Continue);
    assert!(app.show_help);
    assert_eq!(handle_key(&mut app, key('q'), 2024), Command::Continue);
    assert!(!app.show_help);
    assert_eq!(handle_key(&mut app, key('l'), 2024), Command::Continue);
    assert_eq!(app.cursor, Cursor { week: 2, day: 3 });
    handle_key(&mut app, KeyPress { code: KeyCode::Down, ctrl: false }, 2024);
    assert_eq!(app.cursor, Cursor { week: 2, day: 4 });
    handle_key(&mut app, key('k'), 2024);
    handle_key(&mut app, key('h'), 2024);
    assert_eq!(app.cursor, Cursor { week: 1, day: 3 });
}

#[test]
fn toggle_help_flips() {
    let mut app = loaded_app(jagged());
    app.toggle_help();
    assert!(app.show_help);
    app.toggle_help();
    assert!(!app.show_help);
}

#[test]
fn auto_refresh_waits_for_interval() {
    let mut app = App::new(None, today(), Ok(response(jagged())), 1000);
    app.cursor = Cursor { week: 1, day: 4 };
    assert!(!app.check_auto_refresh(1000 + REFRESH_INTERVAL_MS - 1, 2024));
    assert_eq!(app.cursor, Cursor { week: 1, day: 4 });
    assert!(matches!(app.state, AppState::Loaded(_)));
    assert!(app.check_auto_refresh(1000 + REFRESH_INTERVAL_MS, 2024));
}

#[test]
fn auto_refresh_of_past_year_only_restarts_timer() {
    let mut app = App::new(None, today(), Ok(response(jagged())), 0);
    app.previous_year();
    assert!(!app.check_auto_refresh(REFRESH_INTERVAL_MS, 2024));
    assert!(!app.check_auto_refresh(REFRESH_INTERVAL_MS + 10, 2024));
    assert!(!app.check_auto_refresh(2 * REFRESH_INTERVAL_MS - 1, 2024));
    app.next_year(2024);
    assert!(app.check_auto_refresh(2 * REFRESH_INTERVAL_MS, 2024));
}

#[test]
fn contribution_phrases() {
    assert_eq!(contribution_phrase(0), "No contributions");
    assert_eq!(contribution_phrase(1), "1 contribution");
    assert_eq!(contribution_phrase(5), "5 contributions");
    assert_eq!(contribution_phrase(1207), "1207 contributions");
}

#[test]
fn day_info_for_parsed_and_unparsed_dates() {
    assert_eq!(format_day_info(&day("2024-03-15", 5)), "Friday, March 15, 2024 - 5 contributions");
    assert_eq!(format_day_info(&day("2023-01-01", 1)), "Sunday, January 01, 2023 - 1 contribution");
    assert_eq!(format_day_info(&day("not a date", 0)), "Unknown, not a date - No contributions");
}

#[test]
fn status_for_selected_day() {
    let weeks = grid_with_march_fifteenth();
    let cursor = Cursor { week: 10, day: 5 };
    assert_eq!(get_selected_day(&weeks, &cursor).unwrap().date, "2024-03-15");
    assert_eq!(selected_status(&weeks, &cursor), "Friday, March 15, 2024 - No contributions");
    assert_eq!(selected_status(&vec![], &Cursor { week: 0, day: 0 }), "");
    assert!(get_selected_day(&weeks, &Cursor { week: 11, day: 0 }).is_none());
}

#[test]
fn title_text() {
    assert_eq!(title_line("octocat", 1234, 2024), "octocat - 1234 contributions in 2024");
    assert_eq!(title_line("x", 0, -3), "x - 0 contributions in -3");
}

#[test]
fn target_date_same_day_or_year_end() {
    let leap = CalendarDate { year: 2024, month: 2, day: 29 };
    assert_eq!(App::target_date_for_year(2024, leap), "2024-02-29");
    assert_eq!(App::target_date_for_year(2023, leap), "2023-12-31");
    assert_eq!(App::target_date_for_year(2020, leap), "2020-02-29");
    assert_eq!(App::target_date_for_year(987, today()), "0987-03-15");
}

#[test]
fn refresh_for_past_year_anchors_same_day() {
    let mut app = App::new(None, today(), Err("x".to_string()), 0);
    app.previous_year();
    let weeks = vec![week(&["2023-03-14", "2023-03-15"]), week(&["2023-03-16"])];
    app.refresh(Ok(response(weeks)), today(), 77);
    assert_eq!(app.cursor, Cursor { week: 0, day: 1 });
}

fn year_weeks_2024() -> Vec<Week> {
    // Sundays of 2024 start each full week; the first week is partial.
    let mut weeks = vec![week(&["2024-01-01", "2024-01-02", "2024-01-03", "2024-01-04", "2024-01-05", "2024-01-06"])];
    let month_days = [31, 29, 31, 30, 31, 30, 31, 31, 30, 31, 30, 31];
    let (mut m, mut d) = (1usize, 7usize);
    while m <= 12 {
        weeks.push(week(&[&format!("2024-{:02}-{:02}", m, d)]));
        d += 7;
        if d > month_days[m - 1] {
            d -= month_days[m - 1];
            m += 1;
        }
    }
    weeks
}

#[test]
fn month_labels_of_a_year() {
    let weeks = year_weeks_2024();
    assert_eq!(weeks.len(), 53);
    let labels = calculate_month_positions(&weeks);
    assert_eq!(labels.len(), 12);
    assert_eq!(labels[0], (0, "Jan"));
    assert_eq!(labels[1], (5, "Feb"));
    assert_eq!(labels[2], (9, "Mar"));
    assert_eq!(labels[11], (48, "Dec"));
}

#[test]
fn month_labels_skip_empty_and_unparsed_weeks() {
    let weeks = vec![
        Week { contribution_days: vec![] },
        week(&["bogus"]),
        week(&["2024-05-05"]),
        week(&["2024-05-12"]),
        week(&["2024-06-02"]),
    ];
    assert_eq!(calculate_month_positions(&weeks), vec![(2, "May"), (4, "Jun")]);
}

#[test]
fn anchors_mark_transitions_only() {
    let months = vec![Some(1), Some(1), None, Some(2), Some(2), Some(1)];
    assert_eq!(month_anchors(&months), vec![(0, 1), (3, 2), (5, 1)]);
    assert_eq!(month_anchors(&vec![]), vec![]);
}

#[test]
fn cells_blank_filled_and_selected() {
    let mut weeks = jagged();
    weeks[1].contribution_days[2].contribution_level = ContributionLevel::ThirdQuartile;
    let cursor = Cursor { week: 1, day: 2 };
    assert_eq!(
        classify_cell(&weeks, &cursor, 1, 2),
        CellStyle::Filled { level: ContributionLevel::ThirdQuartile, selected: true }
    );
    assert_eq!(
        classify_cell(&weeks, &cursor, 1, 3),
        CellStyle::Filled { level: ContributionLevel::NoActivity, selected: false }
    );
    assert_eq!(classify_cell(&weeks, &cursor, 0, 5), CellStyle::Blank);
    assert_eq!(classify_cell(&weeks, &cursor, 9, 0), CellStyle::Blank);
}

#[test]
fn level_colours() {
    assert_eq!(ContributionLevel::NoActivity.to_color(), (22, 27, 34));
    assert_eq!(ContributionLevel::FirstQuartile.to_color(), (14, 68, 41));
    assert_eq!(ContributionLevel::SecondQuartile.to_color(), (0, 109, 50));
    assert_eq!(ContributionLevel::ThirdQuartile.to_color(), (38, 166, 65));
    assert_eq!(ContributionLevel::FourthQuartile.to_color(), (57, 211, 83));
}

const BODY: &str = "      contributionCalendar {\n        totalContributions\n        weeks {\n          contributionDays {\n            contributionCount\n            date\n            contributionLevel\n          }\n        }\n      }\n    }\n  }\n}";

#[test]
fn queries_name_the_year_window() {
    let expected = format!(
        "query {{\n  viewer {{\n    login\n    contributionsCollection(from: \"2023-01-01T00:00:00Z\", to: \"2023-12-31T23:59:59Z\") {{\n{BODY}"
    );
    assert_eq!(viewer_query(2023), expected);
    let expected = format!(
        "query {{\n  user(login: \"torvalds\") {{\n    login\n    contributionsCollection(from: \"2021-01-01T00:00:00Z\", to: \"2021-12-31T23:59:59Z\") {{\n{BODY}"
    );
    assert_eq!(user_query("torvalds", 2021), expected);
}

#[test]
fn label_gaps_leave_room_for_each_label() {
    assert_eq!(month_label_gaps(&vec![0, 5, 9, 13, 14]), vec![0, 3, 2, 2, 0]);
    assert_eq!(month_label_gaps(&vec![3]), vec![3]);
    assert_eq!(month_label_gaps(&vec![]), vec![]);
}

#[test]
fn moves_do_nothing_on_failed_fetch_even_off_origin() {
    let mut app = App::new(None, today(), Err("down".to_string()), 0);
    app.cursor = Cursor { week: 3, day: 2 };
    app.move_left();
    app.move_up();
    app.move_right();
    app.move_down();
    assert_eq!(app.cursor, Cursor { week: 3, day: 2 });
    let mut empty = loaded_app(vec![]);
    empty.cursor = Cursor { week: 1, day: 1 };
    empty.move_left();
    empty.move_up();
    assert_eq!(empty.cursor, Cursor { week: 1, day: 1 });
}

#[test]
fn target_date_outside_four_digit_years() {
    assert_eq!(App::target_date_for_year(-5, today()), "-0005-03-15");
    assert_eq!(App::target_date_for_year(10000, today()), "+10000-03-15");
    assert_eq!(App::target_date_for_year(0, today()), "0000-03-15");
}
