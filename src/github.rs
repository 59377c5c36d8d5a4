//! The GraphQL queries that ask the data source for one year of contributions.
use vstd::prelude::*;
use vstd::string::StringExecFns;
use crate::text::{push_signed, signed_decimal};

verus! {

/// Opening of the query for the authenticated viewer, up to the start year.
pub const VIEWER_OPEN: &'static str = "query {\n  viewer {\n    login\n    contributionsCollection(from: \"";

/// Opening of the query for a named user, up to the login.
pub const USER_OPEN: &'static str = "query {\n  user(login: \"";

/// From the login up to the start year.
pub const USER_AFTER_LOGIN: &'static str = "\") {\n    login\n    contributionsCollection(from: \"";

/// Between the two years of the window.
pub const WINDOW_MIDDLE: &'static str = "-01-01T00:00:00Z\", to: \"";

/// From the end year to the close of the query.
pub const WINDOW_TAIL: &'static str = "-12-31T23:59:59Z\") {\n      contributionCalendar {\n        totalContributions\n        weeks {\n          contributionDays {\n            contributionCount\n            date\n            contributionLevel\n          }\n        }\n      }\n    }\n  }\n}";

/// The window from the first to the last second of `year`, and the fields asked for.
pub open spec fn window_text(year: int) -> Seq<char> {
    signed_decimal(year) + WINDOW_MIDDLE@ + signed_decimal(year) + WINDOW_TAIL@
}

pub open spec fn viewer_query_text(year: int) -> Seq<char> {
    VIEWER_OPEN@ + window_text(year)
}

pub open spec fn user_query_text(login: Seq<char>, year: int) -> Seq<char> {
    USER_OPEN@ + login + USER_AFTER_LOGIN@ + window_text(year)
}

/// The query for a login, or for the authenticated viewer when there is none.
pub open spec fn query_text(username: Option<Seq<char>>, year: int) -> Seq<char> {
    match username {
        Some(login) => user_query_text(login, year),
        None => viewer_query_text(year),
    }
}

fn push_window(s: &mut String, year: i32)
    ensures
        final(s)@ == old(s)@ + window_text(year as int),
{
    push_signed(s, year as i64);
    s.append(WINDOW_MIDDLE);
    push_signed(s, year as i64);
    s.append(WINDOW_TAIL);
    assert(final(s)@ =~= old(s)@ + window_text(year as int));
}

/// The calendar of the authenticated viewer for `year`.
pub fn viewer_query(year: i32) -> (r: String)
    ensures
        r@ == viewer_query_text(year as int),
{
    let mut s = String::from_str(VIEWER_OPEN);
    push_window(&mut s, year);
    assert(s@ =~= viewer_query_text(year as int));
    s
}

/// The calendar of user `login` for `year`.
pub fn user_query(login: &str, year: i32) -> (r: String)
    ensures
        r@ == user_query_text(login@, year as int),
{
    let mut s = String::from_str(USER_OPEN);
    s.append(login);
    s.append(USER_AFTER_LOGIN);
    push_window(&mut s, year);
    assert(s@ =~= user_query_text(login@, year as int));
    s
}

/// The query for `username`, or for the authenticated viewer when it is `None`.
pub fn query_for(username: &Option<String>, year: i32) -> (r: String)
    ensures
        r@ == query_text(
            match username {
                Some(l) => Some(l@),
                None => None,
            },
            year as int,
        ),
{
    match username {
        Some(login) => user_query(login.as_str(), year),
        None => viewer_query(year),
    }
}

} // verus!
