//! One year of contribution data, laid out as weeks of days.
use vstd::prelude::*;

verus! {

/// The whole reply of the data source.
pub struct GraphQLResponse {
    pub data: Data,
}

/// The reply's payload; the user sits under `viewer` or `user`.
pub struct Data {
    pub user: User,
}

pub struct User {
    pub login: String,
    pub contributions_collection: ContributionsCollection,
}

pub struct ContributionsCollection {
    pub contribution_calendar: ContributionCalendar,
}

pub struct ContributionCalendar {
    pub total_contributions: u32,
    pub weeks: Vec<Week>,
}

/// A column of the grid: up to seven consecutive days.
pub struct Week {
    pub contribution_days: Vec<ContributionDay>,
}

pub struct ContributionDay {
    pub contribution_count: u32,
    /// The day in `YYYY-MM-DD` form.
    pub date: String,
    pub contribution_level: ContributionLevel,
}

/// Quartile bucket of a day's activity, as supplied by the data source.
#[derive(Debug, Clone, Copy, PartialEq, Eq, Structural)]
pub enum ContributionLevel {
    NoActivity,
    FirstQuartile,
    SecondQuartile,
    ThirdQuartile,
    FourthQuartile,
}

/// The colour ramp, from the neutral tone of an idle day to the brightest green.
pub open spec fn level_rgb(level: ContributionLevel) -> (u8, u8, u8) {
    match level {
        ContributionLevel::NoActivity => (22, 27, 34),
        ContributionLevel::FirstQuartile => (14, 68, 41),
        ContributionLevel::SecondQuartile => (0, 109, 50),
        ContributionLevel::ThirdQuartile => (38, 166, 65),
        ContributionLevel::FourthQuartile => (57, 211, 83),
    }
}

impl ContributionLevel {
    /// The cell colour of this level, as red, green and blue.
    pub fn to_color(self) -> (r: (u8, u8, u8))
        ensures
            r == level_rgb(self),
    {
        match self {
            ContributionLevel::NoActivity => (22, 27, 34),
            ContributionLevel::FirstQuartile => (14, 68, 41),
            ContributionLevel::SecondQuartile => (0, 109, 50),
            ContributionLevel::ThirdQuartile => (38, 166, 65),
            ContributionLevel::FourthQuartile => (57, 211, 83),
        }
    }
}

impl GraphQLResponse {
    /// The weeks of the calendar, in order.
    pub open spec fn weeks(&self) -> Seq<Week> {
        self.data.user.contributions_collection.contribution_calendar.weeks@
    }

    /// The weeks of the calendar.
    pub fn weeks_ref(&self) -> (r: &Vec<Week>)
        ensures
            r@ == self.weeks(),
    {
        &self.data.user.contributions_collection.contribution_calendar.weeks
    }
}

/// Number of days held by week `w`.
pub open spec fn week_len(weeks: Seq<Week>, w: int) -> int {
    weeks[w].contribution_days@.len() as int
}

} // verus!
