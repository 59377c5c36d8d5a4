//! What a frame shows, derived from the calendar and the cursor: month labels,
//! cell styles, the title and the status line.
use vstd::prelude::*;
use vstd::string::StringExecFns;
use crate::app::{Cursor, is_cell};
use crate::contribution::{ContributionDay, ContributionLevel, Week};
use crate::date::{
    CalendarDate, long_string, long_text, parse_date, parsed_ymd, weekday_from_sunday,
    weekday_index,
};
use crate::text::{decimal, push_decimal, push_signed, signed_decimal};

verus! {

/// The month of a week's first day, if the week has one and its date parses.
pub open spec fn first_month(w: Week) -> Option<u32> {
    if w.contribution_days@.len() == 0 {
        None
    } else {
        match parsed_ymd(w.contribution_days@[0].date@) {
            Some(t) => Some(t.1 as u32),
            None => None,
        }
    }
}

/// Label anchors for a run of week months: a `(week, month)` pair wherever
/// the month differs from the one last labelled. Weeks without a month are passed over.
pub open spec fn anchors(ms: Seq<Option<u32>>) -> Seq<(usize, u32)>
    decreases ms.len(),
{
    if ms.len() == 0 {
        Seq::empty()
    } else {
        let prev = anchors(ms.drop_last());
        match ms.last() {
            Some(m) => if prev.len() == 0 || prev.last().1 != m {
                prev.push(((ms.len() - 1) as usize, m))
            } else {
                prev
            },
            None => prev,
        }
    }
}

/// Every month is a real one.
pub open spec fn months_valid(ms: Seq<Option<u32>>) -> bool {
    forall|i: int| 0 <= i < ms.len() && #[trigger] ms[i] is Some ==> 1 <= ms[i]->0 <= 12
}

/// The months never go back, as over the weeks of one year.
pub open spec fn months_ascending(ms: Seq<Option<u32>>) -> bool {
    forall|i: int, j: int|
        0 <= i < j < ms.len() && #[trigger] ms[i] is Some && #[trigger] ms[j] is Some ==> ms[i]->0
            <= ms[j]->0
}

/// The months of a year's weeks: real months that never go back.
pub open spec fn months_in_order(ms: Seq<Option<u32>>) -> bool {
    &&& months_valid(ms)
    &&& months_ascending(ms)
}

/// Anchors are real months when the inputs are.
pub proof fn lemma_anchor_months_valid(ms: Seq<Option<u32>>)
    requires
        months_valid(ms),
    ensures
        forall|k: int| 0 <= k < anchors(ms).len() ==> 1 <= #[trigger] anchors(ms)[k].1 <= 12,
    decreases ms.len(),
{
    if ms.len() > 0 {
        let p = ms.drop_last();
        assert forall|i: int| 0 <= i < p.len() && #[trigger] p[i] is Some implies 1 <= p[i]->0
            <= 12 by {
            assert(ms[i] is Some);
        }
        lemma_anchor_months_valid(p);
        let a = anchors(p);
        let b = anchors(ms);
        assert(ms.last() == ms[ms.len() - 1]);
        if ms[ms.len() - 1] is Some {
            assert(1 <= ms.last()->0 <= 12);
        }
        assert forall|k: int| 0 <= k < b.len() implies 1 <= #[trigger] b[k].1 <= 12 by {
            if k < a.len() {
                assert(b[k] == a[k]);
            }
        }
    }
}

proof fn lemma_anchor_facts(ms: Seq<Option<u32>>)
    requires
        months_in_order(ms),
        ms.len() <= usize::MAX,
    ensures
        forall|k: int|
            0 <= k < anchors(ms).len() ==> {
                &&& (#[trigger] anchors(ms)[k]).1 >= k + 1
                &&& anchors(ms)[k].1 <= 12
                &&& anchors(ms)[k].0 < ms.len()
                &&& ms[anchors(ms)[k].0 as int] == Some(anchors(ms)[k].1)
                &&& forall|j: int|
                    0 <= j < anchors(ms)[k].0 ==> #[trigger] ms[j] != Some(anchors(ms)[k].1)
            },
        forall|j: int|
            0 <= j < ms.len() && #[trigger] ms[j] is Some ==> anchors(ms).len() > 0 && ms[j]->0
                <= anchors(ms).last().1,
    decreases ms.len(),
{
    if ms.len() > 0 {
        let p = ms.drop_last();
        assert forall|i: int| 0 <= i < p.len() && #[trigger] p[i] is Some implies 1 <= p[i]->0
            <= 12 by {
            assert(ms[i] is Some);
        }
        assert forall|i: int, j: int|
            0 <= i < j < p.len() && #[trigger] p[i] is Some && #[trigger] p[j] is Some implies p[i]->0
                <= p[j]->0 by {
            assert(ms[i] is Some && ms[j] is Some);
        }
        lemma_anchor_facts(p);
        let a = anchors(p);
        let n = ms.len() - 1;
        assert(ms[n] == ms.last());
        assert forall|j: int| 0 <= j < n implies #[trigger] ms[j] == p[j] by {}
        match ms.last() {
            Some(m) => {
                assert(1 <= m <= 12);
                if a.len() == 0 || a.last().1 != m {
                    if a.len() > 0 {
                        let w = a[a.len() - 1].0 as int;
                        assert(ms[w] == p[w]);
                        assert(p[w] is Some);
                        assert(ms[w] is Some && ms[n] is Some);
                        assert(a.last().1 <= m);
                    }
                    assert forall|j: int| 0 <= j < n implies #[trigger] ms[j] != Some(m) by {
                        if ms[j] is Some {
                            assert(p[j] is Some);
                        }
                    }
                    let b = anchors(ms);
                    assert(b == a.push((n as usize, m)));
                    assert forall|k: int| 0 <= k < b.len() implies {
                        &&& (#[trigger] b[k]).1 >= k + 1
                        &&& b[k].1 <= 12
                        &&& b[k].0 < ms.len()
                        &&& ms[b[k].0 as int] == Some(b[k].1)
                        &&& forall|j: int| 0 <= j < b[k].0 ==> #[trigger] ms[j] != Some(b[k].1)
                    } by {
                        if k < a.len() {
                            assert(b[k] == a[k]);
                            assert(ms[a[k].0 as int] == p[a[k].0 as int]);
                        }
                    }
                    assert forall|j: int| 0 <= j < ms.len() && #[trigger] ms[j] is Some implies anchors(
                        ms,
                    ).len() > 0 && ms[j]->0 <= anchors(ms).last().1 by {
                        if j < n {
                            assert(p[j] is Some);
                        }
                    }
                } else {
                    assert(anchors(ms) == a);
                    assert forall|k: int| 0 <= k < a.len() implies ms[a[k].0 as int] == Some(
                        a[k].1,
                    ) by {
                        assert(ms[a[k].0 as int] == p[a[k].0 as int]);
                    }
                    assert forall|j: int| 0 <= j < ms.len() && #[trigger] ms[j] is Some implies anchors(
                        ms,
                    ).len() > 0 && ms[j]->0 <= anchors(ms).last().1 by {
                        if j < n {
                            assert(p[j] is Some);
                        }
                    }
                }
            },
            None => {
                assert(anchors(ms) == a);
                assert forall|k: int| 0 <= k < a.len() implies ms[a[k].0 as int] == Some(a[k].1) by {
                    assert(ms[a[k].0 as int] == p[a[k].0 as int]);
                }
                assert forall|j: int| 0 <= j < ms.len() && #[trigger] ms[j] is Some implies anchors(
                    ms,
                ).len() > 0 && ms[j]->0 <= anchors(ms).last().1 by {
                    if j < n {
                        assert(p[j] is Some);
                    }
                }
            },
        }
    }
}

/// Over the weeks of one year, whose months never go back, there are at most
/// twelve month labels, and each stands at the first week that starts in its month.
pub proof fn lemma_month_labels(ms: Seq<Option<u32>>)
    requires
        months_in_order(ms),
        ms.len() <= usize::MAX,
    ensures
        anchors(ms).len() <= 12,
        forall|k: int|
            0 <= k < anchors(ms).len() ==> {
                &&& ms[(#[trigger] anchors(ms)[k]).0 as int] == Some(anchors(ms)[k].1)
                &&& forall|j: int| 0 <= j < anchors(ms)[k].0 ==> ms[j] != Some(anchors(ms)[k].1)
            },
{
    lemma_anchor_facts(ms);
    let a = anchors(ms);
    if a.len() > 0 {
        assert(a[a.len() - 1].1 >= a.len());
    }
}

/// The label anchors for a run of week months.
pub fn month_anchors(months: &Vec<Option<u32>>) -> (r: Vec<(usize, u32)>)
    ensures
        r@ == anchors(months@),
{
    let mut out: Vec<(usize, u32)> = Vec::new();
    let mut last: Option<u32> = None;
    let mut i: usize = 0;
    while i < months.len()
        invariant
            i <= months@.len(),
            out@ == anchors(months@.subrange(0, i as int)),
            last == (if out@.len() == 0 {
                None::<u32>
            } else {
                Some(out@.last().1)
            }),
        decreases months@.len() - i,
    {
        let ghost before = months@.subrange(0, i as int);
        let ghost after = months@.subrange(0, i + 1);
        assert(after.drop_last() =~= before);
        assert(after.last() == months@[i as int]);
        match months[i] {
            Some(m) => {
                let differs = match last {
                    Some(l) => l != m,
                    None => true,
                };
                if differs {
                    out.push((i, m));
                    last = Some(m);
                }
            },
            None => {},
        }
        i += 1;
    }
    assert(months@.subrange(0, months@.len() as int) =~= months@);
    out
}

/// The three-letter abbreviation of month `m`.
pub open spec fn month_abbrev_text(m: int) -> Seq<char> {
    if m == 1 {
        "Jan"@
    } else if m == 2 {
        "Feb"@
    } else if m == 3 {
        "Mar"@
    } else if m == 4 {
        "Apr"@
    } else if m == 5 {
        "May"@
    } else if m == 6 {
        "Jun"@
    } else if m == 7 {
        "Jul"@
    } else if m == 8 {
        "Aug"@
    } else if m == 9 {
        "Sep"@
    } else if m == 10 {
        "Oct"@
    } else if m == 11 {
        "Nov"@
    } else {
        "Dec"@
    }
}

/// The three-letter abbreviation of month `m`.
pub fn month_abbrev(m: u32) -> (r: &'static str)
    requires
        1 <= m <= 12,
    ensures
        r@ == month_abbrev_text(m as int),
{
    if m == 1 {
        "Jan"
    } else if m == 2 {
        "Feb"
    } else if m == 3 {
        "Mar"
    } else if m == 4 {
        "Apr"
    } else if m == 5 {
        "May"
    } else if m == 6 {
        "Jun"
    } else if m == 7 {
        "Jul"
    } else if m == 8 {
        "Aug"
    } else if m == 9 {
        "Sep"
    } else if m == 10 {
        "Oct"
    } else if m == 11 {
        "Nov"
    } else {
        "Dec"
    }
}

/// The month of each week's first day, in week order.
pub open spec fn week_months(weeks: Seq<Week>) -> Seq<Option<u32>> {
    Seq::new(weeks.len(), |i: int| first_month(weeks[i]))
}

/// Month labels for the weeks: each anchor's week index and month abbreviation.
/// Over the weeks of one year, whose months never go back, there are at most
/// twelve, each at the first week that starts in its month.
pub fn calculate_month_positions(weeks: &Vec<Week>) -> (r: Vec<(usize, &'static str)>)
    ensures
        months_valid(week_months(weeks@)),
        months_ascending(week_months(weeks@)) ==> r@.len() <= 12,
        months_ascending(week_months(weeks@)) ==> forall|k: int|
            0 <= k < r@.len() ==> {
                &&& week_months(weeks@)[(#[trigger] r@[k]).0 as int] == Some(
                    anchors(week_months(weeks@))[k].1,
                )
                &&& forall|j: int|
                    0 <= j < r@[k].0 ==> week_months(weeks@)[j] != Some(
                        anchors(week_months(weeks@))[k].1,
                    )
            },
        r@.len() == anchors(week_months(weeks@)).len(),
        forall|k: int|
            0 <= k < r@.len() ==> (#[trigger] r@[k]).0 == anchors(week_months(weeks@))[k].0
                && r@[k].1@ == month_abbrev_text(anchors(week_months(weeks@))[k].1 as int),
{
    let mut months: Vec<Option<u32>> = Vec::new();
    let mut i: usize = 0;
    while i < weeks.len()
        invariant
            i <= weeks@.len(),
            months@ =~= week_months(weeks@).subrange(0, i as int),
            months_valid(months@),
        decreases weeks@.len() - i,
    {
        let days = &weeks[i].contribution_days;
        let month = if days.len() == 0 {
            None
        } else {
            match parse_date(days[0].date.as_str()) {
                Some(d) => Some(d.month),
                None => None,
            }
        };
        let ghost prev = months@;
        months.push(month);
        assert forall|j: int| 0 <= j < months@.len() && #[trigger] months@[j] is Some implies 1
            <= months@[j]->0 <= 12 by {
            if j < prev.len() {
                assert(months@[j] == prev[j]);
            }
        }
        i += 1;
    }
    assert(months@ =~= week_months(weeks@));
    let found = month_anchors(&months);
    proof {
        lemma_anchor_months_valid(months@);
        if months_ascending(months@) {
            lemma_month_labels(months@);
        }
    }
    let mut out: Vec<(usize, &'static str)> = Vec::new();
    let mut k: usize = 0;
    while k < found.len()
        invariant
            k <= found@.len(),
            found@ == anchors(months@),
            months@ == week_months(weeks@),
            forall|q: int| 0 <= q < found@.len() ==> 1 <= #[trigger] found@[q].1 <= 12,
            out@.len() == k,
            forall|q: int|
                0 <= q < k ==> (#[trigger] out@[q]).0 == found@[q].0 && out@[q].1@
                    == month_abbrev_text(found@[q].1 as int),
        decreases found@.len() - k,
    {
        let (w, m) = found[k];
        out.push((w, month_abbrev(m)));
        k += 1;
    }
    out
}

/// The contribution count in words.
pub open spec fn contribution_phrase_text(count: nat) -> Seq<char> {
    if count == 0 {
        "No contributions"@
    } else if count == 1 {
        "1 contribution"@
    } else {
        decimal(count) + " contributions"@
    }
}

/// The contribution count in words: none, one, or the number.
pub fn contribution_phrase(count: u32) -> (r: String)
    ensures
        r@ == contribution_phrase_text(count as nat),
{
    if count == 0 {
        String::from_str("No contributions")
    } else if count == 1 {
        String::from_str("1 contribution")
    } else {
        let mut s = String::new();
        push_decimal(&mut s, count as u64);
        s.append(" contributions");
        s
    }
}

/// Name of the weekday `i` days after Sunday.
pub open spec fn day_name_text(i: int) -> Seq<char> {
    if i == 0 {
        "Sunday"@
    } else if i == 1 {
        "Monday"@
    } else if i == 2 {
        "Tuesday"@
    } else if i == 3 {
        "Wednesday"@
    } else if i == 4 {
        "Thursday"@
    } else if i == 5 {
        "Friday"@
    } else {
        "Saturday"@
    }
}

/// Name of the weekday `i` days after Sunday.
pub fn day_name(i: u32) -> (r: &'static str)
    requires
        i < 7,
    ensures
        r@ == day_name_text(i as int),
{
    if i == 0 {
        "Sunday"
    } else if i == 1 {
        "Monday"
    } else if i == 2 {
        "Tuesday"
    } else if i == 3 {
        "Wednesday"
    } else if i == 4 {
        "Thursday"
    } else if i == 5 {
        "Friday"
    } else {
        "Saturday"
    }
}

/// `Weekday, date - phrase`.
pub open spec fn status_text(weekday: Seq<char>, date: Seq<char>, count: nat) -> Seq<char> {
    weekday + ", "@ + date + " - "@ + contribution_phrase_text(count)
}

/// Joins a weekday name, a date text and a count into the status line.
pub fn status_line(weekday: &str, date: &str, count: u32) -> (r: String)
    ensures
        r@ == status_text(weekday@, date@, count as nat),
{
    let mut s = String::from_str(weekday);
    s.append(", ");
    s.append(date);
    s.append(" - ");
    let phrase = contribution_phrase(count);
    s.append(phrase.as_str());
    assert(s@ =~= status_text(weekday@, date@, count as nat));
    s
}

/// What the status line says of `day`: the weekday and long date when its date
/// parses, else `Unknown` and the raw date text.
pub open spec fn describes_day(day: ContributionDay, r: Seq<char>) -> bool {
    match parsed_ymd(day.date@) {
        Some(t) => r == status_text(
            day_name_text(weekday_from_sunday(t.0, t.1, t.2)),
            long_text(CalendarDate { year: t.0 as i32, month: t.1 as u32, day: t.2 as u32 }),
            day.contribution_count as nat,
        ),
        None => r == status_text("Unknown"@, day.date@, day.contribution_count as nat),
    }
}

/// The status line for one day.
pub fn format_day_info(day: &ContributionDay) -> (r: String)
    ensures
        describes_day(*day, r@),
{
    match parse_date(day.date.as_str()) {
        Some(d) => {
            let name = day_name(weekday_index(d));
            let long = long_string(d);
            status_line(name, long.as_str(), day.contribution_count)
        },
        None => status_line("Unknown", day.date.as_str(), day.contribution_count),
    }
}

/// The day under the cursor, if the cursor is on one.
pub fn get_selected_day<'a>(weeks: &'a Vec<Week>, cursor: &Cursor) -> (r: Option<&'a ContributionDay>)
    ensures
        r.is_some() == is_cell(weeks@, cursor.week as int, cursor.day as int),
        r matches Some(d) ==> *d == weeks@[cursor.week as int].contribution_days@[cursor.day as int],
{
    if cursor.week < weeks.len() {
        let days = &weeks[cursor.week].contribution_days;
        if cursor.day < days.len() {
            return Some(&days[cursor.day]);
        }
    }
    None
}

/// The status line for the cursor's day; empty when the cursor is on none.
pub fn selected_status(weeks: &Vec<Week>, cursor: &Cursor) -> (r: String)
    ensures
        !is_cell(weeks@, cursor.week as int, cursor.day as int) ==> r@.len() == 0,
        is_cell(weeks@, cursor.week as int, cursor.day as int) ==> describes_day(
            weeks@[cursor.week as int].contribution_days@[cursor.day as int],
            r@,
        ),
{
    match get_selected_day(weeks, cursor) {
        Some(day) => format_day_info(day),
        None => String::new(),
    }
}

/// `login - total contributions in year`.
pub open spec fn title_text(login: Seq<char>, total: nat, year: int) -> Seq<char> {
    login + " - "@ + decimal(total) + " contributions in "@ + signed_decimal(year)
}

/// The title line of the graph.
pub fn title_line(login: &str, total: u32, year: i32) -> (r: String)
    ensures
        r@ == title_text(login@, total as nat, year as int),
{
    let mut s = String::from_str(login);
    s.append(" - ");
    push_decimal(&mut s, total as u64);
    s.append(" contributions in ");
    push_signed(&mut s, year as i64);
    assert(s@ =~= title_text(login@, total as nat, year as int));
    s
}

/// How one grid position is drawn.
#[derive(Debug, Clone, Copy, PartialEq, Eq, Structural)]
pub enum CellStyle {
    /// No day stands here.
    Blank,
    /// A day of this level; `selected` when the cursor is on it.
    Filled { level: ContributionLevel, selected: bool },
}

/// The style of position `(week, day)`: blank where the grid holds no day,
/// else the day's level, selected where the cursor stands.
pub fn classify_cell(weeks: &Vec<Week>, cursor: &Cursor, week: usize, day: usize) -> (r: CellStyle)
    ensures
        !is_cell(weeks@, week as int, day as int) ==> r == CellStyle::Blank,
        is_cell(weeks@, week as int, day as int) ==> r == (CellStyle::Filled {
            level: weeks@[week as int].contribution_days@[day as int].contribution_level,
            selected: week == cursor.week && day == cursor.day,
        }),
{
    if week < weeks.len() {
        let days = &weeks[week].contribution_days;
        if day < days.len() {
            return CellStyle::Filled {
                level: days[day].contribution_level,
                selected: week == cursor.week && day == cursor.day,
            };
        }
    }
    CellStyle::Blank
}

/// Blank week columns before label `i`: each label is two weeks wide and
/// stands over its own week where the previous label leaves room.
pub open spec fn label_gap(anchor_weeks: Seq<usize>, i: int) -> int {
    let col = if i == 0 {
        0
    } else {
        anchor_weeks[i - 1] + 2
    };
    if anchor_weeks[i] > col {
        anchor_weeks[i] - col
    } else {
        0
    }
}

/// The blank week columns before each month label, the labels given by their weeks.
pub fn month_label_gaps(anchor_weeks: &Vec<usize>) -> (r: Vec<usize>)
    ensures
        r@.len() == anchor_weeks@.len(),
        forall|i: int| 0 <= i < r@.len() ==> #[trigger] r@[i] == label_gap(anchor_weeks@, i),
{
    let mut out: Vec<usize> = Vec::new();
    let mut i: usize = 0;
    while i < anchor_weeks.len()
        invariant
            i <= anchor_weeks@.len(),
            out@.len() == i,
            forall|j: int| 0 <= j < i ==> #[trigger] out@[j] == label_gap(anchor_weeks@, j),
        decreases anchor_weeks@.len() - i,
    {
        let w = anchor_weeks[i];
        let gap = if i == 0 {
            w
        } else {
            let prev = anchor_weeks[i - 1];
            if w > prev && w - prev > 2 {
                w - prev - 2
            } else {
                0
            }
        };
        out.push(gap);
        i += 1;
    }
    out
}

} // verus!
