//! The smoke data set: eight webhooks around a content lifecycle, on fixed
//! JST wall-clock times relative to an event day.

use vstd::prelude::*;
use crate::time::{UtcTimestamp, jst_datetime, jst_instant_seconds, valid_instant, MIN_DAY, MAX_DAY};
use crate::seed::fixture::{smoke_fixture, smoke_body_spec, smoke_instants_valid};

verus! {

/// The event identifiers the smoke webhooks are stored under, in order.
pub open spec fn smoke_event_id_texts() -> Seq<Seq<char>> {
    seq![
        "018f1001-0000-7000-8000-000000000001"@,
        "018f1001-0000-7000-8000-000000000002"@,
        "018f1001-0000-7000-8000-000000000003"@,
        "018f1001-0000-7000-8000-000000000004"@,
        "018f1001-0000-7000-8000-000000000005"@,
        "018f1001-0000-7000-8000-000000000006"@,
        "018f1001-0000-7000-8000-000000000007"@,
        "018f1001-0000-7000-8000-000000000008"@,
    ]
}

/// Returns the event identifiers the smoke webhooks are stored under.
pub fn smoke_event_ids() -> (r: Vec<&'static str>)
    ensures
        r@.len() == 8,
        forall|i: int| 0 <= i < 8 ==> (#[trigger] r@[i])@ == smoke_event_id_texts()[i],
{
    vec![
        "018f1001-0000-7000-8000-000000000001",
        "018f1001-0000-7000-8000-000000000002",
        "018f1001-0000-7000-8000-000000000003",
        "018f1001-0000-7000-8000-000000000004",
        "018f1001-0000-7000-8000-000000000005",
        "018f1001-0000-7000-8000-000000000006",
        "018f1001-0000-7000-8000-000000000007",
        "018f1001-0000-7000-8000-000000000008",
    ]
}

/// The content id of the blog post that goes from draft to published.
pub const SMOKE_BLOG_LIFECYCLE_CONTENT_ULID: &'static str = "01J1DVG0000000000000000001";
/// The content id of the blog post published directly.
pub const SMOKE_BLOG_DIRECT_CONTENT_ULID: &'static str = "01J1DVG0000000000000000002";

/// The contents of the smoke data set that have an id.
#[derive(Clone, Copy, Debug, PartialEq, Eq, Structural)]
pub enum SmokeContentId {
    BlogLifecycle,
    BlogDirect,
}

impl SmokeContentId {
    /// The id of this content.
    pub fn as_ulid(self) -> (r: &'static str)
        ensures
            r@ == (match self {
                SmokeContentId::BlogLifecycle => SMOKE_BLOG_LIFECYCLE_CONTENT_ULID@,
                SmokeContentId::BlogDirect => SMOKE_BLOG_DIRECT_CONTENT_ULID@,
            }),
    {
        match self {
            SmokeContentId::BlogLifecycle => SMOKE_BLOG_LIFECYCLE_CONTENT_ULID,
            SmokeContentId::BlogDirect => SMOKE_BLOG_DIRECT_CONTENT_ULID,
        }
    }
}

/// The calendar days the smoke instants are placed on.
#[derive(Clone, Copy, Debug)]
pub struct SmokeFixtureDates {
    pub event_date: i64,
    pub updated_before_date: i64,
    pub created_date: i64,
    pub draft_created_date: i64,
}

/// Which of the smoke days an instant falls on.
#[derive(Clone, Copy, Debug, PartialEq, Eq, Structural)]
pub enum SmokeDate {
    Event,
    UpdatedBefore,
    Created,
    DraftCreated,
}

impl SmokeDate {
    /// The calendar day this date stands for.
    pub open spec fn day(self, dates: SmokeFixtureDates) -> i64 {
        match self {
            SmokeDate::Event => dates.event_date,
            SmokeDate::UpdatedBefore => dates.updated_before_date,
            SmokeDate::Created => dates.created_date,
            SmokeDate::DraftCreated => dates.draft_created_date,
        }
    }

    /// Returns the calendar day this date stands for.
    pub fn resolve(self, dates: SmokeFixtureDates) -> (r: i64)
        ensures
            r == self.day(dates),
    {
        match self {
            SmokeDate::Event => dates.event_date,
            SmokeDate::UpdatedBefore => dates.updated_before_date,
            SmokeDate::Created => dates.created_date,
            SmokeDate::DraftCreated => dates.draft_created_date,
        }
    }
}

/// A JST wall-clock time, to the minute, on one of the smoke days.
#[derive(Clone, Copy, Debug, PartialEq, Eq, Structural)]
pub struct SmokeDateTime {
    pub date: SmokeDate,
    pub hour: u32,
    pub minute: u32,
}

/// Every smoke day lies strictly inside the representable range, so every
/// wall-clock time on it is a representable instant.
pub open spec fn smoke_dates_in_range(dates: SmokeFixtureDates) -> bool {
    &&& MIN_DAY < dates.event_date < MAX_DAY
    &&& MIN_DAY < dates.updated_before_date < MAX_DAY
    &&& MIN_DAY < dates.created_date < MAX_DAY
    &&& MIN_DAY < dates.draft_created_date < MAX_DAY
}

impl SmokeDateTime {
    /// The instant this time stands for.
    pub open spec fn instant(self, dates: SmokeFixtureDates) -> UtcTimestamp {
        UtcTimestamp {
            seconds: jst_instant_seconds(self.date.day(dates) as int, self.hour as int,
                self.minute as int, 0) as i64,
            nanos: 0,
        }
    }

    /// Returns the instant this time stands for.
    pub fn resolve(self, dates: SmokeFixtureDates) -> (r: UtcTimestamp)
        requires
            self.hour < 24,
            self.minute < 60,
            smoke_dates_in_range(dates),
        ensures
            r == self.instant(dates),
            r.valid(),
    {
        let day = self.date.resolve(dates);
        jst_datetime(day, self.hour, self.minute, 0)
    }
}

/// The time `hour:minute` on a smoke day.
pub fn at(date: SmokeDate, hour: u32, minute: u32) -> (r: SmokeDateTime)
    ensures
        r == (SmokeDateTime { date, hour, minute }),
{
    SmokeDateTime { date, hour, minute }
}

/// One smoke webhook: its API, content, type, status change and instants.
#[derive(Clone, Copy, Debug)]
pub struct SmokeFixtureCase {
    pub api: &'static str,
    pub content_id: Option<SmokeContentId>,
    pub event_type: &'static str,
    pub old_status: Option<&'static str>,
    pub new_status: Option<&'static str>,
    pub received_at: SmokeDateTime,
    pub old_updated_at: Option<SmokeDateTime>,
    pub new_updated_at: Option<SmokeDateTime>,
    pub draft_created_at: Option<SmokeDateTime>,
    pub content_created_at: Option<SmokeDateTime>,
    pub content_published_at: Option<SmokeDateTime>,
}

pub open spec fn opt_time(t: Option<SmokeDateTime>, dates: SmokeFixtureDates) -> Option<UtcTimestamp> {
    match t {
        Some(x) => Some(x.instant(dates)),
        None => None,
    }
}

pub open spec fn opt_str(s: Option<&str>) -> Option<Seq<char>> {
    match s {
        Some(x) => Some(x@),
        None => None,
    }
}

pub open spec fn content_id_text(c: Option<SmokeContentId>) -> Option<Seq<char>> {
    match c {
        Some(SmokeContentId::BlogLifecycle) => Some(SMOKE_BLOG_LIFECYCLE_CONTENT_ULID@),
        Some(SmokeContentId::BlogDirect) => Some(SMOKE_BLOG_DIRECT_CONTENT_ULID@),
        None => None,
    }
}

/// The body a smoke case is written as.
pub open spec fn smoke_case_body(c: SmokeFixtureCase, dates: SmokeFixtureDates) -> Seq<char> {
    smoke_body_spec(c.api@, content_id_text(c.content_id), c.event_type@, opt_str(c.old_status),
        opt_str(c.new_status), c.received_at.instant(dates), opt_time(c.old_updated_at, dates),
        opt_time(c.new_updated_at, dates), opt_time(c.draft_created_at, dates),
        opt_time(c.content_created_at, dates), opt_time(c.content_published_at, dates))
}

pub open spec fn time_ok(t: SmokeDateTime) -> bool {
    t.hour < 24 && t.minute < 60
}

pub open spec fn opt_time_ok(t: Option<SmokeDateTime>) -> bool {
    t matches Some(x) ==> time_ok(x)
}

/// Every time of a case is a wall-clock time.
pub open spec fn case_times_ok(c: SmokeFixtureCase) -> bool {
    &&& time_ok(c.received_at)
    &&& opt_time_ok(c.old_updated_at)
    &&& opt_time_ok(c.new_updated_at)
    &&& opt_time_ok(c.draft_created_at)
    &&& opt_time_ok(c.content_created_at)
    &&& opt_time_ok(c.content_published_at)
}

/// The smoke cases, in order: a publication from draft, its initial draft,
/// an update of the published post, an unpublication to draft, one to
/// closed, a draft save, a direct publication and a deletion of a
/// published author.
pub open spec fn smoke_cases() -> Seq<SmokeFixtureCase> {
    let ev = SmokeDate::Event;
    seq![
        SmokeFixtureCase {
            api: "blogs", content_id: Some(SmokeContentId::BlogLifecycle), event_type: "edit",
            old_status: Some("DRAFT"), new_status: Some("PUBLISH"),
            received_at: SmokeDateTime { date: ev, hour: 12, minute: 0 },
            old_updated_at: Some(SmokeDateTime { date: SmokeDate::UpdatedBefore, hour: 12, minute: 0 }),
            new_updated_at: Some(SmokeDateTime { date: ev, hour: 12, minute: 0 }),
            draft_created_at: None,
            content_created_at: Some(SmokeDateTime { date: SmokeDate::Created, hour: 12, minute: 0 }),
            content_published_at: Some(SmokeDateTime { date: ev, hour: 12, minute: 0 }),
        },
        SmokeFixtureCase {
            api: "blogs", content_id: Some(SmokeContentId::BlogLifecycle), event_type: "new",
            old_status: None, new_status: Some("DRAFT"),
            received_at: SmokeDateTime { date: ev, hour: 11, minute: 0 },
            old_updated_at: None,
            new_updated_at: Some(SmokeDateTime { date: ev, hour: 11, minute: 0 }),
            draft_created_at: Some(SmokeDateTime { date: SmokeDate::DraftCreated, hour: 12, minute: 0 }),
            content_created_at: None,
            content_published_at: None,
        },
        SmokeFixtureCase {
            api: "blogs", content_id: Some(SmokeContentId::BlogLifecycle), event_type: "edit",
            old_status: Some("PUBLISH"), new_status: Some("PUBLISH"),
            received_at: SmokeDateTime { date: ev, hour: 13, minute: 0 },
            old_updated_at: Some(SmokeDateTime { date: ev, hour: 12, minute: 0 }),
            new_updated_at: Some(SmokeDateTime { date: ev, hour: 13, minute: 0 }),
            draft_created_at: None, content_created_at: None, content_published_at: None,
        },
        SmokeFixtureCase {
            api: "blogs", content_id: None, event_type: "edit",
            old_status: Some("PUBLISH"), new_status: Some("DRAFT"),
            received_at: SmokeDateTime { date: ev, hour: 15, minute: 0 },
            old_updated_at: Some(SmokeDateTime { date: ev, hour: 14, minute: 0 }),
            new_updated_at: Some(SmokeDateTime { date: ev, hour: 15, minute: 0 }),
            draft_created_at: None, content_created_at: None, content_published_at: None,
        },
        SmokeFixtureCase {
            api: "blogs", content_id: None, event_type: "edit",
            old_status: Some("PUBLISH"), new_status: Some("CLOSED"),
            received_at: SmokeDateTime { date: ev, hour: 15, minute: 30 },
            old_updated_at: Some(SmokeDateTime { date: ev, hour: 14, minute: 30 }),
            new_updated_at: Some(SmokeDateTime { date: ev, hour: 15, minute: 30 }),
            draft_created_at: None, content_created_at: None, content_published_at: None,
        },
        SmokeFixtureCase {
            api: "blogs", content_id: None, event_type: "edit",
            old_status: Some("DRAFT"), new_status: Some("DRAFT"),
            received_at: SmokeDateTime { date: ev, hour: 16, minute: 0 },
            old_updated_at: None,
            new_updated_at: Some(SmokeDateTime { date: ev, hour: 16, minute: 0 }),
            draft_created_at: None, content_created_at: None, content_published_at: None,
        },
        SmokeFixtureCase {
            api: "blogs", content_id: Some(SmokeContentId::BlogDirect), event_type: "new",
            old_status: None, new_status: Some("PUBLISH"),
            received_at: SmokeDateTime { date: ev, hour: 14, minute: 0 },
            old_updated_at: None,
            new_updated_at: Some(SmokeDateTime { date: ev, hour: 14, minute: 0 }),
            draft_created_at: None,
            content_created_at: Some(SmokeDateTime { date: ev, hour: 8, minute: 0 }),
            content_published_at: Some(SmokeDateTime { date: ev, hour: 14, minute: 0 }),
        },
        SmokeFixtureCase {
            api: "authors", content_id: None, event_type: "delete",
            old_status: Some("PUBLISH"), new_status: None,
            received_at: SmokeDateTime { date: ev, hour: 15, minute: 0 },
            old_updated_at: Some(SmokeDateTime { date: ev, hour: 15, minute: 0 }),
            new_updated_at: None,
            draft_created_at: None, content_created_at: None, content_published_at: None,
        },
    ]
}

/// Returns the smoke cases.
pub fn smoke_fixture_cases() -> (r: Vec<SmokeFixtureCase>)
    ensures
        r@ == smoke_cases(),
{
    let ev = SmokeDate::Event;
    let r = vec![
        SmokeFixtureCase {
            api: "blogs", content_id: Some(SmokeContentId::BlogLifecycle), event_type: "edit",
            old_status: Some("DRAFT"), new_status: Some("PUBLISH"),
            received_at: at(ev, 12, 0),
            old_updated_at: Some(at(SmokeDate::UpdatedBefore, 12, 0)),
            new_updated_at: Some(at(ev, 12, 0)),
            draft_created_at: None,
            content_created_at: Some(at(SmokeDate::Created, 12, 0)),
            content_published_at: Some(at(ev, 12, 0)),
        },
        SmokeFixtureCase {
            api: "blogs", content_id: Some(SmokeContentId::BlogLifecycle), event_type: "new",
            old_status: None, new_status: Some("DRAFT"),
            received_at: at(ev, 11, 0),
            old_updated_at: None,
            new_updated_at: Some(at(ev, 11, 0)),
            draft_created_at: Some(at(SmokeDate::DraftCreated, 12, 0)),
            content_created_at: None,
            content_published_at: None,
        },
        SmokeFixtureCase {
            api: "blogs", content_id: Some(SmokeContentId::BlogLifecycle), event_type: "edit",
            old_status: Some("PUBLISH"), new_status: Some("PUBLISH"),
            received_at: at(ev, 13, 0),
            old_updated_at: Some(at(ev, 12, 0)),
            new_updated_at: Some(at(ev, 13, 0)),
            draft_created_at: None, content_created_at: None, content_published_at: None,
        },
        SmokeFixtureCase {
            api: "blogs", content_id: None, event_type: "edit",
            old_status: Some("PUBLISH"), new_status: Some("DRAFT"),
            received_at: at(ev, 15, 0),
            old_updated_at: Some(at(ev, 14, 0)),
            new_updated_at: Some(at(ev, 15, 0)),
            draft_created_at: None, content_created_at: None, content_published_at: None,
        },
        SmokeFixtureCase {
            api: "blogs", content_id: None, event_type: "edit",
            old_status: Some("PUBLISH"), new_status: Some("CLOSED"),
            received_at: at(ev, 15, 30),
            old_updated_at: Some(at(ev, 14, 30)),
            new_updated_at: Some(at(ev, 15, 30)),
            draft_created_at: None, content_created_at: None, content_published_at: None,
        },
        SmokeFixtureCase {
            api: "blogs", content_id: None, event_type: "edit",
            old_status: Some("DRAFT"), new_status: Some("DRAFT"),
            received_at: at(ev, 16, 0),
            old_updated_at: None,
            new_updated_at: Some(at(ev, 16, 0)),
            draft_created_at: None, content_created_at: None, content_published_at: None,
        },
        SmokeFixtureCase {
            api: "blogs", content_id: Some(SmokeContentId::BlogDirect), event_type: "new",
            old_status: None, new_status: Some("PUBLISH"),
            received_at: at(ev, 14, 0),
            old_updated_at: None,
            new_updated_at: Some(at(ev, 14, 0)),
            draft_created_at: None,
            content_created_at: Some(at(ev, 8, 0)),
            content_published_at: Some(at(ev, 14, 0)),
        },
        SmokeFixtureCase {
            api: "authors", content_id: None, event_type: "delete",
            old_status: Some("PUBLISH"), new_status: None,
            received_at: at(ev, 15, 0),
            old_updated_at: Some(at(ev, 15, 0)),
            new_updated_at: None,
            draft_created_at: None, content_created_at: None, content_published_at: None,
        },
    ];
    assert(r@ =~= smoke_cases());
    r
}

fn resolve_opt(t: Option<SmokeDateTime>, dates: SmokeFixtureDates) -> (r: Option<UtcTimestamp>)
    requires
        opt_time_ok(t),
        smoke_dates_in_range(dates),
    ensures
        r == opt_time(t, dates),
        r matches Some(x) ==> x.valid(),
{
    match t {
        Some(x) => Some(x.resolve(dates)),
        None => None,
    }
}

fn content_id_str(c: Option<SmokeContentId>) -> (r: Option<&'static str>)
    ensures
        opt_str(r) == content_id_text(c),
{
    match c {
        Some(id) => Some(id.as_ulid()),
        None => None,
    }
}

/// The smoke webhooks for the given days: each case's body, paired with
/// its receipt instant, in case order.
pub fn smoke_fixtures(dates: SmokeFixtureDates) -> (r: Vec<(String, UtcTimestamp)>)
    requires
        smoke_dates_in_range(dates),
    ensures
        r@.len() == 8,
        forall|i: int| 0 <= i < 8 ==> (#[trigger] r@[i]).0@ == smoke_case_body(smoke_cases()[i], dates)
            && r@[i].1 == smoke_cases()[i].received_at.instant(dates),
{
    let cases = smoke_fixture_cases();
    let mut out: Vec<(String, UtcTimestamp)> = Vec::new();
    let mut i: usize = 0;
    while i < cases.len()
        invariant
            cases@ == smoke_cases(),
            smoke_dates_in_range(dates),
            i <= cases@.len(),
            out@.len() == i,
            forall|j: int| 0 <= j < i ==> (#[trigger] out@[j]).0@ == smoke_case_body(smoke_cases()[j], dates)
                && out@[j].1 == smoke_cases()[j].received_at.instant(dates),
        decreases cases.len() - i,
    {
        let c = cases[i];
        assert(case_times_ok(c));
        let received_at = c.received_at.resolve(dates);
        let fixture = smoke_fixture(
            c.api,
            content_id_str(c.content_id),
            c.event_type,
            c.old_status,
            c.new_status,
            received_at,
            resolve_opt(c.old_updated_at, dates),
            resolve_opt(c.new_updated_at, dates),
            resolve_opt(c.draft_created_at, dates),
            resolve_opt(c.content_created_at, dates),
            resolve_opt(c.content_published_at, dates),
        );
        out.push(fixture);
        i = i + 1;
    }
    out
}

/// The smoke days for a given JST today: events two days ago, their
/// previous updates a day earlier, content created two days before the
/// events and drafts five days before them.
pub fn smoke_fixture_dates(today: i64) -> (r: SmokeFixtureDates)
    requires
        MIN_DAY + 7 < today <= MAX_DAY + 1,
    ensures
        r.event_date == today - 2,
        r.updated_before_date == today - 3,
        r.created_date == today - 4,
        r.draft_created_date == today - 7,
        smoke_dates_in_range(r),
{
    let event_date = today - 2;
    SmokeFixtureDates {
        event_date,
        updated_before_date: event_date - 1,
        created_date: event_date - 2,
        draft_created_date: event_date - 5,
    }
}

} // verus!
