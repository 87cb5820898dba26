//! Common types used throughout the application: errors, the report model
//! and its invariant-preserving mutators.

use vstd::prelude::*;

verus! {

/// Errors returned for things that can go wrong with **local** I/O.
#[derive(Debug)]
#[non_exhaustive]
pub enum LocalError {
    /// Returned by functions where the database engine reports an error.
    DbError,
    /// Returned if a path that is expected to exist does not.
    NotFound,
    /// Returned when trying to create something that already exists.
    AlreadyExists,
    /// Returned when the keyring reports an error.
    KeyringError,
    /// Returned when loading the config fails.
    ConfigError,
}

/// The config for the application, as saved in the config file on disk.
///
/// ## Difference to [`State`]
/// Config holds data that is unlikely to change and is not so sensitive
/// that it should instead be put into the keyring, or does not make sense
/// to save into the database.
pub struct Config {
    /// Whether the user is just writing notes (true) or checking and
    /// signing notes (false).
    pub is_student: bool,
}

impl Default for Config {
    fn default() -> (r: Config)
        ensures
            r.is_student == true,
    {
        Config { is_student: true }
    }
}

/// Stores all data that is needed at runtime.
///
/// ## Difference to [`Config`]
/// State holds data that is obtained at runtime and only valid during
/// runtime, while Config holds data that you would usually save in a config
/// file (and should be exposed to a user).
#[derive(Debug, Clone)]
pub struct State {
    conn: crate::db::DbConnector,
    username: String,
    password: String,
}

impl State {
    /// The username this state was built with.
    pub closed spec fn spec_username(&self) -> Seq<char> {
        self.username@
    }

    /// The password this state was built with.
    pub closed spec fn spec_password(&self) -> Seq<char> {
        self.password@
    }

    pub fn new(conn: crate::db::DbConnector, username: String, password: String) -> (r: State)
        ensures
            r.spec_username() == username@,
            r.spec_password() == password@,
    {
        State { conn, username, password }
    }
}

/// The seven recognized day names, as a checked enumeration.
///
/// A report's day table is keyed by this type alone, so no free-form day
/// name can ever enter a report.
#[derive(Clone, Copy, Debug, PartialEq, Eq, Structural)]
pub enum Weekday {
    Monday,
    Tuesday,
    Wednesday,
    Thursday,
    Friday,
    Saturday,
    Sunday,
}

impl Weekday {
    /// The position of this day in the week, Monday first.
    pub open spec fn as_int(self) -> int {
        match self {
            Weekday::Monday => 0,
            Weekday::Tuesday => 1,
            Weekday::Wednesday => 2,
            Weekday::Thursday => 3,
            Weekday::Friday => 4,
            Weekday::Saturday => 5,
            Weekday::Sunday => 6,
        }
    }

    /// The position of this day in the week, Monday first.
    pub fn index(self) -> (r: usize)
        ensures
            r == self.as_int(),
    {
        match self {
            Weekday::Monday => 0,
            Weekday::Tuesday => 1,
            Weekday::Wednesday => 2,
            Weekday::Thursday => 3,
            Weekday::Friday => 4,
            Weekday::Saturday => 5,
            Weekday::Sunday => 6,
        }
    }

    /// The day at the given position in the week, if there is one.
    pub fn from_index(i: usize) -> (r: Option<Weekday>)
        ensures
            match r {
                Some(d) => i < 7 && d.as_int() == i,
                None => i >= 7,
            },
    {
        if i == 0 {
            Some(Weekday::Monday)
        } else if i == 1 {
            Some(Weekday::Tuesday)
        } else if i == 2 {
            Some(Weekday::Wednesday)
        } else if i == 3 {
            Some(Weekday::Thursday)
        } else if i == 4 {
            Some(Weekday::Friday)
        } else if i == 5 {
            Some(Weekday::Saturday)
        } else if i == 6 {
            Some(Weekday::Sunday)
        } else {
            None
        }
    }
}

/// The mathematical content of a [`WeeklyReport`]: its signature status, the
/// week it identifies, when it was last written to, and for each of the seven
/// days the ordered activity descriptions logged on that day.
#[verifier::ext_equal]
pub struct ReportModel {
    pub signed: bool,
    pub timestamp: int,
    pub last_update: int,
    pub days: Seq<Seq<Seq<char>>>,
}

impl ReportModel {
    /// A report always carries exactly one activity list per day of the week.
    pub open spec fn wf(self) -> bool {
        self.days.len() == 7
    }

    /// Whether at least one activity is logged on some day.
    pub open spec fn has_activity(self) -> bool {
        exists|d: int| 0 <= d < 7 && self.days[d].len() > 0
    }
}

/// A week's day table with no activities logged yet.
pub open spec fn empty_days() -> Seq<Seq<Seq<char>>> {
    Seq::new(7, |d: int| Seq::empty())
}

/// The common format of a report to be passed through the application.
///
/// Every mutation that changes the day table flips `signed` back to `false`
/// and moves `last_update` forward: a signature is only valid for the exact
/// content it was signed against.
pub struct WeeklyReport {
    signed: bool,
    /// A time within the week this report applies to, in Unix seconds; the
    /// natural key of the persisted representation.
    timestamp: i64,
    /// When this report was last written to (mostly relevant for backups),
    /// in Unix seconds.
    last_update: i64,
    /// One ordered activity list per day, indexed by [`Weekday`] position.
    days: Vec<Vec<String>>,
}

impl View for WeeklyReport {
    type V = ReportModel;

    closed spec fn view(&self) -> ReportModel {
        ReportModel {
            signed: self.signed,
            timestamp: self.timestamp as int,
            last_update: self.last_update as int,
            days: self.days.deep_view(),
        }
    }
}

impl DeepView for WeeklyReport {
    type V = ReportModel;

    open spec fn deep_view(&self) -> ReportModel {
        self.view()
    }
}

/// Relies on `chrono::Utc::now`: the current wall-clock time as Unix
/// seconds. Nothing is promised of the value; callers that need monotony
/// must enforce it themselves.
#[verifier::external_body]
fn now_unix() -> (r: i64) {
    chrono::Utc::now().timestamp()
}

/// A day table with an empty activity list for each of the seven days.
pub fn empty_week() -> (r: Vec<Vec<String>>)
    ensures
        r.deep_view() =~= empty_days(),
        r@.len() == 7,
{
    let mut v: Vec<Vec<String>> = Vec::new();
    let mut i: usize = 0;
    while i < 7
        invariant
            i <= 7,
            v@.len() == i,
            forall|j: int| 0 <= j < i ==> #[trigger] v@[j]@.len() == 0,
        decreases 7 - i,
    {
        v.push(Vec::new());
        i = i + 1;
    }
    proof {
        assert forall|d: int| 0 <= d < 7 implies #[trigger] v.deep_view()[d]
            =~= empty_days()[d] by {
            assert(v@[d]@.len() == 0);
        }
        assert(v.deep_view() =~= empty_days());
    }
    v
}

impl WeeklyReport {
    /// The report's invariant: one activity list per day of the week.
    pub open spec fn wf(&self) -> bool {
        self@.wf()
    }

    /// Create a new report.
    ///
    /// `last_update` is taken from the clock; if you already have all the
    /// data for the report, use [`WeeklyReport::from_raw_parts`] instead.
    pub fn new(signed: bool, timestamp: i64, days: Option<Vec<Vec<String>>>) -> (r: WeeklyReport)
        requires
            days matches Some(d) ==> d@.len() == 7,
        ensures
            r.wf(),
            r@.signed == signed,
            r@.timestamp == timestamp,
            match days {
                Some(d) => r@.days == d.deep_view(),
                None => r@.days == empty_days(),
            },
    {
        let day_lists = match days {
            Some(d) => d,
            None => empty_week(),
        };
        WeeklyReport { signed, timestamp, last_update: now_unix(), days: day_lists }
    }

    /// Create a report completely from already existing data, for example
    /// when parsing rows read back from the store.
    ///
    /// A report built this way is not guaranteed to carry an accurate
    /// `last_update`: the caller vouches for the value it passes.
    pub fn from_raw_parts(
        signed: bool,
        timestamp: i64,
        last_update: i64,
        days: Vec<Vec<String>>,
    ) -> (r: WeeklyReport)
        requires
            days@.len() == 7,
        ensures
            r.wf(),
            r@ == (ReportModel {
                signed,
                timestamp: timestamp as int,
                last_update: last_update as int,
                days: days.deep_view(),
            }),
    {
        WeeklyReport { signed, timestamp, last_update, days }
    }

    /// Append one activity **to the back** of the given day's list.
    ///
    /// The content changes, so the signature is revoked and `last_update`
    /// moves forward (never backward, even if the clock stepped back).
    pub fn add_day(&mut self, day: Weekday, activity: &str)
        requires
            old(self).wf(),
        ensures
            final(self).wf(),
            final(self)@.days == old(self)@.days.update(
                day.as_int(),
                old(self)@.days[day.as_int()].push(activity@),
            ),
            final(self)@.signed == false,
            final(self)@.timestamp == old(self)@.timestamp,
            final(self)@.last_update >= old(self)@.last_update,
    {
        let idx = day.index();
        self.days[idx].push(activity.to_owned());
        self.signed = false;
        let now = now_unix();
        if now > self.last_update {
            self.last_update = now;
        }
        proof {
            let i = day.as_int();
            let olds = old(self)@.days;
            let goal = olds.update(i, olds[i].push(activity@));
            assert forall|k: int| 0 <= k < self.days@.len() implies #[trigger] self.days.deep_view()[k]
                == goal[k] by {
                if k == i {
                    assert(self.days.deep_view()[k] =~= olds[i].push(activity@));
                } else {
                    assert(self.days@[k] == old(self).days@[k]);
                }
            }
            assert(self@.days =~= goal);
        }
    }

    /// Replace the whole day table at once.
    ///
    /// The content changes, so the signature is revoked and `last_update`
    /// moves forward; the week the report identifies stays the same.
    pub fn set_days(&mut self, activities: Vec<Vec<String>>)
        requires
            activities@.len() == 7,
        ensures
            final(self).wf(),
            final(self)@.days == activities.deep_view(),
            final(self)@.signed == false,
            final(self)@.timestamp == old(self)@.timestamp,
            final(self)@.last_update >= old(self)@.last_update,
    {
        self.days = activities;
        self.signed = false;
        let now = now_unix();
        if now > self.last_update {
            self.last_update = now;
        }
    }

    /// Overwrite the `last_update` property alone.
    ///
    /// This leaves the signature status untouched, so it must only be used
    /// where the content is known not to have changed.
    pub fn set_last_update(&mut self, last_update: i64)
        ensures
            final(self)@ == (ReportModel { last_update: last_update as int, ..old(self)@ }),
    {
        self.last_update = last_update;
    }

    /// Getter for the last update.
    pub fn get_last_update(&self) -> (r: i64)
        ensures
            r == self@.last_update,
    {
        self.last_update
    }

    /// Getter for the timestamp.
    pub fn get_timestamp(&self) -> (r: i64)
        ensures
            r == self@.timestamp,
    {
        self.timestamp
    }

    /// Getter for the day table.
    pub fn get_days(&self) -> (r: &Vec<Vec<String>>)
        ensures
            r.deep_view() == self@.days,
    {
        &self.days
    }

    /// Attest that the current version of this report has been signed.
    pub fn set_signed(&mut self)
        ensures
            final(self)@ == (ReportModel { signed: true, ..old(self)@ }),
    {
        self.signed = true;
    }

    /// Drop the signature without touching the content.
    pub fn revoke_signature(&mut self)
        ensures
            final(self)@ == (ReportModel { signed: false, ..old(self)@ }),
    {
        self.signed = false;
    }

    /// Whether the current content has been attested.
    pub fn is_signed(&self) -> (r: bool)
        ensures
            r == self@.signed,
    {
        self.signed
    }
}

} // verus!
