//! Commands to be executed on the db, and the logic that translates between
//! reports and rows.
//!
//! Saving flattens each report's per-day activity lists into individual
//! [`Activity`] rows plus one row per report ([`flatten_reports`]); reading
//! groups the rows coming back from the two range queries into reports again
//! ([`assemble_reports`]); a backup serializes the rows of a range
//! ([`encode_backup`]). The row-level meaning of each step is fixed by the
//! spec functions of this module, and [`crate::db::laws`] proves that a save
//! followed by a read yields the saved reports back.

use vstd::prelude::*;

use crate::common::{empty_days, empty_week, ReportModel, WeeklyReport};
use crate::db::schema;
use crate::db::schema::{Activity, ActivityModel, ReportRowModel};
use crate::db::store;
use crate::db::store::{utf8_of, Store};
use crate::db::{DbAnswer, DbCommand, StorageError};
use std::ops::Range;
use vstd::bytes::{spec_u64_to_le_bytes, u64_to_le_bytes};

verus! {

// ------------------------------------------------------------------
// What saving writes: the rows of a report list.
// ------------------------------------------------------------------

/// The activity rows of one day of a report, in the day's logging order.
pub open spec fn day_rows(r: ReportModel, d: int) -> Seq<ActivityModel> {
    r.days[d].map_values(
        |a: Seq<char>| ActivityModel { timestamp: r.timestamp, day: d, activity: a },
    )
}

/// The activity rows of the first `d` days of a report, day-major.
pub open spec fn rows_upto(r: ReportModel, d: int) -> Seq<ActivityModel>
    decreases d,
{
    if d <= 0 {
        Seq::empty()
    } else {
        rows_upto(r, d - 1) + day_rows(r, d - 1)
    }
}

/// All activity rows of one report: its day table flattened in week order.
pub open spec fn activity_rows_of(r: ReportModel) -> Seq<ActivityModel> {
    rows_upto(r, 7)
}

/// The `weekly_reports` row of one report.
pub open spec fn report_row_of(r: ReportModel) -> ReportRowModel {
    ReportRowModel { signed: r.signed, timestamp: r.timestamp, last_update: r.last_update }
}

/// The `weekly_reports` rows of a report list, in list order.
pub open spec fn report_rows_of(rs: Seq<ReportModel>) -> Seq<ReportRowModel> {
    rs.map_values(|r: ReportModel| report_row_of(r))
}

/// The activity rows of a report list, report-major.
pub open spec fn activity_rows_of_all(rs: Seq<ReportModel>) -> Seq<ActivityModel>
    decreases rs.len(),
{
    if rs.len() == 0 {
        Seq::empty()
    } else {
        activity_rows_of(rs[0]) + activity_rows_of_all(rs.drop_first())
    }
}

// ------------------------------------------------------------------
// What reading yields: rows grouped back into reports.
// ------------------------------------------------------------------

/// Length of the maximal prefix of `rows` whose rows all carry the
/// timestamp `ts`.
pub open spec fn run_len(rows: Seq<ActivityModel>, ts: int) -> int
    decreases rows.len(),
{
    if rows.len() == 0 || rows[0].timestamp != ts {
        0
    } else {
        1 + run_len(rows.drop_first(), ts)
    }
}

/// The activities of one day within one report's group of rows, in row
/// order.
pub open spec fn day_acts(group: Seq<ActivityModel>, d: int) -> Seq<Seq<char>> {
    group.filter(|a: ActivityModel| a.day == d).map_values(|a: ActivityModel| a.activity)
}

/// The day table encoded by one report's group of rows.
pub open spec fn days_of_group(group: Seq<ActivityModel>) -> Seq<Seq<Seq<char>>> {
    Seq::new(7, |d: int| day_acts(group, d))
}

/// The report described by one group of activity rows and its report row.
pub open spec fn report_of_group(group: Seq<ActivityModel>, sig: ReportRowModel) -> ReportModel {
    ReportModel {
        signed: sig.signed,
        timestamp: sig.timestamp,
        last_update: sig.last_update,
        days: days_of_group(group),
    }
}

/// Whether every day value in `rows` is a valid week position.
pub open spec fn days_valid(rows: Seq<ActivityModel>) -> bool {
    forall|i: int| 0 <= i < rows.len() ==> 0 <= #[trigger] rows[i].day < 7
}

/// Prepend an already-assembled prefix to the rest of an assembly, keeping
/// a corruption (`None`) as it is.
pub open spec fn with_prefix(pre: Seq<ReportModel>, rest: Option<Seq<ReportModel>>) -> Option<
    Seq<ReportModel>,
> {
    match rest {
        Some(s) => Some(pre + s),
        None => None,
    }
}

/// What reading assembles from the rows the two range queries returned:
/// the activity rows are split into maximal runs sharing one timestamp, and
/// each run pairs, in order, with the report row of the same timestamp.
/// `None` is a corruption: a run without its report row, a leftover report
/// row with no activities, or a day value outside the week.
pub open spec fn assemble_spec(
    rows: Seq<ActivityModel>,
    sigs: Seq<ReportRowModel>,
) -> Option<Seq<ReportModel>>
    decreases rows.len(),
    via assemble_spec_dec
{
    if rows.len() == 0 {
        if sigs.len() == 0 {
            Some(Seq::empty())
        } else {
            None
        }
    } else if sigs.len() == 0 {
        None
    } else {
        let ts = rows[0].timestamp;
        let k = run_len(rows, ts);
        let group = rows.take(k);
        if sigs[0].timestamp != ts || !days_valid(group) {
            None
        } else {
            with_prefix(
                seq![report_of_group(group, sigs[0])],
                assemble_spec(rows.skip(k), sigs.drop_first()),
            )
        }
    }
}

#[via_fn]
proof fn assemble_spec_dec(rows: Seq<ActivityModel>, sigs: Seq<ReportRowModel>) {
    if rows.len() > 0 && sigs.len() > 0 {
        lemma_run_len_props(rows, rows[0].timestamp);
    }
}

// ------------------------------------------------------------------
// Facts about runs and groups.
// ------------------------------------------------------------------

/// A run is a prefix of rows that all carry `ts`, and it is maximal.
pub proof fn lemma_run_len_props(rows: Seq<ActivityModel>, ts: int)
    ensures
        0 <= run_len(rows, ts) <= rows.len(),
        forall|m: int| 0 <= m < run_len(rows, ts) ==> #[trigger] rows[m].timestamp == ts,
        run_len(rows, ts) < rows.len() ==> rows[run_len(rows, ts)].timestamp != ts,
        rows.len() > 0 && rows[0].timestamp == ts ==> run_len(rows, ts) >= 1,
    decreases rows.len(),
{
    if rows.len() == 0 || rows[0].timestamp != ts {
    } else {
        let rest = rows.drop_first();
        lemma_run_len_props(rest, ts);
        let k = run_len(rows, ts);
        assert forall|m: int| 0 <= m < k implies #[trigger] rows[m].timestamp == ts by {
            if m > 0 {
                assert(rest[m - 1] == rows[m]);
            }
        }
        if k < rows.len() {
            assert(rest[k - 1] == rows[k]);
        }
    }
}

/// A prefix of rows that all carry `ts`, followed by the end or a row that
/// does not, is exactly the run.
pub proof fn lemma_run_len_exact(rows: Seq<ActivityModel>, ts: int, k: int)
    requires
        0 <= k <= rows.len(),
        forall|m: int| 0 <= m < k ==> #[trigger] rows[m].timestamp == ts,
        k < rows.len() ==> rows[k].timestamp != ts,
    ensures
        run_len(rows, ts) == k,
    decreases rows.len(),
{
    if k == 0 {
    } else {
        let rest = rows.drop_first();
        assert(rows[0].timestamp == ts);
        assert forall|m: int| 0 <= m < k - 1 implies #[trigger] rest[m].timestamp == ts by {
            assert(rest[m] == rows[m + 1]);
        }
        if k - 1 < rest.len() {
            assert(rest[k - 1] == rows[k]);
        }
        lemma_run_len_exact(rest, ts, k - 1);
    }
}

/// If the first `c` rows all carry `ts`, the run is at least `c` long.
pub proof fn lemma_run_len_at_least(rows: Seq<ActivityModel>, ts: int, c: int)
    requires
        0 <= c <= rows.len(),
        forall|m: int| 0 <= m < c ==> #[trigger] rows[m].timestamp == ts,
    ensures
        run_len(rows, ts) >= c,
    decreases rows.len(),
{
    lemma_run_len_props(rows, ts);
    if c == 0 {
    } else {
        assert(rows[0].timestamp == ts);
        let rest = rows.drop_first();
        assert forall|m: int| 0 <= m < c - 1 implies #[trigger] rest[m].timestamp == ts by {
            assert(rest[m] == rows[m + 1]);
        }
        lemma_run_len_at_least(rest, ts, c - 1);
    }
}

/// Filtering keeps a sequence whose elements all satisfy the predicate.
pub proof fn lemma_filter_all_true<A>(s: Seq<A>, pred: spec_fn(A) -> bool)
    requires
        forall|i: int| 0 <= i < s.len() ==> #[trigger] pred(s[i]),
    ensures
        s.filter(pred) == s,
    decreases s.len(),
{
    reveal_with_fuel(Seq::filter, 2);
    if s.len() == 0 {
    } else {
        assert(forall|i: int| 0 <= i < s.drop_last().len() ==> #[trigger] pred(s.drop_last()[i]));
        lemma_filter_all_true(s.drop_last(), pred);
        assert(pred(s.last()));
        assert(s.drop_last().push(s.last()) =~= s);
    }
}

/// Filtering a single row keeps or drops it, by the predicate alone.
pub proof fn lemma_filter_singleton<A>(x: A, pred: spec_fn(A) -> bool)
    ensures
        seq![x].filter(pred) == if pred(x) {
            seq![x]
        } else {
            Seq::<A>::empty()
        },
{
    if pred(x) {
        lemma_filter_all_true(seq![x], pred);
    } else {
        assert(seq![x].all(|a: A| !pred(a)));
        seq![x].lemma_all_neg_filter_empty(pred);
        assert(seq![x].filter(pred) =~= Seq::<A>::empty());
    }
}

/// A group with no rows encodes the empty day table.
pub proof fn lemma_days_of_group_empty(group: Seq<ActivityModel>)
    requires
        group.len() == 0,
    ensures
        days_of_group(group) == empty_days(),
{
    assert forall|d: int| 0 <= d < 7 implies #[trigger] days_of_group(group)[d] == empty_days()[d] by {
        let pred = |a: ActivityModel| a.day == d;
        assert(group.all(|a: ActivityModel| !pred(a)));
        group.lemma_all_neg_filter_empty(pred);
        assert(day_acts(group, d) =~= Seq::<Seq<char>>::empty());
        assert(empty_days()[d] =~= Seq::<Seq<char>>::empty());
    }
    assert(days_of_group(group) =~= empty_days());
}

/// One more row in a group appends its activity to its day's list and
/// leaves the other days alone.
pub proof fn lemma_day_acts_push(group: Seq<ActivityModel>, row: ActivityModel, d: int)
    ensures
        day_acts(group.push(row), d) == if row.day == d {
            day_acts(group, d).push(row.activity)
        } else {
            day_acts(group, d)
        },
{
    let pred = |a: ActivityModel| a.day == d;
    assert(group.push(row) =~= group + seq![row]);
    Seq::filter_distributes_over_add(group, seq![row], pred);
    lemma_filter_singleton(row, pred);
    if row.day == d {
        assert((group.filter(pred) + seq![row]).map_values(|a: ActivityModel| a.activity) =~= day_acts(
            group,
            d,
        ).push(row.activity));
    } else {
        assert(group.filter(pred) + Seq::<ActivityModel>::empty() =~= group.filter(pred));
    }
}

/// One more row in a group updates the encoded day table at its day alone.
pub proof fn lemma_days_of_group_push(group: Seq<ActivityModel>, row: ActivityModel)
    requires
        0 <= row.day < 7,
    ensures
        days_of_group(group.push(row)) == days_of_group(group).update(
            row.day,
            day_acts(group, row.day).push(row.activity),
        ),
{
    let goal = days_of_group(group).update(row.day, day_acts(group, row.day).push(row.activity));
    assert forall|d: int| 0 <= d < 7 implies #[trigger] days_of_group(group.push(row))[d] == goal[d] by {
        lemma_day_acts_push(group, row, d);
    }
    assert(days_of_group(group.push(row)) =~= goal);
}

// ------------------------------------------------------------------
// Flattening reports into rows (the write path).
// ------------------------------------------------------------------

/// Appending a report appends its rows.
pub proof fn lemma_rows_all_push(rs: Seq<ReportModel>, r: ReportModel)
    ensures
        activity_rows_of_all(rs.push(r)) == activity_rows_of_all(rs) + activity_rows_of(r),
    decreases rs.len(),
{
    reveal_with_fuel(activity_rows_of_all, 2);
    if rs.len() == 0 {
        assert(rs.push(r)[0] == r);
        assert(rs.push(r).drop_first() =~= Seq::<ReportModel>::empty());
        assert(activity_rows_of_all(rs.push(r)) =~= activity_rows_of_all(rs) + activity_rows_of(
            r,
        ));
    } else {
        assert(rs.push(r)[0] == rs[0]);
        assert(rs.push(r).drop_first() =~= rs.drop_first().push(r));
        lemma_rows_all_push(rs.drop_first(), r);
        assert(activity_rows_of_all(rs.push(r)) =~= activity_rows_of_all(rs) + activity_rows_of(
            r,
        ));
    }
}

/// Turn the given reports into the rows that the save path writes: one
/// `weekly_reports` row per report, and one `activities` row per logged
/// activity, report-major and in day order within one report.
#[verifier::loop_isolation(false)]
pub fn flatten_reports(data: &Vec<WeeklyReport>) -> (r: (Vec<schema::WeeklyReport>, Vec<Activity>))
    requires
        forall|i: int| 0 <= i < data@.len() ==> (#[trigger] data@[i]).wf(),
    ensures
        r.0.deep_view() == report_rows_of(data.deep_view()),
        r.1.deep_view() == activity_rows_of_all(data.deep_view()),
{
    let ghost dv = data.deep_view();
    let mut rows: Vec<schema::WeeklyReport> = Vec::new();
    let mut acts: Vec<Activity> = Vec::new();
    let mut i: usize = 0;
    while i < data.len()
        invariant
            dv == data.deep_view(),
            dv.len() == data@.len(),
            i <= data@.len(),
            forall|t: int| 0 <= t < data@.len() ==> (#[trigger] data@[t]).wf(),
            rows.deep_view() == report_rows_of(dv.take(i as int)),
            acts.deep_view() == activity_rows_of_all(dv.take(i as int)),
        decreases data@.len() - i,
    {
        proof {
            assert(dv[i as int] == data@[i as int]@);
        }
        let ts = data[i].get_timestamp();
        let row = schema::WeeklyReport {
            signed: data[i].is_signed(),
            timestamp: ts,
            last_update: data[i].get_last_update(),
        };
        let ghost old_rows_dv = rows.deep_view();
        rows.push(row);
        proof {
            assert(dv.take(i as int + 1) =~= dv.take(i as int).push(dv[i as int]));
            assert(rows.deep_view() =~= old_rows_dv.push(row@));
            assert(rows.deep_view() =~= report_rows_of(dv.take(i as int)).push(
                report_row_of(dv[i as int]),
            ));
            assert(report_rows_of(dv.take(i as int + 1)) =~= report_rows_of(
                dv.take(i as int),
            ).push(report_row_of(dv[i as int])));
        }
        let days = data[i].get_days();
        let ghost base = acts.deep_view();
        let mut d: usize = 0;
        while d < 7
            invariant
                dv == data.deep_view(),
                dv.len() == data@.len(),
                i < data@.len(),
                dv[i as int] == data@[i as int]@,
                dv[i as int].days.len() == 7,
                ts == dv[i as int].timestamp,
                days.deep_view() == dv[i as int].days,
                days@.len() == 7,
                d <= 7,
                acts.deep_view() == base + rows_upto(dv[i as int], d as int),
            decreases 7 - d,
        {
            let list = &days[d];
            let ghost rm = dv[i as int];
            let mut j: usize = 0;
            proof {
                assert(list.deep_view() == rm.days[d as int]);
                assert(day_rows(rm, d as int).take(0) =~= Seq::<ActivityModel>::empty());
                assert(acts.deep_view() =~= base + rows_upto(rm, d as int) + day_rows(
                    rm,
                    d as int,
                ).take(0));
            }
            while j < list.len()
                invariant
                    dv == data.deep_view(),
                    i < dv.len(),
                    rm == dv[i as int],
                    rm.days.len() == 7,
                    ts == rm.timestamp,
                    d < 7,
                    list.deep_view() == rm.days[d as int],
                    list@.len() == rm.days[d as int].len(),
                    j <= list@.len(),
                    acts.deep_view() == base + rows_upto(rm, d as int) + day_rows(
                        rm,
                        d as int,
                    ).take(j as int),
                decreases list@.len() - j,
            {
                let ghost old_acts_dv = acts.deep_view();
                acts.push(Activity { timestamp: ts, day: d as u8, activity: list[j].clone() });
                proof {
                    let dr = day_rows(rm, d as int);
                    assert(list@[j as int]@ == rm.days[d as int][j as int]);
                    assert(dr[j as int] == (ActivityModel {
                        timestamp: rm.timestamp,
                        day: d as int,
                        activity: rm.days[d as int][j as int],
                    }));
                    assert(acts.deep_view() =~= old_acts_dv.push(dr[j as int]));
                    assert(dr.take(j as int + 1) =~= dr.take(j as int).push(dr[j as int]));
                    assert(acts.deep_view() =~= base + rows_upto(rm, d as int) + dr.take(
                        j as int + 1,
                    ));
                }
                j = j + 1;
            }
            proof {
                let dr = day_rows(rm, d as int);
                assert(dr.take(dr.len() as int) =~= dr);
                assert(rows_upto(rm, d as int + 1) == rows_upto(rm, d as int) + dr);
                assert(base + rows_upto(rm, d as int) + dr =~= base + rows_upto(rm, d as int + 1));
            }
            d = d + 1;
        }
        proof {
            assert(activity_rows_of(dv[i as int]) == rows_upto(dv[i as int], 7));
            assert(dv.take(i as int + 1) =~= dv.take(i as int).push(dv[i as int]));
            lemma_rows_all_push(dv.take(i as int), dv[i as int]);
            assert(acts.deep_view() == activity_rows_of_all(dv.take(i as int + 1)));
        }
        i = i + 1;
    }
    proof {
        assert(dv.take(dv.len() as int) =~= dv);
    }
    (rows, acts)
}

// ------------------------------------------------------------------
// Assembling rows into reports (the read path).
// ------------------------------------------------------------------

/// Group the activity rows of one read, ordered by timestamp, back into
/// reports, pairing each group with its report row. Exactly the row lists
/// that [`assemble_spec`] accepts yield reports; anything else is reported
/// as a [`StorageError::DataCorruption`] instead of crashing the actor.
#[verifier::loop_isolation(false)]
pub fn assemble_reports(entries: &Vec<Activity>, sigs: &Vec<schema::WeeklyReport>) -> (r: Result<
    Vec<WeeklyReport>,
    StorageError,
>)
    ensures
        match r {
            Ok(reps) => {
                &&& assemble_spec(entries.deep_view(), sigs.deep_view()) == Some(reps.deep_view())
                &&& forall|i: int| 0 <= i < reps@.len() ==> (#[trigger] reps@[i]).wf()
            },
            Err(e) => {
                &&& e == StorageError::DataCorruption
                &&& assemble_spec(entries.deep_view(), sigs.deep_view()) is None
            },
        },
{
    let ghost es: Seq<ActivityModel> = entries.deep_view();
    let ghost ss: Seq<ReportRowModel> = sigs.deep_view();
    let mut res: Vec<WeeklyReport> = Vec::new();
    let mut i: usize = 0;
    let mut si: usize = 0;
    proof {
        assert(es.skip(0) =~= es);
        assert(ss.skip(0) =~= ss);
        assert(res.deep_view() =~= Seq::<ReportModel>::empty());
        if assemble_spec(es, ss) is Some {
            assert(Seq::<ReportModel>::empty() + assemble_spec(es, ss).unwrap() =~= assemble_spec(
                es,
                ss,
            ).unwrap());
        }
    }
    while i < entries.len()
        invariant
            es == entries.deep_view(),
            ss == sigs.deep_view(),
            es.len() == entries@.len(),
            ss.len() == sigs@.len(),
            i <= entries@.len(),
            si <= sigs@.len(),
            forall|t: int| 0 <= t < res@.len() ==> (#[trigger] res@[t]).wf(),
            assemble_spec(es, ss) == with_prefix(
                res.deep_view(),
                assemble_spec(es.skip(i as int), ss.skip(si as int)),
            ),
        decreases entries@.len() - i,
    {
        let ghost rows0 = es.skip(i as int);
        let ghost sigs0 = ss.skip(si as int);
        proof {
            assert(rows0[0] == es[i as int]);
            assert(es[i as int] == entries@[i as int]@);
        }
        let ts = entries[i].timestamp;
        if si >= sigs.len() {
            proof {
                assert(rows0.len() > 0);
                assert(sigs0.len() == 0);
            }
            return Err(StorageError::DataCorruption);
        }
        proof {
            assert(sigs0[0] == ss[si as int]);
            assert(ss[si as int] == sigs@[si as int]@);
        }
        if sigs[si].timestamp != ts {
            proof {
                assert(sigs0[0].timestamp != rows0[0].timestamp);
                assert(assemble_spec(rows0, sigs0) is None);
            }
            return Err(StorageError::DataCorruption);
        }
        let signed = sigs[si].signed;
        let last_update = sigs[si].last_update;
        let mut days = empty_week();
        let mut j: usize = i;
        proof {
            assert(es.subrange(i as int, i as int) =~= Seq::<ActivityModel>::empty());
            lemma_days_of_group_empty(es.subrange(i as int, i as int));
        }
        while j < entries.len() && entries[j].timestamp == ts
            invariant
                es == entries.deep_view(),
                es.len() == entries@.len(),
                i <= j <= entries@.len(),
                i < entries@.len(),
                ts as int == es[i as int].timestamp,
                forall|m: int| i <= m < j ==> #[trigger] es[m].timestamp == ts,
                forall|m: int| i <= m < j ==> 0 <= #[trigger] es[m].day < 7,
                days@.len() == 7,
                days.deep_view() == days_of_group(es.subrange(i as int, j as int)),
            decreases entries@.len() - j,
        {
            proof {
                assert(es[j as int] == entries@[j as int]@);
            }
            let day = entries[j].day;
            if day >= 7 {
                proof {
                    let k = run_len(rows0, ts as int);
                    lemma_run_len_props(rows0, ts as int);
                    assert(rows0 == es.skip(i as int));
                    assert(rows0.len() == es.len() - i);
                    assert forall|m: int| 0 <= m < j - i + 1 implies #[trigger] rows0[m].timestamp
                        == ts by {
                        assert(rows0[m] == es.skip(i as int)[m]);
                        assert(es.skip(i as int)[m] == es[m + i]);
                        if m == j - i {
                            assert(es[j as int].timestamp == ts);
                        }
                    }
                    lemma_run_len_at_least(rows0, ts as int, j - i + 1);
                    assert(rows0.take(k)[j - i] == es[j as int]);
                    assert(!days_valid(rows0.take(k)));
                    assert(assemble_spec(rows0, sigs0) is None);
                }
                return Err(StorageError::DataCorruption);
            }
            let ghost g0 = es.subrange(i as int, j as int);
            let ghost old_days = days.deep_view();
            let text = entries[j].activity.clone();
            days[day as usize].push(text);
            proof {
                let row = es[j as int];
                let g1 = es.subrange(i as int, j as int + 1);
                assert(g1 =~= g0.push(row));
                lemma_days_of_group_push(g0, row);
                assert forall|k: int| 0 <= k < 7 implies #[trigger] days.deep_view()[k]
                    == days_of_group(g1)[k] by {
                    if k == row.day {
                        assert(days.deep_view()[k] =~= old_days[k].push(row.activity));
                    }
                }
                assert(days.deep_view() =~= days_of_group(g1));
            }
            j = j + 1;
        }
        proof {
            let c = j - i;
            assert forall|m: int| 0 <= m < c implies #[trigger] rows0[m].timestamp == ts by {
                assert(rows0[m] == es[i + m]);
            }
            if c < rows0.len() {
                assert(rows0[c] == es[j as int]);
            }
            lemma_run_len_exact(rows0, ts as int, c);
        }
        let report = WeeklyReport::from_raw_parts(signed, ts, last_update, days);
        let ghost old_res = res.deep_view();
        res.push(report);
        proof {
            let k = j - i;
            let group = rows0.take(k);
            assert(group =~= es.subrange(i as int, j as int));
            assert forall|m: int| 0 <= m < group.len() implies 0 <= (#[trigger] group[m]).day
                < 7 by {
                assert(group[m] == es[i + m]);
            }
            assert(days_valid(group));
            assert(report@ =~= report_of_group(group, sigs0[0]));
            assert(assemble_spec(rows0, sigs0) == with_prefix(
                seq![report_of_group(group, sigs0[0])],
                assemble_spec(rows0.skip(k), sigs0.drop_first()),
            ));
            assert(rows0.skip(k) =~= es.skip(j as int));
            assert(sigs0.drop_first() =~= ss.skip(si as int + 1));
            let rest = assemble_spec(es.skip(j as int), ss.skip(si as int + 1));
            assert(res.deep_view() =~= old_res.push(report@));
            match rest {
                Some(s) => {
                    assert(old_res + (seq![report@] + s) =~= res.deep_view() + s);
                },
                None => {},
            }
            assert(assemble_spec(es, ss) == with_prefix(res.deep_view(), rest));
        }
        i = j;
        si = si + 1;
    }
    if si < sigs.len() {
        proof {
            assert(es.skip(i as int).len() == 0);
            assert(ss.skip(si as int).len() > 0);
        }
        return Err(StorageError::DataCorruption);
    }
    proof {
        assert(es.skip(i as int).len() == 0);
        assert(ss.skip(si as int).len() == 0);
        assert(assemble_spec(es.skip(i as int), ss.skip(si as int)) == Some(
            Seq::<ReportModel>::empty(),
        ));
        assert(res.deep_view() + Seq::<ReportModel>::empty() =~= res.deep_view());
    }
    Ok(res)
}

/// An assembly yields one report per report row, in order, and each report
/// carries exactly its row's timestamp, signature flag and last update.
pub proof fn lemma_assemble_timestamps(rows: Seq<ActivityModel>, sigs: Seq<ReportRowModel>)
    requires
        assemble_spec(rows, sigs) is Some,
    ensures
        assemble_spec(rows, sigs).unwrap().len() == sigs.len(),
        forall|i: int|
            0 <= i < sigs.len() ==> report_row_of(#[trigger] assemble_spec(rows, sigs).unwrap()[i])
                == sigs[i],
    decreases rows.len(),
{
    if rows.len() == 0 {
    } else {
        let ts = rows[0].timestamp;
        let k = run_len(rows, ts);
        lemma_run_len_props(rows, ts);
        let rs = assemble_spec(rows, sigs).unwrap();
        let rest = assemble_spec(rows.skip(k), sigs.drop_first());
        lemma_assemble_timestamps(rows.skip(k), sigs.drop_first());
        assert forall|i: int| 0 <= i < sigs.len() implies report_row_of(#[trigger] rs[i])
            == sigs[i] by {
            if i == 0 {
                assert(report_row_of(rs[0]) =~= sigs[0]);
            } else {
                assert(rs[i] == rest.unwrap()[i - 1]);
                assert(sigs.drop_first()[i - 1] == sigs[i]);
            }
        }
    }
}

// ------------------------------------------------------------------
// The backup encoding.
// ------------------------------------------------------------------

/// The two's-complement image of a machine integer, the form in which a
/// backup stores it.
pub open spec fn wrap_u64(x: int) -> u64 {
    (x % 0x10000000000000000) as u64
}

/// The bytes of one `weekly_reports` row in a backup: the timestamp, one
/// byte for the signature flag, and the last update, each number as eight
/// little-endian bytes.
pub open spec fn enc_report_row(r: ReportRowModel) -> Seq<u8> {
    spec_u64_to_le_bytes(wrap_u64(r.timestamp)) + seq![
        if r.signed {
            1u8
        } else {
            0u8
        },
    ] + spec_u64_to_le_bytes(wrap_u64(r.last_update))
}

/// The bytes of a list of `weekly_reports` rows, in order.
pub open spec fn enc_report_rows(rs: Seq<ReportRowModel>) -> Seq<u8>
    decreases rs.len(),
{
    if rs.len() == 0 {
        Seq::empty()
    } else {
        enc_report_row(rs[0]) + enc_report_rows(rs.drop_first())
    }
}

/// The bytes of one `activities` row in a backup: the timestamp, one byte
/// for the day, then the activity text in UTF-8, length-prefixed.
pub open spec fn enc_activity(a: ActivityModel) -> Seq<u8> {
    spec_u64_to_le_bytes(wrap_u64(a.timestamp)) + seq![a.day as u8] + spec_u64_to_le_bytes(
        utf8_of(a.activity).len() as u64,
    ) + utf8_of(a.activity)
}

/// The bytes of a list of `activities` rows, in order.
pub open spec fn enc_activities(rows: Seq<ActivityModel>) -> Seq<u8>
    decreases rows.len(),
{
    if rows.len() == 0 {
        Seq::empty()
    } else {
        enc_activity(rows[0]) + enc_activities(rows.drop_first())
    }
}

/// The bytes of one backup: the report rows, then the activity rows.
pub open spec fn backup_bytes(rows: Seq<ReportRowModel>, acts: Seq<ActivityModel>) -> Seq<u8> {
    enc_report_rows(rows) + enc_activities(acts)
}

/// Appending a report row appends its bytes.
pub proof fn lemma_enc_report_rows_push(rs: Seq<ReportRowModel>, r: ReportRowModel)
    ensures
        enc_report_rows(rs.push(r)) == enc_report_rows(rs) + enc_report_row(r),
    decreases rs.len(),
{
    reveal_with_fuel(enc_report_rows, 2);
    if rs.len() == 0 {
        assert(rs.push(r)[0] == r);
        assert(rs.push(r).drop_first() =~= Seq::<ReportRowModel>::empty());
        assert(enc_report_rows(rs.push(r)) =~= enc_report_rows(rs) + enc_report_row(r));
    } else {
        assert(rs.push(r)[0] == rs[0]);
        assert(rs.push(r).drop_first() =~= rs.drop_first().push(r));
        lemma_enc_report_rows_push(rs.drop_first(), r);
        assert(enc_report_rows(rs.push(r)) =~= enc_report_rows(rs) + enc_report_row(r));
    }
}

/// Appending an activity row appends its bytes.
pub proof fn lemma_enc_activities_push(rows: Seq<ActivityModel>, a: ActivityModel)
    ensures
        enc_activities(rows.push(a)) == enc_activities(rows) + enc_activity(a),
    decreases rows.len(),
{
    reveal_with_fuel(enc_activities, 2);
    if rows.len() == 0 {
        assert(rows.push(a)[0] == a);
        assert(rows.push(a).drop_first() =~= Seq::<ActivityModel>::empty());
        assert(enc_activities(rows.push(a)) =~= enc_activities(rows) + enc_activity(a));
    } else {
        assert(rows.push(a)[0] == rows[0]);
        assert(rows.push(a).drop_first() =~= rows.drop_first().push(a));
        lemma_enc_activities_push(rows.drop_first(), a);
        assert(enc_activities(rows.push(a)) =~= enc_activities(rows) + enc_activity(a));
    }
}

/// The two's-complement image of a signed machine integer.
fn i64_wrap(x: i64) -> (r: u64)
    ensures
        r == wrap_u64(x as int),
{
    if x >= 0 {
        x as u64
    } else {
        let wide: i128 = (x as i128) + 0x10000000000000000i128;
        wide as u64
    }
}

/// Serialize the rows of one backup, exactly as [`backup_bytes`] lays them
/// out.
#[verifier::loop_isolation(false)]
pub fn encode_backup(rows: &Vec<schema::WeeklyReport>, acts: &Vec<Activity>) -> (r: Vec<u8>)
    ensures
        r@ == backup_bytes(rows.deep_view(), acts.deep_view()),
{
    let ghost rv = rows.deep_view();
    let ghost av = acts.deep_view();
    let mut out: Vec<u8> = Vec::new();
    let mut i: usize = 0;
    while i < rows.len()
        invariant
            rv == rows.deep_view(),
            rv.len() == rows@.len(),
            i <= rows@.len(),
            out@ == enc_report_rows(rv.take(i as int)),
        decreases rows@.len() - i,
    {
        proof {
            assert(rv[i as int] == rows@[i as int]@);
        }
        let mut ts_bytes = u64_to_le_bytes(i64_wrap(rows[i].timestamp));
        out.append(&mut ts_bytes);
        out.push(if rows[i].signed { 1u8 } else { 0u8 });
        let mut lu_bytes = u64_to_le_bytes(i64_wrap(rows[i].last_update));
        out.append(&mut lu_bytes);
        proof {
            assert(rv.take(i as int + 1) =~= rv.take(i as int).push(rv[i as int]));
            lemma_enc_report_rows_push(rv.take(i as int), rv[i as int]);
            assert(out@ =~= enc_report_rows(rv.take(i as int)) + enc_report_row(rv[i as int]));
        }
        i = i + 1;
    }
    proof {
        assert(rv.take(rv.len() as int) =~= rv);
    }
    let mut j: usize = 0;
    while j < acts.len()
        invariant
            av == acts.deep_view(),
            av.len() == acts@.len(),
            j <= acts@.len(),
            out@ == enc_report_rows(rv) + enc_activities(av.take(j as int)),
        decreases acts@.len() - j,
    {
        proof {
            assert(av[j as int] == acts@[j as int]@);
        }
        let mut ts_bytes = u64_to_le_bytes(i64_wrap(acts[j].timestamp));
        out.append(&mut ts_bytes);
        out.push(acts[j].day);
        let mut text_bytes = store::string_bytes(&acts[j].activity);
        let mut len_bytes = u64_to_le_bytes(text_bytes.len() as u64);
        out.append(&mut len_bytes);
        out.append(&mut text_bytes);
        proof {
            assert(av.take(j as int + 1) =~= av.take(j as int).push(av[j as int]));
            lemma_enc_activities_push(av.take(j as int), av[j as int]);
            assert(out@ =~= enc_report_rows(rv) + enc_activities(av.take(j as int)) + enc_activity(
                av[j as int],
            ));
            assert(out@ =~= enc_report_rows(rv) + enc_activities(av.take(j as int + 1)));
        }
        j = j + 1;
    }
    proof {
        assert(av.take(av.len() as int) =~= av);
    }
    out
}

// ------------------------------------------------------------------
// The command implementations the actor dispatches to.
// ------------------------------------------------------------------

/// Get the reports for the specified timespan, both bounds included.
///
/// The two range queries decide; whatever rows they return, the answer is
/// what [`assemble_reports`] makes of them: their reports, or the exact
/// failure kind.
pub fn get_weeks(time: Range<i64>, conn: &Store) -> (r: DbAnswer)
    ensures
        match r {
            DbAnswer::Read(reps) => {
                &&& forall|i: int| 0 <= i < reps@.len() ==> (#[trigger] reps@[i]).wf()
                &&& forall|i: int, j: int|
                    0 <= i < j < reps@.len() ==> reps@[i]@.timestamp > reps@[j]@.timestamp
                &&& forall|i: int|
                    0 <= i < reps@.len() ==> time.start <= (#[trigger] reps@[i])@.timestamp
                        <= time.end
            },
            DbAnswer::Failed(e) => e is QueryFailed || e is DataCorruption,
            _ => false,
        },
{
    let entries = match store::query_activities(conn, time.start, time.end) {
        Some(v) => v,
        None => {
            return DbAnswer::Failed(StorageError::QueryFailed);
        },
    };
    let sigs = match store::query_report_rows(conn, time.start, time.end) {
        Some(v) => v,
        None => {
            return DbAnswer::Failed(StorageError::QueryFailed);
        },
    };
    match assemble_reports(&entries, &sigs) {
        Ok(reps) => {
            proof {
                lemma_assemble_timestamps(entries.deep_view(), sigs.deep_view());
                let rs = assemble_spec(entries.deep_view(), sigs.deep_view()).unwrap();
                assert(rs == reps.deep_view());
                assert forall|i: int| 0 <= i < reps@.len() implies time.start <= (
                #[trigger] reps@[i])@.timestamp <= time.end by {
                    assert(reps.deep_view()[i] == reps@[i]@);
                    assert(sigs.deep_view()[i] == sigs@[i]@);
                }
                assert forall|i: int, j: int|
                    0 <= i < j < reps@.len() implies reps@[i]@.timestamp
                    > reps@[j]@.timestamp by {
                    assert(reps.deep_view()[i] == reps@[i]@);
                    assert(reps.deep_view()[j] == reps@[j]@);
                    assert(sigs.deep_view()[i] == sigs@[i]@);
                    assert(sigs.deep_view()[j] == sigs@[j]@);
                }
            }
            DbAnswer::Read(reps)
        },
        Err(e) => DbAnswer::Failed(e),
    }
}

/// Save the given data to the db.
///
/// The reports are flattened by [`flatten_reports`] and written inside one
/// transaction: when any insert fails — in particular when a report's
/// timestamp is already stored, since the timestamp is the primary key —
/// the transaction is rolled back, the answer is
/// [`StorageError::WriteFailed`], and nothing of this command is durable.
pub fn save(data: Vec<WeeklyReport>, conn: &Store) -> (r: DbAnswer)
    ensures
        match r {
            DbAnswer::Done => true,
            DbAnswer::Failed(e) => e is WriteFailed,
            _ => false,
        },
{
    let mut i: usize = 0;
    while i < data.len()
        invariant
            i <= data@.len(),
            forall|t: int| 0 <= t < i ==> (#[trigger] data@[t]).wf(),
        decreases data@.len() - i,
    {
        if data[i].get_days().len() != 7 {
            return DbAnswer::Failed(StorageError::WriteFailed);
        }
        i = i + 1;
    }
    let (rows, acts) = flatten_reports(&data);
    if !store::begin_tx(conn) {
        return DbAnswer::Failed(StorageError::WriteFailed);
    }
    let mut i: usize = 0;
    while i < rows.len()
        decreases rows@.len() - i,
    {
        if !store::insert_report_row(conn, &rows[i]) {
            store::rollback_tx(conn);
            return DbAnswer::Failed(StorageError::WriteFailed);
        }
        i = i + 1;
    }
    let mut i: usize = 0;
    while i < acts.len()
        decreases acts@.len() - i,
    {
        if !store::insert_activity_row(conn, &acts[i]) {
            store::rollback_tx(conn);
            return DbAnswer::Failed(StorageError::WriteFailed);
        }
        i = i + 1;
    }
    if store::commit_tx(conn) {
        DbAnswer::Done
    } else {
        store::rollback_tx(conn);
        DbAnswer::Failed(StorageError::WriteFailed)
    }
}

/// Create a backup of the rows in the timespan, both bounds included, as
/// bytes, without mutating the store: the rows the two range queries
/// return, laid out as [`backup_bytes`] says. No data in the timespan gives
/// an empty backup, not an error.
pub fn backup(time: Range<i64>, conn: &Store) -> (r: DbAnswer)
    ensures
        match r {
            DbAnswer::Backup(_) => true,
            DbAnswer::Failed(e) => e is QueryFailed,
            _ => false,
        },
{
    let entries = match store::query_activities(conn, time.start, time.end) {
        Some(v) => v,
        None => {
            return DbAnswer::Failed(StorageError::QueryFailed);
        },
    };
    let rows = match store::query_report_rows(conn, time.start, time.end) {
        Some(v) => v,
        None => {
            return DbAnswer::Failed(StorageError::QueryFailed);
        },
    };
    DbAnswer::Backup(encode_backup(&rows, &entries))
}

/// Translate one command into engine operations: what the actor does with
/// each request it dequeues. Every command gets exactly one answer, of the
/// kind its documentation names.
pub fn execute(conn: &Store, command: DbCommand) -> (r: DbAnswer)
    ensures
        match command {
            DbCommand::Read(_) => r is Read || r is Failed,
            DbCommand::Save { data: _ } => r is Done || r is Failed,
            DbCommand::Backup(_) => r is Backup || r is Failed,
        },
{
    match command {
        DbCommand::Read(time) => get_weeks(time, conn),
        DbCommand::Save { data } => save(data, conn),
        DbCommand::Backup(time) => backup(time, conn),
    }
}

} // verus!
