//! The laws the storage subsystem obeys, stated over the row-level spec
//! functions of [`crate::db::queries`] and proved once and for all.
//!
//! The central one is the round trip: the rows that saving a report list
//! writes assemble back into exactly that list.

use vstd::prelude::*;

use crate::common::ReportModel;
use crate::db::queries::{
    activity_rows_of, activity_rows_of_all, assemble_spec, day_acts, day_rows, days_of_group,
    days_valid, lemma_filter_all_true, lemma_run_len_exact, report_of_group, report_row_of,
    report_rows_of, rows_upto, run_len, with_prefix,
};
use crate::db::schema::ActivityModel;

verus! {

/// Every row a report flattens to carries the report's timestamp and a day
/// position inside the week.
proof fn lemma_rows_upto_props(r: ReportModel, d: int)
    requires
        0 <= d <= 7,
    ensures
        forall|m: int|
            0 <= m < rows_upto(r, d).len() ==> (#[trigger] rows_upto(r, d)[m]).timestamp
                == r.timestamp,
        forall|m: int| 0 <= m < rows_upto(r, d).len() ==> 0 <= (#[trigger] rows_upto(r, d)[m]).day
            < d,
    decreases d,
{
    if d <= 0 {
    } else {
        lemma_rows_upto_props(r, d - 1);
        let prev = rows_upto(r, d - 1);
        let dr = day_rows(r, d - 1);
        assert forall|m: int| 0 <= m < rows_upto(r, d).len() implies (#[trigger] rows_upto(r, d)[m]).timestamp
            == r.timestamp && 0 <= rows_upto(r, d)[m].day < d by {
            if m < prev.len() {
                assert(rows_upto(r, d)[m] == prev[m]);
            } else {
                assert(rows_upto(r, d)[m] == dr[m - prev.len()]);
            }
        }
    }
}

/// A report's flattening is at least as long as any one of its day lists.
proof fn lemma_rows_upto_len(r: ReportModel, d: int, k: int)
    requires
        0 <= k < d <= 7,
    ensures
        rows_upto(r, d).len() >= r.days[k].len(),
    decreases d,
{
    if k == d - 1 {
    } else {
        lemma_rows_upto_len(r, d - 1, k);
    }
}

/// A report with at least one logged activity flattens to at least one row.
proof fn lemma_flatten_nonempty(r: ReportModel)
    requires
        r.wf(),
        r.has_activity(),
    ensures
        activity_rows_of(r).len() > 0,
{
    let d = choose|d: int| 0 <= d < 7 && r.days[d].len() > 0;
    lemma_rows_upto_len(r, 7, d);
}

/// Within a report's flattening, filtering for one day keeps exactly that
/// day's rows.
proof fn lemma_filter_flatten(r: ReportModel, d: int, dd: int)
    requires
        r.wf(),
        0 <= d <= 7,
    ensures
        rows_upto(r, d).filter(|a: ActivityModel| a.day == dd) == if 0 <= dd < d {
            day_rows(r, dd)
        } else {
            Seq::<ActivityModel>::empty()
        },
    decreases d,
{
    let pred = |a: ActivityModel| a.day == dd;
    if d <= 0 {
        assert(rows_upto(r, d).all(|a: ActivityModel| !pred(a)));
        rows_upto(r, d).lemma_all_neg_filter_empty(pred);
        assert(rows_upto(r, d).filter(pred) =~= Seq::<ActivityModel>::empty());
    } else {
        lemma_filter_flatten(r, d - 1, dd);
        let prev = rows_upto(r, d - 1);
        let dr = day_rows(r, d - 1);
        Seq::filter_distributes_over_add(prev, dr, pred);
        if dd == d - 1 {
            assert(forall|m: int| 0 <= m < dr.len() ==> #[trigger] pred(dr[m]));
            lemma_filter_all_true(dr, pred);
            assert(prev.filter(pred) + dr =~= dr);
        } else {
            assert(dr.all(|a: ActivityModel| !pred(a)));
            dr.lemma_all_neg_filter_empty(pred);
            if 0 <= dd < d - 1 {
                assert(prev.filter(pred) + dr.filter(pred) =~= day_rows(r, dd));
            } else {
                assert(prev.filter(pred) + dr.filter(pred) =~= Seq::<ActivityModel>::empty());
            }
        }
    }
}

/// Grouping a report's own flattening by day gives its day table back.
proof fn lemma_days_of_flatten(r: ReportModel)
    requires
        r.wf(),
    ensures
        days_of_group(activity_rows_of(r)) == r.days,
{
    assert forall|dd: int| 0 <= dd < 7 implies #[trigger] days_of_group(activity_rows_of(r))[dd]
        == r.days[dd] by {
        lemma_filter_flatten(r, 7, dd);
        assert(day_acts(activity_rows_of(r), dd) =~= r.days[dd]);
    }
    assert(days_of_group(activity_rows_of(r)) =~= r.days);
}

/// Law: saving reports and reading them back over a range that covers their
/// timestamps returns exactly the saved reports — signature status, both
/// times, and the day tables with per-day activity order preserved.
///
/// Saving writes `activity_rows_of_all(rs)` and `report_rows_of(rs)` (the
/// exact contract of the save path), the range read hands the rows of the
/// range back ordered by descending timestamp (the reports' own order
/// here), and assembling those rows — the exact contract of the read path —
/// yields `rs` again. The reports must carry pairwise distinct timestamps
/// (they are the store's primary key, so saving duplicates fails), here in
/// the descending order the read returns, and each must log at least one
/// activity: a report with none writes no activity rows, and reading the
/// range then finds its report row without any matching activity row and
/// reports corruption rather than inventing an empty report.
pub proof fn lemma_save_read_round_trip(rs: Seq<ReportModel>)
    requires
        forall|i: int| 0 <= i < rs.len() ==> (#[trigger] rs[i]).wf(),
        forall|i: int| 0 <= i < rs.len() ==> (#[trigger] rs[i]).has_activity(),
        forall|i: int, j: int| 0 <= i < j < rs.len() ==> rs[i].timestamp > rs[j].timestamp,
    ensures
        assemble_spec(activity_rows_of_all(rs), report_rows_of(rs)) == Some(rs),
    decreases rs.len(),
{
    let rows = activity_rows_of_all(rs);
    let sigs = report_rows_of(rs);
    if rs.len() == 0 {
        assert(sigs.len() == 0);
        assert(Seq::<ReportModel>::empty() =~= rs);
    } else {
        let r0 = rs[0];
        let rest = rs.drop_first();
        let a0 = activity_rows_of(r0);
        let rows_rest = activity_rows_of_all(rest);
        assert(rows == a0 + rows_rest);
        lemma_flatten_nonempty(r0);
        lemma_rows_upto_props(r0, 7);
        assert(rows[0] == a0[0]);
        assert(rows[0].timestamp == r0.timestamp);

        // The first report's rows are exactly the first run.
        assert forall|m: int| 0 <= m < a0.len() implies (#[trigger] rows[m]).timestamp
            == r0.timestamp by {
            assert(rows[m] == a0[m]);
        }
        if rest.len() > 0 {
            assert(rest[0] == rs[1]);
            lemma_flatten_nonempty(rest[0]);
            lemma_rows_upto_props(rest[0], 7);
            assert(rows_rest == activity_rows_of(rest[0]) + activity_rows_of_all(
                rest.drop_first(),
            ));
            assert(rows_rest[0] == activity_rows_of(rest[0])[0]);
            assert(rows_rest[0].timestamp == rest[0].timestamp);
            assert(rows[a0.len() as int] == rows_rest[0]);
            assert(rows[a0.len() as int].timestamp != r0.timestamp);
        } else {
            assert(rows_rest.len() == 0);
        }
        lemma_run_len_exact(rows, r0.timestamp, a0.len() as int);

        // The first group rebuilds the first report.
        let k = run_len(rows, r0.timestamp);
        let group = rows.take(k);
        assert(group =~= a0);
        assert forall|m: int| 0 <= m < group.len() implies 0 <= (#[trigger] group[m]).day < 7 by {
            assert(group[m] == a0[m]);
        }
        assert(days_valid(group));
        assert(sigs[0] == report_row_of(r0));
        lemma_days_of_flatten(r0);
        assert(report_of_group(group, sigs[0]) =~= r0);

        // The remaining rows rebuild the remaining reports.
        assert forall|i: int| 0 <= i < rest.len() implies (#[trigger] rest[i]).wf()
            && rest[i].has_activity() by {
            assert(rest[i] == rs[i + 1]);
        }
        assert forall|i: int, j: int| 0 <= i < j < rest.len() implies rest[i].timestamp
            > rest[j].timestamp by {
            assert(rest[i] == rs[i + 1]);
            assert(rest[j] == rs[j + 1]);
        }
        lemma_save_read_round_trip(rest);
        assert(rows.skip(k) =~= rows_rest);
        assert(sigs.drop_first() =~= report_rows_of(rest));
        assert(assemble_spec(rows, sigs) == with_prefix(seq![r0], Some(rest)));
        assert(seq![r0] + rest =~= rs);
    }
}

/// Law: a store holding nothing — no activity rows, no report rows — reads
/// back as the empty report list, with no error.
pub proof fn lemma_read_of_empty_store()
    ensures
        assemble_spec(Seq::<ActivityModel>::empty(), Seq::empty()) == Some(
            Seq::<ReportModel>::empty(),
        ),
{
}

} // verus!
