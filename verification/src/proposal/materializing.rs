//! The steps of materializing a Trip Proposal Envelope: the checks before
//! the trip's dates are validated, the trip export built from the proposal
//! once the trip's length is known, and the decision once that export has
//! been written as JSON and validated.
use vstd::prelude::*;

use crate::json::{
    as_object, copy_json, get_member, get_value_member, json_document, json_object, member, non_empty_string,
    non_empty_text, parse_json, same_json, value_member, JsonMembers, JsonValue,
};
use crate::models::{Trip, TripExportV3, TRIP_EXPORT_GENERATOR, TRIP_EXPORT_SCHEMA_VERSION};
use crate::proposal::envelope::{analyze_proposal_envelope_json, envelope_errors, envelope_warnings};
use crate::models::{ExportDayV3, ExportItineraryV3};
use crate::proposal::materialize::{
    build_export_days, built_days, day_is_adoptable, day_model, days_model, has_adoptable_content, itinerary_model,
    lemma_built_days_total, model_total, DayModel, ProposalMaterializeOutputSummary,
    append_unique, collect_required_decisions, materialize_dates, needs_date_decision, resolve_materialize_dates,
    trimmed_texts, ProposalMaterializeDryRunReport, ProposalMaterializeParams,
    PROPOSAL_MATERIALIZE_REPORT_SCHEMA_VERSION,
};
use crate::text::{opt_view, owned, push_str, push_string, strings_view};
use crate::time::Instant;

verus! {

pub open spec fn envelope_failed_message() -> Seq<char> {
    "Trip Proposal Envelope の validation に失敗しました（proposal validate を先に通してください）"@
}

/// What materializing finds before the dates are validated, from the parsed
/// document and the dates given on the command line: the errors it adds, the
/// decisions left to the user, and, when it may go on, the proposal object
/// and the dates to use.
pub open spec fn materialize_prelude_steps(
    doc: Result<JsonValue, Seq<char>>,
    start_param: Option<Seq<char>>,
    end_param: Option<Seq<char>>,
) -> (Seq<Seq<char>>, Seq<Seq<char>>, Option<(JsonValue, Seq<char>, Seq<char>)>) {
    if envelope_errors(doc).len() > 0 {
        (seq![envelope_failed_message()] + envelope_errors(doc), Seq::empty(), None)
    } else {
        match doc {
            Err(e) => (seq!["JSON の parse に失敗しました: "@ + e], Seq::empty(), None),
            Ok(root) => match value_member(Some(root), "proposal"@) {
                None => (seq!["proposal object が必要です"@], Seq::empty(), None),
                Some(pv) => match as_object(pv) {
                    None => (seq!["proposal object が必要です"@], Seq::empty(), None),
                    Some(po) => {
                        let req0 = append_unique(
                            Seq::empty(),
                            trimmed_texts(value_member(value_member(Some(root), "materialize_hints"@), "required_decisions"@)),
                        );
                        let req = if req0.len() == 0 && materialize_dates(po, None, None) is Err {
                            req0.push("start_date / end_date の確定"@)
                        } else {
                            req0
                        };
                        match materialize_dates(po, start_param, end_param) {
                            Err(e) => (seq![e], req, None),
                            Ok((s, e)) => (Seq::empty(), req, Some((pv, s, e))),
                        }
                    },
                },
            },
        }
    }
}

/// The report is fresh but for what `materialize_prelude` fills in.
pub open spec fn fresh_materialize_report(r: ProposalMaterializeDryRunReport, path: Seq<char>, dry_run: bool, confirm: bool) -> bool {
    &&& r.schema_version == PROPOSAL_MATERIALIZE_REPORT_SCHEMA_VERSION
    &&& r.file@ == path
    &&& r.dry_run == dry_run
    &&& r.confirm == confirm
    &&& !r.valid && !r.trip_export_valid
    &&& r.output is None && r.trip_id is None
}

/// The checks of `proposal materialize` before the trip's dates are
/// validated: the envelope must pass validation and hold a proposal object,
/// and dates must be found (the command line's first, then the proposal's).
/// The report records the validation's warnings and the decisions left to
/// the user; when materializing may go on, the proposal and the two dates
/// come back.
pub fn materialize_prelude(
    path: &str,
    json: &str,
    params: &ProposalMaterializeParams,
    dry_run: bool,
    confirm: bool,
) -> (r: (ProposalMaterializeDryRunReport, Option<(JsonValue, String, String)>))
    ensures
        ({
            let doc = json_document(json@);
            let (errs, req, out) = materialize_prelude_steps(doc, opt_view(params.start_date), opt_view(params.end_date));
            &&& fresh_materialize_report(r.0, path@, dry_run, confirm)
            &&& r.0.envelope_valid == (envelope_errors(doc).len() == 0)
            &&& strings_view(r.0.errors@) == errs
            &&& exists|now: Instant| strings_view(r.0.warnings@) == envelope_warnings(doc, now)
            &&& strings_view(r.0.required_decisions@) == req
            &&& match out {
                None => r.1 is None,
                Some((pv, s, e)) => match r.1 {
                    Some((p, s2, e2)) => same_json(pv, p) && s2@ == s && e2@ == e,
                    None => false,
                },
            }
        }),
{
    let ghost doc = json_document(json@);
    let mut report = ProposalMaterializeDryRunReport::new(path, dry_run, confirm);
    let validation = analyze_proposal_envelope_json(path, json);
    let ghost now = choose|now: Instant|
        crate::proposal::envelope::is_envelope_report(validation, path@, json_document(json@), now);
    report.envelope_valid = validation.valid;
    report.warnings = validation.warnings;
    if !validation.valid {
        push_string(
            &mut report.errors,
            owned("Trip Proposal Envelope の validation に失敗しました（proposal validate を先に通してください）"),
        );
        let ghost fe = strings_view(validation.errors@);
        let ghost first = strings_view(report.errors@);
        let mut k: usize = 0;
        while k < validation.errors.len()
            invariant
                k <= validation.errors@.len(),
                fe == strings_view(validation.errors@),
                strings_view(report.errors@) == first + fe.subrange(0, k as int),
                fresh_materialize_report(report, path@, dry_run, confirm),
                report.envelope_valid == validation.valid,
                strings_view(report.warnings@) == envelope_warnings(doc, now),
                report.required_decisions@.len() == 0,
            decreases validation.errors@.len() - k,
        {
            push_string(&mut report.errors, validation.errors[k].clone());
            k = k + 1;
            assert(strings_view(report.errors@) =~= first + fe.subrange(0, k as int));
        }
        assert(fe.subrange(0, k as int) =~= fe);
        assert(strings_view(report.required_decisions@) =~= Seq::<Seq<char>>::empty());
        return (report, None);
    }
    assert(strings_view(report.required_decisions@) =~= Seq::<Seq<char>>::empty());
    let parsed = parse_json(json);
    let root = match &parsed {
        Ok(v) => v,
        Err(e) => {
            let mut m = owned("JSON の parse に失敗しました: ");
            push_str(&mut m, e.as_str());
            push_string(&mut report.errors, m);
            return (report, None);
        },
    };
    let proposal_value = match get_value_member(Some(root), "proposal") {
        Some(v) => v,
        None => {
            push_string(&mut report.errors, owned("proposal object が必要です"));
            return (report, None);
        },
    };
    let proposal = match json_object(proposal_value) {
        Some(p) => p,
        None => {
            push_string(&mut report.errors, owned("proposal object が必要です"));
            return (report, None);
        },
    };
    collect_required_decisions(get_value_member(Some(root), "materialize_hints"), &mut report.required_decisions);
    if report.required_decisions.len() == 0 && needs_date_decision(proposal) {
        push_string(&mut report.required_decisions, owned("start_date / end_date の確定"));
    }
    match resolve_materialize_dates(proposal, params) {
        Ok((s, e)) => (report, Some((copy_json(proposal_value), s, e))),
        Err(e) => {
            push_string(&mut report.errors, e);
            (report, None)
        },
    }
}

// ---------------------------------------------------------------------------
// The trip export.

/// A day with something to adopt, as plain values.
pub open spec fn model_adoptable(d: DayModel) -> bool {
    ||| match d.1 {
        Some(s) => crate::text::trim_seq(s).len() > 0,
        None => false,
    }
    ||| exists|j: int| 0 <= j < d.2.len() && crate::text::trim_seq(#[trigger] d.2[j].0).len() > 0
}

proof fn lemma_adoptable_model(day: ExportDayV3)
    ensures
        day_is_adoptable(day) == model_adoptable(day_model(day)),
{
    let m = day_model(day);
    if exists|j: int| 0 <= j < day.itineraries@.len() && crate::text::trim_seq(#[trigger] day.itineraries@[j].title@).len() > 0 {
        let j = choose|j: int| 0 <= j < day.itineraries@.len() && crate::text::trim_seq(#[trigger] day.itineraries@[j].title@).len() > 0;
        assert(m.2[j].0 == day.itineraries@[j].title@);
    }
    if exists|j: int| 0 <= j < m.2.len() && crate::text::trim_seq(#[trigger] m.2[j].0).len() > 0 {
        let j = choose|j: int| 0 <= j < m.2.len() && crate::text::trim_seq(#[trigger] m.2[j].0).len() > 0;
        assert(m.2[j].0 == day.itineraries@[j].title@);
    }
}

pub open spec fn out_of_range_message(d: i64, n: i64) -> Seq<char> {
    "days[].day_number ("@ + crate::text::int_decimal(d as int) + ") が旅行期間 (1..="@ + crate::text::int_decimal(n as int)
        + ") の範囲外です"@
}

/// An error for each day whose number lies outside `1..=n`, in order.
pub open spec fn out_of_range_lines(days: Seq<DayModel>, n: i64) -> Seq<Seq<char>>
    decreases days.len(),
{
    if days.len() == 0 {
        Seq::empty()
    } else {
        let prev = out_of_range_lines(days.drop_last(), n);
        let d = days.last().0;
        if d < 1 || d > n {
            prev.push(out_of_range_message(d, n))
        } else {
            prev
        }
    }
}

proof fn lemma_total_prefix(days: Seq<DayModel>, k: int)
    requires
        0 <= k <= days.len(),
    ensures
        model_total(days.subrange(0, k)) <= model_total(days),
    decreases days.len() - k,
{
    if k < days.len() {
        lemma_total_prefix(days, k + 1);
        assert(days.subrange(0, k + 1).drop_last() =~= days.subrange(0, k));
    } else {
        assert(days.subrange(0, k) =~= days);
    }
}

/// The trip's name: the proposal's title, else "Untitled trip".
pub open spec fn trip_name_of(proposal: Seq<(String, JsonValue)>) -> Seq<char> {
    match non_empty_text(member(proposal, "title"@)) {
        Some(t) => t,
        None => "Untitled trip"@,
    }
}

/// The trip of the export: the proposal's name and notes, the dates, no id,
/// and `now` as both timestamps.
pub open spec fn is_materialized_trip(t: Trip, proposal: Seq<(String, JsonValue)>, start: Seq<char>, end: Seq<char>, now: Seq<char>) -> bool {
    &&& t.id == 0
    &&& t.name@ == trip_name_of(proposal)
    &&& opt_view(t.start_date) == Some(start)
    &&& opt_view(t.end_date) == Some(end)
    &&& opt_view(t.summary) == non_empty_text(member(proposal, "notes"@))
    &&& t.created_at@ == now
    &&& t.updated_at@ == now
}

/// The trip export that materializing builds, and its summary in the
/// report: the export carries this program's name, `generator_version` and
/// `exported_at`, the trip of `is_materialized_trip`, the days `model` with
/// no expenses, estimates or reservations on any itinerary, and empty
/// checklist, notes and participants; the summary gives the trip's name,
/// dates, length `n` and itinerary count.
pub open spec fn is_materialized_export(
    x: TripExportV3,
    o: ProposalMaterializeOutputSummary,
    proposal: Seq<(String, JsonValue)>,
    start_date: Seq<char>,
    end_date: Seq<char>,
    n: i64,
    model: Seq<DayModel>,
    generator_version: Seq<char>,
    exported_at: Seq<char>,
    now: Seq<char>,
) -> bool {
    &&& x.schema_version == Some(TRIP_EXPORT_SCHEMA_VERSION)
    &&& opt_view(x.generator) == Some(TRIP_EXPORT_GENERATOR@)
    &&& opt_view(x.generator_version) == Some(generator_version)
    &&& opt_view(x.exported_at) == Some(exported_at)
    &&& is_materialized_trip(x.trip, proposal, start_date, end_date, now)
    &&& days_model(x.days@) == model
    &&& crate::proposal::materialize::no_itinerary_children(x.days@)
    &&& crate::models::opt_vec_view(x.checklist_items).len() == 0 && x.checklist_items is Some
    &&& crate::models::opt_vec_view(x.notes).len() == 0 && x.notes is Some
    &&& crate::models::opt_vec_view(x.participants).len() == 0 && x.participants is Some
    &&& o.trip_name@ == trip_name_of(proposal)
    &&& o.start_date@ == start_date && o.end_date@ == end_date
    &&& o.day_count == n
    &&& o.itinerary_count == model_total(model)
}

/// What `materialize_trip_export` gives for this trip length (see there).
pub open spec fn trip_export_outcome(
    report: ProposalMaterializeDryRunReport,
    r: (ProposalMaterializeDryRunReport, Option<TripExportV3>),
    proposal: Seq<(String, JsonValue)>,
    start_date: Seq<char>,
    end_date: Seq<char>,
    day_count: Result<i64, String>,
    generator_version: Seq<char>,
    exported_at: Seq<char>,
    now: Seq<char>,
) -> bool {
    match day_count {
        Err(e) => {
            &&& strings_view(r.0.errors@) == strings_view(report.errors@).push(e@)
            &&& r.0.warnings == report.warnings && r.0.output == report.output
            &&& r.1 is None
        },
        Ok(n) => {
            let (model, w) = built_days(proposal, strings_view(report.warnings@), n);
            &&& strings_view(r.0.warnings@) == w
            &&& if !(exists|i: int| 0 <= i < model.len() && model_adoptable(#[trigger] model[i])) {
                &&& strings_view(r.0.errors@) == strings_view(report.errors@).push(
                    "採用可能な Day / Itinerary がありません（candidate_days / candidate_itineraries が空です）"@,
                )
                &&& r.0.output == report.output
                &&& r.1 is None
            } else {
                &&& strings_view(r.0.errors@) == strings_view(report.errors@) + out_of_range_lines(model, n)
                &&& if r.0.errors@.len() > 0 {
                    r.0.output == report.output && r.1 is None
                } else {
                    match (r.1, r.0.output) {
                        (Some(x), Some(o)) => is_materialized_export(
                            x,
                            o,
                            proposal,
                            start_date,
                            end_date,
                            n,
                            model,
                            generator_version,
                            exported_at,
                            now,
                        ),
                        _ => false,
                    }
                }
            }
        },
    }
}

/// Builds the trip export from the proposal once the trip's length is known
/// (`day_count`, the outcome of validating the two dates): the days from the
/// candidates (skipped candidates are warned about), refused when nothing can
/// be adopted or a day lies outside the trip; the export carries this
/// program's name, `generator_version`, `exported_at`, and `now` as the trip's
/// timestamps. The report gets the output's summary.
#[verifier::spinoff_prover]
#[verifier::rlimit(40)]
pub fn materialize_trip_export(
    report: ProposalMaterializeDryRunReport,
    proposal: &JsonMembers,
    start_date: &str,
    end_date: &str,
    day_count: Result<i64, String>,
    generator_version: &str,
    exported_at: &str,
    now: &str,
) -> (r: (ProposalMaterializeDryRunReport, Option<TripExportV3>))
    requires
        crate::proposal::envelope::array_elements(member(proposal@, "candidate_days"@)).len() < i64::MAX,
        crate::proposal::envelope::array_elements(member(proposal@, "candidate_itineraries"@)).len() < i64::MAX,
        crate::proposal::envelope::array_elements(member(proposal@, "candidate_itineraries"@)).len() <= usize::MAX,
    ensures
        r.0.schema_version == report.schema_version && r.0.file == report.file,
        r.0.dry_run == report.dry_run && r.0.confirm == report.confirm,
        r.0.valid == report.valid && r.0.envelope_valid == report.envelope_valid,
        r.0.trip_export_valid == report.trip_export_valid,
        r.0.required_decisions == report.required_decisions && r.0.trip_id == report.trip_id,
        trip_export_outcome(
            report,
            r,
            proposal@,
            start_date@,
            end_date@,
            day_count,
            generator_version@,
            exported_at@,
            now@,
        ),
{
    let ghost report_in = report;
    let mut report = report;
    let n = match day_count {
        Ok(n) => n,
        Err(e) => {
            push_string(&mut report.errors, e);
            return (report, None);
        },
    };
    let ghost w_before = strings_view(report.warnings@);
    let days = build_export_days(proposal, n, &mut report.warnings);
    let ghost model = days_model(days@);
    proof {
        assert forall|i: int| 0 <= i < days@.len() implies day_is_adoptable(days@[i]) == model_adoptable(model[i]) by {
            lemma_adoptable_model(days@[i]);
        }
    }
    if !has_adoptable_content(days.as_slice()) {
        push_string(
            &mut report.errors,
            owned("採用可能な Day / Itinerary がありません（candidate_days / candidate_itineraries が空です）"),
        );
        return (report, None);
    }
    let ghost wi = choose|i: int| 0 <= i < days@.len() && day_is_adoptable(#[trigger] days@[i]);
    assert(model_adoptable(model[wi]));
    let ghost e0 = strings_view(report.errors@);
    let ghost r0 = report;
    let mut i: usize = 0;
    assert(days@.subrange(0, 0) =~= Seq::<ExportDayV3>::empty());
    while i < days.len()
        invariant
            i <= days@.len(),
            model == days_model(days@),
            strings_view(report.errors@) == e0 + out_of_range_lines(days_model(days@.subrange(0, i as int)), n),
            report.schema_version == r0.schema_version && report.file == r0.file,
            report.dry_run == r0.dry_run && report.confirm == r0.confirm,
            report.valid == r0.valid && report.envelope_valid == r0.envelope_valid,
            report.trip_export_valid == r0.trip_export_valid,
            report.required_decisions == r0.required_decisions && report.trip_id == r0.trip_id,
            report.warnings == r0.warnings && report.output == r0.output,
        decreases days@.len() - i,
    {
        let d = days[i].day_number;
        assert(days_model(days@.subrange(0, i + 1)).drop_last() =~= days_model(days@.subrange(0, i as int)));
        if d < 1 || d > n {
            let mut m = owned("days[].day_number (");
            crate::text::push_i64_decimal(&mut m, d);
            push_str(&mut m, ") が旅行期間 (1..=");
            crate::text::push_i64_decimal(&mut m, n);
            push_str(&mut m, ") の範囲外です");
            push_string(&mut report.errors, m);
        }
        i = i + 1;
    }
    assert(days@.subrange(0, i as int) =~= days@);
    assert((model, strings_view(report.warnings@)) == built_days(proposal@, w_before, n));
    assert(exists|i: int| 0 <= i < model.len() && model_adoptable(#[trigger] model[i]));
    assert(strings_view(report.errors@) == e0 + out_of_range_lines(model, n));
    if report.errors.len() > 0 {
        assert(report.output == r0.output && report.warnings@ == r0.warnings@);
        assert(strings_view(report.warnings@) == built_days(proposal@, w_before, n).1);
        assert(exists|i: int| 0 <= i < model.len() && model_adoptable(#[trigger] model[i]));
        assert(trip_export_outcome(
            report_in,
            (report, None),
            proposal@,
            start_date@,
            end_date@,
            day_count,
            generator_version@,
            exported_at@,
            now@,
        ));
        return (report, None);
    }
    let trip_name = match non_empty_string(get_member(proposal, "title")) {
        Some(t) => t,
        None => owned("Untitled trip"),
    };
    let mut count: usize = 0;
    let mut k: usize = 0;
    proof {
        lemma_built_days_total(proposal@, w_before, n);
    }
    while k < days.len()
        invariant
            k <= days@.len(),
            model == days_model(days@),
            count == model_total(model.subrange(0, k as int)),
            model_total(model) <= usize::MAX,
        decreases days@.len() - k,
    {
        proof {
            lemma_total_prefix(model, k + 1);
        }
        assert(model.subrange(0, k + 1).drop_last() =~= model.subrange(0, k as int));
        count = count + days[k].itineraries.len();
        k = k + 1;
    }
    assert(model.subrange(0, k as int) =~= model);
    let summary = ProposalMaterializeOutputSummary {
        trip_name: owned(trip_name.as_str()),
        start_date: owned(start_date),
        end_date: owned(end_date),
        day_count: n,
        itinerary_count: count,
    };
    let export = TripExportV3 {
        schema_version: Some(TRIP_EXPORT_SCHEMA_VERSION),
        generator: Some(owned(TRIP_EXPORT_GENERATOR)),
        generator_version: Some(owned(generator_version)),
        exported_at: Some(owned(exported_at)),
        trip: Trip {
            id: 0,
            name: trip_name,
            start_date: Some(owned(start_date)),
            end_date: Some(owned(end_date)),
            summary: non_empty_string(get_member(proposal, "notes")),
            created_at: owned(now),
            updated_at: owned(now),
        },
        days,
        checklist_items: Some(Vec::new()),
        notes: Some(Vec::new()),
        participants: Some(Vec::new()),
    };
    report.output = Some(summary);
    (report, Some(export))
}

/// The decision once the trip export has been written as JSON (`trip_json`,
/// or why it could not be) and validated as a trip export (`export_valid`,
/// `export_errors`): the JSON comes back, and the report is valid, only when
/// it passed.
pub fn materialize_finish(
    report: ProposalMaterializeDryRunReport,
    trip_json: Result<String, String>,
    export_valid: bool,
    export_errors: Vec<String>,
) -> (r: (ProposalMaterializeDryRunReport, Option<String>))
    ensures
        r.0.schema_version == report.schema_version && r.0.file == report.file,
        r.0.dry_run == report.dry_run && r.0.confirm == report.confirm,
        r.0.envelope_valid == report.envelope_valid && r.0.warnings == report.warnings,
        r.0.required_decisions == report.required_decisions && r.0.trip_id == report.trip_id,
        r.0.output == report.output,
        match trip_json {
            Err(e) => {
                &&& strings_view(r.0.errors@) == strings_view(report.errors@).push(
                    "schema v8 Trip JSON の生成に失敗しました: "@ + e@,
                )
                &&& r.0.valid == report.valid && r.0.trip_export_valid == report.trip_export_valid
                &&& r.1 is None
            },
            Ok(j) => {
                &&& r.0.trip_export_valid == export_valid
                &&& if export_valid {
                    r.0.errors == report.errors && r.0.valid && r.1 == Some(j)
                } else {
                    &&& strings_view(r.0.errors@) == strings_view(report.errors@).push(
                        "生成した schema v8 Trip JSON が trip validate-export に合格しませんでした"@,
                    ) + strings_view(export_errors@)
                    &&& r.0.valid == report.valid
                    &&& r.1 is None
                }
            },
        },
{
    let mut report = report;
    let j = match trip_json {
        Ok(j) => j,
        Err(e) => {
            let mut m = owned("schema v8 Trip JSON の生成に失敗しました: ");
            push_str(&mut m, e.as_str());
            push_string(&mut report.errors, m);
            return (report, None);
        },
    };
    report.trip_export_valid = export_valid;
    if !export_valid {
        push_string(&mut report.errors, owned("生成した schema v8 Trip JSON が trip validate-export に合格しませんでした"));
        let ghost before = strings_view(report.errors@);
        let ghost r0 = report;
        let mut k: usize = 0;
        while k < export_errors.len()
            invariant
                k <= export_errors@.len(),
                strings_view(report.errors@) == before + strings_view(export_errors@).subrange(0, k as int),
                report.schema_version == r0.schema_version && report.file == r0.file,
                report.dry_run == r0.dry_run && report.confirm == r0.confirm,
                report.envelope_valid == r0.envelope_valid && report.warnings == r0.warnings,
                report.required_decisions == r0.required_decisions && report.trip_id == r0.trip_id,
                report.output == r0.output && report.valid == r0.valid,
                report.trip_export_valid == r0.trip_export_valid,
            decreases export_errors@.len() - k,
        {
            push_string(&mut report.errors, export_errors[k].clone());
            k = k + 1;
            assert(strings_view(report.errors@) =~= before + strings_view(export_errors@).subrange(0, k as int));
        }
        assert(strings_view(export_errors@).subrange(0, k as int) =~= strings_view(export_errors@));
        return (report, None);
    }
    report.valid = true;
    (report, Some(j))
}


// ---------------------------------------------------------------------------
// The whole of materializing a proposal.

/// A proposal's candidate lists are short enough for their positions to be
/// numbered.
pub open spec fn candidate_lists_fit(proposal: Seq<(String, JsonValue)>) -> bool {
    &&& crate::proposal::envelope::array_elements(member(proposal, "candidate_days"@)).len() < i64::MAX
    &&& crate::proposal::envelope::array_elements(member(proposal, "candidate_itineraries"@)).len() < i64::MAX
    &&& crate::proposal::envelope::array_elements(member(proposal, "candidate_itineraries"@)).len() <= usize::MAX
}

/// The decisions `materialize_prelude` leaves to the user never repeat.
pub proof fn lemma_prelude_decisions_no_repeats(
    doc: Result<JsonValue, Seq<char>>,
    start_param: Option<Seq<char>>,
    end_param: Option<Seq<char>>,
)
    ensures
        crate::proposal::apply::no_repeats(materialize_prelude_steps(doc, start_param, end_param).1),
{
    if envelope_errors(doc).len() == 0 {
        if let Ok(root) = doc {
            if let Some(pv) = value_member(Some(root), "proposal"@) {
                if let Some(po) = as_object(pv) {
                    let texts = trimmed_texts(
                        value_member(value_member(Some(root), "materialize_hints"@), "required_decisions"@),
                    );
                    crate::proposal::materialize::lemma_append_unique_no_repeats(Seq::empty(), texts);
                }
            }
        }
    }
}

proof fn lemma_member_same(x: Seq<(String, JsonValue)>, y: Seq<(String, JsonValue)>, k: Seq<char>)
    requires
        x.len() == y.len(),
        forall|i: int| 0 <= i < x.len() ==> (#[trigger] x[i]).0@ == y[i].0@ && same_json(x[i].1, y[i].1),
    ensures
        match (member(x, k), member(y, k)) {
            (None, None) => true,
            (Some(a), Some(b)) => same_json(a, b),
            _ => false,
        },
    decreases x.len(),
{
    if x.len() > 0 && x[0].0@ != k {
        let (xs, ys) = (x.drop_first(), y.drop_first());
        assert forall|i: int| 0 <= i < xs.len() implies (#[trigger] xs[i]).0@ == ys[i].0@ && same_json(
            xs[i].1,
            ys[i].1,
        ) by {
            assert(xs[i] == x[i + 1]);
        }
        lemma_member_same(xs, ys, k);
    }
}

proof fn lemma_lists_fit_same(pv: JsonValue, p: JsonValue)
    requires
        same_json(pv, p),
        as_object(pv) is Some,
    ensures
        as_object(p) is Some,
        candidate_lists_fit(as_object(pv)->Some_0) == candidate_lists_fit(as_object(p)->Some_0),
{
    let (x, y) = (as_object(pv)->Some_0, as_object(p)->Some_0);
    lemma_member_same(x, y, "candidate_days"@);
    lemma_member_same(x, y, "candidate_itineraries"@);
}

fn candidate_list_len(proposal: &JsonMembers, key: &str) -> (r: usize)
    ensures
        r == crate::proposal::envelope::array_elements(member(proposal@, key@)).len(),
{
    match get_member(proposal, key) {
        Some(v) => match &v.kind {
            crate::json::JsonKind::Array(a) => a.len(),
            _ => 0,
        },
        None => 0,
    }
}

/// The trip JSON `j` is what `to_json` wrote of the export `x` built from the
/// proposal `pv` (held as its copy `p`) with the dates `s` and `e`, whose
/// trip length `n` is what `day_count_of` found for them; `o` is the
/// report's summary of that export.
pub open spec fn materialized_json<D, S>(
    j: Seq<char>,
    x: TripExportV3,
    o: ProposalMaterializeOutputSummary,
    pv: JsonValue,
    p: JsonValue,
    s: Seq<char>,
    e: Seq<char>,
    a: &str,
    b: &str,
    n: i64,
    w: Seq<Seq<char>>,
    day_count_of: D,
    to_json: S,
    generator_version: Seq<char>,
    exported_at: Seq<char>,
    now: Seq<char>,
) -> bool where
    D: Fn(&str, &str) -> Result<i64, String>,
    S: Fn(&TripExportV3) -> Result<String, String>,
 {
    &&& same_json(pv, p)
    &&& as_object(p) is Some
    &&& a@ == s && b@ == e
    &&& day_count_of.ensures((a, b), Ok::<i64, String>(n))
    &&& is_materialized_export(
        x,
        o,
        as_object(p)->Some_0,
        s,
        e,
        n,
        built_days(as_object(p)->Some_0, w, n).0,
        generator_version,
        exported_at,
        now,
    )
    &&& exists|jj: String| jj@ == j && #[trigger] to_json.ensures((&x,), Ok::<String, String>(jj))
}

/// Materializes a Trip Proposal Envelope as a trip export: the checks of
/// `materialize_prelude`, the trip's length from its two dates (`day_count_of`,
/// which validates a date range), the export of `materialize_trip_export`
/// (carrying `generator_version`, `exported_at` and `now`), its JSON text
/// (`to_json`) and that text validated as a trip export (`validate_export`),
/// then `materialize_finish`. The report is valid exactly when the trip JSON
/// comes back, and the decisions it leaves to the user never repeat. `None`
/// only where a candidate list of the proposal is too long to be numbered.
pub fn materialize_proposal_envelope_json<D, S, V>(
    path: &str,
    json: &str,
    params: &ProposalMaterializeParams,
    dry_run: bool,
    confirm: bool,
    day_count_of: &D,
    to_json: &S,
    validate_export: &V,
    generator_version: &str,
    exported_at: &str,
    now: &str,
) -> (r: Option<(ProposalMaterializeDryRunReport, Option<String>)>) where
    D: Fn(&str, &str) -> Result<i64, String>,
    S: Fn(&TripExportV3) -> Result<String, String>,
    V: Fn(&String) -> (bool, Vec<String>),

    requires
        forall|a: &str, b: &str| day_count_of.requires((a, b)),
        forall|x: &TripExportV3| to_json.requires((x,)),
        forall|j: &String| validate_export.requires((j,)),
    ensures
        ({
            let doc = json_document(json@);
            let steps = materialize_prelude_steps(doc, opt_view(params.start_date), opt_view(params.end_date));
            &&& r is None <==> (steps.2 matches Some((pv, _, _)) && !candidate_lists_fit(as_object(pv)->Some_0))
            &&& r matches Some((rep, tj)) ==> {
                &&& rep.valid <==> tj is Some
                &&& crate::proposal::apply::no_repeats(strings_view(rep.required_decisions@))
                &&& strings_view(rep.required_decisions@) == steps.1
                &&& rep.envelope_valid == (envelope_errors(doc).len() == 0)
                &&& rep.file@ == path@ && rep.dry_run == dry_run && rep.confirm == confirm
                &&& steps.2 is None ==> tj is None && strings_view(rep.errors@) == steps.0
                &&& tj matches Some(j) ==> {
                    &&& rep.errors@.len() == 0 && rep.trip_export_valid && rep.envelope_valid
                    &&& rep.output is Some
                    &&& steps.2 matches Some((pv, s, e)) && exists|
                        p: JsonValue,
                        a: &str,
                        b: &str,
                        n: i64,
                        w: Seq<Seq<char>>,
                        x: TripExportV3,
                    |
                        #[trigger] materialized_json(
                            j@,
                            x,
                            rep.output->Some_0,
                            pv,
                            p,
                            s,
                            e,
                            a,
                            b,
                            n,
                            w,
                            *day_count_of,
                            *to_json,
                            generator_version@,
                            exported_at@,
                            now@,
                        )
                    &&& exists|es: Vec<String>| #[trigger] validate_export.ensures((&j,), (true, es))
                }
            }
        }),
{
    let ghost doc = json_document(json@);
    let ghost steps = materialize_prelude_steps(doc, opt_view(params.start_date), opt_view(params.end_date));
    proof {
        lemma_prelude_decisions_no_repeats(doc, opt_view(params.start_date), opt_view(params.end_date));
    }
    let (report, pre) = materialize_prelude(path, json, params, dry_run, confirm);
    let (p, start, end) = match pre {
        None => return Some((report, None)),
        Some(x) => x,
    };
    proof {
        lemma_lists_fit_same(steps.2->Some_0.0, p);
    }
    let proposal = match json_object(&p) {
        Some(o) => o,
        None => return Some((report, None)),
    };
    let days_len = candidate_list_len(proposal, "candidate_days");
    let items_len = candidate_list_len(proposal, "candidate_itineraries");
    if !((days_len as u64) < 9223372036854775807u64 && (items_len as u64) < 9223372036854775807u64) {
        return None;
    }
    let ghost w_before = strings_view(report.warnings@);
    let sa: &str = start.as_str();
    let sb: &str = end.as_str();
    let day_count = day_count_of(sa, sb);
    let (report, export) = materialize_trip_export(
        report,
        proposal,
        sa,
        sb,
        day_count,
        generator_version,
        exported_at,
        now,
    );
    let export = match export {
        Some(x) => x,
        None => return Some((report, None)),
    };
    let trip_json = to_json(&export);
    let (export_valid, export_errors) = match &trip_json {
        Ok(j) => validate_export(j),
        Err(_) => (false, Vec::new()),
    };
    let ghost tj = trip_json;
    let ghost ev = (export_valid, export_errors);
    assert(to_json.ensures((&export,), tj));
    assert(tj matches Ok(j) ==> validate_export.ensures((&j,), ev));
    let out = materialize_finish(report, trip_json, export_valid, export_errors);
    let ghost o1 = out.1;
    proof {
        if let Some(j) = o1 {
            assert(tj == Ok::<String, String>(j));
            assert(to_json.ensures((&export,), Ok::<String, String>(j)));
            assert(validate_export.ensures((&j,), (true, ev.1)));
            assert(materialized_json(
                j@,
                export,
                out.0.output->Some_0,
                steps.2->Some_0.0,
                p,
                start@,
                end@,
                sa,
                sb,
                day_count->Ok_0,
                w_before,
                *day_count_of,
                *to_json,
                generator_version@,
                exported_at@,
                now@,
            ));
        }
    }
    Some(out)
}

} // verus!
