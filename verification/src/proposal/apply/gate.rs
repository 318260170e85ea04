//! Admitting a fragment to `fragment apply`: the checks made before the preview is
//! computed (the fragment valid, its target resolved against the trip), and
//! the decision taken once the preview is known.
use vstd::prelude::*;

use crate::json::{
    as_object, copy_json, get_member, json_document, json_object, member, non_empty_string, non_empty_text, parse_json,
    same_json, JsonValue,
};
use crate::models::{ItineraryItem, Trip};
use crate::proposal::apply::checks::{confirm_scope_error, dec, validate_confirm_scope};
use crate::proposal::apply::target::{resolve_apply_target, target_resolution, target_view};
use crate::proposal::apply::{
    collect_required_decisions, opt_string_copy, required_decisions_of, FragmentApplyDryRunReport,
    FragmentApplyPreviewSummary, FragmentApplyResolvedTarget, ResolvedApplyTarget,
    FRAGMENT_APPLY_REPORT_SCHEMA_VERSION,
};
use crate::proposal::fragment::{analyze_proposal_fragment_json, fragment_errors, fragment_warnings, object_member};
use crate::text::{
    char_ascii_upper, chars_of, opt_view, owned, push_i64_decimal, push_str, push_string, str_trim, strings_view,
    trim_seq, upper_seq,
};
use crate::time::Instant;

verus! {

/// Whether two texts are equal when ASCII letters are compared without case.
pub fn ascii_case_insensitive_eq(a: &str, b: &str) -> (r: bool)
    ensures
        r == (upper_seq(a@) == upper_seq(b@)),
{
    let x = chars_of(a);
    let y = chars_of(b);
    if x.len() != y.len() {
        assert(upper_seq(a@).len() != upper_seq(b@).len());
        return false;
    }
    let mut i: usize = 0;
    while i < x.len()
        invariant
            x@ == a@,
            y@ == b@,
            x@.len() == y@.len(),
            i <= x@.len(),
            forall|j: int| 0 <= j < i ==> crate::text::ascii_upper(x@[j]) == crate::text::ascii_upper(y@[j]),
        decreases x@.len() - i,
    {
        if char_ascii_upper(x[i]) != char_ascii_upper(y[i]) {
            assert(upper_seq(a@)[i as int] != upper_seq(b@)[i as int]);
            return false;
        }
        i = i + 1;
    }
    assert(upper_seq(a@) =~= upper_seq(b@));
    true
}

pub open spec fn validation_failed_message() -> Seq<char> {
    "Proposal Fragment の validation に失敗しました（fragment validate を先に通してください）"@
}

/// The warning when the target names another trip than `--trip` (names
/// compared without ASCII case).
pub open spec fn trip_reference_warnings(target: Seq<(String, JsonValue)>, trip_id: i64, name: Seq<char>) -> Seq<
    Seq<char>,
> {
    match non_empty_text(member(target, "trip_reference"@)) {
        Some(r) => if upper_seq(name) == upper_seq(trim_seq(r)) {
            Seq::empty()
        } else {
            seq![
                "target.trip_reference ("@ + r + ") が --trip "@ + dec(trip_id) + " の名前 ("@ + name
                    + ") と一致しません — CLI の --trip を優先します"@,
            ]
        },
        None => Seq::empty(),
    }
}

/// The fragment's intent (empty when it has none).
pub open spec fn intent_of(fragment: Seq<(String, JsonValue)>) -> Seq<char> {
    match non_empty_text(member(fragment, "intent"@)) {
        Some(t) => t,
        None => Seq::empty(),
    }
}

/// What admitting the fragment finds before the preview, from the parsed document and the
/// trip as read from the database (`trip`; `day_ids` and `trip_days` as for
/// `resolve_apply_target`): the errors and warnings it adds, the decisions
/// left to the user, and, when it may go on, the resolved target, the
/// fragment object and its intent.
pub open spec fn gate_steps(
    doc: Result<JsonValue, Seq<char>>,
    trip_id: i64,
    trip: Result<Trip, String>,
    day_ids: Seq<(i64, i64)>,
    trip_days: Seq<(i64, Vec<ItineraryItem>)>,
) -> (
    Seq<Seq<char>>,
    Seq<Seq<char>>,
    Seq<Seq<char>>,
    Option<
        (
            (Seq<char>, i64, Seq<char>, Option<i64>, Option<i64>, Option<Seq<char>>, Seq<char>),
            JsonValue,
            Seq<char>,
        ),
    >,
) {
    if fragment_errors(doc).len() > 0 {
        (seq![validation_failed_message()] + fragment_errors(doc), Seq::empty(), Seq::empty(), None)
    } else {
        match doc {
            Err(e) => (seq!["JSON の parse に失敗しました: "@ + e], Seq::empty(), Seq::empty(), None),
            Ok(root) => match as_object(root) {
                None => (seq!["トップレベルが JSON object ではありません"@], Seq::empty(), Seq::empty(), None),
                Some(ro) => match object_member(ro, "target"@) {
                    None => (seq!["target object が必要です"@], Seq::empty(), Seq::empty(), None),
                    Some(target) => match member(ro, "fragment"@) {
                        None => (seq!["fragment object が必要です"@], Seq::empty(), Seq::empty(), None),
                        Some(fv) => match as_object(fv) {
                            None => (seq!["fragment object が必要です"@], Seq::empty(), Seq::empty(), None),
                            Some(fo) => {
                                let req = required_decisions_of(Seq::empty(), member(ro, "adoption_hints"@), target);
                                match trip {
                                    Err(e) => (seq![e@], Seq::empty(), req, None),
                                    Ok(t) => {
                                        let w = trip_reference_warnings(target, trip_id, t.name@);
                                        match target_resolution(trip_id, t.name@, target, day_ids, trip_days) {
                                            Err(e) => (seq![e], w, req, None),
                                            Ok(tv) => (Seq::empty(), w, req, Some((tv, fv, intent_of(fo)))),
                                        }
                                    },
                                }
                            },
                        },
                    },
                },
            },
        }
    }
}

/// The report is fresh but for its messages, decisions and resolved target.
pub open spec fn fresh_gate_report(r: FragmentApplyDryRunReport, path: Seq<char>, trip_id: i64, dry_run: bool, confirm: bool) -> bool {
    &&& r.schema_version == FRAGMENT_APPLY_REPORT_SCHEMA_VERSION
    &&& r.file@ == path
    &&& r.trip_id == trip_id
    &&& r.dry_run == dry_run
    &&& r.confirm == confirm
    &&& !r.valid && !r.trip_export_valid
    &&& r.preview is None
    &&& r.inserted_itinerary_id is None && r.inserted_note_id is None && r.inserted_expense_id is None
    &&& r.inserted_reservation_id is None && r.inserted_estimate_id is None
    &&& r.updated_estimate_id is None && r.updated_itinerary_id is None
    &&& r.deleted_itinerary_id is None && r.deleted_estimate_id is None
    &&& r.reordered_itineraries is None && r.moved_itinerary_id is None
    &&& r.moved_itinerary_updated_rows is None
}

/// A resolved target as the report shows it.
pub open spec fn shown_target_view(t: FragmentApplyResolvedTarget) -> (
    Seq<char>,
    i64,
    Seq<char>,
    Option<i64>,
    Option<i64>,
    Option<Seq<char>>,
    Seq<char>,
) {
    (
        t.target_type@,
        t.trip_id,
        t.trip_name@,
        t.day_number,
        t.itinerary_sort_order,
        opt_view(t.itinerary_title),
        t.resolution@,
    )
}

/// The checks of `fragment apply` before its preview: the fragment must pass
/// validation, have a target object and a fragment object, and its target
/// must resolve against the trip (`trip`, `day_ids`, `trip_days`: as read from
/// the database). The report records the validation's warnings, the
/// decisions left to the user and the resolved target; when applying may go
/// on, the resolved target, the fragment object and its intent come back.
pub fn fragment_apply_gate_prelude(
    path: &str,
    json: &str,
    trip_id: i64,
    dry_run: bool,
    confirm: bool,
    trip: &Result<Trip, String>,
    day_ids: &Vec<(i64, i64)>,
    trip_days: &Vec<(i64, Vec<ItineraryItem>)>,
) -> (r: (FragmentApplyDryRunReport, Option<(ResolvedApplyTarget, JsonValue, String)>))
    ensures
        ({
            let doc = json_document(json@);
            let (errs, warns, req, out) = gate_steps(doc, trip_id, *trip, day_ids@, trip_days@);
            &&& fresh_gate_report(r.0, path@, trip_id, dry_run, confirm)
            &&& r.0.fragment_valid == (fragment_errors(doc).len() == 0)
            &&& strings_view(r.0.errors@) == errs
            &&& exists|now: Instant| strings_view(r.0.warnings@) == fragment_warnings(doc, now) + warns
            &&& strings_view(r.0.required_decisions@) == req
            &&& match out {
                None => r.1 is None && r.0.resolved_target is None,
                Some((tv, fv, intent)) => match (r.1, r.0.resolved_target) {
                    (Some((t, f, i)), Some(shown)) => {
                        &&& target_view(t) == tv
                        &&& shown_target_view(shown) == tv
                        &&& same_json(fv, f)
                        &&& i@ == intent
                    },
                    _ => false,
                },
            }
        }),
{
    let ghost doc = json_document(json@);
    let mut report = FragmentApplyDryRunReport::new(path, trip_id, dry_run, confirm);
    let validation = analyze_proposal_fragment_json(path, json);
    let ghost now = choose|now: Instant|
        crate::proposal::fragment::is_fragment_report(validation, path@, json_document(json@), now);
    report.fragment_valid = validation.valid;
    let ghost vw = strings_view(validation.warnings@);
    let mut warnings = validation.warnings;
    assert(strings_view(warnings@) == fragment_warnings(doc, now));
    if !validation.valid {
        let mut errors: Vec<String> = Vec::new();
        push_string(&mut errors, owned("Proposal Fragment の validation に失敗しました（fragment validate を先に通してください）"));
        let mut k: usize = 0;
        let ghost fe = strings_view(validation.errors@);
        while k < validation.errors.len()
            invariant
                k <= validation.errors@.len(),
                fe == strings_view(validation.errors@),
                strings_view(errors@) == seq![validation_failed_message()] + fe.subrange(0, k as int),
            decreases validation.errors@.len() - k,
        {
            push_string(&mut errors, validation.errors[k].clone());
            k = k + 1;
            assert(strings_view(errors@) =~= seq![validation_failed_message()] + fe.subrange(0, k as int));
        }
        assert(fe.subrange(0, k as int) =~= fe);
        report.errors = errors;
        report.warnings = warnings;
        assert(strings_view(report.warnings@) == fragment_warnings(doc, now) + Seq::<Seq<char>>::empty());
        return (report, None);
    }
    let fail = |report: FragmentApplyDryRunReport, warnings: Vec<String>, msg: String| -> (out: (
        FragmentApplyDryRunReport,
        Option<(ResolvedApplyTarget, JsonValue, String)>,
    ))
        ensures
            out.1 is None,
            strings_view(out.0.errors@) == strings_view(report.errors@).push(msg@),
            out.0.warnings == warnings,
            crate::proposal::apply::checks::same_but_messages(out.0, report),
    {
        let mut report = report;
        push_string(&mut report.errors, msg);
        report.warnings = warnings;
        (report, None)
    };
    let parsed = parse_json(json);
    let root = match &parsed {
        Ok(v) => v,
        Err(e) => {
            let mut m = owned("JSON の parse に失敗しました: ");
            push_str(&mut m, e.as_str());
            return fail(report, warnings, m);
        },
    };
    let root_obj = match json_object(root) {
        Some(o) => o,
        None => return fail(report, warnings, owned("トップレベルが JSON object ではありません")),
    };
    let target = match get_member(root_obj, "target") {
        Some(v) => match json_object(v) {
            Some(t) => t,
            None => return fail(report, warnings, owned("target object が必要です")),
        },
        None => return fail(report, warnings, owned("target object が必要です")),
    };
    let fragment_value = match get_member(root_obj, "fragment") {
        Some(v) => v,
        None => return fail(report, warnings, owned("fragment object が必要です")),
    };
    let fragment_body = match json_object(fragment_value) {
        Some(f) => f,
        None => return fail(report, warnings, owned("fragment object が必要です")),
    };
    assert(strings_view(report.required_decisions@) =~= Seq::<Seq<char>>::empty());
    collect_required_decisions(get_member(root_obj, "adoption_hints"), target, &mut report.required_decisions);
    let t = match trip {
        Ok(t) => t,
        Err(e) => return fail(report, warnings, e.clone()),
    };
    let ghost w0 = strings_view(warnings@);
    match non_empty_string(get_member(target, "trip_reference")) {
        Some(trip_ref) => {
            if !ascii_case_insensitive_eq(t.name.as_str(), str_trim(trip_ref.as_str())) {
                let mut m = owned("target.trip_reference (");
                push_str(&mut m, trip_ref.as_str());
                push_str(&mut m, ") が --trip ");
                push_i64_decimal(&mut m, trip_id);
                push_str(&mut m, " の名前 (");
                push_str(&mut m, t.name.as_str());
                push_str(&mut m, ") と一致しません — CLI の --trip を優先します");
                push_string(&mut warnings, m);
            }
        },
        None => {},
    }
    assert(strings_view(warnings@) == w0 + trip_reference_warnings(target@, trip_id, t.name@));
    report.warnings = warnings;
    let resolved = match resolve_apply_target(trip_id, t.name.as_str(), target, day_ids, trip_days, &mut report) {
        Ok(Some(r)) => r,
        _ => return (report, None),
    };
    report.resolved_target = Some(
        FragmentApplyResolvedTarget {
            target_type: owned(resolved.target_type.as_str()),
            trip_id: resolved.trip_id,
            trip_name: owned(resolved.trip_name.as_str()),
            day_number: resolved.day_number,
            itinerary_sort_order: resolved.itinerary_sort_order,
            itinerary_title: opt_string_copy(&resolved.itinerary_title),
            resolution: owned(resolved.resolution.as_str()),
        },
    );
    let intent = match non_empty_string(get_member(fragment_body, "intent")) {
        Some(i) => i,
        None => String::new(),
    };
    let body = copy_json(fragment_value);
    (report, Some((resolved, body, intent)))
}

/// The report is unchanged but for its errors, validity flags and preview.
pub open spec fn same_but_outcome(a: FragmentApplyDryRunReport, b: FragmentApplyDryRunReport) -> bool {
    &&& a.schema_version == b.schema_version
    &&& a.file == b.file
    &&& a.dry_run == b.dry_run
    &&& a.confirm == b.confirm
    &&& a.fragment_valid == b.fragment_valid
    &&& a.trip_id == b.trip_id
    &&& a.warnings == b.warnings
    &&& a.required_decisions == b.required_decisions
    &&& a.resolved_target == b.resolved_target
    &&& a.inserted_itinerary_id == b.inserted_itinerary_id
    &&& a.inserted_note_id == b.inserted_note_id
    &&& a.inserted_expense_id == b.inserted_expense_id
    &&& a.inserted_reservation_id == b.inserted_reservation_id
    &&& a.inserted_estimate_id == b.inserted_estimate_id
    &&& a.updated_estimate_id == b.updated_estimate_id
    &&& a.updated_itinerary_id == b.updated_itinerary_id
    &&& a.deleted_itinerary_id == b.deleted_itinerary_id
    &&& a.deleted_estimate_id == b.deleted_estimate_id
    &&& a.reordered_itineraries == b.reordered_itineraries
    &&& a.moved_itinerary_id == b.moved_itinerary_id
    &&& a.moved_itinerary_updated_rows == b.moved_itinerary_updated_rows
}

/// The decision once the preview is known: `summary` is what
/// simulating the fragment gave, `preview_json` the finalized preview's JSON
/// text (or why it could not be written) and `export_valid`,
/// `export_errors` what validating that text as a trip export found. The
/// preview JSON comes back when the preview is a candidate for `--confirm`
/// (possibly still with decisions left to the user); the report is valid
/// only when nothing at all stands in the way.
pub fn fragment_apply_gate_finish(
    report: FragmentApplyDryRunReport,
    resolved: &ResolvedApplyTarget,
    intent: &str,
    summary: Result<FragmentApplyPreviewSummary, String>,
    preview_json: Result<String, String>,
    export_valid: bool,
    export_errors: Vec<String>,
) -> (r: (FragmentApplyDryRunReport, Option<String>))
    ensures
        same_but_outcome(r.0, report),
        match summary {
            Err(m) => {
                &&& strings_view(r.0.errors@) == strings_view(report.errors@).push(m@)
                &&& r.0.valid == report.valid && r.0.trip_export_valid == report.trip_export_valid
                &&& r.0.preview == report.preview
                &&& r.1 is None
            },
            Ok(s) => match preview_json {
                Err(e) => {
                    &&& strings_view(r.0.errors@) == strings_view(report.errors@).push(
                        "apply preview JSON の生成に失敗しました: "@ + e@,
                    )
                    &&& r.0.valid == report.valid && r.0.trip_export_valid == report.trip_export_valid
                    &&& r.0.preview == report.preview
                    &&& r.1 is None
                },
                Ok(j) => {
                    &&& r.0.trip_export_valid == export_valid
                    &&& if !export_valid {
                        &&& strings_view(r.0.errors@) == strings_view(report.errors@).push(
                            "apply preview が trip validate-export に合格しませんでした"@,
                        ) + strings_view(export_errors@)
                        &&& r.0.valid == report.valid && r.0.preview == report.preview
                        &&& r.1 is None
                    } else if report.errors@.len() > 0 {
                        &&& r.0.errors@ == report.errors@ && r.0.valid == report.valid
                        &&& r.0.preview == Some(s)
                        &&& r.1 is None
                    } else if report.confirm && confirm_scope_error(
                        *resolved,
                        intent@,
                        s,
                        report.required_decisions@.len() > 0,
                    ) is Some {
                        &&& strings_view(r.0.errors@) == strings_view(report.errors@).push(
                            confirm_scope_error(*resolved, intent@, s, report.required_decisions@.len() > 0)->Some_0,
                        )
                        &&& r.0.valid == report.valid && r.0.preview == Some(s)
                        &&& r.1 is None
                    } else if report.required_decisions@.len() > 0 {
                        &&& strings_view(r.0.errors@) == strings_view(report.errors@).push(
                            "required decisions が未解決です — apply preview は valid confirm candidate ではありません"@,
                        )
                        &&& r.0.valid == report.valid && r.0.preview == Some(s)
                        &&& r.1 == Some(j)
                    } else {
                        &&& r.0.errors@ == report.errors@
                        &&& r.0.valid && r.0.preview == Some(s)
                        &&& r.1 == Some(j)
                    }
                },
            },
        },
{
    let mut report = report;
    let s = match summary {
        Ok(s) => s,
        Err(m) => {
            push_string(&mut report.errors, m);
            return (report, None);
        },
    };
    let j = match preview_json {
        Ok(j) => j,
        Err(e) => {
            let mut m = owned("apply preview JSON の生成に失敗しました: ");
            push_str(&mut m, e.as_str());
            push_string(&mut report.errors, m);
            return (report, None);
        },
    };
    report.trip_export_valid = export_valid;
    if !export_valid {
        push_string(&mut report.errors, owned("apply preview が trip validate-export に合格しませんでした"));
        let ghost before = strings_view(report.errors@);
        let ghost r0 = report;
        let mut k: usize = 0;
        while k < export_errors.len()
            invariant
                k <= export_errors@.len(),
                same_but_outcome(report, r0),
                report.valid == r0.valid && report.preview == r0.preview,
                report.trip_export_valid == r0.trip_export_valid,
                strings_view(report.errors@) == before + strings_view(export_errors@).subrange(0, k as int),
            decreases export_errors@.len() - k,
        {
            push_string(&mut report.errors, export_errors[k].clone());
            k = k + 1;
            assert(strings_view(report.errors@) =~= before + strings_view(export_errors@).subrange(0, k as int));
        }
        assert(strings_view(export_errors@).subrange(0, k as int) =~= strings_view(export_errors@));
        return (report, None);
    }
    if report.errors.len() > 0 {
        report.preview = Some(s);
        return (report, None);
    }
    if report.confirm {
        let ghost mid = report;
        let ok = validate_confirm_scope(resolved, intent, &s, &mut report);
        assert(crate::proposal::apply::checks::same_but_errors(mid, report));
        if !ok {
            report.preview = Some(s);
            return (report, None);
        }
    }
    if report.required_decisions.len() > 0 {
        push_string(
            &mut report.errors,
            owned("required decisions が未解決です — apply preview は valid confirm candidate ではありません"),
        );
        report.preview = Some(s);
        return (report, Some(j));
    }
    report.preview = Some(s);
    report.valid = true;
    (report, Some(j))
}

} // verus!
