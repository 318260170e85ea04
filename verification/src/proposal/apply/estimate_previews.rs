//! Previews of the intents that change an estimate already stored under an
//! itinerary. Reading the stored estimate is the caller's: the read is passed
//! in, and what is stated holds whatever it gives back.
use vstd::prelude::*;

use crate::json::{get_member, json_object, JsonMembers, JsonValue};
use crate::models::{Estimate, ExportEstimateV3, ExportItineraryV3, ItineraryItem, TripExportV3};
use crate::proposal::apply::additions::{
    candidate_warnings, day_ensured, db_id_lookup, details_none_except, itinerary_replaced,
    lookup_itinerary_db_id_from_resolved, same_itinerary_fields,
};
use crate::proposal::apply::checks::{dec, same_but_warnings};
use crate::proposal::apply::fields::{
    baseline_check, delete_estimate_id, delete_estimate_null_keys, estimate_baselines,
    detect_delete_estimate_baseline_conflicts, parse_delete_estimate_fields, warn_unsupported_delete_estimate_candidate_keys,
};
use crate::proposal::apply::reorder::day_range_check;
use crate::proposal::apply::fields::{
    detect_update_estimate_baseline_conflicts, expense_amount, parse_update_estimate_amount_value,
    parse_update_estimate_fields, update_estimate_fields, update_estimate_null_keys, update_estimate_view,
    warn_unsupported_update_estimate_candidate_keys, UpdateEstimateView,
};
use crate::json::member;
use crate::money::{currency_format_result, validate_currency_code};
use crate::proposal::apply::{opt_string_copy, ParsedUpdateEstimateFields, UpdateFieldPatch};
use crate::proposal::apply::{
    build_estimate_delete_preview, count_estimates, days_total, ensure_day_in_range, find_itinerary_mut_in_export_day,
    find_or_create_day, first_day_index, first_item_index, itinerary_not_found_message, items_total, push_unique,
    same_except_days, FragmentApplyDryRunReport, FragmentApplyPreviewSummary, ItineraryPart, ResolvedApplyTarget,
};
use crate::proposal::fragment::object_member;
use crate::text::{opt_view, owned, push_str, str_eq, strings_view};

verus! {

/// The checks a change to a stored estimate makes before reading its fields:
/// an unambiguous itinerary target with a day and a sort order, its database
/// id found among the target day's records (`day_items`, as read), its title
/// known.
pub open spec fn estimate_target_check(
    resolved: ResolvedApplyTarget,
    day_items: Result<Vec<ItineraryItem>, String>,
    kind: Seq<char>,
) -> Result<(i64, i64, i64), Seq<char>> {
    if resolved.target_type@ != "itinerary"@ {
        Err(kind + " は itinerary target のみサポートしています（trip / day は未対応）"@)
    } else if resolved.resolution@ == "ambiguous"@ {
        Err("target が曖昧です — apply preview を続行しません"@)
    } else {
        match resolved.day_number {
            None => Err(kind + " の Itinerary target が解決されていません（day）"@),
            Some(d) => match resolved.itinerary_sort_order {
                None => Err(kind + " の Itinerary target が解決されていません（sort_order）"@),
                Some(so) => match db_id_lookup(resolved, day_items) {
                    Err(e) => Err(e),
                    Ok(id) => match resolved.itinerary_title {
                        None => Err(kind + " の Itinerary target が解決されていません（title）"@),
                        Some(_) => Ok((d, so, id)),
                    },
                },
            },
        }
    }
}

fn estimate_target(
    resolved: &ResolvedApplyTarget,
    day_items: Result<Vec<ItineraryItem>, String>,
    kind: &str,
) -> (r: Result<(i64, i64, i64, String), String>)
    ensures
        match r {
            Ok((d, so, id, t)) => {
                &&& estimate_target_check(*resolved, day_items, kind@) == Ok::<(i64, i64, i64), Seq<char>>((d, so, id))
                &&& t@ == resolved.itinerary_title->Some_0@
            },
            Err(e) => estimate_target_check(*resolved, day_items, kind@) == Err::<(i64, i64, i64), Seq<char>>(e@),
        },
{
    if !str_eq(resolved.target_type.as_str(), "itinerary") {
        let mut m = owned(kind);
        push_str(&mut m, " は itinerary target のみサポートしています（trip / day は未対応）");
        return Err(m);
    }
    if str_eq(resolved.resolution.as_str(), "ambiguous") {
        return Err(owned("target が曖昧です — apply preview を続行しません"));
    }
    let d = match resolved.day_number {
        Some(d) => d,
        None => {
            let mut m = owned(kind);
            push_str(&mut m, " の Itinerary target が解決されていません（day）");
            return Err(m);
        },
    };
    let so = match resolved.itinerary_sort_order {
        Some(so) => so,
        None => {
            let mut m = owned(kind);
            push_str(&mut m, " の Itinerary target が解決されていません（sort_order）");
            return Err(m);
        },
    };
    let id = match lookup_itinerary_db_id_from_resolved(resolved, day_items) {
        Ok(id) => id,
        Err(e) => return Err(e),
    };
    match &resolved.itinerary_title {
        Some(t) => Ok((d, so, id, owned(t.as_str()))),
        None => {
            let mut m = owned(kind);
            push_str(&mut m, " の Itinerary target が解決されていません（title）");
            Err(m)
        },
    }
}

/// What reading the stored estimate may give back for this id.
pub open spec fn estimate_read<G: Fn(i64) -> Result<Estimate, String>>(
    read: G,
    id: i64,
    got: Result<Estimate, String>,
) -> bool {
    read.ensures((id,), got)
}

/// The position of the first estimate with this id at or after `i`.
pub open spec fn estimate_position(list: Seq<Estimate>, id: i64, i: int) -> Option<int>
    decreases list.len() - i,
{
    if i < 0 || i >= list.len() {
        None
    } else if list[i].id == id {
        Some(i)
    } else {
        estimate_position(list, id, i + 1)
    }
}

/// Where the estimate stands among the target itinerary's estimates
/// (`listed`, as read).
pub open spec fn estimate_index(listed: Result<Vec<Estimate>, String>, id: i64) -> Result<int, Seq<char>> {
    match listed {
        Err(e) => Err("Estimate 一覧の取得に失敗しました: "@ + e@),
        Ok(list) => match estimate_position(list@, id, 0) {
            Some(i) => Ok(i),
            None => Err("Estimate not found: "@ + dec(id)),
        },
    }
}

/// Finds the position of the estimate among the target itinerary's estimates.
pub fn find_estimate_index_in_itinerary(listed: &Result<Vec<Estimate>, String>, estimate_id: i64) -> (r: Result<
    usize,
    String,
>)
    ensures
        match r {
            Ok(i) => estimate_index(*listed, estimate_id) == Ok::<int, Seq<char>>(i as int),
            Err(e) => estimate_index(*listed, estimate_id) == Err::<int, Seq<char>>(e@),
        },
{
    match listed {
        Err(e) => {
            let mut m = owned("Estimate 一覧の取得に失敗しました: ");
            push_str(&mut m, e.as_str());
            Err(m)
        },
        Ok(list) => {
            let mut i: usize = 0;
            while i < list.len()
                invariant
                    i <= list@.len(),
                    *listed == Ok::<Vec<Estimate>, String>(*list),
                    estimate_position(list@, estimate_id, 0) == estimate_position(list@, estimate_id, i as int),
                decreases list@.len() - i,
            {
                if list[i].id == estimate_id {
                    assert(estimate_position(list@, estimate_id, i as int) == Some(i as int));
                    return Ok(i);
                }
                i = i + 1;
            }
            let mut m = owned("Estimate not found: ");
            crate::text::push_i64_decimal(&mut m, estimate_id);
            Err(m)
        },
    }
}

/// The target itinerary's estimates, as read, are no more than those the
/// preview holds for it.
pub open spec fn listed_estimates_fit(
    export: TripExportV3,
    resolved: ResolvedApplyTarget,
    listed: Result<Vec<Estimate>, String>,
) -> bool {
    match (resolved.day_number, resolved.itinerary_sort_order, listed) {
        (Some(d), Some(so), Ok(list)) => match first_day_index(export.days@, d) {
            Some(k) => match first_item_index(export.days@[k].itineraries@, so) {
                Some(j) => list@.len() <= export.days@[k].itineraries@[j].estimates@.len(),
                None => true,
            },
            None => true,
        },
        _ => true,
    }
}

/// `after` is `before` without its estimate at index `i`.
pub open spec fn estimate_removed(before: ExportItineraryV3, after: ExportItineraryV3, i: int) -> bool {
    &&& same_itinerary_fields(after, before)
    &&& after.expenses == before.expenses && after.reservations == before.reservations
    &&& after.estimates@ == before.estimates@.remove(i)
}

pub open spec fn hard_delete_warning() -> Seq<char> {
    "delete_estimate は hard delete です — confirm 成功後の undo は保証されません"@
}

/// The warnings after adding a line once.
pub open spec fn with_line(before: Seq<Seq<char>>, line: Seq<char>) -> Seq<Seq<char>> {
    if before.contains(line) {
        before
    } else {
        before.push(line)
    }
}

pub open spec fn not_under_message(estimate_id: i64, itinerary_id: i64) -> Seq<char> {
    "Estimate "@ + dec(estimate_id) + " は Itinerary "@ + dec(itinerary_id) + " 配下ではありません"@
}

proof fn lemma_items_total_update(items: Seq<ExportItineraryV3>, j: int, it: ExportItineraryV3, part: ItineraryPart)
    requires
        0 <= j < items.len(),
    ensures
        items_total(items.update(j, it), part) + crate::proposal::apply::part_count(items[j], part) == items_total(
            items,
            part,
        ) + crate::proposal::apply::part_count(it, part),
    decreases items.len(),
{
    let u = items.update(j, it);
    if j == items.len() - 1 {
        assert(u.drop_last() =~= items.drop_last());
    } else {
        lemma_items_total_update(items.drop_last(), j, it, part);
        assert(u.drop_last() =~= items.drop_last().update(j, it));
    }
}

fn estimate_not_found_text(e: &str) -> (r: String)
    ensures
        r@ == "Estimate not found: "@ + e@,
{
    let mut m = owned("Estimate not found: ");
    push_str(&mut m, e);
    m
}

fn not_under_text(estimate_id: i64, itinerary_id: i64) -> (r: String)
    ensures
        r@ == not_under_message(estimate_id, itinerary_id),
{
    let mut m = owned("Estimate ");
    crate::text::push_i64_decimal(&mut m, estimate_id);
    push_str(&mut m, " は Itinerary ");
    crate::text::push_i64_decimal(&mut m, itinerary_id);
    push_str(&mut m, " 配下ではありません");
    m
}

proof fn lemma_estimate_position_bounds(list: Seq<Estimate>, id: i64, i: int)
    ensures
        estimate_position(list, id, i) matches Some(p) ==> i <= p < list.len() && list[p].id == id,
    decreases list.len() - i,
{
    if 0 <= i < list.len() && list[i].id != id {
        lemma_estimate_position_bounds(list, id, i + 1);
    }
}

/// The summary's optional parts, but those of an estimate change, are absent.
pub open spec fn only_estimate_details(s: FragmentApplyPreviewSummary) -> bool {
    &&& s.notes_before is None && s.notes_after is None
    &&& s.expenses_before is None && s.expenses_after is None && s.expense_preview is None
    &&& s.reservations_before is None && s.reservations_after is None && s.reservation_preview is None
    &&& s.itinerary_field_changes is None && s.reorder_preview is None
    &&& s.move_preview is None && s.delete_preview is None
}

/// What deleting the stored estimate `cur` (id `eid`) does once it passed its
/// checks: the day within the trip, the estimate's place among the target's
/// estimates (`listed`), the itinerary in the preview, then the estimate
/// removed there.
pub open spec fn delete_estimate_outcome(
    before: TripExportV3,
    after: TripExportV3,
    r: Result<FragmentApplyPreviewSummary, String>,
    d: i64,
    so: i64,
    id: i64,
    eid: i64,
    cur: Estimate,
    resolved: ResolvedApplyTarget,
    day_count: Result<i64, String>,
    listed: Result<Vec<Estimate>, String>,
    intent: Seq<char>,
    itineraries_before: usize,
    estimates_before: usize,
) -> bool {
    match day_range_check(before, d, day_count) {
        Err(e) => r is Err && r->Err_0@ == e && after == before,
        Ok(_) => match estimate_index(listed, eid) {
            Err(e) => r is Err && r->Err_0@ == e && after == before,
            Ok(i) => match first_day_index(before.days@, d) {
                None => {
                    &&& r is Err && r->Err_0@ == itinerary_not_found_message(d, so)
                    &&& same_except_days(after, before)
                    &&& day_ensured(before.days@, after.days@, d)
                },
                Some(k) => match first_item_index(before.days@[k].itineraries@, so) {
                    None => {
                        &&& r is Err && r->Err_0@ == itinerary_not_found_message(d, so)
                        &&& same_except_days(after, before)
                        &&& after.days@ == before.days@
                    },
                    Some(j) => {
                        &&& same_except_days(after, before)
                        &&& itinerary_replaced(before.days@, after.days@, k, j)
                        &&& estimate_removed(before.days@[k].itineraries@[j], after.days@[k].itineraries@[j], i)
                        &&& r matches Ok(s) && {
                            &&& s.intent@ == intent
                            &&& s.action@ == "delete_estimate"@
                            &&& opt_view(s.candidate_title) == opt_view(cur.title)
                            &&& s.itineraries_before == itineraries_before
                            &&& s.itineraries_after == itineraries_before
                            &&& s.estimates_before == Some(estimates_before)
                            &&& s.estimates_after == Some(
                                (days_total(before.days@, ItineraryPart::Estimates) - 1) as usize,
                            )
                            &&& s.estimate_preview is None && s.estimate_update_preview is None
                            &&& s.estimate_field_changes is None
                            &&& s.estimate_delete_preview matches Some(p) && {
                                &&& p.target_itinerary_id == id
                                &&& p.target_itinerary_title@ == resolved.itinerary_title->Some_0@
                                &&& p.target_estimate_id == cur.id
                                &&& opt_view(p.title) == opt_view(cur.title)
                                &&& p.amount == cur.amount && p.currency@ == cur.currency@
                                &&& opt_view(p.note) == opt_view(cur.note)
                                &&& p.sort_order == cur.sort_order && p.updated_at@ == cur.updated_at@
                            }
                            &&& only_estimate_details(s)
                        }
                    },
                },
            },
        },
    }
}

/// What previewing a `delete_estimate` gives (see `apply_delete_estimate_preview`).
pub open spec fn delete_estimate_preview_outcome<G: Fn(i64) -> Result<Estimate, String>>(
    old_export: TripExportV3,
    final_export: TripExportV3,
    old_report: FragmentApplyDryRunReport,
    final_report: FragmentApplyDryRunReport,
    r: Result<FragmentApplyPreviewSummary, String>,
    resolved: ResolvedApplyTarget,
    fragment: Seq<(String, JsonValue)>,
    intent: Seq<char>,
    itineraries_before: usize,
    estimates_before: usize,
    day_count: Result<i64, String>,
    day_items: Result<Vec<ItineraryItem>, String>,
    listed: Result<Vec<Estimate>, String>,
    read: G,
) -> bool {
    &&& same_but_warnings(old_report, final_report)
    &&& match estimate_target_check(resolved, day_items, "delete_estimate"@) {
        Err(e) => {
            &&& r is Err && r->Err_0@ == e
            &&& final_export == old_export && final_report.warnings == old_report.warnings
        },
        Ok((d, so, id)) => {
            let w1 = candidate_warnings(
                strings_view(old_report.warnings@),
                fragment,
                delete_estimate_null_keys(),
                "delete_estimate"@,
            );
            match delete_estimate_id(fragment) {
                Err(e) => {
                    &&& r is Err && r->Err_0@ == e
                    &&& final_export == old_export && strings_view(final_report.warnings@) == w1
                },
                Ok(eid) => exists|got: Result<Estimate, String>|
                    #![trigger estimate_read(read, eid, got)]
                    {
                        &&& estimate_read(read, eid, got)
                        &&& match got {
                            Err(e) => {
                                &&& r is Err && r->Err_0@ == "Estimate not found: "@ + e@
                                &&& final_export == old_export && strings_view(final_report.warnings@) == w1
                            },
                            Ok(cur) => if cur.itinerary_id != id {
                                &&& r is Err && r->Err_0@ == not_under_message(eid, id)
                                &&& final_export == old_export && strings_view(final_report.warnings@) == w1
                            } else {
                                match baseline_check(
                                    object_member(fragment, "candidate_content"@)->Some_0,
                                    estimate_baselines(cur).push(("expected_updated_at"@, cur.updated_at@)),
                                    0,
                                ) {
                                    Err(e) => {
                                        &&& r is Err && r->Err_0@ == e
                                        &&& final_export == old_export
                                        &&& strings_view(final_report.warnings@) == w1
                                    },
                                    Ok(_) => {
                                        &&& strings_view(final_report.warnings@) == with_line(w1, hard_delete_warning())
                                        &&& delete_estimate_outcome(
                                            old_export,
                                            final_export,
                                            r,
                                            d,
                                            so,
                                            id,
                                            eid,
                                            cur,
                                            resolved,
                                            day_count,
                                            listed,
                                            intent,
                                            itineraries_before,
                                            estimates_before,
                                        )
                                    },
                                }
                            },
                        }
                    },
            }
        },
    }
}

/// Previews deleting a stored estimate under an itinerary target: the target
/// checks (`day_items` are the target day's records as read), the estimate id
/// read from the fragment (unsupported keys warned about), the stored
/// estimate (`read` reads it by id) checked to belong to the target and
/// against the fragment's expected values, the hard-delete warning, the day
/// within the trip (`day_count`, the outcome of validating its dates), and
/// the estimate removed from the preview at its place among the target's
/// estimates (`listed`, as read).
pub fn apply_delete_estimate_preview<G: Fn(i64) -> Result<Estimate, String>>(
    export: &mut TripExportV3,
    resolved: &ResolvedApplyTarget,
    fragment: &JsonMembers,
    intent: &str,
    itineraries_before: usize,
    estimates_before: usize,
    day_count: Result<i64, String>,
    day_items: Result<Vec<ItineraryItem>, String>,
    read: &G,
    listed: Result<Vec<Estimate>, String>,
    report: &mut FragmentApplyDryRunReport,
) -> (r: Result<FragmentApplyPreviewSummary, String>)
    requires
        forall|i: i64| read.requires((i,)),
        days_total(old(export).days@, ItineraryPart::Estimates) <= usize::MAX,
        listed_estimates_fit(*old(export), *resolved, listed),
    ensures
        delete_estimate_preview_outcome(
            *old(export),
            *final(export),
            *old(report),
            *final(report),
            r,
            *resolved,
            fragment@,
            intent@,
            itineraries_before,
            estimates_before,
            day_count,
            day_items,
            listed,
            *read,
        ),
{
    let (d, so, id, target_title) = match estimate_target(resolved, day_items, "delete_estimate") {
        Ok(t) => t,
        Err(e) => return Err(e),
    };
    let candidate = match get_member(fragment, "candidate_content") {
        Some(v) => json_object(v),
        None => None,
    };
    match candidate {
        Some(c) => warn_unsupported_delete_estimate_candidate_keys(c, &mut report.warnings),
        None => {},
    }
    let eid = match parse_delete_estimate_fields(fragment) {
        Ok(eid) => eid,
        Err(e) => return Err(e),
    };
    let c = match candidate {
        Some(c) => c,
        None => return Err(owned("candidate_content object が必要です")),
    };
    let got = read(eid);
    assert(estimate_read(*read, eid, got));
    let cur = match got {
        Ok(cur) => cur,
        Err(e) => return Err(estimate_not_found_text(e.as_str())),
    };
    if cur.itinerary_id != id {
        return Err(not_under_text(eid, id));
    }
    match detect_delete_estimate_baseline_conflicts(c, &cur) {
        Ok(()) => {},
        Err(e) => return Err(e),
    }
    let delete_preview = build_estimate_delete_preview(id, target_title, &cur);
    push_unique(&mut report.warnings, owned("delete_estimate は hard delete です — confirm 成功後の undo は保証されません"));
    proof {
        reveal_strlit("delete_estimate は hard delete です — confirm 成功後の undo は保証されません");
    }
    match ensure_day_in_range(export, d, day_count) {
        Ok(()) => {},
        Err(e) => return Err(e),
    }
    let i = match find_estimate_index_in_itinerary(&listed, eid) {
        Ok(i) => i,
        Err(e) => return Err(e),
    };
    let ghost before = *export;
    proof {
        crate::proposal::apply::lemma_day_index_from_bounds(before.days@, d, 0);
        lemma_estimate_position_bounds(listed->Ok_0@, eid, 0);
    }
    let k = find_or_create_day(export, d);
    let ghost mid = export.days@;
    let mut day = export.days.remove(k);
    let ghost day0 = day;
    proof {
        crate::proposal::apply::lemma_item_index_from_bounds(day0.itineraries@, so, 0);
    }
    match find_itinerary_mut_in_export_day(&mut day, so) {
        Some(it) => {
            it.estimates.remove(i);
        },
        None => {
            export.days.insert(k, day);
            proof {
                assert(export.days@ =~= mid);
                if first_day_index(before.days@, d) is None {
                    assert forall|x: int| 0 <= x < before.days@.len() implies export.days@[x] == before.days@[x] by {
                        assert(mid.subrange(0, k as int)[x] == mid[x]);
                    }
                }
            }
            return Err(crate::proposal::apply::additions::itinerary_missing_text(d, so));
        },
    }
    export.days.insert(k, day);
    let ghost j = first_item_index(day0.itineraries@, so)->Some_0;
    assert forall|x: int| 0 <= x < mid.len() && x != k implies export.days@[x] == mid[x] by {}
    proof {
        assert(export.days@ =~= mid.update(k as int, export.days@[k as int]));
        assert(export.days@[k as int].itineraries@ =~= day0.itineraries@.update(j, export.days@[k as int].itineraries@[j]));
        lemma_items_total_update(day0.itineraries@, j, export.days@[k as int].itineraries@[j], ItineraryPart::Estimates);
        crate::proposal::apply::previews::lemma_days_total_update(mid, k as int, export.days@[k as int], ItineraryPart::Estimates);
    }
    let estimates_after = count_estimates(export);
    let mut summary = crate::proposal::apply::empty_preview_summary(intent, "delete_estimate", itineraries_before);
    summary.candidate_title = crate::proposal::apply::opt_string_copy(&cur.title);
    summary.estimates_before = Some(estimates_before);
    summary.estimates_after = Some(estimates_after);
    summary.estimate_delete_preview = Some(delete_preview);
    Ok(summary)
}

// ---------------------------------------------------------------------------
// Updating a stored estimate.

/// Whether normalizing a text may give `out`.
pub open spec fn normalized_by<N: Fn(&str) -> Option<String>>(normalize: N, t: Seq<char>, out: Option<String>) -> bool {
    exists|s: &str| s@ == t && normalize.ensures((s,), out)
}

/// The currency and amount an update proposes: a named currency must be a
/// valid code (its text also reads the amount); a named amount is read
/// against that currency, or the stored one.
pub open spec fn update_money(current: Estimate, f: ParsedUpdateEstimateFields) -> Result<(Seq<char>, int), Seq<char>> {
    let for_amount: Result<Seq<char>, Seq<char>> = if f.has_currency {
        match f.currency_text {
            Some(t) => Ok(t@),
            None => Err("candidate_content.currency が必要です"@),
        }
    } else {
        Ok(current.currency@)
    };
    match for_amount {
        Err(e) => Err(e),
        Ok(c) => {
            let currency: Result<Seq<char>, Seq<char>> = if f.has_currency {
                match currency_format_result(c) {
                    Ok(v) => Ok(v),
                    Err(e) => Err("candidate_content.currency が不正です: "@ + e),
                }
            } else {
                Ok(current.currency@)
            };
            match currency {
                Err(e) => Err(e),
                Ok(cv) => if f.has_amount {
                    match f.amount_raw {
                        None => Err("candidate_content.amount が必要です"@),
                        Some(raw) => match expense_amount(Some(raw), c) {
                            Ok(a) => Ok((cv, a)),
                            Err(e) => Err(e),
                        },
                    }
                } else {
                    Ok((cv, current.amount as int))
                },
            }
        },
    }
}

/// An optional text the update proposes: cleared, normalized from the
/// patch (by `normalize`), or kept.
pub open spec fn proposed_text<N: Fn(&str) -> Option<String>>(
    normalize: N,
    clear: bool,
    patch: Option<UpdateFieldPatch<String>>,
    current: Option<String>,
    out: Option<String>,
) -> bool {
    if clear {
        out is None
    } else {
        match patch {
            Some(p) => normalized_by(normalize, p.value@, out),
            None => opt_view(out) == opt_view(current),
        }
    }
}

/// `p` is the stored estimate with the update applied.
pub open spec fn is_proposed_estimate<N: Fn(&str) -> Option<String>>(
    normalize: N,
    current: Estimate,
    f: ParsedUpdateEstimateFields,
    p: Estimate,
) -> bool {
    &&& p.id == current.id && p.itinerary_id == current.itinerary_id
    &&& p.created_at@ == current.created_at@ && p.updated_at@ == current.updated_at@
    &&& proposed_text(normalize, f.clear_title, f.title, current.title, p.title)
    &&& proposed_text(normalize, f.clear_note, f.note, current.note, p.note)
    &&& p.sort_order == match f.sort_order {
        Some(x) => x,
        None => current.sort_order,
    }
    &&& update_money(current, f) == Ok::<(Seq<char>, int), Seq<char>>((p.currency@, p.amount as int))
}

fn proposed_text_of<N: Fn(&str) -> Option<String>>(
    normalize: &N,
    clear: bool,
    patch: &Option<UpdateFieldPatch<String>>,
    current: &Option<String>,
) -> (r: Option<String>)
    requires
        forall|s: &str| normalize.requires((s,)),
    ensures
        proposed_text(*normalize, clear, *patch, *current, r),
{
    if clear {
        None
    } else {
        match patch {
            Some(p) => {
                let out = normalize(p.value.as_str());
                assert(normalized_by(*normalize, p.value@, out));
                out
            },
            None => opt_string_copy(current),
        }
    }
}

/// The stored estimate with the update applied (`normalize` tidies a
/// proposed title or note); an invalid currency or amount is an error.
pub fn compute_update_estimate_proposed<N: Fn(&str) -> Option<String>>(
    current: &Estimate,
    fields: &ParsedUpdateEstimateFields,
    normalize: &N,
) -> (r: Result<Estimate, String>)
    requires
        forall|s: &str| normalize.requires((s,)),
    ensures
        match r {
            Ok(p) => is_proposed_estimate(*normalize, *current, *fields, p),
            Err(e) => update_money(*current, *fields) == Err::<(Seq<char>, int), Seq<char>>(e@),
        },
{
    let title = proposed_text_of(normalize, fields.clear_title, &fields.title, &current.title);
    let note = proposed_text_of(normalize, fields.clear_note, &fields.note, &current.note);
    let sort_order = match fields.sort_order {
        Some(x) => x,
        None => current.sort_order,
    };
    let for_amount: &str = if fields.has_currency {
        match &fields.currency_text {
            Some(t) => t.as_str(),
            None => return Err(owned("candidate_content.currency が必要です")),
        }
    } else {
        current.currency.as_str()
    };
    let currency = if fields.has_currency {
        match validate_currency_code(for_amount) {
            Ok(v) => v,
            Err(e) => {
                let mut m = owned("candidate_content.currency が不正です: ");
                push_str(&mut m, e.as_str());
                return Err(m);
            },
        }
    } else {
        owned(current.currency.as_str())
    };
    let amount = if fields.has_amount {
        match &fields.amount_raw {
            None => return Err(owned("candidate_content.amount が必要です")),
            Some(raw) => match parse_update_estimate_amount_value(raw, for_amount) {
                Ok(a) => a,
                Err(e) => return Err(e),
            },
        }
    } else {
        current.amount
    };
    Ok(Estimate {
        id: current.id,
        itinerary_id: current.itinerary_id,
        title,
        amount,
        currency,
        note,
        sort_order,
        created_at: owned(current.created_at.as_str()),
        updated_at: owned(current.updated_at.as_str()),
    })
}

/// The fields an `update_estimate` fragment gives, as read.
pub open spec fn update_fields_read(f: Seq<(String, JsonValue)>, x: ParsedUpdateEstimateFields) -> bool {
    &&& update_estimate_fields(f) == Ok::<UpdateEstimateView, Seq<char>>(update_estimate_view(x))
    &&& match (x.amount_raw, member(object_member(f, "candidate_content"@)->0, "amount"@)) {
        (Some(a), Some(b)) => crate::json::same_json(b, a),
        (None, None) => true,
        _ => false,
    }
}

/// `after` is `before` with its estimate at index `i` taking the proposed values.
pub open spec fn estimate_patched(before: ExportItineraryV3, after: ExportItineraryV3, i: int, p: Estimate) -> bool {
    &&& same_itinerary_fields(after, before)
    &&& after.expenses == before.expenses && after.reservations == before.reservations
    &&& after.estimates@.len() == before.estimates@.len()
    &&& forall|m: int| 0 <= m < before.estimates@.len() && m != i ==> after.estimates@[m] == before.estimates@[m]
    &&& opt_view(after.estimates@[i].title) == opt_view(p.title)
    &&& after.estimates@[i].amount == p.amount
    &&& after.estimates@[i].currency@ == p.currency@
    &&& opt_view(after.estimates@[i].note) == opt_view(p.note)
    &&& after.estimates@[i].sort_order == p.sort_order
}

pub open spec fn estimate_index_missing_message(i: int) -> Seq<char> {
    "preview 内に estimate index "@ + crate::text::nat_decimal(i as nat) + " が見つかりません"@
}

/// What writing the proposed values `p` into the preview does: the day within
/// the trip, the estimate's place among the target's estimates (`listed`),
/// the itinerary and the estimate in the preview, then the estimate patched.
pub open spec fn patch_outcome(
    before: TripExportV3,
    after: TripExportV3,
    rr: Result<(), Seq<char>>,
    d: i64,
    so: i64,
    eid: i64,
    p: Estimate,
    day_count: Result<i64, String>,
    listed: Result<Vec<Estimate>, String>,
) -> bool {
    match day_range_check(before, d, day_count) {
        Err(e) => rr == Err::<(), Seq<char>>(e) && after == before,
        Ok(_) => match estimate_index(listed, eid) {
            Err(e) => rr == Err::<(), Seq<char>>(e) && after == before,
            Ok(i) => match first_day_index(before.days@, d) {
                None => {
                    &&& rr == Err::<(), Seq<char>>(itinerary_not_found_message(d, so))
                    &&& same_except_days(after, before)
                    &&& day_ensured(before.days@, after.days@, d)
                },
                Some(k) => match first_item_index(before.days@[k].itineraries@, so) {
                    None => {
                        &&& rr == Err::<(), Seq<char>>(itinerary_not_found_message(d, so))
                        &&& same_except_days(after, before)
                        &&& after.days@ == before.days@
                    },
                    Some(j) => if i >= before.days@[k].itineraries@[j].estimates@.len() {
                        &&& rr == Err::<(), Seq<char>>(estimate_index_missing_message(i))
                        &&& same_except_days(after, before)
                        &&& after.days@ == before.days@
                    } else {
                        &&& rr is Ok
                        &&& same_except_days(after, before)
                        &&& itinerary_replaced(before.days@, after.days@, k, j)
                        &&& estimate_patched(before.days@[k].itineraries@[j], after.days@[k].itineraries@[j], i, p)
                    },
                },
            },
        },
    }
}

pub open spec fn unit_view(r: Result<FragmentApplyPreviewSummary, String>) -> Result<(), Seq<char>> {
    match r {
        Ok(_) => Ok(()),
        Err(e) => Err(e@),
    }
}

/// What updating the stored estimate `cur` to `p` does once it passed its
/// checks: the preview patched (see `patch_outcome`), and the summary.
pub open spec fn update_estimate_outcome(
    before: TripExportV3,
    after: TripExportV3,
    r: Result<FragmentApplyPreviewSummary, String>,
    d: i64,
    so: i64,
    id: i64,
    cur: Estimate,
    p: Estimate,
    x: ParsedUpdateEstimateFields,
    resolved: ResolvedApplyTarget,
    day_count: Result<i64, String>,
    listed: Result<Vec<Estimate>, String>,
    intent: Seq<char>,
    itineraries_before: usize,
    estimates_before: usize,
) -> bool {
    &&& patch_outcome(before, after, unit_view(r), d, so, x.estimate_id, p, day_count, listed)
    &&& r matches Ok(s) ==> {
        &&& s.intent@ == intent
        &&& s.action@ == "update_estimate"@
        &&& opt_view(s.candidate_title) == opt_view(p.title)
        &&& s.itineraries_before == itineraries_before
        &&& s.itineraries_after == itineraries_before
        &&& s.estimates_before == Some(estimates_before)
        &&& s.estimates_after == Some(estimates_before)
        &&& s.estimate_preview is None && s.estimate_delete_preview is None
        &&& s.estimate_update_preview matches Some(u) && {
            &&& u.target_itinerary_id == id
            &&& u.target_itinerary_title@ == resolved.itinerary_title->Some_0@
            &&& u.target_estimate_id == x.estimate_id
        }
        &&& s.estimate_field_changes matches Some(v) && crate::proposal::apply::estimate_changes_view(v@)
            == crate::proposal::apply::estimate_changes(cur, p, x)
        &&& only_estimate_details(s)
    }
}

fn patch_listed_estimate(
    export: &mut TripExportV3,
    d: i64,
    so: i64,
    eid: i64,
    p: &Estimate,
    day_count: Result<i64, String>,
    listed: &Result<Vec<Estimate>, String>,
) -> (r: Result<(), String>)
    ensures
        patch_outcome(
            *old(export),
            *final(export),
            crate::text::result_view(r),
            d,
            so,
            eid,
            *p,
            day_count,
            *listed,
        ),
{
    match ensure_day_in_range(export, d, day_count) {
        Ok(()) => {},
        Err(e) => return Err(e),
    }
    let i = match find_estimate_index_in_itinerary(listed, eid) {
        Ok(i) => i,
        Err(e) => return Err(e),
    };
    let ghost before = *export;
    proof {
        crate::proposal::apply::lemma_day_index_from_bounds(before.days@, d, 0);
    }
    let k = find_or_create_day(export, d);
    proof {
        crate::proposal::apply::lemma_item_index_from_bounds(export.days@[k as int].itineraries@, so, 0);
        crate::proposal::apply::lemma_day_index_from_bounds(export.days@, d, 0);
        if first_day_index(before.days@, d) is None {
            assert forall|x: int| 0 <= x < before.days@.len() implies export.days@[x] == before.days@[x] by {
                assert(export.days@.subrange(0, k as int)[x] == export.days@[x]);
            }
            let k2 = first_day_index(export.days@, d)->Some_0;
            if k2 < k {
                assert(export.days@[k2] == before.days@[k2]);
            }
            assert(first_day_index(export.days@, d) == Some(k as int));
        }
    }
    let len = match crate::proposal::apply::lookup_itinerary_in_export(export, d, so) {
        Some(it) => it.estimates.len(),
        None => {
            proof {
                if first_day_index(before.days@, d) is None {
                    assert forall|x: int| 0 <= x < before.days@.len() implies export.days@[x] == before.days@[x] by {
                        assert(export.days@.subrange(0, k as int)[x] == export.days@[x]);
                    }
                }
            }
            return Err(crate::proposal::apply::additions::itinerary_missing_text(d, so));
        },
    };
    if i >= len {
        let mut m = owned("preview 内に estimate index ");
        crate::text::push_u64_decimal(&mut m, i as u64);
        push_str(&mut m, " が見つかりません");
        return Err(m);
    }
    let ghost mid = export.days@;
    let mut day = export.days.remove(k);
    let ghost day0 = day;
    match find_itinerary_mut_in_export_day(&mut day, so) {
        Some(it) => {
            let mut e = it.estimates.remove(i);
            crate::proposal::apply::apply_update_estimate_patch(&mut e, p);
            it.estimates.insert(i, e);
            proof {
                assert forall|m: int| 0 <= m < it.estimates@.len() && m != i implies it.estimates@[m]
                    == day0.itineraries@[first_item_index(day0.itineraries@, so)->Some_0].estimates@[m] by {}
            }
        },
        None => {},
    }
    export.days.insert(k, day);
    assert forall|x: int| 0 <= x < mid.len() && x != k implies export.days@[x] == mid[x] by {}
    proof {
        let j = first_item_index(day0.itineraries@, so)->Some_0;
        assert(export.days@[k as int].itineraries@ =~= day0.itineraries@.update(j, export.days@[k as int].itineraries@[j]));
    }
    Ok(())
}

/// The outcome of applying the update to the stored estimate.
pub open spec fn update_proposal(proposed: Result<Estimate, String>) -> Result<Estimate, String> {
    proposed
}

/// An `update_estimate` once its target passed its checks: with the fields
/// read (`x`), the stored estimate as read (`got`) and the update applied to
/// it (`proposed`).
pub open spec fn update_estimate_step<G: Fn(i64) -> Result<Estimate, String>, N: Fn(&str) -> Option<String>>(
    fragment: Seq<(String, JsonValue)>,
    x: ParsedUpdateEstimateFields,
    read: G,
    got: Result<Estimate, String>,
    normalize: N,
    proposed: Result<Estimate, String>,
    before: TripExportV3,
    after: TripExportV3,
    r: Result<FragmentApplyPreviewSummary, String>,
    d: i64,
    so: i64,
    id: i64,
    resolved: ResolvedApplyTarget,
    day_count: Result<i64, String>,
    listed: Result<Vec<Estimate>, String>,
    intent: Seq<char>,
    itineraries_before: usize,
    estimates_before: usize,
) -> bool {
    &&& update_fields_read(fragment, x)
    &&& estimate_read(read, x.estimate_id, got)
    &&& update_proposal(proposed) == proposed
    &&& match got {
        Err(e) => r is Err && r->Err_0@ == "Estimate not found: "@ + e@ && after == before,
        Ok(cur) => if cur.itinerary_id != id {
            r is Err && r->Err_0@ == not_under_message(x.estimate_id, id) && after == before
        } else {
            match baseline_check(object_member(fragment, "candidate_content"@)->Some_0, estimate_baselines(cur), 0) {
                Err(e) => r is Err && r->Err_0@ == e && after == before,
                Ok(_) => match proposed {
                    Err(e) => {
                        &&& update_money(cur, x) == Err::<(Seq<char>, int), Seq<char>>(e@)
                        &&& r is Err && r->Err_0@ == e@ && after == before
                    },
                    Ok(p) => {
                        &&& is_proposed_estimate(normalize, cur, x, p)
                        &&& update_estimate_outcome(
                            before,
                            after,
                            r,
                            d,
                            so,
                            id,
                            cur,
                            p,
                            x,
                            resolved,
                            day_count,
                            listed,
                            intent,
                            itineraries_before,
                            estimates_before,
                        )
                    },
                },
            }
        },
    }
}

/// What previewing an `update_estimate` gives (see `apply_update_estimate_preview`).
pub open spec fn update_estimate_preview_outcome<G: Fn(i64) -> Result<Estimate, String>, N: Fn(&str) -> Option<String>>(
    old_export: TripExportV3,
    final_export: TripExportV3,
    old_report: FragmentApplyDryRunReport,
    final_report: FragmentApplyDryRunReport,
    r: Result<FragmentApplyPreviewSummary, String>,
    resolved: ResolvedApplyTarget,
    fragment: Seq<(String, JsonValue)>,
    intent: Seq<char>,
    itineraries_before: usize,
    estimates_before: usize,
    day_count: Result<i64, String>,
    day_items: Result<Vec<ItineraryItem>, String>,
    listed: Result<Vec<Estimate>, String>,
    read: G,
    normalize: N,
) -> bool {
    &&& same_but_warnings(old_report, final_report)
    &&& match estimate_target_check(resolved, day_items, "update_estimate"@) {
        Err(e) => {
            &&& r is Err && r->Err_0@ == e
            &&& final_export == old_export && final_report.warnings == old_report.warnings
        },
        Ok((d, so, id)) => {
            &&& strings_view(final_report.warnings@) == candidate_warnings(
                strings_view(old_report.warnings@),
                fragment,
                update_estimate_null_keys(),
                "update_estimate"@,
            )
            &&& match update_estimate_fields(fragment) {
                Err(e) => r is Err && r->Err_0@ == e && final_export == old_export,
                Ok(_) => exists|
                    x: ParsedUpdateEstimateFields,
                    got: Result<Estimate, String>,
                    proposed: Result<Estimate, String>,
                |
                    #![trigger update_fields_read(fragment, x), estimate_read(read, x.estimate_id, got), update_proposal(proposed)]
                    update_estimate_step(
                        fragment,
                        x,
                        read,
                        got,
                        normalize,
                        proposed,
                        old_export,
                        final_export,
                        r,
                        d,
                        so,
                        id,
                        resolved,
                        day_count,
                        listed,
                        intent,
                        itineraries_before,
                        estimates_before,
                    ),
            }
        },
    }
}

/// Previews updating a stored estimate under an itinerary target: the
/// target checks (`day_items` are the target day's records as read), the
/// update's fields read from the fragment (unsupported keys warned about),
/// the stored estimate (`read` reads it by id) checked to belong to the
/// target and against the fragment's expected values, the update applied to
/// it (`normalize` tidies a proposed title or note), the day within the trip
/// (`day_count`, the outcome of validating its dates), and the preview's
/// estimate at the same place among the target's estimates (`listed`, as
/// read) given the proposed values.
pub fn apply_update_estimate_preview<G: Fn(i64) -> Result<Estimate, String>, N: Fn(&str) -> Option<String>>(
    export: &mut TripExportV3,
    resolved: &ResolvedApplyTarget,
    fragment: &JsonMembers,
    intent: &str,
    itineraries_before: usize,
    estimates_before: usize,
    day_count: Result<i64, String>,
    day_items: Result<Vec<ItineraryItem>, String>,
    read: &G,
    normalize: &N,
    listed: Result<Vec<Estimate>, String>,
    report: &mut FragmentApplyDryRunReport,
) -> (r: Result<FragmentApplyPreviewSummary, String>)
    requires
        forall|i: i64| read.requires((i,)),
        forall|s: &str| normalize.requires((s,)),
    ensures
        update_estimate_preview_outcome(
            *old(export),
            *final(export),
            *old(report),
            *final(report),
            r,
            *resolved,
            fragment@,
            intent@,
            itineraries_before,
            estimates_before,
            day_count,
            day_items,
            listed,
            *read,
            *normalize,
        ),
{
    let (d, so, id, target_title) = match estimate_target(resolved, day_items, "update_estimate") {
        Ok(t) => t,
        Err(e) => return Err(e),
    };
    let candidate = match get_member(fragment, "candidate_content") {
        Some(v) => json_object(v),
        None => None,
    };
    match candidate {
        Some(c) => warn_unsupported_update_estimate_candidate_keys(c, &mut report.warnings),
        None => {},
    }
    let x = match parse_update_estimate_fields(fragment) {
        Ok(x) => x,
        Err(e) => return Err(e),
    };
    let c = match candidate {
        Some(c) => c,
        None => return Err(owned("candidate_content object が必要です")),
    };
    let ghost before = *export;
    let got = read(x.estimate_id);
    assert(estimate_read(*read, x.estimate_id, got));
    let ghost g = got;
    let cur = match got {
        Ok(cur) => cur,
        Err(e) => {
            let m = estimate_not_found_text(e.as_str());
            assert(update_estimate_step(fragment@, x, *read, g, *normalize, g, before, *export, Err::<FragmentApplyPreviewSummary, String>(m), d, so, id, *resolved, day_count, listed, intent@, itineraries_before, estimates_before));
            return Err(m);
        },
    };
    if cur.itinerary_id != id {
        let m = not_under_text(x.estimate_id, id);
        assert(update_estimate_step(fragment@, x, *read, g, *normalize, g, before, *export, Err::<FragmentApplyPreviewSummary, String>(m), d, so, id, *resolved, day_count, listed, intent@, itineraries_before, estimates_before));
        return Err(m);
    }
    match detect_update_estimate_baseline_conflicts(c, &cur) {
        Ok(()) => {},
        Err(e) => {
            assert(update_estimate_step(fragment@, x, *read, g, *normalize, g, before, *export, Err::<FragmentApplyPreviewSummary, String>(e), d, so, id, *resolved, day_count, listed, intent@, itineraries_before, estimates_before));
            return Err(e);
        },
    }
    let proposed = compute_update_estimate_proposed(&cur, &x, normalize);
    let ghost pr = proposed;
    let p = match proposed {
        Ok(p) => p,
        Err(e) => {
            assert(update_estimate_step(fragment@, x, *read, g, *normalize, pr, before, *export, Err::<FragmentApplyPreviewSummary, String>(e), d, so, id, *resolved, day_count, listed, intent@, itineraries_before, estimates_before));
            return Err(e);
        },
    };
    let changes = crate::proposal::apply::build_update_estimate_field_changes(&cur, &p, &x);
    let out = patch_listed_estimate(export, d, so, x.estimate_id, &p, day_count, &listed);
    match out {
        Ok(()) => {},
        Err(e) => {
            assert(update_estimate_step(fragment@, x, *read, g, *normalize, pr, before, *export, Err::<FragmentApplyPreviewSummary, String>(e), d, so, id, *resolved, day_count, listed, intent@, itineraries_before, estimates_before));
            return Err(e);
        },
    }
    let mut summary = crate::proposal::apply::empty_preview_summary(intent, "update_estimate", itineraries_before);
    summary.candidate_title = opt_string_copy(&p.title);
    summary.estimates_before = Some(estimates_before);
    summary.estimates_after = Some(estimates_before);
    summary.estimate_update_preview = Some(
        crate::proposal::apply::FragmentApplyEstimateUpdatePreview {
            target_itinerary_id: id,
            target_itinerary_title: target_title,
            target_estimate_id: x.estimate_id,
        },
    );
    summary.estimate_field_changes = Some(changes);
    let ghost rr: Result<FragmentApplyPreviewSummary, String> = Ok(summary);
    assert(update_estimate_step(fragment@, x, *read, g, *normalize, pr, before, *export, rr, d, so, id, *resolved, day_count, listed, intent@, itineraries_before, estimates_before));
    Ok(summary)
}

proof fn lemma_no_after_mismatch(changes: Seq<crate::proposal::apply::FragmentApplyEstimateFieldChange>, p: Estimate, i: int)
    requires
        forall|k: int| 0 <= k < changes.len() ==> #[trigger] changes[k].after@ == crate::proposal::apply::estimate_field_display(
            changes[k].field@,
            p,
        ),
    ensures
        crate::proposal::apply::checks::first_after_mismatch(changes, p, i) is None,
    decreases changes.len() - i,
{
    if 0 <= i < changes.len() {
        lemma_no_after_mismatch(changes, p, i + 1);
    }
}

/// The change an `update_estimate` preview shows is the one `--confirm`
/// writes: when the fields, the stored estimate and the proposed values are
/// the same at write time (and so the change list worked out again), and the
/// target resolves to the same itinerary id, the confirm gate finds no
/// difference.
pub proof fn lemma_update_estimate_preview_passes_gate<
    G: Fn(i64) -> Result<Estimate, String>,
    N: Fn(&str) -> Option<String>,
>(
    fragment: Seq<(String, JsonValue)>,
    x: ParsedUpdateEstimateFields,
    read: G,
    cur: Estimate,
    normalize: N,
    p: Estimate,
    before: TripExportV3,
    after: TripExportV3,
    r: Result<FragmentApplyPreviewSummary, String>,
    d: i64,
    so: i64,
    id: i64,
    resolved: ResolvedApplyTarget,
    day_count: Result<i64, String>,
    listed: Result<Vec<Estimate>, String>,
    intent: Seq<char>,
    itineraries_before: usize,
    estimates_before: usize,
    recomputed: Seq<crate::proposal::apply::FragmentApplyEstimateFieldChange>,
)
    requires
        update_estimate_step(
            fragment,
            x,
            read,
            Ok(cur),
            normalize,
            Ok(p),
            before,
            after,
            r,
            d,
            so,
            id,
            resolved,
            day_count,
            listed,
            intent,
            itineraries_before,
            estimates_before,
        ),
        r is Ok,
        crate::proposal::apply::estimate_changes_view(recomputed) == crate::proposal::apply::estimate_changes(cur, p, x),
    ensures
        r->Ok_0.estimate_update_preview matches Some(u) && r->Ok_0.estimate_field_changes matches Some(v)
            && crate::proposal::apply::checks::update_estimate_gate_check(u, v@, id, x, p, recomputed) == Ok::<
            (),
            Seq<char>,
        >(()),
{
    let s = r->Ok_0;
    let v = s.estimate_field_changes->Some_0;
    let changes = crate::proposal::apply::estimate_changes(cur, p, x);
    assert forall|k: int| 0 <= k < v@.len() implies #[trigger] v@[k].after@ == crate::proposal::apply::estimate_field_display(
        v@[k].field@,
        p,
    ) by {
        assert(crate::proposal::apply::estimate_changes_view(v@)[k] == changes[k]);
        let f = |name: Seq<char>, on: bool|
            if on {
                seq![crate::proposal::apply::estimate_change(name, cur, p)]
            } else {
                Seq::<crate::proposal::apply::ChangeView>::empty()
            };
        assert(forall|j: int| 0 <= j < changes.len() ==> changes[j] == crate::proposal::apply::estimate_change(
            changes[j].0,
            cur,
            p,
        )) by {
            assert(changes == f("amount"@, x.has_amount) + f("currency"@, x.has_currency) + f(
                "title"@,
                x.title is Some || x.clear_title,
            ) + f("note"@, x.note is Some || x.clear_note) + f("sort_order"@, x.sort_order is Some));
        }
    }
    lemma_no_after_mismatch(v@, p, 0);
}

} // verus!
