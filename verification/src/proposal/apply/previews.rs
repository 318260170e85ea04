//! Previews of removing and editing records: deleting an itinerary (refused
//! while records still hang on it), updating an itinerary's fields, and
//! updating or deleting one of its estimates.
use vstd::prelude::*;

use crate::models::{ExportDayV3, ExportItineraryV3, ItineraryItem, TripExportV3};
use crate::proposal::apply::checks::dec;
use crate::proposal::apply::moving::{find_with_sort, first_with_sort};
use crate::proposal::apply::{resolved_apply_target_to_fragment_target, FragmentApplyResolvedTarget};
use crate::proposal::apply::checks::same_but_errors;
use crate::proposal::apply::reorder::day_range_check;
use crate::proposal::apply::{
    blocking_children_total, count_itineraries, count_itinerary_notes_in_export, days_total, ensure_day_in_range,
    first_day_index, first_item_index, items_total, itinerary_not_found_message, itinerary_note_count,
    lemma_day_index_from_bounds, lemma_item_index_from_bounds, lemma_removed_notes_are_counted,
    lookup_itinerary_in_export, notes_without_itinerary, opt_string_copy, remove_itinerary_from_export,
    remove_itinerary_notes_from_export, same_except_days, same_except_days_and_notes, without_sort_order, FragmentApplyBlockingChildren,
    FragmentApplyDeletePreview, FragmentApplyDryRunReport, FragmentApplyPreviewSummary, ItineraryPart,
    ResolvedApplyTarget,
};
use crate::text::{nat_decimal, opt_view, owned, push_str, push_string, str_eq, strings_view, usize_to_string};

verus! {

// ---------------------------------------------------------------------------
// Counting what is left.

pub(crate) proof fn lemma_items_total_itself(items: Seq<ExportItineraryV3>)
    ensures
        items_total(items, ItineraryPart::Itself) == items.len(),
    decreases items.len(),
{
    if items.len() > 0 {
        lemma_items_total_itself(items.drop_last());
    }
}

proof fn lemma_without_sort_order_len(items: Seq<ExportItineraryV3>, sort_order: i64)
    ensures
        without_sort_order(items, sort_order).len() <= items.len(),
    decreases items.len(),
{
    if items.len() > 0 {
        lemma_without_sort_order_len(items.drop_first(), sort_order);
    }
}

/// Replacing one day changes the total by what that day contributes.
pub(crate) proof fn lemma_days_total_update(days: Seq<ExportDayV3>, k: int, d: ExportDayV3, part: ItineraryPart)
    requires
        0 <= k < days.len(),
    ensures
        days_total(days.update(k, d), part) + items_total(days[k].itineraries@, part) == days_total(days, part)
            + items_total(d.itineraries@, part),
    decreases days.len(),
{
    let u = days.update(k, d);
    if k == days.len() - 1 {
        assert(u.drop_last() =~= days.drop_last());
    } else {
        lemma_days_total_update(days.drop_last(), k, d, part);
        assert(u.drop_last() =~= days.drop_last().update(k, d));
    }
}

// ---------------------------------------------------------------------------
// Deleting an itinerary.

/// The database id of the itinerary an itinerary target names: the first of
/// the target day's records (`day_items`, the outcome of reading them) with
/// its sort order.
pub open spec fn target_item_id(
    target_type: Seq<char>,
    day_number: Option<i64>,
    sort_order: Option<i64>,
    day_items: Result<Vec<ItineraryItem>, String>,
) -> Result<i64, Seq<char>> {
    if target_type != "itinerary"@ {
        Err("itinerary target の apply のみサポートしています（現在: "@ + target_type + "）"@)
    } else {
        match day_number {
            None => Err("Itinerary target が解決されていません（day）"@),
            Some(d) => match sort_order {
                None => Err("Itinerary target が解決されていません（sort_order）"@),
                Some(so) => match day_items {
                    Err(e) => Err(e@),
                    Ok(items) => match first_with_sort(items@, so, 0) {
                        Some(i) => Ok(items@[i].id),
                        None => Err(
                            "itinerary_reference (sort_order "@ + dec(so) + ") が Day "@ + dec(d) + " に見つかりません"@,
                        ),
                    },
                },
            },
        }
    }
}

/// Looks up the database id of the itinerary an itinerary target names among
/// the records of its day, as read (`day_items`).
pub fn resolve_itinerary_id_for_apply_target(
    target: &FragmentApplyResolvedTarget,
    day_items: Result<Vec<ItineraryItem>, String>,
) -> (r: Result<i64, String>)
    ensures
        crate::text::result_view(r) == target_item_id(
            target.target_type@,
            target.day_number,
            target.itinerary_sort_order,
            day_items,
        ),
{
    if !str_eq(target.target_type.as_str(), "itinerary") {
        let mut m = owned("itinerary target の apply のみサポートしています（現在: ");
        push_str(&mut m, target.target_type.as_str());
        push_str(&mut m, "）");
        return Err(m);
    }
    let d = match target.day_number {
        Some(d) => d,
        None => return Err(owned("Itinerary target が解決されていません（day）")),
    };
    let so = match target.itinerary_sort_order {
        Some(so) => so,
        None => return Err(owned("Itinerary target が解決されていません（sort_order）")),
    };
    let items = match day_items {
        Ok(items) => items,
        Err(e) => return Err(e),
    };
    match find_with_sort(&items, so) {
        Some(i) => Ok(items[i].id),
        None => {
            let mut m = owned("itinerary_reference (sort_order ");
            crate::text::push_i64_decimal(&mut m, so);
            push_str(&mut m, ") が Day ");
            crate::text::push_i64_decimal(&mut m, d);
            push_str(&mut m, " に見つかりません");
            Err(m)
        },
    }
}

/// The checks of a delete: an unambiguous itinerary target within the trip's
/// dates, whose database id could be found among its day's records
/// (`day_items`, as read), and which the
/// preview holds. On success: its id, day and sort order, and where the
/// preview holds it (day index, itinerary index).
pub open spec fn delete_itinerary_check(
    export: TripExportV3,
    resolved: ResolvedApplyTarget,
    day_count: Result<i64, String>,
    day_items: Result<Vec<ItineraryItem>, String>,
) -> Result<(i64, i64, i64, int, int), Seq<char>> {
    if resolved.target_type@ != "itinerary"@ {
        Err("delete_itinerary は itinerary target のみサポートしています（trip / day は未対応）"@)
    } else if resolved.resolution@ == "ambiguous"@ {
        Err("target が曖昧です — apply preview を続行しません"@)
    } else {
        match resolved.day_number {
            None => Err("delete_itinerary の Itinerary target が解決されていません（day）"@),
            Some(d) => match resolved.itinerary_sort_order {
                None => Err("delete_itinerary の Itinerary target が解決されていません（sort_order）"@),
                Some(so) => match day_range_check(export, d, day_count) {
                    Err(e) => Err(e),
                    Ok(_) => match target_item_id(resolved.target_type@, Some(d), Some(so), day_items) {
                        Err(e) => Err(e),
                        Ok(id) => match first_day_index(export.days@, d) {
                            None => Err(itinerary_not_found_message(d, so)),
                            Some(k) => match first_item_index(export.days@[k].itineraries@, so) {
                                None => Err(itinerary_not_found_message(d, so)),
                                Some(j) => Ok((id, d, so, k, j)),
                            },
                        },
                    },
                },
            },
        }
    }
}

/// The records that would lose their itinerary: its expenses, estimates,
/// reservations and notes.
pub open spec fn blocking_of(export: TripExportV3, k: int, j: int, d: i64, so: i64) -> FragmentApplyBlockingChildren {
    let it = export.days@[k].itineraries@[j];
    FragmentApplyBlockingChildren {
        expenses: it.expenses@.len() as usize,
        estimates: it.estimates@.len() as usize,
        reservations: it.reservations@.len() as usize,
        notes: itinerary_note_count(crate::models::opt_vec_view(export.notes), d, so) as usize,
    }
}

pub open spec fn blocking_total(c: FragmentApplyBlockingChildren) -> int {
    c.expenses + c.estimates + c.reservations + c.notes
}

pub open spec fn blocking_message(c: FragmentApplyBlockingChildren) -> Seq<char> {
    "delete_itinerary は blocking child が存在します（expenses: "@ + nat_decimal(c.expenses as nat) + ", estimates: "@
        + nat_decimal(c.estimates as nat) + ", reservations: "@ + nat_decimal(c.reservations as nat) + ", notes: "@
        + nat_decimal(c.notes as nat) + "）— DB 更新しません"@
}

/// The day's itineraries of that sort order are gone; the other days are unchanged.
pub open spec fn itinerary_dropped(before: TripExportV3, after: TripExportV3, k: int, so: i64) -> bool {
    &&& after.days@.len() == before.days@.len()
    &&& forall|i: int| 0 <= i < before.days@.len() && i != k ==> after.days@[i] == before.days@[i]
    &&& after.days@[k].day_number == before.days@[k].day_number
    &&& after.days@[k].summary == before.days@[k].summary
    &&& after.days@[k].itineraries@ == without_sort_order(before.days@[k].itineraries@, so)
}

/// The preview with the day's itineraries of that sort order removed, and the
/// notes attached to it; nothing else changed.
pub open spec fn itinerary_removed(before: TripExportV3, after: TripExportV3, k: int, so: i64, d: i64) -> bool {
    &&& same_except_days_and_notes(after, before)
    &&& itinerary_dropped(before, after, k, so)
    &&& (after.notes is Some <==> before.notes is Some)
    &&& crate::models::opt_vec_view(after.notes) == notes_without_itinerary(
        crate::models::opt_vec_view(before.notes),
        d,
        so,
    )
}

/// A delete preview of this itinerary.
pub open spec fn is_delete_summary(
    s: FragmentApplyPreviewSummary,
    intent: Seq<char>,
    candidate_title: Option<Seq<char>>,
    itineraries_before: usize,
    itineraries_after: int,
    id: i64,
    title: Seq<char>,
    d: i64,
    so: i64,
    children: FragmentApplyBlockingChildren,
) -> bool {
    &&& s.intent@ == intent
    &&& s.action@ == "delete_itinerary"@
    &&& opt_view(s.candidate_title) == candidate_title
    &&& s.itineraries_before == itineraries_before
    &&& s.itineraries_after == itineraries_after
    &&& s.notes_before is None && s.notes_after is None
    &&& s.expenses_before is None && s.expenses_after is None && s.expense_preview is None
    &&& s.estimates_before is None && s.estimates_after is None && s.estimate_preview is None
    &&& s.estimate_update_preview is None && s.estimate_field_changes is None && s.estimate_delete_preview is None
    &&& s.reservations_before is None && s.reservations_after is None && s.reservation_preview is None
    &&& s.itinerary_field_changes is None && s.reorder_preview is None && s.move_preview is None
    &&& match s.delete_preview {
        Some(p) => {
            &&& p.target_type@ == "itinerary"@
            &&& p.itinerary_id == id
            &&& p.title@ == title
            &&& p.day_number == d
            &&& p.sort_order == so
            &&& p.blocking_children == children
            &&& p.non_blocking_relations is None
        },
        None => false,
    }
}

/// What previewing a `delete_itinerary` gives (see `apply_delete_itinerary_preview`).
pub open spec fn delete_itinerary_outcome(
    old_export: TripExportV3,
    final_export: TripExportV3,
    old_report: FragmentApplyDryRunReport,
    final_report: FragmentApplyDryRunReport,
    r: Result<FragmentApplyPreviewSummary, String>,
    resolved: ResolvedApplyTarget,
    intent: Seq<char>,
    itineraries_before: usize,
    day_count: Result<i64, String>,
    day_items: Result<Vec<ItineraryItem>, String>,
) -> bool {
    &&& same_but_errors(old_report, final_report)
    &&& match delete_itinerary_check(old_export, resolved, day_count, day_items) {
        Err(e) => {
            &&& r is Err && r->Err_0@ == e
            &&& final_export == old_export
            &&& final_report.errors == old_report.errors
        },
        Ok((id, d, so, k, j)) => {
            let children = blocking_of(old_export, k, j, d, so);
            let current = old_export.days@[k].itineraries@[j];
            if blocking_total(children) > 0 {
                &&& final_export == old_export
                &&& strings_view(final_report.errors@) == strings_view(old_report.errors@).push(
                    blocking_message(children),
                )
                &&& r matches Ok(s) && is_delete_summary(
                    s,
                    intent,
                    opt_view(resolved.itinerary_title),
                    itineraries_before,
                    itineraries_before as int,
                    id,
                    current.title@,
                    d,
                    current.sort_order,
                    children,
                )
            } else {
                &&& final_report.errors == old_report.errors
                &&& if without_sort_order(old_export.days@[k].itineraries@, so).len() + 1 == old_export.days@[k].itineraries@.len() {
                    &&& itinerary_removed(old_export, final_export, k, so, d)
                    &&& r matches Ok(s) && is_delete_summary(
                        s,
                        intent,
                        opt_view(resolved.itinerary_title),
                        itineraries_before,
                        days_total(final_export.days@, ItineraryPart::Itself) as int,
                        id,
                        current.title@,
                        d,
                        current.sort_order,
                        children,
                    )
                } else {
                    &&& same_except_days(final_export, old_export)
                    &&& itinerary_dropped(old_export, final_export, k, so)
                    &&& r is Err && r->Err_0@ == itinerary_not_found_message(d, so)
                }
            }
        },
    }
}

/// Previews deleting an itinerary target. `day_count` is the outcome of
/// validating the trip's dates and `day_items` that of reading the records of
/// the target's day (to find its database id). While records still hang on the itinerary, an error
/// is recorded in the report and the preview keeps it; otherwise the
/// itinerary and its notes leave the preview.
pub fn apply_delete_itinerary_preview(
    export: &mut TripExportV3,
    resolved: &ResolvedApplyTarget,
    intent: &str,
    itineraries_before: usize,
    day_count: Result<i64, String>,
    day_items: Result<Vec<ItineraryItem>, String>,
    report: &mut FragmentApplyDryRunReport,
) -> (r: Result<FragmentApplyPreviewSummary, String>)
    requires
        days_total(old(export).days@, ItineraryPart::Itself) <= usize::MAX,
        forall|k: int, j: int|
            0 <= k < old(export).days@.len() && 0 <= j < old(export).days@[k].itineraries@.len() ==> {
                let it = #[trigger] old(export).days@[k].itineraries@[j];
                it.expenses@.len() + it.estimates@.len() + it.reservations@.len() + crate::models::opt_vec_view(
                    old(export).notes,
                ).len() <= usize::MAX
            },
    ensures
        delete_itinerary_outcome(
            *old(export),
            *final(export),
            *old(report),
            *final(report),
            r,
            *resolved,
            intent@,
            itineraries_before,
            day_count,
            day_items,
        ),
{
    if !str_eq(resolved.target_type.as_str(), "itinerary") {
        return Err(owned("delete_itinerary は itinerary target のみサポートしています（trip / day は未対応）"));
    }
    if str_eq(resolved.resolution.as_str(), "ambiguous") {
        return Err(owned("target が曖昧です — apply preview を続行しません"));
    }
    let day_number = match resolved.day_number {
        Some(d) => d,
        None => return Err(owned("delete_itinerary の Itinerary target が解決されていません（day）")),
    };
    let sort_order = match resolved.itinerary_sort_order {
        Some(s) => s,
        None => return Err(owned("delete_itinerary の Itinerary target が解決されていません（sort_order）")),
    };
    ensure_day_in_range(export, day_number, day_count)?;
    let id = match resolve_itinerary_id_for_apply_target(&resolved_apply_target_to_fragment_target(resolved), day_items) {
        Ok(id) => id,
        Err(e) => return Err(e),
    };
    let ghost k = first_day_index(export.days@, day_number)->Some_0;
    let ghost j = first_item_index(export.days@[k].itineraries@, sort_order)->Some_0;
    let (expenses, estimates, reservations, title, current_sort) = match lookup_itinerary_in_export(
        export,
        day_number,
        sort_order,
    ) {
        Some(current) => (
            current.expenses.len(),
            current.estimates.len(),
            current.reservations.len(),
            current.title.clone(),
            current.sort_order,
        ),
        None => {
            let mut m = owned("preview 内に itinerary (day ");
            crate::text::push_i64_decimal(&mut m, day_number);
            push_str(&mut m, ", sort_order ");
            crate::text::push_i64_decimal(&mut m, sort_order);
            push_str(&mut m, ") が見つかりません");
            return Err(m);
        },
    };
    proof {
        lemma_day_index_from_bounds(old(export).days@, day_number, 0);
        lemma_item_index_from_bounds(old(export).days@[k].itineraries@, sort_order, 0);
        lemma_removed_notes_are_counted(crate::models::opt_vec_view(old(export).notes), day_number, sort_order);
        let it = old(export).days@[k].itineraries@[j];
        assert(it.expenses@.len() + it.estimates@.len() + it.reservations@.len() + crate::models::opt_vec_view(
            old(export).notes,
        ).len() <= usize::MAX);
    }
    let notes = count_itinerary_notes_in_export(export, day_number, sort_order);
    let children = FragmentApplyBlockingChildren { expenses, estimates, reservations, notes };
    let total = blocking_children_total(&children);
    if total > 0 {
        let mut m = owned("delete_itinerary は blocking child が存在します（expenses: ");
        push_str(&mut m, usize_to_string(expenses).as_str());
        push_str(&mut m, ", estimates: ");
        push_str(&mut m, usize_to_string(estimates).as_str());
        push_str(&mut m, ", reservations: ");
        push_str(&mut m, usize_to_string(reservations).as_str());
        push_str(&mut m, ", notes: ");
        push_str(&mut m, usize_to_string(notes).as_str());
        push_str(&mut m, "）— DB 更新しません");
        push_string(&mut report.errors, m);
    }
    let itineraries_after = if total == 0 {
        let ghost before = *export;
        remove_itinerary_from_export(export, day_number, sort_order)?;
        remove_itinerary_notes_from_export(export, day_number, sort_order);
        proof {
            lemma_without_sort_order_len(before.days@[k].itineraries@, sort_order);
            lemma_items_total_itself(before.days@[k].itineraries@);
            lemma_items_total_itself(export.days@[k].itineraries@);
            assert(export.days@ =~= before.days@.update(k, export.days@[k]));
            lemma_days_total_update(before.days@, k, export.days@[k], ItineraryPart::Itself);
        }
        count_itineraries(export)
    } else {
        itineraries_before
    };
    let mut summary = crate::proposal::apply::empty_preview_summary(intent, "delete_itinerary", itineraries_before);
    summary.candidate_title = opt_string_copy(&resolved.itinerary_title);
    summary.itineraries_after = itineraries_after;
    summary.delete_preview = Some(
        FragmentApplyDeletePreview {
            target_type: owned("itinerary"),
            itinerary_id: id,
            title,
            day_number,
            sort_order: current_sort,
            blocking_children: children,
            non_blocking_relations: None,
        },
    );
    Ok(summary)
}

} // verus!
