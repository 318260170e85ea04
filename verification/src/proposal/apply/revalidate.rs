//! The checks `--confirm` makes again just before it writes: the records as
//! they stand now (read by the caller and handed in) must still be those the
//! preview was computed from.
use vstd::prelude::*;

use crate::json::JsonMembers;
use crate::models::{Estimate, ExportItineraryV3, ItineraryItem};
use crate::proposal::apply::checks::dec;
use crate::proposal::apply::estimate_previews::not_under_message;
use crate::proposal::apply::fields::{
    baseline_check, detect_delete_estimate_baseline_conflicts, detect_update_estimate_baseline_conflicts,
    detect_update_itinerary_baseline_conflicts, estimate_baselines, itinerary_baselines,
};
use crate::proposal::apply::previews::blocking_total;
use crate::proposal::apply::{
    estimate_display_value_for_field, estimate_field_display, export_itinerary_field_display,
    itinerary_field_display, itinerary_item_to_export_snapshot, FragmentApplyBlockingChildren,
    FragmentApplyDeletePreview, FragmentApplyEstimateDeletePreview, FragmentApplyEstimateFieldChange,
    FragmentApplyItineraryFieldChange,
};
use crate::text::{nat_decimal, opt_view, option_debug, option_debug_text, owned, push_str, str_eq, usize_to_string};

verus! {

/// The error of a value that changed since the preview.
pub open spec fn toctou_message(field: Seq<char>, before: Seq<char>, now: Seq<char>) -> Seq<char> {
    "TOCTOU mismatch: "@ + field + " の before ("@ + before + ") が現行 DB ("@ + now + ") と一致しません — DB 更新しません"@
}

fn toctou_text(field: &str, before: &str, now: &str) -> (r: String)
    ensures
        r@ == toctou_message(field@, before@, now@),
{
    let mut m = owned("TOCTOU mismatch: ");
    push_str(&mut m, field);
    push_str(&mut m, " の before (");
    push_str(&mut m, before);
    push_str(&mut m, ") が現行 DB (");
    push_str(&mut m, now);
    push_str(&mut m, ") と一致しません — DB 更新しません");
    m
}

fn i64_text(v: i64) -> (r: String)
    ensures
        r@ == dec(v),
{
    let mut m = String::new();
    crate::text::push_i64_decimal(&mut m, v);
    m
}

/// Deleting an estimate may go ahead: the estimate as read now (`current`)
/// still belongs to the itinerary, still meets the fragment's expected
/// values, and still has every value the preview's snapshot showed.
pub open spec fn delete_estimate_revalidation(
    current: Result<Estimate, String>,
    estimate_id: i64,
    itinerary_id: i64,
    candidate: Seq<(String, crate::json::JsonValue)>,
    gate: FragmentApplyEstimateDeletePreview,
) -> Result<(), Seq<char>> {
    match current {
        Err(e) => Err("Estimate not found: "@ + e@),
        Ok(c) => if c.itinerary_id != itinerary_id {
            Err(not_under_message(estimate_id, itinerary_id))
        } else {
            match baseline_check(candidate, estimate_baselines(c).push(("expected_updated_at"@, c.updated_at@)), 0) {
                Err(e) => Err(e),
                Ok(_) => if gate.target_estimate_id != c.id {
                    Err(toctou_message("target_estimate_id"@, dec(gate.target_estimate_id), dec(c.id)))
                } else if opt_view(gate.title) != opt_view(c.title) {
                    Err(toctou_message("title"@, option_debug(opt_view(gate.title)), option_debug(opt_view(c.title))))
                } else if gate.amount != c.amount {
                    Err(toctou_message("amount"@, dec(gate.amount), dec(c.amount)))
                } else if gate.currency@ != c.currency@ {
                    Err(toctou_message("currency"@, gate.currency@, c.currency@))
                } else if opt_view(gate.note) != opt_view(c.note) {
                    Err(toctou_message("note"@, option_debug(opt_view(gate.note)), option_debug(opt_view(c.note))))
                } else if gate.sort_order != c.sort_order {
                    Err(toctou_message("sort_order"@, dec(gate.sort_order), dec(c.sort_order)))
                } else if gate.updated_at@ != c.updated_at@ {
                    Err(toctou_message("updated_at"@, gate.updated_at@, c.updated_at@))
                } else {
                    Ok(())
                }
            }
        },
    }
}

/// Checks, just before deleting an estimate, the estimate as read now
/// (`current`) against the fragment and the preview's snapshot (`gate`).
pub fn revalidate_delete_estimate_before_write(
    current: Result<Estimate, String>,
    estimate_id: i64,
    itinerary_id: i64,
    candidate: &JsonMembers,
    gate: &FragmentApplyEstimateDeletePreview,
) -> (r: Result<(), String>)
    ensures
        crate::text::result_view(r) == delete_estimate_revalidation(current, estimate_id, itinerary_id, candidate@, *gate),
{
    let c = match current {
        Ok(c) => c,
        Err(e) => {
            let mut m = owned("Estimate not found: ");
            push_str(&mut m, e.as_str());
            return Err(m);
        },
    };
    if c.itinerary_id != itinerary_id {
        let mut m = owned("Estimate ");
        crate::text::push_i64_decimal(&mut m, estimate_id);
        push_str(&mut m, " は Itinerary ");
        crate::text::push_i64_decimal(&mut m, itinerary_id);
        push_str(&mut m, " 配下ではありません");
        return Err(m);
    }
    match detect_delete_estimate_baseline_conflicts(candidate, &c) {
        Ok(()) => {},
        Err(e) => return Err(e),
    }
    if gate.target_estimate_id != c.id {
        return Err(toctou_text("target_estimate_id", i64_text(gate.target_estimate_id).as_str(), i64_text(c.id).as_str()));
    }
    if !crate::proposal::apply::opt_string_eq(&gate.title, &c.title) {
        return Err(
            toctou_text("title", option_debug_text(&gate.title).as_str(), option_debug_text(&c.title).as_str()),
        );
    }
    if gate.amount != c.amount {
        return Err(toctou_text("amount", i64_text(gate.amount).as_str(), i64_text(c.amount).as_str()));
    }
    if !str_eq(gate.currency.as_str(), c.currency.as_str()) {
        return Err(toctou_text("currency", gate.currency.as_str(), c.currency.as_str()));
    }
    if !crate::proposal::apply::opt_string_eq(&gate.note, &c.note) {
        return Err(toctou_text("note", option_debug_text(&gate.note).as_str(), option_debug_text(&c.note).as_str()));
    }
    if gate.sort_order != c.sort_order {
        return Err(toctou_text("sort_order", i64_text(gate.sort_order).as_str(), i64_text(c.sort_order).as_str()));
    }
    if !str_eq(gate.updated_at.as_str(), c.updated_at.as_str()) {
        return Err(toctou_text("updated_at", gate.updated_at.as_str(), c.updated_at.as_str()));
    }
    Ok(())
}

/// After a delete, reading the estimate again must fail.
pub open spec fn deleted_check(read: Result<Estimate, String>, estimate_id: i64) -> Result<(), Seq<char>> {
    match read {
        Err(_) => Ok(()),
        Ok(_) => Err("Estimate "@ + dec(estimate_id) + " が削除後も存在します — DB 更新しません"@),
    }
}

/// Checks that a deleted estimate is gone (`read` is reading it again).
pub fn verify_estimate_deleted(read: Result<Estimate, String>, estimate_id: i64) -> (r: Result<(), String>)
    ensures
        crate::text::result_view(r) == deleted_check(read, estimate_id),
{
    match read {
        Err(_) => Ok(()),
        Ok(_) => {
            let mut m = owned("Estimate ");
            crate::text::push_i64_decimal(&mut m, estimate_id);
            push_str(&mut m, " が削除後も存在します — DB 更新しません");
            Err(m)
        },
    }
}

/// The first estimate change, from position `i` on, whose `before` is no
/// longer the estimate's value.
pub open spec fn first_stale_estimate_change(changes: Seq<FragmentApplyEstimateFieldChange>, c: Estimate, i: int) -> Option<int>
    decreases changes.len() - i,
{
    if i < 0 || i >= changes.len() {
        None
    } else if estimate_field_display(changes[i].field@, c) != changes[i].before@ {
        Some(i)
    } else {
        first_stale_estimate_change(changes, c, i + 1)
    }
}

/// Updating an estimate may go ahead: the estimate as read now (`current`)
/// still belongs to the itinerary, still meets the fragment's expected
/// values, and each preview change still starts from the estimate's value.
pub open spec fn update_estimate_revalidation(
    current: Result<Estimate, String>,
    estimate_id: i64,
    itinerary_id: i64,
    candidate: Seq<(String, crate::json::JsonValue)>,
    changes: Seq<FragmentApplyEstimateFieldChange>,
) -> Result<(), Seq<char>> {
    match current {
        Err(e) => Err("Estimate not found: "@ + e@),
        Ok(c) => if c.itinerary_id != itinerary_id {
            Err(not_under_message(estimate_id, itinerary_id))
        } else {
            match baseline_check(candidate, estimate_baselines(c), 0) {
                Err(e) => Err(e),
                Ok(_) => match first_stale_estimate_change(changes, c, 0) {
                    Some(i) => Err(
                        toctou_message(
                            "estimate_field_changes."@ + changes[i].field@,
                            changes[i].before@,
                            estimate_field_display(changes[i].field@, c),
                        ),
                    ),
                    None => Ok(()),
                },
            }
        },
    }
}

/// Checks, just before updating an estimate, the estimate as read now
/// (`current`) against the fragment and the preview's changes.
#[verifier::loop_isolation(false)]
pub fn revalidate_update_estimate_before_write(
    current: Result<Estimate, String>,
    estimate_id: i64,
    itinerary_id: i64,
    candidate: &JsonMembers,
    preview_changes: &[FragmentApplyEstimateFieldChange],
) -> (r: Result<(), String>)
    ensures
        crate::text::result_view(r) == update_estimate_revalidation(
            current,
            estimate_id,
            itinerary_id,
            candidate@,
            preview_changes@,
        ),
{
    let c = match current {
        Ok(c) => c,
        Err(e) => {
            let mut m = owned("Estimate not found: ");
            push_str(&mut m, e.as_str());
            return Err(m);
        },
    };
    if c.itinerary_id != itinerary_id {
        let mut m = owned("Estimate ");
        crate::text::push_i64_decimal(&mut m, estimate_id);
        push_str(&mut m, " は Itinerary ");
        crate::text::push_i64_decimal(&mut m, itinerary_id);
        push_str(&mut m, " 配下ではありません");
        return Err(m);
    }
    match detect_update_estimate_baseline_conflicts(candidate, &c) {
        Ok(()) => {},
        Err(e) => return Err(e),
    }
    let mut i: usize = 0;
    while i < preview_changes.len()
        invariant
            i <= preview_changes@.len(),
            first_stale_estimate_change(preview_changes@, c, 0) == first_stale_estimate_change(
                preview_changes@,
                c,
                i as int,
            ),
        decreases preview_changes@.len() - i,
    {
        let change = &preview_changes[i];
        let actual = estimate_display_value_for_field(change.field.as_str(), &c);
        if !str_eq(actual.as_str(), change.before.as_str()) {
            assert(first_stale_estimate_change(preview_changes@, c, i as int) == Some(i as int));
            let mut field = owned("estimate_field_changes.");
            push_str(&mut field, change.field.as_str());
            return Err(toctou_text(field.as_str(), change.before.as_str(), actual.as_str()));
        }
        i = i + 1;
    }
    Ok(())
}

/// The itinerary snapshot of a record: its own fields, no children.
pub open spec fn is_snapshot_of(it: ExportItineraryV3, item: ItineraryItem) -> bool {
    &&& it.title@ == item.title@
    &&& opt_view(it.note) == opt_view(item.note)
    &&& opt_view(it.start_time) == opt_view(item.start_time)
    &&& it.sort_order == item.sort_order
    &&& it.duration_minutes == item.duration_minutes
    &&& it.travel_minutes == item.travel_minutes
    &&& opt_view(it.location) == opt_view(item.location)
    &&& it.category == item.category
    &&& it.expenses@.len() == 0 && it.estimates@.len() == 0 && it.reservations@.len() == 0
}

/// The first itinerary change, from position `i` on, whose `before` is no
/// longer the itinerary's value.
pub open spec fn first_stale_itinerary_change(changes: Seq<FragmentApplyItineraryFieldChange>, it: ExportItineraryV3, i: int) -> Option<
    int,
>
    decreases changes.len() - i,
{
    if i < 0 || i >= changes.len() {
        None
    } else if itinerary_field_display(it, changes[i].field@) != changes[i].before@ {
        Some(i)
    } else {
        first_stale_itinerary_change(changes, it, i + 1)
    }
}

/// Updating an itinerary may go ahead: the record as read now (seen through
/// its snapshot `it`) still meets the fragment's expected values, and each
/// preview change still starts from the itinerary's value.
pub open spec fn update_itinerary_revalidation(
    it: ExportItineraryV3,
    candidate: Seq<(String, crate::json::JsonValue)>,
    changes: Seq<FragmentApplyItineraryFieldChange>,
) -> Result<(), Seq<char>> {
    match baseline_check(candidate, itinerary_baselines(it), 0) {
        Err(e) => Err(e),
        Ok(_) => match first_stale_itinerary_change(changes, it, 0) {
            Some(i) => Err(
                toctou_message(
                    "itinerary_field_changes."@ + changes[i].field@,
                    changes[i].before@,
                    itinerary_field_display(it, changes[i].field@),
                ),
            ),
            None => Ok(()),
        },
    }
}

/// Checks, just before updating an itinerary, the record as read now
/// (`item`, or the read's error) against the fragment and the preview's
/// changes.
#[verifier::loop_isolation(false)]
pub fn revalidate_update_itinerary_before_write(
    item: Result<ItineraryItem, String>,
    candidate: &JsonMembers,
    preview_changes: &[FragmentApplyItineraryFieldChange],
) -> (r: Result<(), String>)
    ensures
        match item {
            Err(e) => r == Err::<(), String>(e),
            Ok(row) => exists|it: ExportItineraryV3|
                #![trigger is_snapshot_of(it, row)]
                is_snapshot_of(it, row) && crate::text::result_view(r) == update_itinerary_revalidation(
                    it,
                    candidate@,
                    preview_changes@,
                ),
        },
{
    let row = match item {
        Ok(row) => row,
        Err(e) => return Err(e),
    };
    let current = itinerary_item_to_export_snapshot(&row);
    assert(is_snapshot_of(current, row));
    match detect_update_itinerary_baseline_conflicts(candidate, &current) {
        Ok(()) => {},
        Err(e) => return Err(e),
    }
    let mut i: usize = 0;
    while i < preview_changes.len()
        invariant
            i <= preview_changes@.len(),
            first_stale_itinerary_change(preview_changes@, current, 0) == first_stale_itinerary_change(
                preview_changes@,
                current,
                i as int,
            ),
        decreases preview_changes@.len() - i,
    {
        let change = &preview_changes[i];
        let actual = export_itinerary_field_display(&current, change.field.as_str());
        if !str_eq(actual.as_str(), change.before.as_str()) {
            assert(first_stale_itinerary_change(preview_changes@, current, i as int) == Some(i as int));
            let mut field = owned("itinerary_field_changes.");
            push_str(&mut field, change.field.as_str());
            return Err(toctou_text(field.as_str(), change.before.as_str(), actual.as_str()));
        }
        i = i + 1;
    }
    Ok(())
}

pub open spec fn children_toctou_message(c: FragmentApplyBlockingChildren) -> Seq<char> {
    "TOCTOU mismatch: blocking child が存在します（expenses: "@ + nat_decimal(c.expenses as nat) + ", estimates: "@
        + nat_decimal(c.estimates as nat) + ", reservations: "@ + nat_decimal(c.reservations as nat) + ", notes: "@
        + nat_decimal(c.notes as nat) + "）— DB 更新しません"@
}

/// Deleting an itinerary may go ahead: the record as read now (`item`) is
/// still in the trip with the day, sort order and title the preview showed,
/// and the records hanging on it (`children`, as counted now) are none, as
/// the preview counted.
pub open spec fn delete_itinerary_revalidation(
    trip_id: i64,
    expected: FragmentApplyDeletePreview,
    item: Result<ItineraryItem, String>,
    children: Result<FragmentApplyBlockingChildren, String>,
) -> Result<(), Seq<char>> {
    match item {
        Err(e) => Err(e@),
        Ok(row) => if row.trip_id != trip_id {
            Err("TOCTOU mismatch: itinerary の trip_id が gate と一致しません — DB 更新しません"@)
        } else if row.day != expected.day_number {
            Err(toctou_message("day_number"@, dec(expected.day_number), dec(row.day)))
        } else if row.sort_order != expected.sort_order {
            Err(toctou_message("sort_order"@, dec(expected.sort_order), dec(row.sort_order)))
        } else if row.title@ != expected.title@ {
            Err(toctou_message("title"@, expected.title@, row.title@))
        } else {
            match children {
                Err(e) => Err(e@),
                Ok(c) => if blocking_total(c) > 0 {
                    Err(children_toctou_message(c))
                } else if c != expected.blocking_children {
                    Err("TOCTOU mismatch: blocking_children の件数が gate preview と一致しません — DB 更新しません"@)
                } else {
                    Ok(())
                },
            }
        },
    }
}

/// Checks, just before deleting an itinerary, the record as read now
/// (`item`) and the records hanging on it as counted now (`children`)
/// against the preview's snapshot (`expected`).
pub fn revalidate_delete_itinerary_before_write(
    trip_id: i64,
    expected: &FragmentApplyDeletePreview,
    item: Result<ItineraryItem, String>,
    children: Result<FragmentApplyBlockingChildren, String>,
) -> (r: Result<(), String>)
    ensures
        crate::text::result_view(r) == delete_itinerary_revalidation(trip_id, *expected, item, children),
{
    let row = match item {
        Ok(row) => row,
        Err(e) => return Err(e),
    };
    if row.trip_id != trip_id {
        return Err(owned("TOCTOU mismatch: itinerary の trip_id が gate と一致しません — DB 更新しません"));
    }
    if row.day != expected.day_number {
        return Err(toctou_text("day_number", i64_text(expected.day_number).as_str(), i64_text(row.day).as_str()));
    }
    if row.sort_order != expected.sort_order {
        return Err(toctou_text("sort_order", i64_text(expected.sort_order).as_str(), i64_text(row.sort_order).as_str()));
    }
    if !str_eq(row.title.as_str(), expected.title.as_str()) {
        return Err(toctou_text("title", expected.title.as_str(), row.title.as_str()));
    }
    let c = match children {
        Ok(c) => c,
        Err(e) => return Err(e),
    };
    if c.expenses > 0 || c.estimates > 0 || c.reservations > 0 || c.notes > 0 {
        let mut m = owned("TOCTOU mismatch: blocking child が存在します（expenses: ");
        push_str(&mut m, usize_to_string(c.expenses).as_str());
        push_str(&mut m, ", estimates: ");
        push_str(&mut m, usize_to_string(c.estimates).as_str());
        push_str(&mut m, ", reservations: ");
        push_str(&mut m, usize_to_string(c.reservations).as_str());
        push_str(&mut m, ", notes: ");
        push_str(&mut m, usize_to_string(c.notes).as_str());
        push_str(&mut m, "）— DB 更新しません");
        return Err(m);
    }
    if c != expected.blocking_children {
        return Err(owned("TOCTOU mismatch: blocking_children の件数が gate preview と一致しません — DB 更新しません"));
    }
    Ok(())
}

/// A delete snapshot taken from an estimate passes the check made just
/// before the delete while the estimate is unchanged (and still meets the
/// fragment's expected values).
pub proof fn lemma_unchanged_estimate_passes_delete_revalidation(
    cur: Estimate,
    itinerary_id: i64,
    candidate: Seq<(String, crate::json::JsonValue)>,
    gate: FragmentApplyEstimateDeletePreview,
)
    requires
        cur.itinerary_id == itinerary_id,
        baseline_check(candidate, estimate_baselines(cur).push(("expected_updated_at"@, cur.updated_at@)), 0) is Ok,
        gate.target_estimate_id == cur.id,
        opt_view(gate.title) == opt_view(cur.title),
        gate.amount == cur.amount,
        gate.currency@ == cur.currency@,
        opt_view(gate.note) == opt_view(cur.note),
        gate.sort_order == cur.sort_order,
        gate.updated_at@ == cur.updated_at@,
    ensures
        delete_estimate_revalidation(Ok(cur), cur.id, itinerary_id, candidate, gate) == Ok::<(), Seq<char>>(()),
{
}

} // verus!
