//! The preview of a fragment, chosen by its intent.
use vstd::prelude::*;

use crate::json::{JsonMembers, JsonValue};
use crate::models::{Estimate, ItineraryItem, Trip, TripExportV3};
use crate::proposal::apply::additions::{
    add_estimate_outcome, add_expense_outcome, add_itinerary_outcome, add_note_outcome, enrich_outcome,
    expense_orders_leave_room, fragment_candidate_title_of, is_plain_summary, simulate_add_estimate_preview,
    simulate_add_expense_preview, simulate_add_itinerary_preview, simulate_add_note_preview, simulate_enrich_preview,
    sort_orders_leave_room,
};
use crate::proposal::apply::checks::same_but_warnings;
use crate::proposal::apply::estimate_previews::{
    apply_delete_estimate_preview, apply_update_estimate_preview, delete_estimate_preview_outcome,
    listed_estimates_fit, update_estimate_preview_outcome,
};
use crate::proposal::apply::itinerary_fields::{apply_update_itinerary_preview, update_itinerary_preview_outcome};
use crate::proposal::apply::moving::{
    apply_move_itinerary_preview,
    days_hold_their_items,
    fragment_move_slot_fits,
    move_outcome,
};
use crate::proposal::apply::previews::{apply_delete_itinerary_preview, delete_itinerary_outcome};
use crate::proposal::apply::reorder::{apply_reorder_itinerary_preview, reorder_outcome};
use crate::proposal::apply::reservations::{add_reservation_outcome, simulate_add_reservation_preview};
use crate::proposal::apply::{
    days_total, FragmentApplyDryRunReport, FragmentApplyPreviewSummary, ItineraryPart, ResolvedApplyTarget,
};
use crate::text::{owned, push_str, push_string, str_eq, strings_view};

verus! {

/// What a preview reads from the database, and the trip's date checks.
pub struct PreviewReads {
    /// The outcome of validating the preview trip's date range: its number of days.
    pub day_count: Result<i64, String>,
    /// The records of the target's day, as read.
    pub day_items: Result<Vec<ItineraryItem>, String>,
    /// The estimates of the target itinerary, as read.
    pub target_estimates: Result<Vec<Estimate>, String>,
    /// The trip's days: day number and day id.
    pub day_ids: Vec<(i64, i64)>,
    /// The trip as read.
    pub trip: Result<Trip, String>,
    /// The outcome of validating the trip's date range, as read.
    pub trip_day_count: Result<i64, String>,
    /// Every day of the trip whose records could be read, with them.
    pub trip_days: Vec<(i64, Vec<ItineraryItem>)>,
}

/// The intents a preview knows.
pub open spec fn known_intent(intent: Seq<char>) -> bool {
    intent == "add"@ || intent == "add_note"@ || intent == "add_expense"@ || intent == "add_estimate"@ || intent
        == "add_reservation"@ || intent == "update_itinerary"@ || intent == "update_estimate"@ || intent
        == "delete_estimate"@ || intent == "delete_itinerary"@ || intent == "enrich"@ || intent == "reorder_itinerary"@
        || intent == "move_itinerary"@ || intent == "warning"@ || intent == "replace_candidate"@ || intent
        == "reorder_hint"@
}

pub open spec fn preview_only_warning(intent: Seq<char>) -> Seq<char> {
    "intent が "@ + intent + " です — v4.7.18 preview は構造変更をシミュレートしません"@
}

/// Previews a fragment's change on the trip's export, by its intent: each
/// intent that changes the trip has its own preview (named in the clauses
/// below); `warning` changes nothing; `replace_candidate` and `reorder_hint`
/// change nothing and say so in a warning; any other intent is refused.
/// `reads` holds what the previews read from the database; `check` decides
/// whether a time text has the HH:MM form, `type_check` and `provider_check`
/// validate a reservation's type and provider, `read` reads a stored estimate
/// and `normalize` tidies an estimate's proposed title or note.
pub fn simulate_apply_preview<
    F: Fn(&str) -> Result<(), String>,
    T: Fn(&str) -> Result<String, String>,
    P: Fn(&str) -> Result<String, String>,
    G: Fn(i64) -> Result<Estimate, String>,
    N: Fn(&str) -> Option<String>,
>(
    export: &mut TripExportV3,
    resolved: &ResolvedApplyTarget,
    fragment: &JsonMembers,
    intent: &str,
    itineraries_before: usize,
    notes_before: usize,
    expenses_before: usize,
    reservations_before: usize,
    estimates_before: usize,
    reads: PreviewReads,
    check: &F,
    type_check: &T,
    provider_check: &P,
    read: &G,
    normalize: &N,
    report: &mut FragmentApplyDryRunReport,
) -> (r: Result<FragmentApplyPreviewSummary, String>)
    requires
        forall|s: &str| check.requires((s,)),
        forall|s: &str| type_check.requires((s,)),
        forall|s: &str| provider_check.requires((s,)),
        forall|i: i64| read.requires((i,)),
        forall|s: &str| normalize.requires((s,)),
        intent@ == "add"@ ==> days_total(old(export).days@, ItineraryPart::Itself) < usize::MAX && sort_orders_leave_room(
            old(export).days@,
            *resolved,
        ),
        intent@ == "add_note"@ ==> notes_before < usize::MAX,
        intent@ == "add_expense"@ ==> days_total(old(export).days@, ItineraryPart::Expenses) < usize::MAX
            && expense_orders_leave_room(old(export).days@),
        intent@ == "add_estimate"@ ==> days_total(old(export).days@, ItineraryPart::Estimates) < usize::MAX,
        intent@ == "add_reservation"@ ==> days_total(old(export).days@, ItineraryPart::Reservations) < usize::MAX,
        intent@ == "delete_estimate"@ ==> days_total(old(export).days@, ItineraryPart::Estimates) <= usize::MAX
            && listed_estimates_fit(*old(export), *resolved, reads.target_estimates),
        intent@ == "delete_itinerary"@ ==> {
            &&& days_total(old(export).days@, ItineraryPart::Itself) <= usize::MAX
            &&& forall|k: int, j: int|
                0 <= k < old(export).days@.len() && 0 <= j < old(export).days@[k].itineraries@.len() ==> {
                    let it = #[trigger] old(export).days@[k].itineraries@[j];
                    it.expenses@.len() + it.estimates@.len() + it.reservations@.len() + crate::models::opt_vec_view(
                        old(export).notes,
                    ).len() <= usize::MAX
                }
        },
        intent@ == "move_itinerary"@ ==> days_hold_their_items(reads.trip_days@) && fragment_move_slot_fits(
            *resolved,
            fragment@,
            reads.day_ids@,
            reads.trip,
            reads.trip_day_count,
            reads.trip_days@,
        ),
    ensures
        intent@ == "add"@ ==> add_itinerary_outcome(
            *old(export),
            *final(export),
            *old(report),
            *final(report),
            r,
            *resolved,
            fragment@,
            intent@,
            itineraries_before,
            reads.day_count,
            *check,
        ),
        intent@ == "add_note"@ ==> add_note_outcome(
            *old(export),
            *final(export),
            *old(report),
            *final(report),
            r,
            *resolved,
            fragment@,
            intent@,
            itineraries_before,
            notes_before,
        ),
        intent@ == "add_expense"@ ==> add_expense_outcome(
            *old(export),
            *final(export),
            *old(report),
            *final(report),
            r,
            *resolved,
            fragment@,
            intent@,
            itineraries_before,
            expenses_before,
            reads.day_count,
        ),
        intent@ == "add_estimate"@ ==> add_estimate_outcome(
            *old(export),
            *final(export),
            *old(report),
            *final(report),
            r,
            *resolved,
            fragment@,
            intent@,
            itineraries_before,
            estimates_before,
            reads.day_count,
            reads.day_items,
        ),
        intent@ == "add_reservation"@ ==> add_reservation_outcome(
            *old(export),
            *final(export),
            *old(report),
            *final(report),
            r,
            *resolved,
            fragment@,
            intent@,
            itineraries_before,
            reservations_before,
            reads.day_count,
            *type_check,
            *provider_check,
        ),
        intent@ == "update_itinerary"@ ==> update_itinerary_preview_outcome(
            *old(export),
            *final(export),
            *old(report),
            *final(report),
            r,
            *resolved,
            fragment@,
            intent@,
            itineraries_before,
            reads.day_count,
            *check,
        ),
        intent@ == "update_estimate"@ ==> update_estimate_preview_outcome(
            *old(export),
            *final(export),
            *old(report),
            *final(report),
            r,
            *resolved,
            fragment@,
            intent@,
            itineraries_before,
            estimates_before,
            reads.day_count,
            reads.day_items,
            reads.target_estimates,
            *read,
            *normalize,
        ),
        intent@ == "delete_estimate"@ ==> delete_estimate_preview_outcome(
            *old(export),
            *final(export),
            *old(report),
            *final(report),
            r,
            *resolved,
            fragment@,
            intent@,
            itineraries_before,
            estimates_before,
            reads.day_count,
            reads.day_items,
            reads.target_estimates,
            *read,
        ),
        intent@ == "delete_itinerary"@ ==> delete_itinerary_outcome(
            *old(export),
            *final(export),
            *old(report),
            *final(report),
            r,
            *resolved,
            intent@,
            itineraries_before,
            reads.day_count,
            reads.day_items,
        ),
        intent@ == "enrich"@ ==> enrich_outcome(
            *old(export),
            *final(export),
            *old(report),
            *final(report),
            r,
            *resolved,
            fragment@,
            intent@,
            itineraries_before,
            reads.day_count,
        ),
        intent@ == "reorder_itinerary"@ ==> {
            &&& reorder_outcome(
                *old(export),
                *final(export),
                r,
                *resolved,
                fragment@,
                intent@,
                itineraries_before,
                reads.day_count,
                reads.day_items,
                reads.trip_days@,
            )
            &&& *final(report) == *old(report)
        },
        intent@ == "move_itinerary"@ ==> {
            &&& move_outcome(
                *old(export),
                *final(export),
                r,
                *resolved,
                fragment@,
                intent@,
                itineraries_before,
                reads.day_count,
                reads.day_ids@,
                reads.trip,
                reads.trip_day_count,
                reads.trip_days@,
            )
            &&& *final(report) == *old(report)
        },
        intent@ == "warning"@ ==> {
            &&& *final(export) == *old(export) && *final(report) == *old(report)
            &&& r matches Ok(s) && is_plain_summary(s, intent@, "none"@, fragment@, itineraries_before)
        },
        intent@ == "replace_candidate"@ || intent@ == "reorder_hint"@ ==> {
            &&& *final(export) == *old(export)
            &&& same_but_warnings(*old(report), *final(report))
            &&& strings_view(final(report).warnings@) == strings_view(old(report).warnings@).push(
                preview_only_warning(intent@),
            )
            &&& r matches Ok(s) && is_plain_summary(s, intent@, "preview_only"@, fragment@, itineraries_before)
        },
        !known_intent(intent@) ==> {
            &&& r is Err && r->Err_0@ == "未対応の intent です: "@ + intent@
            &&& *final(export) == *old(export) && *final(report) == *old(report)
        },
{
    proof {
        reveal_strlit("add");
        reveal_strlit("add_note");
        reveal_strlit("add_expense");
        reveal_strlit("add_estimate");
        reveal_strlit("add_reservation");
        reveal_strlit("update_itinerary");
        reveal_strlit("update_estimate");
        reveal_strlit("delete_estimate");
        reveal_strlit("delete_itinerary");
        reveal_strlit("enrich");
        reveal_strlit("reorder_itinerary");
        reveal_strlit("move_itinerary");
        reveal_strlit("warning");
        reveal_strlit("replace_candidate");
        reveal_strlit("reorder_hint");
        assert("add"@.len() == 3);
        assert("add_note"@.len() == 8);
        assert("add_expense"@.len() == 11);
        assert("add_estimate"@.len() == 12);
        assert("add_reservation"@.len() == 15);
        assert("update_itinerary"@.len() == 16);
        assert("update_estimate"@.len() == 15);
        assert("delete_estimate"@.len() == 15);
        assert("delete_itinerary"@.len() == 16);
        assert("enrich"@.len() == 6);
        assert("reorder_itinerary"@.len() == 17);
        assert("move_itinerary"@.len() == 14);
        assert("warning"@.len() == 7);
        assert("replace_candidate"@.len() == 17);
        assert("reorder_hint"@.len() == 12);
        assert("add_reservation"@[0] != "update_estimate"@[0]);
        assert("add_reservation"@[0] != "delete_estimate"@[0]);
        assert("update_estimate"@[0] != "delete_estimate"@[0]);
        assert("update_itinerary"@[0] != "delete_itinerary"@[0]);
        assert("reorder_itinerary"@[2] != "replace_candidate"@[2]);
        assert("add_estimate"@[0] != "reorder_hint"@[0]);
    }
    let PreviewReads { day_count, day_items, target_estimates, day_ids, trip, trip_day_count, trip_days } = reads;
    if str_eq(intent, "add") {
        return simulate_add_itinerary_preview(export, resolved, fragment, intent, itineraries_before, day_count, check, report);
    }
    if str_eq(intent, "add_note") {
        return simulate_add_note_preview(export, resolved, fragment, intent, itineraries_before, notes_before, report);
    }
    if str_eq(intent, "add_expense") {
        return simulate_add_expense_preview(
            export,
            resolved,
            fragment,
            intent,
            itineraries_before,
            expenses_before,
            day_count,
            report,
        );
    }
    if str_eq(intent, "add_estimate") {
        return simulate_add_estimate_preview(
            export,
            resolved,
            fragment,
            intent,
            itineraries_before,
            estimates_before,
            day_count,
            day_items,
            report,
        );
    }
    if str_eq(intent, "add_reservation") {
        return simulate_add_reservation_preview(
            export,
            resolved,
            fragment,
            intent,
            itineraries_before,
            reservations_before,
            day_count,
            type_check,
            provider_check,
            report,
        );
    }
    if str_eq(intent, "update_itinerary") {
        return apply_update_itinerary_preview(export, resolved, fragment, intent, itineraries_before, day_count, check, report);
    }
    if str_eq(intent, "update_estimate") {
        return apply_update_estimate_preview(
            export,
            resolved,
            fragment,
            intent,
            itineraries_before,
            estimates_before,
            day_count,
            day_items,
            read,
            normalize,
            target_estimates,
            report,
        );
    }
    if str_eq(intent, "delete_estimate") {
        return apply_delete_estimate_preview(
            export,
            resolved,
            fragment,
            intent,
            itineraries_before,
            estimates_before,
            day_count,
            day_items,
            read,
            target_estimates,
            report,
        );
    }
    if str_eq(intent, "delete_itinerary") {
        return apply_delete_itinerary_preview(export, resolved, intent, itineraries_before, day_count, day_items, report);
    }
    if str_eq(intent, "enrich") {
        return simulate_enrich_preview(export, resolved, fragment, intent, itineraries_before, day_count, report);
    }
    if str_eq(intent, "reorder_itinerary") {
        return apply_reorder_itinerary_preview(
            export,
            resolved,
            fragment,
            intent,
            itineraries_before,
            day_count,
            day_items,
            &trip_days,
        );
    }
    if str_eq(intent, "move_itinerary") {
        return apply_move_itinerary_preview(
            export,
            resolved,
            fragment,
            intent,
            itineraries_before,
            day_count,
            &day_ids,
            &trip,
            &trip_day_count,
            &trip_days,
        );
    }
    if str_eq(intent, "warning") {
        let mut summary = crate::proposal::apply::empty_preview_summary(intent, "none", itineraries_before);
        summary.candidate_title = fragment_candidate_title_of(fragment);
        return Ok(summary);
    }
    if str_eq(intent, "replace_candidate") || str_eq(intent, "reorder_hint") {
        let mut m = owned("intent が ");
        push_str(&mut m, intent);
        push_str(&mut m, " です — v4.7.18 preview は構造変更をシミュレートしません");
        push_string(&mut report.warnings, m);
        let mut summary = crate::proposal::apply::empty_preview_summary(intent, "preview_only", itineraries_before);
        summary.candidate_title = fragment_candidate_title_of(fragment);
        return Ok(summary);
    }
    let mut m = owned("未対応の intent です: ");
    push_str(&mut m, intent);
    Err(m)
}

} // verus!
