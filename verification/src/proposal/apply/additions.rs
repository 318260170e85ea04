//! Previews of the intents that add to the trip (an itinerary, a note, an
//! expense, an estimate), enrich a day's summary, or only describe the
//! fragment.
use vstd::prelude::*;

use crate::json::{as_object, get_member, json_object, member, non_empty_string, non_empty_text, JsonMembers, JsonValue};
use crate::models::{ExportDayV3, ExportItineraryV3, ItineraryItem, TripExportV3};
use crate::proposal::apply::checks::dec;
use crate::proposal::apply::moving::{find_with_sort, first_with_sort};
use crate::proposal::apply::checks::same_but_warnings;
use crate::models::{ExportEstimateV3, ExportExpenseV3, ExportNote};
use crate::proposal::apply::fields::{
    add_estimate_fields, add_expense_fields, add_note_fields, parse_add_estimate_fields, parse_add_expense_fields,
    parse_add_note_fields, warn_unsupported_add_estimate_candidate_keys, warn_unsupported_add_expense_candidate_keys,
    warn_unsupported_add_note_candidate_keys, EstimateFieldsView, MoneyFieldsView,
};
use crate::proposal::apply::{
    added_note, build_export_estimate_from_add_fields, build_export_expense_from_add_fields, build_export_note_from_add_fields,
    same_except_days_and_notes,
};
use crate::proposal::apply::fields::{
    collect_add_ordering_hint_warnings, ordering_hint_lines, unsupported_key_lines, warn_unsupported_add_candidate_keys,
};
use crate::proposal::apply::itinerary_fields::{
    add_fields_view, add_itinerary_fields_of, add_time_checked, parse_add_itinerary_fields,
};
use crate::proposal::apply::reorder::day_range_check;
use crate::proposal::apply::{
    append_sort_order_for_export_day, append_sort_order_for_export_itinerary, build_export_itinerary_from_add_fields,
    count_estimates, count_expenses, count_itineraries, days_total, expense_sort_orders, find_itinerary_mut_in_export_day,
    first_item_index,
    ensure_day_in_range, find_or_create_day, first_day_index, itinerary_sort_orders, items_total,
    lemma_max_or_zero_bounds, max_or_zero, same_day_header, same_except_days, FragmentApplyDryRunReport,
    FragmentApplyPreviewSummary, ItineraryPart, ParsedAddItineraryFields, ResolvedApplyTarget, SORT_ORDER_STEP,
};
use crate::proposal::fragment::object_member;
use crate::text::{opt_view, owned, push_str, push_string, strings_view};

verus! {

// ---------------------------------------------------------------------------
// The day an addition goes to.

/// The itineraries of the first day numbered `d` (none when there is no such day).
pub open spec fn day_items_before(days: Seq<ExportDayV3>, d: i64) -> Seq<ExportItineraryV3> {
    match first_day_index(days, d) {
        Some(k) => days[k].itineraries@,
        None => Seq::empty(),
    }
}

/// `after` is `before` with the first day numbered `d` (appended, empty and
/// without summary, when missing) at index `k`, its itineraries now `items`;
/// every other day is unchanged.
pub open spec fn day_replaced(
    before: Seq<ExportDayV3>,
    after: Seq<ExportDayV3>,
    d: i64,
    items: Seq<ExportItineraryV3>,
) -> bool {
    match first_day_index(before, d) {
        Some(k) => {
            &&& after.len() == before.len()
            &&& forall|i: int| 0 <= i < before.len() && i != k ==> after[i] == before[i]
            &&& same_day_header(after[k], before[k])
            &&& after[k].itineraries@ == items
        },
        None => {
            &&& after.len() == before.len() + 1
            &&& forall|i: int| 0 <= i < before.len() ==> after[i] == before[i]
            &&& after[before.len() as int].day_number == d
            &&& after[before.len() as int].summary is None
            &&& after[before.len() as int].itineraries@ == items
        },
    }
}

/// An itinerary made from the fields of an addition, with this sort order.
pub open spec fn is_added_itinerary(x: ExportItineraryV3, f: ParsedAddItineraryFields, sort_order: i64) -> bool {
    &&& x.title@ == f.title@
    &&& opt_view(x.note) == opt_view(f.note)
    &&& opt_view(x.start_time) == opt_view(f.start_time)
    &&& x.sort_order == sort_order
    &&& x.duration_minutes == f.duration_minutes
    &&& x.travel_minutes == f.travel_minutes
    &&& opt_view(x.location) == opt_view(f.location)
    &&& x.category == f.category
    &&& x.expenses@.len() == 0 && x.estimates@.len() == 0 && x.reservations@.len() == 0
}

/// Every sort order of the target day (the one the new itinerary is appended
/// to) leaves room for one more step.
pub open spec fn sort_orders_leave_room(days: Seq<ExportDayV3>, target: ResolvedApplyTarget) -> bool {
    match target.day_number {
        Some(d) => forall|j: int|
            0 <= j < day_items_before(days, d).len() ==> #[trigger] day_items_before(days, d)[j].sort_order
                <= i64::MAX - SORT_ORDER_STEP,
        None => true,
    }
}

/// The warnings an addition of an itinerary gives, once its candidate has a title.
pub open spec fn add_warnings(before: Seq<Seq<char>>, fragment: Seq<(String, JsonValue)>) -> Seq<Seq<char>> {
    match object_member(fragment, "candidate_content"@) {
        Some(c) => if non_empty_text(member(c, "title"@)) is Some {
            crate::proposal::materialize::append_unique(
                crate::proposal::materialize::append_unique(before, ordering_hint_lines(c, fragment)),
                unsupported_key_lines(
                    c,
                    seq![
                        "title",
                        "location",
                        "category",
                        "start_time",
                        "duration_minutes",
                        "travel_minutes",
                        "travel_time_minutes",
                        "sort_order",
                        "placement_hint",
                        "after",
                        "before",
                    ],
                    "add_itinerary"@,
                ),
            )
        } else {
            before
        },
        None => before,
    }
}

// ---------------------------------------------------------------------------
// Adding an itinerary.

/// What previewing an `add` gives (see `simulate_add_itinerary_preview`).
pub open spec fn add_itinerary_outcome<F: Fn(&str) -> Result<(), String>>(
    old_export: TripExportV3,
    final_export: TripExportV3,
    old_report: FragmentApplyDryRunReport,
    final_report: FragmentApplyDryRunReport,
    r: Result<FragmentApplyPreviewSummary, String>,
    resolved: ResolvedApplyTarget,
    fragment: Seq<(String, JsonValue)>,
    intent: Seq<char>,
    itineraries_before: usize,
    day_count: Result<i64, String>,
    check: F,
) -> bool {
    &&& same_but_warnings(old_report, final_report)
    &&& match resolved.day_number {
        None => {
            &&& r is Err && r->Err_0@ == "intent が add ですが target Day が解決されていません"@
            &&& final_export == old_export && final_report.warnings == old_report.warnings
        },
        Some(d) => match day_range_check(old_export, d, day_count) {
            Err(e) => {
                &&& r is Err && r->Err_0@ == e
                &&& final_export == old_export && final_report.warnings == old_report.warnings
            },
            Ok(_) => {
                &&& strings_view(final_report.warnings@) == add_warnings(strings_view(old_report.warnings@), fragment)
                &&& exists|o: Result<(), String>|
                    #![trigger add_itinerary_fields_of(fragment, o)]
                    {
                        &&& add_time_checked(check, fragment, o)
                        &&& match add_itinerary_fields_of(fragment, o) {
                            Err(e) => r is Err && r->Err_0@ == e && final_export == old_export,
                            Ok(fv) => {
                                let items = day_items_before(old_export.days@, d);
                                let so = max_or_zero(itinerary_sort_orders(items)) + SORT_ORDER_STEP;
                                &&& same_except_days(final_export, old_export)
                                &&& exists|f: ParsedAddItineraryFields, x: ExportItineraryV3|
                                    #![trigger add_fields_view(f), is_added_itinerary(x, f, so as i64)]
                                    {
                                        &&& add_fields_view(f) == fv
                                        &&& is_added_itinerary(x, f, so as i64)
                                        &&& day_replaced(old_export.days@, final_export.days@, d, items.push(x))
                                    }
                                &&& r matches Ok(s) && {
                                    &&& s.intent@ == intent
                                    &&& s.action@ == "add_itinerary"@
                                    &&& opt_view(s.candidate_title) == Some(fv.0)
                                    &&& s.itineraries_before == itineraries_before
                                    &&& s.itineraries_after == days_total(final_export.days@, ItineraryPart::Itself)
                                    &&& s.notes_before is None && s.notes_after is None
                                    &&& s.expenses_before is None && s.expenses_after is None
                                    &&& s.expense_preview is None && s.estimates_before is None
                                    &&& s.estimates_after is None && s.estimate_preview is None
                                    &&& s.estimate_update_preview is None && s.estimate_field_changes is None
                                    &&& s.estimate_delete_preview is None && s.reservations_before is None
                                    &&& s.reservations_after is None && s.reservation_preview is None
                                    &&& s.itinerary_field_changes is None && s.reorder_preview is None
                                    &&& s.move_preview is None && s.delete_preview is None
                                }
                            },
                        }
                    }
            },
        },
    }
}

/// Previews adding an itinerary to a day target: the day within the trip
/// (`day_count`, the outcome of validating its dates), the fields read from
/// the fragment (`check` decides whether a time text has the HH:MM form;
/// ordering hints and unsupported keys are warned about), and the itinerary
/// appended to the day, one sort-order step after its last.
pub fn simulate_add_itinerary_preview<F: Fn(&str) -> Result<(), String>>(
    export: &mut TripExportV3,
    resolved: &ResolvedApplyTarget,
    fragment: &JsonMembers,
    intent: &str,
    itineraries_before: usize,
    day_count: Result<i64, String>,
    check: &F,
    report: &mut FragmentApplyDryRunReport,
) -> (r: Result<FragmentApplyPreviewSummary, String>)
    requires
        forall|s: &str| check.requires((s,)),
        days_total(old(export).days@, ItineraryPart::Itself) < usize::MAX,
        sort_orders_leave_room(old(export).days@, *resolved),
    ensures
        add_itinerary_outcome(
            *old(export),
            *final(export),
            *old(report),
            *final(report),
            r,
            *resolved,
            fragment@,
            intent@,
            itineraries_before,
            day_count,
            *check,
        ),
{
    let day_number = match resolved.day_number {
        Some(d) => d,
        None => return Err(owned("intent が add ですが target Day が解決されていません")),
    };
    ensure_day_in_range(export, day_number, day_count)?;
    match get_member(fragment, "candidate_content") {
        Some(v) => match json_object(v) {
            Some(c) => {
                if non_empty_string(get_member(c, "title")).is_some() {
                    collect_add_ordering_hint_warnings(c, fragment, &mut report.warnings);
                    warn_unsupported_add_candidate_keys(c, &mut report.warnings);
                }
            },
            None => {},
        },
        None => {},
    }
    let parsed = parse_add_itinerary_fields(fragment, check);
    let ghost o = choose|o: Result<(), String>|
        #![trigger add_itinerary_fields_of(fragment@, o)]
        {
            &&& add_time_checked(*check, fragment@, o)
            &&& match parsed {
                Ok(f) => add_itinerary_fields_of(fragment@, o) == Ok::<
                    (
                        Seq<char>,
                        Option<Seq<char>>,
                        Option<Seq<char>>,
                        Option<crate::models::ItineraryCategory>,
                        Option<Seq<char>>,
                        Option<i64>,
                        Option<i64>,
                    ),
                    Seq<char>,
                >(add_fields_view(f)),
                Err(e) => add_itinerary_fields_of(fragment@, o) == Err::<
                    (
                        Seq<char>,
                        Option<Seq<char>>,
                        Option<Seq<char>>,
                        Option<crate::models::ItineraryCategory>,
                        Option<Seq<char>>,
                        Option<i64>,
                        Option<i64>,
                    ),
                    Seq<char>,
                >(e@),
            }
        };
    let fields = match parsed {
        Ok(f) => f,
        Err(e) => return Err(e),
    };
    let ghost before = *export;
    let ghost items = day_items_before(before.days@, day_number);
    proof {
        crate::proposal::apply::lemma_day_index_from_bounds(before.days@, day_number, 0);
        let s = itinerary_sort_orders(items);
        if s.len() > 0 {
            lemma_max_or_zero_bounds(s);
            let j = choose|i: int| 0 <= i < s.len() && s[i] == max_or_zero(s);
            assert(items[j].sort_order <= i64::MAX - SORT_ORDER_STEP);
        }
    }
    let k = find_or_create_day(export, day_number);
    assert(export.days@[k as int].itineraries@ == items);
    proof {
        if first_day_index(before.days@, day_number) is None {
            assert(export.days@.drop_last() =~= before.days@);
            crate::proposal::apply::previews::lemma_items_total_itself(export.days@.last().itineraries@);
        }
    }
    let sort_order = append_sort_order_for_export_day(&export.days[k]);
    let x = build_export_itinerary_from_add_fields(&fields, sort_order);
    let ghost mid = export.days@;
    let mut day = export.days.remove(k);
    day.itineraries.push(x);
    export.days.insert(k, day);
    assert forall|i: int| 0 <= i < mid.len() && i != k implies export.days@[i] == mid[i] by {}
    proof {
        assert(export.days@ =~= mid.update(k as int, export.days@[k as int]));
        crate::proposal::apply::previews::lemma_days_total_update(mid, k as int, export.days@[k as int], ItineraryPart::Itself);
        crate::proposal::apply::previews::lemma_items_total_itself(mid[k as int].itineraries@);
        crate::proposal::apply::previews::lemma_items_total_itself(export.days@[k as int].itineraries@);
    }
    let itineraries_after = count_itineraries(export);
    let ghost so = max_or_zero(itinerary_sort_orders(items)) + SORT_ORDER_STEP;
    assert(is_added_itinerary(x, fields, so as i64));
    assert(day_replaced(before.days@, export.days@, day_number, items.push(x)));
    assert(same_except_days(*export, before));
    assert(add_itinerary_fields_of(fragment@, o) == Ok::<
        (
            Seq<char>,
            Option<Seq<char>>,
            Option<Seq<char>>,
            Option<crate::models::ItineraryCategory>,
            Option<Seq<char>>,
            Option<i64>,
            Option<i64>,
        ),
        Seq<char>,
    >(add_fields_view(fields)));
    let mut summary = crate::proposal::apply::empty_preview_summary(intent, "add_itinerary", itineraries_before);
    summary.candidate_title = Some(fields.title);
    summary.itineraries_after = itineraries_after;
    Ok(summary)
}

// ---------------------------------------------------------------------------
// Adding a note.

/// The preview with one more note; nothing else changed.
pub open spec fn note_added(before: TripExportV3, after: TripExportV3, n: ExportNote) -> bool {
    &&& same_except_days_and_notes(after, before)
    &&& after.days == before.days
    &&& after.notes is Some
    &&& crate::models::opt_vec_view(after.notes) == crate::models::opt_vec_view(before.notes).push(n)
}

/// The unsupported-key warnings of an addition, once its candidate is an object.
pub open spec fn candidate_warnings(
    before: Seq<Seq<char>>,
    fragment: Seq<(String, JsonValue)>,
    supported: Seq<&'static str>,
    intent: Seq<char>,
) -> Seq<Seq<char>> {
    match object_member(fragment, "candidate_content"@) {
        Some(c) => crate::proposal::materialize::append_unique(before, unsupported_key_lines(c, supported, intent)),
        None => before,
    }
}

/// What previewing an `add_note` gives (see `simulate_add_note_preview`).
pub open spec fn add_note_outcome(
    old_export: TripExportV3,
    final_export: TripExportV3,
    old_report: FragmentApplyDryRunReport,
    final_report: FragmentApplyDryRunReport,
    r: Result<FragmentApplyPreviewSummary, String>,
    resolved: ResolvedApplyTarget,
    fragment: Seq<(String, JsonValue)>,
    intent: Seq<char>,
    itineraries_before: usize,
    notes_before: usize,
) -> bool {
    &&& same_but_warnings(old_report, final_report)
    &&& strings_view(final_report.warnings@) == candidate_warnings(
        strings_view(old_report.warnings@),
        fragment,
        seq!["title", "body"],
        "add_note"@,
    )
    &&& match add_note_fields(fragment) {
        Err(e) => r is Err && r->Err_0@ == e && final_export == old_export,
        Ok((title, body)) => match r {
            Err(e) => {
                &&& added_note(Err(e), title, body, resolved, old_export)
                &&& final_export == old_export
            },
            Ok(s) => {
                &&& exists|n: ExportNote|
                    #![trigger note_added(old_export, final_export, n)]
                    added_note(Ok(n), title, body, resolved, old_export) && note_added(
                        old_export,
                        final_export,
                        n,
                    )
                &&& {
                    &&& s.intent@ == intent
                    &&& s.action@ == "add_note"@
                    &&& opt_view(s.candidate_title) == title
                    &&& s.itineraries_before == itineraries_before
                    &&& s.itineraries_after == itineraries_before
                    &&& s.notes_before == Some(notes_before)
                    &&& s.notes_after == Some((notes_before + 1) as usize)
                    &&& s.expenses_before is None && s.expenses_after is None
                    &&& s.expense_preview is None && s.estimates_before is None
                    &&& s.estimates_after is None && s.estimate_preview is None
                    &&& s.estimate_update_preview is None && s.estimate_field_changes is None
                    &&& s.estimate_delete_preview is None && s.reservations_before is None
                    &&& s.reservations_after is None && s.reservation_preview is None
                    &&& s.itinerary_field_changes is None && s.reorder_preview is None
                    &&& s.move_preview is None && s.delete_preview is None
                }
            },
        },
    }
}

/// Previews adding a note to the target (the trip, a day or an itinerary):
/// the note's fields read from the fragment (unsupported keys warned about),
/// then the note added to the preview's notes.
pub fn simulate_add_note_preview(
    export: &mut TripExportV3,
    resolved: &ResolvedApplyTarget,
    fragment: &JsonMembers,
    intent: &str,
    itineraries_before: usize,
    notes_before: usize,
    report: &mut FragmentApplyDryRunReport,
) -> (r: Result<FragmentApplyPreviewSummary, String>)
    requires
        notes_before < usize::MAX,
    ensures
        add_note_outcome(
            *old(export),
            *final(export),
            *old(report),
            *final(report),
            r,
            *resolved,
            fragment@,
            intent@,
            itineraries_before,
            notes_before,
        ),
{
    match get_member(fragment, "candidate_content") {
        Some(v) => match json_object(v) {
            Some(c) => warn_unsupported_add_note_candidate_keys(c, &mut report.warnings),
            None => {},
        },
        None => {},
    }
    let fields = parse_add_note_fields(fragment)?;
    let built = build_export_note_from_add_fields(&fields, resolved, export);
    let note = match built {
        Ok(n) => n,
        Err(e) => {
            assert(added_note(Err(e), opt_view(fields.title), fields.body@, *resolved, *old(export)));
            return Err(e);
        },
    };
    let ghost n = note;
    assert(added_note(Ok(n), opt_view(fields.title), fields.body@, *resolved, *old(export)));
    let ghost before = *export;
    let mut notes = match export.notes.take() {
        Some(v) => v,
        None => Vec::new(),
    };
    notes.push(note);
    export.notes = Some(notes);
    assert(note_added(before, *export, n));
    let mut summary = crate::proposal::apply::empty_preview_summary(intent, "add_note", itineraries_before);
    summary.candidate_title = fields.title;
    summary.notes_before = Some(notes_before);
    summary.notes_after = Some(notes_before + 1);
    Ok(summary)
}

// ---------------------------------------------------------------------------
// Adding an expense or an estimate to an itinerary.

/// The summary's optional parts, but the counts of notes, expenses and
/// estimates where asked for, are all absent.
pub open spec fn details_none_except(
    s: FragmentApplyPreviewSummary,
    notes: bool,
    expenses: bool,
    estimates: bool,
) -> bool {
    &&& (!notes ==> s.notes_before is None && s.notes_after is None)
    &&& (!expenses ==> s.expenses_before is None && s.expenses_after is None && s.expense_preview is None)
    &&& (!estimates ==> s.estimates_before is None && s.estimates_after is None && s.estimate_preview is None)
    &&& s.estimate_update_preview is None && s.estimate_field_changes is None
    &&& s.estimate_delete_preview is None && s.reservations_before is None
    &&& s.reservations_after is None && s.reservation_preview is None
    &&& s.itinerary_field_changes is None && s.reorder_preview is None
    &&& s.move_preview is None && s.delete_preview is None
}

/// The checks an addition under an itinerary makes before reading its fields:
/// an itinerary target with a day and a sort order, the day within the trip.
pub open spec fn child_target_check(
    export: TripExportV3,
    resolved: ResolvedApplyTarget,
    day_count: Result<i64, String>,
    kind: Seq<char>,
) -> Result<(i64, i64), Seq<char>> {
    if resolved.target_type@ != "itinerary"@ {
        Err(kind + " は itinerary target のみサポートしています（trip / day は未対応）"@)
    } else {
        match resolved.day_number {
            None => Err(kind + " の Itinerary target が解決されていません（day）"@),
            Some(d) => match resolved.itinerary_sort_order {
                None => Err(kind + " の Itinerary target が解決されていません（sort_order）"@),
                Some(so) => match day_range_check(export, d, day_count) {
                    Err(e) => Err(e),
                    Ok(_) => Ok((d, so)),
                },
            },
        }
    }
}

/// The days, with an empty day numbered `d` appended when there was none.
pub open spec fn day_ensured(before: Seq<ExportDayV3>, after: Seq<ExportDayV3>, d: i64) -> bool {
    match first_day_index(before, d) {
        Some(_) => after == before,
        None => {
            &&& after.len() == before.len() + 1
            &&& forall|i: int| 0 <= i < before.len() ==> after[i] == before[i]
            &&& after[before.len() as int].day_number == d
            &&& after[before.len() as int].summary is None
            &&& after[before.len() as int].itineraries@.len() == 0
        },
    }
}

/// The itinerary at index `j` of day `k` became `it`; every other day and
/// itinerary is unchanged.
pub open spec fn itinerary_replaced(before: Seq<ExportDayV3>, after: Seq<ExportDayV3>, k: int, j: int) -> bool {
    &&& after.len() == before.len()
    &&& forall|i: int| 0 <= i < before.len() && i != k ==> after[i] == before[i]
    &&& same_day_header(after[k], before[k])
    &&& after[k].itineraries@.len() == before[k].itineraries@.len()
    &&& forall|i: int|
        0 <= i < before[k].itineraries@.len() && i != j ==> after[k].itineraries@[i] == before[k].itineraries@[i]
}

/// The itinerary's own fields are unchanged.
pub open spec fn same_itinerary_fields(a: ExportItineraryV3, b: ExportItineraryV3) -> bool {
    &&& a.title == b.title && a.note == b.note && a.start_time == b.start_time
    &&& a.sort_order == b.sort_order && a.duration_minutes == b.duration_minutes
    &&& a.travel_minutes == b.travel_minutes && a.location == b.location && a.category == b.category
}

/// An expense made from the fields of an addition, with this sort order.
pub open spec fn is_added_expense(x: ExportExpenseV3, m: MoneyFieldsView, sort_order: int) -> bool {
    &&& opt_view(x.title) == m.0
    &&& x.amount == m.1
    &&& x.currency@ == m.2
    &&& opt_view(x.note) == m.3
    &&& x.paid_by_name is None && x.paid_by_participant_ref is None && x.expense_date is None
    &&& x.beneficiaries@.len() == 0
    &&& x.sort_order == sort_order
}

/// `after` is `before` with one expense appended, made from `m` at one past
/// the largest sort order of its expenses.
pub open spec fn expense_appended(before: ExportItineraryV3, after: ExportItineraryV3, m: MoneyFieldsView) -> bool {
    &&& same_itinerary_fields(after, before)
    &&& after.estimates == before.estimates && after.reservations == before.reservations
    &&& after.expenses@.len() == before.expenses@.len() + 1
    &&& after.expenses@.drop_last() == before.expenses@
    &&& is_added_expense(after.expenses@.last(), m, max_or_zero(expense_sort_orders(before.expenses@)) + 1)
}

/// Every expense sort order leaves room for one more.
pub open spec fn expense_orders_leave_room(days: Seq<ExportDayV3>) -> bool {
    forall|k: int, j: int, i: int|
        0 <= k < days.len() && 0 <= j < days[k].itineraries@.len() && 0 <= i < days[k].itineraries@[j].expenses@.len()
            ==> #[trigger] days[k].itineraries@[j].expenses@[i].sort_order < i64::MAX
}

pub(crate) fn itinerary_missing_text(day_number: i64, sort_order: i64) -> (r: String)
    ensures
        r@ == crate::proposal::apply::itinerary_not_found_message(day_number, sort_order),
{
    let mut m = owned("preview 内に itinerary (day ");
    crate::text::push_i64_decimal(&mut m, day_number);
    push_str(&mut m, ", sort_order ");
    crate::text::push_i64_decimal(&mut m, sort_order);
    push_str(&mut m, ") が見つかりません");
    m
}

pub(crate) fn child_target(
    export: &TripExportV3,
    resolved: &ResolvedApplyTarget,
    day_count: Result<i64, String>,
    kind: &str,
) -> (r: Result<(i64, i64), String>)
    ensures
        crate::text::result_view(r) == child_target_check(*export, *resolved, day_count, kind@),
{
    if !crate::text::str_eq(resolved.target_type.as_str(), "itinerary") {
        let mut m = owned(kind);
        push_str(&mut m, " は itinerary target のみサポートしています（trip / day は未対応）");
        return Err(m);
    }
    let d = match resolved.day_number {
        Some(d) => d,
        None => {
            let mut m = owned(kind);
            push_str(&mut m, " の Itinerary target が解決されていません（day）");
            return Err(m);
        },
    };
    let so = match resolved.itinerary_sort_order {
        Some(so) => so,
        None => {
            let mut m = owned(kind);
            push_str(&mut m, " の Itinerary target が解決されていません（sort_order）");
            return Err(m);
        },
    };
    match ensure_day_in_range(export, d, day_count) {
        Ok(()) => Ok((d, so)),
        Err(e) => Err(e),
    }
}

proof fn lemma_items_total_update(items: Seq<ExportItineraryV3>, j: int, it: ExportItineraryV3, part: ItineraryPart)
    requires
        0 <= j < items.len(),
    ensures
        items_total(items.update(j, it), part) + crate::proposal::apply::part_count(items[j], part) == items_total(
            items,
            part,
        ) + crate::proposal::apply::part_count(it, part),
    decreases items.len(),
{
    let u = items.update(j, it);
    if j == items.len() - 1 {
        assert(u.drop_last() =~= items.drop_last());
    } else {
        lemma_items_total_update(items.drop_last(), j, it, part);
        assert(u.drop_last() =~= items.drop_last().update(j, it));
    }
}

/// What previewing an `add_expense` gives (see `simulate_add_expense_preview`).
pub open spec fn add_expense_outcome(
    old_export: TripExportV3,
    final_export: TripExportV3,
    old_report: FragmentApplyDryRunReport,
    final_report: FragmentApplyDryRunReport,
    r: Result<FragmentApplyPreviewSummary, String>,
    resolved: ResolvedApplyTarget,
    fragment: Seq<(String, JsonValue)>,
    intent: Seq<char>,
    itineraries_before: usize,
    expenses_before: usize,
    day_count: Result<i64, String>,
) -> bool {
    &&& same_but_warnings(old_report, final_report)
    &&& match child_target_check(old_export, resolved, day_count, "add_expense"@) {
        Err(e) => {
            &&& r is Err && r->Err_0@ == e
            &&& final_export == old_export && final_report.warnings == old_report.warnings
        },
        Ok((d, so)) => {
            &&& strings_view(final_report.warnings@) == candidate_warnings(
                strings_view(old_report.warnings@),
                fragment,
                seq!["title", "description", "label", "amount", "currency", "note", "memo"],
                "add_expense"@,
            )
            &&& match add_expense_fields(fragment) {
                Err(e) => r is Err && r->Err_0@ == e && final_export == old_export,
                Ok(m) => match first_day_index(old_export.days@, d) {
                    None => {
                        &&& r is Err && r->Err_0@ == crate::proposal::apply::itinerary_not_found_message(d, so)
                        &&& same_except_days(final_export, old_export)
                        &&& day_ensured(old_export.days@, final_export.days@, d)
                    },
                    Some(k) => match first_item_index(old_export.days@[k].itineraries@, so) {
                        None => {
                            &&& r is Err && r->Err_0@ == crate::proposal::apply::itinerary_not_found_message(d, so)
                            &&& same_except_days(final_export, old_export)
                            &&& final_export.days@ == old_export.days@
                        },
                        Some(j) => {
                            &&& same_except_days(final_export, old_export)
                            &&& itinerary_replaced(old_export.days@, final_export.days@, k, j)
                            &&& expense_appended(
                                old_export.days@[k].itineraries@[j],
                                final_export.days@[k].itineraries@[j],
                                m,
                            )
                            &&& r matches Ok(s) && {
                                &&& s.intent@ == intent
                                &&& s.action@ == "add_expense"@
                                &&& opt_view(s.candidate_title) == m.0
                                &&& s.itineraries_before == itineraries_before
                                &&& s.itineraries_after == itineraries_before
                                &&& s.expenses_before == Some(expenses_before)
                                &&& s.expenses_after == Some(
                                    (days_total(old_export.days@, ItineraryPart::Expenses) + 1) as usize,
                                )
                                &&& s.expense_preview matches Some(p) && {
                                    &&& p.amount == m.1 && p.currency@ == m.2
                                    &&& opt_view(p.title) == m.0 && opt_view(p.note) == m.3
                                }
                                &&& details_none_except(s, false, true, false)
                            }
                        },
                    },
                },
            }
        },
    }
}

/// Previews adding an expense to an itinerary target: the target checks,
/// the expense's fields read from the fragment (unsupported keys warned
/// about), then the expense appended to the itinerary of the preview, one
/// past the largest sort order of its expenses. `day_count` is the outcome
/// of validating the trip's dates.
pub fn simulate_add_expense_preview(
    export: &mut TripExportV3,
    resolved: &ResolvedApplyTarget,
    fragment: &JsonMembers,
    intent: &str,
    itineraries_before: usize,
    expenses_before: usize,
    day_count: Result<i64, String>,
    report: &mut FragmentApplyDryRunReport,
) -> (r: Result<FragmentApplyPreviewSummary, String>)
    requires
        days_total(old(export).days@, ItineraryPart::Expenses) < usize::MAX,
        expense_orders_leave_room(old(export).days@),
    ensures
        add_expense_outcome(
            *old(export),
            *final(export),
            *old(report),
            *final(report),
            r,
            *resolved,
            fragment@,
            intent@,
            itineraries_before,
            expenses_before,
            day_count,
        ),
{
    let (d, so) = match child_target(export, resolved, day_count, "add_expense") {
        Ok(p) => p,
        Err(e) => return Err(e),
    };
    match get_member(fragment, "candidate_content") {
        Some(v) => match json_object(v) {
            Some(c) => warn_unsupported_add_expense_candidate_keys(c, &mut report.warnings),
            None => {},
        },
        None => {},
    }
    let fields = match parse_add_expense_fields(fragment) {
        Ok(f) => f,
        Err(e) => return Err(e),
    };
    let ghost before = *export;
    proof {
        crate::proposal::apply::lemma_day_index_from_bounds(before.days@, d, 0);
    }
    let k = find_or_create_day(export, d);
    let ghost mid = export.days@;
    let mut day = export.days.remove(k);
    let ghost day0 = day;
    proof {
        crate::proposal::apply::lemma_item_index_from_bounds(day0.itineraries@, so, 0);
    }
    match find_itinerary_mut_in_export_day(&mut day, so) {
        Some(it) => {
            proof {
                let j = first_item_index(day0.itineraries@, so)->Some_0;
                let es = expense_sort_orders(it.expenses@);
                if es.len() > 0 {
                    lemma_max_or_zero_bounds(es);
                    let i = choose|i: int| 0 <= i < es.len() && es[i] == max_or_zero(es);
                    assert(before.days@[k as int].itineraries@[j].expenses@[i].sort_order < i64::MAX);
                }
            }
            let eso = append_sort_order_for_export_itinerary(it);
            let x = build_export_expense_from_add_fields(&fields, eso);
            it.expenses.push(x);
        },
        None => {
            export.days.insert(k, day);
            proof {
                assert(export.days@ =~= mid);
                if first_day_index(before.days@, d) is None {
                    assert forall|i: int| 0 <= i < before.days@.len() implies export.days@[i] == before.days@[i] by {
                        assert(mid.subrange(0, k as int)[i] == mid[i]);
                    }
                }
            }
            return Err(itinerary_missing_text(d, so));
        },
    }
    export.days.insert(k, day);
    let ghost j = first_item_index(day0.itineraries@, so)->Some_0;
    assert forall|i: int| 0 <= i < mid.len() && i != k implies export.days@[i] == mid[i] by {}
    proof {
        assert(export.days@ =~= mid.update(k as int, export.days@[k as int]));
        assert(export.days@[k as int].itineraries@ =~= day0.itineraries@.update(j, export.days@[k as int].itineraries@[j]));
        lemma_items_total_update(day0.itineraries@, j, export.days@[k as int].itineraries@[j], ItineraryPart::Expenses);
        crate::proposal::apply::previews::lemma_days_total_update(mid, k as int, export.days@[k as int], ItineraryPart::Expenses);
        assert(export.days@[k as int].itineraries@[j].expenses@.drop_last() =~= day0.itineraries@[j].expenses@);
    }
    let expenses_after = count_expenses(export);
    let mut summary = crate::proposal::apply::empty_preview_summary(intent, "add_expense", itineraries_before);
    summary.candidate_title = crate::proposal::apply::opt_string_copy(&fields.title);
    summary.expenses_before = Some(expenses_before);
    summary.expenses_after = Some(expenses_after);
    summary.expense_preview = Some(
        crate::proposal::apply::FragmentApplyExpensePreview {
            amount: fields.amount,
            currency: fields.currency,
            title: fields.title,
            note: fields.note,
        },
    );
    Ok(summary)
}

/// The database id of the target itinerary: the first record of the target
/// day (`day_items`, the outcome of reading them) with the target's sort order.
pub open spec fn db_id_lookup(resolved: ResolvedApplyTarget, day_items: Result<Vec<ItineraryItem>, String>) -> Result<
    i64,
    Seq<char>,
> {
    match resolved.day_number {
        None => Err("add_estimate の Itinerary target が解決されていません（day）"@),
        Some(d) => match resolved.itinerary_sort_order {
            None => Err("add_estimate の Itinerary target が解決されていません（sort_order）"@),
            Some(so) => match day_items {
                Err(e) => Err("Itinerary target の解決に失敗しました: "@ + e@),
                Ok(items) => match first_with_sort(items@, so, 0) {
                    Some(i) => Ok(items@[i].id),
                    None => Err("target itinerary (day "@ + dec(d) + ", sort_order "@ + dec(so) + ") の DB ID を解決できません"@),
                },
            },
        },
    }
}

/// Looks up the database id of the target itinerary among the records of the
/// target day, as read (`day_items`).
pub fn lookup_itinerary_db_id_from_resolved(
    resolved: &ResolvedApplyTarget,
    day_items: Result<Vec<ItineraryItem>, String>,
) -> (r: Result<i64, String>)
    ensures
        crate::text::result_view(r) == db_id_lookup(*resolved, day_items),
{
    let d = match resolved.day_number {
        Some(d) => d,
        None => return Err(owned("add_estimate の Itinerary target が解決されていません（day）")),
    };
    let so = match resolved.itinerary_sort_order {
        Some(so) => so,
        None => return Err(owned("add_estimate の Itinerary target が解決されていません（sort_order）")),
    };
    let items = match day_items {
        Ok(items) => items,
        Err(e) => {
            let mut m = owned("Itinerary target の解決に失敗しました: ");
            push_str(&mut m, e.as_str());
            return Err(m);
        },
    };
    match find_with_sort(&items, so) {
        Some(i) => Ok(items[i].id),
        None => {
            let mut m = owned("target itinerary (day ");
            crate::text::push_i64_decimal(&mut m, d);
            push_str(&mut m, ", sort_order ");
            crate::text::push_i64_decimal(&mut m, so);
            push_str(&mut m, ") の DB ID を解決できません");
            Err(m)
        },
    }
}

/// The checks adding an estimate makes before reading its fields: an
/// itinerary target with a day and a sort order, its database id found, its
/// title known, the day within the trip.
pub open spec fn add_estimate_check(
    export: TripExportV3,
    resolved: ResolvedApplyTarget,
    day_count: Result<i64, String>,
    day_items: Result<Vec<ItineraryItem>, String>,
) -> Result<(i64, i64, i64), Seq<char>> {
    if resolved.target_type@ != "itinerary"@ {
        Err("add_estimate は itinerary target のみサポートしています（trip / day は未対応）"@)
    } else {
        match resolved.day_number {
            None => Err("add_estimate の Itinerary target が解決されていません（day）"@),
            Some(d) => match resolved.itinerary_sort_order {
                None => Err("add_estimate の Itinerary target が解決されていません（sort_order）"@),
                Some(so) => match db_id_lookup(resolved, day_items) {
                    Err(e) => Err(e),
                    Ok(id) => match resolved.itinerary_title {
                        None => Err("add_estimate の Itinerary target が解決されていません（title）"@),
                        Some(_) => match day_range_check(export, d, day_count) {
                            Err(e) => Err(e),
                            Ok(_) => Ok((d, so, id)),
                        },
                    },
                },
            },
        }
    }
}

/// An estimate made from the fields of an addition.
pub open spec fn is_added_estimate(x: ExportEstimateV3, v: EstimateFieldsView) -> bool {
    &&& opt_view(x.title) == v.0
    &&& x.amount == v.1
    &&& x.currency@ == v.2
    &&& opt_view(x.note) == v.3
    &&& x.sort_order == v.4
}

/// `after` is `before` with one estimate appended, made from `v`.
pub open spec fn estimate_appended(before: ExportItineraryV3, after: ExportItineraryV3, v: EstimateFieldsView) -> bool {
    &&& same_itinerary_fields(after, before)
    &&& after.expenses == before.expenses && after.reservations == before.reservations
    &&& after.estimates@.len() == before.estimates@.len() + 1
    &&& after.estimates@.drop_last() == before.estimates@
    &&& is_added_estimate(after.estimates@.last(), v)
}

/// What previewing an `add_estimate` gives (see `simulate_add_estimate_preview`).
pub open spec fn add_estimate_outcome(
    old_export: TripExportV3,
    final_export: TripExportV3,
    old_report: FragmentApplyDryRunReport,
    final_report: FragmentApplyDryRunReport,
    r: Result<FragmentApplyPreviewSummary, String>,
    resolved: ResolvedApplyTarget,
    fragment: Seq<(String, JsonValue)>,
    intent: Seq<char>,
    itineraries_before: usize,
    estimates_before: usize,
    day_count: Result<i64, String>,
    day_items: Result<Vec<ItineraryItem>, String>,
) -> bool {
    &&& same_but_warnings(old_report, final_report)
    &&& match add_estimate_check(old_export, resolved, day_count, day_items) {
        Err(e) => {
            &&& r is Err && r->Err_0@ == e
            &&& final_export == old_export && final_report.warnings == old_report.warnings
        },
        Ok((d, so, id)) => {
            &&& strings_view(final_report.warnings@) == candidate_warnings(
                strings_view(old_report.warnings@),
                fragment,
                seq!["title", "description", "label", "amount", "currency", "note", "memo", "sort_order"],
                "add_estimate"@,
            )
            &&& match add_estimate_fields(fragment) {
                Err(e) => r is Err && r->Err_0@ == e && final_export == old_export,
                Ok(v) => match first_day_index(old_export.days@, d) {
                    None => {
                        &&& r is Err && r->Err_0@ == crate::proposal::apply::itinerary_not_found_message(d, so)
                        &&& same_except_days(final_export, old_export)
                        &&& day_ensured(old_export.days@, final_export.days@, d)
                    },
                    Some(k) => match first_item_index(old_export.days@[k].itineraries@, so) {
                        None => {
                            &&& r is Err && r->Err_0@ == crate::proposal::apply::itinerary_not_found_message(d, so)
                            &&& same_except_days(final_export, old_export)
                            &&& final_export.days@ == old_export.days@
                        },
                        Some(j) => {
                            &&& same_except_days(final_export, old_export)
                            &&& itinerary_replaced(old_export.days@, final_export.days@, k, j)
                            &&& estimate_appended(
                                old_export.days@[k].itineraries@[j],
                                final_export.days@[k].itineraries@[j],
                                v,
                            )
                            &&& r matches Ok(s) && {
                                &&& s.intent@ == intent
                                &&& s.action@ == "add_estimate"@
                                &&& opt_view(s.candidate_title) == v.0
                                &&& s.itineraries_before == itineraries_before
                                &&& s.itineraries_after == itineraries_before
                                &&& s.estimates_before == Some(estimates_before)
                                &&& s.estimates_after == Some(
                                    (days_total(old_export.days@, ItineraryPart::Estimates) + 1) as usize,
                                )
                                &&& s.estimate_preview matches Some(p) && {
                                    &&& p.target_itinerary_id == id
                                    &&& p.target_itinerary_title@ == resolved.itinerary_title->Some_0@
                                    &&& p.amount == v.1 && p.currency@ == v.2
                                    &&& opt_view(p.title) == v.0 && opt_view(p.note) == v.3
                                    &&& p.sort_order == v.4
                                }
                                &&& details_none_except(s, false, false, true)
                            }
                        },
                    },
                },
            }
        },
    }
}

/// The estimate an `add_estimate` preview shows is the one `--confirm`
/// inserts: when the fields read again at write time are those the preview
/// read and the target resolves to the same itinerary id, the confirm gate
/// finds no difference.
pub proof fn lemma_add_estimate_preview_passes_gate(
    old_export: TripExportV3,
    final_export: TripExportV3,
    old_report: FragmentApplyDryRunReport,
    final_report: FragmentApplyDryRunReport,
    r: Result<FragmentApplyPreviewSummary, String>,
    resolved: ResolvedApplyTarget,
    fragment: Seq<(String, JsonValue)>,
    intent: Seq<char>,
    itineraries_before: usize,
    estimates_before: usize,
    day_count: Result<i64, String>,
    day_items: Result<Vec<ItineraryItem>, String>,
    x: crate::proposal::apply::ParsedAddEstimateFields,
)
    requires
        add_estimate_outcome(
            old_export,
            final_export,
            old_report,
            final_report,
            r,
            resolved,
            fragment,
            intent,
            itineraries_before,
            estimates_before,
            day_count,
            day_items,
        ),
        r is Ok,
        add_estimate_fields(fragment) == Ok::<EstimateFieldsView, Seq<char>>(
            (opt_view(x.title), x.amount as int, x.currency@, opt_view(x.note), x.sort_order),
        ),
    ensures
        add_estimate_check(old_export, resolved, day_count, day_items) is Ok,
        r->Ok_0.estimate_preview matches Some(p) && crate::proposal::apply::checks::estimate_preview_check(
            p,
            x,
            add_estimate_check(old_export, resolved, day_count, day_items)->Ok_0.2,
        ) == Ok::<(), Seq<char>>(()),
{
}

/// Previews adding an estimate to an itinerary target: the target checks
/// (`day_items` are the records of the target day as read, to find its
/// database id; `day_count` the outcome of validating the trip's dates),
/// the estimate's fields read from the fragment (unsupported keys warned
/// about), then the estimate appended to the itinerary of the preview.
pub fn simulate_add_estimate_preview(
    export: &mut TripExportV3,
    resolved: &ResolvedApplyTarget,
    fragment: &JsonMembers,
    intent: &str,
    itineraries_before: usize,
    estimates_before: usize,
    day_count: Result<i64, String>,
    day_items: Result<Vec<ItineraryItem>, String>,
    report: &mut FragmentApplyDryRunReport,
) -> (r: Result<FragmentApplyPreviewSummary, String>)
    requires
        days_total(old(export).days@, ItineraryPart::Estimates) < usize::MAX,
    ensures
        add_estimate_outcome(
            *old(export),
            *final(export),
            *old(report),
            *final(report),
            r,
            *resolved,
            fragment@,
            intent@,
            itineraries_before,
            estimates_before,
            day_count,
            day_items,
        ),
{
    if !crate::text::str_eq(resolved.target_type.as_str(), "itinerary") {
        return Err(owned("add_estimate は itinerary target のみサポートしています（trip / day は未対応）"));
    }
    let d = match resolved.day_number {
        Some(d) => d,
        None => return Err(owned("add_estimate の Itinerary target が解決されていません（day）")),
    };
    let so = match resolved.itinerary_sort_order {
        Some(so) => so,
        None => return Err(owned("add_estimate の Itinerary target が解決されていません（sort_order）")),
    };
    let id = match lookup_itinerary_db_id_from_resolved(resolved, day_items) {
        Ok(id) => id,
        Err(e) => return Err(e),
    };
    let target_title = match &resolved.itinerary_title {
        Some(t) => owned(t.as_str()),
        None => return Err(owned("add_estimate の Itinerary target が解決されていません（title）")),
    };
    match ensure_day_in_range(export, d, day_count) {
        Ok(()) => {},
        Err(e) => return Err(e),
    }
    match get_member(fragment, "candidate_content") {
        Some(v) => match json_object(v) {
            Some(c) => warn_unsupported_add_estimate_candidate_keys(c, &mut report.warnings),
            None => {},
        },
        None => {},
    }
    let fields = match parse_add_estimate_fields(fragment) {
        Ok(f) => f,
        Err(e) => return Err(e),
    };
    let ghost before = *export;
    proof {
        crate::proposal::apply::lemma_day_index_from_bounds(before.days@, d, 0);
    }
    let k = find_or_create_day(export, d);
    let ghost mid = export.days@;
    let mut day = export.days.remove(k);
    let ghost day0 = day;
    proof {
        crate::proposal::apply::lemma_item_index_from_bounds(day0.itineraries@, so, 0);
    }
    match find_itinerary_mut_in_export_day(&mut day, so) {
        Some(it) => {
            let x = build_export_estimate_from_add_fields(&fields);
            it.estimates.push(x);
        },
        None => {
            export.days.insert(k, day);
            proof {
                assert(export.days@ =~= mid);
                if first_day_index(before.days@, d) is None {
                    assert forall|i: int| 0 <= i < before.days@.len() implies export.days@[i] == before.days@[i] by {
                        assert(mid.subrange(0, k as int)[i] == mid[i]);
                    }
                }
            }
            return Err(itinerary_missing_text(d, so));
        },
    }
    export.days.insert(k, day);
    let ghost j = first_item_index(day0.itineraries@, so)->Some_0;
    assert forall|i: int| 0 <= i < mid.len() && i != k implies export.days@[i] == mid[i] by {}
    proof {
        assert(export.days@ =~= mid.update(k as int, export.days@[k as int]));
        assert(export.days@[k as int].itineraries@ =~= day0.itineraries@.update(j, export.days@[k as int].itineraries@[j]));
        lemma_items_total_update(day0.itineraries@, j, export.days@[k as int].itineraries@[j], ItineraryPart::Estimates);
        crate::proposal::apply::previews::lemma_days_total_update(mid, k as int, export.days@[k as int], ItineraryPart::Estimates);
        assert(export.days@[k as int].itineraries@[j].estimates@.drop_last() =~= day0.itineraries@[j].estimates@);
    }
    let estimates_after = count_estimates(export);
    let mut summary = crate::proposal::apply::empty_preview_summary(intent, "add_estimate", itineraries_before);
    summary.candidate_title = crate::proposal::apply::opt_string_copy(&fields.title);
    summary.estimates_before = Some(estimates_before);
    summary.estimates_after = Some(estimates_after);
    summary.estimate_preview = Some(
        crate::proposal::apply::FragmentApplyEstimatePreview {
            target_itinerary_id: id,
            target_itinerary_title: target_title,
            amount: fields.amount,
            currency: fields.currency,
            title: fields.title,
            note: fields.note,
            sort_order: fields.sort_order,
        },
    );
    Ok(summary)
}

// ---------------------------------------------------------------------------
// Enriching a day; intents that only describe the fragment.

/// The title a fragment proposes: the candidate's title, else the candidate
/// itself when it is a non-empty text.
pub open spec fn fragment_candidate_title(f: Seq<(String, JsonValue)>) -> Option<Seq<char>> {
    let from_object = match object_member(f, "candidate_content"@) {
        Some(c) => non_empty_text(member(c, "title"@)),
        None => None,
    };
    match from_object {
        Some(t) => Some(t),
        None => non_empty_text(member(f, "candidate_content"@)),
    }
}

/// Reads the title a fragment proposes.
pub fn fragment_candidate_title_of(fragment: &JsonMembers) -> (r: Option<String>)
    ensures
        opt_view(r) == fragment_candidate_title(fragment@),
{
    let candidate = get_member(fragment, "candidate_content");
    let from_object = match candidate {
        Some(v) => match json_object(v) {
            Some(c) => non_empty_string(get_member(c, "title")),
            None => None,
        },
        None => None,
    };
    match from_object {
        Some(t) => Some(t),
        None => non_empty_string(candidate),
    }
}

/// The summary an `enrich` fragment proposes for its day.
pub open spec fn enrich_summary(f: Seq<(String, JsonValue)>) -> Option<Seq<char>> {
    match object_member(f, "candidate_content"@) {
        Some(c) => non_empty_text(member(c, "summary"@)),
        None => None,
    }
}

pub open spec fn msg_enrich_no_day() -> Seq<char> {
    "intent が enrich ですが Day target が解決されていません — preview は変更なし"@
}

pub open spec fn msg_enrich_no_summary() -> Seq<char> {
    "intent が enrich ですが candidate_content.summary がありません — preview は変更なし"@
}

/// `after` is `before` with the summary of the first day numbered `d` (an
/// empty day appended when missing) set to `t`; every other day unchanged.
pub open spec fn day_summary_set(before: Seq<ExportDayV3>, after: Seq<ExportDayV3>, d: i64, t: Seq<char>) -> bool {
    match first_day_index(before, d) {
        Some(k) => {
            &&& after.len() == before.len()
            &&& forall|i: int| 0 <= i < before.len() && i != k ==> after[i] == before[i]
            &&& after[k].day_number == d
            &&& after[k].itineraries == before[k].itineraries
            &&& opt_view(after[k].summary) == Some(t)
        },
        None => {
            &&& after.len() == before.len() + 1
            &&& forall|i: int| 0 <= i < before.len() ==> after[i] == before[i]
            &&& after[before.len() as int].day_number == d
            &&& opt_view(after[before.len() as int].summary) == Some(t)
            &&& after[before.len() as int].itineraries@.len() == 0
        },
    }
}

/// A summary that changes no count and carries no detail.
pub open spec fn is_plain_summary(
    s: FragmentApplyPreviewSummary,
    intent: Seq<char>,
    action: Seq<char>,
    fragment: Seq<(String, JsonValue)>,
    itineraries_before: usize,
) -> bool {
    &&& s.intent@ == intent
    &&& s.action@ == action
    &&& opt_view(s.candidate_title) == fragment_candidate_title(fragment)
    &&& s.itineraries_before == itineraries_before
    &&& s.itineraries_after == itineraries_before
    &&& details_none_except(s, false, false, false)
}

/// What previewing an `enrich` gives (see `simulate_enrich_preview`).
pub open spec fn enrich_outcome(
    old_export: TripExportV3,
    final_export: TripExportV3,
    old_report: FragmentApplyDryRunReport,
    final_report: FragmentApplyDryRunReport,
    r: Result<FragmentApplyPreviewSummary, String>,
    resolved: ResolvedApplyTarget,
    fragment: Seq<(String, JsonValue)>,
    intent: Seq<char>,
    itineraries_before: usize,
    day_count: Result<i64, String>,
) -> bool {
    &&& same_but_warnings(old_report, final_report)
    &&& match resolved.day_number {
        None => {
            &&& strings_view(final_report.warnings@) == strings_view(old_report.warnings@).push(
                msg_enrich_no_day(),
            )
            &&& final_export == old_export
            &&& r matches Ok(s) && is_plain_summary(s, intent, "enrich_preview"@, fragment, itineraries_before)
        },
        Some(d) => match day_range_check(old_export, d, day_count) {
            Err(e) => {
                &&& r is Err && r->Err_0@ == e
                &&& final_export == old_export && final_report.warnings == old_report.warnings
            },
            Ok(_) => {
                &&& r matches Ok(s) && is_plain_summary(s, intent, "enrich_preview"@, fragment, itineraries_before)
                &&& match enrich_summary(fragment) {
                    None => {
                        &&& strings_view(final_report.warnings@) == strings_view(old_report.warnings@).push(
                            msg_enrich_no_summary(),
                        )
                        &&& final_export == old_export
                    },
                    Some(t) => {
                        &&& final_report.warnings == old_report.warnings
                        &&& same_except_days(final_export, old_export)
                        &&& day_summary_set(old_export.days@, final_export.days@, d, t)
                    },
                }
            },
        },
    }
}

/// Previews an `enrich` fragment: with a day target within the trip
/// (`day_count`, the outcome of validating its dates) and a candidate
/// summary, that day's summary is set (the day added when missing); a
/// missing day target or summary leaves the preview as it is, with a warning.
pub fn simulate_enrich_preview(
    export: &mut TripExportV3,
    resolved: &ResolvedApplyTarget,
    fragment: &JsonMembers,
    intent: &str,
    itineraries_before: usize,
    day_count: Result<i64, String>,
    report: &mut FragmentApplyDryRunReport,
) -> (r: Result<FragmentApplyPreviewSummary, String>)
    ensures
        enrich_outcome(
            *old(export),
            *final(export),
            *old(report),
            *final(report),
            r,
            *resolved,
            fragment@,
            intent@,
            itineraries_before,
            day_count,
        ),
{
    match resolved.day_number {
        Some(d) => {
            match ensure_day_in_range(export, d, day_count) {
                Ok(()) => {},
                Err(e) => return Err(e),
            }
            let summary_text = match get_member(fragment, "candidate_content") {
                Some(v) => match json_object(v) {
                    Some(c) => non_empty_string(get_member(c, "summary")),
                    None => None,
                },
                None => None,
            };
            match summary_text {
                Some(t) => {
                    let ghost before = *export;
                    let k = find_or_create_day(export, d);
                    let ghost mid = export.days@;
                    let mut day = export.days.remove(k);
                    day.summary = Some(t);
                    export.days.insert(k, day);
                    assert forall|i: int| 0 <= i < mid.len() && i != k implies export.days@[i] == mid[i] by {}
                    proof {
                        if first_day_index(before.days@, d) is None {
                            assert forall|i: int| 0 <= i < before.days@.len() implies export.days@[i]
                                == before.days@[i] by {
                                assert(mid.subrange(0, k as int)[i] == mid[i]);
                            }
                        }
                    }
                },
                None => push_string(&mut report.warnings, owned(
                    "intent が enrich ですが candidate_content.summary がありません — preview は変更なし",
                )),
            }
        },
        None => push_string(&mut report.warnings, owned(
            "intent が enrich ですが Day target が解決されていません — preview は変更なし",
        )),
    }
    let mut summary = crate::proposal::apply::empty_preview_summary(intent, "enrich_preview", itineraries_before);
    summary.candidate_title = fragment_candidate_title_of(fragment);
    Ok(summary)
}

} // verus!
