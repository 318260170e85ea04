//! Applying a Proposal Fragment to a trip: the report types, the edits made to
//! an in-memory trip export to preview a change, the field-change lists shown
//! to the user, and the checks that a confirmed write agrees with its preview.
use vstd::prelude::*;

use crate::json::JsonValue;
use crate::models::{
    category_key, ExportDayV3, ExportEstimateV3, ExportExpenseV3, ExportItineraryV3, ExportNote, ExportReservationV3,
    ItineraryCategory, ItineraryItem, ItineraryNoteKey, TripExportV3, TRIP_EXPORT_GENERATOR,
    TRIP_EXPORT_SCHEMA_VERSION,
};
use crate::proposal::materialize::{append_each_unique, append_unique, non_empty_string_array, trimmed_texts};
use crate::text::{opt_view, owned, push_str, str_eq};

pub mod checks;
pub mod fields;
pub mod order;
pub mod reorder;
pub mod moving;
pub mod previews;
pub mod itinerary_fields;
pub mod target;
pub mod gate;
pub mod additions;
pub mod estimate_previews;
pub mod reservations;
pub mod dispatch;
pub mod confirm;
pub mod revalidate;
pub mod reorder_confirm;
pub mod move_confirm;



verus! {

pub const FRAGMENT_APPLY_REPORT_SCHEMA_VERSION: i32 = 2;

/// Gap between the sort orders of consecutive itineraries of a day.
pub const SORT_ORDER_STEP: i64 = 1000;

#[derive(Debug, PartialEq, Eq)]
pub struct FragmentApplyResolvedTarget {
    pub target_type: String,
    pub trip_id: i64,
    pub trip_name: String,
    pub day_number: Option<i64>,
    pub itinerary_sort_order: Option<i64>,
    pub itinerary_title: Option<String>,
    pub resolution: String,
}

#[derive(Debug, PartialEq, Eq)]
pub struct FragmentApplyItineraryFieldChange {
    pub field: String,
    pub before: String,
    pub after: String,
}

#[derive(Debug, PartialEq, Eq)]
pub struct FragmentApplyEstimateFieldChange {
    pub field: String,
    pub before: String,
    pub after: String,
}

#[derive(Debug, PartialEq, Eq)]
pub struct FragmentApplyEstimateUpdatePreview {
    pub target_itinerary_id: i64,
    pub target_itinerary_title: String,
    pub target_estimate_id: i64,
}

#[derive(Debug, PartialEq, Eq)]
pub struct FragmentApplyEstimateDeletePreview {
    pub target_itinerary_id: i64,
    pub target_itinerary_title: String,
    pub target_estimate_id: i64,
    pub title: Option<String>,
    pub amount: i64,
    pub currency: String,
    pub note: Option<String>,
    pub sort_order: i64,
    pub updated_at: String,
}

#[derive(Debug, PartialEq, Eq)]
pub struct FragmentApplyExpensePreview {
    pub amount: i64,
    pub currency: String,
    pub title: Option<String>,
    pub note: Option<String>,
}

#[derive(Debug, PartialEq, Eq)]
pub struct FragmentApplyEstimatePreview {
    pub target_itinerary_id: i64,
    pub target_itinerary_title: String,
    pub amount: i64,
    pub currency: String,
    pub title: Option<String>,
    pub note: Option<String>,
    pub sort_order: i64,
}

/// Records that would be orphaned by deleting an itinerary.
#[derive(Clone, Copy, Debug, PartialEq, Eq, Structural)]
pub struct FragmentApplyBlockingChildren {
    pub expenses: usize,
    pub estimates: usize,
    pub reservations: usize,
    pub notes: usize,
}

#[derive(Debug, PartialEq, Eq)]
pub struct FragmentApplyDeletePreview {
    pub target_type: String,
    pub itinerary_id: i64,
    pub title: String,
    pub day_number: i64,
    pub sort_order: i64,
    pub blocking_children: FragmentApplyBlockingChildren,
    pub non_blocking_relations: Option<JsonValue>,
}

#[derive(Debug, PartialEq, Eq)]
pub struct FragmentApplyItineraryOrderChange {
    pub itinerary_id: i64,
    pub title: String,
    pub before_sort_order: i64,
    pub after_sort_order: i64,
}

#[derive(Debug, PartialEq, Eq)]
pub struct FragmentApplyReorderPreview {
    pub day_number: i64,
    pub itinerary_order_changes: Vec<FragmentApplyItineraryOrderChange>,
}

#[derive(Debug, PartialEq, Eq)]
pub struct FragmentApplyItineraryMoveOrderChange {
    pub itinerary_id: i64,
    pub title: String,
    pub before_day_number: i64,
    pub after_day_number: i64,
    pub before_sort_order: i64,
    pub after_sort_order: i64,
}

#[derive(Debug, PartialEq, Eq)]
pub struct FragmentApplyMovePreview {
    pub itinerary_id: i64,
    pub title: String,
    pub from_day_number: i64,
    pub to_day_number: i64,
    pub source_order_changes: Vec<FragmentApplyItineraryMoveOrderChange>,
    pub destination_order_changes: Vec<FragmentApplyItineraryMoveOrderChange>,
}

#[derive(Debug, PartialEq, Eq)]
pub struct FragmentApplyReservationPreview {
    pub reservation_type: String,
    pub provider_name: String,
    pub confirmation_code: Option<String>,
    pub reservation_site_url: Option<String>,
    pub remark: Option<String>,
    pub start_at: Option<String>,
    pub end_at: Option<String>,
}

/// What a fragment would change, as computed on the preview export.
#[derive(Debug, PartialEq, Eq)]
pub struct FragmentApplyPreviewSummary {
    pub intent: String,
    pub action: String,
    pub candidate_title: Option<String>,
    pub itineraries_before: usize,
    pub itineraries_after: usize,
    pub notes_before: Option<usize>,
    pub notes_after: Option<usize>,
    pub expenses_before: Option<usize>,
    pub expenses_after: Option<usize>,
    pub expense_preview: Option<FragmentApplyExpensePreview>,
    pub estimates_before: Option<usize>,
    pub estimates_after: Option<usize>,
    pub estimate_preview: Option<FragmentApplyEstimatePreview>,
    pub estimate_update_preview: Option<FragmentApplyEstimateUpdatePreview>,
    pub estimate_field_changes: Option<Vec<FragmentApplyEstimateFieldChange>>,
    pub estimate_delete_preview: Option<FragmentApplyEstimateDeletePreview>,
    pub reservations_before: Option<usize>,
    pub reservations_after: Option<usize>,
    pub reservation_preview: Option<FragmentApplyReservationPreview>,
    pub itinerary_field_changes: Option<Vec<FragmentApplyItineraryFieldChange>>,
    pub reorder_preview: Option<FragmentApplyReorderPreview>,
    pub move_preview: Option<FragmentApplyMovePreview>,
    pub delete_preview: Option<FragmentApplyDeletePreview>,
}

#[derive(Debug, PartialEq, Eq)]
pub struct FragmentApplyDryRunReport {
    pub schema_version: i32,
    pub file: String,
    pub dry_run: bool,
    pub confirm: bool,
    pub valid: bool,
    pub fragment_valid: bool,
    pub trip_export_valid: bool,
    pub trip_id: i64,
    pub errors: Vec<String>,
    pub warnings: Vec<String>,
    pub required_decisions: Vec<String>,
    pub resolved_target: Option<FragmentApplyResolvedTarget>,
    pub preview: Option<FragmentApplyPreviewSummary>,
    pub inserted_itinerary_id: Option<i64>,
    pub inserted_note_id: Option<i64>,
    pub inserted_expense_id: Option<i64>,
    pub inserted_reservation_id: Option<i64>,
    pub inserted_estimate_id: Option<i64>,
    pub updated_estimate_id: Option<i64>,
    pub updated_itinerary_id: Option<i64>,
    pub deleted_itinerary_id: Option<i64>,
    pub deleted_estimate_id: Option<i64>,
    pub reordered_itineraries: Option<usize>,
    pub moved_itinerary_id: Option<i64>,
    pub moved_itinerary_updated_rows: Option<usize>,
}

/// A preview of `action` with the itinerary count unchanged and nothing else filled in.
pub fn empty_preview_summary(intent: &str, action: &str, itineraries_before: usize) -> (r: FragmentApplyPreviewSummary)
    ensures
        r.intent@ == intent@,
        r.action@ == action@,
        r.candidate_title is None,
        r.itineraries_before == itineraries_before,
        r.itineraries_after == itineraries_before,
        r.notes_before is None && r.notes_after is None,
        r.expenses_before is None && r.expenses_after is None && r.expense_preview is None,
        r.estimates_before is None && r.estimates_after is None && r.estimate_preview is None,
        r.estimate_update_preview is None && r.estimate_field_changes is None && r.estimate_delete_preview is None,
        r.reservations_before is None && r.reservations_after is None && r.reservation_preview is None,
        r.itinerary_field_changes is None && r.reorder_preview is None && r.move_preview is None,
        r.delete_preview is None,
{
    FragmentApplyPreviewSummary {
        intent: owned(intent),
        action: owned(action),
        candidate_title: None,
        itineraries_before,
        itineraries_after: itineraries_before,
        notes_before: None,
        notes_after: None,
        expenses_before: None,
        expenses_after: None,
        expense_preview: None,
        estimates_before: None,
        estimates_after: None,
        estimate_preview: None,
        estimate_update_preview: None,
        estimate_field_changes: None,
        estimate_delete_preview: None,
        reservations_before: None,
        reservations_after: None,
        reservation_preview: None,
        itinerary_field_changes: None,
        reorder_preview: None,
        move_preview: None,
        delete_preview: None,
    }
}

impl FragmentApplyDryRunReport {
    /// An invalid report with no messages, no target, no preview and no write recorded.
    pub fn new(file: &str, trip_id: i64, dry_run: bool, confirm: bool) -> (r: Self)
        ensures
            r.schema_version == FRAGMENT_APPLY_REPORT_SCHEMA_VERSION,
            r.file@ == file@,
            r.trip_id == trip_id,
            r.dry_run == dry_run,
            r.confirm == confirm,
            !r.valid && !r.fragment_valid && !r.trip_export_valid,
            r.errors@.len() == 0 && r.warnings@.len() == 0 && r.required_decisions@.len() == 0,
            r.resolved_target is None && r.preview is None,
            r.inserted_itinerary_id is None && r.inserted_note_id is None && r.inserted_expense_id is None,
            r.inserted_reservation_id is None && r.inserted_estimate_id is None,
            r.updated_estimate_id is None && r.updated_itinerary_id is None,
            r.deleted_itinerary_id is None && r.deleted_estimate_id is None,
            r.reordered_itineraries is None && r.moved_itinerary_id is None,
            r.moved_itinerary_updated_rows is None,
    {
        FragmentApplyDryRunReport {
            schema_version: FRAGMENT_APPLY_REPORT_SCHEMA_VERSION,
            file: owned(file),
            dry_run,
            confirm,
            valid: false,
            fragment_valid: false,
            trip_export_valid: false,
            trip_id,
            errors: Vec::new(),
            warnings: Vec::new(),
            required_decisions: Vec::new(),
            resolved_target: None,
            preview: None,
            inserted_itinerary_id: None,
            inserted_note_id: None,
            inserted_expense_id: None,
            inserted_reservation_id: None,
            inserted_estimate_id: None,
            updated_estimate_id: None,
            updated_itinerary_id: None,
            deleted_itinerary_id: None,
            deleted_estimate_id: None,
            reordered_itineraries: None,
            moved_itinerary_id: None,
            moved_itinerary_updated_rows: None,
        }
    }
}

/// Options of `fragment apply`.
#[derive(Debug, PartialEq, Eq)]
pub struct FragmentApplyOptions {
    pub dry_run: bool,
    pub confirm: bool,
    pub trip_id: i64,
    pub output: Option<String>,
    pub json: bool,
}

/// The fragment's target as resolved against the trip.
#[derive(Debug, PartialEq, Eq)]
pub struct ResolvedApplyTarget {
    pub target_type: String,
    pub trip_id: i64,
    pub trip_name: String,
    pub day_number: Option<i64>,
    pub itinerary_sort_order: Option<i64>,
    pub itinerary_title: Option<String>,
    pub resolution: String,
}

/// A new value for a field; an empty text clears an optional text field.
#[derive(Clone, Copy, Debug, PartialEq, Eq)]
pub struct UpdateFieldPatch<T> {
    pub value: T,
}

#[derive(Debug, PartialEq, Eq)]
pub struct ParsedAddItineraryFields {
    pub title: String,
    pub note: Option<String>,
    pub location: Option<String>,
    pub category: Option<ItineraryCategory>,
    pub start_time: Option<String>,
    pub duration_minutes: Option<i64>,
    pub travel_minutes: Option<i64>,
}

#[derive(Debug, PartialEq, Eq)]
pub struct ParsedAddNoteFields {
    pub title: Option<String>,
    pub body: String,
}

#[derive(Debug, PartialEq, Eq)]
pub struct ParsedAddExpenseFields {
    pub title: Option<String>,
    pub amount: i64,
    pub currency: String,
    pub note: Option<String>,
}

#[derive(Debug, PartialEq, Eq)]
pub struct ParsedAddEstimateFields {
    pub title: Option<String>,
    pub amount: i64,
    pub currency: String,
    pub note: Option<String>,
    pub sort_order: i64,
}

#[derive(Debug, PartialEq, Eq)]
pub struct ParsedUpdateEstimateFields {
    pub estimate_id: i64,
    pub has_amount: bool,
    pub amount_raw: Option<JsonValue>,
    pub has_currency: bool,
    pub currency_text: Option<String>,
    pub title: Option<UpdateFieldPatch<String>>,
    pub note: Option<UpdateFieldPatch<String>>,
    pub sort_order: Option<i64>,
    pub clear_title: bool,
    pub clear_note: bool,
}

#[derive(Debug, PartialEq, Eq)]
pub struct ParsedAddReservationFields {
    pub reservation_type: String,
    pub provider_name: String,
    pub confirmation_code: Option<String>,
    pub reservation_site_url: Option<String>,
    pub remark: Option<String>,
    pub start_at: Option<String>,
    pub end_at: Option<String>,
}

#[derive(Debug, PartialEq, Eq)]
pub struct ParsedUpdateItineraryFields {
    pub title: Option<String>,
    pub note: Option<UpdateFieldPatch<String>>,
    pub location: Option<UpdateFieldPatch<String>>,
    pub category: Option<UpdateFieldPatch<ItineraryCategory>>,
    pub start_time: Option<UpdateFieldPatch<String>>,
    pub duration_minutes: Option<i64>,
    pub travel_minutes: Option<i64>,
}

// ---------------------------------------------------------------------------
// Copies.

/// A copy of an optional text.
pub fn opt_string_copy(o: &Option<String>) -> (r: Option<String>)
    ensures
        opt_view(r) == opt_view(*o),
{
    match o {
        Some(s) => Some(owned(s.as_str())),
        None => None,
    }
}

/// Whether two optional texts are equal.
pub fn opt_string_eq(a: &Option<String>, b: &Option<String>) -> (r: bool)
    ensures
        r == (opt_view(*a) == opt_view(*b)),
{
    match (a, b) {
        (Some(x), Some(y)) => str_eq(x.as_str(), y.as_str()),
        (None, None) => true,
        _ => false,
    }
}

// ---------------------------------------------------------------------------
// Building export records from parsed fields.

/// The export form of an itinerary item (its expenses, estimates and reservations empty).
pub fn itinerary_item_to_export_snapshot(item: &ItineraryItem) -> (r: ExportItineraryV3)
    ensures
        r.title@ == item.title@,
        opt_view(r.note) == opt_view(item.note),
        opt_view(r.start_time) == opt_view(item.start_time),
        r.sort_order == item.sort_order,
        r.duration_minutes == item.duration_minutes,
        r.travel_minutes == item.travel_minutes,
        opt_view(r.location) == opt_view(item.location),
        r.category == item.category,
        r.expenses@.len() == 0 && r.estimates@.len() == 0 && r.reservations@.len() == 0,
{
    ExportItineraryV3 {
        title: owned(item.title.as_str()),
        note: opt_string_copy(&item.note),
        start_time: opt_string_copy(&item.start_time),
        sort_order: item.sort_order,
        duration_minutes: item.duration_minutes,
        travel_minutes: item.travel_minutes,
        location: opt_string_copy(&item.location),
        category: item.category,
        expenses: Vec::new(),
        estimates: Vec::new(),
        reservations: Vec::new(),
    }
}

/// The itinerary an `add` fragment inserts, at the given sort order.
pub fn build_export_itinerary_from_add_fields(fields: &ParsedAddItineraryFields, sort_order: i64) -> (r:
    ExportItineraryV3)
    ensures
        r.title@ == fields.title@,
        opt_view(r.note) == opt_view(fields.note),
        opt_view(r.start_time) == opt_view(fields.start_time),
        r.sort_order == sort_order,
        r.duration_minutes == fields.duration_minutes,
        r.travel_minutes == fields.travel_minutes,
        opt_view(r.location) == opt_view(fields.location),
        r.category == fields.category,
        r.expenses@.len() == 0 && r.estimates@.len() == 0 && r.reservations@.len() == 0,
{
    ExportItineraryV3 {
        title: owned(fields.title.as_str()),
        note: opt_string_copy(&fields.note),
        start_time: opt_string_copy(&fields.start_time),
        sort_order,
        duration_minutes: fields.duration_minutes,
        travel_minutes: fields.travel_minutes,
        location: opt_string_copy(&fields.location),
        category: fields.category,
        expenses: Vec::new(),
        estimates: Vec::new(),
        reservations: Vec::new(),
    }
}

/// The reservation an `add_reservation` fragment inserts.
pub fn build_export_reservation_from_add_fields(fields: &ParsedAddReservationFields) -> (r: ExportReservationV3)
    ensures
        r.reservation_type@ == fields.reservation_type@,
        r.provider_name@ == fields.provider_name@,
        opt_view(r.confirmation_code) == opt_view(fields.confirmation_code),
        opt_view(r.reservation_site_url) == opt_view(fields.reservation_site_url),
        opt_view(r.remark) == opt_view(fields.remark),
        opt_view(r.start_at) == opt_view(fields.start_at),
        opt_view(r.end_at) == opt_view(fields.end_at),
{
    ExportReservationV3 {
        reservation_type: owned(fields.reservation_type.as_str()),
        provider_name: owned(fields.provider_name.as_str()),
        confirmation_code: opt_string_copy(&fields.confirmation_code),
        reservation_site_url: opt_string_copy(&fields.reservation_site_url),
        remark: opt_string_copy(&fields.remark),
        start_at: opt_string_copy(&fields.start_at),
        end_at: opt_string_copy(&fields.end_at),
    }
}

/// The expense an `add_expense` fragment inserts, at the given sort order.
pub fn build_export_expense_from_add_fields(fields: &ParsedAddExpenseFields, sort_order: i64) -> (r:
    ExportExpenseV3)
    ensures
        opt_view(r.title) == opt_view(fields.title),
        r.amount == fields.amount,
        r.currency@ == fields.currency@,
        r.paid_by_name is None && r.paid_by_participant_ref is None && r.expense_date is None,
        r.beneficiaries@.len() == 0,
        opt_view(r.note) == opt_view(fields.note),
        r.sort_order == sort_order,
{
    ExportExpenseV3 {
        title: opt_string_copy(&fields.title),
        amount: fields.amount,
        currency: owned(fields.currency.as_str()),
        paid_by_name: None,
        paid_by_participant_ref: None,
        beneficiaries: Vec::new(),
        expense_date: None,
        note: opt_string_copy(&fields.note),
        sort_order,
    }
}

/// The estimate an `add_estimate` fragment inserts.
pub fn build_export_estimate_from_add_fields(fields: &ParsedAddEstimateFields) -> (r: ExportEstimateV3)
    ensures
        opt_view(r.title) == opt_view(fields.title),
        r.amount == fields.amount,
        r.currency@ == fields.currency@,
        opt_view(r.note) == opt_view(fields.note),
        r.sort_order == fields.sort_order,
{
    ExportEstimateV3 {
        title: opt_string_copy(&fields.title),
        amount: fields.amount,
        currency: owned(fields.currency.as_str()),
        note: opt_string_copy(&fields.note),
        sort_order: fields.sort_order,
    }
}

/// The report's form of a resolved target.
pub fn resolved_apply_target_to_fragment_target(resolved: &ResolvedApplyTarget) -> (r: FragmentApplyResolvedTarget)
    ensures
        r.target_type@ == resolved.target_type@,
        r.trip_id == resolved.trip_id,
        r.trip_name@ == resolved.trip_name@,
        r.day_number == resolved.day_number,
        r.itinerary_sort_order == resolved.itinerary_sort_order,
        opt_view(r.itinerary_title) == opt_view(resolved.itinerary_title),
        r.resolution@ == resolved.resolution@,
{
    FragmentApplyResolvedTarget {
        target_type: owned(resolved.target_type.as_str()),
        trip_id: resolved.trip_id,
        trip_name: owned(resolved.trip_name.as_str()),
        day_number: resolved.day_number,
        itinerary_sort_order: resolved.itinerary_sort_order,
        itinerary_title: opt_string_copy(&resolved.itinerary_title),
        resolution: owned(resolved.resolution.as_str()),
    }
}

// ---------------------------------------------------------------------------
// Sort orders for appended records.

/// The largest of the sort orders, or 0 for none.
pub open spec fn max_or_zero(s: Seq<i64>) -> int
    decreases s.len(),
{
    if s.len() == 0 {
        0
    } else if s.len() == 1 {
        s[0] as int
    } else {
        let m = max_or_zero(s.drop_last());
        if s.last() > m {
            s.last() as int
        } else {
            m
        }
    }
}

pub open spec fn itinerary_sort_orders(items: Seq<ExportItineraryV3>) -> Seq<i64> {
    items.map_values(|it: ExportItineraryV3| it.sort_order)
}

pub open spec fn expense_sort_orders(items: Seq<ExportExpenseV3>) -> Seq<i64> {
    items.map_values(|e: ExportExpenseV3| e.sort_order)
}

pub(crate) proof fn lemma_max_or_zero_bounds(s: Seq<i64>)
    requires
        s.len() > 0,
    ensures
        forall|i: int| 0 <= i < s.len() ==> s[i] <= max_or_zero(s),
        exists|i: int| 0 <= i < s.len() && s[i] == max_or_zero(s),
    decreases s.len(),
{
    if s.len() > 1 {
        lemma_max_or_zero_bounds(s.drop_last());
        let m = max_or_zero(s.drop_last());
        let j = choose|i: int| 0 <= i < s.drop_last().len() && s.drop_last()[i] == m;
        if s.last() > m {
            assert(s[s.len() - 1] == max_or_zero(s));
        } else {
            assert(s[j] == max_or_zero(s));
        }
        assert forall|i: int| 0 <= i < s.len() implies s[i] <= max_or_zero(s) by {
            if i < s.len() - 1 {
                assert(s[i] == s.drop_last()[i]);
            }
        }
    } else {
        assert(s[0] == max_or_zero(s));
    }
}

/// The largest sort order of a list, or 0 when it is empty.
fn max_sort_order(s: &Vec<i64>) -> (r: i64)
    ensures
        r == max_or_zero(s@),
{
    let mut m: i64 = 0;
    let mut i: usize = 0;
    while i < s.len()
        invariant
            i <= s@.len(),
            m == max_or_zero(s@.subrange(0, i as int)),
        decreases s@.len() - i,
    {
        assert(s@.subrange(0, i + 1).drop_last() =~= s@.subrange(0, i as int));
        if i == 0 || s[i] > m {
            m = s[i];
        }
        i = i + 1;
    }
    assert(s@.subrange(0, s@.len() as int) =~= s@);
    m
}

fn itinerary_sort_order_list(items: &Vec<ExportItineraryV3>) -> (r: Vec<i64>)
    ensures
        r@ == itinerary_sort_orders(items@),
{
    let mut out: Vec<i64> = Vec::new();
    let mut i: usize = 0;
    while i < items.len()
        invariant
            i <= items@.len(),
            out@ == itinerary_sort_orders(items@.subrange(0, i as int)),
        decreases items@.len() - i,
    {
        out.push(items[i].sort_order);
        i = i + 1;
        assert(out@ =~= itinerary_sort_orders(items@.subrange(0, i as int)));
    }
    assert(items@.subrange(0, items@.len() as int) =~= items@);
    out
}

fn expense_sort_order_list(items: &Vec<ExportExpenseV3>) -> (r: Vec<i64>)
    ensures
        r@ == expense_sort_orders(items@),
{
    let mut out: Vec<i64> = Vec::new();
    let mut i: usize = 0;
    while i < items.len()
        invariant
            i <= items@.len(),
            out@ == expense_sort_orders(items@.subrange(0, i as int)),
        decreases items@.len() - i,
    {
        out.push(items[i].sort_order);
        i = i + 1;
        assert(out@ =~= expense_sort_orders(items@.subrange(0, i as int)));
    }
    assert(items@.subrange(0, items@.len() as int) =~= items@);
    out
}

/// The sort order for an itinerary appended to a day: one step after the
/// largest sort order of the day (after 0 when the day is empty).
pub fn append_sort_order_for_export_day(day: &ExportDayV3) -> (r: i64)
    requires
        max_or_zero(itinerary_sort_orders(day.itineraries@)) + SORT_ORDER_STEP <= i64::MAX,
    ensures
        r == max_or_zero(itinerary_sort_orders(day.itineraries@)) + SORT_ORDER_STEP,
{
    let orders = itinerary_sort_order_list(&day.itineraries);
    max_sort_order(&orders) + SORT_ORDER_STEP
}

/// The sort order for an expense appended to an itinerary: one after the
/// largest sort order of its expenses (1 when it has none).
pub fn append_sort_order_for_export_itinerary(itinerary: &ExportItineraryV3) -> (r: i64)
    requires
        max_or_zero(expense_sort_orders(itinerary.expenses@)) + 1 <= i64::MAX,
    ensures
        r == max_or_zero(expense_sort_orders(itinerary.expenses@)) + 1,
{
    let orders = expense_sort_order_list(&itinerary.expenses);
    max_sort_order(&orders) + 1
}

/// An appended itinerary's sort order is above every sort order of the day,
/// so it is unique there and sorts last.
pub proof fn lemma_appended_sort_order_is_last(day: ExportDayV3)
    requires
        max_or_zero(itinerary_sort_orders(day.itineraries@)) + SORT_ORDER_STEP <= i64::MAX,
    ensures
        forall|i: int|
            0 <= i < day.itineraries@.len() ==> #[trigger] day.itineraries@[i].sort_order < max_or_zero(
                itinerary_sort_orders(day.itineraries@),
            ) + SORT_ORDER_STEP,
{
    let s = itinerary_sort_orders(day.itineraries@);
    if s.len() > 0 {
        lemma_max_or_zero_bounds(s);
        assert forall|i: int| 0 <= i < day.itineraries@.len() implies #[trigger] day.itineraries@[i].sort_order
            < max_or_zero(s) + SORT_ORDER_STEP by {
            assert(s[i] == day.itineraries@[i].sort_order);
        }
    }
}

// ---------------------------------------------------------------------------
// Lists without repetitions.

/// Appends `item` unless an equal text is already in the list.
pub fn push_unique(items: &mut Vec<String>, item: String)
    ensures
        crate::text::strings_view(old(items)@).contains(item@) ==> final(items)@ == old(items)@,
        !crate::text::strings_view(old(items)@).contains(item@) ==> crate::text::strings_view(final(items)@)
            == crate::text::strings_view(old(items)@).push(item@),
{
    let mut i: usize = 0;
    while i < items.len()
        invariant
            i <= items@.len(),
            forall|j: int| 0 <= j < i ==> items@[j]@ != item@,
        decreases items@.len() - i,
    {
        if str_eq(items[i].as_str(), item.as_str()) {
            assert(crate::text::strings_view(items@)[i as int] == item@);
            return;
        }
        i = i + 1;
    }
    assert(!crate::text::strings_view(items@).contains(item@));
    crate::text::push_string(items, item);
}

/// No text occurs twice in the list.
pub open spec fn no_repeats(s: Seq<Seq<char>>) -> bool {
    forall|i: int, j: int| 0 <= i < j < s.len() ==> s[i] != s[j]
}

/// Pushing with `push_unique` keeps a list without repetitions and makes it hold the item.
pub proof fn lemma_push_unique_keeps_no_repeats(before: Seq<Seq<char>>, item: Seq<char>, after: Seq<Seq<char>>)
    requires
        no_repeats(before),
        before.contains(item) ==> after == before,
        !before.contains(item) ==> after == before.push(item),
    ensures
        no_repeats(after),
        after.contains(item),
{
    if !before.contains(item) {
        assert(after[before.len() as int] == item);
        assert forall|i: int, j: int| 0 <= i < j < after.len() implies after[i] != after[j] by {
            if j == before.len() {
                assert(after[i] == before[i]);
            }
        }
    }
}

// ---------------------------------------------------------------------------
// Completing and counting the preview export.

/// Marks the preview export as written by this tool's current schema and
/// fills the optional lists that are absent with empty lists.
pub fn finalize_apply_preview_export(export: &mut TripExportV3)
    ensures
        final(export).schema_version == Some(TRIP_EXPORT_SCHEMA_VERSION),
        old(export).generator is None ==> opt_view(final(export).generator) == Some(TRIP_EXPORT_GENERATOR@),
        old(export).generator is Some ==> opt_view(final(export).generator) == opt_view(old(export).generator),
        final(export).generator_version == old(export).generator_version,
        final(export).exported_at == old(export).exported_at,
        final(export).trip == old(export).trip,
        final(export).days == old(export).days,
        final(export).checklist_items is Some && final(export).notes is Some && final(export).participants is Some,
        crate::models::opt_vec_view(final(export).checklist_items) == crate::models::opt_vec_view(
            old(export).checklist_items,
        ),
        crate::models::opt_vec_view(final(export).notes) == crate::models::opt_vec_view(old(export).notes),
        crate::models::opt_vec_view(final(export).participants) == crate::models::opt_vec_view(
            old(export).participants,
        ),
{
    export.schema_version = Some(TRIP_EXPORT_SCHEMA_VERSION);
    if export.generator.is_none() {
        export.generator = Some(owned(TRIP_EXPORT_GENERATOR));
    }
    if export.checklist_items.is_none() {
        export.checklist_items = Some(Vec::new());
    }
    if export.notes.is_none() {
        export.notes = Some(Vec::new());
    }
    if export.participants.is_none() {
        export.participants = Some(Vec::new());
    }
    proof {
        assert(crate::models::opt_vec_view(export.checklist_items) =~= crate::models::opt_vec_view(
            old(export).checklist_items,
        ));
        assert(crate::models::opt_vec_view(export.notes) =~= crate::models::opt_vec_view(old(export).notes));
        assert(crate::models::opt_vec_view(export.participants) =~= crate::models::opt_vec_view(
            old(export).participants,
        ));
    }
}

/// What each itinerary contributes to a count.
#[derive(Clone, Copy, Debug, PartialEq, Eq)]
pub enum ItineraryPart {
    Itself,
    Expenses,
    Estimates,
    Reservations,
}

pub open spec fn part_count(it: ExportItineraryV3, part: ItineraryPart) -> nat {
    match part {
        ItineraryPart::Itself => 1,
        ItineraryPart::Expenses => it.expenses@.len(),
        ItineraryPart::Estimates => it.estimates@.len(),
        ItineraryPart::Reservations => it.reservations@.len(),
    }
}

pub open spec fn items_total(items: Seq<ExportItineraryV3>, part: ItineraryPart) -> nat
    decreases items.len(),
{
    if items.len() == 0 {
        0
    } else {
        items_total(items.drop_last(), part) + part_count(items.last(), part)
    }
}

/// The number of itineraries (or of their expenses, estimates, reservations) over all days.
pub open spec fn days_total(days: Seq<ExportDayV3>, part: ItineraryPart) -> nat
    decreases days.len(),
{
    if days.len() == 0 {
        0
    } else {
        days_total(days.drop_last(), part) + items_total(days.last().itineraries@, part)
    }
}

proof fn lemma_items_total_prefix(items: Seq<ExportItineraryV3>, part: ItineraryPart, i: int)
    requires
        0 <= i <= items.len(),
    ensures
        items_total(items.subrange(0, i), part) <= items_total(items, part),
    decreases items.len() - i,
{
    if i < items.len() {
        lemma_items_total_prefix(items, part, i + 1);
        assert(items.subrange(0, i + 1).drop_last() =~= items.subrange(0, i));
    } else {
        assert(items.subrange(0, i) =~= items);
    }
}

proof fn lemma_days_total_prefix(days: Seq<ExportDayV3>, part: ItineraryPart, i: int)
    requires
        0 <= i <= days.len(),
    ensures
        days_total(days.subrange(0, i), part) <= days_total(days, part),
    decreases days.len() - i,
{
    if i < days.len() {
        lemma_days_total_prefix(days, part, i + 1);
        assert(days.subrange(0, i + 1).drop_last() =~= days.subrange(0, i));
    } else {
        assert(days.subrange(0, i) =~= days);
    }
}

fn count_in_items(items: &Vec<ExportItineraryV3>, part: ItineraryPart) -> (r: usize)
    requires
        items_total(items@, part) <= usize::MAX,
    ensures
        r == items_total(items@, part),
{
    let mut total: usize = 0;
    let mut i: usize = 0;
    while i < items.len()
        invariant
            i <= items@.len(),
            items_total(items@, part) <= usize::MAX,
            total == items_total(items@.subrange(0, i as int), part),
        decreases items@.len() - i,
    {
        assert(items@.subrange(0, i + 1).drop_last() =~= items@.subrange(0, i as int));
        proof {
            lemma_items_total_prefix(items@, part, i + 1);
        }
        let n = match part {
            ItineraryPart::Itself => 1,
            ItineraryPart::Expenses => items[i].expenses.len(),
            ItineraryPart::Estimates => items[i].estimates.len(),
            ItineraryPart::Reservations => items[i].reservations.len(),
        };
        total = total + n;
        i = i + 1;
    }
    assert(items@.subrange(0, items@.len() as int) =~= items@);
    total
}

fn count_in_days(days: &Vec<ExportDayV3>, part: ItineraryPart) -> (r: usize)
    requires
        days_total(days@, part) <= usize::MAX,
    ensures
        r == days_total(days@, part),
{
    let mut total: usize = 0;
    let mut i: usize = 0;
    while i < days.len()
        invariant
            i <= days@.len(),
            days_total(days@, part) <= usize::MAX,
            total == days_total(days@.subrange(0, i as int), part),
        decreases days@.len() - i,
    {
        assert(days@.subrange(0, i + 1).drop_last() =~= days@.subrange(0, i as int));
        proof {
            lemma_days_total_prefix(days@, part, i + 1);
        }
        let n = count_in_items(&days[i].itineraries, part);
        total = total + n;
        i = i + 1;
    }
    assert(days@.subrange(0, days@.len() as int) =~= days@);
    total
}

/// The number of itineraries over all days.
pub fn count_itineraries(export: &TripExportV3) -> (r: usize)
    requires
        days_total(export.days@, ItineraryPart::Itself) <= usize::MAX,
    ensures
        r == days_total(export.days@, ItineraryPart::Itself),
{
    count_in_days(&export.days, ItineraryPart::Itself)
}

/// The number of notes (none when the list is absent).
pub fn count_notes(export: &TripExportV3) -> (r: usize)
    ensures
        r == crate::models::opt_vec_view(export.notes).len(),
{
    export.notes().len()
}

/// The number of expenses over all itineraries.
pub fn count_expenses(export: &TripExportV3) -> (r: usize)
    requires
        days_total(export.days@, ItineraryPart::Expenses) <= usize::MAX,
    ensures
        r == days_total(export.days@, ItineraryPart::Expenses),
{
    count_in_days(&export.days, ItineraryPart::Expenses)
}

/// The number of reservations over all itineraries.
pub fn count_reservations(export: &TripExportV3) -> (r: usize)
    requires
        days_total(export.days@, ItineraryPart::Reservations) <= usize::MAX,
    ensures
        r == days_total(export.days@, ItineraryPart::Reservations),
{
    count_in_days(&export.days, ItineraryPart::Reservations)
}

/// The number of estimates over all itineraries.
pub fn count_estimates(export: &TripExportV3) -> (r: usize)
    requires
        days_total(export.days@, ItineraryPart::Estimates) <= usize::MAX,
    ensures
        r == days_total(export.days@, ItineraryPart::Estimates),
{
    count_in_days(&export.days, ItineraryPart::Estimates)
}

/// All records that block deleting an itinerary.
pub fn blocking_children_total(children: &FragmentApplyBlockingChildren) -> (r: usize)
    requires
        children.expenses + children.estimates + children.reservations + children.notes <= usize::MAX,
    ensures
        r == children.expenses + children.estimates + children.reservations + children.notes,
{
    children.expenses + children.estimates + children.reservations + children.notes
}

// ---------------------------------------------------------------------------
// Finding, adding and removing records in the preview export.

/// The index of the first day, from position `i` on, with the given number.
pub open spec fn day_index_from(days: Seq<ExportDayV3>, day_number: i64, i: int) -> Option<int>
    decreases days.len() - i,
{
    if i < 0 || i >= days.len() {
        None
    } else if days[i].day_number == day_number {
        Some(i)
    } else {
        day_index_from(days, day_number, i + 1)
    }
}

/// The index of the first day with the given number.
pub open spec fn first_day_index(days: Seq<ExportDayV3>, day_number: i64) -> Option<int> {
    day_index_from(days, day_number, 0)
}

/// The index of the first itinerary, from position `i` on, with the given sort order.
pub open spec fn item_index_from(items: Seq<ExportItineraryV3>, sort_order: i64, i: int) -> Option<int>
    decreases items.len() - i,
{
    if i < 0 || i >= items.len() {
        None
    } else if items[i].sort_order == sort_order {
        Some(i)
    } else {
        item_index_from(items, sort_order, i + 1)
    }
}

/// The index of the first itinerary with the given sort order.
pub open spec fn first_item_index(items: Seq<ExportItineraryV3>, sort_order: i64) -> Option<int> {
    item_index_from(items, sort_order, 0)
}

pub proof fn lemma_day_index_from_bounds(days: Seq<ExportDayV3>, day_number: i64, i: int)
    ensures
        match day_index_from(days, day_number, i) {
            Some(k) => i <= k < days.len() && days[k].day_number == day_number && forall|j: int|
                i <= j < k ==> days[j].day_number != day_number,
            None => forall|j: int| 0 <= i <= j < days.len() ==> days[j].day_number != day_number,
        },
    decreases days.len() - i,
{
    if 0 <= i < days.len() && days[i].day_number != day_number {
        lemma_day_index_from_bounds(days, day_number, i + 1);
    }
}

pub proof fn lemma_item_index_from_bounds(items: Seq<ExportItineraryV3>, sort_order: i64, i: int)
    ensures
        match item_index_from(items, sort_order, i) {
            Some(k) => i <= k < items.len() && items[k].sort_order == sort_order && forall|j: int|
                i <= j < k ==> items[j].sort_order != sort_order,
            None => forall|j: int| 0 <= i <= j < items.len() ==> items[j].sort_order != sort_order,
        },
    decreases items.len() - i,
{
    if 0 <= i < items.len() && items[i].sort_order != sort_order {
        lemma_item_index_from_bounds(items, sort_order, i + 1);
    }
}

fn find_day_index(days: &Vec<ExportDayV3>, day_number: i64) -> (r: Option<usize>)
    ensures
        match r {
            Some(k) => first_day_index(days@, day_number) == Some(k as int) && k < days@.len()
                && days@[k as int].day_number == day_number,
            None => first_day_index(days@, day_number) is None,
        },
{
    let mut i: usize = 0;
    while i < days.len()
        invariant
            i <= days@.len(),
            first_day_index(days@, day_number) == day_index_from(days@, day_number, i as int),
        decreases days@.len() - i,
    {
        if days[i].day_number == day_number {
            return Some(i);
        }
        i = i + 1;
    }
    None
}

fn find_item_index(items: &Vec<ExportItineraryV3>, sort_order: i64) -> (r: Option<usize>)
    ensures
        match r {
            Some(k) => first_item_index(items@, sort_order) == Some(k as int) && k < items@.len()
                && items@[k as int].sort_order == sort_order,
            None => first_item_index(items@, sort_order) is None,
        },
{
    let mut i: usize = 0;
    while i < items.len()
        invariant
            i <= items@.len(),
            first_item_index(items@, sort_order) == item_index_from(items@, sort_order, i as int),
        decreases items@.len() - i,
    {
        if items[i].sort_order == sort_order {
            return Some(i);
        }
        i = i + 1;
    }
    None
}

/// The itinerary with the given sort order in the first day with the given number.
pub fn lookup_itinerary_in_export(export: &TripExportV3, day_number: i64, sort_order: i64) -> (r: Option<
    &ExportItineraryV3,
>)
    ensures
        match first_day_index(export.days@, day_number) {
            Some(k) => match first_item_index(export.days@[k].itineraries@, sort_order) {
                Some(j) => r == Some(&export.days@[k].itineraries@[j]),
                None => r is None,
            },
            None => r is None,
        },
{
    match find_day_index(&export.days, day_number) {
        Some(k) => match find_item_index(&export.days[k].itineraries, sort_order) {
            Some(j) => Some(&export.days[k].itineraries[j]),
            None => None,
        },
        None => None,
    }
}

/// The first itinerary of the day with the given sort order, to edit in place.
pub fn find_itinerary_mut_in_export_day(day: &mut ExportDayV3, sort_order: i64) -> (r: Option<&mut ExportItineraryV3>)
    ensures
        match first_item_index(old(day).itineraries@, sort_order) {
            None => r is None && *final(day) == *old(day),
            Some(j) => match r {
                Some(it) => {
                    &&& *it == old(day).itineraries@[j]
                    &&& final(day).itineraries@ == old(day).itineraries@.update(j, *final(it))
                    &&& final(day).day_number == old(day).day_number
                    &&& final(day).summary == old(day).summary
                },
                None => false,
            },
        },
{
    match find_item_index(&day.itineraries, sort_order) {
        Some(j) => Some(&mut day.itineraries[j]),
        None => None,
    }
}

/// The position of the first day with the given number, appending an empty
/// day with that number when there is none.
pub fn find_or_create_day(export: &mut TripExportV3, day_number: i64) -> (idx: usize)
    ensures
        idx < final(export).days@.len(),
        final(export).days@[idx as int].day_number == day_number,
        match first_day_index(old(export).days@, day_number) {
            Some(k) => idx == k && final(export).days@ == old(export).days@,
            None => {
                &&& idx == old(export).days@.len()
                &&& final(export).days@.len() == old(export).days@.len() + 1
                &&& final(export).days@.subrange(0, idx as int) == old(export).days@
                &&& final(export).days@[idx as int].summary is None
                &&& final(export).days@[idx as int].itineraries@.len() == 0
            },
        },
        same_except_days(*final(export), *old(export)),
{
    match find_day_index(&export.days, day_number) {
        Some(k) => k,
        None => {
            export.days.push(ExportDayV3 { day_number, summary: None, itineraries: Vec::new() });
            assert(export.days@.subrange(0, old(export).days@.len() as int) =~= old(export).days@);
            export.days.len() - 1
        },
    }
}

/// The itineraries without those with the given sort order, in order.
pub open spec fn without_sort_order(items: Seq<ExportItineraryV3>, sort_order: i64) -> Seq<ExportItineraryV3>
    decreases items.len(),
{
    if items.len() == 0 {
        Seq::empty()
    } else {
        (if items[0].sort_order != sort_order {
            seq![items[0]]
        } else {
            Seq::empty()
        }) + without_sort_order(items.drop_first(), sort_order)
    }
}

fn drop_sort_order(items: Vec<ExportItineraryV3>, sort_order: i64) -> (r: Vec<ExportItineraryV3>)
    ensures
        r@ == without_sort_order(items@, sort_order),
{
    let mut rest = items;
    let mut kept: Vec<ExportItineraryV3> = Vec::new();
    assert(kept@ + without_sort_order(rest@, sort_order) =~= without_sort_order(items@, sort_order));
    while rest.len() > 0
        invariant
            kept@ + without_sort_order(rest@, sort_order) == without_sort_order(items@, sort_order),
        decreases rest@.len(),
    {
        let ghost before = rest@;
        let it = rest.remove(0);
        assert(rest@ =~= before.drop_first());
        let keep = it.sort_order != sort_order;
        let ghost kept_before = kept@;
        if keep {
            kept.push(it);
        }
        assert(kept@ + without_sort_order(rest@, sort_order) =~= kept_before + without_sort_order(before, sort_order));
    }
    assert(without_sort_order(rest@, sort_order) =~= Seq::empty());
    assert(kept@ =~= without_sort_order(items@, sort_order));
    kept
}

pub open spec fn day_not_found_message(day_number: i64) -> Seq<char> {
    "preview 内に Day "@ + crate::text::int_decimal(day_number as int) + " が見つかりません"@
}

pub open spec fn itinerary_not_found_message(day_number: i64, sort_order: i64) -> Seq<char> {
    "preview 内に itinerary (day "@ + crate::text::int_decimal(day_number as int) + ", sort_order "@
        + crate::text::int_decimal(sort_order as int) + ") が見つかりません"@
}

/// Removes, from the first day with the given number, the itineraries with
/// the given sort order. It succeeds when exactly one was removed; when none
/// or several were, the day is still rewritten and an error is returned.
pub fn remove_itinerary_from_export(export: &mut TripExportV3, day_number: i64, sort_order: i64) -> (r: Result<
    (),
    String,
>)
    ensures
        same_except_days(*final(export), *old(export)),
        match first_day_index(old(export).days@, day_number) {
            None => {
                &&& crate::text::result_view(r) == Err::<(), Seq<char>>(day_not_found_message(day_number))
                &&& final(export).days@ == old(export).days@
            },
            Some(k) => {
                let kept = without_sort_order(old(export).days@[k].itineraries@, sort_order);
                &&& final(export).days@.len() == old(export).days@.len()
                &&& forall|j: int| 0 <= j < old(export).days@.len() && j != k ==> final(export).days@[j] == old(export).days@[j]
                &&& final(export).days@[k].day_number == day_number
                &&& final(export).days@[k].summary == old(export).days@[k].summary
                &&& final(export).days@[k].itineraries@ == kept
                &&& (kept.len() + 1 == old(export).days@[k].itineraries@.len() <==> r is Ok)
                &&& r is Err ==> crate::text::result_view(r) == Err::<(), Seq<char>>(
                    itinerary_not_found_message(day_number, sort_order),
                )
            },
        },
{
    let k = match find_day_index(&export.days, day_number) {
        Some(k) => k,
        None => {
            let mut msg = owned("preview 内に Day ");
            crate::text::push_i64_decimal(&mut msg, day_number);
            push_str(&mut msg, " が見つかりません");
            return Err(msg);
        },
    };
    let ghost old_days = export.days@;
    let day = export.days.remove(k);
    let before = day.itineraries.len();
    let ExportDayV3 { day_number: dn, summary, itineraries } = day;
    let kept = drop_sort_order(itineraries, sort_order);
    let removed_one = before > 0 && kept.len() == before - 1;
    export.days.insert(k, ExportDayV3 { day_number: dn, summary, itineraries: kept });
    assert forall|j: int| 0 <= j < old_days.len() && j != k implies export.days@[j] == old_days[j] by {
        if j < k {
        } else {
        }
    }
    if removed_one {
        Ok(())
    } else {
        let mut msg = owned("preview 内に itinerary (day ");
        crate::text::push_i64_decimal(&mut msg, day_number);
        push_str(&mut msg, ", sort_order ");
        crate::text::push_i64_decimal(&mut msg, sort_order);
        push_str(&mut msg, ") が見つかりません");
        Err(msg)
    }
}

/// A note attached to the itinerary at the given day and sort order.
pub open spec fn is_itinerary_note_of(note: ExportNote, day_number: i64, sort_order: i64) -> bool {
    match note {
        ExportNote::Itinerary { itinerary_key, .. } => itinerary_key.day_number == day_number
            && itinerary_key.sort_order == sort_order,
        _ => false,
    }
}

pub fn matches_itinerary_note(note: &ExportNote, day_number: i64, sort_order: i64) -> (r: bool)
    ensures
        r == is_itinerary_note_of(*note, day_number, sort_order),
{
    match note {
        ExportNote::Itinerary { itinerary_key, .. } => itinerary_key.day_number == day_number
            && itinerary_key.sort_order == sort_order,
        _ => false,
    }
}

/// How many of the notes belong to the itinerary.
pub open spec fn itinerary_note_count(notes: Seq<ExportNote>, day_number: i64, sort_order: i64) -> nat
    decreases notes.len(),
{
    if notes.len() == 0 {
        0
    } else {
        (if is_itinerary_note_of(notes[0], day_number, sort_order) {
            1nat
        } else {
            0nat
        }) + itinerary_note_count(notes.drop_first(), day_number, sort_order)
    }
}

/// The notes that do not belong to the itinerary, in order.
pub open spec fn notes_without_itinerary(notes: Seq<ExportNote>, day_number: i64, sort_order: i64) -> Seq<
    ExportNote,
>
    decreases notes.len(),
{
    if notes.len() == 0 {
        Seq::empty()
    } else {
        (if is_itinerary_note_of(notes[0], day_number, sort_order) {
            Seq::empty()
        } else {
            seq![notes[0]]
        }) + notes_without_itinerary(notes.drop_first(), day_number, sort_order)
    }
}

/// The number of notes of the export that belong to the itinerary.
pub fn count_itinerary_notes_in_export(export: &TripExportV3, day_number: i64, sort_order: i64) -> (r: usize)
    ensures
        r == itinerary_note_count(crate::models::opt_vec_view(export.notes), day_number, sort_order),
{
    let notes = export.notes();
    let mut count: usize = 0;
    let mut i: usize = notes.len();
    assert(notes@.subrange(i as int, notes@.len() as int) =~= Seq::empty());
    while i > 0
        invariant
            i <= notes@.len(),
            count == itinerary_note_count(notes@.subrange(i as int, notes@.len() as int), day_number, sort_order),
            count <= notes@.len() - i,
        decreases i,
    {
        i = i - 1;
        assert(notes@.subrange(i as int, notes@.len() as int).drop_first() =~= notes@.subrange(
            i + 1,
            notes@.len() as int,
        ));
        assert(notes@.subrange(i as int, notes@.len() as int)[0] == notes@[i as int]);
        if matches_itinerary_note(&notes[i], day_number, sort_order) {
            count = count + 1;
        }
    }
    assert(notes@.subrange(0, notes@.len() as int) =~= notes@);
    count
}

/// Removes the notes that belong to the itinerary; other notes keep their order.
pub fn remove_itinerary_notes_from_export(export: &mut TripExportV3, day_number: i64, sort_order: i64)
    ensures
        final(export).days == old(export).days,
        same_except_days_and_notes(*final(export), *old(export)),
        final(export).notes is Some <==> old(export).notes is Some,
        crate::models::opt_vec_view(final(export).notes) == notes_without_itinerary(
            crate::models::opt_vec_view(old(export).notes),
            day_number,
            sort_order,
        ),
{
    match export.notes.take() {
        None => {
            assert(notes_without_itinerary(Seq::<ExportNote>::empty(), day_number, sort_order) =~= Seq::empty());
        },
        Some(notes) => {
            let ghost all = notes@;
            let mut rest = notes;
            let mut kept: Vec<ExportNote> = Vec::new();
            assert(kept@ + notes_without_itinerary(rest@, day_number, sort_order) =~= notes_without_itinerary(
                all,
                day_number,
                sort_order,
            ));
            while rest.len() > 0
                invariant
                    kept@ + notes_without_itinerary(rest@, day_number, sort_order) == notes_without_itinerary(
                        all,
                        day_number,
                        sort_order,
                    ),
                decreases rest@.len(),
            {
                let ghost before = rest@;
                let note = rest.remove(0);
                assert(rest@ =~= before.drop_first());
                let ghost kept_before = kept@;
                if !matches_itinerary_note(&note, day_number, sort_order) {
                    kept.push(note);
                }
                assert(kept@ + notes_without_itinerary(rest@, day_number, sort_order) =~= kept_before
                    + notes_without_itinerary(before, day_number, sort_order));
            }
            assert(notes_without_itinerary(rest@, day_number, sort_order) =~= Seq::empty());
            assert(kept@ =~= notes_without_itinerary(all, day_number, sort_order));
            export.notes = Some(kept);
        },
    }
}

/// Removing an itinerary's notes removes exactly the notes that counted as its own.
pub proof fn lemma_removed_notes_are_counted(notes: Seq<ExportNote>, day_number: i64, sort_order: i64)
    ensures
        notes_without_itinerary(notes, day_number, sort_order).len() + itinerary_note_count(
            notes,
            day_number,
            sort_order,
        ) == notes.len(),
        itinerary_note_count(notes_without_itinerary(notes, day_number, sort_order), day_number, sort_order) == 0,
    decreases notes.len(),
{
    if notes.len() > 0 {
        lemma_removed_notes_are_counted(notes.drop_first(), day_number, sort_order);
        let rest = notes_without_itinerary(notes.drop_first(), day_number, sort_order);
        if !is_itinerary_note_of(notes[0], day_number, sort_order) {
            let s = seq![notes[0]] + rest;
            assert(s.drop_first() =~= rest);
        } else {
            assert(Seq::<ExportNote>::empty() + rest =~= rest);
        }
    }
}

// ---------------------------------------------------------------------------
// Field displays and change lists.

/// An optional text as shown in a change list (`-` for none).
pub open spec fn diff_text(v: Option<Seq<char>>) -> Seq<char> {
    match v {
        Some(t) => t,
        None => "-"@,
    }
}

pub open spec fn diff_i64(v: Option<i64>) -> Seq<char> {
    match v {
        Some(n) => crate::text::int_decimal(n as int),
        None => "-"@,
    }
}

pub open spec fn diff_category(v: Option<ItineraryCategory>) -> Seq<char> {
    match v {
        Some(c) => category_key(c),
        None => "-"@,
    }
}

pub fn fmt_diff_option_str(value: &Option<String>) -> (r: String)
    ensures
        r@ == diff_text(opt_view(*value)),
{
    match value {
        Some(v) => owned(v.as_str()),
        None => owned("-"),
    }
}

pub fn fmt_diff_option_i64(value: Option<i64>) -> (r: String)
    ensures
        r@ == diff_i64(value),
{
    match value {
        Some(v) => crate::text::i64_to_string(v),
        None => owned("-"),
    }
}

pub fn fmt_diff_option_category(value: Option<ItineraryCategory>) -> (r: String)
    ensures
        r@ == diff_category(value),
{
    match value {
        Some(c) => owned(c.as_str()),
        None => owned("-"),
    }
}

/// The value of an itinerary field as shown in a change list; an unknown
/// field name is shown as itself.
pub open spec fn itinerary_field_display(it: ExportItineraryV3, field: Seq<char>) -> Seq<char> {
    if field == "title"@ {
        it.title@
    } else if field == "note"@ {
        diff_text(opt_view(it.note))
    } else if field == "location"@ {
        diff_text(opt_view(it.location))
    } else if field == "category"@ {
        diff_category(it.category)
    } else if field == "start_time"@ {
        diff_text(opt_view(it.start_time))
    } else if field == "duration_minutes"@ {
        diff_i64(it.duration_minutes)
    } else if field == "travel_minutes"@ {
        diff_i64(it.travel_minutes)
    } else {
        field
    }
}

pub fn export_itinerary_field_display(current: &ExportItineraryV3, field: &str) -> (r: String)
    ensures
        r@ == itinerary_field_display(*current, field@),
{
    if str_eq(field, "title") {
        owned(current.title.as_str())
    } else if str_eq(field, "note") {
        fmt_diff_option_str(&current.note)
    } else if str_eq(field, "location") {
        fmt_diff_option_str(&current.location)
    } else if str_eq(field, "category") {
        fmt_diff_option_category(current.category)
    } else if str_eq(field, "start_time") {
        fmt_diff_option_str(&current.start_time)
    } else if str_eq(field, "duration_minutes") {
        fmt_diff_option_i64(current.duration_minutes)
    } else if str_eq(field, "travel_minutes") {
        fmt_diff_option_i64(current.travel_minutes)
    } else {
        owned(field)
    }
}

/// A change list entry: field, before, after.
pub type ChangeView = (Seq<char>, Seq<char>, Seq<char>);

pub open spec fn itinerary_change_view(c: FragmentApplyItineraryFieldChange) -> ChangeView {
    (c.field@, c.before@, c.after@)
}

pub open spec fn itinerary_changes_view(v: Seq<FragmentApplyItineraryFieldChange>) -> Seq<ChangeView> {
    v.map_values(|c: FragmentApplyItineraryFieldChange| itinerary_change_view(c))
}

/// An entry when the value changes, none when it stays.
pub open spec fn change_if_different(field: Seq<char>, before: Seq<char>, after: Seq<char>) -> Seq<ChangeView> {
    if before == after {
        Seq::empty()
    } else {
        seq![(field, before, after)]
    }
}

/// The text an optional text field shows after a patch (empty clears it).
pub open spec fn patched_text_display(p: UpdateFieldPatch<String>) -> Seq<char> {
    if p.value@.len() == 0 {
        "-"@
    } else {
        p.value@
    }
}

/// The entry for `title`, when the update sets it to another value.
#[verifier::opaque]
pub open spec fn title_block(current: ExportItineraryV3, fields: ParsedUpdateItineraryFields) -> Seq<ChangeView> {
    match fields.title {
        Some(t) => change_if_different("title"@, current.title@, t@),
        None => Seq::empty(),
    }
}

#[verifier::opaque]
pub open spec fn note_block(current: ExportItineraryV3, fields: ParsedUpdateItineraryFields) -> Seq<ChangeView> {
    match fields.note {
        Some(p) => change_if_different("note"@, diff_text(opt_view(current.note)), patched_text_display(p)),
        None => Seq::empty(),
    }
}

#[verifier::opaque]
pub open spec fn location_block(current: ExportItineraryV3, fields: ParsedUpdateItineraryFields) -> Seq<ChangeView> {
    match fields.location {
        Some(p) => change_if_different("location"@, diff_text(opt_view(current.location)), patched_text_display(p)),
        None => Seq::empty(),
    }
}

#[verifier::opaque]
pub open spec fn category_block(current: ExportItineraryV3, fields: ParsedUpdateItineraryFields) -> Seq<ChangeView> {
    match fields.category {
        Some(p) => change_if_different("category"@, diff_category(current.category), diff_category(Some(p.value))),
        None => Seq::empty(),
    }
}

#[verifier::opaque]
pub open spec fn start_time_block(current: ExportItineraryV3, fields: ParsedUpdateItineraryFields) -> Seq<
    ChangeView,
> {
    match fields.start_time {
        Some(p) => change_if_different(
            "start_time"@,
            diff_text(opt_view(current.start_time)),
            patched_text_display(p),
        ),
        None => Seq::empty(),
    }
}

#[verifier::opaque]
pub open spec fn duration_block(current: ExportItineraryV3, fields: ParsedUpdateItineraryFields) -> Seq<ChangeView> {
    match fields.duration_minutes {
        Some(d) => change_if_different(
            "duration_minutes"@,
            diff_i64(current.duration_minutes),
            crate::text::int_decimal(d as int),
        ),
        None => Seq::empty(),
    }
}

#[verifier::opaque]
pub open spec fn travel_block(current: ExportItineraryV3, fields: ParsedUpdateItineraryFields) -> Seq<ChangeView> {
    match fields.travel_minutes {
        Some(d) => change_if_different(
            "travel_minutes"@,
            diff_i64(current.travel_minutes),
            crate::text::int_decimal(d as int),
        ),
        None => Seq::empty(),
    }
}

/// The changes an `update_itinerary` makes to the itinerary, in field order,
/// leaving out the fields whose shown value stays the same.
pub open spec fn itinerary_changes(current: ExportItineraryV3, fields: ParsedUpdateItineraryFields) -> Seq<ChangeView> {
    title_block(current, fields) + note_block(current, fields) + location_block(current, fields) + category_block(
        current,
        fields,
    ) + start_time_block(current, fields) + duration_block(current, fields) + travel_block(current, fields)
}

/// Appends a change entry unless the value stays the same.
pub fn push_itinerary_field_change(
    changes: &mut Vec<FragmentApplyItineraryFieldChange>,
    field: &str,
    before: &str,
    after: &str,
)
    ensures
        itinerary_changes_view(final(changes)@) == itinerary_changes_view(old(changes)@) + change_if_different(
            field@,
            before@,
            after@,
        ),
{
    let ghost old_view = itinerary_changes_view(changes@);
    if str_eq(before, after) {
        assert(itinerary_changes_view(changes@) =~= old_view + change_if_different(field@, before@, after@));
        return;
    }
    changes.push(
        FragmentApplyItineraryFieldChange { field: owned(field), before: owned(before), after: owned(after) },
    );
    assert(itinerary_changes_view(changes@) =~= old_view + change_if_different(field@, before@, after@));
}

fn patched_text(p: &UpdateFieldPatch<String>) -> (r: String)
    ensures
        r@ == patched_text_display(*p),
{
    if p.value.as_str().unicode_len() == 0 {
        owned("-")
    } else {
        owned(p.value.as_str())
    }
}

pub open spec fn no_itinerary_update_message() -> Seq<char> {
    "有効な itinerary 更新がありません — 現行値と同一のため no-op です"@
}

/// The change list of an `update_itinerary`; an error when nothing would change.
pub fn build_update_itinerary_field_changes(
    current: &ExportItineraryV3,
    fields: &ParsedUpdateItineraryFields,
) -> (r: Result<Vec<FragmentApplyItineraryFieldChange>, String>)
    ensures
        match r {
            Ok(v) => itinerary_changes_view(v@) == itinerary_changes(*current, *fields) && v@.len() > 0,
            Err(e) => e@ == no_itinerary_update_message() && itinerary_changes(*current, *fields).len() == 0,
        },
{
    let mut changes: Vec<FragmentApplyItineraryFieldChange> = Vec::new();
    let ghost v0 = itinerary_changes_view(changes@);
    assert(v0 =~= Seq::empty());
    proof {
        reveal(title_block);
        reveal(note_block);
        reveal(location_block);
        reveal(category_block);
        reveal(start_time_block);
        reveal(duration_block);
        reveal(travel_block);
    }
    match &fields.title {
        Some(title) => push_itinerary_field_change(&mut changes, "title", current.title.as_str(), title.as_str()),
        None => {},
    }
    let ghost v1 = itinerary_changes_view(changes@);
    match &fields.note {
        Some(note) => {
            let before = fmt_diff_option_str(&current.note);
            let after = patched_text(note);
            push_itinerary_field_change(&mut changes, "note", before.as_str(), after.as_str());
        },
        None => {},
    }
    let ghost v2 = itinerary_changes_view(changes@);
    match &fields.location {
        Some(location) => {
            let before = fmt_diff_option_str(&current.location);
            let after = patched_text(location);
            push_itinerary_field_change(&mut changes, "location", before.as_str(), after.as_str());
        },
        None => {},
    }
    let ghost v3 = itinerary_changes_view(changes@);
    match &fields.category {
        Some(category) => {
            let before = fmt_diff_option_category(current.category);
            let after = fmt_diff_option_category(Some(category.value));
            push_itinerary_field_change(&mut changes, "category", before.as_str(), after.as_str());
        },
        None => {},
    }
    let ghost v4 = itinerary_changes_view(changes@);
    match &fields.start_time {
        Some(start_time) => {
            let before = fmt_diff_option_str(&current.start_time);
            let after = patched_text(start_time);
            push_itinerary_field_change(&mut changes, "start_time", before.as_str(), after.as_str());
        },
        None => {},
    }
    let ghost v5 = itinerary_changes_view(changes@);
    match fields.duration_minutes {
        Some(d) => {
            let before = fmt_diff_option_i64(current.duration_minutes);
            let after = crate::text::i64_to_string(d);
            push_itinerary_field_change(&mut changes, "duration_minutes", before.as_str(), after.as_str());
        },
        None => {},
    }
    let ghost v6 = itinerary_changes_view(changes@);
    match fields.travel_minutes {
        Some(t) => {
            let before = fmt_diff_option_i64(current.travel_minutes);
            let after = crate::text::i64_to_string(t);
            push_itinerary_field_change(&mut changes, "travel_minutes", before.as_str(), after.as_str());
        },
        None => {},
    }
    assert(itinerary_changes_view(changes@) =~= itinerary_changes(*current, *fields));
    if changes.len() == 0 {
        return Err(owned("有効な itinerary 更新がありません — 現行値と同一のため no-op です"));
    }
    Ok(changes)
}

/// The optional text a patch leaves in a field (none when the new text is empty).
pub open spec fn patched_opt(p: UpdateFieldPatch<String>) -> Option<Seq<char>> {
    if p.value@.len() == 0 {
        None
    } else {
        Some(p.value@)
    }
}

/// `after` is `before` with the update's fields written into it.
pub open spec fn is_itinerary_patch(
    before: ExportItineraryV3,
    fields: ParsedUpdateItineraryFields,
    after: ExportItineraryV3,
) -> bool {
    &&& after.title@ == (match fields.title {
        Some(t) => t@,
        None => before.title@,
    })
    &&& opt_view(after.note) == (match fields.note {
        Some(p) => patched_opt(p),
        None => opt_view(before.note),
    })
    &&& opt_view(after.location) == (match fields.location {
        Some(p) => patched_opt(p),
        None => opt_view(before.location),
    })
    &&& after.category == (match fields.category {
        Some(p) => Some(p.value),
        None => before.category,
    })
    &&& opt_view(after.start_time) == (match fields.start_time {
        Some(p) => patched_opt(p),
        None => opt_view(before.start_time),
    })
    &&& after.duration_minutes == (match fields.duration_minutes {
        Some(d) => Some(d),
        None => before.duration_minutes,
    })
    &&& after.travel_minutes == (match fields.travel_minutes {
        Some(d) => Some(d),
        None => before.travel_minutes,
    })
    &&& after.sort_order == before.sort_order
    &&& after.expenses == before.expenses
    &&& after.estimates == before.estimates
    &&& after.reservations == before.reservations
}

fn patched_value(p: &UpdateFieldPatch<String>) -> (r: Option<String>)
    ensures
        opt_view(r) == patched_opt(*p),
{
    if p.value.as_str().unicode_len() == 0 {
        None
    } else {
        Some(owned(p.value.as_str()))
    }
}

/// Writes an `update_itinerary`'s fields into the preview itinerary.
pub fn apply_update_itinerary_patch(itinerary: &mut ExportItineraryV3, fields: &ParsedUpdateItineraryFields)
    ensures
        is_itinerary_patch(*old(itinerary), *fields, *final(itinerary)),
{
    match &fields.title {
        Some(title) => itinerary.title = owned(title.as_str()),
        None => {},
    }
    match &fields.note {
        Some(note) => itinerary.note = patched_value(note),
        None => {},
    }
    match &fields.location {
        Some(location) => itinerary.location = patched_value(location),
        None => {},
    }
    match &fields.category {
        Some(category) => itinerary.category = Some(category.value),
        None => {},
    }
    match &fields.start_time {
        Some(start_time) => itinerary.start_time = patched_value(start_time),
        None => {},
    }
    match fields.duration_minutes {
        Some(d) => itinerary.duration_minutes = Some(d),
        None => {},
    }
    match fields.travel_minutes {
        Some(t) => itinerary.travel_minutes = Some(t),
        None => {},
    }
}

/// The field names that an `update_itinerary` can change.
pub open spec fn itinerary_update_field(f: Seq<char>) -> bool {
    ||| f == "title"@
    ||| f == "note"@
    ||| f == "location"@
    ||| f == "category"@
    ||| f == "start_time"@
    ||| f == "duration_minutes"@
    ||| f == "travel_minutes"@
}

/// What the change list says a field shows afterwards: the `after` of its
/// entry, or the current value when it has none.
pub open spec fn shown_after(changes: Seq<ChangeView>, field: Seq<char>, current: Seq<char>) -> Seq<char>
    decreases changes.len(),
{
    if changes.len() == 0 {
        current
    } else if changes[0].0 == field {
        changes[0].2
    } else {
        shown_after(changes.drop_first(), field, current)
    }
}

/// A block of at most one entry, named `name`, passes over other fields.
proof fn lemma_shown_after_block(a: Seq<ChangeView>, rest: Seq<ChangeView>, name: Seq<char>, field: Seq<char>, current: Seq<char>)
    requires
        a.len() <= 1,
        a.len() == 1 ==> a[0].0 == name,
    ensures
        shown_after(a + rest, field, current) == (if name == field && a.len() == 1 {
            a[0].2
        } else {
            shown_after(rest, field, current)
        }),
{
    if a.len() == 0 {
        assert(a + rest =~= rest);
    } else {
        assert((a + rest)[0] == a[0]);
        assert((a + rest).drop_first() =~= rest);
    }
}

/// What a block of the change list says of its own field: the entry's `after`
/// is what the patched itinerary shows, and with no entry it shows what it showed.
pub open spec fn block_describes(
    block: Seq<ChangeView>,
    name: Seq<char>,
    current: ExportItineraryV3,
    patched: ExportItineraryV3,
) -> bool {
    &&& block.len() <= 1
    &&& block.len() == 1 ==> block[0].0 == name && block[0].2 == itinerary_field_display(patched, name)
    &&& block.len() == 0 ==> itinerary_field_display(patched, name) == itinerary_field_display(current, name)
}

proof fn lemma_blocks_describe_patch(
    current: ExportItineraryV3,
    fields: ParsedUpdateItineraryFields,
    patched: ExportItineraryV3,
)
    requires
        is_itinerary_patch(current, fields, patched),
    ensures
        block_describes(title_block(current, fields), "title"@, current, patched),
        block_describes(note_block(current, fields), "note"@, current, patched),
        block_describes(location_block(current, fields), "location"@, current, patched),
        block_describes(category_block(current, fields), "category"@, current, patched),
        block_describes(start_time_block(current, fields), "start_time"@, current, patched),
        block_describes(duration_block(current, fields), "duration_minutes"@, current, patched),
        block_describes(travel_block(current, fields), "travel_minutes"@, current, patched),
{
    reveal(title_block);
    reveal(note_block);
    reveal(location_block);
    reveal(category_block);
    reveal(start_time_block);
    reveal(duration_block);
    reveal(travel_block);
    lemma_field_names_distinct();
}

/// The change list describes the patch: after `apply_update_itinerary_patch`,
/// each updatable field of the itinerary shows what the change list of
/// `build_update_itinerary_field_changes` says it shows (the entry's `after`,
/// or the unchanged current value when the field has no entry).
#[verifier::spinoff_prover]
#[verifier::rlimit(40)]
pub proof fn lemma_itinerary_changes_describe_patch(
    current: ExportItineraryV3,
    fields: ParsedUpdateItineraryFields,
    patched: ExportItineraryV3,
    field: Seq<char>,
)
    requires
        is_itinerary_patch(current, fields, patched),
        itinerary_update_field(field),
    ensures
        itinerary_field_display(patched, field) == shown_after(
            itinerary_changes(current, fields),
            field,
            itinerary_field_display(current, field),
        ),
{
    lemma_blocks_describe_patch(current, fields, patched);
    lemma_field_names_distinct();
    let cur = itinerary_field_display(current, field);
    let c1 = title_block(current, fields);
    let c2 = note_block(current, fields);
    let c3 = location_block(current, fields);
    let c4 = category_block(current, fields);
    let c5 = start_time_block(current, fields);
    let c6 = duration_block(current, fields);
    let c7 = travel_block(current, fields);
    let e = Seq::<ChangeView>::empty();
    let t7 = c7 + e;
    let t6 = c6 + t7;
    let t5 = c5 + t6;
    let t4 = c4 + t5;
    let t3 = c3 + t4;
    let t2 = c2 + t3;
    let t1 = c1 + t2;
    assert(itinerary_changes(current, fields) =~= t1);
    lemma_shown_after_block(c7, e, "travel_minutes"@, field, cur);
    lemma_shown_after_block(c6, t7, "duration_minutes"@, field, cur);
    lemma_shown_after_block(c5, t6, "start_time"@, field, cur);
    lemma_shown_after_block(c4, t5, "category"@, field, cur);
    lemma_shown_after_block(c3, t4, "location"@, field, cur);
    lemma_shown_after_block(c2, t3, "note"@, field, cur);
    lemma_shown_after_block(c1, t2, "title"@, field, cur);
}

/// The names of the updatable fields are distinct texts.
proof fn lemma_field_names_distinct()
    ensures
        "title"@ != "note"@ && "title"@ != "location"@ && "title"@ != "category"@ && "title"@ != "start_time"@
            && "title"@ != "duration_minutes"@ && "title"@ != "travel_minutes"@,
        "note"@ != "location"@ && "note"@ != "category"@ && "note"@ != "start_time"@ && "note"@
            != "duration_minutes"@ && "note"@ != "travel_minutes"@,
        "location"@ != "category"@ && "location"@ != "start_time"@ && "location"@ != "duration_minutes"@
            && "location"@ != "travel_minutes"@,
        "category"@ != "start_time"@ && "category"@ != "duration_minutes"@ && "category"@ != "travel_minutes"@,
        "start_time"@ != "duration_minutes"@ && "start_time"@ != "travel_minutes"@,
        "duration_minutes"@ != "travel_minutes"@,
{
    reveal_strlit("title");
    reveal_strlit("note");
    reveal_strlit("location");
    reveal_strlit("category");
    reveal_strlit("start_time");
    reveal_strlit("duration_minutes");
    reveal_strlit("travel_minutes");
    assert("title"@.len() != "note"@.len());
    assert("title"@[0] != "location"@[0]);
    assert("title"@[0] != "category"@[0]);
    assert("title"@[0] != "start_time"@[0]);
    assert("title"@[0] != "duration_minutes"@[0]);
    assert("title"@[1] != "travel_minutes"@[1]);
    assert("note"@[0] != "location"@[0]);
    assert("note"@[0] != "category"@[0]);
    assert("note"@[0] != "start_time"@[0]);
    assert("note"@[0] != "duration_minutes"@[0]);
    assert("note"@[0] != "travel_minutes"@[0]);
    assert("location"@[0] != "category"@[0]);
    assert("location"@[0] != "start_time"@[0]);
    assert("location"@[0] != "duration_minutes"@[0]);
    assert("location"@[0] != "travel_minutes"@[0]);
    assert("category"@[0] != "start_time"@[0]);
    assert("category"@[0] != "duration_minutes"@[0]);
    assert("category"@[0] != "travel_minutes"@[0]);
    assert("start_time"@[0] != "duration_minutes"@[0]);
    assert("start_time"@[0] != "travel_minutes"@[0]);
    assert("duration_minutes"@[0] != "travel_minutes"@[0]);
}

// ---------------------------------------------------------------------------
// Estimates.

use crate::models::Estimate;

/// The value of an estimate field as shown in a change list (`-` for an unknown field).
pub open spec fn estimate_field_display(field: Seq<char>, e: Estimate) -> Seq<char> {
    if field == "amount"@ {
        crate::text::int_decimal(e.amount as int)
    } else if field == "currency"@ {
        e.currency@
    } else if field == "title"@ {
        diff_text(opt_view(e.title))
    } else if field == "note"@ {
        diff_text(opt_view(e.note))
    } else if field == "sort_order"@ {
        crate::text::int_decimal(e.sort_order as int)
    } else {
        "-"@
    }
}

pub fn estimate_display_value_for_field(field: &str, estimate: &Estimate) -> (r: String)
    ensures
        r@ == estimate_field_display(field@, *estimate),
{
    if str_eq(field, "amount") {
        crate::text::i64_to_string(estimate.amount)
    } else if str_eq(field, "currency") {
        owned(estimate.currency.as_str())
    } else if str_eq(field, "title") {
        fmt_diff_option_str(&estimate.title)
    } else if str_eq(field, "note") {
        fmt_diff_option_str(&estimate.note)
    } else if str_eq(field, "sort_order") {
        crate::text::i64_to_string(estimate.sort_order)
    } else {
        owned("-")
    }
}

pub open spec fn estimate_change_view(c: FragmentApplyEstimateFieldChange) -> ChangeView {
    (c.field@, c.before@, c.after@)
}

pub open spec fn estimate_changes_view(v: Seq<FragmentApplyEstimateFieldChange>) -> Seq<ChangeView> {
    v.map_values(|c: FragmentApplyEstimateFieldChange| estimate_change_view(c))
}

pub open spec fn estimate_change(field: Seq<char>, before: Estimate, after: Estimate) -> ChangeView {
    (field, estimate_field_display(field, before), estimate_field_display(field, after))
}

/// Appends the entry of a field, showing its value in both estimates.
pub fn push_estimate_field_change(
    changes: &mut Vec<FragmentApplyEstimateFieldChange>,
    field: &str,
    before: &Estimate,
    after: &Estimate,
)
    ensures
        estimate_changes_view(final(changes)@) == estimate_changes_view(old(changes)@).push(
            estimate_change(field@, *before, *after),
        ),
{
    let ghost old_view = estimate_changes_view(changes@);
    changes.push(
        FragmentApplyEstimateFieldChange {
            field: owned(field),
            before: estimate_display_value_for_field(field, before),
            after: estimate_display_value_for_field(field, after),
        },
    );
    assert(estimate_changes_view(changes@) =~= old_view.push(estimate_change(field@, *before, *after)));
}

/// The entries of an `update_estimate`: one for each field the update names
/// (a cleared title or note counts), in field order, even when unchanged.
pub open spec fn estimate_changes(current: Estimate, proposed: Estimate, fields: ParsedUpdateEstimateFields) -> Seq<
    ChangeView,
> {
    let f = |name: Seq<char>, on: bool|
        if on {
            seq![estimate_change(name, current, proposed)]
        } else {
            Seq::<ChangeView>::empty()
        };
    f("amount"@, fields.has_amount) + f("currency"@, fields.has_currency) + f(
        "title"@,
        fields.title is Some || fields.clear_title,
    ) + f("note"@, fields.note is Some || fields.clear_note) + f("sort_order"@, fields.sort_order is Some)
}

pub fn build_update_estimate_field_changes(
    current: &Estimate,
    proposed: &Estimate,
    fields: &ParsedUpdateEstimateFields,
) -> (r: Vec<FragmentApplyEstimateFieldChange>)
    ensures
        estimate_changes_view(r@) == estimate_changes(*current, *proposed, *fields),
{
    let mut changes: Vec<FragmentApplyEstimateFieldChange> = Vec::new();
    let ghost v0 = estimate_changes_view(changes@);
    if fields.has_amount {
        push_estimate_field_change(&mut changes, "amount", current, proposed);
    }
    let ghost v1 = estimate_changes_view(changes@);
    if fields.has_currency {
        push_estimate_field_change(&mut changes, "currency", current, proposed);
    }
    let ghost v2 = estimate_changes_view(changes@);
    if fields.title.is_some() || fields.clear_title {
        push_estimate_field_change(&mut changes, "title", current, proposed);
    }
    let ghost v3 = estimate_changes_view(changes@);
    if fields.note.is_some() || fields.clear_note {
        push_estimate_field_change(&mut changes, "note", current, proposed);
    }
    let ghost v4 = estimate_changes_view(changes@);
    if fields.sort_order.is_some() {
        push_estimate_field_change(&mut changes, "sort_order", current, proposed);
    }
    assert(estimate_changes_view(changes@) =~= estimate_changes(*current, *proposed, *fields));
    changes
}

/// Writes the proposed estimate's values into the preview estimate.
pub fn apply_update_estimate_patch(export_estimate: &mut ExportEstimateV3, proposed: &Estimate)
    ensures
        opt_view(final(export_estimate).title) == opt_view(proposed.title),
        final(export_estimate).amount == proposed.amount,
        final(export_estimate).currency@ == proposed.currency@,
        opt_view(final(export_estimate).note) == opt_view(proposed.note),
        final(export_estimate).sort_order == proposed.sort_order,
{
    export_estimate.title = opt_string_copy(&proposed.title);
    export_estimate.amount = proposed.amount;
    export_estimate.currency = owned(proposed.currency.as_str());
    export_estimate.note = opt_string_copy(&proposed.note);
    export_estimate.sort_order = proposed.sort_order;
}

/// The snapshot of the estimate that a `delete_estimate` would remove.
pub fn build_estimate_delete_preview(
    target_itinerary_id: i64,
    target_itinerary_title: String,
    current: &Estimate,
) -> (r: FragmentApplyEstimateDeletePreview)
    ensures
        r.target_itinerary_id == target_itinerary_id,
        r.target_itinerary_title@ == target_itinerary_title@,
        r.target_estimate_id == current.id,
        opt_view(r.title) == opt_view(current.title),
        r.amount == current.amount,
        r.currency@ == current.currency@,
        opt_view(r.note) == opt_view(current.note),
        r.sort_order == current.sort_order,
        r.updated_at@ == current.updated_at@,
{
    FragmentApplyEstimateDeletePreview {
        target_itinerary_id,
        target_itinerary_title,
        target_estimate_id: current.id,
        title: opt_string_copy(&current.title),
        amount: current.amount,
        currency: owned(current.currency.as_str()),
        note: opt_string_copy(&current.note),
        sort_order: current.sort_order,
        updated_at: owned(current.updated_at.as_str()),
    }
}

// ---------------------------------------------------------------------------
// Notes and day ranges.

pub open spec fn unsupported_note_target_message(other: Seq<char>) -> Seq<char> {
    "add_note は trip / day / itinerary target のみサポートしています（現在: "@ + other + "）"@
}

/// The note an `add_note` fragment adds for its resolved target. An
/// itinerary note keeps the start time of that itinerary in the preview.
/// What adding a note gives, by target: a trip note, a note on the target
/// day, or a note on the target itinerary (keyed by its day, sort order,
/// title and, from the preview, start time); an error for a target that is
/// not resolved enough or not supported.
pub open spec fn added_note(
    r: Result<ExportNote, String>,
    title_s: Option<Seq<char>>,
    body_s: Seq<char>,
    resolved: ResolvedApplyTarget,
    export: TripExportV3,
) -> bool {
    &&& (resolved.target_type@ == "trip"@ ==> match r {
            Ok(ExportNote::Trip { title, body }) => opt_view(title) == title_s && body@ == body_s,
            _ => false,
        })
    &&& (resolved.target_type@ == "day"@ ==> match resolved.day_number {
            None => crate::text::result_view(r) == Err::<ExportNote, Seq<char>>(
                "add_note の Day target が解決されていません"@,
            ),
            Some(d) => match r {
                Ok(ExportNote::Day { day_number, title, body }) => day_number == d && opt_view(title) == title_s && body@ == body_s,
                _ => false,
            },
        })
    &&& (resolved.target_type@ == "itinerary"@ ==> match (
            resolved.day_number,
            resolved.itinerary_sort_order,
            resolved.itinerary_title,
        ) {
            (None, _, _) => crate::text::result_view(r) == Err::<ExportNote, Seq<char>>(
                "add_note の Itinerary target が解決されていません（day）"@,
            ),
            (Some(_), None, _) => crate::text::result_view(r) == Err::<ExportNote, Seq<char>>(
                "add_note の Itinerary target が解決されていません（sort_order）"@,
            ),
            (Some(_), Some(_), None) => crate::text::result_view(r) == Err::<ExportNote, Seq<char>>(
                "add_note の Itinerary target が解決されていません（title）"@,
            ),
            (Some(d), Some(so), Some(t)) => match r {
                Ok(ExportNote::Itinerary { itinerary_key, title, body }) => {
                    &&& itinerary_key.day_number == d
                    &&& itinerary_key.sort_order == so
                    &&& itinerary_key.title@ == t@
                    &&& opt_view(itinerary_key.start_time) == match first_day_index(export.days@, d) {
                        Some(k) => match first_item_index(export.days@[k].itineraries@, so) {
                            Some(j) => opt_view(export.days@[k].itineraries@[j].start_time),
                            None => None,
                        },
                        None => None,
                    }
                    &&& opt_view(title) == title_s
                    &&& body@ == body_s
                },
                _ => false,
            },
        })
    &&& (!(resolved.target_type@ == "trip"@ || resolved.target_type@ == "day"@ || resolved.target_type@
            == "itinerary"@) ==> crate::text::result_view(r) == Err::<ExportNote, Seq<char>>(
            unsupported_note_target_message(resolved.target_type@),
        ))
}

pub fn build_export_note_from_add_fields(
    fields: &ParsedAddNoteFields,
    resolved: &ResolvedApplyTarget,
    export: &TripExportV3,
) -> (r: Result<ExportNote, String>)
    ensures
        added_note(r, opt_view(fields.title), fields.body@, *resolved, *export),
{
    proof {
        reveal_strlit("trip");
        reveal_strlit("day");
        reveal_strlit("itinerary");
        assert("trip"@.len() == 4 && "day"@.len() == 3 && "itinerary"@.len() == 9);
    }
    let kind = resolved.target_type.as_str();
    if str_eq(kind, "trip") {
        Ok(ExportNote::Trip { title: opt_string_copy(&fields.title), body: owned(fields.body.as_str()) })
    } else if str_eq(kind, "day") {
        match resolved.day_number {
            None => Err(owned("add_note の Day target が解決されていません")),
            Some(day_number) => Ok(
                ExportNote::Day {
                    day_number,
                    title: opt_string_copy(&fields.title),
                    body: owned(fields.body.as_str()),
                },
            ),
        }
    } else if str_eq(kind, "itinerary") {
        let day_number = match resolved.day_number {
            Some(d) => d,
            None => return Err(owned("add_note の Itinerary target が解決されていません（day）")),
        };
        let sort_order = match resolved.itinerary_sort_order {
            Some(s) => s,
            None => return Err(owned("add_note の Itinerary target が解決されていません（sort_order）")),
        };
        let itinerary_title = match &resolved.itinerary_title {
            Some(t) => owned(t.as_str()),
            None => return Err(owned("add_note の Itinerary target が解決されていません（title）")),
        };
        let start_time = match lookup_itinerary_in_export(export, day_number, sort_order) {
            Some(item) => opt_string_copy(&item.start_time),
            None => None,
        };
        Ok(
            ExportNote::Itinerary {
                itinerary_key: ItineraryNoteKey { day_number, sort_order, start_time, title: itinerary_title },
                title: opt_string_copy(&fields.title),
                body: owned(fields.body.as_str()),
            },
        )
    } else {
        let mut msg = owned("add_note は trip / day / itinerary target のみサポートしています（現在: ");
        push_str(&mut msg, kind);
        push_str(&mut msg, "）");
        Err(msg)
    }
}

pub open spec fn day_out_of_range_message(day_number: i64, day_count: i64) -> Seq<char> {
    "day_number ("@ + crate::text::int_decimal(day_number as int) + ") が旅行期間 (1..="@
        + crate::text::int_decimal(day_count as int) + ") の範囲外です"@
}

/// Checks that a day number lies within the trip. `day_count` is the outcome
/// of validating the trip's date range (the number of days, or its error).
pub fn ensure_day_in_range(export: &TripExportV3, day_number: i64, day_count: Result<i64, String>) -> (r: Result<
    (),
    String,
>)
    ensures
        export.trip.start_date is None ==> crate::text::result_view(r) == Err::<(), Seq<char>>(
            "trip.start_date が必要です"@,
        ),
        export.trip.start_date is Some && export.trip.end_date is None ==> crate::text::result_view(r) == Err::<
            (),
            Seq<char>,
        >("trip.end_date が必要です"@),
        export.trip.start_date is Some && export.trip.end_date is Some ==> match day_count {
            Err(e) => crate::text::result_view(r) == Err::<(), Seq<char>>(e@),
            Ok(n) => if day_number < 1 || day_number > n {
                crate::text::result_view(r) == Err::<(), Seq<char>>(day_out_of_range_message(day_number, n))
            } else {
                r is Ok
            },
        },
{
    if export.trip.start_date.is_none() {
        return Err(owned("trip.start_date が必要です"));
    }
    if export.trip.end_date.is_none() {
        return Err(owned("trip.end_date が必要です"));
    }
    let n = match day_count {
        Ok(n) => n,
        Err(e) => return Err(e),
    };
    if day_number < 1 || day_number > n {
        let mut msg = owned("day_number (");
        crate::text::push_i64_decimal(&mut msg, day_number);
        push_str(&mut msg, ") が旅行期間 (1..=");
        crate::text::push_i64_decimal(&mut msg, n);
        push_str(&mut msg, ") の範囲外です");
        return Err(msg);
    }
    Ok(())
}

// ---------------------------------------------------------------------------
// Moving an itinerary between days in the preview.

/// The itinerary with another sort order.
pub open spec fn with_sort_order(it: ExportItineraryV3, sort_order: i64) -> ExportItineraryV3 {
    ExportItineraryV3 { sort_order, ..it }
}

/// The itineraries with their sort orders rewritten where the map has a new one.
pub open spec fn rewritten_sort_orders(items: Seq<ExportItineraryV3>, rewrites: Map<i64, i64>) -> Seq<
    ExportItineraryV3,
> {
    items.map_values(
        |it: ExportItineraryV3|
            if rewrites.dom().contains(it.sort_order) {
                with_sort_order(it, rewrites[it.sort_order])
            } else {
                it
            },
    )
}

/// The position before the first itinerary whose sort order is above `key` (the end if none is).
pub open spec fn first_above(sorted: Seq<ExportItineraryV3>, key: i64) -> int
    decreases sorted.len(),
{
    if sorted.len() == 0 {
        0
    } else if sorted[0].sort_order > key {
        0
    } else {
        1 + first_above(sorted.drop_first(), key)
    }
}

/// The itineraries ordered by sort order, those with equal sort orders keeping
/// their order (each inserted before the first one with a larger sort order).
pub open spec fn sorted_by_sort_order(items: Seq<ExportItineraryV3>) -> Seq<ExportItineraryV3>
    decreases items.len(),
{
    if items.len() == 0 {
        Seq::empty()
    } else {
        let rest = sorted_by_sort_order(items.drop_last());
        rest.insert(first_above(rest, items.last().sort_order), items.last())
    }
}

proof fn lemma_first_above_bound(sorted: Seq<ExportItineraryV3>, key: i64)
    ensures
        0 <= first_above(sorted, key) <= sorted.len(),
    decreases sorted.len(),
{
    if sorted.len() > 0 && sorted[0].sort_order <= key {
        lemma_first_above_bound(sorted.drop_first(), key);
    }
}

proof fn lemma_sorted_len(items: Seq<ExportItineraryV3>)
    ensures
        sorted_by_sort_order(items).len() == items.len(),
    decreases items.len(),
{
    if items.len() > 0 {
        lemma_sorted_len(items.drop_last());
        lemma_first_above_bound(sorted_by_sort_order(items.drop_last()), items.last().sort_order);
    }
}

fn first_above_index(sorted: &Vec<ExportItineraryV3>, key: i64) -> (r: usize)
    ensures
        r == first_above(sorted@, key),
{
    let mut i: usize = 0;
    proof {
        lemma_first_above_bound(sorted@, key);
    }
    assert(sorted@.skip(0) =~= sorted@);
    while i < sorted.len()
        invariant
            i <= sorted@.len(),
            first_above(sorted@, key) == i + first_above(sorted@.skip(i as int), key),
        decreases sorted@.len() - i,
    {
        assert(sorted@.skip(i as int)[0] == sorted@[i as int]);
        if sorted[i].sort_order > key {
            return i;
        }
        assert(sorted@.skip(i as int).drop_first() =~= sorted@.skip(i + 1));
        i = i + 1;
    }
    assert(sorted@.skip(i as int) =~= Seq::<ExportItineraryV3>::empty());
    i
}

/// Sorts itineraries by sort order, keeping the order of equal ones.
fn sort_by_sort_order(items: Vec<ExportItineraryV3>) -> (r: Vec<ExportItineraryV3>)
    ensures
        r@ == sorted_by_sort_order(items@),
{
    let ghost all = items@;
    let mut rest = items;
    let mut out: Vec<ExportItineraryV3> = Vec::new();
    let mut n: usize = 0;
    let total = rest.len();
    assert(all.subrange(0, 0) =~= Seq::<ExportItineraryV3>::empty());
    assert(rest@ =~= all.subrange(0, all.len() as int));
    while rest.len() > 0
        invariant
            all.len() == total,
            n + rest@.len() == all.len(),
            rest@ == all.subrange(n as int, all.len() as int),
            out@ == sorted_by_sort_order(all.subrange(0, n as int)),
        decreases rest@.len(),
    {
        let x = rest.remove(0);
        assert(x == all[n as int]);
        assert(rest@ =~= all.subrange(n + 1, all.len() as int));
        let pos = first_above_index(&out, x.sort_order);
        proof {
            lemma_first_above_bound(out@, x.sort_order);
            let pre = all.subrange(0, n + 1);
            assert(pre.drop_last() =~= all.subrange(0, n as int));
            assert(pre.last() == x);
        }
        out.insert(pos, x);
        n = n + 1;
    }
    assert(all.subrange(0, n as int) =~= all);
    out
}

/// Rewrites the sort orders that the map gives a new value for.
fn rewrite_sort_orders(items: Vec<ExportItineraryV3>, rewrites: &std::collections::HashMap<i64, i64>) -> (r: Vec<
    ExportItineraryV3,
>)
    ensures
        r@ == rewritten_sort_orders(items@, rewrites@),
{
    broadcast use vstd::std_specs::hash::group_hash_axioms;

    let ghost all = items@;
    let mut rest = items;
    let mut out: Vec<ExportItineraryV3> = Vec::new();
    let mut n: usize = 0;
    let total = rest.len();
    assert(rest@ =~= all.subrange(0, all.len() as int));
    while rest.len() > 0
        invariant
            all.len() == total,
            n + rest@.len() == all.len(),
            rest@ == all.subrange(n as int, all.len() as int),
            out@ == rewritten_sort_orders(all.subrange(0, n as int), rewrites@),
        decreases rest@.len(),
    {
        let mut x = rest.remove(0);
        assert(x == all[n as int]);
        assert(rest@ =~= all.subrange(n + 1, all.len() as int));
        match rewrites.get(&x.sort_order) {
            Some(v) => {
                x.sort_order = *v;
            },
            None => {},
        }
        out.push(x);
        n = n + 1;
        assert(out@ =~= rewritten_sort_orders(all.subrange(0, n as int), rewrites@));
    }
    assert(all.subrange(0, n as int) =~= all);
    out
}

pub open spec fn source_day_missing_message(from_day: i64) -> Seq<char> {
    "preview export に source Day "@ + crate::text::int_decimal(from_day as int) + " がありません"@
}

pub open spec fn moved_itinerary_missing_message(from_day: i64, from_sort_order: i64) -> Seq<char> {
    "preview export 内に itinerary (day "@ + crate::text::int_decimal(from_day as int) + ", sort_order "@
        + crate::text::int_decimal(from_sort_order as int) + ") が見つかりません"@
}

/// Everything but the days and the notes is the same.
pub open spec fn same_except_days_and_notes(a: TripExportV3, b: TripExportV3) -> bool {
    &&& a.schema_version == b.schema_version
    &&& a.generator == b.generator
    &&& a.generator_version == b.generator_version
    &&& a.exported_at == b.exported_at
    &&& a.trip == b.trip
    &&& a.checklist_items == b.checklist_items
    &&& a.participants == b.participants
}

/// Everything but the days is the same.
pub open spec fn same_except_days(a: TripExportV3, b: TripExportV3) -> bool {
    same_except_days_and_notes(a, b) && a.notes == b.notes
}

/// Day `i` kept its number and summary.
pub open spec fn same_day_header(a: ExportDayV3, b: ExportDayV3) -> bool {
    a.day_number == b.day_number && a.summary == b.summary
}

/// What moving the itinerary does to the days: the source day loses it and its
/// other itineraries take their rewritten sort orders and are re-sorted; the
/// destination day (created at the end when missing) gains it with its new
/// sort order and is re-sorted.
pub open spec fn is_move_result(
    before: Seq<ExportDayV3>,
    after: Seq<ExportDayV3>,
    k: int,
    j: int,
    to_day: i64,
    to_sort_order: i64,
    rewrites: Map<i64, i64>,
) -> bool {
    let items = before[k].itineraries@;
    let src = sorted_by_sort_order(rewritten_sort_orders(items.remove(j), rewrites));
    let moved = with_sort_order(items[j], to_sort_order);
    &&& same_day_header(after[k], before[k])
    &&& match first_day_index(before, to_day) {
        Some(d) => {
            &&& after.len() == before.len()
            &&& forall|i: int| 0 <= i < before.len() && i != k && i != d ==> after[i] == before[i]
            &&& same_day_header(after[d], before[d])
            &&& if d == k {
                after[k].itineraries@ == sorted_by_sort_order(src.push(moved))
            } else {
                &&& after[k].itineraries@ == src
                &&& after[d].itineraries@ == sorted_by_sort_order(before[d].itineraries@.push(moved))
            }
        },
        None => {
            &&& after.len() == before.len() + 1
            &&& forall|i: int| 0 <= i < before.len() && i != k ==> after[i] == before[i]
            &&& after[k].itineraries@ == src
            &&& after[before.len() as int].day_number == to_day
            &&& after[before.len() as int].summary is None
            &&& after[before.len() as int].itineraries@ == sorted_by_sort_order(seq![moved])
        },
    }
}

/// Moves, in the preview, the itinerary at (`from_day`, `from_sort_order`) to
/// `to_day` with sort order `to_sort_order`, giving the source day's other
/// itineraries the sort orders in `source_sort_rewrites`.
pub fn move_itinerary_in_export_preview(
    export: &mut TripExportV3,
    from_day: i64,
    to_day: i64,
    from_sort_order: i64,
    to_sort_order: i64,
    source_sort_rewrites: &std::collections::HashMap<i64, i64>,
) -> (r: Result<(), String>)
    ensures
        same_except_days(*final(export), *old(export)),
        match first_day_index(old(export).days@, from_day) {
            None => {
                &&& crate::text::result_view(r) == Err::<(), Seq<char>>(source_day_missing_message(from_day))
                &&& final(export).days@ == old(export).days@
            },
            Some(k) => match first_item_index(old(export).days@[k].itineraries@, from_sort_order) {
                None => {
                    &&& crate::text::result_view(r) == Err::<(), Seq<char>>(
                        moved_itinerary_missing_message(from_day, from_sort_order),
                    )
                    &&& final(export).days@ == old(export).days@
                },
                Some(j) => r is Ok && is_move_result(
                    old(export).days@,
                    final(export).days@,
                    k,
                    j,
                    to_day,
                    to_sort_order,
                    source_sort_rewrites@,
                ),
            },
        },
{
    let ghost before = export.days@;
    let k = match find_day_index(&export.days, from_day) {
        Some(k) => k,
        None => {
            let mut msg = owned("preview export に source Day ");
            crate::text::push_i64_decimal(&mut msg, from_day);
            push_str(&mut msg, " がありません");
            return Err(msg);
        },
    };
    let j = match find_item_index(&export.days[k].itineraries, from_sort_order) {
        Some(j) => j,
        None => {
            let mut msg = owned("preview export 内に itinerary (day ");
            crate::text::push_i64_decimal(&mut msg, from_day);
            push_str(&mut msg, ", sort_order ");
            crate::text::push_i64_decimal(&mut msg, from_sort_order);
            push_str(&mut msg, ") が見つかりません");
            return Err(msg);
        },
    };
    let ghost items = before[k as int].itineraries@;
    let source = export.days.remove(k);
    let ExportDayV3 { day_number: src_number, summary: src_summary, itineraries: mut src_items } = source;
    let mut moved = src_items.remove(j);
    assert(src_items@ =~= items.remove(j as int));
    let rewritten = rewrite_sort_orders(src_items, source_sort_rewrites);
    let sorted = sort_by_sort_order(rewritten);
    export.days.insert(k, ExportDayV3 { day_number: src_number, summary: src_summary, itineraries: sorted });
    let ghost mid = export.days@;
    assert forall|i: int| 0 <= i < before.len() && i != k implies mid[i] == before[i] by {}
    assert(mid.len() == before.len());
    proof {
        lemma_day_index_from_bounds(before, to_day, 0);
        lemma_day_index_from_bounds(mid, to_day, 0);
        assert forall|i: int| 0 <= i < mid.len() implies mid[i].day_number == before[i].day_number by {}
        assert(first_day_index(mid, to_day) == first_day_index(before, to_day)) by {
            let a = first_day_index(mid, to_day);
            let b = first_day_index(before, to_day);
            match (a, b) {
                (Some(x), Some(y)) => {
                    if x < y {
                        assert(before[x].day_number == to_day);
                    } else if y < x {
                        assert(mid[y].day_number == to_day);
                    }
                },
                (Some(x), None) => {
                    assert(before[x].day_number == to_day);
                },
                (None, Some(y)) => {
                    assert(mid[y].day_number == to_day);
                },
                (None, None) => {},
            }
        }
    }
    let d = find_or_create_day(export, to_day);
    let ghost mid2 = export.days@;
    assert(moved == items[j as int]);
    moved.sort_order = to_sort_order;
    let ghost mv = moved;
    assert(mv == with_sort_order(items[j as int], to_sort_order));
    let dest = export.days.remove(d);
    let ExportDayV3 { day_number: dest_number, summary: dest_summary, itineraries: mut dest_items } = dest;
    let ghost dest_before = dest_items@;
    dest_items.push(moved);
    let dest_sorted = sort_by_sort_order(dest_items);
    export.days.insert(d, ExportDayV3 { day_number: dest_number, summary: dest_summary, itineraries: dest_sorted });
    let ghost fin = export.days@;
    assert forall|i: int| 0 <= i < mid2.len() && i != d implies fin[i] == mid2[i] by {}
    assert(fin.len() == mid2.len());
    assert(fin[d as int].itineraries@ == sorted_by_sort_order(dest_before.push(mv)));
    assert(same_day_header(fin[d as int], mid2[d as int]));
    assert(mid[k as int].itineraries@ == sorted_by_sort_order(rewritten_sort_orders(items.remove(j as int), source_sort_rewrites@)));
    proof {
        match first_day_index(before, to_day) {
            Some(d0) => {
                assert(d == d0);
                assert(mid2 == mid);
                if d0 == k {
                } else {
                    assert(fin[k as int] == mid[k as int]);
                }
            },
            None => {
                assert(d == before.len());
                assert(mid2.subrange(0, d as int) == mid);
                assert forall|i: int| 0 <= i < before.len() && i != k implies fin[i] == before[i] by {
                    assert(mid2[i] == mid2.subrange(0, d as int)[i]);
                }
                assert(fin[k as int] == mid2[k as int]);
                assert(mid2[k as int] == mid2.subrange(0, d as int)[k as int]);
                assert(dest_before.push(mv) =~= seq![mv]);
            },
        }
    }
    Ok(())
}

// ---------------------------------------------------------------------------
// Decisions the user still has to make.

/// What the fragment leaves for the user to decide: the adoption hints'
/// required decisions, then its conflicts, then, for an unresolved target,
/// choosing the day or itinerary and the target's hints; each text once.
pub open spec fn required_decisions_of(
    before: Seq<Seq<char>>,
    hints: Option<JsonValue>,
    target: Seq<(String, JsonValue)>,
) -> Seq<Seq<char>> {
    let a = append_unique(before, trimmed_texts(crate::json::value_member(hints, "required_decisions"@)));
    let b = append_unique(a, trimmed_texts(crate::json::value_member(hints, "conflicts"@)));
    if crate::json::non_empty_text(crate::json::member(target, "target_type"@)) == Some("unresolved"@) {
        append_unique(
            append_unique(b, seq!["target Day / Itinerary の確定"@]),
            trimmed_texts(crate::json::member(target, "unresolved_target_hints"@)),
        )
    } else {
        b
    }
}

pub fn collect_required_decisions(
    hints: Option<&JsonValue>,
    target: &crate::json::JsonMembers,
    required_decisions: &mut Vec<String>,
)
    ensures
        crate::text::strings_view(final(required_decisions)@) == required_decisions_of(
            crate::text::strings_view(old(required_decisions)@),
            crate::json::opt_ref_view(hints),
            target@,
        ),
{
    let decisions = non_empty_string_array(crate::json::get_value_member(hints, "required_decisions"));
    append_each_unique(required_decisions, decisions);
    let conflicts = non_empty_string_array(crate::json::get_value_member(hints, "conflicts"));
    append_each_unique(required_decisions, conflicts);
    let target_type = crate::json::non_empty_string(crate::json::get_member(target, "target_type"));
    let unresolved = match &target_type {
        Some(t) => str_eq(t.as_str(), "unresolved"),
        None => false,
    };
    if unresolved {
        let mut one: Vec<String> = Vec::new();
        one.push(owned("target Day / Itinerary の確定"));
        assert(crate::text::strings_view(one@) =~= seq!["target Day / Itinerary の確定"@]);
        append_each_unique(required_decisions, one);
        let hints_list = non_empty_string_array(crate::json::get_member(target, "unresolved_target_hints"));
        append_each_unique(required_decisions, hints_list);
    }
}

} // verus!
