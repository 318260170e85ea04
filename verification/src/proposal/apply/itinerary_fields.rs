//! The fields of an `update_itinerary` fragment, and its preview. Checking a
//! time's HH:MM form is the caller's: the check is passed in, and what is
//! stated holds whatever it answers.
use vstd::prelude::*;

use crate::json::{get_member, has_member, json_object, member, non_empty_string, non_empty_text, JsonKind, JsonMembers, JsonValue};
use crate::models::{ItineraryCategory, TripExportV3};
use crate::proposal::apply::fields::{
    category_patch, detect_update_itinerary_baseline_conflicts, optional_text_patch, parse_update_duration_minutes_field,
    parse_update_travel_minutes_field, patch_optional_category_field, patch_optional_string_field, text_patch_view,
    two_spellings, update_travel_minutes, warn_unsupported_update_itinerary_candidate_keys,
};
use crate::proposal::apply::checks::same_but_warnings;
use crate::proposal::apply::fields::{optional_non_negative, parse_optional_non_negative_i64, parse_travel_minutes_field};
use crate::models::{category_parse, parse_itinerary_category};
use crate::proposal::apply::ParsedAddItineraryFields;
use crate::proposal::apply::fields::{baseline_check, itinerary_baselines, unsupported_key_lines, update_itinerary_keys};
use crate::proposal::apply::reorder::day_range_check;
use crate::proposal::apply::{
    apply_update_itinerary_patch, build_update_itinerary_field_changes, ensure_day_in_range, find_itinerary_mut_in_export_day,
    first_day_index, first_item_index, is_itinerary_patch, itinerary_changes, itinerary_changes_view,
    itinerary_not_found_message, lookup_itinerary_in_export, no_itinerary_update_message, opt_string_copy,
    same_day_header, same_except_days, ChangeView, FragmentApplyDryRunReport, FragmentApplyPreviewSummary,
    ParsedUpdateItineraryFields, ResolvedApplyTarget, UpdateFieldPatch,
};
use crate::text::{opt_view, strings_view};
use crate::proposal::fragment::object_member;
use crate::text::{owned, push_str, str_eq};

verus! {

/// Whether the check may answer `o` for a text `t`.
pub open spec fn time_check_gives<F: Fn(&str) -> Result<(), String>>(
    check: F,
    t: Seq<char>,
    o: Result<(), String>,
) -> bool {
    exists|s: &str| s@ == t && check.ensures((s,), o)
}

/// The text a time field hands to the check: a non-null value's non-empty text, trimmed.
pub open spec fn time_to_check(v: Option<JsonValue>) -> Option<Seq<char>> {
    match v {
        Some(x) => if x.kind is Null {
            None
        } else {
            non_empty_text(Some(x))
        },
        None => None,
    }
}

/// A time field: absent or null gives none; otherwise its text must be
/// non-empty and pass the check (which answered `o`).
pub open spec fn time_value(v: Option<JsonValue>, field: Seq<char>, o: Result<(), String>) -> Result<
    Option<Seq<char>>,
    Seq<char>,
> {
    match v {
        None => Ok(None),
        Some(x) => if x.kind is Null {
            Ok(None)
        } else {
            match non_empty_text(Some(x)) {
                None => Err("candidate_content."@ + field + " が必要です"@),
                Some(t) => match o {
                    Err(e) => Err(e@),
                    Ok(_) => Ok(Some(t)),
                },
            }
        },
    }
}

pub open spec fn opt_text_result(r: Result<Option<String>, String>) -> Result<Option<Seq<char>>, Seq<char>> {
    match r {
        Ok(Some(t)) => Ok(Some(t@)),
        Ok(None) => Ok(None),
        Err(e) => Err(e@),
    }
}

/// Reads an optional time field, handing its text to the check.
pub fn read_optional_time_value<F: Fn(&str) -> Result<(), String>>(
    value: Option<&JsonValue>,
    field: &str,
    check: &F,
) -> (r: Result<Option<String>, String>)
    requires
        forall|s: &str| check.requires((s,)),
    ensures
        exists|o: Result<(), String>|
            #![trigger time_value(crate::json::opt_ref_view(value), field@, o)]
            {
                &&& (time_to_check(crate::json::opt_ref_view(value)) matches Some(t) ==> time_check_gives(
                    *check,
                    t,
                    o,
                ))
                &&& opt_text_result(r) == time_value(crate::json::opt_ref_view(value), field@, o)
            },
{
    let v = match value {
        None => {
            assert(opt_text_result(Ok(None)) == time_value(None, field@, Ok(())));
            return Ok(None);
        },
        Some(v) => v,
    };
    if let JsonKind::Null = &v.kind {
        assert(opt_text_result(Ok(None)) == time_value(Some(*v), field@, Ok(())));
        return Ok(None);
    }
    let text = match non_empty_string(Some(v)) {
        Some(t) => t,
        None => {
            let mut m = owned("candidate_content.");
            push_str(&mut m, field);
            push_str(&mut m, " が必要です");
            assert(opt_text_result(Err(m)) == time_value(Some(*v), field@, Ok(())));
            return Err(m);
        },
    };
    let o = check(text.as_str());
    assert(time_check_gives(*check, text@, o));
    let r = match &o {
        Ok(_) => Ok(Some(text)),
        Err(e) => Err(e.clone()),
    };
    assert(opt_text_result(r) == time_value(Some(*v), field@, o));
    r
}

/// The start time an update names, also spelled `time`: both given must
/// agree, and naming either with nothing clears it. `o1` and `o2` are what
/// the check answered for the two spellings.
pub open spec fn start_time_patch(
    c: Seq<(String, JsonValue)>,
    o1: Result<(), String>,
    o2: Result<(), String>,
) -> Result<Option<Seq<char>>, Seq<char>> {
    if !has_member(c, "start_time"@) && !has_member(c, "time"@) {
        Ok(None)
    } else {
        match time_value(member(c, "start_time"@), "start_time"@, o1) {
            Err(e) => Err(e),
            Ok(a) => match time_value(member(c, "time"@), "time"@, o2) {
                Err(e) => Err(e),
                Ok(b) => match (a, b) {
                    (Some(l), Some(r)) => if l != r {
                        Err("start_time と time が矛盾しています"@)
                    } else {
                        Ok(Some(l))
                    },
                    (Some(v), None) => Ok(Some(v)),
                    (None, Some(v)) => Ok(Some(v)),
                    (None, None) => Ok(Some(Seq::empty())),
                },
            },
        }
    }
}

/// The check was asked about the start time's text when there was one, and
/// about the `time` text when there was one and the start time was accepted.
pub open spec fn start_time_checked<F: Fn(&str) -> Result<(), String>>(
    check: F,
    c: Seq<(String, JsonValue)>,
    o1: Result<(), String>,
    o2: Result<(), String>,
) -> bool {
    &&& (time_to_check(member(c, "start_time"@)) matches Some(t) ==> time_check_gives(check, t, o1))
    &&& (time_value(member(c, "start_time"@), "start_time"@, o1) is Ok ==> (time_to_check(member(c, "time"@)) matches Some(
        t,
    ) ==> time_check_gives(check, t, o2)))
}

pub fn parse_update_start_time_field<F: Fn(&str) -> Result<(), String>>(candidate: &JsonMembers, check: &F) -> (r:
    Result<Option<UpdateFieldPatch<String>>, String>)
    requires
        forall|s: &str| check.requires((s,)),
    ensures
        exists|o1: Result<(), String>, o2: Result<(), String>|
            #![trigger start_time_patch(candidate@, o1, o2)]
            start_time_checked(*check, candidate@, o1, o2) && text_patch_view(r) == start_time_patch(candidate@, o1, o2),
{
    let has_start = crate::json::contains_key(candidate, "start_time");
    let has_time = crate::json::contains_key(candidate, "time");
    if !has_start && !has_time {
        assert(start_time_checked(*check, candidate@, Ok(()), Ok(())));
        assert(text_patch_view(Ok(None)) == start_time_patch(candidate@, Ok(()), Ok(())));
        return Ok(None);
    }
    let a = read_optional_time_value(get_member(candidate, "start_time"), "start_time", check);
    let ghost o1 = choose|o: Result<(), String>|
        {
            &&& (time_to_check(member(candidate@, "start_time"@)) matches Some(t) ==> time_check_gives(*check, t, o))
            &&& opt_text_result(a) == time_value(member(candidate@, "start_time"@), "start_time"@, o)
        };
    let a = match a {
        Ok(x) => x,
        Err(e) => {
            assert(start_time_checked(*check, candidate@, o1, Ok(())));
            assert(text_patch_view(Err(e)) == start_time_patch(candidate@, o1, Ok(())));
            return Err(e);
        },
    };
    let b = read_optional_time_value(get_member(candidate, "time"), "time", check);
    let ghost o2 = choose|o: Result<(), String>|
        {
            &&& (time_to_check(member(candidate@, "time"@)) matches Some(t) ==> time_check_gives(*check, t, o))
            &&& opt_text_result(b) == time_value(member(candidate@, "time"@), "time"@, o)
        };
    assert(start_time_checked(*check, candidate@, o1, o2));
    let b = match b {
        Ok(x) => x,
        Err(e) => {
            assert(text_patch_view(Err(e)) == start_time_patch(candidate@, o1, o2));
            return Err(e);
        },
    };
    let r = match (a, b) {
        (Some(l), Some(r)) => {
            if str_eq(l.as_str(), r.as_str()) {
                Ok(Some(UpdateFieldPatch { value: l }))
            } else {
                Err(owned("start_time と time が矛盾しています"))
            }
        },
        (Some(v), None) => Ok(Some(UpdateFieldPatch { value: v })),
        (None, Some(v)) => Ok(Some(UpdateFieldPatch { value: v })),
        (None, None) => Ok(Some(UpdateFieldPatch { value: String::new() })),
    };
    assert(text_patch_view(r) == start_time_patch(candidate@, o1, o2));
    r
}

/// A text patch by its new text (empty to clear).
pub open spec fn patch_text(p: Option<UpdateFieldPatch<String>>) -> Option<Seq<char>> {
    match p {
        Some(x) => Some(x.value@),
        None => None,
    }
}

pub open spec fn patch_category(p: Option<UpdateFieldPatch<ItineraryCategory>>) -> Option<ItineraryCategory> {
    match p {
        Some(x) => Some(x.value),
        None => None,
    }
}

/// An update's fields: title, note, location, category, start time, duration, travel minutes.
pub open spec fn update_fields_view(f: ParsedUpdateItineraryFields) -> (
    Option<Seq<char>>,
    Option<Seq<char>>,
    Option<Seq<char>>,
    Option<ItineraryCategory>,
    Option<Seq<char>>,
    Option<i64>,
    Option<i64>,
) {
    (
        crate::text::opt_view(f.title),
        patch_text(f.note),
        patch_text(f.location),
        patch_category(f.category),
        patch_text(f.start_time),
        f.duration_minutes,
        f.travel_minutes,
    )
}

/// A title the update names: it must be a non-empty text (trimmed).
pub open spec fn title_patch(c: Seq<(String, JsonValue)>) -> Result<Option<Seq<char>>, Seq<char>> {
    if has_member(c, "title"@) {
        match non_empty_text(member(c, "title"@)) {
            None => Err("candidate_content.title が必要です"@),
            Some(t) => Ok(Some(t)),
        }
    } else {
        Ok(None)
    }
}

/// The fields of an `update_itinerary` fragment, each read in turn (the
/// first error wins); at least one must be given. `o1` and `o2` are what the
/// time check answered.
pub open spec fn update_itinerary_fields_of(
    fragment: Seq<(String, JsonValue)>,
    o1: Result<(), String>,
    o2: Result<(), String>,
) -> Result<
    (
        Option<Seq<char>>,
        Option<Seq<char>>,
        Option<Seq<char>>,
        Option<ItineraryCategory>,
        Option<Seq<char>>,
        Option<i64>,
        Option<i64>,
    ),
    Seq<char>,
> {
    match object_member(fragment, "candidate_content"@) {
        None => Err("candidate_content object が必要です"@),
        Some(c) => match title_patch(c) {
            Err(e) => Err(e),
            Ok(title) => match optional_text_patch(c, "note"@) {
                Err(e) => Err(e),
                Ok(note) => match optional_text_patch(c, "location"@) {
                    Err(e) => Err(e),
                    Ok(location) => match category_patch(c) {
                        Err(e) => Err(e),
                        Ok(category) => match start_time_patch(c, o1, o2) {
                            Err(e) => Err(e),
                            Ok(start) => match two_spellings(
                                c,
                                "duration_minutes"@,
                                "duration"@,
                                "duration_minutes と duration が矛盾しています"@,
                            ) {
                                Err(e) => Err(e),
                                Ok(duration) => match update_travel_minutes(c) {
                                    Err(e) => Err(e),
                                    Ok(travel) => if title is None && note is None && location is None && category is None
                                        && start is None && duration is None && travel is None {
                                        Err("update_itinerary には少なくとも 1 つの更新フィールドが必要です"@)
                                    } else {
                                        Ok((title, note, location, category, start, duration, travel))
                                    },
                                },
                            },
                        },
                    },
                },
            },
        },
    }
}

/// Once the fields before the start time were accepted, the time check was
/// asked what `start_time_checked` says, about the candidate's fields.
pub open spec fn candidate_times_checked<F: Fn(&str) -> Result<(), String>>(
    check: F,
    fragment: Seq<(String, JsonValue)>,
    o1: Result<(), String>,
    o2: Result<(), String>,
) -> bool {
    match object_member(fragment, "candidate_content"@) {
        Some(c) => (title_patch(c) is Ok && optional_text_patch(c, "note"@) is Ok && optional_text_patch(
            c,
            "location"@,
        ) is Ok && category_patch(c) is Ok) ==> start_time_checked(check, c, o1, o2),
        None => true,
    }
}

/// Reads the fields of an `update_itinerary` fragment; `check` decides
/// whether a time text has the HH:MM form.
pub fn parse_update_itinerary_fields<F: Fn(&str) -> Result<(), String>>(fragment: &JsonMembers, check: &F) -> (r:
    Result<ParsedUpdateItineraryFields, String>)
    requires
        forall|s: &str| check.requires((s,)),
    ensures
        exists|o1: Result<(), String>, o2: Result<(), String>|
            #![trigger update_itinerary_fields_of(fragment@, o1, o2)]
            {
                &&& candidate_times_checked(*check, fragment@, o1, o2)
                &&& match r {
                    Ok(f) => update_itinerary_fields_of(fragment@, o1, o2) == Ok::<
                        (
                            Option<Seq<char>>,
                            Option<Seq<char>>,
                            Option<Seq<char>>,
                            Option<ItineraryCategory>,
                            Option<Seq<char>>,
                            Option<i64>,
                            Option<i64>,
                        ),
                        Seq<char>,
                    >(update_fields_view(f)),
                    Err(e) => update_itinerary_fields_of(fragment@, o1, o2) == Err::<
                        (
                            Option<Seq<char>>,
                            Option<Seq<char>>,
                            Option<Seq<char>>,
                            Option<ItineraryCategory>,
                            Option<Seq<char>>,
                            Option<i64>,
                            Option<i64>,
                        ),
                        Seq<char>,
                    >(e@),
                }
            },
{
    let candidate = match get_member(fragment, "candidate_content") {
        Some(v) => match json_object(v) {
            Some(c) => c,
            None => {
                let r = Err(owned("candidate_content object が必要です"));
                assert(candidate_times_checked(*check, fragment@, Ok(()), Ok(())));
                assert(update_itinerary_fields_of(fragment@, Ok(()), Ok(())) is Err);
                return r;
            },
        },
        None => {
            let r = Err(owned("candidate_content object が必要です"));
            assert(candidate_times_checked(*check, fragment@, Ok(()), Ok(())));
            assert(update_itinerary_fields_of(fragment@, Ok(()), Ok(())) is Err);
            return r;
        },
    };
    let title = if crate::json::contains_key(candidate, "title") {
        match non_empty_string(get_member(candidate, "title")) {
            Some(t) => Some(t),
            None => {
                assert(candidate_times_checked(*check, fragment@, Ok(()), Ok(())));
                assert(update_itinerary_fields_of(fragment@, Ok(()), Ok(())) is Err);
                return Err(owned("candidate_content.title が必要です"));
            },
        }
    } else {
        None
    };
    let note = match patch_optional_string_field(candidate, "note") {
        Ok(x) => x,
        Err(e) => {
            assert(candidate_times_checked(*check, fragment@, Ok(()), Ok(())));
            assert(update_itinerary_fields_of(fragment@, Ok(()), Ok(())) is Err);
            return Err(e);
        },
    };
    let location = match patch_optional_string_field(candidate, "location") {
        Ok(x) => x,
        Err(e) => {
            assert(candidate_times_checked(*check, fragment@, Ok(()), Ok(())));
            assert(update_itinerary_fields_of(fragment@, Ok(()), Ok(())) is Err);
            return Err(e);
        },
    };
    let category = match patch_optional_category_field(candidate) {
        Ok(x) => x,
        Err(e) => {
            assert(candidate_times_checked(*check, fragment@, Ok(()), Ok(())));
            assert(update_itinerary_fields_of(fragment@, Ok(()), Ok(())) is Err);
            return Err(e);
        },
    };
    let start = parse_update_start_time_field(candidate, check);
    let ghost (o1, o2) = choose|o1: Result<(), String>, o2: Result<(), String>|
        #![trigger start_time_patch(candidate@, o1, o2)]
        start_time_checked(*check, candidate@, o1, o2) && text_patch_view(start) == start_time_patch(
            candidate@,
            o1,
            o2,
        );
    assert(candidate_times_checked(*check, fragment@, o1, o2));
    let start_time = match start {
        Ok(x) => x,
        Err(e) => {
            assert(update_itinerary_fields_of(fragment@, o1, o2) is Err);
            return Err(e);
        },
    };
    let duration_minutes = match parse_update_duration_minutes_field(candidate) {
        Ok(x) => x,
        Err(e) => {
            assert(update_itinerary_fields_of(fragment@, o1, o2) is Err);
            return Err(e);
        },
    };
    let travel_minutes = match parse_update_travel_minutes_field(candidate) {
        Ok(x) => x,
        Err(e) => {
            assert(update_itinerary_fields_of(fragment@, o1, o2) is Err);
            return Err(e);
        },
    };
    if title.is_none() && note.is_none() && location.is_none() && category.is_none() && start_time.is_none()
        && duration_minutes.is_none() && travel_minutes.is_none() {
        assert(update_itinerary_fields_of(fragment@, o1, o2) is Err);
        return Err(owned("update_itinerary には少なくとも 1 つの更新フィールドが必要です"));
    }
    let f = ParsedUpdateItineraryFields { title, note, location, category, start_time, duration_minutes, travel_minutes };
    assert(update_itinerary_fields_of(fragment@, o1, o2) is Ok);
    Ok(f)
}

// ---------------------------------------------------------------------------
// The preview of an update.

/// The target checks of an update: an unambiguous itinerary target within
/// the trip's dates. On success: its day and sort order.
pub open spec fn update_itinerary_target(
    export: TripExportV3,
    resolved: ResolvedApplyTarget,
    day_count: Result<i64, String>,
) -> Result<(i64, i64), Seq<char>> {
    if resolved.target_type@ != "itinerary"@ {
        Err("update_itinerary は itinerary target のみサポートしています（trip / day は未対応）"@)
    } else if resolved.resolution@ == "ambiguous"@ {
        Err("target が曖昧です — apply preview を続行しません"@)
    } else {
        match resolved.day_number {
            None => Err("update_itinerary の Itinerary target が解決されていません（day）"@),
            Some(d) => match resolved.itinerary_sort_order {
                None => Err("update_itinerary の Itinerary target が解決されていません（sort_order）"@),
                Some(so) => match day_range_check(export, d, day_count) {
                    Err(e) => Err(e),
                    Ok(_) => Ok((d, so)),
                },
            },
        }
    }
}

/// With the fields read: the itinerary found in the preview, its expected
/// values matching, and something actually changing. On success: where the
/// preview holds it.
pub open spec fn update_itinerary_outcome(
    export: TripExportV3,
    d: i64,
    so: i64,
    c: Seq<(String, JsonValue)>,
    f: ParsedUpdateItineraryFields,
) -> Result<(int, int), Seq<char>> {
    match first_day_index(export.days@, d) {
        None => Err(itinerary_not_found_message(d, so)),
        Some(k) => match first_item_index(export.days@[k].itineraries@, so) {
            None => Err(itinerary_not_found_message(d, so)),
            Some(j) => {
                let cur = export.days@[k].itineraries@[j];
                match baseline_check(c, itinerary_baselines(cur), 0) {
                    Err(e) => Err(e),
                    Ok(_) => if itinerary_changes(cur, f).len() == 0 {
                        Err(no_itinerary_update_message())
                    } else {
                        Ok((k, j))
                    },
                }
            },
        },
    }
}

/// The preview's itinerary (day `k`, position `j`) patched with the fields; nothing else changed.
pub open spec fn itinerary_patched(
    before: TripExportV3,
    after: TripExportV3,
    k: int,
    j: int,
    f: ParsedUpdateItineraryFields,
) -> bool {
    &&& same_except_days(after, before)
    &&& after.days@.len() == before.days@.len()
    &&& forall|i: int| 0 <= i < before.days@.len() && i != k ==> after.days@[i] == before.days@[i]
    &&& same_day_header(after.days@[k], before.days@[k])
    &&& after.days@[k].itineraries@.len() == before.days@[k].itineraries@.len()
    &&& forall|i: int|
        0 <= i < before.days@[k].itineraries@.len() && i != j ==> after.days@[k].itineraries@[i]
            == before.days@[k].itineraries@[i]
    &&& is_itinerary_patch(before.days@[k].itineraries@[j], f, after.days@[k].itineraries@[j])
}

/// An update preview with these field changes.
pub open spec fn is_update_summary(
    s: FragmentApplyPreviewSummary,
    intent: Seq<char>,
    itineraries_before: usize,
    candidate_title: Option<Seq<char>>,
    changes: Seq<ChangeView>,
) -> bool {
    &&& s.intent@ == intent
    &&& s.action@ == "update_itinerary"@
    &&& opt_view(s.candidate_title) == candidate_title
    &&& s.itineraries_before == itineraries_before
    &&& s.itineraries_after == itineraries_before
    &&& s.notes_before is None && s.notes_after is None
    &&& s.expenses_before is None && s.expenses_after is None && s.expense_preview is None
    &&& s.estimates_before is None && s.estimates_after is None && s.estimate_preview is None
    &&& s.estimate_update_preview is None && s.estimate_field_changes is None && s.estimate_delete_preview is None
    &&& s.reservations_before is None && s.reservations_after is None && s.reservation_preview is None
    &&& s.reorder_preview is None && s.move_preview is None && s.delete_preview is None
    &&& match s.itinerary_field_changes {
        Some(v) => itinerary_changes_view(v@) == changes,
        None => false,
    }
}

/// The warnings about the candidate's unsupported keys, once the candidate is an object.
pub open spec fn update_warnings(before: Seq<Seq<char>>, fragment: Seq<(String, JsonValue)>) -> Seq<Seq<char>> {
    match object_member(fragment, "candidate_content"@) {
        Some(c) => crate::proposal::materialize::append_unique(
            before,
            unsupported_key_lines(c, update_itinerary_keys(), "update_itinerary"@),
        ),
        None => before,
    }
}

/// What previewing an `update_itinerary` gives (see `apply_update_itinerary_preview`).
pub open spec fn update_itinerary_preview_outcome<F: Fn(&str) -> Result<(), String>>(
    old_export: TripExportV3,
    final_export: TripExportV3,
    old_report: FragmentApplyDryRunReport,
    final_report: FragmentApplyDryRunReport,
    r: Result<FragmentApplyPreviewSummary, String>,
    resolved: ResolvedApplyTarget,
    fragment: Seq<(String, JsonValue)>,
    intent: Seq<char>,
    itineraries_before: usize,
    day_count: Result<i64, String>,
    check: F,
) -> bool {
    &&& same_but_warnings(old_report, final_report)
    &&& match update_itinerary_target(old_export, resolved, day_count) {
        Err(e) => {
            &&& r is Err && r->Err_0@ == e
            &&& final_export == old_export
            &&& final_report.warnings == old_report.warnings
        },
        Ok((d, so)) => {
            &&& strings_view(final_report.warnings@) == update_warnings(
                strings_view(old_report.warnings@),
                fragment,
            )
            &&& exists|o1: Result<(), String>, o2: Result<(), String>|
                #![trigger update_itinerary_fields_of(fragment, o1, o2)]
                {
                    &&& candidate_times_checked(check, fragment, o1, o2)
                    &&& match update_itinerary_fields_of(fragment, o1, o2) {
                        Err(e) => r is Err && r->Err_0@ == e && final_export == old_export,
                        Ok(fv) => exists|f: ParsedUpdateItineraryFields|
                            #![trigger update_fields_view(f)]
                            {
                                let c = object_member(fragment, "candidate_content"@)->Some_0;
                                &&& update_fields_view(f) == fv
                                &&& match update_itinerary_outcome(old_export, d, so, c, f) {
                                    Err(e) => r is Err && r->Err_0@ == e && final_export == old_export,
                                    Ok((k, j)) => {
                                        let cur = old_export.days@[k].itineraries@[j];
                                        &&& r matches Ok(s) && is_update_summary(
                                            s,
                                            intent,
                                            itineraries_before,
                                            match f.title {
                                                Some(t) => Some(t@),
                                                None => opt_view(resolved.itinerary_title),
                                            },
                                            itinerary_changes(cur, f),
                                        )
                                        &&& itinerary_patched(old_export, final_export, k, j, f)
                                    },
                                }
                            },
                    }
                }
        },
    }
}

/// Previews updating an itinerary target's fields: the target checks
/// (`day_count`, the outcome of validating the trip's dates), the fields
/// read from the fragment (`check` decides whether a time text has the HH:MM
/// form; unsupported keys are warned about), the itinerary's expected values,
/// then the field changes and the patched itinerary in the preview.
pub fn apply_update_itinerary_preview<F: Fn(&str) -> Result<(), String>>(
    export: &mut TripExportV3,
    resolved: &ResolvedApplyTarget,
    fragment: &JsonMembers,
    intent: &str,
    itineraries_before: usize,
    day_count: Result<i64, String>,
    check: &F,
    report: &mut FragmentApplyDryRunReport,
) -> (r: Result<FragmentApplyPreviewSummary, String>)
    requires
        forall|s: &str| check.requires((s,)),
    ensures
        update_itinerary_preview_outcome(
            *old(export),
            *final(export),
            *old(report),
            *final(report),
            r,
            *resolved,
            fragment@,
            intent@,
            itineraries_before,
            day_count,
            *check,
        ),
{
    if !str_eq(resolved.target_type.as_str(), "itinerary") {
        return Err(owned("update_itinerary は itinerary target のみサポートしています（trip / day は未対応）"));
    }
    if str_eq(resolved.resolution.as_str(), "ambiguous") {
        return Err(owned("target が曖昧です — apply preview を続行しません"));
    }
    let day_number = match resolved.day_number {
        Some(d) => d,
        None => return Err(owned("update_itinerary の Itinerary target が解決されていません（day）")),
    };
    let sort_order = match resolved.itinerary_sort_order {
        Some(s) => s,
        None => return Err(owned("update_itinerary の Itinerary target が解決されていません（sort_order）")),
    };
    ensure_day_in_range(export, day_number, day_count)?;
    let candidate = match get_member(fragment, "candidate_content") {
        Some(v) => json_object(v),
        None => None,
    };
    match candidate {
        Some(c) => warn_unsupported_update_itinerary_candidate_keys(c, &mut report.warnings),
        None => {},
    }
    let parsed = parse_update_itinerary_fields(fragment, check);
    let ghost (o1, o2) = choose|o1: Result<(), String>, o2: Result<(), String>|
        #![trigger update_itinerary_fields_of(fragment@, o1, o2)]
        {
            &&& candidate_times_checked(*check, fragment@, o1, o2)
            &&& match parsed {
                Ok(f) => update_itinerary_fields_of(fragment@, o1, o2) == Ok::<
                    (
                        Option<Seq<char>>,
                        Option<Seq<char>>,
                        Option<Seq<char>>,
                        Option<ItineraryCategory>,
                        Option<Seq<char>>,
                        Option<i64>,
                        Option<i64>,
                    ),
                    Seq<char>,
                >(update_fields_view(f)),
                Err(e) => update_itinerary_fields_of(fragment@, o1, o2) == Err::<
                    (
                        Option<Seq<char>>,
                        Option<Seq<char>>,
                        Option<Seq<char>>,
                        Option<ItineraryCategory>,
                        Option<Seq<char>>,
                        Option<i64>,
                        Option<i64>,
                    ),
                    Seq<char>,
                >(e@),
            }
        };
    let fields = match parsed {
        Ok(f) => f,
        Err(e) => return Err(e),
    };
    let candidate = match candidate {
        Some(c) => c,
        None => return Err(owned("candidate_content object が必要です")),
    };
    let current = match lookup_itinerary_in_export(export, day_number, sort_order) {
        Some(it) => it,
        None => {
            let mut m = owned("preview 内に itinerary (day ");
            crate::text::push_i64_decimal(&mut m, day_number);
            push_str(&mut m, ", sort_order ");
            crate::text::push_i64_decimal(&mut m, sort_order);
            push_str(&mut m, ") が見つかりません");
            assert(update_fields_view(fields) == update_fields_view(fields));
            return Err(m);
        },
    };
    let ghost k = first_day_index(export.days@, day_number)->Some_0;
    let ghost j = first_item_index(export.days@[k].itineraries@, sort_order)->Some_0;
    match detect_update_itinerary_baseline_conflicts(candidate, current) {
        Ok(()) => {},
        Err(e) => {
            assert(update_fields_view(fields) == update_fields_view(fields));
            return Err(e);
        },
    }
    let changes = match build_update_itinerary_field_changes(current, &fields) {
        Ok(c) => c,
        Err(e) => {
            assert(update_fields_view(fields) == update_fields_view(fields));
            return Err(e);
        },
    };
    proof {
        crate::proposal::apply::lemma_day_index_from_bounds(export.days@, day_number, 0);
        crate::proposal::apply::lemma_item_index_from_bounds(export.days@[k].itineraries@, sort_order, 0);
    }
    let ghost before = *export;
    let kd = crate::proposal::apply::find_or_create_day(export, day_number);
    assert(kd == k);
    assert(export.days@ == before.days@);
    let mut day = export.days.remove(kd);
    let patched = match find_itinerary_mut_in_export_day(&mut day, sort_order) {
        Some(it) => {
            apply_update_itinerary_patch(it, &fields);
            true
        },
        None => false,
    };
    export.days.insert(kd, day);
    assert(patched);
    assert forall|i: int| 0 <= i < before.days@.len() && i != k implies export.days@[i] == before.days@[i] by {}
    let mut summary = crate::proposal::apply::empty_preview_summary(intent, "update_itinerary", itineraries_before);
    summary.candidate_title = match &fields.title {
        Some(t) => Some(owned(t.as_str())),
        None => opt_string_copy(&resolved.itinerary_title),
    };
    summary.itinerary_field_changes = Some(changes);
    assert(update_fields_view(fields) == update_fields_view(fields));
    Ok(summary)
}

// ---------------------------------------------------------------------------
// The fields of an addition.

/// A new itinerary's category, when given: one of the defined ones.
pub open spec fn add_category(c: Seq<(String, JsonValue)>) -> Result<Option<ItineraryCategory>, Seq<char>> {
    match non_empty_text(member(c, "category"@)) {
        None => Ok(None),
        Some(t) => match category_parse(t) {
            Ok(x) => Ok(Some(x)),
            Err(e) => Err("candidate_content.category が不正です: "@ + e),
        },
    }
}

/// A new itinerary's start time, when given: it must pass the check (which answered `o`).
pub open spec fn add_start_time(c: Seq<(String, JsonValue)>, o: Result<(), String>) -> Result<
    Option<Seq<char>>,
    Seq<char>,
> {
    match non_empty_text(member(c, "start_time"@)) {
        None => Ok(None),
        Some(t) => match o {
            Err(e) => Err(e@),
            Ok(_) => Ok(Some(t)),
        },
    }
}

/// The fields of an `add_itinerary` fragment: a title (required), the
/// fragment's notes, then location, category, start time, duration and travel
/// minutes from the candidate.
pub open spec fn add_itinerary_fields_of(fragment: Seq<(String, JsonValue)>, o: Result<(), String>) -> Result<
    (
        Seq<char>,
        Option<Seq<char>>,
        Option<Seq<char>>,
        Option<ItineraryCategory>,
        Option<Seq<char>>,
        Option<i64>,
        Option<i64>,
    ),
    Seq<char>,
> {
    match object_member(fragment, "candidate_content"@) {
        None => Err("candidate_content object が必要です"@),
        Some(c) => match non_empty_text(member(c, "title"@)) {
            None => Err("candidate_content.title が必要です"@),
            Some(title) => match add_category(c) {
                Err(e) => Err(e),
                Ok(category) => match add_start_time(c, o) {
                    Err(e) => Err(e),
                    Ok(start) => match optional_non_negative(member(c, "duration_minutes"@), "duration_minutes"@) {
                        Err(e) => Err(e),
                        Ok(duration) => match two_spellings(
                            c,
                            "travel_minutes"@,
                            "travel_time_minutes"@,
                            "travel_minutes と travel_time_minutes が矛盾しています"@,
                        ) {
                            Err(e) => Err(e),
                            Ok(travel) => Ok(
                                (
                                    title,
                                    non_empty_text(member(fragment, "notes"@)),
                                    non_empty_text(member(c, "location"@)),
                                    category,
                                    start,
                                    duration,
                                    travel,
                                ),
                            ),
                        },
                    },
                },
            },
        },
    }
}

pub open spec fn add_fields_view(f: ParsedAddItineraryFields) -> (
    Seq<char>,
    Option<Seq<char>>,
    Option<Seq<char>>,
    Option<ItineraryCategory>,
    Option<Seq<char>>,
    Option<i64>,
    Option<i64>,
) {
    (f.title@, opt_view(f.note), opt_view(f.location), f.category, opt_view(f.start_time), f.duration_minutes, f.travel_minutes)
}

/// Once title and category were accepted, the check was asked about the start time's text.
pub open spec fn add_time_checked<F: Fn(&str) -> Result<(), String>>(
    check: F,
    fragment: Seq<(String, JsonValue)>,
    o: Result<(), String>,
) -> bool {
    match object_member(fragment, "candidate_content"@) {
        Some(c) => (non_empty_text(member(c, "title"@)) is Some && add_category(c) is Ok) ==> (non_empty_text(
            member(c, "start_time"@),
        ) matches Some(t) ==> time_check_gives(check, t, o)),
        None => true,
    }
}

/// Reads the fields of an `add_itinerary` fragment; `check` decides whether
/// a time text has the HH:MM form.
pub fn parse_add_itinerary_fields<F: Fn(&str) -> Result<(), String>>(fragment: &JsonMembers, check: &F) -> (r:
    Result<ParsedAddItineraryFields, String>)
    requires
        forall|s: &str| check.requires((s,)),
    ensures
        exists|o: Result<(), String>|
            #![trigger add_itinerary_fields_of(fragment@, o)]
            {
                &&& add_time_checked(*check, fragment@, o)
                &&& match r {
                    Ok(f) => add_itinerary_fields_of(fragment@, o) == Ok::<
                        (
                            Seq<char>,
                            Option<Seq<char>>,
                            Option<Seq<char>>,
                            Option<ItineraryCategory>,
                            Option<Seq<char>>,
                            Option<i64>,
                            Option<i64>,
                        ),
                        Seq<char>,
                    >(add_fields_view(f)),
                    Err(e) => add_itinerary_fields_of(fragment@, o) == Err::<
                        (
                            Seq<char>,
                            Option<Seq<char>>,
                            Option<Seq<char>>,
                            Option<ItineraryCategory>,
                            Option<Seq<char>>,
                            Option<i64>,
                            Option<i64>,
                        ),
                        Seq<char>,
                    >(e@),
                }
            },
{
    let candidate = match get_member(fragment, "candidate_content") {
        Some(v) => json_object(v),
        None => None,
    };
    let candidate = match candidate {
        Some(c) => c,
        None => {
            assert(add_time_checked(*check, fragment@, Ok(())));
            assert(add_itinerary_fields_of(fragment@, Ok(())) is Err);
            return Err(owned("candidate_content object が必要です"));
        },
    };
    let title = match non_empty_string(get_member(candidate, "title")) {
        Some(t) => t,
        None => {
            assert(add_time_checked(*check, fragment@, Ok(())));
            assert(add_itinerary_fields_of(fragment@, Ok(())) is Err);
            return Err(owned("candidate_content.title が必要です"));
        },
    };
    let category = match non_empty_string(get_member(candidate, "category")) {
        None => None,
        Some(t) => match parse_itinerary_category(t.as_str()) {
            Ok(x) => Some(x),
            Err(e) => {
                let mut m = owned("candidate_content.category が不正です: ");
                push_str(&mut m, e.as_str());
                assert(add_time_checked(*check, fragment@, Ok(())));
                assert(add_itinerary_fields_of(fragment@, Ok(())) is Err);
                return Err(m);
            },
        },
    };
    let ghost mut o: Result<(), String> = Ok(());
    let start_time = match non_empty_string(get_member(candidate, "start_time")) {
        None => None,
        Some(t) => {
            let answer = check(t.as_str());
            proof {
                o = answer;
            }
            assert(time_check_gives(*check, t@, o));
            match answer {
                Ok(_) => Some(t),
                Err(e) => {
                    assert(add_time_checked(*check, fragment@, o));
                    assert(add_itinerary_fields_of(fragment@, o) is Err);
                    return Err(e);
                },
            }
        },
    };
    assert(add_time_checked(*check, fragment@, o));
    let duration_minutes = match parse_optional_non_negative_i64(get_member(candidate, "duration_minutes"), "duration_minutes") {
        Ok(x) => x,
        Err(e) => {
            assert(add_itinerary_fields_of(fragment@, o) is Err);
            return Err(e);
        },
    };
    let travel_minutes = match parse_travel_minutes_field(candidate) {
        Ok(x) => x,
        Err(e) => {
            assert(add_itinerary_fields_of(fragment@, o) is Err);
            return Err(e);
        },
    };
    let f = ParsedAddItineraryFields {
        title,
        note: non_empty_string(get_member(fragment, "notes")),
        location: non_empty_string(get_member(candidate, "location")),
        category,
        start_time,
        duration_minutes,
        travel_minutes,
    };
    assert(add_itinerary_fields_of(fragment@, o) is Ok);
    Ok(f)
}

} // verus!
