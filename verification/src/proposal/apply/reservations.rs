//! The fields of an `add_reservation` fragment and its preview. Validating a
//! reservation type and a provider name is the caller's: the checks are
//! passed in, and what is stated holds whatever they answer.
use vstd::prelude::*;

use crate::json::{get_member, json_object, member, non_empty_string, non_empty_text, JsonMembers, JsonValue};
use crate::models::{ExportReservationV3, TripExportV3};
use crate::proposal::apply::additions::{
    candidate_warnings, child_target_check, day_ensured, itinerary_replaced, same_itinerary_fields,
};
use crate::proposal::apply::checks::same_but_warnings;
use crate::proposal::apply::fields::{candidate_members, first_non_empty_of_three, first_of_three, warn_unsupported_candidate_keys};
use crate::proposal::apply::{
    build_export_reservation_from_add_fields, count_reservations, days_total, find_itinerary_mut_in_export_day,
    find_or_create_day, first_day_index, first_item_index, itinerary_not_found_message, items_total,
    same_except_days, FragmentApplyDryRunReport, FragmentApplyPreviewSummary, ItineraryPart, ParsedAddReservationFields,
    ResolvedApplyTarget,
};
use crate::proposal::fragment::object_member;
use crate::text::{opt_view, owned, push_str, strings_view};

verus! {

/// The candidate keys an `add_reservation` reads.
pub open spec fn reservation_keys() -> Seq<&'static str> {
    seq![
        "reservation_type",
        "type",
        "provider",
        "provider_name",
        "confirmation",
        "confirmation_code",
        "site_url",
        "reservation_site_url",
        "remark",
        "note",
        "memo",
        "start_at",
        "end_at",
    ]
}

/// Warnings for `add_reservation` candidate keys that adding a reservation does not use.
pub fn warn_unsupported_add_reservation_candidate_keys(candidate: &JsonMembers, warnings: &mut Vec<String>)
    ensures
        strings_view(final(warnings)@) == crate::proposal::materialize::append_unique(
            strings_view(old(warnings)@),
            crate::proposal::apply::fields::unsupported_key_lines(candidate@, reservation_keys(), "add_reservation"@),
        ),
{
    let supported: [&'static str; 13] = [
        "reservation_type",
        "type",
        "provider",
        "provider_name",
        "confirmation",
        "confirmation_code",
        "site_url",
        "reservation_site_url",
        "remark",
        "note",
        "memo",
        "start_at",
        "end_at",
    ];
    assert(supported@ =~= reservation_keys());
    warn_unsupported_candidate_keys(candidate, &supported, "add_reservation", warnings);
}

/// Whether a check may answer `out` for a text `t`.
pub open spec fn validated_by<V: Fn(&str) -> Result<String, String>>(
    check: V,
    t: Seq<char>,
    out: Result<String, String>,
) -> bool {
    exists|s: &str| s@ == t && check.ensures((s,), out)
}

/// The reservation type text of a candidate.
pub open spec fn reservation_type_text(c: Seq<(String, JsonValue)>) -> Option<Seq<char>> {
    first_of_three(c, "reservation_type"@, "type"@, None)
}

/// The provider text of a candidate.
pub open spec fn provider_text(c: Seq<(String, JsonValue)>) -> Option<Seq<char>> {
    first_of_three(c, "provider"@, "provider_name"@, None)
}

pub type ReservationView = (
    Seq<char>,
    Seq<char>,
    Option<Seq<char>>,
    Option<Seq<char>>,
    Option<Seq<char>>,
    Option<Seq<char>>,
    Option<Seq<char>>,
);

pub open spec fn reservation_view(x: ParsedAddReservationFields) -> ReservationView {
    (
        x.reservation_type@,
        x.provider_name@,
        opt_view(x.confirmation_code),
        opt_view(x.reservation_site_url),
        opt_view(x.remark),
        opt_view(x.start_at),
        opt_view(x.end_at),
    )
}

/// The reservation's fields, read from the candidate, given what the type
/// check answered (`vt`) and what the provider check answered (`vp`).
pub open spec fn add_reservation_fields(
    f: Seq<(String, JsonValue)>,
    vt: Result<String, String>,
    vp: Result<String, String>,
) -> Result<ReservationView, Seq<char>> {
    match object_member(f, "candidate_content"@) {
        None => Err("candidate_content object が必要です"@),
        Some(c) => match reservation_type_text(c) {
            None => Err("candidate_content.reservation_type が必要です"@),
            Some(_) => match vt {
                Err(e) => Err("candidate_content.reservation_type が不正です: "@ + e@),
                Ok(rt) => match provider_text(c) {
                    None => Err("candidate_content.provider が必要です"@),
                    Some(_) => match vp {
                        Err(e) => Err("candidate_content.provider が不正です: "@ + e@),
                        Ok(pn) => Ok(
                            (
                                rt@,
                                pn@,
                                first_of_three(c, "confirmation"@, "confirmation_code"@, None),
                                first_of_three(c, "site_url"@, "reservation_site_url"@, None),
                                first_of_three(c, "remark"@, "note"@, non_empty_text(member(c, "memo"@))),
                                non_empty_text(member(c, "start_at"@)),
                                non_empty_text(member(c, "end_at"@)),
                            ),
                        ),
                    },
                },
            },
        },
    }
}

/// The checks were asked about the texts the candidate gives, as far as the
/// reading got: the type's text first, the provider's once the type passed.
pub open spec fn reservation_checked<T: Fn(&str) -> Result<String, String>, P: Fn(&str) -> Result<String, String>>(
    f: Seq<(String, JsonValue)>,
    type_check: T,
    vt: Result<String, String>,
    provider_check: P,
    vp: Result<String, String>,
) -> bool {
    match object_member(f, "candidate_content"@) {
        None => true,
        Some(c) => match reservation_type_text(c) {
            None => true,
            Some(t) => {
                &&& validated_by(type_check, t, vt)
                &&& (vt is Ok && provider_text(c) is Some) ==> validated_by(
                    provider_check,
                    provider_text(c)->Some_0,
                    vp,
                )
            },
        },
    }
}

/// Reads the fields of an `add_reservation` candidate: a type (checked by
/// `type_check`) and a provider (checked by `provider_check`) are required;
/// the confirmation code, site, remark and times are optional.
pub fn parse_add_reservation_fields<T: Fn(&str) -> Result<String, String>, P: Fn(&str) -> Result<String, String>>(
    fragment: &JsonMembers,
    type_check: &T,
    provider_check: &P,
) -> (r: Result<ParsedAddReservationFields, String>)
    requires
        forall|s: &str| type_check.requires((s,)),
        forall|s: &str| provider_check.requires((s,)),
    ensures
        exists|vt: Result<String, String>, vp: Result<String, String>|
            #![trigger reservation_checked(fragment@, *type_check, vt, *provider_check, vp)]
            {
                &&& reservation_checked(fragment@, *type_check, vt, *provider_check, vp)
                &&& match r {
                    Ok(x) => add_reservation_fields(fragment@, vt, vp) == Ok::<ReservationView, Seq<char>>(
                        reservation_view(x),
                    ),
                    Err(e) => add_reservation_fields(fragment@, vt, vp) == Err::<ReservationView, Seq<char>>(e@),
                }
            },
{
    let ghost mut vt: Result<String, String> = vstd::pervasive::arbitrary();
    let ghost mut vp: Result<String, String> = vstd::pervasive::arbitrary();
    let candidate = match candidate_members(fragment) {
        Some(c) => c,
        None => {
            assert(reservation_checked(fragment@, *type_check, vt, *provider_check, vp));
            return Err(owned("candidate_content object が必要です"));
        },
    };
    let type_text = match first_non_empty_of_three(candidate, "reservation_type", "type", None) {
        Some(t) => t,
        None => {
            assert(reservation_checked(fragment@, *type_check, vt, *provider_check, vp));
            return Err(owned("candidate_content.reservation_type が必要です"));
        },
    };
    let checked_type = type_check(type_text.as_str());
    proof {
        vt = checked_type;
        assert(validated_by(*type_check, type_text@, vt));
    }
    let reservation_type = match checked_type {
        Ok(v) => v,
        Err(e) => {
            let mut m = owned("candidate_content.reservation_type が不正です: ");
            push_str(&mut m, e.as_str());
            assert(reservation_checked(fragment@, *type_check, vt, *provider_check, vp));
            return Err(m);
        },
    };
    let provider = match first_non_empty_of_three(candidate, "provider", "provider_name", None) {
        Some(t) => t,
        None => {
            assert(reservation_checked(fragment@, *type_check, vt, *provider_check, vp));
            return Err(owned("candidate_content.provider が必要です"));
        },
    };
    let checked_provider = provider_check(provider.as_str());
    proof {
        vp = checked_provider;
        assert(validated_by(*provider_check, provider@, vp));
    }
    assert(reservation_checked(fragment@, *type_check, vt, *provider_check, vp));
    let provider_name = match checked_provider {
        Ok(v) => v,
        Err(e) => {
            let mut m = owned("candidate_content.provider が不正です: ");
            push_str(&mut m, e.as_str());
            return Err(m);
        },
    };
    let confirmation_code = first_non_empty_of_three(candidate, "confirmation", "confirmation_code", None);
    let reservation_site_url = first_non_empty_of_three(candidate, "site_url", "reservation_site_url", None);
    let remark = first_non_empty_of_three(candidate, "remark", "note", non_empty_string(get_member(candidate, "memo")));
    let start_at = non_empty_string(get_member(candidate, "start_at"));
    let end_at = non_empty_string(get_member(candidate, "end_at"));
    Ok(ParsedAddReservationFields {
        reservation_type,
        provider_name,
        confirmation_code,
        reservation_site_url,
        remark,
        start_at,
        end_at,
    })
}

/// A reservation made from the fields of an addition.
pub open spec fn is_added_reservation(x: ExportReservationV3, v: ReservationView) -> bool {
    &&& x.reservation_type@ == v.0 && x.provider_name@ == v.1
    &&& opt_view(x.confirmation_code) == v.2 && opt_view(x.reservation_site_url) == v.3
    &&& opt_view(x.remark) == v.4 && opt_view(x.start_at) == v.5 && opt_view(x.end_at) == v.6
}

/// `after` is `before` with one reservation appended, made from `v`.
pub open spec fn reservation_appended(
    before: crate::models::ExportItineraryV3,
    after: crate::models::ExportItineraryV3,
    v: ReservationView,
) -> bool {
    &&& same_itinerary_fields(after, before)
    &&& after.expenses == before.expenses && after.estimates == before.estimates
    &&& after.reservations@.len() == before.reservations@.len() + 1
    &&& after.reservations@.drop_last() == before.reservations@
    &&& is_added_reservation(after.reservations@.last(), v)
}

/// The summary's optional parts, but those of a reservation, are absent.
pub open spec fn only_reservation_details(s: FragmentApplyPreviewSummary) -> bool {
    &&& s.notes_before is None && s.notes_after is None
    &&& s.expenses_before is None && s.expenses_after is None && s.expense_preview is None
    &&& s.estimates_before is None && s.estimates_after is None && s.estimate_preview is None
    &&& s.estimate_update_preview is None && s.estimate_field_changes is None
    &&& s.estimate_delete_preview is None
    &&& s.itinerary_field_changes is None && s.reorder_preview is None
    &&& s.move_preview is None && s.delete_preview is None
}

proof fn lemma_items_total_update(
    items: Seq<crate::models::ExportItineraryV3>,
    j: int,
    it: crate::models::ExportItineraryV3,
    part: ItineraryPart,
)
    requires
        0 <= j < items.len(),
    ensures
        items_total(items.update(j, it), part) + crate::proposal::apply::part_count(items[j], part) == items_total(
            items,
            part,
        ) + crate::proposal::apply::part_count(it, part),
    decreases items.len(),
{
    let u = items.update(j, it);
    if j == items.len() - 1 {
        assert(u.drop_last() =~= items.drop_last());
    } else {
        lemma_items_total_update(items.drop_last(), j, it, part);
        assert(u.drop_last() =~= items.drop_last().update(j, it));
    }
}

/// What previewing an `add_reservation` gives (see `simulate_add_reservation_preview`).
pub open spec fn add_reservation_outcome<T: Fn(&str) -> Result<String, String>, P: Fn(&str) -> Result<String, String>>(
    old_export: TripExportV3,
    final_export: TripExportV3,
    old_report: FragmentApplyDryRunReport,
    final_report: FragmentApplyDryRunReport,
    r: Result<FragmentApplyPreviewSummary, String>,
    resolved: ResolvedApplyTarget,
    fragment: Seq<(String, JsonValue)>,
    intent: Seq<char>,
    itineraries_before: usize,
    reservations_before: usize,
    day_count: Result<i64, String>,
    type_check: T,
    provider_check: P,
) -> bool {
    &&& same_but_warnings(old_report, final_report)
    &&& match child_target_check(old_export, resolved, day_count, "add_reservation"@) {
        Err(e) => {
            &&& r is Err && r->Err_0@ == e
            &&& final_export == old_export && final_report.warnings == old_report.warnings
        },
        Ok((d, so)) => {
            &&& strings_view(final_report.warnings@) == candidate_warnings(
                strings_view(old_report.warnings@),
                fragment,
                reservation_keys(),
                "add_reservation"@,
            )
            &&& exists|vt: Result<String, String>, vp: Result<String, String>|
                #![trigger reservation_checked(fragment, type_check, vt, provider_check, vp)]
                {
                    &&& reservation_checked(fragment, type_check, vt, provider_check, vp)
                    &&& match add_reservation_fields(fragment, vt, vp) {
                        Err(e) => r is Err && r->Err_0@ == e && final_export == old_export,
                        Ok(v) => match first_day_index(old_export.days@, d) {
                            None => {
                                &&& r is Err && r->Err_0@ == itinerary_not_found_message(d, so)
                                &&& same_except_days(final_export, old_export)
                                &&& day_ensured(old_export.days@, final_export.days@, d)
                            },
                            Some(k) => match first_item_index(old_export.days@[k].itineraries@, so) {
                                None => {
                                    &&& r is Err && r->Err_0@ == itinerary_not_found_message(d, so)
                                    &&& same_except_days(final_export, old_export)
                                    &&& final_export.days@ == old_export.days@
                                },
                                Some(j) => {
                                    &&& same_except_days(final_export, old_export)
                                    &&& itinerary_replaced(old_export.days@, final_export.days@, k, j)
                                    &&& reservation_appended(
                                        old_export.days@[k].itineraries@[j],
                                        final_export.days@[k].itineraries@[j],
                                        v,
                                    )
                                    &&& r matches Ok(s) && {
                                        &&& s.intent@ == intent
                                        &&& s.action@ == "add_reservation"@
                                        &&& opt_view(s.candidate_title) == Some(v.1)
                                        &&& s.itineraries_before == itineraries_before
                                        &&& s.itineraries_after == itineraries_before
                                        &&& s.reservations_before == Some(reservations_before)
                                        &&& s.reservations_after == Some(
                                            (days_total(old_export.days@, ItineraryPart::Reservations) + 1) as usize,
                                        )
                                        &&& s.reservation_preview matches Some(p) && {
                                            &&& p.reservation_type@ == v.0 && p.provider_name@ == v.1
                                            &&& opt_view(p.confirmation_code) == v.2
                                            &&& opt_view(p.reservation_site_url) == v.3
                                            &&& opt_view(p.remark) == v.4
                                            &&& opt_view(p.start_at) == v.5 && opt_view(p.end_at) == v.6
                                        }
                                        &&& only_reservation_details(s)
                                    }
                                },
                            },
                        },
                    }
                }
        },
    }
}

/// Previews adding a reservation to an itinerary target: the target checks
/// (`day_count`, the outcome of validating the trip's dates), the
/// reservation's fields read from the fragment (unsupported keys warned
/// about; `type_check` and `provider_check` validate the type and the
/// provider), then the reservation appended to the itinerary of the preview.
pub fn simulate_add_reservation_preview<T: Fn(&str) -> Result<String, String>, P: Fn(&str) -> Result<String, String>>(
    export: &mut TripExportV3,
    resolved: &ResolvedApplyTarget,
    fragment: &JsonMembers,
    intent: &str,
    itineraries_before: usize,
    reservations_before: usize,
    day_count: Result<i64, String>,
    type_check: &T,
    provider_check: &P,
    report: &mut FragmentApplyDryRunReport,
) -> (r: Result<FragmentApplyPreviewSummary, String>)
    requires
        forall|s: &str| type_check.requires((s,)),
        forall|s: &str| provider_check.requires((s,)),
        days_total(old(export).days@, ItineraryPart::Reservations) < usize::MAX,
    ensures
        add_reservation_outcome(
            *old(export),
            *final(export),
            *old(report),
            *final(report),
            r,
            *resolved,
            fragment@,
            intent@,
            itineraries_before,
            reservations_before,
            day_count,
            *type_check,
            *provider_check,
        ),
{
    let (d, so) = match crate::proposal::apply::additions::child_target(export, resolved, day_count, "add_reservation") {
        Ok(p) => p,
        Err(e) => return Err(e),
    };
    match get_member(fragment, "candidate_content") {
        Some(v) => match json_object(v) {
            Some(c) => warn_unsupported_add_reservation_candidate_keys(c, &mut report.warnings),
            None => {},
        },
        None => {},
    }
    let parsed = parse_add_reservation_fields(fragment, type_check, provider_check);
    let ghost (vt, vp) = choose|vt: Result<String, String>, vp: Result<String, String>|
        #![trigger reservation_checked(fragment@, *type_check, vt, *provider_check, vp)]
        {
            &&& reservation_checked(fragment@, *type_check, vt, *provider_check, vp)
            &&& match parsed {
                Ok(x) => add_reservation_fields(fragment@, vt, vp) == Ok::<ReservationView, Seq<char>>(
                    reservation_view(x),
                ),
                Err(e) => add_reservation_fields(fragment@, vt, vp) == Err::<ReservationView, Seq<char>>(e@),
            }
        };
    let fields = match parsed {
        Ok(f) => f,
        Err(e) => return Err(e),
    };
    let ghost before = *export;
    proof {
        crate::proposal::apply::lemma_day_index_from_bounds(before.days@, d, 0);
    }
    let k = find_or_create_day(export, d);
    let ghost mid = export.days@;
    let mut day = export.days.remove(k);
    let ghost day0 = day;
    proof {
        crate::proposal::apply::lemma_item_index_from_bounds(day0.itineraries@, so, 0);
    }
    match find_itinerary_mut_in_export_day(&mut day, so) {
        Some(it) => {
            let x = build_export_reservation_from_add_fields(&fields);
            it.reservations.push(x);
        },
        None => {
            export.days.insert(k, day);
            proof {
                assert(export.days@ =~= mid);
                if first_day_index(before.days@, d) is None {
                    assert forall|i: int| 0 <= i < before.days@.len() implies export.days@[i] == before.days@[i] by {
                        assert(mid.subrange(0, k as int)[i] == mid[i]);
                    }
                }
            }
            return Err(crate::proposal::apply::additions::itinerary_missing_text(d, so));
        },
    }
    export.days.insert(k, day);
    let ghost j = first_item_index(day0.itineraries@, so)->Some_0;
    assert forall|i: int| 0 <= i < mid.len() && i != k implies export.days@[i] == mid[i] by {}
    proof {
        assert(export.days@ =~= mid.update(k as int, export.days@[k as int]));
        assert(export.days@[k as int].itineraries@ =~= day0.itineraries@.update(j, export.days@[k as int].itineraries@[j]));
        lemma_items_total_update(day0.itineraries@, j, export.days@[k as int].itineraries@[j], ItineraryPart::Reservations);
        crate::proposal::apply::previews::lemma_days_total_update(
            mid,
            k as int,
            export.days@[k as int],
            ItineraryPart::Reservations,
        );
        assert(export.days@[k as int].itineraries@[j].reservations@.drop_last() =~= day0.itineraries@[j].reservations@);
    }
    let reservations_after = count_reservations(export);
    let mut summary = crate::proposal::apply::empty_preview_summary(intent, "add_reservation", itineraries_before);
    summary.candidate_title = Some(owned(fields.provider_name.as_str()));
    summary.reservations_before = Some(reservations_before);
    summary.reservations_after = Some(reservations_after);
    summary.reservation_preview = Some(
        crate::proposal::apply::FragmentApplyReservationPreview {
            reservation_type: fields.reservation_type,
            provider_name: fields.provider_name,
            confirmation_code: fields.confirmation_code,
            reservation_site_url: fields.reservation_site_url,
            remark: fields.remark,
            start_at: fields.start_at,
            end_at: fields.end_at,
        },
    );
    Ok(summary)
}

} // verus!
