//! What `--confirm` of a move decides before it writes: the request read
//! from the report and the fragment, the plan worked out again against the
//! trip as it stands now and held to the preview, and the rows to update.
use vstd::prelude::*;

use crate::json::{get_member, json_document, json_object, JsonMembers, JsonValue};
use crate::text::result_view;
use crate::models::{ItineraryItem, Trip};
use crate::proposal::apply::checks::{move_plan_check, verify_move_plan_matches_preview, MoveItineraryComputedPlan};
use crate::proposal::apply::moving::{
    compute_move_itinerary_plan,
    days_hold_their_items,
    compute_move_prefix,
    move_slot_fits,
    slot_fits_check,
    is_move_plan,
    move_plan,
};
use crate::proposal::apply::reorder_confirm::document_fragment;
use crate::proposal::apply::{FragmentApplyDryRunReport, FragmentApplyItineraryMoveOrderChange, FragmentApplyPreviewSummary};
use crate::proposal::fragment::object_member;
use crate::text::{owned, push_str, str_eq};

verus! {

/// Which row update of a move.
#[derive(Clone, Copy, Debug, PartialEq, Eq, Structural)]
pub enum MoveItineraryUpdateKind {
    SourceSort,
    Moved,
    DestinationSort,
}

/// What a move's `--confirm` needs from the report and the fragment: a
/// preview with its move, an itinerary target with its day and sort order,
/// and the fragment's candidate.
pub open spec fn move_request(report: FragmentApplyDryRunReport, doc: Result<JsonValue, Seq<char>>) -> Result<
    (i64, i64, Seq<(String, JsonValue)>),
    Seq<char>,
> {
    match report.preview {
        None => Err("move_itinerary confirm には preview が必要です"@),
        Some(p) => if p.move_preview is None {
            Err("move_itinerary confirm には move_preview が必要です"@)
        } else {
            match report.resolved_target {
                None => Err("target が解決されていません"@),
                Some(t) => if t.target_type@ != "itinerary"@ {
                    Err("move_itinerary confirm は itinerary target のみサポートしています（現在: "@ + t.target_type@ + "）"@)
                } else {
                    match t.day_number {
                        None => Err("move_itinerary の Itinerary target が解決されていません（day）"@),
                        Some(d) => match t.itinerary_sort_order {
                            None => Err("move_itinerary の Itinerary target が解決されていません（sort_order）"@),
                            Some(so) => match document_fragment(doc) {
                                Err(e) => Err(e),
                                Ok(f) => match object_member(f, "candidate_content"@) {
                                    None => Err("candidate_content object が必要です"@),
                                    Some(c) => Ok((d, so, c)),
                                },
                            },
                        },
                    }
                },
            }
        },
    }
}

/// The rows of a day's order changes that move: every itinerary but the
/// moved one whose sort order changes, with its new sort order and its day.
pub open spec fn changed_rows(
    changes: Seq<FragmentApplyItineraryMoveOrderChange>,
    moved_id: i64,
    kind: MoveItineraryUpdateKind,
    day: i64,
) -> Seq<(MoveItineraryUpdateKind, i64, i64, i64)>
    decreases changes.len(),
{
    if changes.len() == 0 {
        Seq::empty()
    } else {
        let rest = changed_rows(changes.drop_last(), moved_id, kind, day);
        let c = changes.last();
        if c.itinerary_id != moved_id && c.before_sort_order != c.after_sort_order {
            rest.push((kind, c.itinerary_id, c.after_sort_order, day))
        } else {
            rest
        }
    }
}

/// The updates a move writes, in order: the source day's rows, the moved
/// itinerary itself (found on its old day), then the destination day's rows.
pub open spec fn move_updates(p: MoveItineraryComputedPlan) -> Seq<(MoveItineraryUpdateKind, i64, i64, i64)> {
    changed_rows(p.source_changes@, p.moved.id, MoveItineraryUpdateKind::SourceSort, p.from_day).push(
        (MoveItineraryUpdateKind::Moved, p.moved.id, p.moved_after_sort, p.from_day),
    ) + changed_rows(p.destination_changes@, p.moved.id, MoveItineraryUpdateKind::DestinationSort, p.to_day)
}

fn push_changed_rows(
    out: &mut Vec<(MoveItineraryUpdateKind, i64, i64, i64)>,
    changes: &Vec<FragmentApplyItineraryMoveOrderChange>,
    moved_id: i64,
    kind: MoveItineraryUpdateKind,
    day: i64,
)
    ensures
        final(out)@ == old(out)@ + changed_rows(changes@, moved_id, kind, day),
{
    let ghost start = out@;
    let mut i: usize = 0;
    while i < changes.len()
        invariant
            i <= changes@.len(),
            out@ == start + changed_rows(changes@.subrange(0, i as int), moved_id, kind, day),
        decreases changes@.len() - i,
    {
        proof {
            assert(changes@.subrange(0, i + 1).drop_last() =~= changes@.subrange(0, i as int));
        }
        let c = &changes[i];
        if c.itinerary_id != moved_id && c.before_sort_order != c.after_sort_order {
            out.push((kind, c.itinerary_id, c.after_sort_order, day));
        }
        i = i + 1;
        proof {
            let prev = changed_rows(changes@.subrange(0, i - 1), moved_id, kind, day);
            assert(start + prev.push((kind, c.itinerary_id, c.after_sort_order, day)) =~= (start + prev).push(
                (kind, c.itinerary_id, c.after_sort_order, day),
            ));
        }
    }
    assert(changes@.subrange(0, changes@.len() as int) =~= changes@);
}

/// The updates a move's plan writes (see `move_updates`).
pub fn move_confirm_updates(plan: &MoveItineraryComputedPlan) -> (r: Vec<(MoveItineraryUpdateKind, i64, i64, i64)>)
    ensures
        r@ == move_updates(*plan),
{
    let mut out: Vec<(MoveItineraryUpdateKind, i64, i64, i64)> = Vec::new();
    push_changed_rows(&mut out, &plan.source_changes, plan.moved.id, MoveItineraryUpdateKind::SourceSort, plan.from_day);
    out.push((MoveItineraryUpdateKind::Moved, plan.moved.id, plan.moved_after_sort, plan.from_day));
    push_changed_rows(
        &mut out,
        &plan.destination_changes,
        plan.moved.id,
        MoveItineraryUpdateKind::DestinationSort,
        plan.to_day,
    );
    assert(out@ =~= move_updates(*plan));
    out
}

/// What deciding a move's `--confirm` gives (see `move_confirm_writes`), from
/// the report, the fragment document and the trip as read now.
pub open spec fn move_confirm_outcome(
    report: FragmentApplyDryRunReport,
    doc: Result<JsonValue, Seq<char>>,
    day_ids: Seq<(i64, i64)>,
    trip: Result<Trip, String>,
    day_count: Result<i64, String>,
    trip_days: Seq<(i64, Vec<ItineraryItem>)>,
    r: Result<(MoveItineraryComputedPlan, Vec<(MoveItineraryUpdateKind, i64, i64, i64)>), String>,
) -> bool {
    match move_request(report, doc) {
        Err(e) => r is Err && r->Err_0@ == e,
        Ok((d, so, c)) => match move_plan(d, so, c, day_ids, trip, day_count, trip_days) {
            Err(e) => r is Err && r->Err_0@ == e,
            Ok(v) => match r {
                Ok((p, u)) => {
                    &&& is_move_plan(p, v)
                    &&& p.moved.day == p.from_day
                    &&& move_plan_check(p, report.preview->Some_0.move_preview->Some_0) == Ok::<(), Seq<char>>(())
                    &&& u@ == move_updates(p)
                },
                Err(e) => exists|p: MoveItineraryComputedPlan|
                    #![trigger is_move_plan(p, v)]
                    is_move_plan(p, v) && move_plan_check(p, report.preview->Some_0.move_preview->Some_0)
                        == Err::<(), Seq<char>>(e@),
            },
        },
    }
}

/// The move's new slot can be worked out without overflow for the request
/// read from the report and the fragment (or the request fails first).
pub open spec fn move_confirm_sorts_fit(
    report: FragmentApplyDryRunReport,
    doc: Result<JsonValue, Seq<char>>,
    day_ids: Seq<(i64, i64)>,
    trip: Result<Trip, String>,
    day_count: Result<i64, String>,
    trip_days: Seq<(i64, Vec<ItineraryItem>)>,
) -> bool {
    match move_request(report, doc) {
        Ok((d, so, c)) => move_slot_fits(d, so, c, day_ids, trip, day_count, trip_days),
        Err(_) => true,
    }
}

fn move_request_of<'a>(report: &FragmentApplyDryRunReport, parsed: &'a Result<JsonValue, String>) -> (r: Result<
    (i64, i64, &'a JsonMembers),
    String,
>)
    ensures
        match r {
            Ok((d, so, c)) => move_request(*report, result_view(*parsed)) == Ok::<
                (i64, i64, Seq<(String, JsonValue)>),
                Seq<char>,
            >((d, so, c@)),
            Err(e) => move_request(*report, result_view(*parsed)) == Err::<
                (i64, i64, Seq<(String, JsonValue)>),
                Seq<char>,
            >(e@),
        },
{
    let preview = match &report.preview {
        Some(p) => p,
        None => return Err(owned("move_itinerary confirm には preview が必要です")),
    };
    if preview.move_preview.is_none() {
        return Err(owned("move_itinerary confirm には move_preview が必要です"));
    }
    let target = match &report.resolved_target {
        Some(t) => t,
        None => return Err(owned("target が解決されていません")),
    };
    if !str_eq(target.target_type.as_str(), "itinerary") {
        let mut m = owned("move_itinerary confirm は itinerary target のみサポートしています（現在: ");
        push_str(&mut m, target.target_type.as_str());
        push_str(&mut m, "）");
        return Err(m);
    }
    let d = match target.day_number {
        Some(d) => d,
        None => return Err(owned("move_itinerary の Itinerary target が解決されていません（day）")),
    };
    let so = match target.itinerary_sort_order {
        Some(so) => so,
        None => return Err(owned("move_itinerary の Itinerary target が解決されていません（sort_order）")),
    };
    let root = match parsed {
        Ok(v) => v,
        Err(_) => return Err(owned("Fragment JSON の parse に失敗しました")),
    };
    let root_obj = match json_object(root) {
        Some(o) => o,
        None => return Err(owned("トップレベルが JSON object ではありません")),
    };
    let fragment = match get_member(root_obj, "fragment") {
        Some(v) => match json_object(v) {
            Some(f) => f,
            None => return Err(owned("fragment object が必要です")),
        },
        None => return Err(owned("fragment object が必要です")),
    };
    let candidate = match get_member(fragment, "candidate_content") {
        Some(v) => match json_object(v) {
            Some(c) => c,
            None => return Err(owned("candidate_content object が必要です")),
        },
        None => return Err(owned("candidate_content object が必要です")),
    };
    Ok((d, so, candidate))
}

/// Decides what a move's `--confirm` writes: the request from the report
/// and the fragment text, the plan worked out again against the trip as read
/// now (`day_ids`, `trip`, `day_count`, `trip_days`, as for
/// `compute_move_itinerary_plan`), held to the preview's move, and its
/// updates. The moved itinerary is one of its source day's.
pub fn move_confirm_writes(
    report: &FragmentApplyDryRunReport,
    json: &str,
    day_ids: &Vec<(i64, i64)>,
    trip: &Result<Trip, String>,
    day_count: &Result<i64, String>,
    trip_days: &Vec<(i64, Vec<ItineraryItem>)>,
) -> (r: Result<(MoveItineraryComputedPlan, Vec<(MoveItineraryUpdateKind, i64, i64, i64)>), String>)
    requires
        days_hold_their_items(trip_days@),
        move_confirm_sorts_fit(*report, json_document(json@), day_ids@, *trip, *day_count, trip_days@),
    ensures
        move_confirm_outcome(*report, json_document(json@), day_ids@, *trip, *day_count, trip_days@, r),
{
    let parsed = crate::json::parse_json(json);
    let (d, so, candidate) = match move_request_of(report, &parsed) {
        Ok(x) => x,
        Err(e) => return Err(e),
    };
    let move_preview = match &report.preview {
        Some(p) => match &p.move_preview {
            Some(m) => m,
            None => return Err(owned("move_itinerary confirm には move_preview が必要です")),
        },
        None => return Err(owned("move_itinerary confirm には preview が必要です")),
    };
    let plan = match compute_move_itinerary_plan(d, so, candidate, day_ids, trip, day_count, trip_days) {
        Ok(p) => p,
        Err(e) => return Err(e),
    };
    match verify_move_plan_matches_preview(&plan, move_preview) {
        Ok(()) => {},
        Err(e) => return Err(e),
    }
    let updates = move_confirm_updates(&plan);
    Ok((plan, updates))
}

/// `move_confirm_writes` where the move's new slot can be worked out within
/// `i64`; `None` where it cannot (the one case in which working it out would
/// overflow).
pub fn move_confirm_writes_checked(
    report: &FragmentApplyDryRunReport,
    json: &str,
    day_ids: &Vec<(i64, i64)>,
    trip: &Result<Trip, String>,
    day_count: &Result<i64, String>,
    trip_days: &Vec<(i64, Vec<ItineraryItem>)>,
) -> (r: Option<Result<(MoveItineraryComputedPlan, Vec<(MoveItineraryUpdateKind, i64, i64, i64)>), String>>)
    requires
        days_hold_their_items(trip_days@),
    ensures
        r is None <==> !move_confirm_sorts_fit(*report, json_document(json@), day_ids@, *trip, *day_count, trip_days@),
        r matches Some(x) ==> move_confirm_outcome(
            *report,
            json_document(json@),
            day_ids@,
            *trip,
            *day_count,
            trip_days@,
            x,
        ),
{
    let parsed = crate::json::parse_json(json);
    if let Ok((d, so, candidate)) = move_request_of(report, &parsed) {
        if let Ok((_, _, _, _, _, _, _, prev, next)) = compute_move_prefix(d, so, candidate, day_ids, trip, day_count, trip_days) {
            if !slot_fits_check(prev, next) {
                return None;
            }
        }
    }
    Some(move_confirm_writes(report, json, day_ids, trip, day_count, trip_days))
}

proof fn lemma_same_views_no_mismatch(
    a: Seq<FragmentApplyItineraryMoveOrderChange>,
    b: Seq<FragmentApplyItineraryMoveOrderChange>,
    i: int,
)
    requires
        crate::proposal::apply::moving::move_changes_view(a) == crate::proposal::apply::moving::move_changes_view(b),
    ensures
        crate::proposal::apply::checks::first_change_mismatch(a, b, i) is None,
    decreases a.len() - i,
{
    if 0 <= i < a.len() && i < b.len() {
        assert(crate::proposal::apply::moving::move_changes_view(a)[i] == crate::proposal::apply::moving::move_changes_view(
            b,
        )[i]);
        lemma_same_views_no_mismatch(a, b, i + 1);
    }
}

/// The move a preview shows is the one `--confirm` writes: a plan worked out
/// again from the same inputs (the same plan value `v`) passes the check
/// against the preview's move.
pub proof fn lemma_move_preview_passes_gate(
    s: FragmentApplyPreviewSummary,
    intent: Seq<char>,
    itineraries_before: usize,
    candidate_title: Option<Seq<char>>,
    v: (i64, i64, i64, ItineraryItem, i64, Seq<(i64, Seq<char>, i64)>, Seq<i64>, Seq<(i64, Seq<char>, i64)>, int),
    p: MoveItineraryComputedPlan,
)
    requires
        crate::proposal::apply::moving::is_move_summary(s, intent, itineraries_before, candidate_title, v),
        is_move_plan(p, v),
    ensures
        s.move_preview matches Some(m) && move_plan_check(p, m) == Ok::<(), Seq<char>>(()),
{
    let m = s.move_preview->Some_0;
    lemma_same_views_no_mismatch(p.source_changes@, m.source_order_changes@, 0);
    lemma_same_views_no_mismatch(p.destination_changes@, m.destination_order_changes@, 0);
    assert(crate::proposal::apply::moving::move_changes_view(p.source_changes@).len() == p.source_changes@.len());
    assert(crate::proposal::apply::moving::move_changes_view(m.source_order_changes@).len()
        == m.source_order_changes@.len());
    assert(crate::proposal::apply::moving::move_changes_view(p.destination_changes@).len()
        == p.destination_changes@.len());
    assert(crate::proposal::apply::moving::move_changes_view(m.destination_order_changes@).len()
        == m.destination_order_changes@.len());
}

} // verus!
