//! What `--confirm` of a reorder decides before it writes: the request read
//! from the report and the fragment, then, against the day as it stands now,
//! the same checks as the preview and the sort-order updates to make, each
//! held to the preview's changes.
use vstd::prelude::*;

use crate::json::{get_member, json_document, json_object, JsonValue};
use crate::models::{ItineraryItem, Trip};
use crate::proposal::apply::checks::dec;
use crate::proposal::apply::fields::ItineraryRefKey;
use crate::proposal::apply::order::{order_resolution, refs_view, resolve_reorder_order_in_day};
use crate::proposal::apply::reorder::{
    current_ids_in_sort_order, i64s_eq, ids_of, parse_reorder_lists, reorder_hint, reorder_lists, resolved_ids,
    same_members, sort_slots, sorted_slots,
};
use crate::proposal::apply::{FragmentApplyDryRunReport, FragmentApplyItineraryOrderChange};
use crate::text::{owned, push_str, str_eq};

verus! {

/// The fragment body of a document: its `fragment` object.
pub open spec fn document_fragment(doc: Result<JsonValue, Seq<char>>) -> Result<Seq<(String, JsonValue)>, Seq<char>> {
    match doc {
        Err(_) => Err("Fragment JSON の parse に失敗しました"@),
        Ok(root) => match crate::json::as_object(root) {
            None => Err("トップレベルが JSON object ではありません"@),
            Some(o) => match crate::proposal::fragment::object_member(o, "fragment"@) {
                None => Err("fragment object が必要です"@),
                Some(f) => Ok(f),
            },
        },
    }
}

/// What a reorder's `--confirm` needs from the report and the fragment: a
/// preview with its reorder, a day target with its day, and the fragment's
/// two order lists.
pub open spec fn reorder_request(report: FragmentApplyDryRunReport, doc: Result<JsonValue, Seq<char>>) -> Result<
    (i64, Seq<Result<i64, Seq<char>>>, Seq<Result<i64, Seq<char>>>),
    Seq<char>,
> {
    match report.preview {
        None => Err("reorder_itinerary confirm には preview が必要です"@),
        Some(p) => if p.reorder_preview is None {
            Err("reorder_itinerary confirm には reorder_preview が必要です"@)
        } else {
            match report.resolved_target {
                None => Err("target が解決されていません"@),
                Some(t) => if t.target_type@ != "day"@ {
                    Err("reorder_itinerary confirm は day target のみサポートしています（現在: "@ + t.target_type@ + "）"@)
                } else {
                    match t.day_number {
                        None => Err("reorder_itinerary の Day target が解決されていません"@),
                        Some(d) => match document_fragment(doc) {
                            Err(e) => Err(e),
                            Ok(f) => match reorder_lists(f) {
                                Err(e) => Err(e),
                                Ok((er, ar)) => Ok((d, er, ar)),
                            },
                        },
                    }
                },
            }
        },
    }
}

/// Reads what a reorder's `--confirm` needs from the report and the fragment
/// text: the day, and the expected and new order lists.
pub fn reorder_confirm_request(report: &FragmentApplyDryRunReport, json: &str) -> (r: Result<
    (i64, Vec<ItineraryRefKey>, Vec<ItineraryRefKey>),
    String,
>)
    ensures
        match r {
            Ok((d, e, a)) => reorder_request(*report, json_document(json@)) == Ok::<
                (i64, Seq<Result<i64, Seq<char>>>, Seq<Result<i64, Seq<char>>>),
                Seq<char>,
            >((d, refs_view(e@), refs_view(a@))),
            Err(e) => reorder_request(*report, json_document(json@)) == Err::<
                (i64, Seq<Result<i64, Seq<char>>>, Seq<Result<i64, Seq<char>>>),
                Seq<char>,
            >(e@),
        },
{
    let preview = match &report.preview {
        Some(p) => p,
        None => return Err(owned("reorder_itinerary confirm には preview が必要です")),
    };
    if preview.reorder_preview.is_none() {
        return Err(owned("reorder_itinerary confirm には reorder_preview が必要です"));
    }
    let target = match &report.resolved_target {
        Some(t) => t,
        None => return Err(owned("target が解決されていません")),
    };
    if !str_eq(target.target_type.as_str(), "day") {
        let mut m = owned("reorder_itinerary confirm は day target のみサポートしています（現在: ");
        push_str(&mut m, target.target_type.as_str());
        push_str(&mut m, "）");
        return Err(m);
    }
    let d = match target.day_number {
        Some(d) => d,
        None => return Err(owned("reorder_itinerary の Day target が解決されていません")),
    };
    let parsed = crate::json::parse_json(json);
    let root = match &parsed {
        Ok(v) => v,
        Err(_) => return Err(owned("Fragment JSON の parse に失敗しました")),
    };
    let root_obj = match json_object(root) {
        Some(o) => o,
        None => return Err(owned("トップレベルが JSON object ではありません")),
    };
    let fragment = match get_member(root_obj, "fragment") {
        Some(v) => match json_object(v) {
            Some(f) => f,
            None => return Err(owned("fragment object が必要です")),
        },
        None => return Err(owned("fragment object が必要です")),
    };
    match parse_reorder_lists(fragment) {
        Ok((e, a)) => Ok((d, e, a)),
        Err(e) => Err(e),
    }
}

/// The ids of records, in the order read.
pub open spec fn list_ids(items: Seq<ItineraryItem>) -> Seq<i64> {
    items.map_values(|it: ItineraryItem| it.id)
}

/// The last position below `n` where `x` stands in `s`.
pub open spec fn last_index_below(s: Seq<i64>, x: i64, n: int) -> Option<int>
    decreases n,
{
    if n <= 0 || n > s.len() {
        None
    } else if s[n - 1] == x {
        Some(n - 1)
    } else {
        last_index_below(s, x, n - 1)
    }
}

/// The slot the new order gives an itinerary: that of its last place in the order.
pub open spec fn new_sort_of(after_ids: Seq<i64>, slots: Seq<i64>, id: i64) -> Option<i64> {
    match last_index_below(after_ids, id, after_ids.len() as int) {
        Some(j) => Some(slots[j]),
        None => None,
    }
}

/// The first preview change, from position `i` on, that the new order does
/// not give: its itinerary is not in the order, or it gets another slot.
pub open spec fn first_unmatched_change(
    changes: Seq<FragmentApplyItineraryOrderChange>,
    after_ids: Seq<i64>,
    slots: Seq<i64>,
    i: int,
) -> Option<Seq<char>>
    decreases changes.len() - i,
{
    if i < 0 || i >= changes.len() {
        None
    } else {
        match new_sort_of(after_ids, slots, changes[i].itinerary_id) {
            None => Some(
                "TOCTOU mismatch: itinerary_id "@ + dec(changes[i].itinerary_id) + " が after_order に存在しません — DB 更新しません"@,
            ),
            Some(v) => if v != changes[i].after_sort_order {
                Some(
                    "TOCTOU mismatch: after_sort_order が gate preview と一致しません（itinerary_id "@ + dec(
                        changes[i].itinerary_id,
                    ) + "）— DB 更新しません"@,
                )
            } else {
                first_unmatched_change(changes, after_ids, slots, i + 1)
            },
        }
    }
}

/// The updates to make, in the order the records were read: each record the
/// new order moves to another slot, with that slot.
pub open spec fn planned_updates(items: Seq<ItineraryItem>, after_ids: Seq<i64>, slots: Seq<i64>) -> Seq<(i64, i64)>
    decreases items.len(),
{
    if items.len() == 0 {
        Seq::empty()
    } else {
        let rest = planned_updates(items.drop_last(), after_ids, slots);
        let it = items.last();
        match new_sort_of(after_ids, slots, it.id) {
            Some(v) => if v != it.sort_order {
                rest.push((it.id, v))
            } else {
                rest
            },
            None => rest,
        }
    }
}

pub open spec fn no_op_message() -> Seq<char> {
    "reorder_itinerary: no-op reorder は許可されません"@
}

/// What a reorder's `--confirm` writes, decided against the day as read now
/// (`day_items`), the trip as read now (`trip`) and the outcome of validating
/// its dates (`day_count`), and the other days (`others`): the same checks as
/// the preview (but the expected order is held to the records in the order
/// read), the preview's changes all matched, and at least one update.
pub open spec fn reorder_confirm_plan(
    d: i64,
    day_items: Result<Vec<ItineraryItem>, String>,
    trip: Result<Trip, String>,
    day_count: Result<i64, String>,
    others: Seq<(i64, Vec<ItineraryItem>)>,
    er: Seq<Result<i64, Seq<char>>>,
    ar: Seq<Result<i64, Seq<char>>>,
    changes: Seq<FragmentApplyItineraryOrderChange>,
) -> Result<Seq<(i64, i64)>, Seq<char>> {
    match day_items {
        Err(_) => Err("Day itinerary の取得に失敗しました"@),
        Ok(v) => if v@.len() == 0 {
            Err("reorder_itinerary: Day "@ + dec(d) + " に itinerary がありません"@)
        } else {
            match trip {
                Err(e) => Err(e@),
                Ok(t) => if t.start_date is None {
                    Err("trip.start_date が必要です"@)
                } else if t.end_date is None {
                    Err("trip.end_date が必要です"@)
                } else {
                    match day_count {
                        Err(_) => Err("trip date range の検証に失敗しました"@),
                        Ok(n) => match order_resolution(
                            v@,
                            er,
                            others,
                            d,
                            n,
                            "expected_order"@,
                            "reorder_itinerary"@,
                            reorder_hint(),
                        ) {
                            Err(e) => Err(e),
                            Ok(exp) => match order_resolution(
                                v@,
                                ar,
                                others,
                                d,
                                n,
                                "after_order"@,
                                "reorder_itinerary"@,
                                reorder_hint(),
                            ) {
                                Err(e) => Err(e),
                                Ok(aft) => {
                                    let ei = resolved_ids(exp);
                                    let ai = resolved_ids(aft);
                                    let slots = sort_slots(v@);
                                    if ei != list_ids(v@) {
                                        Err(
                                            "TOCTOU mismatch: expected_order が現行 Day の順序と一致しません（baseline mismatch）— DB 更新しません"@,
                                        )
                                    } else if !(forall|x: i64| ei.contains(x) <==> ai.contains(x)) {
                                        Err(
                                            "reorder_itinerary: after_order は expected_order と同じ itinerary 集合を含む必要があります"@,
                                        )
                                    } else if ei == ai {
                                        Err(no_op_message())
                                    } else if slots.len() != ai.len() {
                                        Err("reorder_itinerary: internal mismatch（slot length）"@)
                                    } else {
                                        match first_unmatched_change(changes, ai, slots, 0) {
                                            Some(m) => Err(m),
                                            None => if planned_updates(v@, ai, slots).len() == 0 {
                                                Err(no_op_message())
                                            } else {
                                                Ok(planned_updates(v@, ai, slots))
                                            },
                                        }
                                    }
                                },
                            },
                        },
                    }
                },
            }
        },
    }
}

fn last_index_of(s: &Vec<i64>, x: i64) -> (r: Option<usize>)
    ensures
        match r {
            Some(j) => last_index_below(s@, x, s@.len() as int) == Some(j as int) && j < s@.len(),
            None => last_index_below(s@, x, s@.len() as int) is None,
        },
{
    let mut n: usize = s.len();
    while n > 0
        invariant
            n <= s@.len(),
            last_index_below(s@, x, s@.len() as int) == last_index_below(s@, x, n as int),
        decreases n,
    {
        if s[n - 1] == x {
            return Some(n - 1);
        }
        n = n - 1;
    }
    None
}

fn ids_in_list_order(items: &Vec<ItineraryItem>) -> (r: Vec<i64>)
    ensures
        r@ == list_ids(items@),
{
    let mut out: Vec<i64> = Vec::new();
    let mut i: usize = 0;
    while i < items.len()
        invariant
            i <= items@.len(),
            out@ == list_ids(items@).subrange(0, i as int),
        decreases items@.len() - i,
    {
        out.push(items[i].id);
        i = i + 1;
        assert(out@ =~= list_ids(items@).subrange(0, i as int));
    }
    assert(out@ =~= list_ids(items@));
    out
}

/// Decides what a reorder's `--confirm` writes (see `reorder_confirm_plan`):
/// the sort-order updates, as (itinerary id, new sort order).
#[verifier::loop_isolation(false)]
pub fn reorder_confirm_updates(
    d: i64,
    day_items: Result<Vec<ItineraryItem>, String>,
    trip: Result<Trip, String>,
    day_count: Result<i64, String>,
    others: &Vec<(i64, Vec<ItineraryItem>)>,
    expected_refs: &Vec<ItineraryRefKey>,
    after_refs: &Vec<ItineraryRefKey>,
    changes: &Vec<FragmentApplyItineraryOrderChange>,
) -> (r: Result<Vec<(i64, i64)>, String>)
    ensures
        match r {
            Ok(u) => reorder_confirm_plan(
                d,
                day_items,
                trip,
                day_count,
                others@,
                refs_view(expected_refs@),
                refs_view(after_refs@),
                changes@,
            ) == Ok::<Seq<(i64, i64)>, Seq<char>>(u@),
            Err(e) => reorder_confirm_plan(
                d,
                day_items,
                trip,
                day_count,
                others@,
                refs_view(expected_refs@),
                refs_view(after_refs@),
                changes@,
            ) == Err::<Seq<(i64, i64)>, Seq<char>>(e@),
        },
{
    let items = match &day_items {
        Ok(v) => v,
        Err(_) => return Err(owned("Day itinerary の取得に失敗しました")),
    };
    if items.len() == 0 {
        let mut m = owned("reorder_itinerary: Day ");
        crate::text::push_i64_decimal(&mut m, d);
        push_str(&mut m, " に itinerary がありません");
        return Err(m);
    }
    let t = match &trip {
        Ok(t) => t,
        Err(e) => return Err(owned(e.as_str())),
    };
    if t.start_date.is_none() {
        return Err(owned("trip.start_date が必要です"));
    }
    if t.end_date.is_none() {
        return Err(owned("trip.end_date が必要です"));
    }
    let n = match day_count {
        Ok(n) => n,
        Err(_) => return Err(owned("trip date range の検証に失敗しました")),
    };
    let expected = match resolve_reorder_order_in_day(others, d, n, items, expected_refs, "expected_order") {
        Ok(v) => v,
        Err(e) => return Err(e),
    };
    let after = match resolve_reorder_order_in_day(others, d, n, items, after_refs, "after_order") {
        Ok(v) => v,
        Err(e) => return Err(e),
    };
    let expected_ids = ids_of(&expected);
    let after_ids = ids_of(&after);
    let current = ids_in_list_order(items);
    if !i64s_eq(&expected_ids, &current) {
        return Err(
            owned(
                "TOCTOU mismatch: expected_order が現行 Day の順序と一致しません（baseline mismatch）— DB 更新しません",
            ),
        );
    }
    if !same_members(&expected_ids, &after_ids) {
        return Err(owned("reorder_itinerary: after_order は expected_order と同じ itinerary 集合を含む必要があります"));
    }
    if i64s_eq(&expected_ids, &after_ids) {
        return Err(owned("reorder_itinerary: no-op reorder は許可されません"));
    }
    let slots = sorted_slots(items);
    if slots.len() != after_ids.len() {
        return Err(owned("reorder_itinerary: internal mismatch（slot length）"));
    }
    let mut i: usize = 0;
    while i < changes.len()
        invariant
            i <= changes@.len(),
            slots@.len() == after_ids@.len(),
            first_unmatched_change(changes@, after_ids@, slots@, 0) == first_unmatched_change(
                changes@,
                after_ids@,
                slots@,
                i as int,
            ),
        decreases changes@.len() - i,
    {
        let id = changes[i].itinerary_id;
        match last_index_of(&after_ids, id) {
            None => {
                let mut m = owned("TOCTOU mismatch: itinerary_id ");
                crate::text::push_i64_decimal(&mut m, id);
                push_str(&mut m, " が after_order に存在しません — DB 更新しません");
                return Err(m);
            },
            Some(j) => {
                if slots[j] != changes[i].after_sort_order {
                    let mut m = owned("TOCTOU mismatch: after_sort_order が gate preview と一致しません（itinerary_id ");
                    crate::text::push_i64_decimal(&mut m, id);
                    push_str(&mut m, "）— DB 更新しません");
                    return Err(m);
                }
            },
        }
        i = i + 1;
    }
    let mut updates: Vec<(i64, i64)> = Vec::new();
    let mut k: usize = 0;
    while k < items.len()
        invariant
            k <= items@.len(),
            slots@.len() == after_ids@.len(),
            updates@ == planned_updates(items@.subrange(0, k as int), after_ids@, slots@),
        decreases items@.len() - k,
    {
        let it = &items[k];
        proof {
            assert(items@.subrange(0, k + 1).drop_last() =~= items@.subrange(0, k as int));
        }
        match last_index_of(&after_ids, it.id) {
            Some(j) => {
                if slots[j] != it.sort_order {
                    updates.push((it.id, slots[j]));
                }
            },
            None => {},
        }
        k = k + 1;
    }
    assert(items@.subrange(0, items@.len() as int) =~= items@);
    if updates.len() == 0 {
        return Err(owned("reorder_itinerary: no-op reorder は許可されません"));
    }
    Ok(updates)
}

proof fn lemma_last_index_of_unique(s: Seq<i64>, i: int, n: int)
    requires
        0 <= i < n <= s.len(),
        forall|a: int, b: int| 0 <= a < b < s.len() ==> s[a] != s[b],
    ensures
        last_index_below(s, s[i], n) == Some(i),
    decreases n,
{
    if n - 1 != i {
        assert(s[n - 1] != s[i]);
        lemma_last_index_of_unique(s, i, n - 1);
    }
}

proof fn lemma_changes_match_from(
    changes: Seq<FragmentApplyItineraryOrderChange>,
    aft: Seq<(i64, Seq<char>, i64)>,
    slots: Seq<i64>,
    k: int,
)
    requires
        0 <= k,
        slots.len() == aft.len(),
        changes.len() == aft.len(),
        forall|a: int, b: int| 0 <= a < b < aft.len() ==> aft[a].0 != aft[b].0,
        forall|i: int|
            0 <= i < changes.len() ==> #[trigger] crate::proposal::apply::reorder::order_change_view(changes[i])
                == crate::proposal::apply::reorder::reorder_changes(aft, slots)[i],
    ensures
        first_unmatched_change(changes, resolved_ids(aft), slots, k) is None,
    decreases changes.len() - k,
{
    if k < changes.len() {
        let ai = resolved_ids(aft);
        assert(crate::proposal::apply::reorder::order_change_view(changes[k])
            == crate::proposal::apply::reorder::reorder_changes(aft, slots)[k]);
        assert forall|a: int, b: int| 0 <= a < b < ai.len() implies ai[a] != ai[b] by {
            assert(ai[a] == aft[a].0 && ai[b] == aft[b].0);
        }
        lemma_last_index_of_unique(ai, k, ai.len() as int);
        lemma_changes_match_from(changes, aft, slots, k + 1);
    }
}

/// The changes a reorder preview shows are the ones `--confirm` works out
/// again from the same day and lists: each names an itinerary of the new
/// order and the slot the new order gives it.
pub proof fn lemma_reorder_preview_changes_pass_gate(
    day_number: i64,
    day_count: i64,
    items: Seq<ItineraryItem>,
    er: Seq<Result<i64, Seq<char>>>,
    ar: Seq<Result<i64, Seq<char>>>,
    others: Seq<(i64, Vec<ItineraryItem>)>,
    aft: Seq<(i64, Seq<char>, i64)>,
    slots: Seq<i64>,
    changes: Seq<FragmentApplyItineraryOrderChange>,
)
    requires
        crate::proposal::apply::reorder::reorder_in_day(day_number, day_count, items, er, ar, others) == Ok::<
            (Seq<(i64, Seq<char>, i64)>, Seq<i64>),
            Seq<char>,
        >((aft, slots)),
        changes.len() == aft.len(),
        forall|i: int|
            0 <= i < changes.len() ==> #[trigger] crate::proposal::apply::reorder::order_change_view(changes[i])
                == crate::proposal::apply::reorder::reorder_changes(aft, slots)[i],
    ensures
        first_unmatched_change(changes, resolved_ids(aft), slots, 0) is None,
{
    assert(slots.len() == aft.len());
    lemma_changes_match_from(changes, aft, slots, 0);
}

} // verus!
