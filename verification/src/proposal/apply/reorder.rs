//! Reordering the itineraries of one day in the preview: the checks that the
//! fragment's expected order is the day's current order and that its new
//! order is a real permutation of it, and the sort orders each itinerary
//! takes (the day's existing sort-order slots, in the new order).
use vstd::prelude::*;

use crate::json::{get_member, json_object, member, JsonMembers, JsonValue};
use crate::models::{ExportDayV3, ExportItineraryV3, ItineraryItem, TripExportV3};
use crate::proposal::apply::checks::{dec, ResolvedDayItinerary};
use crate::proposal::apply::fields::{parse_reorder_order_refs, ref_view, reorder_refs, ItineraryRefKey};
use crate::proposal::apply::order::{order_resolution, refs_view, resolve_reorder_order_in_day, resolved_views};
use crate::proposal::apply::{
    day_out_of_range_message, ensure_day_in_range, first_day_index, rewritten_sort_orders, same_day_header, same_except_days,
    sorted_by_sort_order, FragmentApplyItineraryOrderChange, FragmentApplyPreviewSummary, FragmentApplyReorderPreview,
    ResolvedApplyTarget,
};
use crate::proposal::fragment::object_member;
use crate::text::{owned, push_str, str_eq};

verus! {

// ---------------------------------------------------------------------------
// Stable ordering of (key, value) pairs.

/// The position before the first pair whose key is above `key` (the end if none is).
pub open spec fn pair_first_above(sorted: Seq<(i64, i64)>, key: i64) -> int
    decreases sorted.len(),
{
    if sorted.len() == 0 {
        0
    } else if sorted[0].0 > key {
        0
    } else {
        1 + pair_first_above(sorted.drop_first(), key)
    }
}

/// The pairs ordered by key, pairs with equal keys keeping their order.
pub open spec fn sorted_pairs(s: Seq<(i64, i64)>) -> Seq<(i64, i64)>
    decreases s.len(),
{
    if s.len() == 0 {
        Seq::empty()
    } else {
        let rest = sorted_pairs(s.drop_last());
        rest.insert(pair_first_above(rest, s.last().0), s.last())
    }
}

proof fn lemma_pair_first_above_bound(sorted: Seq<(i64, i64)>, key: i64)
    ensures
        0 <= pair_first_above(sorted, key) <= sorted.len(),
    decreases sorted.len(),
{
    if sorted.len() > 0 && sorted[0].0 <= key {
        lemma_pair_first_above_bound(sorted.drop_first(), key);
    }
}

proof fn lemma_sorted_pairs_len(s: Seq<(i64, i64)>)
    ensures
        sorted_pairs(s).len() == s.len(),
    decreases s.len(),
{
    if s.len() > 0 {
        lemma_sorted_pairs_len(s.drop_last());
        lemma_pair_first_above_bound(sorted_pairs(s.drop_last()), s.last().0);
    }
}

fn pair_first_above_index(sorted: &Vec<(i64, i64)>, key: i64) -> (r: usize)
    ensures
        r == pair_first_above(sorted@, key),
{
    let mut i: usize = 0;
    proof {
        lemma_pair_first_above_bound(sorted@, key);
    }
    assert(sorted@.skip(0) =~= sorted@);
    while i < sorted.len()
        invariant
            i <= sorted@.len(),
            pair_first_above(sorted@, key) == i + pair_first_above(sorted@.skip(i as int), key),
        decreases sorted@.len() - i,
    {
        assert(sorted@.skip(i as int)[0] == sorted@[i as int]);
        if sorted[i].0 > key {
            return i;
        }
        assert(sorted@.skip(i as int).drop_first() =~= sorted@.skip(i + 1));
        i = i + 1;
    }
    assert(sorted@.skip(i as int) =~= Seq::<(i64, i64)>::empty());
    i
}

/// Sorts pairs by key, keeping the order of pairs with equal keys.
fn sort_pairs(items: Vec<(i64, i64)>) -> (r: Vec<(i64, i64)>)
    ensures
        r@ == sorted_pairs(items@),
{
    let ghost all = items@;
    let mut rest = items;
    let mut out: Vec<(i64, i64)> = Vec::new();
    let mut n: usize = 0;
    let total = rest.len();
    assert(all.subrange(0, 0) =~= Seq::<(i64, i64)>::empty());
    assert(rest@ =~= all.subrange(0, all.len() as int));
    while rest.len() > 0
        invariant
            all.len() == total,
            n + rest@.len() == all.len(),
            rest@ == all.subrange(n as int, all.len() as int),
            out@ == sorted_pairs(all.subrange(0, n as int)),
        decreases rest@.len(),
    {
        let x = rest.remove(0);
        assert(x == all[n as int]);
        assert(rest@ =~= all.subrange(n + 1, all.len() as int));
        let pos = pair_first_above_index(&out, x.0);
        proof {
            lemma_pair_first_above_bound(out@, x.0);
            let pre = all.subrange(0, n + 1);
            assert(pre.drop_last() =~= all.subrange(0, n as int));
            assert(pre.last() == x);
        }
        out.insert(pos, x);
        n = n + 1;
    }
    assert(all.subrange(0, n as int) =~= all);
    out
}

// ---------------------------------------------------------------------------
// The day's current order and its sort-order slots.

/// The sort order of the first item with this id at or after `i` (the largest
/// `i64` when there is none).
pub open spec fn first_sort_from(items: Seq<ItineraryItem>, id: i64, i: int) -> i64
    decreases items.len() - i,
{
    if i < 0 || i >= items.len() {
        i64::MAX
    } else if items[i].id == id {
        items[i].sort_order
    } else {
        first_sort_from(items, id, i + 1)
    }
}

pub open spec fn id_pairs(items: Seq<ItineraryItem>) -> Seq<(i64, i64)> {
    items.map_values(|it: ItineraryItem| (first_sort_from(items, it.id, 0), it.id))
}

/// The ids of the day's itineraries, ordered by sort order (ties keep their order).
pub open spec fn ids_in_sort_order(items: Seq<ItineraryItem>) -> Seq<i64> {
    sorted_pairs(id_pairs(items)).map_values(|p: (i64, i64)| p.1)
}

pub open spec fn slot_pairs(items: Seq<ItineraryItem>) -> Seq<(i64, i64)> {
    items.map_values(|it: ItineraryItem| (it.sort_order, it.sort_order))
}

/// The day's sort orders, ascending.
pub open spec fn sort_slots(items: Seq<ItineraryItem>) -> Seq<i64> {
    sorted_pairs(slot_pairs(items)).map_values(|p: (i64, i64)| p.0)
}

fn first_sort_of(items: &Vec<ItineraryItem>, id: i64) -> (r: i64)
    ensures
        r == first_sort_from(items@, id, 0),
{
    let mut i: usize = 0;
    while i < items.len()
        invariant
            i <= items@.len(),
            first_sort_from(items@, id, 0) == first_sort_from(items@, id, i as int),
        decreases items@.len() - i,
    {
        if items[i].id == id {
            return items[i].sort_order;
        }
        i = i + 1;
    }
    i64::MAX
}

/// The ids of the day's itineraries in their current order.
pub fn current_ids_in_sort_order(items: &Vec<ItineraryItem>) -> (r: Vec<i64>)
    ensures
        r@ == ids_in_sort_order(items@),
{
    let mut pairs: Vec<(i64, i64)> = Vec::new();
    let mut i: usize = 0;
    while i < items.len()
        invariant
            i <= items@.len(),
            pairs@ == id_pairs(items@).subrange(0, i as int),
        decreases items@.len() - i,
    {
        let key = first_sort_of(items, items[i].id);
        pairs.push((key, items[i].id));
        i = i + 1;
        assert(pairs@ =~= id_pairs(items@).subrange(0, i as int));
    }
    assert(pairs@ =~= id_pairs(items@));
    let sorted = sort_pairs(pairs);
    let mut out: Vec<i64> = Vec::new();
    let mut j: usize = 0;
    while j < sorted.len()
        invariant
            j <= sorted@.len(),
            out@ == sorted@.map_values(|p: (i64, i64)| p.1).subrange(0, j as int),
        decreases sorted@.len() - j,
    {
        out.push(sorted[j].1);
        j = j + 1;
        assert(out@ =~= sorted@.map_values(|p: (i64, i64)| p.1).subrange(0, j as int));
    }
    assert(out@ =~= sorted@.map_values(|p: (i64, i64)| p.1));
    out
}

/// The day's sort orders, ascending.
pub fn sorted_slots(items: &Vec<ItineraryItem>) -> (r: Vec<i64>)
    ensures
        r@ == sort_slots(items@),
{
    let mut pairs: Vec<(i64, i64)> = Vec::new();
    let mut i: usize = 0;
    while i < items.len()
        invariant
            i <= items@.len(),
            pairs@ == slot_pairs(items@).subrange(0, i as int),
        decreases items@.len() - i,
    {
        pairs.push((items[i].sort_order, items[i].sort_order));
        i = i + 1;
        assert(pairs@ =~= slot_pairs(items@).subrange(0, i as int));
    }
    assert(pairs@ =~= slot_pairs(items@));
    let sorted = sort_pairs(pairs);
    let mut out: Vec<i64> = Vec::new();
    let mut j: usize = 0;
    while j < sorted.len()
        invariant
            j <= sorted@.len(),
            out@ == sorted@.map_values(|p: (i64, i64)| p.0).subrange(0, j as int),
        decreases sorted@.len() - j,
    {
        out.push(sorted[j].0);
        j = j + 1;
        assert(out@ =~= sorted@.map_values(|p: (i64, i64)| p.0).subrange(0, j as int));
    }
    assert(out@ =~= sorted@.map_values(|p: (i64, i64)| p.0));
    out
}

// ---------------------------------------------------------------------------
// The checks of a reorder.

/// Why a day number cannot be used with the trip's dates, if it cannot.
/// `day_count` is the outcome of validating the trip's date range.
pub open spec fn day_range_check(export: TripExportV3, day_number: i64, day_count: Result<i64, String>) -> Result<
    (),
    Seq<char>,
> {
    if export.trip.start_date is None {
        Err("trip.start_date が必要です"@)
    } else if export.trip.end_date is None {
        Err("trip.end_date が必要です"@)
    } else {
        match day_count {
            Err(e) => Err(e@),
            Ok(n) => if day_number < 1 || day_number > n {
                Err(day_out_of_range_message(day_number, n))
            } else {
                Ok(())
            },
        }
    }
}

/// The number of days, when the trip's date range is valid.
pub open spec fn count_of(day_count: Result<i64, String>) -> i64 {
    match day_count {
        Ok(n) => n,
        Err(_) => 0,
    }
}

pub open spec fn reorder_hint() -> Seq<char> {
    "cross-day move は未対応です（別 intent として defer）。"@
}

/// The ids of resolved itineraries.
pub open spec fn resolved_ids(rs: Seq<(i64, Seq<char>, i64)>) -> Seq<i64> {
    rs.map_values(|x: (i64, Seq<char>, i64)| x.0)
}

/// The expected and new order lists of a reorder fragment, parsed.
pub open spec fn reorder_lists(fragment: Seq<(String, JsonValue)>) -> Result<
    (Seq<Result<i64, Seq<char>>>, Seq<Result<i64, Seq<char>>>),
    Seq<char>,
> {
    match object_member(fragment, "candidate_content"@) {
        None => Err("candidate_content object が必要です"@),
        Some(c) => match member(c, "expected_order"@) {
            None => Err("candidate_content.expected_order が必要です"@),
            Some(ev) => match member(c, "after_order"@) {
                None => Err("candidate_content.after_order が必要です"@),
                Some(av) => match reorder_refs(ev, "expected_order"@) {
                    Err(e) => Err(e),
                    Ok(er) => match reorder_refs(av, "after_order"@) {
                        Err(e) => Err(e),
                        Ok(ar) => if er.len() == 0 {
                            Err("candidate_content.expected_order は空にできません"@)
                        } else if ar.len() == 0 {
                            Err("candidate_content.after_order は空にできません"@)
                        } else {
                            Ok((er, ar))
                        },
                    },
                },
            },
        },
    }
}

/// The reorder checked against the day's itineraries: both lists name
/// itineraries of the day, the expected one is the day's current order, the
/// new one holds the same itineraries in another order. On success: the new
/// order, and the day's sort orders ascending (the slots they take).
pub open spec fn reorder_in_day(
    day_number: i64,
    day_count: i64,
    items: Seq<ItineraryItem>,
    er: Seq<Result<i64, Seq<char>>>,
    ar: Seq<Result<i64, Seq<char>>>,
    others: Seq<(i64, Vec<ItineraryItem>)>,
) -> Result<(Seq<(i64, Seq<char>, i64)>, Seq<i64>), Seq<char>> {
    if items.len() == 0 {
        Err("reorder_itinerary: Day "@ + dec(day_number) + " に itinerary がありません"@)
    } else {
        match order_resolution(
            items,
            er,
            others,
            day_number,
            day_count,
            "expected_order"@,
            "reorder_itinerary"@,
            reorder_hint(),
        ) {
            Err(e) => Err(e),
            Ok(exp) => match order_resolution(
                items,
                ar,
                others,
                day_number,
                day_count,
                "after_order"@,
                "reorder_itinerary"@,
                reorder_hint(),
            ) {
                Err(e) => Err(e),
                Ok(aft) => {
                    let ei = resolved_ids(exp);
                    let ai = resolved_ids(aft);
                    if ei != ids_in_sort_order(items) {
                        Err(
                            "reorder_itinerary: expected_order が現行 Day の順序と一致しません（baseline mismatch）— DB 更新しません"@,
                        )
                    } else if !(forall|x: i64| ei.contains(x) <==> ai.contains(x)) {
                        Err("reorder_itinerary: after_order は expected_order と同じ itinerary 集合を含む必要があります"@)
                    } else if ei == ai {
                        Err("reorder_itinerary: no-op reorder は許可されません"@)
                    } else if sort_slots(items).len() != ai.len() {
                        Err("reorder_itinerary: internal mismatch（slot length）"@)
                    } else {
                        Ok((aft, sort_slots(items)))
                    }
                },
            },
        }
    }
}

/// The whole reorder check: a day target within the trip, the fragment's two
/// lists, then the day's itineraries (`day_items`, as read from the database).
/// On success: the day number, its itineraries, the new order and the slots.
pub open spec fn reorder_plan(
    export: TripExportV3,
    resolved: ResolvedApplyTarget,
    fragment: Seq<(String, JsonValue)>,
    day_count: Result<i64, String>,
    day_items: Result<Vec<ItineraryItem>, String>,
    others: Seq<(i64, Vec<ItineraryItem>)>,
) -> Result<(i64, Seq<ItineraryItem>, Seq<(i64, Seq<char>, i64)>, Seq<i64>), Seq<char>> {
    if resolved.target_type@ != "day"@ {
        Err("reorder_itinerary は day target のみサポートしています（現在: "@ + resolved.target_type@ + "）"@)
    } else {
        match resolved.day_number {
            None => Err("reorder_itinerary の Day target が解決されていません"@),
            Some(d) => match day_range_check(export, d, day_count) {
                Err(e) => Err(e),
                Ok(_) => match reorder_lists(fragment) {
                    Err(e) => Err(e),
                    Ok((er, ar)) => match day_items {
                        Err(e) => Err(e@),
                        Ok(v) => match reorder_in_day(d, count_of(day_count), v@, er, ar, others) {
                            Err(e) => Err(e),
                            Ok((aft, slots)) => Ok((d, v@, aft, slots)),
                        },
                    },
                },
            },
        }
    }
}

// ---------------------------------------------------------------------------
// What a reorder changes.

/// The position of the first `x` in `s` at or after `i`.
pub open spec fn index_in(s: Seq<i64>, x: i64, i: int) -> Option<int>
    decreases s.len() - i,
{
    if i < 0 || i >= s.len() {
        None
    } else if s[i] == x {
        Some(i)
    } else {
        index_in(s, x, i + 1)
    }
}

/// The new sort order of each of the day's sort orders: the slot of the
/// itinerary that (last) holds it, at that itinerary's place in the new order.
pub open spec fn reorder_rewrites(items: Seq<ItineraryItem>, after_ids: Seq<i64>, slots: Seq<i64>, n: int) -> Map<
    i64,
    i64,
>
    decreases n,
{
    if n <= 0 {
        Map::empty()
    } else {
        let prev = reorder_rewrites(items, after_ids, slots, n - 1);
        match index_in(after_ids, items[n - 1].id, 0) {
            Some(p) => prev.insert(items[n - 1].sort_order, slots[p]),
            None => prev.remove(items[n - 1].sort_order),
        }
    }
}

/// The order change of each itinerary in the new order: it takes the slot at its position.
pub open spec fn reorder_changes(aft: Seq<(i64, Seq<char>, i64)>, slots: Seq<i64>) -> Seq<(i64, Seq<char>, i64, i64)> {
    Seq::new(aft.len(), |i: int| (aft[i].0, aft[i].1, aft[i].2, slots[i]))
}

pub open spec fn order_change_view(c: FragmentApplyItineraryOrderChange) -> (i64, Seq<char>, i64, i64) {
    (c.itinerary_id, c.title@, c.before_sort_order, c.after_sort_order)
}

/// The first day numbered `day_number`, if any, has its itineraries' sort
/// orders rewritten and is re-sorted; every other day is unchanged.
pub open spec fn days_with_rewritten_day(
    before: Seq<ExportDayV3>,
    after: Seq<ExportDayV3>,
    day_number: i64,
    rewrites: Map<i64, i64>,
) -> bool {
    match first_day_index(before, day_number) {
        None => after == before,
        Some(k) => {
            &&& after.len() == before.len()
            &&& forall|i: int| 0 <= i < before.len() && i != k ==> after[i] == before[i]
            &&& same_day_header(after[k], before[k])
            &&& after[k].itineraries@ == sorted_by_sort_order(rewritten_sort_orders(before[k].itineraries@, rewrites))
        },
    }
}

/// A reorder preview of `day_number` with these order changes, the itinerary
/// count unchanged and no other preview.
pub open spec fn is_reorder_summary(
    s: FragmentApplyPreviewSummary,
    intent: Seq<char>,
    itineraries_before: usize,
    day_number: i64,
    changes: Seq<(i64, Seq<char>, i64, i64)>,
) -> bool {
    &&& s.intent@ == intent
    &&& s.action@ == "reorder_itinerary"@
    &&& s.candidate_title is None
    &&& s.itineraries_before == itineraries_before
    &&& s.itineraries_after == itineraries_before
    &&& s.notes_before is None && s.notes_after is None
    &&& s.expenses_before is None && s.expenses_after is None && s.expense_preview is None
    &&& s.estimates_before is None && s.estimates_after is None && s.estimate_preview is None
    &&& s.estimate_update_preview is None && s.estimate_field_changes is None && s.estimate_delete_preview is None
    &&& s.reservations_before is None && s.reservations_after is None && s.reservation_preview is None
    &&& s.itinerary_field_changes is None && s.move_preview is None && s.delete_preview is None
    &&& match s.reorder_preview {
        Some(p) => p.day_number == day_number && p.itinerary_order_changes@.map_values(
            |c: FragmentApplyItineraryOrderChange| order_change_view(c),
        ) == changes,
        None => false,
    }
}

// ---------------------------------------------------------------------------
// Computing a reorder.

pub(crate) fn ids_of(rs: &Vec<ResolvedDayItinerary>) -> (r: Vec<i64>)
    ensures
        r@ == resolved_ids(resolved_views(rs@)),
{
    let mut out: Vec<i64> = Vec::new();
    let mut i: usize = 0;
    while i < rs.len()
        invariant
            i <= rs@.len(),
            out@ == resolved_ids(resolved_views(rs@)).subrange(0, i as int),
        decreases rs@.len() - i,
    {
        out.push(rs[i].id);
        i = i + 1;
        assert(out@ =~= resolved_ids(resolved_views(rs@)).subrange(0, i as int));
    }
    assert(out@ =~= resolved_ids(resolved_views(rs@)));
    out
}

pub(crate) fn i64s_eq(a: &Vec<i64>, b: &Vec<i64>) -> (r: bool)
    ensures
        r == (a@ == b@),
{
    if a.len() != b.len() {
        return false;
    }
    let mut i: usize = 0;
    while i < a.len()
        invariant
            a@.len() == b@.len(),
            i <= a@.len(),
            forall|j: int| 0 <= j < i ==> a@[j] == b@[j],
        decreases a@.len() - i,
    {
        if a[i] != b[i] {
            return false;
        }
        i = i + 1;
    }
    assert(a@ =~= b@);
    true
}

pub(crate) fn index_of_id(s: &Vec<i64>, x: i64) -> (r: Option<usize>)
    ensures
        match r {
            Some(p) => index_in(s@, x, 0) == Some(p as int) && p < s@.len(),
            None => index_in(s@, x, 0) is None,
        },
{
    let mut i: usize = 0;
    while i < s.len()
        invariant
            i <= s@.len(),
            index_in(s@, x, 0) == index_in(s@, x, i as int),
        decreases s@.len() - i,
    {
        if s[i] == x {
            return Some(i);
        }
        i = i + 1;
    }
    None
}

proof fn lemma_index_in_none(s: Seq<i64>, x: i64, i: int)
    requires
        0 <= i,
        index_in(s, x, i) is None,
    ensures
        forall|j: int| i <= j < s.len() ==> s[j] != x,
    decreases s.len() - i,
{
    if i < s.len() {
        lemma_index_in_none(s, x, i + 1);
    }
}

/// Whether `x` occurs in `s`.
pub(crate) fn contains_id(s: &Vec<i64>, x: i64) -> (r: bool)
    ensures
        r == s@.contains(x),
{
    let found = index_of_id(s, x);
    proof {
        match found {
            Some(p) => {
                assert(s@[p as int] == x) by {
                    lemma_index_in_found(s@, x, 0);
                }
            },
            None => {
                lemma_index_in_none(s@, x, 0);
            },
        }
    }
    found.is_some()
}

pub(crate) proof fn lemma_index_in_found(s: Seq<i64>, x: i64, i: int)
    requires
        0 <= i,
    ensures
        match index_in(s, x, i) {
            Some(p) => i <= p < s.len() && s[p] == x,
            None => true,
        },
    decreases s.len() - i,
{
    if i < s.len() && s[i] != x {
        lemma_index_in_found(s, x, i + 1);
    }
}

/// Whether the two lists hold the same ids.
pub(crate) fn same_members(a: &Vec<i64>, b: &Vec<i64>) -> (r: bool)
    ensures
        r == (forall|x: i64| a@.contains(x) <==> b@.contains(x)),
{
    let mut i: usize = 0;
    while i < a.len()
        invariant
            i <= a@.len(),
            forall|j: int| 0 <= j < i ==> b@.contains(#[trigger] a@[j]),
        decreases a@.len() - i,
    {
        if !contains_id(b, a[i]) {
            assert(a@.contains(a@[i as int]));
            return false;
        }
        i = i + 1;
    }
    let mut k: usize = 0;
    while k < b.len()
        invariant
            k <= b@.len(),
            forall|j: int| 0 <= j < a@.len() ==> b@.contains(#[trigger] a@[j]),
            forall|j: int| 0 <= j < k ==> a@.contains(#[trigger] b@[j]),
        decreases b@.len() - k,
    {
        if !contains_id(a, b[k]) {
            assert(b@.contains(b@[k as int]));
            return false;
        }
        k = k + 1;
    }
    true
}

/// The new sort order of each of the day's sort orders.
fn build_rewrites(items: &Vec<ItineraryItem>, after_ids: &Vec<i64>, slots: &Vec<i64>) -> (r:
    std::collections::HashMap<i64, i64>)
    requires
        slots@.len() == after_ids@.len(),
    ensures
        r@ == reorder_rewrites(items@, after_ids@, slots@, items@.len() as int),
{
    broadcast use vstd::std_specs::hash::group_hash_axioms;

    let mut m: std::collections::HashMap<i64, i64> = std::collections::HashMap::new();
    let mut i: usize = 0;
    assert(m@ =~= reorder_rewrites(items@, after_ids@, slots@, 0));
    while i < items.len()
        invariant
            i <= items@.len(),
            slots@.len() == after_ids@.len(),
            m@ == reorder_rewrites(items@, after_ids@, slots@, i as int),
        decreases items@.len() - i,
    {
        match index_of_id(after_ids, items[i].id) {
            Some(p) => {
                m.insert(items[i].sort_order, slots[p]);
            },
            None => {
                m.remove(&items[i].sort_order);
            },
        }
        i = i + 1;
        assert(m@ =~= reorder_rewrites(items@, after_ids@, slots@, i as int));
    }
    m
}

/// The order changes: each itinerary of the new order takes the slot at its position.
fn build_order_changes(aft: &Vec<ResolvedDayItinerary>, slots: &Vec<i64>) -> (r: Vec<FragmentApplyItineraryOrderChange>)
    requires
        slots@.len() == aft@.len(),
    ensures
        r@.map_values(|c: FragmentApplyItineraryOrderChange| order_change_view(c)) == reorder_changes(
            resolved_views(aft@),
            slots@,
        ),
{
    let mut out: Vec<FragmentApplyItineraryOrderChange> = Vec::new();
    let mut i: usize = 0;
    while i < aft.len()
        invariant
            i <= aft@.len(),
            slots@.len() == aft@.len(),
            out@.map_values(|c: FragmentApplyItineraryOrderChange| order_change_view(c)) == reorder_changes(
                resolved_views(aft@),
                slots@,
            ).subrange(0, i as int),
        decreases aft@.len() - i,
    {
        let ghost before = out@;
        let c = FragmentApplyItineraryOrderChange {
            itinerary_id: aft[i].id,
            title: aft[i].title.clone(),
            before_sort_order: aft[i].sort_order,
            after_sort_order: slots[i],
        };
        assert(order_change_view(c) == reorder_changes(resolved_views(aft@), slots@)[i as int]);
        out.push(c);
        assert(out@.map_values(|c: FragmentApplyItineraryOrderChange| order_change_view(c)) =~= before.map_values(
            |c: FragmentApplyItineraryOrderChange| order_change_view(c),
        ).push(order_change_view(c)));
        i = i + 1;
        assert(out@.map_values(|c: FragmentApplyItineraryOrderChange| order_change_view(c)) =~= reorder_changes(
            resolved_views(aft@),
            slots@,
        ).subrange(0, i as int));
    }
    assert(reorder_changes(resolved_views(aft@), slots@).subrange(0, i as int) =~= reorder_changes(
        resolved_views(aft@),
        slots@,
    ));
    out
}

/// Rewrites, in the preview, the sort orders of the first day numbered
/// `day_number` and re-sorts its itineraries.
fn rewrite_day_in_preview(export: &mut TripExportV3, day_number: i64, rewrites: &std::collections::HashMap<i64, i64>)
    ensures
        same_except_days(*final(export), *old(export)),
        days_with_rewritten_day(old(export).days@, final(export).days@, day_number, rewrites@),
{
    match crate::proposal::apply::find_day_index(&export.days, day_number) {
        None => {},
        Some(k) => {
            let ghost before = export.days@;
            let day = export.days.remove(k);
            let ExportDayV3 { day_number: n, summary, itineraries } = day;
            let rewritten = crate::proposal::apply::rewrite_sort_orders(itineraries, rewrites);
            let sorted = crate::proposal::apply::sort_by_sort_order(rewritten);
            export.days.insert(k, ExportDayV3 { day_number: n, summary, itineraries: sorted });
            assert forall|i: int| 0 <= i < before.len() && i != k implies export.days@[i] == before[i] by {}
        },
    }
}

/// The two order lists of a reorder fragment.
pub(crate) fn parse_reorder_lists(fragment: &JsonMembers) -> (r: Result<(Vec<ItineraryRefKey>, Vec<ItineraryRefKey>), String>)
    ensures
        match r {
            Ok((e, a)) => reorder_lists(fragment@) == Ok::<
                (Seq<Result<i64, Seq<char>>>, Seq<Result<i64, Seq<char>>>),
                Seq<char>,
            >((refs_view(e@), refs_view(a@))),
            Err(e) => reorder_lists(fragment@) == Err::<
                (Seq<Result<i64, Seq<char>>>, Seq<Result<i64, Seq<char>>>),
                Seq<char>,
            >(e@),
        },
{
    let candidate = match get_member(fragment, "candidate_content") {
        Some(v) => match json_object(v) {
            Some(c) => c,
            None => return Err(owned("candidate_content object が必要です")),
        },
        None => return Err(owned("candidate_content object が必要です")),
    };
    let expected = match get_member(candidate, "expected_order") {
        Some(v) => v,
        None => return Err(owned("candidate_content.expected_order が必要です")),
    };
    let after = match get_member(candidate, "after_order") {
        Some(v) => v,
        None => return Err(owned("candidate_content.after_order が必要です")),
    };
    let expected_refs = parse_reorder_order_refs(expected, "expected_order")?;
    let after_refs = parse_reorder_order_refs(after, "after_order")?;
    assert(refs_view(expected_refs@) =~= expected_refs@.map_values(|k: ItineraryRefKey| ref_view(k)));
    assert(refs_view(after_refs@) =~= after_refs@.map_values(|k: ItineraryRefKey| ref_view(k)));
    if expected_refs.len() == 0 {
        return Err(owned("candidate_content.expected_order は空にできません"));
    }
    if after_refs.len() == 0 {
        return Err(owned("candidate_content.after_order は空にできません"));
    }
    Ok((expected_refs, after_refs))
}

/// Checks a reorder against the day's itineraries; on success, the new order
/// and the day's sort orders ascending.
pub fn check_reorder_in_day(
    day_number: i64,
    day_count: i64,
    items: &Vec<ItineraryItem>,
    expected_refs: &Vec<ItineraryRefKey>,
    after_refs: &Vec<ItineraryRefKey>,
    others: &Vec<(i64, Vec<ItineraryItem>)>,
) -> (r: Result<(Vec<ResolvedDayItinerary>, Vec<i64>), String>)
    ensures
        match r {
            Ok((aft, slots)) => reorder_in_day(
                day_number,
                day_count,
                items@,
                refs_view(expected_refs@),
                refs_view(after_refs@),
                others@,
            ) == Ok::<(Seq<(i64, Seq<char>, i64)>, Seq<i64>), Seq<char>>((resolved_views(aft@), slots@)),
            Err(e) => reorder_in_day(
                day_number,
                day_count,
                items@,
                refs_view(expected_refs@),
                refs_view(after_refs@),
                others@,
            ) == Err::<(Seq<(i64, Seq<char>, i64)>, Seq<i64>), Seq<char>>(e@),
        },
{
    if items.len() == 0 {
        let mut m = owned("reorder_itinerary: Day ");
        crate::text::push_i64_decimal(&mut m, day_number);
        push_str(&mut m, " に itinerary がありません");
        return Err(m);
    }
    let expected = resolve_reorder_order_in_day(others, day_number, day_count, items, expected_refs, "expected_order")?;
    let after = resolve_reorder_order_in_day(others, day_number, day_count, items, after_refs, "after_order")?;
    let current = current_ids_in_sort_order(items);
    let expected_ids = ids_of(&expected);
    let after_ids = ids_of(&after);
    if !i64s_eq(&expected_ids, &current) {
        return Err(
            owned(
                "reorder_itinerary: expected_order が現行 Day の順序と一致しません（baseline mismatch）— DB 更新しません",
            ),
        );
    }
    if !same_members(&expected_ids, &after_ids) {
        return Err(owned("reorder_itinerary: after_order は expected_order と同じ itinerary 集合を含む必要があります"));
    }
    if i64s_eq(&expected_ids, &after_ids) {
        return Err(owned("reorder_itinerary: no-op reorder は許可されません"));
    }
    let slots = sorted_slots(items);
    if slots.len() != after_ids.len() {
        return Err(owned("reorder_itinerary: internal mismatch（slot length）"));
    }
    Ok((after, slots))
}

/// What previewing a `reorder_itinerary` gives (see `apply_reorder_itinerary_preview`).
pub open spec fn reorder_outcome(
    old_export: TripExportV3,
    final_export: TripExportV3,
    r: Result<FragmentApplyPreviewSummary, String>,
    resolved: ResolvedApplyTarget,
    fragment: Seq<(String, JsonValue)>,
    intent: Seq<char>,
    itineraries_before: usize,
    day_count: Result<i64, String>,
    day_items: Result<Vec<ItineraryItem>, String>,
    others: Seq<(i64, Vec<ItineraryItem>)>,
) -> bool {
    &&& match r {
        Err(e) => {
            &&& reorder_plan(old_export, resolved, fragment, day_count, day_items, others) == Err::<
                (i64, Seq<ItineraryItem>, Seq<(i64, Seq<char>, i64)>, Seq<i64>),
                Seq<char>,
            >(e@)
            &&& final_export == old_export
        },
        Ok(s) => match reorder_plan(old_export, resolved, fragment, day_count, day_items, others) {
            Ok((d, items, aft, slots)) => {
                &&& is_reorder_summary(s, intent, itineraries_before, d, reorder_changes(aft, slots))
                &&& same_except_days(final_export, old_export)
                &&& days_with_rewritten_day(
                    old_export.days@,
                    final_export.days@,
                    d,
                    reorder_rewrites(items, resolved_ids(aft), slots, items.len() as int),
                )
            },
            Err(_) => false,
        },
    }
}

/// Previews reordering the itineraries of a day target: checks the fragment
/// against the trip (`day_count`, the outcome of validating its date range),
/// the day's itineraries as read from the database (`day_items`) and the
/// other days' (`others`), then gives each itinerary of the new order the
/// day's sort-order slot at its position, in the preview too. On an error the
/// preview is left as it was.
pub fn apply_reorder_itinerary_preview(
    export: &mut TripExportV3,
    resolved: &ResolvedApplyTarget,
    fragment: &JsonMembers,
    intent: &str,
    itineraries_before: usize,
    day_count: Result<i64, String>,
    day_items: Result<Vec<ItineraryItem>, String>,
    others: &Vec<(i64, Vec<ItineraryItem>)>,
) -> (r: Result<FragmentApplyPreviewSummary, String>)
    ensures
        reorder_outcome(
            *old(export),
            *final(export),
            r,
            *resolved,
            fragment@,
            intent@,
            itineraries_before,
            day_count,
            day_items,
            others@,
        ),
{
    if !str_eq(resolved.target_type.as_str(), "day") {
        let mut m = owned("reorder_itinerary は day target のみサポートしています（現在: ");
        push_str(&mut m, resolved.target_type.as_str());
        push_str(&mut m, "）");
        return Err(m);
    }
    let day_number = match resolved.day_number {
        Some(d) => d,
        None => return Err(owned("reorder_itinerary の Day target が解決されていません")),
    };
    let n = match &day_count {
        Ok(n) => *n,
        Err(_) => 0,
    };
    let day_count_copy = match &day_count {
        Ok(n) => Ok(*n),
        Err(e) => Err(e.clone()),
    };
    ensure_day_in_range(export, day_number, day_count_copy)?;
    let (expected_refs, after_refs) = parse_reorder_lists(fragment)?;
    let items = match day_items {
        Ok(v) => v,
        Err(e) => return Err(e),
    };
    let (after, slots) = check_reorder_in_day(day_number, n, &items, &expected_refs, &after_refs, others)?;
    let after_ids = ids_of(&after);
    let changes = build_order_changes(&after, &slots);
    let rewrites = build_rewrites(&items, &after_ids, &slots);
    rewrite_day_in_preview(export, day_number, &rewrites);
    let mut summary = crate::proposal::apply::empty_preview_summary(intent, "reorder_itinerary", itineraries_before);
    summary.reorder_preview = Some(FragmentApplyReorderPreview { day_number, itinerary_order_changes: changes });
    Ok(summary)
}

} // verus!
