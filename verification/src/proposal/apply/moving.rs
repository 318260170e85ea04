//! Moving an itinerary to another day: the plan worked out from the
//! fragment's four order lists and the trip's days (which itineraries keep
//! which sort orders, and the slot the moved one takes in its new day), and
//! its preview.
use vstd::prelude::*;

use crate::json::{as_i64, get_member, json_object, member, JsonKind, JsonMembers, JsonValue};
use crate::models::{ItineraryItem, Trip, TripExportV3};
use crate::proposal::apply::checks::{dec, MoveItineraryComputedPlan, ResolvedDayItinerary};
use crate::proposal::apply::fields::{parse_reorder_order_refs, ref_view, reorder_refs, ItineraryRefKey};
use crate::proposal::apply::order::{order_resolution, refs_view, resolved_views};
use crate::proposal::apply::reorder::{
    contains_id, index_in, index_of_id, lemma_index_in_found, current_ids_in_sort_order, i64s_eq, ids_in_sort_order, ids_of, resolved_ids, sort_slots, sorted_slots,
};
use crate::proposal::apply::reorder::day_range_check;
use crate::proposal::apply::{
    day_out_of_range_message, ensure_day_in_range, first_day_index, first_item_index, is_move_result,
    moved_itinerary_missing_message, move_itinerary_in_export_preview, opt_string_copy, same_except_days,
    source_day_missing_message, FragmentApplyItineraryMoveOrderChange, FragmentApplyMovePreview,
    FragmentApplyPreviewSummary, ResolvedApplyTarget, SORT_ORDER_STEP,
};
use crate::proposal::fragment::object_member;
use crate::text::{opt_view, str_eq};
use crate::text::{owned, push_i64_decimal, push_str};

verus! {

/// The day with this number among the trip's days (number, id): its id.
pub open spec fn day_id_of(day_ids: Seq<(i64, i64)>, day_number: i64) -> Option<i64>
    decreases day_ids.len(),
{
    if day_ids.len() == 0 {
        None
    } else if day_ids[0].0 == day_number {
        Some(day_ids[0].1)
    } else {
        day_id_of(day_ids.drop_first(), day_number)
    }
}

/// The itineraries of the day with this number (none when it is not listed).
pub open spec fn items_of(trip_days: Seq<(i64, Vec<ItineraryItem>)>, day_number: i64) -> Seq<ItineraryItem>
    decreases trip_days.len(),
{
    if trip_days.len() == 0 {
        Seq::empty()
    } else if trip_days[0].0 == day_number {
        trip_days[0].1@
    } else {
        items_of(trip_days.drop_first(), day_number)
    }
}

/// The first of `days` outside `1..=n`.
pub open spec fn first_out_of_range(days: Seq<i64>, n: i64) -> Option<i64>
    decreases days.len(),
{
    if days.len() == 0 {
        None
    } else if days[0] < 1 || days[0] > n {
        Some(days[0])
    } else {
        first_out_of_range(days.drop_first(), n)
    }
}

/// The source and destination days of a move, both existing and distinct,
/// the source holding the target, all within the trip's dates. On success:
/// the two day numbers, the destination day's id and the trip's day count.
pub open spec fn move_header(
    target_day_number: i64,
    candidate: Seq<(String, JsonValue)>,
    day_ids: Seq<(i64, i64)>,
    trip: Result<Trip, String>,
    day_count: Result<i64, String>,
) -> Result<(i64, i64, i64, i64), Seq<char>> {
    match member(candidate, "from_day"@) {
        None => Err("candidate_content.from_day が必要です"@),
        Some(fv) => match as_i64(fv) {
            None => Err("candidate_content.from_day が必要です"@),
            Some(f) => match member(candidate, "to_day"@) {
                None => Err("candidate_content.to_day が必要です"@),
                Some(tv) => match as_i64(tv) {
                    None => Err("candidate_content.to_day が必要です"@),
                    Some(t) => if f == t {
                        Err(
                            "move_itinerary: same-day move はサポートしていません — reorder_itinerary を使用してください"@,
                        )
                    } else if day_id_of(day_ids, f) is None {
                        Err("move_itinerary: source Day "@ + dec(f) + " が存在しません"@)
                    } else {
                        match day_id_of(day_ids, t) {
                            None => Err("move_itinerary: destination Day "@ + dec(t) + " が存在しません"@),
                            Some(tid) => if target_day_number != f {
                                Err(
                                    "move_itinerary: target itinerary は Day "@ + dec(target_day_number)
                                        + " にありますが、candidate_content.from_day ("@ + dec(f)
                                        + ") と一致しません — DB 更新しません"@,
                                )
                            } else {
                                match trip {
                                    Err(e) => Err(e@),
                                    Ok(tr) => if tr.start_date is None {
                                        Err("trip.start_date が必要です"@)
                                    } else if tr.end_date is None {
                                        Err("trip.end_date が必要です"@)
                                    } else {
                                        match day_count {
                                            Err(e) => Err(e@),
                                            Ok(n) => match first_out_of_range(seq![f, t, target_day_number], n) {
                                                Some(d) => Err(day_out_of_range_message(d, n)),
                                                None => Ok((f, t, tid, n)),
                                            },
                                        }
                                    },
                                }
                            },
                        }
                    },
                },
            },
        },
    }
}

/// The four order lists of a move, present and parsed.
pub open spec fn move_lists(candidate: Seq<(String, JsonValue)>) -> Result<
    (
        Seq<Result<i64, Seq<char>>>,
        Seq<Result<i64, Seq<char>>>,
        Seq<Result<i64, Seq<char>>>,
        Seq<Result<i64, Seq<char>>>,
    ),
    Seq<char>,
> {
    match member(candidate, "expected_source_order"@) {
        None => Err("candidate_content.expected_source_order が必要です"@),
        Some(a) => match member(candidate, "expected_destination_order"@) {
            None => Err("candidate_content.expected_destination_order が必要です"@),
            Some(b) => match member(candidate, "after_source_order"@) {
                None => Err("candidate_content.after_source_order が必要です"@),
                Some(c) => match member(candidate, "after_destination_order"@) {
                    None => Err("candidate_content.after_destination_order が必要です"@),
                    Some(d) => match reorder_refs(a, "expected_source_order"@) {
                        Err(e) => Err(e),
                        Ok(ra) => match reorder_refs(b, "expected_destination_order"@) {
                            Err(e) => Err(e),
                            Ok(rb) => match reorder_refs(c, "after_source_order"@) {
                                Err(e) => Err(e),
                                Ok(rc) => match reorder_refs(d, "after_destination_order"@) {
                                    Err(e) => Err(e),
                                    Ok(rd) => Ok((ra, rb, rc, rd)),
                                },
                            },
                        },
                    },
                },
            },
        },
    }
}

pub(crate) fn find_day_id(day_ids: &Vec<(i64, i64)>, day_number: i64) -> (r: Option<i64>)
    ensures
        r == day_id_of(day_ids@, day_number),
{
    let mut i: usize = 0;
    assert(day_ids@.skip(0) =~= day_ids@);
    while i < day_ids.len()
        invariant
            i <= day_ids@.len(),
            day_id_of(day_ids@, day_number) == day_id_of(day_ids@.skip(i as int), day_number),
        decreases day_ids@.len() - i,
    {
        assert(day_ids@.skip(i as int)[0] == day_ids@[i as int]);
        if day_ids[i].0 == day_number {
            return Some(day_ids[i].1);
        }
        assert(day_ids@.skip(i as int).drop_first() =~= day_ids@.skip(i + 1));
        i = i + 1;
    }
    None
}

/// The itineraries of the day with this number, copied.
pub(crate) fn day_items_of(trip_days: &Vec<(i64, Vec<ItineraryItem>)>, day_number: i64) -> (r: Vec<ItineraryItem>)
    ensures
        r@ == items_of(trip_days@, day_number),
{
    let mut i: usize = 0;
    assert(trip_days@.skip(0) =~= trip_days@);
    while i < trip_days.len()
        invariant
            i <= trip_days@.len(),
            items_of(trip_days@, day_number) == items_of(trip_days@.skip(i as int), day_number),
        decreases trip_days@.len() - i,
    {
        assert(trip_days@.skip(i as int)[0] == trip_days@[i as int]);
        if trip_days[i].0 == day_number {
            return crate::proposal::apply::order::copy_items(&trip_days[i].1);
        }
        assert(trip_days@.skip(i as int).drop_first() =~= trip_days@.skip(i + 1));
        i = i + 1;
    }
    Vec::new()
}

fn required_i64(candidate: &JsonMembers, key: &str, missing: &str) -> (r: Result<i64, String>)
    ensures
        match r {
            Ok(v) => match member(candidate@, key@) {
                Some(x) => as_i64(x) == Some(v),
                None => false,
            },
            Err(e) => e@ == missing@ && match member(candidate@, key@) {
                Some(x) => as_i64(x) is None,
                None => true,
            },
        },
{
    match get_member(candidate, key) {
        Some(v) => match &v.kind {
            JsonKind::Number(Some(n)) => Ok(*n),
            _ => Err(owned(missing)),
        },
        None => Err(owned(missing)),
    }
}

fn range_error(day: i64, n: i64) -> (r: String)
    ensures
        r@ == day_out_of_range_message(day, n),
{
    let mut m = owned("day_number (");
    push_i64_decimal(&mut m, day);
    push_str(&mut m, ") が旅行期間 (1..=");
    push_i64_decimal(&mut m, n);
    push_str(&mut m, ") の範囲外です");
    m
}

/// The header checks of a move.
fn check_move_header(
    target_day_number: i64,
    candidate: &JsonMembers,
    day_ids: &Vec<(i64, i64)>,
    trip: &Result<Trip, String>,
    day_count: &Result<i64, String>,
) -> (r: Result<(i64, i64, i64, i64), String>)
    ensures
        match r {
            Ok(h) => move_header(target_day_number, candidate@, day_ids@, *trip, *day_count) == Ok::<
                (i64, i64, i64, i64),
                Seq<char>,
            >(h),
            Err(e) => move_header(target_day_number, candidate@, day_ids@, *trip, *day_count) == Err::<
                (i64, i64, i64, i64),
                Seq<char>,
            >(e@),
        },
{
    let from_day = required_i64(candidate, "from_day", "candidate_content.from_day が必要です")?;
    let to_day = required_i64(candidate, "to_day", "candidate_content.to_day が必要です")?;
    if from_day == to_day {
        return Err(
            owned("move_itinerary: same-day move はサポートしていません — reorder_itinerary を使用してください"),
        );
    }
    if find_day_id(day_ids, from_day).is_none() {
        let mut m = owned("move_itinerary: source Day ");
        push_i64_decimal(&mut m, from_day);
        push_str(&mut m, " が存在しません");
        return Err(m);
    }
    let to_day_id = match find_day_id(day_ids, to_day) {
        Some(id) => id,
        None => {
            let mut m = owned("move_itinerary: destination Day ");
            push_i64_decimal(&mut m, to_day);
            push_str(&mut m, " が存在しません");
            return Err(m);
        },
    };
    if target_day_number != from_day {
        let mut m = owned("move_itinerary: target itinerary は Day ");
        push_i64_decimal(&mut m, target_day_number);
        push_str(&mut m, " にありますが、candidate_content.from_day (");
        push_i64_decimal(&mut m, from_day);
        push_str(&mut m, ") と一致しません — DB 更新しません");
        return Err(m);
    }
    let t = match trip {
        Ok(t) => t,
        Err(e) => return Err(e.clone()),
    };
    if t.start_date.is_none() {
        return Err(owned("trip.start_date が必要です"));
    }
    if t.end_date.is_none() {
        return Err(owned("trip.end_date が必要です"));
    }
    let n = match day_count {
        Ok(n) => *n,
        Err(e) => return Err(e.clone()),
    };
    assert(seq![from_day, to_day, target_day_number].drop_first() =~= seq![to_day, target_day_number]);
    assert(seq![to_day, target_day_number].drop_first() =~= seq![target_day_number]);
    assert(seq![target_day_number].drop_first() =~= Seq::<i64>::empty());
    proof {
        reveal_with_fuel(first_out_of_range, 4);
    }
    if from_day < 1 || from_day > n {
        return Err(range_error(from_day, n));
    }
    if to_day < 1 || to_day > n {
        return Err(range_error(to_day, n));
    }
    if target_day_number < 1 || target_day_number > n {
        return Err(range_error(target_day_number, n));
    }
    Ok((from_day, to_day, to_day_id, n))
}

/// The index of the first item at or after `i` with this sort order.
pub open spec fn first_with_sort(items: Seq<ItineraryItem>, sort_order: i64, i: int) -> Option<int>
    decreases items.len() - i,
{
    if i < 0 || i >= items.len() {
        None
    } else if items[i].sort_order == sort_order {
        Some(i)
    } else {
        first_with_sort(items, sort_order, i + 1)
    }
}

pub open spec fn moved_missing_message(from_day: i64, sort_order: i64) -> Seq<char> {
    "move_itinerary: target itinerary (day "@ + dec(from_day) + ", sort_order "@ + dec(sort_order)
        + ") が見つかりません"@
}

/// The moved itinerary (the source day's first one with the target's sort
/// order) and the four lists resolved: the expected and new source orders
/// against the source day, the expected destination order against the
/// destination day, the new destination order against it and the moved one.
pub open spec fn move_resolution(
    f: i64,
    t: i64,
    n: i64,
    target_sort_order: i64,
    src: Seq<ItineraryItem>,
    dst: Seq<ItineraryItem>,
    lists: (
        Seq<Result<i64, Seq<char>>>,
        Seq<Result<i64, Seq<char>>>,
        Seq<Result<i64, Seq<char>>>,
        Seq<Result<i64, Seq<char>>>,
    ),
    trip_days: Seq<(i64, Vec<ItineraryItem>)>,
) -> Result<
    (
        ItineraryItem,
        Seq<(i64, Seq<char>, i64)>,
        Seq<(i64, Seq<char>, i64)>,
        Seq<(i64, Seq<char>, i64)>,
        Seq<(i64, Seq<char>, i64)>,
    ),
    Seq<char>,
> {
    match first_with_sort(src, target_sort_order, 0) {
        None => Err(moved_missing_message(f, target_sort_order)),
        Some(mi) => {
            let moved = src[mi];
            match order_resolution(src, lists.0, trip_days, f, n, "expected_source_order"@, "move_itinerary"@, ""@) {
                Err(e) => Err(e),
                Ok(es) => match order_resolution(
                    src,
                    lists.2,
                    trip_days,
                    f,
                    n,
                    "after_source_order"@,
                    "move_itinerary"@,
                    ""@,
                ) {
                    Err(e) => Err(e),
                    Ok(a_s) => match order_resolution(
                        dst,
                        lists.1,
                        trip_days,
                        t,
                        n,
                        "expected_destination_order"@,
                        "move_itinerary"@,
                        ""@,
                    ) {
                        Err(e) => Err(e),
                        Ok(ed) => match order_resolution(
                            dst.push(moved),
                            lists.3,
                            trip_days,
                            t,
                            n,
                            "after_destination_order"@,
                            "move_itinerary"@,
                            ""@,
                        ) {
                            Err(e) => Err(e),
                            Ok(ad) => Ok((moved, es, a_s, ed, ad)),
                        },
                    },
                },
            }
        },
    }
}

fn required_member<'a>(candidate: &'a JsonMembers, key: &str, missing: &str) -> (r: Result<&'a JsonValue, String>)
    ensures
        match r {
            Ok(v) => member(candidate@, key@) == Some(*v),
            Err(e) => e@ == missing@ && member(candidate@, key@) is None,
        },
{
    match get_member(candidate, key) {
        Some(v) => Ok(v),
        None => Err(owned(missing)),
    }
}

/// The four order lists of a move.
fn parse_move_lists(candidate: &JsonMembers) -> (r: Result<
    (Vec<ItineraryRefKey>, Vec<ItineraryRefKey>, Vec<ItineraryRefKey>, Vec<ItineraryRefKey>),
    String,
>)
    ensures
        match r {
            Ok((a, b, c, d)) => move_lists(candidate@) == Ok::<
                (
                    Seq<Result<i64, Seq<char>>>,
                    Seq<Result<i64, Seq<char>>>,
                    Seq<Result<i64, Seq<char>>>,
                    Seq<Result<i64, Seq<char>>>,
                ),
                Seq<char>,
            >((refs_view(a@), refs_view(b@), refs_view(c@), refs_view(d@))),
            Err(e) => move_lists(candidate@) == Err::<
                (
                    Seq<Result<i64, Seq<char>>>,
                    Seq<Result<i64, Seq<char>>>,
                    Seq<Result<i64, Seq<char>>>,
                    Seq<Result<i64, Seq<char>>>,
                ),
                Seq<char>,
            >(e@),
        },
{
    let a = required_member(candidate, "expected_source_order", "candidate_content.expected_source_order が必要です")?;
    let b = required_member(
        candidate,
        "expected_destination_order",
        "candidate_content.expected_destination_order が必要です",
    )?;
    let c = required_member(candidate, "after_source_order", "candidate_content.after_source_order が必要です")?;
    let d = required_member(
        candidate,
        "after_destination_order",
        "candidate_content.after_destination_order が必要です",
    )?;
    let ra = parse_reorder_order_refs(a, "expected_source_order")?;
    let rb = parse_reorder_order_refs(b, "expected_destination_order")?;
    let rc = parse_reorder_order_refs(c, "after_source_order")?;
    let rd = parse_reorder_order_refs(d, "after_destination_order")?;
    assert(refs_view(ra@) =~= ra@.map_values(|k: ItineraryRefKey| ref_view(k)));
    assert(refs_view(rb@) =~= rb@.map_values(|k: ItineraryRefKey| ref_view(k)));
    assert(refs_view(rc@) =~= rc@.map_values(|k: ItineraryRefKey| ref_view(k)));
    assert(refs_view(rd@) =~= rd@.map_values(|k: ItineraryRefKey| ref_view(k)));
    Ok((ra, rb, rc, rd))
}

pub(crate) fn find_with_sort(items: &Vec<ItineraryItem>, sort_order: i64) -> (r: Option<usize>)
    ensures
        match r {
            Some(i) => first_with_sort(items@, sort_order, 0) == Some(i as int) && i < items@.len(),
            None => first_with_sort(items@, sort_order, 0) is None,
        },
{
    let mut i: usize = 0;
    while i < items.len()
        invariant
            i <= items@.len(),
            first_with_sort(items@, sort_order, 0) == first_with_sort(items@, sort_order, i as int),
        decreases items@.len() - i,
    {
        if items[i].sort_order == sort_order {
            return Some(i);
        }
        i = i + 1;
    }
    None
}

/// Finds the moved itinerary and resolves the four lists.
fn resolve_move_lists(
    f: i64,
    t: i64,
    n: i64,
    target_sort_order: i64,
    src: &Vec<ItineraryItem>,
    dst: &Vec<ItineraryItem>,
    lists: &(Vec<ItineraryRefKey>, Vec<ItineraryRefKey>, Vec<ItineraryRefKey>, Vec<ItineraryRefKey>),
    trip_days: &Vec<(i64, Vec<ItineraryItem>)>,
) -> (r: Result<
    (
        ItineraryItem,
        Vec<ResolvedDayItinerary>,
        Vec<ResolvedDayItinerary>,
        Vec<ResolvedDayItinerary>,
        Vec<ResolvedDayItinerary>,
    ),
    String,
>)
    ensures
        match r {
            Ok((moved, es, a_s, ed, ad)) => move_resolution(
                f,
                t,
                n,
                target_sort_order,
                src@,
                dst@,
                (refs_view(lists.0@), refs_view(lists.1@), refs_view(lists.2@), refs_view(lists.3@)),
                trip_days@,
            ) == Ok::<
                (
                    ItineraryItem,
                    Seq<(i64, Seq<char>, i64)>,
                    Seq<(i64, Seq<char>, i64)>,
                    Seq<(i64, Seq<char>, i64)>,
                    Seq<(i64, Seq<char>, i64)>,
                ),
                Seq<char>,
            >((moved, resolved_views(es@), resolved_views(a_s@), resolved_views(ed@), resolved_views(ad@))),
            Err(e) => move_resolution(
                f,
                t,
                n,
                target_sort_order,
                src@,
                dst@,
                (refs_view(lists.0@), refs_view(lists.1@), refs_view(lists.2@), refs_view(lists.3@)),
                trip_days@,
            ) == Err::<
                (
                    ItineraryItem,
                    Seq<(i64, Seq<char>, i64)>,
                    Seq<(i64, Seq<char>, i64)>,
                    Seq<(i64, Seq<char>, i64)>,
                    Seq<(i64, Seq<char>, i64)>,
                ),
                Seq<char>,
            >(e@),
        },
{
    let mi = match find_with_sort(src, target_sort_order) {
        Some(i) => i,
        None => {
            let mut m = owned("move_itinerary: target itinerary (day ");
            push_i64_decimal(&mut m, f);
            push_str(&mut m, ", sort_order ");
            push_i64_decimal(&mut m, target_sort_order);
            push_str(&mut m, ") が見つかりません");
            return Err(m);
        },
    };
    let moved = crate::proposal::apply::order::copy_item(&src[mi]);
    let es = crate::proposal::apply::order::resolve_move_order_in_day(
        trip_days,
        f,
        n,
        src,
        &lists.0,
        "expected_source_order",
    )?;
    let a_s = crate::proposal::apply::order::resolve_move_order_in_day(
        trip_days,
        f,
        n,
        src,
        &lists.2,
        "after_source_order",
    )?;
    let ed = crate::proposal::apply::order::resolve_move_order_in_day(
        trip_days,
        t,
        n,
        dst,
        &lists.1,
        "expected_destination_order",
    )?;
    let ad = crate::proposal::apply::order::resolve_move_after_destination_order(
        trip_days,
        t,
        n,
        dst,
        &moved,
        &lists.3,
        "after_destination_order",
    )?;
    Ok((moved, es, a_s, ed, ad))
}

/// How many times `x` occurs in `s`.
pub open spec fn occurrences(s: Seq<i64>, x: i64) -> nat
    decreases s.len(),
{
    if s.len() == 0 {
        0
    } else {
        occurrences(s.drop_last(), x) + if s.last() == x {
            1nat
        } else {
            0nat
        }
    }
}

/// `s` with every `x` taken out.
pub open spec fn without(s: Seq<i64>, x: i64) -> Seq<i64>
    decreases s.len(),
{
    if s.len() == 0 {
        Seq::empty()
    } else if s.last() == x {
        without(s.drop_last(), x)
    } else {
        without(s.drop_last(), x).push(s.last())
    }
}

proof fn lemma_without_len(s: Seq<i64>, x: i64)
    ensures
        without(s, x).len() + occurrences(s, x) == s.len(),
    decreases s.len(),
{
    if s.len() > 0 {
        lemma_without_len(s.drop_last(), x);
    }
}

/// The checks on the resolved lists: the expected orders are the two days'
/// current orders, the moved itinerary occurs once in the expected source
/// order and the new destination order and nowhere else, the new source order
/// is the expected one without it, the new destination order is the expected
/// one with it inserted once, and the source day has a slot per itinerary.
pub open spec fn move_checks(
    moved_id: i64,
    src: Seq<ItineraryItem>,
    dst: Seq<ItineraryItem>,
    es: Seq<(i64, Seq<char>, i64)>,
    a_s: Seq<(i64, Seq<char>, i64)>,
    ed: Seq<(i64, Seq<char>, i64)>,
    ad: Seq<(i64, Seq<char>, i64)>,
) -> Result<(), Seq<char>> {
    if resolved_ids(es) != ids_in_sort_order(src) {
        Err(
            "move_itinerary: expected_source_order が現行 source Day の順序と一致しません（baseline mismatch）— DB 更新しません"@,
        )
    } else if resolved_ids(ed) != ids_in_sort_order(dst) {
        Err(
            "move_itinerary: expected_destination_order が現行 destination Day の順序と一致しません（baseline mismatch）— DB 更新しません"@,
        )
    } else if occurrences(resolved_ids(es), moved_id) != 1 {
        Err("move_itinerary: moved itinerary は expected_source_order に 1 回だけ含まれる必要があります — DB 更新しません"@)
    } else if resolved_ids(ed).contains(moved_id) {
        Err("move_itinerary: moved itinerary は expected_destination_order に含められません — DB 更新しません"@)
    } else if resolved_ids(a_s).contains(moved_id) {
        Err("move_itinerary: moved itinerary は after_source_order に含められません — DB 更新しません"@)
    } else if occurrences(resolved_ids(ad), moved_id) != 1 {
        Err("move_itinerary: moved itinerary は after_destination_order に 1 回だけ含まれる必要があります — DB 更新しません"@)
    } else if resolved_ids(a_s) != without(resolved_ids(es), moved_id) {
        Err(
            "move_itinerary: after_source_order は expected_source_order から moved itinerary を 1 つ除いた結果と一致する必要があります — DB 更新しません"@,
        )
    } else if without(resolved_ids(ad), moved_id) != resolved_ids(ed) {
        Err(
            "move_itinerary: after_destination_order は expected_destination_order に moved itinerary を 1 回だけ挿入した結果と一致する必要があります — DB 更新しません"@,
        )
    } else if sort_slots(src).len() != resolved_ids(es).len() {
        Err("move_itinerary: internal mismatch（source slot length）"@)
    } else {
        Ok(())
    }
}

fn count_occurrences(s: &Vec<i64>, x: i64) -> (r: usize)
    ensures
        r == occurrences(s@, x),
{
    let mut c: usize = 0;
    let mut i: usize = 0;
    assert(s@.subrange(0, 0) =~= Seq::<i64>::empty());
    while i < s.len()
        invariant
            i <= s@.len(),
            c == occurrences(s@.subrange(0, i as int), x),
            c <= i,
        decreases s@.len() - i,
    {
        assert(s@.subrange(0, i + 1).drop_last() =~= s@.subrange(0, i as int));
        if s[i] == x {
            c = c + 1;
        }
        i = i + 1;
    }
    assert(s@.subrange(0, i as int) =~= s@);
    c
}

fn ids_without(s: &Vec<i64>, x: i64) -> (r: Vec<i64>)
    ensures
        r@ == without(s@, x),
{
    let mut out: Vec<i64> = Vec::new();
    let mut i: usize = 0;
    assert(s@.subrange(0, 0) =~= Seq::<i64>::empty());
    while i < s.len()
        invariant
            i <= s@.len(),
            out@ == without(s@.subrange(0, i as int), x),
        decreases s@.len() - i,
    {
        assert(s@.subrange(0, i + 1).drop_last() =~= s@.subrange(0, i as int));
        if s[i] != x {
            out.push(s[i]);
        }
        i = i + 1;
    }
    assert(s@.subrange(0, i as int) =~= s@);
    out
}

/// The checks on the resolved lists of a move.
fn check_move_lists(
    moved_id: i64,
    src: &Vec<ItineraryItem>,
    dst: &Vec<ItineraryItem>,
    es: &Vec<ResolvedDayItinerary>,
    a_s: &Vec<ResolvedDayItinerary>,
    ed: &Vec<ResolvedDayItinerary>,
    ad: &Vec<ResolvedDayItinerary>,
) -> (r: Result<(), String>)
    ensures
        crate::text::result_view(r) == move_checks(
            moved_id,
            src@,
            dst@,
            resolved_views(es@),
            resolved_views(a_s@),
            resolved_views(ed@),
            resolved_views(ad@),
        ),
{
    let es_ids = ids_of(es);
    let as_ids = ids_of(a_s);
    let ed_ids = ids_of(ed);
    let ad_ids = ids_of(ad);
    if !i64s_eq(&es_ids, &current_ids_in_sort_order(src)) {
        return Err(
            owned(
                "move_itinerary: expected_source_order が現行 source Day の順序と一致しません（baseline mismatch）— DB 更新しません",
            ),
        );
    }
    if !i64s_eq(&ed_ids, &current_ids_in_sort_order(dst)) {
        return Err(
            owned(
                "move_itinerary: expected_destination_order が現行 destination Day の順序と一致しません（baseline mismatch）— DB 更新しません",
            ),
        );
    }
    if count_occurrences(&es_ids, moved_id) != 1 {
        return Err(
            owned("move_itinerary: moved itinerary は expected_source_order に 1 回だけ含まれる必要があります — DB 更新しません"),
        );
    }
    if contains_id(&ed_ids, moved_id) {
        return Err(owned("move_itinerary: moved itinerary は expected_destination_order に含められません — DB 更新しません"));
    }
    if contains_id(&as_ids, moved_id) {
        return Err(owned("move_itinerary: moved itinerary は after_source_order に含められません — DB 更新しません"));
    }
    if count_occurrences(&ad_ids, moved_id) != 1 {
        return Err(
            owned("move_itinerary: moved itinerary は after_destination_order に 1 回だけ含まれる必要があります — DB 更新しません"),
        );
    }
    if !i64s_eq(&as_ids, &ids_without(&es_ids, moved_id)) {
        return Err(
            owned(
                "move_itinerary: after_source_order は expected_source_order から moved itinerary を 1 つ除いた結果と一致する必要があります — DB 更新しません",
            ),
        );
    }
    if !i64s_eq(&ids_without(&ad_ids, moved_id), &ed_ids) {
        return Err(
            owned(
                "move_itinerary: after_destination_order は expected_destination_order に moved itinerary を 1 回だけ挿入した結果と一致する必要があります — DB 更新しません",
            ),
        );
    }
    if sorted_slots(src).len() != es_ids.len() {
        return Err(owned("move_itinerary: internal mismatch（source slot length）"));
    }
    Ok(())
}

/// The sort order of the last itinerary with this id.
pub open spec fn last_sort_of_id(items: Seq<ItineraryItem>, id: i64) -> Option<i64>
    decreases items.len(),
{
    if items.len() == 0 {
        None
    } else if items.last().id == id {
        Some(items.last().sort_order)
    } else {
        last_sort_of_id(items.drop_last(), id)
    }
}

/// Whether an itinerary has this sort order.
pub open spec fn has_sort(items: Seq<ItineraryItem>, sort_order: i64) -> bool {
    exists|i: int| 0 <= i < items.len() && #[trigger] items[i].sort_order == sort_order
}

/// Half of `x`, rounded toward zero.
pub open spec fn half_toward_zero(x: int) -> int {
    if x >= 0 {
        x / 2
    } else {
        -((-x) / 2)
    }
}

pub open spec fn slot_message(what: Seq<char>) -> Seq<char> {
    "move_itinerary: destination に安全な sort_order slot を生成できません（"@ + what + "）— DB 更新しません"@
}

/// The sort order the moved itinerary takes between its new neighbours (their
/// sort orders, when it has them): the midpoint of a gap, one step before the
/// first (which must stay positive), one step after the last, or one step on
/// an empty day; never one the destination day already uses.
pub open spec fn move_slot(prev: Option<i64>, next: Option<i64>, dst: Seq<ItineraryItem>) -> Result<i64, Seq<char>> {
    match (prev, next) {
        (Some(p), Some(q)) => if p + 1 < q {
            let mid = half_toward_zero(p + q);
            if mid > p && mid < q && !has_sort(dst, mid as i64) {
                Ok(mid as i64)
            } else {
                Err(slot_message("midpoint collision"@))
            }
        } else {
            Err(slot_message("no gap"@))
        },
        (None, Some(q)) => if q - SORT_ORDER_STEP <= 0 {
            Err("move_itinerary: destination 先頭への挿入に必要な正の sort_order slot を生成できません — DB 更新しません"@)
        } else if has_sort(dst, (q - SORT_ORDER_STEP) as i64) {
            Err(slot_message("head collision"@))
        } else {
            Ok((q - SORT_ORDER_STEP) as i64)
        },
        (Some(p), None) => if has_sort(dst, (p + SORT_ORDER_STEP) as i64) {
            Err(slot_message("tail collision"@))
        } else {
            Ok((p + SORT_ORDER_STEP) as i64)
        },
        (None, None) => Ok(SORT_ORDER_STEP),
    }
}

fn find_last_sort_of_id(items: &Vec<ItineraryItem>, id: i64) -> (r: Option<i64>)
    ensures
        r == last_sort_of_id(items@, id),
{
    let mut found: Option<i64> = None;
    let mut i: usize = 0;
    assert(items@.subrange(0, 0) =~= Seq::<ItineraryItem>::empty());
    while i < items.len()
        invariant
            i <= items@.len(),
            found == last_sort_of_id(items@.subrange(0, i as int), id),
        decreases items@.len() - i,
    {
        assert(items@.subrange(0, i + 1).drop_last() =~= items@.subrange(0, i as int));
        if items[i].id == id {
            found = Some(items[i].sort_order);
        }
        i = i + 1;
    }
    assert(items@.subrange(0, i as int) =~= items@);
    found
}

fn uses_sort(items: &Vec<ItineraryItem>, sort_order: i64) -> (r: bool)
    ensures
        r == has_sort(items@, sort_order),
{
    let mut i: usize = 0;
    while i < items.len()
        invariant
            i <= items@.len(),
            forall|j: int| 0 <= j < i ==> items@[j].sort_order != sort_order,
        decreases items@.len() - i,
    {
        if items[i].sort_order == sort_order {
            return true;
        }
        i = i + 1;
    }
    false
}

fn slot_error(what: &str) -> (r: String)
    ensures
        r@ == slot_message(what@),
{
    let mut m = owned("move_itinerary: destination に安全な sort_order slot を生成できません（");
    push_str(&mut m, what);
    push_str(&mut m, "）— DB 更新しません");
    m
}

/// The sort order the moved itinerary takes in its new day.
fn choose_move_slot(prev: Option<i64>, next: Option<i64>, dst: &Vec<ItineraryItem>) -> (r: Result<i64, String>)
    requires
        slot_fits(prev, next),
    ensures
        crate::text::result_view(r) == move_slot(prev, next, dst@),
{
    match (prev, next) {
        (Some(p), Some(q)) => {
            if p + 1 < q {
                let sum = p + q;
                let mid: i64 = if sum >= 0 {
                    ((sum as u64) / 2) as i64
                } else {
                    let magnitude: u64 = ((-(sum + 1)) as u64) + 1;
                    -((magnitude / 2) as i64)
                };
                assert(mid == half_toward_zero(p + q));
                if mid > p && mid < q && !uses_sort(dst, mid) {
                    Ok(mid)
                } else {
                    Err(slot_error("midpoint collision"))
                }
            } else {
                Err(slot_error("no gap"))
            }
        },
        (None, Some(q)) => {
            let head = q - SORT_ORDER_STEP;
            if head <= 0 {
                Err(
                    owned(
                        "move_itinerary: destination 先頭への挿入に必要な正の sort_order slot を生成できません — DB 更新しません",
                    ),
                )
            } else if uses_sort(dst, head) {
                Err(slot_error("head collision"))
            } else {
                Ok(head)
            }
        },
        (Some(p), None) => {
            let tail = p + SORT_ORDER_STEP;
            if uses_sort(dst, tail) {
                Err(slot_error("tail collision"))
            } else {
                Ok(tail)
            }
        },
        (None, None) => Ok(SORT_ORDER_STEP),
    }
}

// ---------------------------------------------------------------------------
// The plan.

pub open spec fn move_change_view(c: FragmentApplyItineraryMoveOrderChange) -> (i64, Seq<char>, i64, i64, i64, i64) {
    (c.itinerary_id, c.title@, c.before_day_number, c.after_day_number, c.before_sort_order, c.after_sort_order)
}

pub open spec fn move_changes_view(cs: Seq<FragmentApplyItineraryMoveOrderChange>) -> Seq<
    (i64, Seq<char>, i64, i64, i64, i64),
> {
    cs.map_values(|c: FragmentApplyItineraryMoveOrderChange| move_change_view(c))
}

/// The moved itinerary's change: from its day and sort order to the new ones.
pub open spec fn moved_change(moved: ItineraryItem, f: i64, t: i64, slot: i64) -> (
    i64,
    Seq<char>,
    i64,
    i64,
    i64,
    i64,
) {
    (moved.id, moved.title@, f, t, moved.sort_order, slot)
}

/// The source day's changes: each remaining itinerary takes the slot at its
/// position in the new source order; then the moved one leaves.
pub open spec fn source_changes_of(
    a_s: Seq<(i64, Seq<char>, i64)>,
    slots: Seq<i64>,
    f: i64,
    mc: (i64, Seq<char>, i64, i64, i64, i64),
) -> Seq<(i64, Seq<char>, i64, i64, i64, i64)> {
    Seq::new(a_s.len(), |i: int| (a_s[i].0, a_s[i].1, f, f, a_s[i].2, slots[i])).push(mc)
}

/// The destination day's changes: its itineraries keep their sort orders, and
/// the moved one arrives at its position in the new destination order.
pub open spec fn destination_changes_of(
    ed: Seq<(i64, Seq<char>, i64)>,
    t: i64,
    idx: int,
    mc: (i64, Seq<char>, i64, i64, i64, i64),
) -> Seq<(i64, Seq<char>, i64, i64, i64, i64)> {
    Seq::new(ed.len(), |i: int| (ed[i].0, ed[i].1, t, t, ed[i].2, ed[i].2)).insert(idx, mc)
}

/// The move worked out from the fragment and the trip's days as far as the
/// moved itinerary's new neighbours (`day_ids`: each day's number and id;
/// `trip`, `day_count`: the trip and the outcome of validating its dates;
/// `trip_days`: each day's itineraries). On success: the source and
/// destination days, the destination's id, the moved itinerary, the new
/// source order, the expected destination order, where the moved one goes in
/// it, and the sort orders of its new neighbours there (when it has them).
pub open spec fn move_prefix(
    target_day_number: i64,
    target_sort_order: i64,
    candidate: Seq<(String, JsonValue)>,
    day_ids: Seq<(i64, i64)>,
    trip: Result<Trip, String>,
    day_count: Result<i64, String>,
    trip_days: Seq<(i64, Vec<ItineraryItem>)>,
) -> Result<
    (i64, i64, i64, ItineraryItem, Seq<(i64, Seq<char>, i64)>, Seq<(i64, Seq<char>, i64)>, int, Option<i64>, Option<i64>),
    Seq<char>,
> {
    match move_header(target_day_number, candidate, day_ids, trip, day_count) {
        Err(e) => Err(e),
        Ok((f, t, tid, n)) => match move_lists(candidate) {
            Err(e) => Err(e),
            Ok(lists) => {
                let src = items_of(trip_days, f);
                let dst = items_of(trip_days, t);
                match move_resolution(f, t, n, target_sort_order, src, dst, lists, trip_days) {
                    Err(e) => Err(e),
                    Ok((moved, es, a_s, ed, ad)) => match move_checks(moved.id, src, dst, es, a_s, ed, ad) {
                        Err(e) => Err(e),
                        Ok(_) => {
                            let ids = resolved_ids(ad);
                            match index_in(ids, moved.id, 0) {
                                None => Err("move_itinerary: internal mismatch（moved insert index）"@),
                                Some(idx) => {
                                    let prev = if idx == 0 {
                                        None
                                    } else {
                                        last_sort_of_id(dst, ids[idx - 1])
                                    };
                                    let next = if idx + 1 >= ids.len() {
                                        None
                                    } else {
                                        last_sort_of_id(dst, ids[idx + 1])
                                    };
                                    Ok((f, t, tid, moved, a_s, ed, idx, prev, next))
                                },
                            }
                        },
                    },
                }
            },
        },
    }
}

/// The move worked out in full (see `move_prefix`). On success: the source
/// and destination days, the destination's id, the moved itinerary, its new
/// sort order, the new source order, the source day's slots, the expected
/// destination order and where the moved one goes in it.
pub open spec fn move_plan(
    target_day_number: i64,
    target_sort_order: i64,
    candidate: Seq<(String, JsonValue)>,
    day_ids: Seq<(i64, i64)>,
    trip: Result<Trip, String>,
    day_count: Result<i64, String>,
    trip_days: Seq<(i64, Vec<ItineraryItem>)>,
) -> Result<
    (i64, i64, i64, ItineraryItem, i64, Seq<(i64, Seq<char>, i64)>, Seq<i64>, Seq<(i64, Seq<char>, i64)>, int),
    Seq<char>,
> {
    match move_prefix(target_day_number, target_sort_order, candidate, day_ids, trip, day_count, trip_days) {
        Err(e) => Err(e),
        Ok((f, t, tid, moved, a_s, ed, idx, prev, next)) => match move_slot(prev, next, items_of(trip_days, t)) {
            Err(e) => Err(e),
            Ok(slot) => Ok((f, t, tid, moved, slot, a_s, sort_slots(items_of(trip_days, f)), ed, idx)),
        },
    }
}

/// Working out the new slot between these neighbours stays within `i64`:
/// the neighbours' sum for a midpoint, one step before the first or after
/// the last.
pub open spec fn slot_fits(prev: Option<i64>, next: Option<i64>) -> bool {
    match (prev, next) {
        (Some(p), Some(q)) => p < i64::MAX && (p + 1 < q ==> i64::MIN <= p + q <= i64::MAX),
        (None, Some(q)) => q - SORT_ORDER_STEP >= i64::MIN,
        (Some(p), None) => p + SORT_ORDER_STEP <= i64::MAX,
        (None, None) => true,
    }
}

/// The move's new slot can be worked out without overflow (or the move
/// stops before it is).
pub open spec fn move_slot_fits(
    target_day_number: i64,
    target_sort_order: i64,
    candidate: Seq<(String, JsonValue)>,
    day_ids: Seq<(i64, i64)>,
    trip: Result<Trip, String>,
    day_count: Result<i64, String>,
    trip_days: Seq<(i64, Vec<ItineraryItem>)>,
) -> bool {
    match move_prefix(target_day_number, target_sort_order, candidate, day_ids, trip, day_count, trip_days) {
        Ok(v) => slot_fits(v.7, v.8),
        Err(_) => true,
    }
}

/// The computed plan is the one `move_plan` gives.
pub open spec fn is_move_plan(
    p: MoveItineraryComputedPlan,
    v: (i64, i64, i64, ItineraryItem, i64, Seq<(i64, Seq<char>, i64)>, Seq<i64>, Seq<(i64, Seq<char>, i64)>, int),
) -> bool {
    let (f, t, tid, moved, slot, a_s, slots, ed, idx) = v;
    let mc = moved_change(moved, f, t, slot);
    &&& p.from_day == f
    &&& p.to_day == t
    &&& p.to_day_id == tid
    &&& p.moved == moved
    &&& p.moved_after_sort == slot
    &&& resolved_views(p.after_source_resolved@) == a_s
    &&& p.source_after_sort@ == Seq::new(a_s.len(), |i: int| (a_s[i].0, slots[i]))
    &&& move_changes_view(p.source_changes@) == source_changes_of(a_s, slots, f, mc)
    &&& move_changes_view(p.destination_changes@) == destination_changes_of(ed, t, idx, mc)
}

fn moved_change_of(moved: &ItineraryItem, f: i64, t: i64, slot: i64) -> (c: FragmentApplyItineraryMoveOrderChange)
    ensures
        move_change_view(c) == moved_change(*moved, f, t, slot),
{
    FragmentApplyItineraryMoveOrderChange {
        itinerary_id: moved.id,
        title: moved.title.clone(),
        before_day_number: f,
        after_day_number: t,
        before_sort_order: moved.sort_order,
        after_sort_order: slot,
    }
}

/// Each listed day's itineraries carry that day's number.
pub open spec fn days_hold_their_items(trip_days: Seq<(i64, Vec<ItineraryItem>)>) -> bool {
    forall|k: int, j: int|
        0 <= k < trip_days.len() && 0 <= j < trip_days[k].1@.len() ==> #[trigger] trip_days[k].1@[j].day
            == trip_days[k].0
}

/// Whether working out the new slot between these neighbours stays within `i64`.
pub(crate) fn slot_fits_check(prev: Option<i64>, next: Option<i64>) -> (r: bool)
    ensures
        r == slot_fits(prev, next),
{
    match (prev, next) {
        (Some(p), Some(q)) => {
            if p == 9223372036854775807i64 {
                false
            } else if p + 1 < q {
                p.checked_add(q).is_some()
            } else {
                true
            }
        },
        (None, Some(q)) => q.checked_sub(SORT_ORDER_STEP).is_some(),
        (Some(p), None) => p.checked_add(SORT_ORDER_STEP).is_some(),
        (None, None) => true,
    }
}

proof fn lemma_items_of_day(trip_days: Seq<(i64, Vec<ItineraryItem>)>, day_number: i64)
    requires
        days_hold_their_items(trip_days),
    ensures
        forall|i: int|
            0 <= i < items_of(trip_days, day_number).len() ==> #[trigger] items_of(trip_days, day_number)[i].day
                == day_number,
    decreases trip_days.len(),
{
    if trip_days.len() > 0 {
        if trip_days[0].0 == day_number {
            assert forall|i: int| 0 <= i < trip_days[0].1@.len() implies #[trigger] trip_days[0].1@[i].day
                == day_number by {}
        } else {
            let rest = trip_days.drop_first();
            assert forall|k: int, j: int| 0 <= k < rest.len() && 0 <= j < rest[k].1@.len() implies #[trigger] rest[k].1@[j].day
                == rest[k].0 by {
                assert(rest[k] == trip_days[k + 1]);
            }
            lemma_items_of_day(rest, day_number);
        }
    }
}

proof fn lemma_first_with_sort_in(items: Seq<ItineraryItem>, sort_order: i64, i: int)
    ensures
        first_with_sort(items, sort_order, i) matches Some(k) ==> 0 <= k < items.len(),
    decreases items.len() - i,
{
    if 0 <= i < items.len() && items[i].sort_order != sort_order {
        lemma_first_with_sort_in(items, sort_order, i + 1);
    }
}

proof fn lemma_last_sort_used(items: Seq<ItineraryItem>, id: i64)
    ensures
        last_sort_of_id(items, id) matches Some(s) ==> exists|i: int| 0 <= i < items.len() && items[i].sort_order == s,
    decreases items.len(),
{
    if items.len() > 0 && items.last().id != id {
        lemma_last_sort_used(items.drop_last(), id);
        if let Some(s) = last_sort_of_id(items, id) {
            let i = choose|i: int| 0 <= i < items.drop_last().len() && items.drop_last()[i].sort_order == s;
            assert(items[i].sort_order == s);
        }
    } else if items.len() > 0 {
        assert(items[items.len() - 1].sort_order == items.last().sort_order);
    }
}

/// Works out a move as far as the moved itinerary's new neighbours (see
/// `move_prefix`).
pub(crate) fn compute_move_prefix(
    target_day_number: i64,
    target_itinerary_sort_order: i64,
    candidate: &JsonMembers,
    day_ids: &Vec<(i64, i64)>,
    trip: &Result<Trip, String>,
    day_count: &Result<i64, String>,
    trip_days: &Vec<(i64, Vec<ItineraryItem>)>,
) -> (r: Result<
    (i64, i64, i64, ItineraryItem, Vec<ResolvedDayItinerary>, Vec<ResolvedDayItinerary>, usize, Option<i64>, Option<i64>),
    String,
>)
    requires
        days_hold_their_items(trip_days@),
    ensures
        match r {
            Ok((f, t, tid, moved, a_s, ed, idx, prev, next)) => {
                &&& move_prefix(
                    target_day_number,
                    target_itinerary_sort_order,
                    candidate@,
                    day_ids@,
                    *trip,
                    *day_count,
                    trip_days@,
                ) == Ok::<
                    (
                        i64,
                        i64,
                        i64,
                        ItineraryItem,
                        Seq<(i64, Seq<char>, i64)>,
                        Seq<(i64, Seq<char>, i64)>,
                        int,
                        Option<i64>,
                        Option<i64>,
                    ),
                    Seq<char>,
                >((f, t, tid, moved, resolved_views(a_s@), resolved_views(ed@), idx as int, prev, next))
                &&& moved.day == f
                &&& a_s@.len() < crate::proposal::apply::reorder::sort_slots(items_of(trip_days@, f)).len() + 1
                &&& idx <= ed@.len()
            },
            Err(e) => move_prefix(
                target_day_number,
                target_itinerary_sort_order,
                candidate@,
                day_ids@,
                *trip,
                *day_count,
                trip_days@,
            ) == Err::<
                (
                    i64,
                    i64,
                    i64,
                    ItineraryItem,
                    Seq<(i64, Seq<char>, i64)>,
                    Seq<(i64, Seq<char>, i64)>,
                    int,
                    Option<i64>,
                    Option<i64>,
                ),
                Seq<char>,
            >(e@),
        },
{
    let (f, t, tid, n) = check_move_header(target_day_number, candidate, day_ids, trip, day_count)?;
    let lists = parse_move_lists(candidate)?;
    let src = day_items_of(trip_days, f);
    let dst = day_items_of(trip_days, t);
    let (moved, es, a_s, ed, ad) = resolve_move_lists(
        f,
        t,
        n,
        target_itinerary_sort_order,
        &src,
        &dst,
        &lists,
        trip_days,
    )?;
    check_move_lists(moved.id, &src, &dst, &es, &a_s, &ed, &ad)?;
    let ad_ids = ids_of(&ad);
    let ghost es_ids = resolved_ids(resolved_views(es@));
    let ghost ed_ids = resolved_ids(resolved_views(ed@));
    let ghost as_ids = resolved_ids(resolved_views(a_s@));
    proof {
        lemma_without_len(es_ids, moved.id);
        lemma_without_len(ad_ids@, moved.id);
        lemma_items_of_day(trip_days@, f);
        lemma_first_with_sort_in(src@, target_itinerary_sort_order, 0);
    }
    let idx = match index_of_id(&ad_ids, moved.id) {
        Some(i) => i,
        None => return Err(owned("move_itinerary: internal mismatch（moved insert index）")),
    };
    let prev = if idx == 0 {
        None
    } else {
        find_last_sort_of_id(&dst, ad_ids[idx - 1])
    };
    let next = if idx >= ad_ids.len() - 1 {
        None
    } else {
        find_last_sort_of_id(&dst, ad_ids[idx + 1])
    };
    proof {
        if idx > 0 {
            lemma_last_sort_used(dst@, ad_ids@[idx - 1]);
        }
        if idx + 1 < ad_ids@.len() {
            lemma_last_sort_used(dst@, ad_ids@[idx + 1]);
        }
    }
    assert(a_s@.len() + 1 == es@.len());
    assert(ed@.len() + 1 == ad@.len());
    assert(move_header(target_day_number, candidate@, day_ids@, *trip, *day_count) == Ok::<(i64, i64, i64, i64), Seq<char>>((f, t, tid, n)));
    assert(move_lists(candidate@) is Ok);
    Ok((f, t, tid, moved, a_s, ed, idx, prev, next))
}

/// Works out a move from the fragment's candidate content and the trip's
/// days: the checks, the moved itinerary's new slot, and every itinerary's
/// order change on both days.
pub fn compute_move_itinerary_plan(
    target_day_number: i64,
    target_itinerary_sort_order: i64,
    candidate: &JsonMembers,
    day_ids: &Vec<(i64, i64)>,
    trip: &Result<Trip, String>,
    day_count: &Result<i64, String>,
    trip_days: &Vec<(i64, Vec<ItineraryItem>)>,
) -> (r: Result<MoveItineraryComputedPlan, String>)
    requires
        days_hold_their_items(trip_days@),
        move_slot_fits(
            target_day_number,
            target_itinerary_sort_order,
            candidate@,
            day_ids@,
            *trip,
            *day_count,
            trip_days@,
        ),
    ensures
        r matches Ok(p) ==> p.moved.day == p.from_day,
        match r {
            Ok(p) => match move_plan(
                target_day_number,
                target_itinerary_sort_order,
                candidate@,
                day_ids@,
                *trip,
                *day_count,
                trip_days@,
            ) {
                Ok(v) => is_move_plan(p, v),
                Err(_) => false,
            },
            Err(e) => move_plan(
                target_day_number,
                target_itinerary_sort_order,
                candidate@,
                day_ids@,
                *trip,
                *day_count,
                trip_days@,
            ) == Err::<
                (
                    i64,
                    i64,
                    i64,
                    ItineraryItem,
                    i64,
                    Seq<(i64, Seq<char>, i64)>,
                    Seq<i64>,
                    Seq<(i64, Seq<char>, i64)>,
                    int,
                ),
                Seq<char>,
            >(e@),
        },
{
    let (f, t, tid, moved, a_s, ed, idx, prev, next) = compute_move_prefix(
        target_day_number,
        target_itinerary_sort_order,
        candidate,
        day_ids,
        trip,
        day_count,
        trip_days,
    )?;
    let src = day_items_of(trip_days, f);
    let dst = day_items_of(trip_days, t);
    let slot = choose_move_slot(prev, next, &dst)?;
    let slots = sorted_slots(&src);
    let ghost mcv = moved_change(moved, f, t, slot);
    let mut source_after_sort: Vec<(i64, i64)> = Vec::new();
    let mut source_changes: Vec<FragmentApplyItineraryMoveOrderChange> = Vec::new();
    let ghost asv = resolved_views(a_s@);
    let mut i: usize = 0;
    while i < a_s.len()
        invariant
            i <= a_s@.len(),
            a_s@.len() < slots@.len() + 1,
            asv == resolved_views(a_s@),
            source_after_sort@ == Seq::new(asv.len(), |k: int| (asv[k].0, slots@[k])).subrange(0, i as int),
            move_changes_view(source_changes@) == Seq::new(
                asv.len(),
                |k: int| (asv[k].0, asv[k].1, f, f, asv[k].2, slots@[k]),
            ).subrange(0, i as int),
        decreases a_s@.len() - i,
    {
        let ghost before = source_changes@;
        source_after_sort.push((a_s[i].id, slots[i]));
        let c = FragmentApplyItineraryMoveOrderChange {
            itinerary_id: a_s[i].id,
            title: a_s[i].title.clone(),
            before_day_number: f,
            after_day_number: f,
            before_sort_order: a_s[i].sort_order,
            after_sort_order: slots[i],
        };
        source_changes.push(c);
        assert(move_changes_view(source_changes@) =~= move_changes_view(before).push(move_change_view(c)));
        i = i + 1;
        assert(source_after_sort@ =~= Seq::new(asv.len(), |k: int| (asv[k].0, slots@[k])).subrange(0, i as int));
        assert(move_changes_view(source_changes@) =~= Seq::new(
            asv.len(),
            |k: int| (asv[k].0, asv[k].1, f, f, asv[k].2, slots@[k]),
        ).subrange(0, i as int));
    }
    let ghost before_push = source_changes@;
    source_changes.push(moved_change_of(&moved, f, t, slot));
    assert(move_changes_view(source_changes@) =~= move_changes_view(before_push).push(mcv));
    assert(source_after_sort@ =~= Seq::new(asv.len(), |k: int| (asv[k].0, slots@[k])));
    let mut destination_changes: Vec<FragmentApplyItineraryMoveOrderChange> = Vec::new();
    let ghost edv = resolved_views(ed@);
    let mut j: usize = 0;
    while j < ed.len()
        invariant
            j <= ed@.len(),
            edv == resolved_views(ed@),
            move_changes_view(destination_changes@) == Seq::new(
                edv.len(),
                |k: int| (edv[k].0, edv[k].1, t, t, edv[k].2, edv[k].2),
            ).subrange(0, j as int),
        decreases ed@.len() - j,
    {
        let ghost before = destination_changes@;
        let c = FragmentApplyItineraryMoveOrderChange {
            itinerary_id: ed[j].id,
            title: ed[j].title.clone(),
            before_day_number: t,
            after_day_number: t,
            before_sort_order: ed[j].sort_order,
            after_sort_order: ed[j].sort_order,
        };
        destination_changes.push(c);
        assert(move_changes_view(destination_changes@) =~= move_changes_view(before).push(move_change_view(c)));
        j = j + 1;
        assert(move_changes_view(destination_changes@) =~= Seq::new(
            edv.len(),
            |k: int| (edv[k].0, edv[k].1, t, t, edv[k].2, edv[k].2),
        ).subrange(0, j as int));
    }
    let ghost before_insert = destination_changes@;
    destination_changes.insert(idx, moved_change_of(&moved, f, t, slot));
    assert(move_changes_view(destination_changes@) =~= move_changes_view(before_insert).insert(idx as int, mcv));
    assert(move_changes_view(source_changes@) == source_changes_of(asv, slots@, f, mcv));
    assert(move_changes_view(destination_changes@) == destination_changes_of(edv, t, idx as int, mcv));
    assert(move_slot(prev, next, dst@) == Ok::<i64, Seq<char>>(slot));
    Ok(
        MoveItineraryComputedPlan {
            from_day: f,
            to_day: t,
            to_day_id: tid,
            moved,
            moved_after_sort: slot,
            after_source_resolved: a_s,
            source_after_sort,
            source_changes,
            destination_changes,
        },
    )
}

// ---------------------------------------------------------------------------
// The preview of a move.

/// The checks made on the target and the fragment before the plan: an
/// itinerary target within the trip's dates, and the candidate's two days
/// within them too. On success: the target's day and sort order, and the
/// candidate content.
pub open spec fn move_target_check(
    export: TripExportV3,
    resolved: ResolvedApplyTarget,
    fragment: Seq<(String, JsonValue)>,
    export_day_count: Result<i64, String>,
) -> Result<(i64, i64, Seq<(String, JsonValue)>), Seq<char>> {
    if resolved.target_type@ != "itinerary"@ {
        Err("move_itinerary は itinerary target のみサポートしています（現在: "@ + resolved.target_type@ + "）"@)
    } else {
        match resolved.day_number {
            None => Err("move_itinerary の Itinerary target が解決されていません（day）"@),
            Some(d) => match resolved.itinerary_sort_order {
                None => Err("move_itinerary の Itinerary target が解決されていません（sort_order）"@),
                Some(so) => match day_range_check(export, d, export_day_count) {
                    Err(e) => Err(e),
                    Ok(_) => match object_member(fragment, "candidate_content"@) {
                        None => Err("candidate_content object が必要です"@),
                        Some(c) => match member(c, "from_day"@) {
                            None => Err("candidate_content.from_day が必要です"@),
                            Some(fv) => match as_i64(fv) {
                                None => Err("candidate_content.from_day が必要です"@),
                                Some(f) => match member(c, "to_day"@) {
                                    None => Err("candidate_content.to_day が必要です"@),
                                    Some(tv) => match as_i64(tv) {
                                        None => Err("candidate_content.to_day が必要です"@),
                                        Some(t) => match day_range_check(export, f, export_day_count) {
                                            Err(e) => Err(e),
                                            Ok(_) => match day_range_check(export, t, export_day_count) {
                                                Err(e) => Err(e),
                                                Ok(_) => Ok((d, so, c)),
                                            },
                                        },
                                    },
                                },
                            },
                        },
                    },
                },
            },
        }
    }
}

/// `move_slot_fits` for a move fragment on this target: its day, its sort
/// order and the fragment's candidate content.
pub open spec fn fragment_move_slot_fits(
    resolved: ResolvedApplyTarget,
    fragment: Seq<(String, JsonValue)>,
    day_ids: Seq<(i64, i64)>,
    trip: Result<Trip, String>,
    day_count: Result<i64, String>,
    trip_days: Seq<(i64, Vec<ItineraryItem>)>,
) -> bool {
    match (resolved.day_number, resolved.itinerary_sort_order, object_member(fragment, "candidate_content"@)) {
        (Some(d), Some(so), Some(c)) => move_slot_fits(d, so, c, day_ids, trip, day_count, trip_days),
        _ => true,
    }
}

/// The sort orders the source day's remaining itineraries take, keyed by their old ones.
pub open spec fn source_rewrites(a_s: Seq<(i64, Seq<char>, i64)>, slots: Seq<i64>, n: int) -> Map<i64, i64>
    decreases n,
{
    if n <= 0 {
        Map::empty()
    } else {
        source_rewrites(a_s, slots, n - 1).insert(a_s[n - 1].2, slots[n - 1])
    }
}

/// The whole move preview: the target and fragment checks, the plan, and the
/// moved itinerary found in the preview (its source day, then itself). On
/// success: the plan, the source day's index in the preview and the moved
/// itinerary's index in that day.
pub open spec fn move_preview_outcome(
    export: TripExportV3,
    resolved: ResolvedApplyTarget,
    fragment: Seq<(String, JsonValue)>,
    export_day_count: Result<i64, String>,
    day_ids: Seq<(i64, i64)>,
    trip: Result<Trip, String>,
    trip_day_count: Result<i64, String>,
    trip_days: Seq<(i64, Vec<ItineraryItem>)>,
) -> Result<
    (
        (i64, i64, i64, ItineraryItem, i64, Seq<(i64, Seq<char>, i64)>, Seq<i64>, Seq<(i64, Seq<char>, i64)>, int),
        int,
        int,
    ),
    Seq<char>,
> {
    match move_target_check(export, resolved, fragment, export_day_count) {
        Err(e) => Err(e),
        Ok((d, so, c)) => match move_plan(d, so, c, day_ids, trip, trip_day_count, trip_days) {
            Err(e) => Err(e),
            Ok(v) => {
                let (f, t, tid, moved, slot, a_s, slots, ed, idx) = v;
                match first_day_index(export.days@, f) {
                    None => Err(source_day_missing_message(f)),
                    Some(k) => match first_item_index(export.days@[k].itineraries@, moved.sort_order) {
                        None => Err(moved_itinerary_missing_message(f, moved.sort_order)),
                        Some(j) => Ok((v, k, j)),
                    },
                }
            },
        },
    }
}

/// A move preview from this plan, the itinerary count unchanged.
pub open spec fn is_move_summary(
    s: FragmentApplyPreviewSummary,
    intent: Seq<char>,
    itineraries_before: usize,
    candidate_title: Option<Seq<char>>,
    v: (i64, i64, i64, ItineraryItem, i64, Seq<(i64, Seq<char>, i64)>, Seq<i64>, Seq<(i64, Seq<char>, i64)>, int),
) -> bool {
    let (f, t, tid, moved, slot, a_s, slots, ed, idx) = v;
    let mc = moved_change(moved, f, t, slot);
    &&& s.intent@ == intent
    &&& s.action@ == "move_itinerary"@
    &&& opt_view(s.candidate_title) == candidate_title
    &&& s.itineraries_before == itineraries_before
    &&& s.itineraries_after == itineraries_before
    &&& s.notes_before is None && s.notes_after is None
    &&& s.expenses_before is None && s.expenses_after is None && s.expense_preview is None
    &&& s.estimates_before is None && s.estimates_after is None && s.estimate_preview is None
    &&& s.estimate_update_preview is None && s.estimate_field_changes is None && s.estimate_delete_preview is None
    &&& s.reservations_before is None && s.reservations_after is None && s.reservation_preview is None
    &&& s.itinerary_field_changes is None && s.reorder_preview is None && s.delete_preview is None
    &&& match s.move_preview {
        Some(p) => {
            &&& p.itinerary_id == moved.id
            &&& p.title@ == moved.title@
            &&& p.from_day_number == f
            &&& p.to_day_number == t
            &&& move_changes_view(p.source_order_changes@) == source_changes_of(a_s, slots, f, mc)
            &&& move_changes_view(p.destination_order_changes@) == destination_changes_of(ed, t, idx, mc)
        },
        None => false,
    }
}

/// What previewing a `move_itinerary` gives (see `apply_move_itinerary_preview`).
pub open spec fn move_outcome(
    old_export: TripExportV3,
    final_export: TripExportV3,
    r: Result<FragmentApplyPreviewSummary, String>,
    resolved: ResolvedApplyTarget,
    fragment: Seq<(String, JsonValue)>,
    intent: Seq<char>,
    itineraries_before: usize,
    export_day_count: Result<i64, String>,
    day_ids: Seq<(i64, i64)>,
    trip: Result<Trip, String>,
    trip_day_count: Result<i64, String>,
    trip_days: Seq<(i64, Vec<ItineraryItem>)>,
) -> bool {
    &&& same_except_days(final_export, old_export)
    &&& match r {
        Err(e) => {
            &&& move_preview_outcome(
                old_export,
                resolved,
                fragment,
                export_day_count,
                day_ids,
                trip,
                trip_day_count,
                trip_days,
            ) == Err::<
                (
                    (
                        i64,
                        i64,
                        i64,
                        ItineraryItem,
                        i64,
                        Seq<(i64, Seq<char>, i64)>,
                        Seq<i64>,
                        Seq<(i64, Seq<char>, i64)>,
                        int,
                    ),
                    int,
                    int,
                ),
                Seq<char>,
            >(e@)
            &&& final_export.days@ == old_export.days@
        },
        Ok(s) => match move_preview_outcome(
            old_export,
            resolved,
            fragment,
            export_day_count,
            day_ids,
            trip,
            trip_day_count,
            trip_days,
        ) {
            Ok((v, k, j)) => {
                &&& is_move_summary(s, intent, itineraries_before, opt_view(resolved.itinerary_title), v)
                &&& is_move_result(
                    old_export.days@,
                    final_export.days@,
                    k,
                    j,
                    v.1,
                    v.4,
                    source_rewrites(v.5, v.6, v.5.len() as int),
                )
            },
            Err(_) => false,
        },
    }
}

/// Previews moving an itinerary target to another day: checks the target and
/// the fragment against the preview's trip (`export_day_count`, the outcome
/// of validating its dates), works out the plan from the trip as read from
/// the database (`day_ids`, `trip`, `trip_day_count`, `trip_days`, as for
/// `compute_move_itinerary_plan`), and moves the itinerary in the preview:
/// the source day's remaining itineraries take their slots, the moved one its
/// new sort order in its new day. On an error the preview's days are left as
/// they were.
pub fn apply_move_itinerary_preview(
    export: &mut TripExportV3,
    resolved: &ResolvedApplyTarget,
    fragment: &JsonMembers,
    intent: &str,
    itineraries_before: usize,
    export_day_count: Result<i64, String>,
    day_ids: &Vec<(i64, i64)>,
    trip: &Result<Trip, String>,
    trip_day_count: &Result<i64, String>,
    trip_days: &Vec<(i64, Vec<ItineraryItem>)>,
) -> (r: Result<FragmentApplyPreviewSummary, String>)
    requires
        days_hold_their_items(trip_days@),
        fragment_move_slot_fits(*resolved, fragment@, day_ids@, *trip, *trip_day_count, trip_days@),
    ensures
        move_outcome(
            *old(export),
            *final(export),
            r,
            *resolved,
            fragment@,
            intent@,
            itineraries_before,
            export_day_count,
            day_ids@,
            *trip,
            *trip_day_count,
            trip_days@,
        ),
{
    if !str_eq(resolved.target_type.as_str(), "itinerary") {
        let mut m = owned("move_itinerary は itinerary target のみサポートしています（現在: ");
        push_str(&mut m, resolved.target_type.as_str());
        push_str(&mut m, "）");
        return Err(m);
    }
    let target_day = match resolved.day_number {
        Some(d) => d,
        None => return Err(owned("move_itinerary の Itinerary target が解決されていません（day）")),
    };
    let target_sort = match resolved.itinerary_sort_order {
        Some(s) => s,
        None => return Err(owned("move_itinerary の Itinerary target が解決されていません（sort_order）")),
    };
    ensure_day_in_range(export, target_day, copy_day_count(&export_day_count))?;
    let candidate = match get_member(fragment, "candidate_content") {
        Some(v) => match json_object(v) {
            Some(c) => c,
            None => return Err(owned("candidate_content object が必要です")),
        },
        None => return Err(owned("candidate_content object が必要です")),
    };
    let from_day = required_i64(candidate, "from_day", "candidate_content.from_day が必要です")?;
    let to_day = required_i64(candidate, "to_day", "candidate_content.to_day が必要です")?;
    ensure_day_in_range(export, from_day, copy_day_count(&export_day_count))?;
    ensure_day_in_range(export, to_day, copy_day_count(&export_day_count))?;
    let plan = compute_move_itinerary_plan(
        target_day,
        target_sort,
        candidate,
        day_ids,
        trip,
        trip_day_count,
        trip_days,
    )?;
    let ghost v = choose|v: (
        i64,
        i64,
        i64,
        ItineraryItem,
        i64,
        Seq<(i64, Seq<char>, i64)>,
        Seq<i64>,
        Seq<(i64, Seq<char>, i64)>,
        int,
    )| move_plan(target_day, target_sort, candidate@, day_ids@, *trip, *trip_day_count, trip_days@) == Ok::<
        (
            i64,
            i64,
            i64,
            ItineraryItem,
            i64,
            Seq<(i64, Seq<char>, i64)>,
            Seq<i64>,
            Seq<(i64, Seq<char>, i64)>,
            int,
        ),
        Seq<char>,
    >(v);
    let mut rewrites: std::collections::HashMap<i64, i64> = std::collections::HashMap::new();
    let ghost a_s = v.5;
    let ghost slots = v.6;
    let mut i: usize = 0;
    assert(rewrites@ =~= source_rewrites(a_s, slots, 0));
    while i < plan.after_source_resolved.len()
        invariant
            i <= plan.after_source_resolved@.len(),
            resolved_views(plan.after_source_resolved@) == a_s,
            plan.source_after_sort@ == Seq::new(a_s.len(), |k: int| (a_s[k].0, slots[k])),
            rewrites@ == source_rewrites(a_s, slots, i as int),
        decreases plan.after_source_resolved@.len() - i,
    {
        broadcast use vstd::std_specs::hash::group_hash_axioms;

        assert(plan.source_after_sort@[i as int].1 == slots[i as int]);
        rewrites.insert(plan.after_source_resolved[i].sort_order, plan.source_after_sort[i].1);
        i = i + 1;
        assert(rewrites@ =~= source_rewrites(a_s, slots, i as int));
    }
    move_itinerary_in_export_preview(
        export,
        plan.from_day,
        plan.to_day,
        plan.moved.sort_order,
        plan.moved_after_sort,
        &rewrites,
    )?;
    let mut summary = crate::proposal::apply::empty_preview_summary(intent, "move_itinerary", itineraries_before);
    summary.candidate_title = opt_string_copy(&resolved.itinerary_title);
    let title = plan.moved.title.clone();
    summary.move_preview = Some(
        FragmentApplyMovePreview {
            itinerary_id: plan.moved.id,
            title,
            from_day_number: plan.from_day,
            to_day_number: plan.to_day,
            source_order_changes: plan.source_changes,
            destination_order_changes: plan.destination_changes,
        },
    );
    Ok(summary)
}

fn copy_day_count(c: &Result<i64, String>) -> (r: Result<i64, String>)
    ensures
        r == *c,
{
    match c {
        Ok(n) => Ok(*n),
        Err(e) => Err(e.clone()),
    }
}

} // verus!
