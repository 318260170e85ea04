//! Resolving a fragment's target (the trip, one of its days, or an itinerary
//! of a day) against the trip as read from the database.
use vstd::prelude::*;

use crate::json::{as_i64, as_str, get_member, member, non_empty_string, non_empty_text, JsonKind, JsonMembers, JsonValue};
use crate::models::ItineraryItem;
use crate::proposal::apply::checks::{dec, same_but_errors};
use crate::proposal::apply::fields::day_reference_number;
use crate::proposal::apply::moving::{day_id_of, items_of};
use crate::proposal::apply::order::{id_hits, sort_hits, title_hits};
use crate::proposal::apply::{FragmentApplyDryRunReport, ResolvedApplyTarget};
use crate::text::{opt_view, owned, push_i64_decimal, push_str, push_string, str_eq, str_trim, strings_view, trim_seq};

verus! {

/// A resolved target by its type, trip, day, itinerary sort order and title,
/// and resolution.
pub open spec fn target_view(t: ResolvedApplyTarget) -> (
    Seq<char>,
    i64,
    Seq<char>,
    Option<i64>,
    Option<i64>,
    Option<Seq<char>>,
    Seq<char>,
) {
    (
        t.target_type@,
        t.trip_id,
        t.trip_name@,
        t.day_number,
        t.itinerary_sort_order,
        opt_view(t.itinerary_title),
        t.resolution@,
    )
}

/// The day a target refers to (`day_reference`, an integer from 1 on).
pub open spec fn day_reference_of(target: Seq<(String, JsonValue)>) -> Result<i64, Seq<char>> {
    match member(target, "day_reference"@) {
        Some(v) => match as_i64(v) {
            Some(d) => if d >= 1 {
                Ok(d)
            } else {
                Err("target.day_reference ("@ + dec(d) + ") は 1 以上である必要があります"@)
            },
            None => Err("target.day_reference が必要です"@),
        },
        None => Err("target.day_reference が必要です"@),
    }
}

/// The itinerary a numeric reference names among the day's: by id, else by
/// sort order, each unique; an id match and a sort-order match that are
/// different itineraries are refused.
pub open spec fn numeric_target(items: Seq<ItineraryItem>, v: i64, d: i64) -> Result<ItineraryItem, Seq<char>> {
    let ids = id_hits(items, v, items.len() as int);
    let sorts = sort_hits(items, v, items.len() as int);
    if ids.len() > 0 && sorts.len() > 0 && ids[0].id != sorts[0].id {
        Err("itinerary_reference (数値 "@ + dec(v) + ") が itinerary_id と sort_order の両方に一致し曖昧です"@)
    } else if ids.len() > 0 {
        if ids.len() > 1 {
            Err("itinerary_reference (itinerary_id "@ + dec(v) + ") が Day "@ + dec(d) + " で曖昧です"@)
        } else {
            Ok(ids[0])
        }
    } else if sorts.len() > 0 {
        if sorts.len() > 1 {
            Err("itinerary_reference (sort_order "@ + dec(v) + ") が Day "@ + dec(d) + " で曖昧です"@)
        } else {
            Ok(sorts[0])
        }
    } else {
        Err("itinerary_reference (id/sort_order "@ + dec(v) + ") が Day "@ + dec(d) + " に見つかりません"@)
    }
}

/// The itinerary a title reference names among the day's (titles compared trimmed).
pub open spec fn titled_target(items: Seq<ItineraryItem>, title: Seq<char>, d: i64) -> Result<ItineraryItem, Seq<char>> {
    let hits = title_hits(items, title, items.len() as int);
    if hits.len() == 0 {
        Err("itinerary_reference (title \""@ + trim_seq(title) + "\") が Day "@ + dec(d) + " に見つかりません"@)
    } else if hits.len() > 1 {
        Err("itinerary_reference (title \""@ + trim_seq(title) + "\") が Day "@ + dec(d) + " で曖昧です"@)
    } else {
        Ok(hits[0])
    }
}

/// The itinerary an `itinerary_reference` (an integer or a title) names.
pub open spec fn referenced_itinerary(items: Seq<ItineraryItem>, reference: Option<JsonValue>, d: i64) -> Result<
    ItineraryItem,
    Seq<char>,
> {
    match reference {
        Some(v) => match v.kind {
            JsonKind::Number(Some(n)) => numeric_target(items, n, d),
            JsonKind::Str(t) => titled_target(items, t@, d),
            _ => Err("target_type が itinerary ですが itinerary_reference がありません"@),
        },
        None => Err("target_type が itinerary ですが itinerary_reference がありません"@),
    }
}

/// The target resolved against the trip's days (`day_ids`: number and id of
/// each; `trip_days`: each day's itineraries), or the one error reported.
pub open spec fn target_resolution(
    trip_id: i64,
    trip_name: Seq<char>,
    target: Seq<(String, JsonValue)>,
    day_ids: Seq<(i64, i64)>,
    trip_days: Seq<(i64, Vec<ItineraryItem>)>,
) -> Result<(Seq<char>, i64, Seq<char>, Option<i64>, Option<i64>, Option<Seq<char>>, Seq<char>), Seq<char>> {
    match non_empty_text(member(target, "target_type"@)) {
        None => Err("target.target_type が必要です"@),
        Some(tt) => if tt == "unresolved"@ {
            Err("target が unresolved です — apply preview には Day / Itinerary の解決が必要です"@)
        } else if tt == "trip"@ {
            Ok((tt, trip_id, trip_name, None, None, None, "resolved"@))
        } else if tt == "day"@ || tt == "itinerary"@ {
            match day_reference_of(target) {
                Err(e) => Err(e),
                Ok(d) => if day_id_of(day_ids, d) is None {
                    Err("target day_reference ("@ + dec(d) + ") が Trip "@ + dec(trip_id) + " に存在しません"@)
                } else if tt == "day"@ {
                    Ok((tt, trip_id, trip_name, Some(d), None, None, "resolved"@))
                } else {
                    match referenced_itinerary(items_of(trip_days, d), member(target, "itinerary_reference"@), d) {
                        Err(e) => Err(e),
                        Ok(it) => Ok(
                            (tt, trip_id, trip_name, Some(d), Some(it.sort_order), Some(it.title@), "resolved"@),
                        ),
                    }
                }
            }
        } else {
            Err("未対応の target_type です: "@ + tt)
        },
    }
}

/// The index of the itinerary a numeric reference names.
fn pick_numeric(items: &Vec<ItineraryItem>, v: i64, d: i64) -> (r: Result<usize, String>)
    ensures
        match r {
            Ok(i) => i < items@.len() && numeric_target(items@, v, d) == Ok::<ItineraryItem, Seq<char>>(
                items@[i as int],
            ),
            Err(e) => numeric_target(items@, v, d) == Err::<ItineraryItem, Seq<char>>(e@),
        },
{
    let mut id_count: usize = 0;
    let mut id_first: usize = 0;
    let mut sort_count: usize = 0;
    let mut sort_first: usize = 0;
    let mut i: usize = 0;
    while i < items.len()
        invariant
            i <= items@.len(),
            id_count == id_hits(items@, v, i as int).len(),
            sort_count == sort_hits(items@, v, i as int).len(),
            id_count <= i && sort_count <= i,
            id_count > 0 ==> id_first < items@.len() && id_hits(items@, v, i as int)[0] == items@[id_first as int],
            sort_count > 0 ==> sort_first < items@.len() && sort_hits(items@, v, i as int)[0]
                == items@[sort_first as int],
        decreases items@.len() - i,
    {
        if items[i].id == v {
            if id_count == 0 {
                id_first = i;
            }
            id_count = id_count + 1;
        }
        if items[i].sort_order == v {
            if sort_count == 0 {
                sort_first = i;
            }
            sort_count = sort_count + 1;
        }
        i = i + 1;
    }
    if id_count > 0 && sort_count > 0 && items[id_first].id != items[sort_first].id {
        let mut m = owned("itinerary_reference (数値 ");
        push_i64_decimal(&mut m, v);
        push_str(&mut m, ") が itinerary_id と sort_order の両方に一致し曖昧です");
        return Err(m);
    }
    if id_count > 0 {
        if id_count > 1 {
            let mut m = owned("itinerary_reference (itinerary_id ");
            push_i64_decimal(&mut m, v);
            push_str(&mut m, ") が Day ");
            push_i64_decimal(&mut m, d);
            push_str(&mut m, " で曖昧です");
            return Err(m);
        }
        return Ok(id_first);
    }
    if sort_count > 0 {
        if sort_count > 1 {
            let mut m = owned("itinerary_reference (sort_order ");
            push_i64_decimal(&mut m, v);
            push_str(&mut m, ") が Day ");
            push_i64_decimal(&mut m, d);
            push_str(&mut m, " で曖昧です");
            return Err(m);
        }
        return Ok(sort_first);
    }
    let mut m = owned("itinerary_reference (id/sort_order ");
    push_i64_decimal(&mut m, v);
    push_str(&mut m, ") が Day ");
    push_i64_decimal(&mut m, d);
    push_str(&mut m, " に見つかりません");
    Err(m)
}

/// The index of the itinerary a title reference names.
fn pick_titled(items: &Vec<ItineraryItem>, title: &str, d: i64) -> (r: Result<usize, String>)
    ensures
        match r {
            Ok(i) => i < items@.len() && titled_target(items@, title@, d) == Ok::<ItineraryItem, Seq<char>>(
                items@[i as int],
            ),
            Err(e) => titled_target(items@, title@, d) == Err::<ItineraryItem, Seq<char>>(e@),
        },
{
    let needle = str_trim(title);
    let mut count: usize = 0;
    let mut first: usize = 0;
    let mut i: usize = 0;
    while i < items.len()
        invariant
            i <= items@.len(),
            needle@ == trim_seq(title@),
            count == title_hits(items@, title@, i as int).len(),
            count <= i,
            count > 0 ==> first < items@.len() && title_hits(items@, title@, i as int)[0] == items@[first as int],
        decreases items@.len() - i,
    {
        if str_eq(str_trim(items[i].title.as_str()), needle) {
            if count == 0 {
                first = i;
            }
            count = count + 1;
        }
        i = i + 1;
    }
    if count == 0 {
        let mut m = owned("itinerary_reference (title \"");
        push_str(&mut m, needle);
        push_str(&mut m, "\") が Day ");
        push_i64_decimal(&mut m, d);
        push_str(&mut m, " に見つかりません");
        return Err(m);
    }
    if count > 1 {
        let mut m = owned("itinerary_reference (title \"");
        push_str(&mut m, needle);
        push_str(&mut m, "\") が Day ");
        push_i64_decimal(&mut m, d);
        push_str(&mut m, " で曖昧です");
        return Err(m);
    }
    Ok(first)
}

/// Resolves the fragment's target: the trip, a day of it (which must exist),
/// or an itinerary of such a day named by id, sort order or title. The trip's
/// days come as read from the database: `day_ids` (number and id of each) and
/// `trip_days` (each day's itineraries). On failure one error is reported.
pub fn resolve_apply_target(
    trip_id: i64,
    trip_name: &str,
    target: &JsonMembers,
    day_ids: &Vec<(i64, i64)>,
    trip_days: &Vec<(i64, Vec<ItineraryItem>)>,
    report: &mut FragmentApplyDryRunReport,
) -> (r: Result<Option<ResolvedApplyTarget>, ()>)
    ensures
        same_but_errors(*old(report), *final(report)),
        match target_resolution(trip_id, trip_name@, target@, day_ids@, trip_days@) {
            Ok(v) => {
                &&& r matches Ok(Some(t)) && target_view(t) == v
                &&& final(report).errors@ == old(report).errors@
            },
            Err(e) => {
                &&& r is Err
                &&& strings_view(final(report).errors@) == strings_view(old(report).errors@).push(e)
            },
        },
{
    let target_type = match non_empty_string(get_member(target, "target_type")) {
        Some(t) => t,
        None => {
            push_string(&mut report.errors, owned("target.target_type が必要です"));
            return Err(());
        },
    };
    if str_eq(target_type.as_str(), "unresolved") {
        push_string(
            &mut report.errors,
            owned("target が unresolved です — apply preview には Day / Itinerary の解決が必要です"),
        );
        return Err(());
    }
    let is_trip = str_eq(target_type.as_str(), "trip");
    let is_day = str_eq(target_type.as_str(), "day");
    let is_itinerary = str_eq(target_type.as_str(), "itinerary");
    if is_trip {
        return Ok(
            Some(
                ResolvedApplyTarget {
                    target_type,
                    trip_id,
                    trip_name: owned(trip_name),
                    day_number: None,
                    itinerary_sort_order: None,
                    itinerary_title: None,
                    resolution: owned("resolved"),
                },
            ),
        );
    }
    if !is_day && !is_itinerary {
        let mut m = owned("未対応の target_type です: ");
        push_str(&mut m, target_type.as_str());
        push_string(&mut report.errors, m);
        return Err(());
    }
    let day_number = match day_reference_number(target, report) {
        Some(d) => d,
        None => return Err(()),
    };
    if crate::proposal::apply::moving::find_day_id(day_ids, day_number).is_none() {
        let mut m = owned("target day_reference (");
        push_i64_decimal(&mut m, day_number);
        push_str(&mut m, ") が Trip ");
        push_i64_decimal(&mut m, trip_id);
        push_str(&mut m, " に存在しません");
        push_string(&mut report.errors, m);
        return Err(());
    }
    if is_day {
        return Ok(
            Some(
                ResolvedApplyTarget {
                    target_type,
                    trip_id,
                    trip_name: owned(trip_name),
                    day_number: Some(day_number),
                    itinerary_sort_order: None,
                    itinerary_title: None,
                    resolution: owned("resolved"),
                },
            ),
        );
    }
    let items = crate::proposal::apply::moving::day_items_of(trip_days, day_number);
    let picked = match get_member(target, "itinerary_reference") {
        Some(v) => match &v.kind {
            JsonKind::Number(Some(n)) => pick_numeric(&items, *n, day_number),
            JsonKind::Str(t) => pick_titled(&items, t.as_str(), day_number),
            _ => Err(owned("target_type が itinerary ですが itinerary_reference がありません")),
        },
        None => Err(owned("target_type が itinerary ですが itinerary_reference がありません")),
    };
    match picked {
        Ok(i) => Ok(
            Some(
                ResolvedApplyTarget {
                    target_type,
                    trip_id,
                    trip_name: owned(trip_name),
                    day_number: Some(day_number),
                    itinerary_sort_order: Some(items[i].sort_order),
                    itinerary_title: Some(items[i].title.clone()),
                    resolution: owned("resolved"),
                },
            ),
        ),
        Err(e) => {
            push_string(&mut report.errors, e);
            Err(())
        },
    }
}

} // verus!
