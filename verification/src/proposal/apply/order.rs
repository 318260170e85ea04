//! Resolving the references of a reorder or move list (itinerary ids, sort
//! orders or titles) against the itineraries of one day.
use vstd::prelude::*;

use crate::models::ItineraryItem;
use crate::proposal::apply::checks::{dec, ResolvedDayItinerary};
use crate::proposal::apply::fields::{ref_view, ItineraryRefKey};
use crate::text::{owned, push_i64_decimal, push_str, str_eq, str_trim, trim_seq};

verus! {

/// An itinerary by its id, title and sort order.
pub open spec fn item_view(it: ItineraryItem) -> (i64, Seq<char>, i64) {
    (it.id, it.title@, it.sort_order)
}

pub open spec fn resolved_view(r: ResolvedDayItinerary) -> (i64, Seq<char>, i64) {
    (r.id, r.title@, r.sort_order)
}

pub open spec fn resolved_views(rs: Seq<ResolvedDayItinerary>) -> Seq<(i64, Seq<char>, i64)> {
    rs.map_values(|r: ResolvedDayItinerary| resolved_view(r))
}

/// The items among the first `n` whose id is `v`, in order.
pub open spec fn id_hits(items: Seq<ItineraryItem>, v: i64, n: int) -> Seq<ItineraryItem>
    decreases n,
{
    if n <= 0 {
        Seq::empty()
    } else if items[n - 1].id == v {
        id_hits(items, v, n - 1).push(items[n - 1])
    } else {
        id_hits(items, v, n - 1)
    }
}

/// The items among the first `n` whose sort order is `v`, in order.
pub open spec fn sort_hits(items: Seq<ItineraryItem>, v: i64, n: int) -> Seq<ItineraryItem>
    decreases n,
{
    if n <= 0 {
        Seq::empty()
    } else if items[n - 1].sort_order == v {
        sort_hits(items, v, n - 1).push(items[n - 1])
    } else {
        sort_hits(items, v, n - 1)
    }
}

/// The items among the first `n` whose trimmed title is `t` trimmed, in order.
pub open spec fn title_hits(items: Seq<ItineraryItem>, t: Seq<char>, n: int) -> Seq<ItineraryItem>
    decreases n,
{
    if n <= 0 {
        Seq::empty()
    } else if trim_seq(items[n - 1].title@) == trim_seq(t) {
        title_hits(items, t, n - 1).push(items[n - 1])
    } else {
        title_hits(items, t, n - 1)
    }
}

/// Whether an itinerary titled `t` (both trimmed) lies on another day of the
/// trip: `others` pairs day numbers with their itineraries, and only days
/// `1..=day_count` other than `day_number` count.
pub open spec fn title_elsewhere(
    others: Seq<(i64, Vec<ItineraryItem>)>,
    day_number: i64,
    day_count: i64,
    t: Seq<char>,
) -> bool {
    exists|k: int, j: int|
        0 <= k < others.len() && 0 <= j < others[k].1@.len() && 1 <= others[k].0 <= day_count && others[k].0
            != day_number && #[trigger] trim_seq(others[k].1@[j].title@) == trim_seq(t)
}

/// `intent` + ": " + `field`: how every resolution message starts.
pub open spec fn lead(intent: Seq<char>, field: Seq<char>) -> Seq<char> {
    intent + ": "@ + field
}

/// A numeric reference: an itinerary id first, else a sort order; either must
/// name exactly one item, and a number that is both an id and a sort order is
/// refused.
pub open spec fn number_resolution(
    items: Seq<ItineraryItem>,
    v: i64,
    day_number: i64,
    field: Seq<char>,
    intent: Seq<char>,
) -> Result<ItineraryItem, Seq<char>> {
    let ids = id_hits(items, v, items.len() as int);
    let sorts = sort_hits(items, v, items.len() as int);
    if ids.len() > 0 && sorts.len() > 0 {
        Err(lead(intent, field) + " の数値 selector ("@ + dec(v) + ") が itinerary_id と sort_order の両方に一致し曖昧です — DB 更新しません"@)
    } else if ids.len() > 1 {
        Err(lead(intent, field) + " の itinerary_id ("@ + dec(v) + ") が Day "@ + dec(day_number) + " で曖昧です"@)
    } else if ids.len() == 1 {
        Ok(ids[0])
    } else if sorts.len() == 0 {
        Err(
            lead(intent, field) + " の itinerary_reference (id/sort_order "@ + dec(v) + ") が Day "@ + dec(day_number)
                + " に見つかりません"@,
        )
    } else if sorts.len() > 1 {
        Err(
            lead(intent, field) + " の itinerary_reference (sort_order "@ + dec(v) + ") が Day "@ + dec(day_number)
                + " で曖昧です"@,
        )
    } else {
        Ok(sorts[0])
    }
}

/// A title reference: it must name exactly one item; when it names none, the
/// message says whether the title lies on another day.
pub open spec fn title_resolution(
    items: Seq<ItineraryItem>,
    t: Seq<char>,
    elsewhere: bool,
    day_number: i64,
    field: Seq<char>,
    intent: Seq<char>,
    hint: Seq<char>,
) -> Result<ItineraryItem, Seq<char>> {
    let hits = title_hits(items, t, items.len() as int);
    if hits.len() == 0 {
        if elsewhere {
            Err(
                intent + ": "@ + hint + field + " の itinerary_reference (title \""@ + t + "\") は Day "@ + dec(
                    day_number,
                ) + " ではなく別 Day に存在します — DB 更新しません"@,
            )
        } else {
            Err(
                lead(intent, field) + " の itinerary_reference (title \""@ + t + "\") が Day "@ + dec(day_number)
                    + " に見つかりません"@,
            )
        }
    } else if hits.len() > 1 {
        Err(
            lead(intent, field) + " の itinerary_reference (title \""@ + t + "\") が Day "@ + dec(day_number)
                + " で曖昧です"@,
        )
    } else {
        Ok(hits[0])
    }
}

/// The itinerary that one reference names, or why it names none.
pub open spec fn ref_resolution(
    items: Seq<ItineraryItem>,
    key: Result<i64, Seq<char>>,
    others: Seq<(i64, Vec<ItineraryItem>)>,
    day_number: i64,
    day_count: i64,
    field: Seq<char>,
    intent: Seq<char>,
    hint: Seq<char>,
) -> Result<(i64, Seq<char>, i64), Seq<char>> {
    match key {
        Ok(v) => match number_resolution(items, v, day_number, field, intent) {
            Ok(it) => Ok(item_view(it)),
            Err(e) => Err(e),
        },
        Err(t) => match title_resolution(
            items,
            t,
            title_elsewhere(others, day_number, day_count, t),
            day_number,
            field,
            intent,
            hint,
        ) {
            Ok(it) => Ok(item_view(it)),
            Err(e) => Err(e),
        },
    }
}

/// The itineraries the first `n` references name, or the first failure.
pub open spec fn resolutions_upto(
    items: Seq<ItineraryItem>,
    refs: Seq<Result<i64, Seq<char>>>,
    others: Seq<(i64, Vec<ItineraryItem>)>,
    day_number: i64,
    day_count: i64,
    field: Seq<char>,
    intent: Seq<char>,
    hint: Seq<char>,
    n: int,
) -> Result<Seq<(i64, Seq<char>, i64)>, Seq<char>>
    decreases n,
{
    if n <= 0 {
        Ok(Seq::empty())
    } else {
        match resolutions_upto(items, refs, others, day_number, day_count, field, intent, hint, n - 1) {
            Err(e) => Err(e),
            Ok(prev) => match ref_resolution(items, refs[n - 1], others, day_number, day_count, field, intent, hint) {
                Err(e) => Err(e),
                Ok(x) => Ok(prev.push(x)),
            },
        }
    }
}

/// Every reference resolved, no itinerary named twice.
pub open spec fn order_resolution(
    items: Seq<ItineraryItem>,
    refs: Seq<Result<i64, Seq<char>>>,
    others: Seq<(i64, Vec<ItineraryItem>)>,
    day_number: i64,
    day_count: i64,
    field: Seq<char>,
    intent: Seq<char>,
    hint: Seq<char>,
) -> Result<Seq<(i64, Seq<char>, i64)>, Seq<char>> {
    match resolutions_upto(items, refs, others, day_number, day_count, field, intent, hint, refs.len() as int) {
        Err(e) => Err(e),
        Ok(rs) => if exists|i: int, j: int| 0 <= i < j < rs.len() && #[trigger] rs[i].0 == #[trigger] rs[j].0 {
            Err(lead(intent, field) + " に同一 itinerary の重複参照が含まれています"@)
        } else {
            Ok(rs)
        },
    }
}

pub open spec fn refs_view(refs: Seq<ItineraryRefKey>) -> Seq<Result<i64, Seq<char>>> {
    refs.map_values(|k: ItineraryRefKey| ref_view(k))
}

/// Whether an itinerary with this title (both trimmed) lies on a day of the
/// trip other than `day_number`; `others` holds the itineraries of the days
/// that could be read.
pub fn itinerary_title_exists_in_other_day(
    others: &Vec<(i64, Vec<ItineraryItem>)>,
    day_number: i64,
    day_count: i64,
    title: &str,
) -> (r: bool)
    ensures
        r == title_elsewhere(others@, day_number, day_count, title@),
{
    let t = str_trim(title);
    let mut k: usize = 0;
    while k < others.len()
        invariant
            k <= others@.len(),
            t@ == trim_seq(title@),
            forall|k2: int, j: int|
                0 <= k2 < k && 0 <= j < others@[k2].1@.len() && 1 <= others@[k2].0 <= day_count && others@[k2].0
                    != day_number ==> #[trigger] trim_seq(others@[k2].1@[j].title@) != trim_seq(title@),
        decreases others@.len() - k,
    {
        let entry = &others[k];
        if 1 <= entry.0 && entry.0 <= day_count && entry.0 != day_number {
            let mut j: usize = 0;
            while j < entry.1.len()
                invariant
                    k < others@.len(),
                    *entry == others@[k as int],
                    1 <= entry.0 <= day_count && entry.0 != day_number,
                    j <= entry.1@.len(),
                    t@ == trim_seq(title@),
                    forall|j2: int| 0 <= j2 < j ==> #[trigger] trim_seq(entry.1@[j2].title@) != trim_seq(title@),
                decreases entry.1@.len() - j,
            {
                if str_eq(str_trim(entry.1[j].title.as_str()), t) {
                    assert(trim_seq(others@[k as int].1@[j as int].title@) == trim_seq(title@));
                    return true;
                }
                j = j + 1;
            }
        }
        k = k + 1;
    }
    false
}

fn copy_opt_string(o: &Option<String>) -> (r: Option<String>)
    ensures
        r == *o,
{
    match o {
        Some(s) => Some(s.clone()),
        None => None,
    }
}

/// An itinerary row, copied field by field.
pub(crate) fn copy_item(it: &ItineraryItem) -> (r: ItineraryItem)
    ensures
        r == *it,
{
    ItineraryItem {
        id: it.id,
        trip_id: it.trip_id,
        day: it.day,
        title: it.title.clone(),
        note: copy_opt_string(&it.note),
        start_time: copy_opt_string(&it.start_time),
        sort_order: it.sort_order,
        duration_minutes: it.duration_minutes,
        travel_minutes: it.travel_minutes,
        location: copy_opt_string(&it.location),
        category: it.category,
        created_at: it.created_at.clone(),
        updated_at: it.updated_at.clone(),
    }
}

pub(crate) fn copy_items(v: &Vec<ItineraryItem>) -> (r: Vec<ItineraryItem>)
    ensures
        r@ == v@,
{
    let mut out: Vec<ItineraryItem> = Vec::new();
    let mut i: usize = 0;
    while i < v.len()
        invariant
            i <= v@.len(),
            out@ == v@.subrange(0, i as int),
        decreases v@.len() - i,
    {
        out.push(copy_item(&v[i]));
        i = i + 1;
        assert(out@ =~= v@.subrange(0, i as int));
    }
    assert(out@ =~= v@);
    out
}

/// Index of the item a numeric reference names, or the message for why none is.
fn resolve_number(items: &Vec<ItineraryItem>, v: i64, day_number: i64, field: &str, intent: &str) -> (r: Result<
    usize,
    String,
>)
    ensures
        match r {
            Ok(i) => i < items@.len() && number_resolution(items@, v, day_number, field@, intent@) == Ok::<
                ItineraryItem,
                Seq<char>,
            >(items@[i as int]),
            Err(e) => number_resolution(items@, v, day_number, field@, intent@) == Err::<ItineraryItem, Seq<char>>(
                e@,
            ),
        },
{
    let mut id_count: usize = 0;
    let mut id_first: usize = 0;
    let mut sort_count: usize = 0;
    let mut sort_first: usize = 0;
    let mut i: usize = 0;
    while i < items.len()
        invariant
            i <= items@.len(),
            id_count == id_hits(items@, v, i as int).len(),
            sort_count == sort_hits(items@, v, i as int).len(),
            id_count <= i && sort_count <= i,
            id_count > 0 ==> id_first < items@.len() && id_hits(items@, v, i as int)[0] == items@[id_first as int],
            sort_count > 0 ==> sort_first < items@.len() && sort_hits(items@, v, i as int)[0]
                == items@[sort_first as int],
        decreases items@.len() - i,
    {
        if items[i].id == v {
            if id_count == 0 {
                id_first = i;
            }
            id_count = id_count + 1;
        }
        if items[i].sort_order == v {
            if sort_count == 0 {
                sort_first = i;
            }
            sort_count = sort_count + 1;
        }
        i = i + 1;
    }
    if id_count > 0 && sort_count > 0 {
        let mut m = owned(intent);
        push_str(&mut m, ": ");
        push_str(&mut m, field);
        push_str(&mut m, " の数値 selector (");
        push_i64_decimal(&mut m, v);
        push_str(&mut m, ") が itinerary_id と sort_order の両方に一致し曖昧です — DB 更新しません");
        return Err(m);
    }
    if id_count > 1 {
        let mut m = owned(intent);
        push_str(&mut m, ": ");
        push_str(&mut m, field);
        push_str(&mut m, " の itinerary_id (");
        push_i64_decimal(&mut m, v);
        push_str(&mut m, ") が Day ");
        push_i64_decimal(&mut m, day_number);
        push_str(&mut m, " で曖昧です");
        return Err(m);
    }
    if id_count == 1 {
        return Ok(id_first);
    }
    if sort_count == 0 {
        let mut m = owned(intent);
        push_str(&mut m, ": ");
        push_str(&mut m, field);
        push_str(&mut m, " の itinerary_reference (id/sort_order ");
        push_i64_decimal(&mut m, v);
        push_str(&mut m, ") が Day ");
        push_i64_decimal(&mut m, day_number);
        push_str(&mut m, " に見つかりません");
        return Err(m);
    }
    if sort_count > 1 {
        let mut m = owned(intent);
        push_str(&mut m, ": ");
        push_str(&mut m, field);
        push_str(&mut m, " の itinerary_reference (sort_order ");
        push_i64_decimal(&mut m, v);
        push_str(&mut m, ") が Day ");
        push_i64_decimal(&mut m, day_number);
        push_str(&mut m, " で曖昧です");
        return Err(m);
    }
    Ok(sort_first)
}

/// Index of the item a title reference names, or the message for why none is.
fn resolve_title(
    items: &Vec<ItineraryItem>,
    title: &str,
    others: &Vec<(i64, Vec<ItineraryItem>)>,
    day_number: i64,
    day_count: i64,
    field: &str,
    intent: &str,
    hint: &str,
) -> (r: Result<usize, String>)
    ensures
        match r {
            Ok(i) => i < items@.len() && title_resolution(
                items@,
                title@,
                title_elsewhere(others@, day_number, day_count, title@),
                day_number,
                field@,
                intent@,
                hint@,
            ) == Ok::<ItineraryItem, Seq<char>>(items@[i as int]),
            Err(e) => title_resolution(
                items@,
                title@,
                title_elsewhere(others@, day_number, day_count, title@),
                day_number,
                field@,
                intent@,
                hint@,
            ) == Err::<ItineraryItem, Seq<char>>(e@),
        },
{
    let t = str_trim(title);
    let mut count: usize = 0;
    let mut first: usize = 0;
    let mut i: usize = 0;
    while i < items.len()
        invariant
            i <= items@.len(),
            t@ == trim_seq(title@),
            count == title_hits(items@, title@, i as int).len(),
            count <= i,
            count > 0 ==> first < items@.len() && title_hits(items@, title@, i as int)[0] == items@[first as int],
        decreases items@.len() - i,
    {
        if str_eq(str_trim(items[i].title.as_str()), t) {
            if count == 0 {
                first = i;
            }
            count = count + 1;
        }
        i = i + 1;
    }
    if count == 0 {
        if itinerary_title_exists_in_other_day(others, day_number, day_count, title) {
            let mut m = owned(intent);
            push_str(&mut m, ": ");
            push_str(&mut m, hint);
            push_str(&mut m, field);
            push_str(&mut m, " の itinerary_reference (title \"");
            push_str(&mut m, title);
            push_str(&mut m, "\") は Day ");
            push_i64_decimal(&mut m, day_number);
            push_str(&mut m, " ではなく別 Day に存在します — DB 更新しません");
            return Err(m);
        }
        let mut m = owned(intent);
        push_str(&mut m, ": ");
        push_str(&mut m, field);
        push_str(&mut m, " の itinerary_reference (title \"");
        push_str(&mut m, title);
        push_str(&mut m, "\") が Day ");
        push_i64_decimal(&mut m, day_number);
        push_str(&mut m, " に見つかりません");
        return Err(m);
    }
    if count > 1 {
        let mut m = owned(intent);
        push_str(&mut m, ": ");
        push_str(&mut m, field);
        push_str(&mut m, " の itinerary_reference (title \"");
        push_str(&mut m, title);
        push_str(&mut m, "\") が Day ");
        push_i64_decimal(&mut m, day_number);
        push_str(&mut m, " で曖昧です");
        return Err(m);
    }
    Ok(first)
}

/// The itinerary one reference names, or the message for why none is.
fn resolve_one(
    items: &Vec<ItineraryItem>,
    key: &ItineraryRefKey,
    others: &Vec<(i64, Vec<ItineraryItem>)>,
    day_number: i64,
    day_count: i64,
    field: &str,
    intent: &str,
    hint: &str,
) -> (r: Result<ResolvedDayItinerary, String>)
    ensures
        match r {
            Ok(x) => ref_resolution(items@, ref_view(*key), others@, day_number, day_count, field@, intent@, hint@)
                == Ok::<(i64, Seq<char>, i64), Seq<char>>(resolved_view(x)),
            Err(e) => ref_resolution(items@, ref_view(*key), others@, day_number, day_count, field@, intent@, hint@)
                == Err::<(i64, Seq<char>, i64), Seq<char>>(e@),
        },
{
    let picked = match key {
        ItineraryRefKey::Number(v) => resolve_number(items, *v, day_number, field, intent),
        ItineraryRefKey::Title(t) => resolve_title(items, t.as_str(), others, day_number, day_count, field, intent, hint),
    };
    match picked {
        Ok(i) => Ok(ResolvedDayItinerary { id: items[i].id, title: items[i].title.clone(), sort_order: items[i].sort_order }),
        Err(e) => Err(e),
    }
}

proof fn lemma_resolutions_error_stays(
    items: Seq<ItineraryItem>,
    refs: Seq<Result<i64, Seq<char>>>,
    others: Seq<(i64, Vec<ItineraryItem>)>,
    day_number: i64,
    day_count: i64,
    field: Seq<char>,
    intent: Seq<char>,
    hint: Seq<char>,
    k: int,
    m: int,
)
    requires
        resolutions_upto(items, refs, others, day_number, day_count, field, intent, hint, k) is Err,
        k <= m,
    ensures
        resolutions_upto(items, refs, others, day_number, day_count, field, intent, hint, m) == resolutions_upto(
            items,
            refs,
            others,
            day_number,
            day_count,
            field,
            intent,
            hint,
            k,
        ),
    decreases m - k,
{
    if k < m {
        lemma_resolutions_error_stays(items, refs, others, day_number, day_count, field, intent, hint, k, m - 1);
    }
}

/// Resolves every reference of an order list against `items`, the
/// itineraries a reference may name; `intent` and `field` lead each message,
/// and `hint` precedes the field where a title lies on another day.
pub fn resolve_order_in_candidates(
    items: &Vec<ItineraryItem>,
    others: &Vec<(i64, Vec<ItineraryItem>)>,
    day_number: i64,
    day_count: i64,
    refs: &Vec<ItineraryRefKey>,
    field: &str,
    intent: &str,
    hint: &str,
) -> (r: Result<Vec<ResolvedDayItinerary>, String>)
    ensures
        match r {
            Ok(v) => order_resolution(items@, refs_view(refs@), others@, day_number, day_count, field@, intent@, hint@)
                == Ok::<Seq<(i64, Seq<char>, i64)>, Seq<char>>(resolved_views(v@)),
            Err(e) => order_resolution(items@, refs_view(refs@), others@, day_number, day_count, field@, intent@, hint@)
                == Err::<Seq<(i64, Seq<char>, i64)>, Seq<char>>(e@),
        },
{
    let ghost rv = refs_view(refs@);
    let mut out: Vec<ResolvedDayItinerary> = Vec::new();
    let mut i: usize = 0;
    assert(resolved_views(out@) =~= Seq::<(i64, Seq<char>, i64)>::empty());
    while i < refs.len()
        invariant
            i <= refs@.len(),
            rv == refs_view(refs@),
            resolutions_upto(items@, rv, others@, day_number, day_count, field@, intent@, hint@, i as int) == Ok::<
                Seq<(i64, Seq<char>, i64)>,
                Seq<char>,
            >(resolved_views(out@)),
        decreases refs@.len() - i,
    {
        let x = resolve_one(items, &refs[i], others, day_number, day_count, field, intent, hint);
        assert(rv[i as int] == ref_view(refs@[i as int]));
        match x {
            Ok(x) => {
                let ghost before = out@;
                out.push(x);
                assert(resolved_views(out@) =~= resolved_views(before).push(resolved_view(x)));
            },
            Err(e) => {
                proof {
                    lemma_resolutions_error_stays(
                        items@,
                        rv,
                        others@,
                        day_number,
                        day_count,
                        field@,
                        intent@,
                        hint@,
                        i + 1,
                        rv.len() as int,
                    );
                }
                return Err(e);
            },
        }
        i = i + 1;
    }
    let ghost rs = resolved_views(out@);
    assert(rv.len() == refs@.len());
    let mut a: usize = 0;
    while a < out.len()
        invariant
            a <= out@.len(),
            rs == resolved_views(out@),
            rv == refs_view(refs@),
            resolutions_upto(items@, rv, others@, day_number, day_count, field@, intent@, hint@, rv.len() as int)
                == Ok::<Seq<(i64, Seq<char>, i64)>, Seq<char>>(rs),
            forall|x: int, y: int| 0 <= x < a && x < y < rs.len() ==> rs[x].0 != rs[y].0,
        decreases out@.len() - a,
    {
        let mut b: usize = a + 1;
        while b < out.len()
            invariant
                a < out@.len(),
                a + 1 <= b <= out@.len(),
                rs == resolved_views(out@),
                rv == refs_view(refs@),
                resolutions_upto(items@, rv, others@, day_number, day_count, field@, intent@, hint@, rv.len() as int)
                    == Ok::<Seq<(i64, Seq<char>, i64)>, Seq<char>>(rs),
                forall|x: int, y: int| 0 <= x < a && x < y < rs.len() ==> rs[x].0 != rs[y].0,
                forall|y: int| a < y < b ==> rs[a as int].0 != rs[y].0,
            decreases out@.len() - b,
        {
            if out[a].id == out[b].id {
                assert(rs[a as int].0 == rs[b as int].0);
                let mut m = owned(intent);
                push_str(&mut m, ": ");
                push_str(&mut m, field);
                push_str(&mut m, " に同一 itinerary の重複参照が含まれています");
                return Err(m);
            }
            b = b + 1;
        }
        a = a + 1;
    }
    assert(!(exists|x: int, y: int| 0 <= x < y < rs.len() && #[trigger] rs[x].0 == #[trigger] rs[y].0));
    Ok(out)
}

/// Resolves a reorder list against the itineraries of its day.
pub fn resolve_reorder_order_in_day(
    others: &Vec<(i64, Vec<ItineraryItem>)>,
    day_number: i64,
    day_count: i64,
    day_items: &Vec<ItineraryItem>,
    refs: &Vec<ItineraryRefKey>,
    field: &str,
) -> (r: Result<Vec<ResolvedDayItinerary>, String>)
    ensures
        match r {
            Ok(v) => order_resolution(
                day_items@,
                refs_view(refs@),
                others@,
                day_number,
                day_count,
                field@,
                "reorder_itinerary"@,
                "cross-day move は未対応です（別 intent として defer）。"@,
            ) == Ok::<Seq<(i64, Seq<char>, i64)>, Seq<char>>(resolved_views(v@)),
            Err(e) => order_resolution(
                day_items@,
                refs_view(refs@),
                others@,
                day_number,
                day_count,
                field@,
                "reorder_itinerary"@,
                "cross-day move は未対応です（別 intent として defer）。"@,
            ) == Err::<Seq<(i64, Seq<char>, i64)>, Seq<char>>(e@),
        },
{
    resolve_order_in_candidates(
        day_items,
        others,
        day_number,
        day_count,
        refs,
        field,
        "reorder_itinerary",
        "cross-day move は未対応です（別 intent として defer）。",
    )
}

/// Resolves a move list against the itineraries of one day.
pub fn resolve_move_order_in_day(
    others: &Vec<(i64, Vec<ItineraryItem>)>,
    day_number: i64,
    day_count: i64,
    day_items: &Vec<ItineraryItem>,
    refs: &Vec<ItineraryRefKey>,
    field: &str,
) -> (r: Result<Vec<ResolvedDayItinerary>, String>)
    ensures
        match r {
            Ok(v) => order_resolution(
                day_items@,
                refs_view(refs@),
                others@,
                day_number,
                day_count,
                field@,
                "move_itinerary"@,
                ""@,
            ) == Ok::<Seq<(i64, Seq<char>, i64)>, Seq<char>>(resolved_views(v@)),
            Err(e) => order_resolution(
                day_items@,
                refs_view(refs@),
                others@,
                day_number,
                day_count,
                field@,
                "move_itinerary"@,
                ""@,
            ) == Err::<Seq<(i64, Seq<char>, i64)>, Seq<char>>(e@),
        },
{
    resolve_order_in_candidates(day_items, others, day_number, day_count, refs, field, "move_itinerary", "")
}

/// Resolves the destination order after a move: the destination day's
/// itineraries and the moved one may be named.
pub fn resolve_move_after_destination_order(
    others: &Vec<(i64, Vec<ItineraryItem>)>,
    day_number: i64,
    day_count: i64,
    destination_items: &Vec<ItineraryItem>,
    moved_item: &ItineraryItem,
    refs: &Vec<ItineraryRefKey>,
    field: &str,
) -> (r: Result<Vec<ResolvedDayItinerary>, String>)
    ensures
        match r {
            Ok(v) => order_resolution(
                destination_items@.push(*moved_item),
                refs_view(refs@),
                others@,
                day_number,
                day_count,
                field@,
                "move_itinerary"@,
                ""@,
            ) == Ok::<Seq<(i64, Seq<char>, i64)>, Seq<char>>(resolved_views(v@)),
            Err(e) => order_resolution(
                destination_items@.push(*moved_item),
                refs_view(refs@),
                others@,
                day_number,
                day_count,
                field@,
                "move_itinerary"@,
                ""@,
            ) == Err::<Seq<(i64, Seq<char>, i64)>, Seq<char>>(e@),
        },
{
    let mut candidates = copy_items(destination_items);
    candidates.push(copy_item(moved_item));
    resolve_order_in_candidates(&candidates, others, day_number, day_count, refs, field, "move_itinerary", "")
}

} // verus!
