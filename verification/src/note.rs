//! Notes attached to a trip, a day or an itinerary: owner model, validation and
//! the resolution of itinerary references found in trip exports.
use vstd::prelude::*;

use crate::models::{ExportNote, ItineraryItem, ItineraryNoteKey, NoteOwnerType, TripExport};
use crate::text::{
    push_string, strings_view,
    chars_of, int_decimal, opt_view, owned, push_i64_decimal, push_str, push_u64_decimal, str_eq,
    str_trim, trim_seq, nat_decimal,
};

verus! {

/// A note owner whose existence has been checked.
#[derive(Clone, Copy, Debug, PartialEq, Eq, Structural)]
pub enum ResolvedNoteOwner {
    Trip(i64),
    Day(i64),
    Itinerary(i64),
}

impl ResolvedNoteOwner {
    pub fn owner_type(self) -> (r: NoteOwnerType)
        ensures
            r == (match self {
                ResolvedNoteOwner::Trip(_) => NoteOwnerType::Trip,
                ResolvedNoteOwner::Day(_) => NoteOwnerType::Day,
                ResolvedNoteOwner::Itinerary(_) => NoteOwnerType::Itinerary,
            }),
    {
        match self {
            ResolvedNoteOwner::Trip(_) => NoteOwnerType::Trip,
            ResolvedNoteOwner::Day(_) => NoteOwnerType::Day,
            ResolvedNoteOwner::Itinerary(_) => NoteOwnerType::Itinerary,
        }
    }

    pub fn owner_id(self) -> (r: i64)
        ensures
            r == (match self {
                ResolvedNoteOwner::Trip(id) => id,
                ResolvedNoteOwner::Day(id) => id,
                ResolvedNoteOwner::Itinerary(id) => id,
            }),
    {
        match self {
            ResolvedNoteOwner::Trip(id) => id,
            ResolvedNoteOwner::Day(id) => id,
            ResolvedNoteOwner::Itinerary(id) => id,
        }
    }
}

pub open spec fn msg_body_required() -> Seq<char> {
    "body は必須です"@
}

/// A note body must not be empty.
pub fn validate_body(body: &str) -> (r: Result<(), String>)
    ensures
        r is Ok <==> body@.len() > 0,
        r matches Err(e) ==> e@ == msg_body_required(),
{
    if body.is_empty() {
        Err(owned("body は必須です"))
    } else {
        Ok(())
    }
}

/// Which fields of an itinerary must agree with an itinerary key.
#[derive(Clone, Copy, Debug, PartialEq, Eq, Structural)]
pub enum KeyMatch {
    /// Day number and sort order.
    DaySort,
    /// Title and start time.
    TitleTime,
    /// Title.
    Title,
    /// Day number, start time and title.
    DayTimeTitle,
    /// Day number and title.
    DayTitle,
}

pub open spec fn key_matches(mode: KeyMatch, item: ItineraryItem, key: ItineraryNoteKey) -> bool {
    let same_day = item.day == key.day_number;
    let same_title = item.title@ == key.title@;
    let same_time = opt_view(item.start_time) == opt_view(key.start_time);
    match mode {
        KeyMatch::DaySort => same_day && item.sort_order == key.sort_order,
        KeyMatch::TitleTime => same_title && same_time,
        KeyMatch::Title => same_title,
        KeyMatch::DayTimeTitle => same_day && same_time && same_title,
        KeyMatch::DayTitle => same_day && same_title,
    }
}

/// The positions among `idxs` (kept in order) whose item matches `key`.
pub open spec fn select_matching(
    items: Seq<ItineraryItem>,
    idxs: Seq<usize>,
    mode: KeyMatch,
    key: ItineraryNoteKey,
) -> Seq<usize>
    decreases idxs.len(),
{
    if idxs.len() == 0 {
        Seq::<usize>::empty()
    } else {
        let rest = select_matching(items, idxs.drop_last(), mode, key);
        if key_matches(mode, items[idxs.last() as int], key) {
            rest.push(idxs.last())
        } else {
            rest
        }
    }
}

/// All positions `0..n`.
pub open spec fn all_positions(n: nat) -> Seq<usize> {
    Seq::new(n, |i: int| i as usize)
}

pub open spec fn msg_key_unresolved(key: ItineraryNoteKey) -> Seq<char> {
    "itinerary_key (day="@ + int_decimal(key.day_number as int) + ", sort_order="@ + int_decimal(
        key.sort_order as int,
    ) + ", title="@ + key.title@ + ") を itinerary_items から解決できません"@
}

pub open spec fn msg_key_ambiguous(day: i64, sort_order: i64, title: Seq<char>) -> Seq<char> {
    "itinerary_key が複数の itinerary_items に一致します（day="@ + int_decimal(day as int) + ", sort_order="@
        + int_decimal(sort_order as int) + ", title="@ + title + "）"@
}

/// Among day/sort-order candidates: unique title and start time, else unique title.
pub open spec fn resolve_among_spec(
    items: Seq<ItineraryItem>,
    candidates: Seq<usize>,
    key: ItineraryNoteKey,
) -> Result<i64, Seq<char>> {
    let by_title_time = select_matching(items, candidates, KeyMatch::TitleTime, key);
    let by_title = select_matching(items, candidates, KeyMatch::Title, key);
    if by_title_time.len() == 1 {
        Ok(items[by_title_time[0] as int].id)
    } else if by_title.len() == 1 {
        Ok(items[by_title[0] as int].id)
    } else if by_title.len() == 0 {
        Err(msg_key_unresolved(key))
    } else {
        Err(msg_key_ambiguous(key.day_number, key.sort_order, key.title@))
    }
}

/// The outcome of one fallback attempt: `Ok(None)` when nothing matched.
pub open spec fn try_resolve_spec(items: Seq<ItineraryItem>, mode: KeyMatch, key: ItineraryNoteKey) -> Result<
    Option<i64>,
    Seq<char>,
> {
    let m = select_matching(items, all_positions(items.len()), mode, key);
    if m.len() == 0 {
        Ok(None)
    } else if m.len() == 1 {
        Ok(Some(items[m[0] as int].id))
    } else {
        let first = items[m[0] as int];
        Err(msg_key_ambiguous(first.day, first.sort_order, first.title@))
    }
}

/// Without a day/sort-order match: day, start time and title; then day and title.
pub open spec fn resolve_fallback_spec(items: Seq<ItineraryItem>, key: ItineraryNoteKey) -> Result<
    i64,
    Seq<char>,
> {
    match try_resolve_spec(items, KeyMatch::DayTimeTitle, key) {
        Err(e) => Err(e),
        Ok(Some(id)) => Ok(id),
        Ok(None) => match try_resolve_spec(items, KeyMatch::DayTitle, key) {
            Err(e) => Err(e),
            Ok(Some(id)) => Ok(id),
            Ok(None) => Err(msg_key_unresolved(key)),
        },
    }
}

/// Which itinerary an export itinerary key refers to.
pub open spec fn resolve_key_spec(items: Seq<ItineraryItem>, key: ItineraryNoteKey) -> Result<i64, Seq<char>> {
    let by_day_sort = select_matching(items, all_positions(items.len()), KeyMatch::DaySort, key);
    if by_day_sort.len() == 1 {
        Ok(items[by_day_sort[0] as int].id)
    } else if by_day_sort.len() == 0 {
        resolve_fallback_spec(items, key)
    } else {
        resolve_among_spec(items, by_day_sort, key)
    }
}

fn opt_str_eq(a: &Option<String>, b: &Option<String>) -> (r: bool)
    ensures
        r == (opt_view(*a) == opt_view(*b)),
{
    match (a, b) {
        (Some(x), Some(y)) => str_eq(x.as_str(), y.as_str()),
        (None, None) => true,
        _ => false,
    }
}

fn item_matches_key(mode: KeyMatch, item: &ItineraryItem, key: &ItineraryNoteKey) -> (r: bool)
    ensures
        r == key_matches(mode, *item, *key),
{
    let same_day = item.day == key.day_number;
    match mode {
        KeyMatch::DaySort => same_day && item.sort_order == key.sort_order,
        KeyMatch::TitleTime => str_eq(item.title.as_str(), key.title.as_str()) && opt_str_eq(
            &item.start_time,
            &key.start_time,
        ),
        KeyMatch::Title => str_eq(item.title.as_str(), key.title.as_str()),
        KeyMatch::DayTimeTitle => same_day && opt_str_eq(&item.start_time, &key.start_time) && str_eq(
            item.title.as_str(),
            key.title.as_str(),
        ),
        KeyMatch::DayTitle => same_day && str_eq(item.title.as_str(), key.title.as_str()),
    }
}

/// The positions among `idxs` whose item matches `key` in `mode`.
fn select_positions(items: &[ItineraryItem], idxs: &Vec<usize>, mode: KeyMatch, key: &ItineraryNoteKey) -> (r:
    Vec<usize>)
    requires
        forall|k: int| 0 <= k < idxs@.len() ==> (#[trigger] idxs@[k]) < items@.len(),
    ensures
        r@ == select_matching(items@, idxs@, mode, *key),
        forall|k: int| 0 <= k < r@.len() ==> (#[trigger] r@[k]) < items@.len(),
{
    let mut out: Vec<usize> = Vec::new();
    let mut i: usize = 0;
    while i < idxs.len()
        invariant
            i <= idxs@.len(),
            forall|k: int| 0 <= k < idxs@.len() ==> (#[trigger] idxs@[k]) < items@.len(),
            out@ == select_matching(items@, idxs@.subrange(0, i as int), mode, *key),
            forall|k: int| 0 <= k < out@.len() ==> (#[trigger] out@[k]) < items@.len(),
        decreases idxs@.len() - i,
    {
        let p = idxs[i];
        if item_matches_key(mode, &items[p], key) {
            out.push(p);
        }
        assert(idxs@.subrange(0, i + 1).drop_last() =~= idxs@.subrange(0, i as int));
        i = i + 1;
    }
    assert(idxs@.subrange(0, idxs@.len() as int) =~= idxs@);
    out
}

fn every_position(n: usize) -> (r: Vec<usize>)
    ensures
        r@ == all_positions(n as nat),
{
    let mut out: Vec<usize> = Vec::new();
    let mut i: usize = 0;
    while i < n
        invariant
            i <= n,
            out@ == all_positions(i as nat),
        decreases n - i,
    {
        out.push(i);
        i = i + 1;
        assert(out@ =~= all_positions(i as nat));
    }
    out
}

fn unresolved_key_message(key: &ItineraryNoteKey) -> (r: String)
    ensures
        r@ == msg_key_unresolved(*key),
{
    let mut s = owned("itinerary_key (day=");
    push_i64_decimal(&mut s, key.day_number);
    push_str(&mut s, ", sort_order=");
    push_i64_decimal(&mut s, key.sort_order);
    push_str(&mut s, ", title=");
    push_str(&mut s, key.title.as_str());
    push_str(&mut s, ") を itinerary_items から解決できません");
    s
}

fn ambiguous_key_message(day: i64, sort_order: i64, title: &str) -> (r: String)
    ensures
        r@ == msg_key_ambiguous(day, sort_order, title@),
{
    let mut s = owned("itinerary_key が複数の itinerary_items に一致します（day=");
    push_i64_decimal(&mut s, day);
    push_str(&mut s, ", sort_order=");
    push_i64_decimal(&mut s, sort_order);
    push_str(&mut s, ", title=");
    push_str(&mut s, title);
    push_str(&mut s, "）");
    s
}

/// Resolves a key among the items that share its day and sort order.
pub fn resolve_itinerary_id_among_candidates(
    items: &[ItineraryItem],
    candidates: &Vec<usize>,
    key: &ItineraryNoteKey,
) -> (r: Result<i64, String>)
    requires
        forall|k: int| 0 <= k < candidates@.len() ==> (#[trigger] candidates@[k]) < items@.len(),
    ensures
        crate::text::result_view(r) == resolve_among_spec(items@, candidates@, *key),
{
    let by_title_time = select_positions(items, candidates, KeyMatch::TitleTime, key);
    if by_title_time.len() == 1 {
        return Ok(items[by_title_time[0]].id);
    }
    let by_title = select_positions(items, candidates, KeyMatch::Title, key);
    if by_title.len() == 1 {
        Ok(items[by_title[0]].id)
    } else if by_title.len() == 0 {
        Err(unresolved_key_message(key))
    } else {
        Err(ambiguous_key_message(key.day_number, key.sort_order, key.title.as_str()))
    }
}

/// One fallback attempt: nothing, the unique match, or an ambiguity error.
pub fn try_resolve_itinerary_by(items: &[ItineraryItem], mode: KeyMatch, key: &ItineraryNoteKey) -> (r: Result<
    Option<i64>,
    String,
>)
    ensures
        crate::text::result_view(r) == try_resolve_spec(items@, mode, *key),
{
    let all = every_position(items.len());
    let m = select_positions(items, &all, mode, key);
    if m.len() == 0 {
        Ok(None)
    } else if m.len() == 1 {
        Ok(Some(items[m[0]].id))
    } else {
        let first = &items[m[0]];
        Err(ambiguous_key_message(first.day, first.sort_order, first.title.as_str()))
    }
}

/// Resolution when no item has the key's day and sort order.
pub fn resolve_itinerary_id_fallback(items: &[ItineraryItem], key: &ItineraryNoteKey) -> (r: Result<i64, String>)
    ensures
        crate::text::result_view(r) == resolve_fallback_spec(items@, *key),
{
    match try_resolve_itinerary_by(items, KeyMatch::DayTimeTitle, key) {
        Err(e) => return Err(e),
        Ok(Some(id)) => return Ok(id),
        Ok(None) => {},
    }
    match try_resolve_itinerary_by(items, KeyMatch::DayTitle, key) {
        Err(e) => Err(e),
        Ok(Some(id)) => Ok(id),
        Ok(None) => Err(unresolved_key_message(key)),
    }
}

/// Finds the itinerary that an export itinerary key refers to: by day and
/// sort order; when several share them, by title and start time, then title;
/// when none does, by day, start time and title, then day and title.
pub fn resolve_itinerary_id_from_export_items(items: &[ItineraryItem], key: &ItineraryNoteKey) -> (r: Result<
    i64,
    String,
>)
    ensures
        crate::text::result_view(r) == resolve_key_spec(items@, *key),
{
    let all = every_position(items.len());
    let by_day_sort = select_positions(items, &all, KeyMatch::DaySort, key);
    if by_day_sort.len() == 1 {
        Ok(items[by_day_sort[0]].id)
    } else if by_day_sort.len() == 0 {
        resolve_itinerary_id_fallback(items, key)
    } else {
        resolve_itinerary_id_among_candidates(items, &by_day_sort, key)
    }
}

/// The `notes[i]` prefix of error messages.
pub open spec fn note_prefix(index: nat) -> Seq<char> {
    "notes["@ + nat_decimal(index) + "]"@
}

/// The validation errors of one export note.
pub open spec fn note_errors(
    note: ExportNote,
    index: nat,
    day_count: i64,
    items: Seq<ItineraryItem>,
) -> Seq<Seq<char>> {
    let prefix = note_prefix(index);
    let body_error: Seq<Seq<char>> = seq![prefix + ": body は必須です"@];
    match note {
        ExportNote::Trip { body, .. } => if body@.len() == 0 {
            body_error
        } else {
            Seq::empty()
        },
        ExportNote::Day { day_number, body, .. } => (if body@.len() == 0 {
            body_error
        } else {
            Seq::empty()
        }) + (if day_number < 1 || day_number > day_count {
            seq![
                prefix + ": day_number ("@ + int_decimal(day_number as int) + ") は旅行期間 (1..="@
                    + int_decimal(day_count as int) + ") の範囲外です"@,
            ]
        } else {
            Seq::empty()
        }),
        ExportNote::Itinerary { itinerary_key, body, .. } => (if body@.len() == 0 {
            body_error
        } else {
            Seq::empty()
        }) + (if trim_seq(itinerary_key.title@).len() == 0 {
            seq![prefix + ": itinerary_key.title は必須です"@]
        } else {
            Seq::empty()
        }) + (match resolve_key_spec(items, itinerary_key) {
            Err(e) => seq![prefix + ": "@ + e],
            Ok(_) => Seq::empty(),
        }),
    }
}

/// The validation errors of the first `n` notes, in order.
pub open spec fn notes_errors(
    notes: Seq<ExportNote>,
    n: nat,
    day_count: i64,
    items: Seq<ItineraryItem>,
) -> Seq<Seq<char>>
    decreases n,
{
    if n == 0 {
        Seq::empty()
    } else {
        notes_errors(notes, (n - 1) as nat, day_count, items) + note_errors(
            notes[n - 1],
            (n - 1) as nat,
            day_count,
            items,
        )
    }
}

fn note_prefix_text(index: usize) -> (r: String)
    ensures
        r@ == note_prefix(index as nat),
{
    let mut s = owned("notes[");
    push_u64_decimal(&mut s, index as u64);
    push_str(&mut s, "]");
    s
}

fn prefixed(prefix: &String, rest: &str) -> (r: String)
    ensures
        r@ == prefix@ + rest@,
{
    let mut s = owned(prefix.as_str());
    push_str(&mut s, rest);
    s
}

/// Validation errors of the notes in an export. `day_count` is the number of
/// days of the trip's date range; without it (no or invalid dates) there are
/// no note errors.
pub fn collect_export_note_validation_errors(export: &TripExport, day_count: Option<i64>) -> (r: Vec<String>)
    ensures
        strings_view(r@) == (match day_count {
            Some(d) => notes_errors(
                crate::models::opt_vec_view(export.notes),
                crate::models::opt_vec_view(export.notes).len(),
                d,
                export.itinerary_items@,
            ),
            None => Seq::empty(),
        }),
{
    let mut errors: Vec<String> = Vec::new();
    let day_count = match day_count {
        Some(d) => d,
        None => {
            assert(strings_view(errors@) =~= Seq::empty());
            return errors;
        },
    };
    let notes = export.notes();
    let items = export.itinerary_items.as_slice();
    let mut i: usize = 0;
    assert(strings_view(errors@) =~= Seq::empty());
    while i < notes.len()
        invariant
            i <= notes@.len(),
            notes@ == crate::models::opt_vec_view(export.notes),
            items@ == export.itinerary_items@,
            strings_view(errors@) == notes_errors(notes@, i as nat, day_count, items@),
        decreases notes@.len() - i,
    {
        let prefix = note_prefix_text(i);
        let ghost start = strings_view(errors@);
        match &notes[i] {
            ExportNote::Trip { body, .. } => {
                if body.as_str().is_empty() {
                    push_string(&mut errors, prefixed(&prefix, ": body は必須です"));
                }
            },
            ExportNote::Day { day_number, body, .. } => {
                if body.as_str().is_empty() {
                    push_string(&mut errors, prefixed(&prefix, ": body は必須です"));
                }
                if *day_number < 1 || *day_number > day_count {
                    let mut m = prefixed(&prefix, ": day_number (");
                    push_i64_decimal(&mut m, *day_number);
                    push_str(&mut m, ") は旅行期間 (1..=");
                    push_i64_decimal(&mut m, day_count);
                    push_str(&mut m, ") の範囲外です");
                    push_string(&mut errors, m);
                }
            },
            ExportNote::Itinerary { itinerary_key, body, .. } => {
                if body.as_str().is_empty() {
                    push_string(&mut errors, prefixed(&prefix, ": body は必須です"));
                }
                if str_trim(itinerary_key.title.as_str()).is_empty() {
                    push_string(&mut errors, prefixed(&prefix, ": itinerary_key.title は必須です"));
                }
                match resolve_itinerary_id_from_export_items(items, itinerary_key) {
                    Err(e) => {
                        let mut m = prefixed(&prefix, ": ");
                        push_str(&mut m, e.as_str());
                        push_string(&mut errors, m);
                    },
                    Ok(_) => {},
                }
            },
        }
        assert(strings_view(errors@) =~= start + note_errors(notes@[i as int], i as nat, day_count, items@));
        i = i + 1;
    }
    errors
}

// ---------------------------------------------------------------------------
// Notes in the export.

/// The day number of the last day with this id.
pub open spec fn day_number_of(days: Seq<crate::models::Day>, id: i64, n: int) -> Option<i64>
    decreases n,
{
    if n <= 0 || n > days.len() {
        None
    } else if days[n - 1].id == id {
        Some(days[n - 1].day_number)
    } else {
        day_number_of(days, id, n - 1)
    }
}

/// The position of the last itinerary with this id.
pub open spec fn itinerary_position(items: Seq<ItineraryItem>, id: i64, n: int) -> Option<int>
    decreases n,
{
    if n <= 0 || n > items.len() {
        None
    } else if items[n - 1].id == id {
        Some(n - 1)
    } else {
        itinerary_position(items, id, n - 1)
    }
}

/// `x` is the export form of a stored note, with the trip's days and
/// itineraries (as read) naming its owner: a day note by the day's number,
/// an itinerary note by the itinerary's day, sort order, start time and title.
pub open spec fn is_export_note_of(
    note: crate::models::Note,
    days: Seq<crate::models::Day>,
    items: Seq<ItineraryItem>,
    x: ExportNote,
) -> bool {
    match note.owner_type {
        NoteOwnerType::Trip => x matches ExportNote::Trip { title, body } && opt_view(title) == opt_view(note.title)
            && body@ == note.body@,
        NoteOwnerType::Day => match day_number_of(days, note.owner_id, days.len() as int) {
            None => false,
            Some(d) => x matches ExportNote::Day { day_number, title, body } && day_number == d && opt_view(title)
                == opt_view(note.title) && body@ == note.body@,
        },
        NoteOwnerType::Itinerary => match itinerary_position(items, note.owner_id, items.len() as int) {
            None => false,
            Some(j) => x matches ExportNote::Itinerary { itinerary_key, title, body } && itinerary_key.day_number
                == items[j].day && itinerary_key.sort_order == items[j].sort_order && opt_view(itinerary_key.start_time)
                == opt_view(items[j].start_time) && itinerary_key.title@ == items[j].title@ && opt_view(title)
                == opt_view(note.title) && body@ == note.body@,
        },
    }
}

/// Why a stored note has no export form (its owner is not among the days
/// or itineraries read), if that is so.
pub open spec fn export_note_error(note: crate::models::Note, days: Seq<crate::models::Day>, items: Seq<ItineraryItem>) -> Option<
    Seq<char>,
> {
    match note.owner_type {
        NoteOwnerType::Trip => None,
        NoteOwnerType::Day => match day_number_of(days, note.owner_id, days.len() as int) {
            None => Some("Day Note の owner_id "@ + int_decimal(note.owner_id as int) + " が見つかりません"@),
            Some(_) => None,
        },
        NoteOwnerType::Itinerary => match itinerary_position(items, note.owner_id, items.len() as int) {
            None => Some("Itinerary Note の owner_id "@ + int_decimal(note.owner_id as int) + " が見つかりません"@),
            Some(_) => None,
        },
    }
}

/// The first note, from position `i` on, without an export form.
pub open spec fn first_unexportable(
    notes: Seq<crate::models::Note>,
    days: Seq<crate::models::Day>,
    items: Seq<ItineraryItem>,
    i: int,
) -> Option<int>
    decreases notes.len() - i,
{
    if i < 0 || i >= notes.len() {
        None
    } else if export_note_error(notes[i], days, items) is Some {
        Some(i)
    } else {
        first_unexportable(notes, days, items, i + 1)
    }
}

fn day_number_for(days: &Vec<crate::models::Day>, id: i64) -> (r: Option<i64>)
    ensures
        r == day_number_of(days@, id, days@.len() as int),
{
    let mut n: usize = days.len();
    while n > 0
        invariant
            n <= days@.len(),
            day_number_of(days@, id, days@.len() as int) == day_number_of(days@, id, n as int),
        decreases n,
    {
        if days[n - 1].id == id {
            return Some(days[n - 1].day_number);
        }
        n = n - 1;
    }
    None
}

fn itinerary_index_for(items: &Vec<ItineraryItem>, id: i64) -> (r: Option<usize>)
    ensures
        match r {
            Some(j) => itinerary_position(items@, id, items@.len() as int) == Some(j as int) && j < items@.len(),
            None => itinerary_position(items@, id, items@.len() as int) is None,
        },
{
    let mut n: usize = items.len();
    while n > 0
        invariant
            n <= items@.len(),
            itinerary_position(items@, id, items@.len() as int) == itinerary_position(items@, id, n as int),
        decreases n,
    {
        if items[n - 1].id == id {
            return Some(n - 1);
        }
        n = n - 1;
    }
    None
}

/// The trip's notes in export form, in the order read (`notes`), their
/// owners named with the trip's days and itineraries as read; the first
/// note whose owner is missing is an error.
pub fn build_export_notes(
    notes: Vec<crate::models::Note>,
    days: &Vec<crate::models::Day>,
    itineraries: &Vec<ItineraryItem>,
) -> (r: Result<Vec<ExportNote>, String>)
    ensures
        match first_unexportable(notes@, days@, itineraries@, 0) {
            Some(i) => r is Err && Some(r->Err_0@) == export_note_error(notes@[i], days@, itineraries@),
            None => r matches Ok(v) && v@.len() == notes@.len() && forall|i: int|
                0 <= i < notes@.len() ==> #[trigger] is_export_note_of(notes@[i], days@, itineraries@, v@[i]),
        },
{
    let mut out: Vec<ExportNote> = Vec::new();
    let mut i: usize = 0;
    while i < notes.len()
        invariant
            i <= notes@.len(),
            out@.len() == i,
            first_unexportable(notes@, days@, itineraries@, 0) == first_unexportable(notes@, days@, itineraries@, i as int),
            forall|k: int| 0 <= k < i ==> #[trigger] is_export_note_of(notes@[k], days@, itineraries@, out@[k]),
        decreases notes@.len() - i,
    {
        let note = &notes[i];
        let x = match note.owner_type {
            NoteOwnerType::Trip => ExportNote::Trip {
                title: crate::proposal::apply::opt_string_copy(&note.title),
                body: owned(note.body.as_str()),
            },
            NoteOwnerType::Day => match day_number_for(days, note.owner_id) {
                Some(d) => ExportNote::Day {
                    day_number: d,
                    title: crate::proposal::apply::opt_string_copy(&note.title),
                    body: owned(note.body.as_str()),
                },
                None => {
                    let mut m = owned("Day Note の owner_id ");
                    push_i64_decimal(&mut m, note.owner_id);
                    push_str(&mut m, " が見つかりません");
                    return Err(m);
                },
            },
            NoteOwnerType::Itinerary => match itinerary_index_for(itineraries, note.owner_id) {
                Some(j) => {
                    let item = &itineraries[j];
                    ExportNote::Itinerary {
                        itinerary_key: ItineraryNoteKey {
                            day_number: item.day,
                            sort_order: item.sort_order,
                            start_time: crate::proposal::apply::opt_string_copy(&item.start_time),
                            title: owned(item.title.as_str()),
                        },
                        title: crate::proposal::apply::opt_string_copy(&note.title),
                        body: owned(note.body.as_str()),
                    }
                },
                None => {
                    let mut m = owned("Itinerary Note の owner_id ");
                    push_i64_decimal(&mut m, note.owner_id);
                    push_str(&mut m, " が見つかりません");
                    return Err(m);
                },
            },
        };
        assert(is_export_note_of(notes@[i as int], days@, itineraries@, x));
        out.push(x);
        i = i + 1;
    }
    Ok(out)
}

// ---------------------------------------------------------------------------
// Choosing a note's owner from the command's options.

/// The owner a note command names, before it is looked up: a trip, a day of
/// a trip (by number), or an itinerary.
#[derive(Clone, Copy, Debug, PartialEq, Eq, Structural)]
pub enum NoteOwnerRequest {
    Trip(i64),
    Day(i64, i64),
    Itinerary(i64),
}

/// The owner named by `--trip`, `--trip` with `--day`, or `--itinerary`
/// alone; any other combination is an error.
pub open spec fn note_owner_request_of(trip: Option<i64>, day: Option<i64>, itinerary: Option<i64>) -> Result<
    NoteOwnerRequest,
    Seq<char>,
> {
    match (trip, day, itinerary) {
        (Some(t), None, None) => Ok(NoteOwnerRequest::Trip(t)),
        (Some(t), Some(d), None) => Ok(NoteOwnerRequest::Day(t, d)),
        (None, None, Some(i)) => Ok(NoteOwnerRequest::Itinerary(i)),
        (None, Some(_), None) => Err("--day を指定する場合は --trip も必要です"@),
        (None, None, None) => Err("owner を指定してください (--trip、--trip + --day、または --itinerary)"@),
        _ => Err("owner は --trip、--trip + --day、--itinerary のいずれか1つだけ指定してください"@),
    }
}

/// Reads which owner a note command names (the lookups follow).
pub fn note_owner_request(trip: Option<i64>, day: Option<i64>, itinerary: Option<i64>) -> (r: Result<
    NoteOwnerRequest,
    String,
>)
    ensures
        crate::text::result_view(r) == note_owner_request_of(trip, day, itinerary),
{
    match (trip, day, itinerary) {
        (Some(t), None, None) => Ok(NoteOwnerRequest::Trip(t)),
        (Some(t), Some(d), None) => Ok(NoteOwnerRequest::Day(t, d)),
        (None, None, Some(i)) => Ok(NoteOwnerRequest::Itinerary(i)),
        (None, Some(_), None) => Err(owned("--day を指定する場合は --trip も必要です")),
        (None, None, None) => Err(owned("owner を指定してください (--trip、--trip + --day、または --itinerary)")),
        _ => Err(owned("owner は --trip、--trip + --day、--itinerary のいずれか1つだけ指定してください")),
    }
}

} // verus!
