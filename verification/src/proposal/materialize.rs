//! Turning a Trip Proposal Envelope into a schema v8 Trip export: the report
//! type, the options, and the decisions made on the proposal's content.
use vstd::prelude::*;

use crate::json::{
    as_array, as_object, get_member, json_object, member, non_empty_string, non_empty_text, JsonKind, JsonMembers,
    JsonValue,
};
use crate::models::{category_parse, ExportDayV3, ExportItineraryV3, ItineraryCategory};
use crate::proposal::envelope::confirmed_range;
use crate::text::{opt_view, owned, push_str, push_string, str_eq, strings_view, trim_seq};

verus! {

pub const PROPOSAL_MATERIALIZE_REPORT_SCHEMA_VERSION: i32 = 2;

#[derive(Debug, PartialEq, Eq)]
pub struct ProposalMaterializeOutputSummary {
    pub trip_name: String,
    pub start_date: String,
    pub end_date: String,
    pub day_count: i64,
    pub itinerary_count: usize,
}

#[derive(Debug, PartialEq, Eq)]
pub struct ProposalMaterializeDryRunReport {
    pub schema_version: i32,
    pub file: String,
    pub dry_run: bool,
    pub confirm: bool,
    pub valid: bool,
    pub envelope_valid: bool,
    pub trip_export_valid: bool,
    pub errors: Vec<String>,
    pub warnings: Vec<String>,
    pub required_decisions: Vec<String>,
    pub output: Option<ProposalMaterializeOutputSummary>,
    pub trip_id: Option<i64>,
}

impl ProposalMaterializeDryRunReport {
    /// An invalid report with no messages and no output.
    pub fn new(file: &str, dry_run: bool, confirm: bool) -> (r: Self)
        ensures
            r.schema_version == PROPOSAL_MATERIALIZE_REPORT_SCHEMA_VERSION,
            r.file@ == file@,
            r.dry_run == dry_run,
            r.confirm == confirm,
            !r.valid && !r.envelope_valid && !r.trip_export_valid,
            r.errors@.len() == 0 && r.warnings@.len() == 0 && r.required_decisions@.len() == 0,
            r.output is None && r.trip_id is None,
    {
        ProposalMaterializeDryRunReport {
            schema_version: PROPOSAL_MATERIALIZE_REPORT_SCHEMA_VERSION,
            file: owned(file),
            dry_run,
            confirm,
            valid: false,
            envelope_valid: false,
            trip_export_valid: false,
            errors: Vec::new(),
            warnings: Vec::new(),
            required_decisions: Vec::new(),
            output: None,
            trip_id: None,
        }
    }
}

/// Dates given on the command line, which take precedence over the proposal's.
#[derive(Debug, Default, PartialEq, Eq)]
pub struct ProposalMaterializeParams {
    pub start_date: Option<String>,
    pub end_date: Option<String>,
}

#[derive(Debug, PartialEq, Eq)]
pub struct ProposalMaterializeOptions {
    pub dry_run: bool,
    pub confirm: bool,
    pub output: Option<String>,
    pub params: ProposalMaterializeParams,
    pub json: bool,
}

/// A day has something to adopt: a summary that is not blank, or an itinerary
/// whose title is not blank.
pub open spec fn day_is_adoptable(day: ExportDayV3) -> bool {
    ||| match opt_view(day.summary) {
        Some(s) => trim_seq(s).len() > 0,
        None => false,
    }
    ||| exists|j: int| 0 <= j < day.itineraries@.len() && trim_seq(#[trigger] day.itineraries@[j].title@).len() > 0
}

fn day_has_content(day: &ExportDayV3) -> (r: bool)
    ensures
        r == day_is_adoptable(*day),
{
    match &day.summary {
        Some(s) => {
            if crate::text::str_trim(s.as_str()).unicode_len() > 0 {
                return true;
            }
        },
        None => {},
    }
    let mut j: usize = 0;
    while j < day.itineraries.len()
        invariant
            j <= day.itineraries@.len(),
            forall|i: int| 0 <= i < j ==> trim_seq(#[trigger] day.itineraries@[i].title@).len() == 0,
        decreases day.itineraries@.len() - j,
    {
        if crate::text::str_trim(day.itineraries[j].title.as_str()).unicode_len() > 0 {
            return true;
        }
        j = j + 1;
    }
    false
}

/// Whether some day has something to adopt.
pub fn has_adoptable_content(days: &[ExportDayV3]) -> (r: bool)
    ensures
        r == exists|i: int| 0 <= i < days@.len() && day_is_adoptable(#[trigger] days@[i]),
{
    let mut i: usize = 0;
    while i < days.len()
        invariant
            i <= days@.len(),
            forall|k: int| 0 <= k < i ==> !day_is_adoptable(#[trigger] days@[k]),
        decreases days@.len() - i,
    {
        if day_has_content(&days[i]) {
            return true;
        }
        i = i + 1;
    }
    false
}

/// The first confirmed candidate range from position `i` on, with its start and end.
pub open spec fn confirmed_range_from(a: Seq<JsonValue>, i: int) -> Option<(Seq<char>, Seq<char>)>
    decreases a.len() - i,
{
    if i < 0 || i >= a.len() {
        None
    } else if confirmed_range(a[i]) {
        let o = as_object(a[i])->0;
        Some((non_empty_text(member(o, "start"@))->0, non_empty_text(member(o, "end"@))->0))
    } else {
        confirmed_range_from(a, i + 1)
    }
}

pub open spec fn msg_both_dates_required() -> Seq<char> {
    "--start と --end は両方指定してください"@
}

pub open spec fn msg_dates_undecided() -> Seq<char> {
    "start_date / end_date が未確定です（proposal 内の確定日付、confirmed な candidate_date_ranges、または --start / --end を指定してください）"@
}

/// The trip's dates: both command-line dates, else the proposal's start and
/// end dates, else the first confirmed candidate range.
pub open spec fn materialize_dates(
    p: Seq<(String, JsonValue)>,
    start: Option<Seq<char>>,
    end: Option<Seq<char>>,
) -> Result<(Seq<char>, Seq<char>), Seq<char>> {
    if start is Some != end is Some {
        Err(msg_both_dates_required())
    } else if start is Some {
        Ok((start->0, end->0))
    } else if non_empty_text(member(p, "start_date"@)) is Some && non_empty_text(member(p, "end_date"@)) is Some {
        Ok((non_empty_text(member(p, "start_date"@))->0, non_empty_text(member(p, "end_date"@))->0))
    } else {
        match member(p, "candidate_date_ranges"@) {
            Some(v) => match as_array(v) {
                Some(a) => match confirmed_range_from(a, 0) {
                    Some(r) => Ok(r),
                    None => Err(msg_dates_undecided()),
                },
                None => Err(msg_dates_undecided()),
            },
            None => Err(msg_dates_undecided()),
        }
    }
}

pub open spec fn pair_view(r: Result<(String, String), String>) -> Result<(Seq<char>, Seq<char>), Seq<char>> {
    match r {
        Ok((a, b)) => Ok((a@, b@)),
        Err(e) => Err(e@),
    }
}

/// Decides the trip's start and end dates for materializing a proposal.
pub fn resolve_materialize_dates(proposal: &JsonMembers, params: &ProposalMaterializeParams) -> (r: Result<
    (String, String),
    String,
>)
    ensures
        pair_view(r) == materialize_dates(proposal@, opt_view(params.start_date), opt_view(params.end_date)),
{
    if params.start_date.is_some() != params.end_date.is_some() {
        return Err(owned("--start と --end は両方指定してください"));
    }
    match (&params.start_date, &params.end_date) {
        (Some(s), Some(e)) => return Ok((owned(s.as_str()), owned(e.as_str()))),
        _ => {},
    }
    let start = non_empty_string(get_member(proposal, "start_date"));
    let end = non_empty_string(get_member(proposal, "end_date"));
    match (start, end) {
        (Some(s), Some(e)) => return Ok((s, e)),
        _ => {},
    }
    let ranges = get_member(proposal, "candidate_date_ranges");
    match ranges {
        Some(v) => match &v.kind {
            JsonKind::Array(a) => {
                let mut i: usize = 0;
                while i < a.len()
                    invariant
                        i <= a@.len(),
                        as_array(*v) == Some(a@),
                        member(proposal@, "candidate_date_ranges"@) == Some(*v),
                        params.start_date is None && params.end_date is None,
                        !(non_empty_text(member(proposal@, "start_date"@)) is Some && non_empty_text(
                            member(proposal@, "end_date"@),
                        ) is Some),
                        confirmed_range_from(a@, 0) == confirmed_range_from(a@, i as int),
                    decreases a@.len() - i,
                {
                    match json_object(&a[i]) {
                        Some(o) => {
                            let confirmed = match get_member(o, "confirmed") {
                                Some(c) => match &c.kind {
                                    JsonKind::Bool(b) => *b,
                                    _ => false,
                                },
                                None => false,
                            };
                            if confirmed {
                                let s = non_empty_string(get_member(o, "start"));
                                let e = non_empty_string(get_member(o, "end"));
                                match (s, e) {
                                    (Some(s), Some(e)) => return Ok((s, e)),
                                    _ => {},
                                }
                            }
                        },
                        None => {},
                    }
                    i = i + 1;
                }
            },
            _ => {},
        },
        None => {},
    }
    Err(
        owned(
            "start_date / end_date が未確定です（proposal 内の確定日付、confirmed な candidate_date_ranges、または --start / --end を指定してください）",
        ),
    )
}

/// Whether the proposal alone (no command-line dates) leaves the dates undecided.
pub fn needs_date_decision(proposal: &JsonMembers) -> (r: bool)
    ensures
        r == materialize_dates(proposal@, None, None) is Err,
{
    let params = ProposalMaterializeParams { start_date: None, end_date: None };
    resolve_materialize_dates(proposal, &params).is_err()
}

/// The list with each text appended unless it is already there.
pub open spec fn append_unique(list: Seq<Seq<char>>, items: Seq<Seq<char>>) -> Seq<Seq<char>>
    decreases items.len(),
{
    if items.len() == 0 {
        list
    } else {
        let prefix = append_unique(list, items.drop_last());
        if prefix.contains(items.last()) {
            prefix
        } else {
            prefix.push(items.last())
        }
    }
}

/// The trimmed, non-blank texts among the array's elements (none for anything else).
pub open spec fn trimmed_texts(v: Option<JsonValue>) -> Seq<Seq<char>> {
    match v {
        Some(x) => match as_array(x) {
            Some(a) => trimmed_text_elements(a),
            None => Seq::empty(),
        },
        None => Seq::empty(),
    }
}

pub open spec fn trimmed_text_elements(a: Seq<JsonValue>) -> Seq<Seq<char>>
    decreases a.len(),
{
    if a.len() == 0 {
        Seq::empty()
    } else {
        trimmed_text_elements(a.drop_last()) + match non_empty_text(Some(a.last())) {
            Some(t) => seq![t],
            None => Seq::empty(),
        }
    }
}

/// The trimmed, non-blank texts of an array value, in order.
pub fn non_empty_string_array(v: Option<&JsonValue>) -> (r: Vec<String>)
    ensures
        strings_view(r@) == trimmed_texts(crate::json::opt_ref_view(v)),
{
    let mut out: Vec<String> = Vec::new();
    assert(strings_view(out@) =~= Seq::empty());
    match v {
        Some(x) => match &x.kind {
            JsonKind::Array(a) => {
                let mut i: usize = 0;
                while i < a.len()
                    invariant
                        i <= a@.len(),
                        strings_view(out@) == trimmed_text_elements(a@.subrange(0, i as int)),
                    decreases a@.len() - i,
                {
                    assert(a@.subrange(0, i + 1).drop_last() =~= a@.subrange(0, i as int));
                    match non_empty_string(Some(&a[i])) {
                        Some(t) => crate::text::push_string(&mut out, t),
                        None => {},
                    }
                    i = i + 1;
                }
                assert(a@.subrange(0, a@.len() as int) =~= a@);
                out
            },
            _ => out,
        },
        None => out,
    }
}

/// Appends each text unless it is already in the list.
pub fn append_each_unique(list: &mut Vec<String>, items: Vec<String>)
    ensures
        strings_view(final(list)@) == append_unique(strings_view(old(list)@), strings_view(items@)),
{
    let ghost start = strings_view(list@);
    let ghost all = strings_view(items@);
    let mut i: usize = 0;
    let mut rest = items;
    let total = rest.len();
    assert(strings_view(rest@) =~= all.subrange(0, all.len() as int));
    assert(all.subrange(0, 0) =~= Seq::<Seq<char>>::empty());
    while rest.len() > 0
        invariant
            all.len() == total,
            i + rest@.len() == all.len(),
            strings_view(rest@) == all.subrange(i as int, all.len() as int),
            strings_view(list@) == append_unique(start, all.subrange(0, i as int)),
        decreases rest@.len(),
    {
        let ghost rest_vec = rest@;
        let ghost rest_before = strings_view(rest@);
        let item = rest.remove(0);
        assert(rest_before[0] == item@);
        assert(rest@ =~= rest_vec.subrange(1, rest_vec.len() as int));
        assert(strings_view(rest@) =~= rest_before.subrange(1, rest_before.len() as int));
        assert(strings_view(rest@) =~= all.subrange(i + 1, all.len() as int));
        assert(all.subrange(0, i + 1).drop_last() =~= all.subrange(0, i as int));
        assert(all.subrange(0, i + 1).last() == item@);
        crate::proposal::apply::push_unique(list, item);
        i = i + 1;
    }
    assert(all.subrange(0, i as int) =~= all);
}

/// The materialize hints' required decisions: each non-blank text once, in order.
pub fn collect_required_decisions(hints: Option<&JsonValue>, required_decisions: &mut Vec<String>)
    ensures
        strings_view(final(required_decisions)@) == append_unique(
            strings_view(old(required_decisions)@),
            trimmed_texts(crate::json::value_member(crate::json::opt_ref_view(hints), "required_decisions"@)),
        ),
{
    let items = non_empty_string_array(crate::json::get_value_member(hints, "required_decisions"));
    append_each_unique(required_decisions, items);
}

/// Appending with `append_unique` keeps a list free of repetitions, and the
/// result holds every appended text.
pub proof fn lemma_append_unique_no_repeats(list: Seq<Seq<char>>, items: Seq<Seq<char>>)
    requires
        crate::proposal::apply::no_repeats(list),
    ensures
        crate::proposal::apply::no_repeats(append_unique(list, items)),
        forall|i: int| 0 <= i < items.len() ==> append_unique(list, items).contains(#[trigger] items[i]),
        forall|i: int| 0 <= i < list.len() ==> append_unique(list, items).contains(#[trigger] list[i]),
    decreases items.len(),
{
    if items.len() > 0 {
        let prefix = append_unique(list, items.drop_last());
        lemma_append_unique_no_repeats(list, items.drop_last());
        crate::proposal::apply::lemma_push_unique_keeps_no_repeats(
            prefix,
            items.last(),
            append_unique(list, items),
        );
        let result = append_unique(list, items);
        assert forall|i: int| 0 <= i < items.len() implies result.contains(#[trigger] items[i]) by {
            if i < items.len() - 1 {
                assert(items.drop_last()[i] == items[i]);
                assert(prefix.contains(items[i]));
                let w = choose|w: int| 0 <= w < prefix.len() && prefix[w] == items[i];
                if !prefix.contains(items.last()) {
                    assert(result[w] == items[i]);
                }
            }
        }
        assert forall|i: int| 0 <= i < list.len() implies result.contains(#[trigger] list[i]) by {
            assert(prefix.contains(list[i]));
            let w = choose|w: int| 0 <= w < prefix.len() && prefix[w] == list[i];
            if !prefix.contains(items.last()) {
                assert(result[w] == list[i]);
            }
        }
    }
}

// ---------------------------------------------------------------------------
// Days of the trip export built from the proposal's candidates.

/// An itinerary as plain values: title, note, start time, sort order,
/// duration, travel time, location and category (its lists are empty).
pub type ItineraryModel = (
    Seq<char>,
    Option<Seq<char>>,
    Option<Seq<char>>,
    i64,
    Option<i64>,
    Option<i64>,
    Option<Seq<char>>,
    Option<ItineraryCategory>,
);

/// A day as plain values: number, summary and itineraries.
pub type DayModel = (i64, Option<Seq<char>>, Seq<ItineraryModel>);

pub open spec fn itinerary_model(it: ExportItineraryV3) -> ItineraryModel {
    (
        it.title@,
        opt_view(it.note),
        opt_view(it.start_time),
        it.sort_order,
        it.duration_minutes,
        it.travel_minutes,
        opt_view(it.location),
        it.category,
    )
}

/// A day of the export with no expenses, estimates or reservations, seen as plain values.
pub open spec fn day_model(d: ExportDayV3) -> DayModel {
    (d.day_number, opt_view(d.summary), d.itineraries@.map_values(|it: ExportItineraryV3| itinerary_model(it)))
}

pub open spec fn days_model(days: Seq<ExportDayV3>) -> Seq<DayModel> {
    days.map_values(|d: ExportDayV3| day_model(d))
}

/// The position of the first day numbered `n` or later (the end when there is none).
pub open spec fn day_slot(days: Seq<DayModel>, n: i64) -> int
    decreases days.len(),
{
    if days.len() == 0 {
        0
    } else if days[0].0 >= n {
        0
    } else {
        1 + day_slot(days.drop_first(), n)
    }
}

/// The days with day `n` present: an existing day is kept, a new one
/// (with the given summary and no itineraries) goes in order.
pub open spec fn ensure_day(days: Seq<DayModel>, n: i64, summary: Option<Seq<char>>) -> Seq<DayModel> {
    let p = day_slot(days, n);
    if p < days.len() && days[p].0 == n {
        days
    } else {
        days.insert(p, (n, summary, Seq::empty()))
    }
}

/// An integer member that is at least 1.
pub open spec fn positive_member(o: Seq<(String, JsonValue)>, key: Seq<char>) -> Option<i64> {
    match member(o, key) {
        Some(v) => match crate::json::as_i64(v) {
            Some(n) => if n >= 1 {
                Some(n)
            } else {
                None
            },
            None => None,
        },
        None => None,
    }
}

pub type BuildState = (Seq<DayModel>, Seq<Seq<char>>);

/// One candidate day at `index`.
pub open spec fn candidate_day_step(st: BuildState, index: int, v: JsonValue, day_count: i64) -> BuildState {
    let (days, warnings) = st;
    match as_object(v) {
        None => (
            days,
            warnings.push(
                "candidate_days["@ + crate::text::nat_decimal(index as nat) + "] は object である必要があります — スキップしました"@,
            ),
        ),
        Some(o) => {
            let n = match positive_member(o, "day_number"@) {
                Some(n) => n,
                None => (index + 1) as i64,
            };
            if n > day_count {
                (
                    days,
                    warnings.push(
                        "candidate_days["@ + crate::text::nat_decimal(index as nat) + "].day_number ("@
                            + crate::text::int_decimal(n as int) + ") が旅行期間外です — スキップしました"@,
                    ),
                )
            } else {
                let summary = crate::proposal::fragment::first_text(o, "summary"@, "label"@);
                let d = ensure_day(days, n, summary);
                let p = day_slot(d, n);
                (if d[p].1 is None {
                    d.update(p, (n, summary, d[p].2))
                } else {
                    d
                }, warnings)
            }
        },
    }
}

pub open spec fn category_of(o: Seq<(String, JsonValue)>) -> Option<ItineraryCategory> {
    match non_empty_text(member(o, "category"@)) {
        Some(t) => match category_parse(t) {
            Ok(c) => Some(c),
            Err(_) => None,
        },
        None => None,
    }
}

/// One candidate itinerary at `index`.
pub open spec fn candidate_itinerary_step(st: BuildState, index: int, v: JsonValue, day_count: i64) -> BuildState {
    let (days, warnings) = st;
    match as_object(v) {
        None => (
            days,
            warnings.push(
                "candidate_itineraries["@ + crate::text::nat_decimal(index as nat)
                    + "] は object である必要があります — スキップしました"@,
            ),
        ),
        Some(o) => match non_empty_text(member(o, "title"@)) {
            None => (
                days,
                warnings.push(
                    "candidate_itineraries["@ + crate::text::nat_decimal(index as nat) + "].title が空です — スキップしました"@,
                ),
            ),
            Some(title) => {
                let n = match positive_member(o, "day_number"@) {
                    Some(n) => n,
                    None => 1i64,
                };
                if n > day_count {
                    (
                        days,
                        warnings.push(
                            "candidate_itineraries["@ + crate::text::nat_decimal(index as nat) + "].day_number ("@
                                + crate::text::int_decimal(n as int) + ") が旅行期間外です — スキップしました"@,
                        ),
                    )
                } else {
                    let p0 = day_slot(days, n);
                    let existing = p0 < days.len() && days[p0].0 == n;
                    let sort_order = match member(o, "sort_order"@) {
                        Some(x) => match crate::json::as_i64(x) {
                            Some(s) => s,
                            None => if existing {
                                (days[p0].2.len() + 1) as i64
                            } else {
                                1i64
                            },
                        },
                        None => if existing {
                            (days[p0].2.len() + 1) as i64
                        } else {
                            1i64
                        },
                    };
                    let item: ItineraryModel = (
                        title,
                        non_empty_text(member(o, "note"@)),
                        non_empty_text(member(o, "start_time"@)),
                        sort_order,
                        match member(o, "duration_minutes"@) {
                            Some(x) => crate::json::as_i64(x),
                            None => None,
                        },
                        match member(o, "travel_minutes"@) {
                            Some(x) => crate::json::as_i64(x),
                            None => None,
                        },
                        non_empty_text(member(o, "location"@)),
                        category_of(o),
                    );
                    let d = ensure_day(days, n, None);
                    let p = day_slot(d, n);
                    (d.update(p, (n, d[p].1, d[p].2.push(item))), warnings)
                }
            },
        },
    }
}

/// All candidate days from the first up to `k`.
pub open spec fn days_after(st: BuildState, a: Seq<JsonValue>, k: int, day_count: i64) -> BuildState
    decreases k,
{
    if k <= 0 {
        st
    } else {
        candidate_day_step(days_after(st, a, k - 1, day_count), k - 1, a[k - 1], day_count)
    }
}

pub open spec fn items_after(st: BuildState, a: Seq<JsonValue>, k: int, day_count: i64) -> BuildState
    decreases k,
{
    if k <= 0 {
        st
    } else {
        candidate_itinerary_step(items_after(st, a, k - 1, day_count), k - 1, a[k - 1], day_count)
    }
}

/// The days built from the proposal's candidates (ordered by day number, one
/// per number), and the warnings for the candidates that were skipped.
pub open spec fn built_days(p: Seq<(String, JsonValue)>, warnings: Seq<Seq<char>>, day_count: i64) -> BuildState {
    let candidate_days = crate::proposal::envelope::array_elements(member(p, "candidate_days"@));
    let candidate_items = crate::proposal::envelope::array_elements(member(p, "candidate_itineraries"@));
    let st = days_after((Seq::empty(), warnings), candidate_days, candidate_days.len() as int, day_count);
    items_after(st, candidate_items, candidate_items.len() as int, day_count)
}

proof fn lemma_day_slot_bound(days: Seq<DayModel>, n: i64)
    ensures
        0 <= day_slot(days, n) <= days.len(),
    decreases days.len(),
{
    if days.len() > 0 && days[0].0 < n {
        lemma_day_slot_bound(days.drop_first(), n);
    }
}

fn find_day_slot(days: &Vec<ExportDayV3>, n: i64) -> (r: usize)
    ensures
        r == day_slot(days_model(days@), n),
{
    let ghost m = days_model(days@);
    let mut i: usize = 0;
    proof {
        lemma_day_slot_bound(m, n);
    }
    assert(m.skip(0) =~= m);
    while i < days.len()
        invariant
            i <= days@.len(),
            m == days_model(days@),
            day_slot(m, n) == i + day_slot(m.skip(i as int), n),
        decreases days@.len() - i,
    {
        assert(m.skip(i as int)[0] == m[i as int]);
        if days[i].day_number >= n {
            return i;
        }
        assert(m.skip(i as int).drop_first() =~= m.skip(i + 1));
        i = i + 1;
    }
    assert(m.skip(i as int) =~= Seq::<DayModel>::empty());
    i
}

/// No itinerary of these days has expenses, estimates or reservations.
pub open spec fn no_itinerary_children(days: Seq<ExportDayV3>) -> bool {
    forall|k: int, j: int|
        0 <= k < days.len() && 0 <= j < days[k].itineraries@.len() ==> {
            let it = #[trigger] days[k].itineraries@[j];
            it.expenses@.len() == 0 && it.estimates@.len() == 0 && it.reservations@.len() == 0
        }
}

/// Makes sure day `n` exists, creating it with the summary if needed; returns its position.
fn ensure_day_exec(days: &mut Vec<ExportDayV3>, n: i64, summary: Option<String>) -> (p: usize)
    requires
        no_itinerary_children(old(days)@),
    ensures
        no_itinerary_children(final(days)@),
        days_model(final(days)@) == ensure_day(days_model(old(days)@), n, opt_view(summary)),
        p == day_slot(days_model(final(days)@), n),
        p < final(days)@.len(),
        final(days)@[p as int].day_number == n,
{
    let ghost m = days_model(days@);
    let p = find_day_slot(days, n);
    proof {
        lemma_day_slot_bound(m, n);
    }
    if p < days.len() && days[p].day_number == n {
        return p;
    }
    let ghost d0 = days@;
    days.insert(p, ExportDayV3 { day_number: n, summary, itineraries: Vec::new() });
    assert forall|k: int, j: int| 0 <= k < days@.len() && 0 <= j < days@[k].itineraries@.len() implies {
        let it = #[trigger] days@[k].itineraries@[j];
        it.expenses@.len() == 0 && it.estimates@.len() == 0 && it.reservations@.len() == 0
    } by {
        if k < p {
            assert(days@[k] == d0[k]);
        } else if k > p {
            assert(days@[k] == d0[k - 1]);
        }
    }
    let ghost m2 = days_model(days@);
    assert(m2 =~= m.insert(p as int, (n, opt_view(summary), Seq::empty()))) by {
        assert forall|i: int| 0 <= i < m2.len() implies m2[i] == m.insert(p as int, (n, opt_view(summary), Seq::<ItineraryModel>::empty()))[i] by {
            if i == p {
                assert(days@[i].itineraries@.map_values(|it: ExportItineraryV3| itinerary_model(it)) =~= Seq::<ItineraryModel>::empty());
            }
        }
    }
    proof {
        lemma_day_slot_insert(m, n, opt_view(summary));
    }
    p
}

/// After inserting day `n` at its slot, its slot is where it stands.
proof fn lemma_day_slot_insert(m: Seq<DayModel>, n: i64, summary: Option<Seq<char>>)
    requires
        !(day_slot(m, n) < m.len() && m[day_slot(m, n)].0 == n),
    ensures
        day_slot(m.insert(day_slot(m, n), (n, summary, Seq::empty())), n) == day_slot(m, n),
    decreases m.len(),
{
    lemma_day_slot_bound(m, n);
    let p = day_slot(m, n);
    let m2 = m.insert(p, (n, summary, Seq::<ItineraryModel>::empty()));
    if p == 0 {
        assert(m2[0].0 >= n);
    } else {
        assert(m[0].0 < n);
        let rest = m.drop_first();
        assert(day_slot(rest, n) == p - 1);
        lemma_day_slot_insert(rest, n, summary);
        assert(m2.drop_first() =~= rest.insert(p - 1, (n, summary, Seq::<ItineraryModel>::empty())));
        assert(m2[0] == m[0]);
    }
}

fn index_text(prefix: &str, index: usize, suffix: &str) -> (r: String)
    ensures
        r@ == prefix@ + crate::text::nat_decimal(index as nat) + suffix@,
{
    let mut m = owned(prefix);
    crate::text::push_u64_decimal(&mut m, index as u64);
    push_str(&mut m, suffix);
    m
}

fn out_of_range_text(prefix: &str, index: usize, n: i64) -> (r: String)
    ensures
        r@ == prefix@ + crate::text::nat_decimal(index as nat) + "].day_number ("@ + crate::text::int_decimal(n as int)
            + ") が旅行期間外です — スキップしました"@,
{
    let mut m = owned(prefix);
    crate::text::push_u64_decimal(&mut m, index as u64);
    push_str(&mut m, "].day_number (");
    crate::text::push_i64_decimal(&mut m, n);
    push_str(&mut m, ") が旅行期間外です — スキップしました");
    m
}

fn positive_member_exec(o: &JsonMembers, key: &str) -> (r: Option<i64>)
    ensures
        r == positive_member(o@, key@),
{
    match get_member(o, key) {
        Some(v) => match &v.kind {
            JsonKind::Number(Some(n)) => if *n >= 1 {
                Some(*n)
            } else {
                None
            },
            _ => None,
        },
        None => None,
    }
}

fn int_member(o: &JsonMembers, key: &str) -> (r: Option<i64>)
    ensures
        r == match member(o@, key@) {
            Some(x) => crate::json::as_i64(x),
            None => None,
        },
{
    match get_member(o, key) {
        Some(v) => match &v.kind {
            JsonKind::Number(n) => *n,
            _ => None,
        },
        None => None,
    }
}

fn category_member(o: &JsonMembers) -> (r: Option<ItineraryCategory>)
    ensures
        r == category_of(o@),
{
    match non_empty_string(get_member(o, "category")) {
        Some(t) => match crate::models::parse_itinerary_category(t.as_str()) {
            Ok(c) => Some(c),
            Err(_) => None,
        },
        None => None,
    }
}

fn first_text_exec(o: &JsonMembers, a: &str, b: &str) -> (r: Option<String>)
    ensures
        opt_view(r) == crate::proposal::fragment::first_text(o@, a@, b@),
{
    match non_empty_string(get_member(o, a)) {
        Some(x) => Some(x),
        None => non_empty_string(get_member(o, b)),
    }
}

fn add_candidate_day(days: &mut Vec<ExportDayV3>, warnings: &mut Vec<String>, index: usize, v: &JsonValue, day_count: i64)
    requires
        index < i64::MAX,
        no_itinerary_children(old(days)@),
    ensures
        no_itinerary_children(final(days)@),
        (days_model(final(days)@), strings_view(final(warnings)@)) == candidate_day_step(
            (days_model(old(days)@), strings_view(old(warnings)@)),
            index as int,
            *v,
            day_count,
        ),
{
    let o = match json_object(v) {
        Some(o) => o,
        None => {
            push_string(warnings, index_text("candidate_days[", index, "] は object である必要があります — スキップしました"));
            return;
        },
    };
    let n = match positive_member_exec(o, "day_number") {
        Some(n) => n,
        None => index as i64 + 1,
    };
    if n > day_count {
        push_string(warnings, out_of_range_text("candidate_days[", index, n));
        return;
    }
    let summary = first_text_exec(o, "summary", "label");
    let summary_copy = match &summary {
        Some(t) => Some(owned(t.as_str())),
        None => None,
    };
    let p = ensure_day_exec(days, n, summary);
    if days[p].summary.is_none() {
        let ghost before = days_model(days@);
        let day = days.remove(p);
        let ExportDayV3 { day_number, summary: _, itineraries } = day;
        let ghost d0 = days@;
        days.insert(p, ExportDayV3 { day_number, summary: summary_copy, itineraries });
        assert(days_model(days@) =~= before.update(p as int, (n, opt_view(summary_copy), before[p as int].2)));
        assert forall|k: int, j: int| 0 <= k < days@.len() && 0 <= j < days@[k].itineraries@.len() implies {
            let it = #[trigger] days@[k].itineraries@[j];
            it.expenses@.len() == 0 && it.estimates@.len() == 0 && it.reservations@.len() == 0
        } by {
            if k < p {
                assert(days@[k] == d0[k]);
            } else if k > p {
                assert(days@[k] == d0[k - 1]);
            }
        }
    }
}

fn add_candidate_itinerary(
    days: &mut Vec<ExportDayV3>,
    warnings: &mut Vec<String>,
    index: usize,
    v: &JsonValue,
    day_count: i64,
)
    requires
        index < i64::MAX,
        forall|i: int| 0 <= i < old(days)@.len() ==> #[trigger] old(days)@[i].itineraries@.len() < i64::MAX,
        no_itinerary_children(old(days)@),
    ensures
        no_itinerary_children(final(days)@),
        (days_model(final(days)@), strings_view(final(warnings)@)) == candidate_itinerary_step(
            (days_model(old(days)@), strings_view(old(warnings)@)),
            index as int,
            *v,
            day_count,
        ),
        final(days)@.len() >= old(days)@.len(),
{
    let o = match json_object(v) {
        Some(o) => o,
        None => {
            push_string(
                warnings,
                index_text("candidate_itineraries[", index, "] は object である必要があります — スキップしました"),
            );
            return;
        },
    };
    let title = match non_empty_string(get_member(o, "title")) {
        Some(t) => t,
        None => {
            push_string(warnings, index_text("candidate_itineraries[", index, "].title が空です — スキップしました"));
            return;
        },
    };
    let n = match positive_member_exec(o, "day_number") {
        Some(n) => n,
        None => 1,
    };
    if n > day_count {
        push_string(warnings, out_of_range_text("candidate_itineraries[", index, n));
        return;
    }
    let ghost m0 = days_model(days@);
    let p0 = find_day_slot(days, n);
    proof {
        lemma_day_slot_bound(m0, n);
    }
    let existing = p0 < days.len() && days[p0].day_number == n;
    let sort_order = match int_member(o, "sort_order") {
        Some(s) => s,
        None => if existing {
            days[p0].itineraries.len() as i64 + 1
        } else {
            1
        },
    };
    let item = ExportItineraryV3 {
        title,
        note: non_empty_string(get_member(o, "note")),
        start_time: non_empty_string(get_member(o, "start_time")),
        sort_order,
        duration_minutes: int_member(o, "duration_minutes"),
        travel_minutes: int_member(o, "travel_minutes"),
        location: non_empty_string(get_member(o, "location")),
        category: category_member(o),
        expenses: Vec::new(),
        estimates: Vec::new(),
        reservations: Vec::new(),
    };
    let p = ensure_day_exec(days, n, None);
    let ghost before = days_model(days@);
    let day = days.remove(p);
    let ExportDayV3 { day_number, summary, mut itineraries } = day;
    let ghost items_before = itineraries@;
    itineraries.push(item);
    assert(itineraries@.map_values(|it: ExportItineraryV3| itinerary_model(it)) =~= items_before.map_values(
        |it: ExportItineraryV3| itinerary_model(it),
    ).push(itinerary_model(item)));
    let ghost d0 = days@;
    days.insert(p, ExportDayV3 { day_number, summary, itineraries });
    assert(days_model(days@) =~= before.update(p as int, (n, before[p as int].1, before[p as int].2.push(itinerary_model(item)))));
    assert forall|k: int, j: int| 0 <= k < days@.len() && 0 <= j < days@[k].itineraries@.len() implies {
        let it = #[trigger] days@[k].itineraries@[j];
        it.expenses@.len() == 0 && it.estimates@.len() == 0 && it.reservations@.len() == 0
    } by {
        if k < p {
            assert(days@[k] == d0[k]);
        } else if k > p {
            assert(days@[k] == d0[k - 1]);
        } else if j < items_before.len() {
            assert(days@[k].itineraries@[j] == items_before[j]);
        }
    }
}

/// No day holds more than `k` itineraries.
pub open spec fn items_at_most(days: Seq<DayModel>, k: int) -> bool {
    forall|i: int| 0 <= i < days.len() ==> #[trigger] days[i].2.len() <= k
}

proof fn lemma_ensure_day_keeps_bound(days: Seq<DayModel>, n: i64, summary: Option<Seq<char>>, k: int)
    requires
        items_at_most(days, k),
        k >= 0,
    ensures
        items_at_most(ensure_day(days, n, summary), k),
{
    lemma_day_slot_bound(days, n);
    let p = day_slot(days, n);
    if !(p < days.len() && days[p].0 == n) {
        let d = ensure_day(days, n, summary);
        assert forall|i: int| 0 <= i < d.len() implies #[trigger] d[i].2.len() <= k by {
            if i < p {
                assert(d[i] == days[i]);
            } else if i > p {
                assert(d[i] == days[i - 1]);
            }
        }
    }
}

proof fn lemma_item_step_bound(st: BuildState, index: int, v: JsonValue, day_count: i64, k: int)
    requires
        items_at_most(st.0, k),
        k >= 0,
    ensures
        items_at_most(candidate_itinerary_step(st, index, v, day_count).0, k + 1),
{
    let (days, warnings) = st;
    match as_object(v) {
        None => {},
        Some(o) => match non_empty_text(member(o, "title"@)) {
            None => {},
            Some(_) => {
                let n = match positive_member(o, "day_number"@) {
                    Some(n) => n,
                    None => 1i64,
                };
                if n <= day_count {
                    lemma_ensure_day_keeps_bound(days, n, None, k);
                    let d = ensure_day(days, n, None);
                    lemma_ensure_day_found(days, n, None);
                    let p = day_slot(d, n);
                    let r = candidate_itinerary_step(st, index, v, day_count).0;
                    assert forall|i: int| 0 <= i < r.len() implies #[trigger] r[i].2.len() <= k + 1 by {
                        if i != p {
                            assert(r[i] == d[i]);
                        }
                    }
                }
            },
        },
    }
}

proof fn lemma_day_step_no_items(st: BuildState, index: int, v: JsonValue, day_count: i64)
    requires
        items_at_most(st.0, 0),
    ensures
        items_at_most(candidate_day_step(st, index, v, day_count).0, 0),
{
    let (days, warnings) = st;
    match as_object(v) {
        None => {},
        Some(o) => {
            let n = match positive_member(o, "day_number"@) {
                Some(n) => n,
                None => (index + 1) as i64,
            };
            if n <= day_count {
                let summary = crate::proposal::fragment::first_text(o, "summary"@, "label"@);
                lemma_ensure_day_keeps_bound(days, n, summary, 0);
                lemma_ensure_day_found(days, n, summary);
                let d = ensure_day(days, n, summary);
                let p = day_slot(d, n);
                let r = candidate_day_step(st, index, v, day_count).0;
                assert forall|i: int| 0 <= i < r.len() implies #[trigger] r[i].2.len() <= 0 by {
                    if i != p {
                        assert(r[i] == d[i]);
                    }
                }
            }
        },
    }
}

/// The number of itineraries over all days.
pub open spec fn model_total(days: Seq<DayModel>) -> nat
    decreases days.len(),
{
    if days.len() == 0 {
        0
    } else {
        model_total(days.drop_last()) + days.last().2.len()
    }
}

proof fn lemma_total_insert(days: Seq<DayModel>, p: int, d: DayModel)
    requires
        0 <= p <= days.len(),
    ensures
        model_total(days.insert(p, d)) == model_total(days) + d.2.len(),
    decreases days.len(),
{
    let x = days.insert(p, d);
    if p == days.len() {
        assert(x.drop_last() =~= days);
    } else {
        lemma_total_insert(days.drop_last(), p, d);
        assert(x.drop_last() =~= days.drop_last().insert(p, d));
    }
}

proof fn lemma_total_update(days: Seq<DayModel>, p: int, d: DayModel)
    requires
        0 <= p < days.len(),
    ensures
        model_total(days.update(p, d)) + days[p].2.len() == model_total(days) + d.2.len(),
    decreases days.len(),
{
    let x = days.update(p, d);
    if p == days.len() - 1 {
        assert(x.drop_last() =~= days.drop_last());
    } else {
        lemma_total_update(days.drop_last(), p, d);
        assert(x.drop_last() =~= days.drop_last().update(p, d));
    }
}

proof fn lemma_ensure_day_total(days: Seq<DayModel>, n: i64, summary: Option<Seq<char>>)
    ensures
        model_total(ensure_day(days, n, summary)) == model_total(days),
{
    lemma_day_slot_bound(days, n);
    let p = day_slot(days, n);
    if !(p < days.len() && days[p].0 == n) {
        lemma_total_insert(days, p, (n, summary, Seq::empty()));
    }
}

proof fn lemma_days_after_total(st: BuildState, a: Seq<JsonValue>, k: int, day_count: i64)
    ensures
        model_total(days_after(st, a, k, day_count).0) == model_total(st.0),
    decreases k,
{
    if k > 0 {
        lemma_days_after_total(st, a, k - 1, day_count);
        let prev = days_after(st, a, k - 1, day_count);
        let (days, warnings) = prev;
        match as_object(a[k - 1]) {
            None => {},
            Some(o) => {
                let n = match positive_member(o, "day_number"@) {
                    Some(n) => n,
                    None => (k - 1 + 1) as i64,
                };
                if n <= day_count {
                    let summary = crate::proposal::fragment::first_text(o, "summary"@, "label"@);
                    lemma_ensure_day_total(days, n, summary);
                    lemma_ensure_day_found(days, n, summary);
                    let d = ensure_day(days, n, summary);
                    let p = day_slot(d, n);
                    if d[p].1 is None {
                        lemma_total_update(d, p, (n, summary, d[p].2));
                    }
                }
            },
        }
    }
}

proof fn lemma_items_after_total(st: BuildState, a: Seq<JsonValue>, k: int, day_count: i64)
    requires
        k >= 0,
    ensures
        model_total(items_after(st, a, k, day_count).0) <= model_total(st.0) + k,
    decreases k,
{
    if k > 0 {
        lemma_items_after_total(st, a, k - 1, day_count);
        let prev = items_after(st, a, k - 1, day_count);
        let (days, warnings) = prev;
        match as_object(a[k - 1]) {
            None => {},
            Some(o) => match non_empty_text(member(o, "title"@)) {
                None => {},
                Some(title) => {
                    let n = match positive_member(o, "day_number"@) {
                        Some(n) => n,
                        None => 1i64,
                    };
                    if n <= day_count {
                        lemma_ensure_day_total(days, n, None);
                        lemma_ensure_day_found(days, n, None);
                        let d = ensure_day(days, n, None);
                        let p = day_slot(d, n);
                        let r = items_after(st, a, k, day_count).0;
                        lemma_total_update(d, p, (n, d[p].1, r[p].2));
                    }
                },
            },
        }
    }
}

/// The built days hold no more itineraries than there are candidate itineraries.
pub proof fn lemma_built_days_total(p: Seq<(String, JsonValue)>, warnings: Seq<Seq<char>>, day_count: i64)
    ensures
        model_total(built_days(p, warnings, day_count).0) <= crate::proposal::envelope::array_elements(
            member(p, "candidate_itineraries"@),
        ).len(),
{
    let candidate_days = crate::proposal::envelope::array_elements(member(p, "candidate_days"@));
    let candidate_items = crate::proposal::envelope::array_elements(member(p, "candidate_itineraries"@));
    lemma_days_after_total((Seq::empty(), warnings), candidate_days, candidate_days.len() as int, day_count);
    let st = days_after((Seq::empty(), warnings), candidate_days, candidate_days.len() as int, day_count);
    lemma_items_after_total(st, candidate_items, candidate_items.len() as int, day_count);
}

/// After `ensure_day`, day `n` stands at its slot.
proof fn lemma_ensure_day_found(days: Seq<DayModel>, n: i64, summary: Option<Seq<char>>)
    ensures
        0 <= day_slot(ensure_day(days, n, summary), n) < ensure_day(days, n, summary).len(),
        ensure_day(days, n, summary)[day_slot(ensure_day(days, n, summary), n)].0 == n,
{
    lemma_day_slot_bound(days, n);
    let p = day_slot(days, n);
    if !(p < days.len() && days[p].0 == n) {
        lemma_day_slot_insert(days, n, summary);
    }
}

/// The days of the export built from the proposal's candidate days and
/// itineraries, ordered by day number; candidates that cannot be used are
/// skipped with a warning.
pub fn build_export_days(proposal: &JsonMembers, day_count: i64, warnings: &mut Vec<String>) -> (r: Vec<ExportDayV3>)
    requires
        crate::proposal::envelope::array_elements(member(proposal@, "candidate_days"@)).len() < i64::MAX,
        crate::proposal::envelope::array_elements(member(proposal@, "candidate_itineraries"@)).len() < i64::MAX,
    ensures
        (days_model(r@), strings_view(final(warnings)@)) == built_days(proposal@, strings_view(old(warnings)@), day_count),
        forall|i: int| 0 <= i < r@.len() ==> (#[trigger] r@[i]).itineraries@.len() < i64::MAX,
        no_itinerary_children(r@),
{
    let ghost w0 = strings_view(warnings@);
    let mut days: Vec<ExportDayV3> = Vec::new();
    let empty: Vec<JsonValue> = Vec::new();
    let candidate_days: &Vec<JsonValue> = match get_member(proposal, "candidate_days") {
        Some(v) => match &v.kind {
            JsonKind::Array(a) => a,
            _ => &empty,
        },
        None => &empty,
    };
    assert(candidate_days@ == crate::proposal::envelope::array_elements(member(proposal@, "candidate_days"@)));
    assert(days_model(days@) =~= Seq::<DayModel>::empty());
    let mut i: usize = 0;
    while i < candidate_days.len()
        invariant
            i <= candidate_days@.len(),
            candidate_days@.len() < i64::MAX,
            (days_model(days@), strings_view(warnings@)) == days_after(
                (Seq::empty(), w0),
                candidate_days@,
                i as int,
                day_count,
            ),
            items_at_most(days_model(days@), 0),
            no_itinerary_children(days@),
        decreases candidate_days@.len() - i,
    {
        proof {
            lemma_day_step_no_items(
                (days_model(days@), strings_view(warnings@)),
                i as int,
                candidate_days@[i as int],
                day_count,
            );
        }
        add_candidate_day(&mut days, warnings, i, &candidate_days[i], day_count);
        i = i + 1;
    }
    let ghost mid = (days_model(days@), strings_view(warnings@));
    let candidate_items: &Vec<JsonValue> = match get_member(proposal, "candidate_itineraries") {
        Some(v) => match &v.kind {
            JsonKind::Array(a) => a,
            _ => &empty,
        },
        None => &empty,
    };
    assert(candidate_items@ == crate::proposal::envelope::array_elements(member(proposal@, "candidate_itineraries"@)));
    let mut j: usize = 0;
    while j < candidate_items.len()
        invariant
            j <= candidate_items@.len(),
            candidate_items@.len() < i64::MAX,
            (days_model(days@), strings_view(warnings@)) == items_after(mid, candidate_items@, j as int, day_count),
            items_at_most(days_model(days@), j as int),
            no_itinerary_children(days@),
        decreases candidate_items@.len() - j,
    {
        proof {
            lemma_item_step_bound(
                (days_model(days@), strings_view(warnings@)),
                j as int,
                candidate_items@[j as int],
                day_count,
                j as int,
            );
            assert forall|k: int| 0 <= k < days@.len() implies #[trigger] days@[k].itineraries@.len() < i64::MAX by {
                assert(days_model(days@)[k].2.len() == days@[k].itineraries@.len());
            }
        }
        add_candidate_itinerary(&mut days, warnings, j, &candidate_items[j], day_count);
        j = j + 1;
    }
    assert forall|k: int| 0 <= k < days@.len() implies (#[trigger] days@[k]).itineraries@.len() < i64::MAX by {
        assert(days_model(days@)[k].2.len() == days@[k].itineraries@.len());
    }
    days
}

/// Days in increasing order of day number, so at most one per number.
pub open spec fn strictly_ordered(days: Seq<DayModel>) -> bool {
    forall|i: int, j: int| 0 <= i < j < days.len() ==> days[i].0 < days[j].0
}

proof fn lemma_day_slot_split(days: Seq<DayModel>, n: i64)
    requires
        strictly_ordered(days),
    ensures
        forall|i: int| 0 <= i < day_slot(days, n) ==> days[i].0 < n,
        forall|i: int| day_slot(days, n) <= i < days.len() ==> days[i].0 >= n,
    decreases days.len(),
{
    lemma_day_slot_bound(days, n);
    if days.len() > 0 && days[0].0 < n {
        let rest = days.drop_first();
        assert(strictly_ordered(rest)) by {
            assert forall|i: int, j: int| 0 <= i < j < rest.len() implies rest[i].0 < rest[j].0 by {
                assert(rest[i] == days[i + 1] && rest[j] == days[j + 1]);
            }
        }
        lemma_day_slot_split(rest, n);
        assert forall|i: int| 0 <= i < day_slot(days, n) implies days[i].0 < n by {
            if i > 0 {
                assert(days[i] == rest[i - 1]);
            }
        }
        assert forall|i: int| day_slot(days, n) <= i < days.len() implies days[i].0 >= n by {
            assert(days[i] == rest[i - 1]);
        }
    } else if days.len() > 0 {
        assert forall|i: int| 0 <= i < days.len() implies days[i].0 >= n by {
            if i > 0 {
                assert(days[0].0 < days[i].0);
            }
        }
    }
}

proof fn lemma_ensure_day_ordered(days: Seq<DayModel>, n: i64, summary: Option<Seq<char>>)
    requires
        strictly_ordered(days),
    ensures
        strictly_ordered(ensure_day(days, n, summary)),
{
    lemma_day_slot_split(days, n);
    lemma_day_slot_bound(days, n);
    let p = day_slot(days, n);
    if !(p < days.len() && days[p].0 == n) {
        let d = ensure_day(days, n, summary);
        assert forall|i: int, j: int| 0 <= i < j < d.len() implies d[i].0 < d[j].0 by {
            if j < p {
                assert(d[i] == days[i] && d[j] == days[j]);
            } else if j == p {
                assert(d[i] == days[i]);
            } else if i < p {
                assert(d[i] == days[i] && d[j] == days[j - 1]);
                assert(days[j - 1].0 >= n);
                if j - 1 == p {
                    assert(days[p].0 != n);
                } else {
                    assert(days[p].0 < days[j - 1].0);
                    assert(days[p].0 >= n);
                }
            } else if i == p {
                assert(d[j] == days[j - 1]);
                if j - 1 == p {
                    assert(days[p].0 != n);
                } else {
                    assert(days[p].0 < days[j - 1].0);
                }
            } else {
                assert(d[i] == days[i - 1] && d[j] == days[j - 1]);
            }
        }
    }
}

proof fn lemma_steps_keep_order(st: BuildState, index: int, v: JsonValue, day_count: i64)
    requires
        strictly_ordered(st.0),
    ensures
        strictly_ordered(candidate_day_step(st, index, v, day_count).0),
        strictly_ordered(candidate_itinerary_step(st, index, v, day_count).0),
{
    let days = st.0;
    match as_object(v) {
        None => {},
        Some(o) => {
            let n1 = match positive_member(o, "day_number"@) {
                Some(n) => n,
                None => (index + 1) as i64,
            };
            if n1 <= day_count {
                let summary = crate::proposal::fragment::first_text(o, "summary"@, "label"@);
                lemma_ensure_day_ordered(days, n1, summary);
                lemma_ensure_day_found(days, n1, summary);
                let d = ensure_day(days, n1, summary);
                let p = day_slot(d, n1);
                let r = candidate_day_step(st, index, v, day_count).0;
                assert forall|i: int, j: int| 0 <= i < j < r.len() implies r[i].0 < r[j].0 by {
                    assert(r[i].0 == d[i].0 && r[j].0 == d[j].0);
                }
            }
            match non_empty_text(member(o, "title"@)) {
                None => {},
                Some(_) => {
                    let n2 = match positive_member(o, "day_number"@) {
                        Some(n) => n,
                        None => 1i64,
                    };
                    if n2 <= day_count {
                        lemma_ensure_day_ordered(days, n2, None);
                        lemma_ensure_day_found(days, n2, None);
                        let d = ensure_day(days, n2, None);
                        let r = candidate_itinerary_step(st, index, v, day_count).0;
                        assert forall|i: int, j: int| 0 <= i < j < r.len() implies r[i].0 < r[j].0 by {
                            assert(r[i].0 == d[i].0 && r[j].0 == d[j].0);
                        }
                    }
                },
            }
        },
    }
}

proof fn lemma_folds_keep_order(st: BuildState, a: Seq<JsonValue>, k: int, day_count: i64)
    requires
        strictly_ordered(st.0),
    ensures
        strictly_ordered(days_after(st, a, k, day_count).0),
        strictly_ordered(items_after(st, a, k, day_count).0),
    decreases k,
{
    if k > 0 {
        lemma_folds_keep_order(st, a, k - 1, day_count);
        lemma_steps_keep_order(days_after(st, a, k - 1, day_count), k - 1, a[k - 1], day_count);
        lemma_steps_keep_order(items_after(st, a, k - 1, day_count), k - 1, a[k - 1], day_count);
    }
}

/// The days built from a proposal come out in increasing order of day
/// number, one day per number.
pub proof fn lemma_built_days_ordered(p: Seq<(String, JsonValue)>, warnings: Seq<Seq<char>>, day_count: i64)
    ensures
        strictly_ordered(built_days(p, warnings, day_count).0),
{
    let candidate_days = crate::proposal::envelope::array_elements(member(p, "candidate_days"@));
    let candidate_items = crate::proposal::envelope::array_elements(member(p, "candidate_itineraries"@));
    let st0: BuildState = (Seq::empty(), warnings);
    lemma_folds_keep_order(st0, candidate_days, candidate_days.len() as int, day_count);
    let st = days_after(st0, candidate_days, candidate_days.len() as int, day_count);
    lemma_folds_keep_order(st, candidate_items, candidate_items.len() as int, day_count);
}


// ---------------------------------------------------------------------------
// Where each built itinerary comes from.

/// An integer member's value, when the member is an integer.
pub open spec fn integer_member(o: Seq<(String, JsonValue)>, key: Seq<char>) -> Option<i64> {
    match member(o, key) {
        Some(x) => crate::json::as_i64(x),
        None => None,
    }
}

/// The itinerary holds what this candidate gives: the candidate is an
/// object whose `title` is the itinerary's title, and whose `note`,
/// `start_time` and `location` texts and `duration_minutes` and
/// `travel_minutes` integers are the itinerary's.
pub open spec fn built_from_candidate(item: ItineraryModel, v: JsonValue) -> bool {
    match as_object(v) {
        Some(o) => {
            &&& non_empty_text(member(o, "title"@)) == Some(item.0)
            &&& item.1 == non_empty_text(member(o, "note"@))
            &&& item.2 == non_empty_text(member(o, "start_time"@))
            &&& item.4 == integer_member(o, "duration_minutes"@)
            &&& item.5 == integer_member(o, "travel_minutes"@)
            &&& item.6 == non_empty_text(member(o, "location"@))
            &&& item.7 == match non_empty_text(member(o, "category"@)) {
                Some(t) => match category_parse(t) {
                    Ok(c) => Some(c),
                    Err(_) => None,
                },
                None => None,
            }
        },
        None => false,
    }
}

/// The day a candidate itinerary asks for: its `day_number` when that is a
/// positive integer, else day 1.
pub open spec fn candidate_day_number(o: Seq<(String, JsonValue)>) -> i64 {
    match integer_member(o, "day_number"@) {
        Some(n) => if n >= 1 {
            n
        } else {
            1
        },
        None => 1,
    }
}

/// The day of a candidate that is an object (0 for any other value).
pub open spec fn day_of_candidate(v: JsonValue) -> i64 {
    match as_object(v) {
        Some(o) => candidate_day_number(o),
        None => 0,
    }
}

/// A candidate gives an itinerary: an object with a non-empty title whose
/// day lies within the trip.
pub open spec fn candidate_accepted(v: JsonValue, day_count: i64) -> bool {
    match as_object(v) {
        Some(o) => non_empty_text(member(o, "title"@)) is Some && candidate_day_number(o) <= day_count,
        None => false,
    }
}

/// How many of the first `k` candidates give an itinerary.
pub open spec fn accepted_count(a: Seq<JsonValue>, k: int, day_count: i64) -> nat
    decreases k,
{
    if k <= 0 {
        0
    } else {
        accepted_count(a, k - 1, day_count) + if candidate_accepted(a[k - 1], day_count) {
            1nat
        } else {
            0nat
        }
    }
}

/// The `j`th itinerary of the `k`th day holds what one of the candidates
/// gives, stands on the day that candidate asks for, and has the sort order
/// it gives.
pub open spec fn item_sourced(days: Seq<DayModel>, cands: Seq<JsonValue>, k: int, j: int) -> bool {
    exists|i: int|
        0 <= i < cands.len() && #[trigger] built_from_candidate(days[k].2[j], cands[i]) && day_of_candidate(cands[i])
            == days[k].0 && sort_order_from(days[k].2[j].3, cands[i], j)
}

/// The sort order of the `j`th itinerary of a day built from this
/// candidate: its `sort_order` integer, or else its place in the day
/// counted from 1.
pub open spec fn sort_order_from(sort_order: i64, v: JsonValue, j: int) -> bool {
    match as_object(v) {
        Some(o) => match integer_member(o, "sort_order"@) {
            Some(so) => sort_order == so,
            None => sort_order == j + 1,
        },
        None => false,
    }
}

/// Every itinerary of these days holds what one of the candidates gives.
pub open spec fn items_from(days: Seq<DayModel>, cands: Seq<JsonValue>) -> bool {
    forall|k: int, j: int| 0 <= k < days.len() && 0 <= j < days[k].2.len() ==> #[trigger] item_sourced(days, cands, k, j)
}

/// The same itinerary, read in other days, holds what it held.
proof fn lemma_item_sourced_moves(days: Seq<DayModel>, k: int, j: int, d: Seq<DayModel>, k2: int, j2: int, cands: Seq<JsonValue>)
    requires
        item_sourced(days, cands, k, j),
        d[k2].2[j2] == days[k].2[j],
        d[k2].0 == days[k].0,
        j2 == j,
    ensures
        item_sourced(d, cands, k2, j2),
{
    let i = choose|i: int|
        0 <= i < cands.len() && #[trigger] built_from_candidate(days[k].2[j], cands[i]) && day_of_candidate(cands[i])
            == days[k].0 && sort_order_from(days[k].2[j].3, cands[i], j);
    assert(built_from_candidate(d[k2].2[j2], cands[i]));
}

proof fn lemma_ensure_day_items_from(days: Seq<DayModel>, n: i64, summary: Option<Seq<char>>, cands: Seq<JsonValue>)
    requires
        items_from(days, cands),
    ensures
        items_from(ensure_day(days, n, summary), cands),
{
    lemma_day_slot_bound(days, n);
    let p = day_slot(days, n);
    let d = ensure_day(days, n, summary);
    if !(p < days.len() && days[p].0 == n) {
        assert forall|k: int, j: int| 0 <= k < d.len() && 0 <= j < d[k].2.len() implies #[trigger] item_sourced(
            d,
            cands,
            k,
            j,
        ) by {
            if k < p {
                assert(d[k] == days[k]);
                assert(item_sourced(days, cands, k, j));
                lemma_item_sourced_moves(days, k, j, d, k, j, cands);
            } else if k > p {
                assert(d[k] == days[k - 1]);
                assert(item_sourced(days, cands, k - 1, j));
                lemma_item_sourced_moves(days, k - 1, j, d, k, j, cands);
            } else {
                assert(d[k].2.len() == 0);
            }
        }
    }
}

proof fn lemma_day_step_items_from(st: BuildState, index: int, v: JsonValue, day_count: i64, cands: Seq<JsonValue>)
    requires
        items_from(st.0, cands),
    ensures
        items_from(candidate_day_step(st, index, v, day_count).0, cands),
{
    if let Some(o) = as_object(v) {
        let n = match positive_member(o, "day_number"@) {
            Some(n) => n,
            None => (index + 1) as i64,
        };
        if n <= day_count {
            let summary = crate::proposal::fragment::first_text(o, "summary"@, "label"@);
            lemma_ensure_day_items_from(st.0, n, summary, cands);
            lemma_ensure_day_found(st.0, n, summary);
            let d = ensure_day(st.0, n, summary);
            let p = day_slot(d, n);
            if d[p].1 is None {
                let d2 = d.update(p, (n, summary, d[p].2));
                assert forall|k: int, j: int| 0 <= k < d2.len() && 0 <= j < d2[k].2.len() implies #[trigger] item_sourced(
                    d2,
                    cands,
                    k,
                    j,
                ) by {
                    assert(d2[k].2 == d[k].2);
                    assert(d2[k].0 == d[k].0);
                    assert(item_sourced(d, cands, k, j));
                    lemma_item_sourced_moves(d, k, j, d2, k, j, cands);
                }
            }
        }
    }
}

proof fn lemma_days_after_items_from(st: BuildState, a: Seq<JsonValue>, k: int, day_count: i64, cands: Seq<JsonValue>)
    requires
        items_from(st.0, cands),
    ensures
        items_from(days_after(st, a, k, day_count).0, cands),
    decreases k,
{
    if k > 0 {
        lemma_days_after_items_from(st, a, k - 1, day_count, cands);
        lemma_day_step_items_from(days_after(st, a, k - 1, day_count), k - 1, a[k - 1], day_count, cands);
    }
}

proof fn lemma_item_step_items_from(st: BuildState, index: int, cands: Seq<JsonValue>, day_count: i64)
    requires
        items_from(st.0, cands),
        0 <= index < cands.len(),
        index < i64::MAX,
        items_at_most(st.0, index),
    ensures
        items_from(candidate_itinerary_step(st, index, cands[index], day_count).0, cands),
{
    let v = cands[index];
    if let Some(o) = as_object(v) {
        if let Some(title) = non_empty_text(member(o, "title"@)) {
            let n = match positive_member(o, "day_number"@) {
                Some(n) => n,
                None => 1i64,
            };
            if n <= day_count {
                let days = st.0;
                let p0 = day_slot(days, n);
                let existing = p0 < days.len() && days[p0].0 == n;
                let sort_order = match member(o, "sort_order"@) {
                    Some(x) => match crate::json::as_i64(x) {
                        Some(s) => s,
                        None => if existing {
                            (days[p0].2.len() + 1) as i64
                        } else {
                            1i64
                        },
                    },
                    None => if existing {
                        (days[p0].2.len() + 1) as i64
                    } else {
                        1i64
                    },
                };
                let item: ItineraryModel = (
                    title,
                    non_empty_text(member(o, "note"@)),
                    non_empty_text(member(o, "start_time"@)),
                    sort_order,
                    integer_member(o, "duration_minutes"@),
                    integer_member(o, "travel_minutes"@),
                    non_empty_text(member(o, "location"@)),
                    category_of(o),
                );
                assert(built_from_candidate(item, cands[index]));
                lemma_ensure_day_items_from(days, n, None, cands);
                let d = ensure_day(days, n, None);
                lemma_ensure_day_found(days, n, None);
                let p = day_slot(d, n);
                let d2 = d.update(p, (n, d[p].1, d[p].2.push(item)));
                assert(candidate_itinerary_step(st, index, v, day_count).0 == d2);
                assert forall|k: int, j: int| 0 <= k < d2.len() && 0 <= j < d2[k].2.len() implies #[trigger] item_sourced(
                    d2,
                    cands,
                    k,
                    j,
                ) by {
                    if k == p && j == d[p].2.len() {
                        assert(d2[k].2[j] == item);
                        assert(built_from_candidate(d2[k].2[j], cands[index]));
                        assert(day_of_candidate(cands[index]) == n);
                        assert(d2[k].0 == n);
                        lemma_day_slot_bound(days, n);
                        if existing {
                            assert(days[p0].2.len() <= index);
                            assert(d == days);
                            assert(p == p0);
                        } else {
                            lemma_day_slot_insert(days, n, None);
                            assert(p == p0);
                            assert(d[p].2.len() == 0);
                        }
                        assert(sort_order_from(d2[k].2[j].3, cands[index], j));
                    } else {
                        if k == p {
                            assert(d2[k].2[j] == d[k].2[j]);
                            assert(d2[k].0 == d[k].0);
                        } else {
                            assert(d2[k] == d[k]);
                        }
                        assert(item_sourced(d, cands, k, j));
                        lemma_item_sourced_moves(d, k, j, d2, k, j, cands);
                    }
                }
            }
        }
    }
}

proof fn lemma_days_after_no_items(st: BuildState, a: Seq<JsonValue>, k: int, day_count: i64)
    requires
        items_at_most(st.0, 0),
    ensures
        items_at_most(days_after(st, a, k, day_count).0, 0),
    decreases k,
{
    if k > 0 {
        lemma_days_after_no_items(st, a, k - 1, day_count);
        lemma_day_step_no_items(days_after(st, a, k - 1, day_count), k - 1, a[k - 1], day_count);
    }
}

proof fn lemma_items_after_bound(st: BuildState, a: Seq<JsonValue>, k: int, day_count: i64)
    requires
        items_at_most(st.0, 0),
        k >= 0,
    ensures
        items_at_most(items_after(st, a, k, day_count).0, k),
    decreases k,
{
    if k > 0 {
        lemma_items_after_bound(st, a, k - 1, day_count);
        lemma_item_step_bound(items_after(st, a, k - 1, day_count), k - 1, a[k - 1], day_count, k - 1);
    }
}

proof fn lemma_items_after_items_from(st: BuildState, a: Seq<JsonValue>, k: int, day_count: i64)
    requires
        items_from(st.0, a),
        items_at_most(st.0, 0),
        0 <= k <= a.len(),
        a.len() < i64::MAX,
    ensures
        items_from(items_after(st, a, k, day_count).0, a),
    decreases k,
{
    if k > 0 {
        lemma_items_after_items_from(st, a, k - 1, day_count);
        lemma_items_after_bound(st, a, k - 1, day_count);
        lemma_item_step_items_from(items_after(st, a, k - 1, day_count), k - 1, a, day_count);
    }
}

/// Every itinerary of the days built from a proposal holds what one of the
/// proposal's `candidate_itineraries` gives: that candidate's title, note,
/// start time, location, and its `duration_minutes` and `travel_minutes`
/// integers as the itinerary's duration and travel time; it stands on the
/// day that candidate asks for, with the candidate's `sort_order` or else
/// its place in that day.
pub proof fn lemma_built_itineraries_come_from_candidates(
    p: Seq<(String, JsonValue)>,
    warnings: Seq<Seq<char>>,
    day_count: i64,
)
    requires
        crate::proposal::envelope::array_elements(member(p, "candidate_itineraries"@)).len() < i64::MAX,
    ensures
        items_from(
            built_days(p, warnings, day_count).0,
            crate::proposal::envelope::array_elements(member(p, "candidate_itineraries"@)),
        ),
{
    let candidate_days = crate::proposal::envelope::array_elements(member(p, "candidate_days"@));
    let cands = crate::proposal::envelope::array_elements(member(p, "candidate_itineraries"@));
    let st0: BuildState = (Seq::empty(), warnings);
    assert(items_from(st0.0, cands));
    lemma_days_after_items_from(st0, candidate_days, candidate_days.len() as int, day_count, cands);
    lemma_days_after_no_items(st0, candidate_days, candidate_days.len() as int, day_count);
    let st = days_after(st0, candidate_days, candidate_days.len() as int, day_count);
    lemma_items_after_items_from(st, cands, cands.len() as int, day_count);
}


proof fn lemma_items_after_count(st: BuildState, a: Seq<JsonValue>, k: int, day_count: i64)
    requires
        0 <= k <= a.len(),
    ensures
        model_total(items_after(st, a, k, day_count).0) == model_total(st.0) + accepted_count(a, k, day_count),
    decreases k,
{
    if k > 0 {
        lemma_items_after_count(st, a, k - 1, day_count);
        let prev = items_after(st, a, k - 1, day_count);
        let days = prev.0;
        if let Some(o) = as_object(a[k - 1]) {
            if let Some(title) = non_empty_text(member(o, "title"@)) {
                let n = match positive_member(o, "day_number"@) {
                    Some(n) => n,
                    None => 1i64,
                };
                assert(n == candidate_day_number(o));
                if n <= day_count {
                    lemma_ensure_day_total(days, n, None);
                    lemma_ensure_day_found(days, n, None);
                    let d = ensure_day(days, n, None);
                    let p = day_slot(d, n);
                    let r = items_after(st, a, k, day_count).0;
                    lemma_total_update(d, p, (n, d[p].1, r[p].2));
                }
            }
        }
    }
}

/// The days built from a proposal hold exactly one itinerary for each of
/// its `candidate_itineraries` that is an object with a non-empty title and
/// a day within the trip.
pub proof fn lemma_built_itinerary_count(p: Seq<(String, JsonValue)>, warnings: Seq<Seq<char>>, day_count: i64)
    ensures
        ({
            let cands = crate::proposal::envelope::array_elements(member(p, "candidate_itineraries"@));
            model_total(built_days(p, warnings, day_count).0) == accepted_count(cands, cands.len() as int, day_count)
        }),
{
    let candidate_days = crate::proposal::envelope::array_elements(member(p, "candidate_days"@));
    let cands = crate::proposal::envelope::array_elements(member(p, "candidate_itineraries"@));
    let st0: BuildState = (Seq::empty(), warnings);
    lemma_days_after_total(st0, candidate_days, candidate_days.len() as int, day_count);
    let st = days_after(st0, candidate_days, candidate_days.len() as int, day_count);
    lemma_items_after_count(st, cands, cands.len() as int, day_count);
}

} // verus!
