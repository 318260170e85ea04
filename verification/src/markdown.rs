//! The trip booklet in Markdown: title, dates, overview, itineraries per day
//! and the checklist.
use vstd::prelude::*;

use crate::models::{category_key, ChecklistItem, ItineraryItem, Trip};
use crate::stats::{format_minutes_duration, minutes_duration_text, TripStats};
use crate::text::{
    int_decimal, nat_decimal, owned, push_char, push_i64_decimal, push_str, push_string,
    push_u64_decimal, strings_view,
};

verus! {

/// Lines joined with `\n`.
pub open spec fn join_lines(ls: Seq<Seq<char>>) -> Seq<char>
    decreases ls.len(),
{
    if ls.len() == 0 {
        Seq::empty()
    } else if ls.len() == 1 {
        ls[0]
    } else {
        join_lines(ls.drop_last()) + seq!['\n'] + ls.last()
    }
}

/// The date line of a trip: `start 〜 end`, or the one date known.
pub open spec fn date_range_text(trip: Trip) -> Option<Seq<char>> {
    match (trip.start_date, trip.end_date) {
        (Some(start), Some(end)) => Some(start@ + " 〜 "@ + end@),
        (Some(start), None) => Some(start@),
        (None, Some(end)) => Some(end@),
        (None, None) => None,
    }
}

/// Formats the trip's date range as one line, if any date is known.
pub fn format_trip_date_range(trip: &Trip) -> (r: Option<String>)
    ensures
        crate::text::opt_view(r) == date_range_text(*trip),
{
    match (&trip.start_date, &trip.end_date) {
        (Some(start), Some(end)) => {
            let mut s = owned(start.as_str());
            push_str(&mut s, " 〜 ");
            push_str(&mut s, end.as_str());
            Some(s)
        },
        (Some(start), None) => Some(owned(start.as_str())),
        (None, Some(end)) => Some(owned(end.as_str())),
        (None, None) => None,
    }
}

/// The detail lines of an itinerary, in order; absent fields give no line.
pub open spec fn item_detail_lines(item: ItineraryItem) -> Seq<Seq<char>> {
    (match item.category {
        Some(c) => seq!["- Category: "@ + category_key(c)],
        None => Seq::empty(),
    }) + (match item.location {
        Some(l) => seq!["- 場所: "@ + l@],
        None => Seq::empty(),
    }) + (match item.duration_minutes {
        Some(d) => seq!["- 所要時間: "@ + int_decimal(d as int) + "分"@],
        None => Seq::empty(),
    }) + (match item.travel_minutes {
        Some(t) => seq!["- 移動時間: "@ + int_decimal(t as int) + "分"@],
        None => Seq::empty(),
    }) + (match item.note {
        Some(n) => seq!["- メモ: "@ + n@],
        None => Seq::empty(),
    })
}

/// `### [time ]title`, then a blank line and the detail lines when there are any.
pub open spec fn item_markdown(item: ItineraryItem) -> Seq<char> {
    let heading = item_heading(item);
    let details = item_detail_lines(item);
    if details.len() == 0 {
        heading
    } else {
        heading + "\n\n"@ + join_lines(details)
    }
}

/// The lines joined with `\n`.
pub fn join_with_newlines(lines: &Vec<String>) -> (r: String)
    ensures
        r@ == join_lines(strings_view(lines@)),
{
    let mut out = String::new();
    let mut i: usize = 0;
    while i < lines.len()
        invariant
            i <= lines@.len(),
            out@ == join_lines(strings_view(lines@.subrange(0, i as int))),
        decreases lines@.len() - i,
    {
        let ghost prev = strings_view(lines@.subrange(0, i as int));
        let ghost next = strings_view(lines@.subrange(0, i + 1));
        assert(next.drop_last() =~= prev);
        assert(next.last() == lines@[i as int]@);
        if i > 0 {
            push_char(&mut out, '\n');
        }
        push_str(&mut out, lines[i].as_str());
        proof {
            if i == 0 {
                assert(out@ =~= next[0]);
            }
        }
        i = i + 1;
    }
    assert(lines@.subrange(0, lines@.len() as int) =~= lines@);
    out
}

/// The heading of an itinerary section.
pub open spec fn item_heading(item: ItineraryItem) -> Seq<char> {
    match item.start_time {
        Some(t) => "### "@ + t@ + " "@ + item.title@,
        None => "### "@ + item.title@,
    }
}

fn format_item_heading(item: &ItineraryItem) -> (r: String)
    ensures
        r@ == item_heading(*item),
{
    let mut out = owned("### ");
    match &item.start_time {
        Some(time) => {
            push_str(&mut out, time.as_str());
            push_str(&mut out, " ");
        },
        None => {},
    }
    push_str(&mut out, item.title.as_str());
    out
}

fn labelled_line(label: &str, value: &str) -> (r: String)
    ensures
        r@ == label@ + value@,
{
    let mut line = owned(label);
    push_str(&mut line, value);
    line
}

fn minutes_line(label: &str, minutes: i64) -> (r: String)
    ensures
        r@ == label@ + int_decimal(minutes as int) + "分"@,
{
    let mut line = owned(label);
    push_i64_decimal(&mut line, minutes);
    push_str(&mut line, "分");
    line
}

fn format_item_detail_lines(item: &ItineraryItem) -> (r: Vec<String>)
    ensures
        strings_view(r@) == item_detail_lines(*item),
{
    let mut lines: Vec<String> = Vec::new();
    assert(strings_view(lines@) =~= Seq::empty());
    match item.category {
        Some(category) => push_string(&mut lines, labelled_line("- Category: ", category.as_str())),
        None => {},
    }
    match &item.location {
        Some(location) => push_string(&mut lines, labelled_line("- 場所: ", location.as_str())),
        None => {},
    }
    match item.duration_minutes {
        Some(duration) => push_string(&mut lines, minutes_line("- 所要時間: ", duration)),
        None => {},
    }
    match item.travel_minutes {
        Some(travel) => push_string(&mut lines, minutes_line("- 移動時間: ", travel)),
        None => {},
    }
    match &item.note {
        Some(note) => push_string(&mut lines, labelled_line("- メモ: ", note.as_str())),
        None => {},
    }
    assert(strings_view(lines@) =~= item_detail_lines(*item));
    lines
}

/// Formats one itinerary as a Markdown section.
pub fn format_itinerary_item_markdown(item: &ItineraryItem) -> (r: String)
    ensures
        r@ == item_markdown(*item),
{
    let mut out = format_item_heading(item);
    let lines = format_item_detail_lines(item);
    if lines.len() > 0 {
        push_str(&mut out, "\n\n");
        let body = join_with_newlines(&lines);
        push_str(&mut out, body.as_str());
    }
    out
}

/// The checklist line of one item.
pub open spec fn checklist_line(item: ChecklistItem) -> Seq<char> {
    "- ["@ + seq![
        if item.is_done {
            'x'
        } else {
            ' '
        },
    ] + "] "@ + item.title@
}

pub open spec fn checklist_lines(items: Seq<ChecklistItem>) -> Seq<Seq<char>> {
    items.map_values(|i: ChecklistItem| checklist_line(i))
}

/// The checklist section (preceded by a blank line), or nothing without items.
pub open spec fn checklist_markdown(items: Seq<ChecklistItem>) -> Option<Seq<char>> {
    if items.len() == 0 {
        None
    } else {
        Some("\n\n## Checklist\n\n"@ + join_lines(checklist_lines(items)) + "\n"@)
    }
}

/// The checklist line of an item marked as done.
pub open spec fn done_line(title: Seq<char>) -> Seq<char> {
    "- [x] "@ + title
}

/// The checklist line of an item still open.
pub open spec fn open_line(title: Seq<char>) -> Seq<char> {
    "- [ ] "@ + title
}

/// The checklist section lists every item on a line of its own, in order: a
/// done item as `- [x] ` and its title, an open one as `- [ ] ` and its
/// title; without items there is no section.
pub proof fn lemma_checklist_marks(items: Seq<ChecklistItem>)
    ensures
        items.len() == 0 ==> checklist_markdown(items) is None,
        items.len() > 0 ==> checklist_markdown(items) == Some(
            "\n\n## Checklist\n\n"@ + join_lines(
                Seq::new(
                    items.len(),
                    |i: int|
                        if items[i].is_done {
                            done_line(items[i].title@)
                        } else {
                            open_line(items[i].title@)
                        },
                ),
            ) + "\n"@,
        ),
{
    reveal_strlit("- [x] ");
    reveal_strlit("- [ ] ");
    reveal_strlit("- [");
    reveal_strlit("] ");
    let want = Seq::new(
        items.len(),
        |i: int|
            if items[i].is_done {
                done_line(items[i].title@)
            } else {
                open_line(items[i].title@)
            },
    );
    assert forall|i: int| 0 <= i < items.len() implies checklist_lines(items)[i] == want[i] by {
        let it = items[i];
        if it.is_done {
            assert(checklist_line(it) =~= done_line(it.title@));
        } else {
            assert(checklist_line(it) =~= open_line(it.title@));
        }
    }
    assert(checklist_lines(items) =~= want);
}

/// Formats the checklist as Markdown; `None` when there are no items.
pub fn format_checklist_markdown(items: &[ChecklistItem]) -> (r: Option<String>)
    ensures
        crate::text::opt_view(r) == checklist_markdown(items@),
{
    if items.len() == 0 {
        return None;
    }
    let mut body = String::new();
    let mut i: usize = 0;
    while i < items.len()
        invariant
            i <= items@.len(),
            body@ == join_lines(checklist_lines(items@.subrange(0, i as int))),
        decreases items@.len() - i,
    {
        let ghost before = body@;
        if i > 0 {
            push_char(&mut body, '\n');
        }
        push_str(&mut body, "- [");
        if items[i].is_done {
            push_char(&mut body, 'x');
        } else {
            push_char(&mut body, ' ');
        }
        push_str(&mut body, "] ");
        push_str(&mut body, items[i].title.as_str());
        proof {
            let prev = checklist_lines(items@.subrange(0, i as int));
            let next = checklist_lines(items@.subrange(0, i + 1));
            assert(next.drop_last() =~= prev);
            assert(next.last() == checklist_line(items@[i as int]));
            if i == 0 {
                assert(next.len() == 1);
                assert(body@ =~= next[0]);
            } else {
                assert(body@ =~= join_lines(prev) + seq!['\n'] + next.last());
            }
        }
        i = i + 1;
    }
    assert(items@.subrange(0, items@.len() as int) =~= items@);
    let mut out = owned("\n\n## Checklist\n\n");
    push_str(&mut out, body.as_str());
    push_str(&mut out, "\n");
    Some(out)
}

pub open spec fn overview_checklist_line(stats: TripStats) -> Seq<char> {
    "- Checklist: "@ + nat_decimal(stats.checklist_completed as nat) + " / "@ + nat_decimal(
        stats.checklist_total as nat,
    ) + " completed\n"@
}

pub open spec fn duration_line(label: Seq<char>, minutes: int) -> Seq<char> {
    label + minutes_duration_text(minutes) + "\n"@
}

/// The overview section: days, itineraries, checklist progress and times.
pub open spec fn overview_text(stats: TripStats) -> Seq<char> {
    "\n## Overview\n\n"@ + ("- Days: "@ + int_decimal(stats.days as int) + "\n"@) + ("- Itineraries: "@
        + nat_decimal(stats.itinerary_count as nat) + "\n"@) + overview_checklist_line(stats) + duration_line(
        "- Stay Time: "@,
        stats.stay_minutes as int,
    ) + duration_line("- Travel Time: "@, stats.travel_minutes as int) + duration_line(
        "- Total Time: "@,
        stats.stay_minutes + stats.travel_minutes,
    )
}

fn format_duration_line(label: &str, minutes: i64) -> (r: String)
    ensures
        r@ == duration_line(label@, minutes as int),
{
    let mut line = owned(label);
    let d = format_minutes_duration(minutes);
    push_str(&mut line, d.as_str());
    push_str(&mut line, "\n");
    line
}

/// Appends the overview section to `output`.
pub fn append_overview_section(output: &mut String, stats: &TripStats)
    requires
        i64::MIN <= stats.stay_minutes + stats.travel_minutes <= i64::MAX,
    ensures
        final(output)@ == old(output)@ + overview_text(*stats),
{
    let mut days = owned("- Days: ");
    push_i64_decimal(&mut days, stats.days);
    push_str(&mut days, "\n");
    let mut itineraries = owned("- Itineraries: ");
    push_u64_decimal(&mut itineraries, stats.itinerary_count as u64);
    push_str(&mut itineraries, "\n");
    let mut checklist = owned("- Checklist: ");
    push_u64_decimal(&mut checklist, stats.checklist_completed as u64);
    push_str(&mut checklist, " / ");
    push_u64_decimal(&mut checklist, stats.checklist_total as u64);
    push_str(&mut checklist, " completed\n");
    let stay = format_duration_line("- Stay Time: ", stats.stay_minutes);
    let travel = format_duration_line("- Travel Time: ", stats.travel_minutes);
    let total = format_duration_line("- Total Time: ", stats.total_minutes());
    push_str(output, "\n## Overview\n\n");
    push_str(output, days.as_str());
    push_str(output, itineraries.as_str());
    push_str(output, checklist.as_str());
    push_str(output, stay.as_str());
    push_str(output, travel.as_str());
    push_str(output, total.as_str());
}

/// What precedes itinerary `k`: a day heading when it starts a new day
/// (a blank line first unless it is the first item), else a blank line.
pub open spec fn item_separator(items: Seq<ItineraryItem>, k: int) -> Seq<char> {
    if k == 0 || items[k - 1].day != items[k].day {
        (if k > 0 {
            "\n\n"@
        } else {
            "\n"@
        }) + "## Day "@ + int_decimal(items[k].day as int) + "\n\n"@
    } else {
        "\n\n"@
    }
}

/// The itinerary part of the booklet for the first `n` items.
pub open spec fn items_markdown(items: Seq<ItineraryItem>, n: nat) -> Seq<char>
    decreases n,
{
    if n == 0 {
        Seq::empty()
    } else {
        items_markdown(items, (n - 1) as nat) + item_separator(items, n - 1) + item_markdown(items[n - 1])
    }
}

/// The whole booklet.
pub open spec fn trip_markdown(
    trip: Trip,
    items: Seq<ItineraryItem>,
    checklist: Seq<ChecklistItem>,
    stats: TripStats,
) -> Seq<char> {
    "# "@ + trip.name@ + "\n"@ + (match date_range_text(trip) {
        Some(d) => "\n"@ + d + "\n"@,
        None => Seq::empty(),
    }) + overview_text(stats) + items_markdown(items, items.len()) + (match checklist_markdown(checklist) {
        Some(c) => c,
        None => Seq::empty(),
    })
}

/// Builds the Markdown booklet of a trip from its itineraries (in day,
/// sort order), checklist and statistics.
pub fn format_trip_markdown(
    trip: &Trip,
    items: &[ItineraryItem],
    checklist: &[ChecklistItem],
    stats: &TripStats,
) -> (r: String)
    requires
        i64::MIN <= stats.stay_minutes + stats.travel_minutes <= i64::MAX,
    ensures
        r@ == trip_markdown(*trip, items@, checklist@, *stats),
{
    let mut output = owned("# ");
    push_str(&mut output, trip.name.as_str());
    push_str(&mut output, "\n");
    match format_trip_date_range(trip) {
        Some(dates) => {
            push_str(&mut output, "\n");
            push_str(&mut output, dates.as_str());
            push_str(&mut output, "\n");
        },
        None => {},
    }
    append_overview_section(&mut output, stats);
    let ghost head = output@;
    let mut current_day: Option<i64> = None;
    let mut i: usize = 0;
    while i < items.len()
        invariant
            i <= items@.len(),
            output@ == head + items_markdown(items@, i as nat),
            current_day == (if i == 0 {
                None
            } else {
                Some(items@[i - 1].day)
            }),
        decreases items@.len() - i,
    {
        let item = &items[i];
        let ghost before = output@;
        let new_day = match current_day {
            Some(d) => d != item.day,
            None => true,
        };
        if new_day {
            if current_day.is_some() {
                push_str(&mut output, "\n\n");
            } else {
                push_str(&mut output, "\n");
            }
            push_str(&mut output, "## Day ");
            push_i64_decimal(&mut output, item.day);
            push_str(&mut output, "\n\n");
            current_day = Some(item.day);
        } else {
            push_str(&mut output, "\n\n");
        }
        assert(output@ =~= before + item_separator(items@, i as int));
        let md = format_itinerary_item_markdown(item);
        push_str(&mut output, md.as_str());
        i = i + 1;
    }
    match format_checklist_markdown(checklist) {
        Some(md) => push_str(&mut output, md.as_str()),
        None => {},
    }
    output
}

} // verus!
