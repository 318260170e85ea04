//! Trip Proposal Envelope files: structural validation, summary, warnings
//! about metadata and hints, and the details shown by `proposal show` /
//! `proposal inspect`.
use vstd::prelude::*;

use crate::json::{
    as_array, as_bool, as_object, contains_key, get_member, has_member, is_array, is_array_value, is_non_empty_array,
    is_object, is_object_value, json_document, json_object, member, non_empty_array, non_empty_string, non_empty_text,
    parse_json, string_array, string_array_of, JsonKind, JsonMembers, JsonValue,
};
use crate::text::{line_if, opt_view, push_line_if, push_str, push_string, owned, str_eq, strings_view};
use crate::time::{datetime_of, instant_before, is_before, is_over_a_year_old, over_a_year_old, parse_datetime, utc_now, Instant};

verus! {

pub const PROPOSAL_VALIDATION_REPORT_SCHEMA_VERSION: i32 = 1;

/// What the envelope says of itself, each field trimmed and present only when not blank.
#[derive(Debug, PartialEq, Eq)]
pub struct ProposalEnvelopeSummary {
    pub title: Option<String>,
    pub destination: Option<String>,
    pub date_policy: Option<String>,
    pub created_at: Option<String>,
    pub valid_until: Option<String>,
    pub source: Option<String>,
    pub provider: Option<String>,
}

#[derive(Debug, PartialEq, Eq)]
pub struct ProposalEnvelopeValidationReport {
    pub schema_version: i32,
    pub file: String,
    pub valid: bool,
    pub document_kind: String,
    pub summary: ProposalEnvelopeSummary,
    pub errors: Vec<String>,
    pub warnings: Vec<String>,
}

/// The summary's fields, in declaration order, through their views.
pub type SummaryView = (
    Option<Seq<char>>,
    Option<Seq<char>>,
    Option<Seq<char>>,
    Option<Seq<char>>,
    Option<Seq<char>>,
    Option<Seq<char>>,
    Option<Seq<char>>,
);

pub open spec fn summary_view(s: ProposalEnvelopeSummary) -> SummaryView {
    (
        opt_view(s.title),
        opt_view(s.destination),
        opt_view(s.date_policy),
        opt_view(s.created_at),
        opt_view(s.valid_until),
        opt_view(s.source),
        opt_view(s.provider),
    )
}

pub open spec fn empty_summary() -> SummaryView {
    (None, None, None, None, None, None, None)
}

impl ProposalEnvelopeValidationReport {
    /// An invalid report for `file` with an empty summary and no messages.
    pub fn new(file: &str) -> (r: Self)
        ensures
            r.schema_version == PROPOSAL_VALIDATION_REPORT_SCHEMA_VERSION,
            r.file@ == file@,
            !r.valid,
            r.document_kind@ == "trip_proposal_envelope"@,
            summary_view(r.summary) == empty_summary(),
            r.errors@.len() == 0,
            r.warnings@.len() == 0,
    {
        ProposalEnvelopeValidationReport {
            schema_version: PROPOSAL_VALIDATION_REPORT_SCHEMA_VERSION,
            file: owned(file),
            valid: false,
            document_kind: owned("trip_proposal_envelope"),
            summary: ProposalEnvelopeSummary {
                title: None,
                destination: None,
                date_policy: None,
                created_at: None,
                valid_until: None,
                source: None,
                provider: None,
            },
            errors: Vec::new(),
            warnings: Vec::new(),
        }
    }
}

// ---------------------------------------------------------------------------
// What the analysis finds, stated over the document.

/// The `proposal` member, when it is an object.
pub open spec fn proposal_object(m: Seq<(String, JsonValue)>) -> Option<Seq<(String, JsonValue)>> {
    match member(m, "proposal"@) {
        Some(v) => as_object(v),
        None => None,
    }
}

/// The `metadata` member's members (none when it is missing or not an object).
pub open spec fn metadata_members(m: Seq<(String, JsonValue)>) -> Seq<(String, JsonValue)> {
    match member(m, "metadata"@) {
        Some(v) => match as_object(v) {
            Some(o) => o,
            None => Seq::empty(),
        },
        None => Seq::empty(),
    }
}

/// The `materialize_hints` member, when it is an object.
pub open spec fn hints_object(m: Seq<(String, JsonValue)>) -> Option<Seq<(String, JsonValue)>> {
    match member(m, "materialize_hints"@) {
        Some(v) => as_object(v),
        None => None,
    }
}

/// Errors for top-level shapes of a schema v8 Trip export.
pub open spec fn export_like_errors(m: Seq<(String, JsonValue)>) -> Seq<Seq<char>> {
    line_if(
        has_member(m, "schema_version"@),
        "schema_version が含まれています — これは schema v8 Trip export の可能性が高く、Trip Proposal Envelope ではありません（trip validate-export を使用してください）"@,
    ) + line_if(
        is_object(member(m, "trip"@)),
        "トップレベル trip object が含まれています — schema v8 Trip export の可能性が高く、Trip Proposal Envelope ではありません"@,
    ) + line_if(
        has_member(m, "itinerary_items"@),
        "itinerary_items が含まれています — schema v8 Trip export（legacy flat）の可能性が高く、Trip Proposal Envelope ではありません"@,
    ) + line_if(
        is_array(member(m, "days"@)) && !has_member(m, "proposal"@),
        "days 配列のみの export 形式です — Trip Proposal Envelope ではありません"@,
    )
}

pub open spec fn is_known_date_policy(p: Seq<char>) -> bool {
    p == "fixed_dates"@ || p == "flexible_dates"@ || p == "undated"@
}

/// A candidate date range that is confirmed and has a start and an end.
pub open spec fn confirmed_range(v: JsonValue) -> bool {
    match as_object(v) {
        Some(o) => {
            &&& match member(o, "confirmed"@) {
                Some(c) => as_bool(c) == Some(true),
                None => false,
            }
            &&& non_empty_text(member(o, "start"@)) is Some
            &&& non_empty_text(member(o, "end"@)) is Some
        },
        None => false,
    }
}

/// Fixed dates are given: a start and an end date, or a confirmed range.
pub open spec fn fixed_dates_met(p: Seq<(String, JsonValue)>) -> bool {
    ||| (non_empty_text(member(p, "start_date"@)) is Some && non_empty_text(member(p, "end_date"@)) is Some)
    ||| match member(p, "candidate_date_ranges"@) {
        Some(v) => match as_array(v) {
            Some(a) => exists|i: int| 0 <= i < a.len() && confirmed_range(#[trigger] a[i]),
            None => false,
        },
        None => false,
    }
}

/// The proposal has no candidate days, itineraries or date ranges, and no notes.
pub open spec fn body_nearly_empty(p: Seq<(String, JsonValue)>) -> bool {
    &&& !non_empty_array(member(p, "candidate_days"@))
    &&& !non_empty_array(member(p, "candidate_itineraries"@))
    &&& !non_empty_array(member(p, "candidate_date_ranges"@))
    &&& non_empty_text(member(p, "notes"@)) is None
}

pub open spec fn date_policy_errors(p: Seq<(String, JsonValue)>) -> Seq<Seq<char>> {
    match non_empty_text(member(p, "date_policy"@)) {
        None => seq!["proposal.date_policy が必要です"@],
        Some(policy) => if !is_known_date_policy(policy) {
            seq![
                "proposal.date_policy が不明です: "@ + policy
                    + "（fixed_dates / flexible_dates / undated のいずれか）"@,
            ]
        } else if policy == "fixed_dates"@ && !fixed_dates_met(p) {
            seq![
                "date_policy が fixed_dates ですが、確定日付（proposal.start_date / proposal.end_date、または confirmed な candidate_date_ranges）が不足しています"@,
            ]
        } else {
            Seq::empty()
        },
    }
}

/// Errors in the proposal object's own fields.
pub open spec fn proposal_field_errors(p: Seq<(String, JsonValue)>) -> Seq<Seq<char>> {
    line_if(non_empty_text(member(p, "title"@)) is None, "proposal.title が必要です"@)
        + line_if(non_empty_text(member(p, "destination"@)) is None, "proposal.destination が必要です"@)
        + date_policy_errors(p)
        + line_if(
        body_nearly_empty(p),
        "proposal body が空に近いです（candidate_days / candidate_itineraries / candidate_date_ranges / notes のいずれかが必要）"@,
    )
}

/// Warnings about `valid_until` (passed or unreadable) or, without it, a `created_at` over a year old.
pub open spec fn validity_warnings(created: Option<Seq<char>>, until: Option<Seq<char>>, now: Instant) -> Seq<Seq<char>> {
    match until {
        Some(u) => match datetime_of(u) {
            Some(t) => line_if(instant_before(t, now), "metadata.valid_until を過ぎています: "@ + u),
            None => seq!["metadata.valid_until の形式を解釈できません: "@ + u],
        },
        None => match created {
            Some(c) => match datetime_of(c) {
                Some(t) => line_if(
                    over_a_year_old(t, now),
                    "metadata.valid_until がなく、created_at から 1 年を超えています（提案が古い可能性）"@,
                ),
                None => Seq::empty(),
            },
            None => Seq::empty(),
        },
    }
}

pub open spec fn metadata_warnings(meta: Seq<(String, JsonValue)>, now: Instant) -> Seq<Seq<char>> {
    line_if(non_empty_text(member(meta, "created_at"@)) is None, "metadata.created_at がありません"@)
        + line_if(non_empty_text(member(meta, "source"@)) is None, "metadata.source がありません"@)
        + line_if(non_empty_text(member(meta, "provider"@)) is None, "metadata.provider がありません"@)
        + validity_warnings(
        non_empty_text(member(meta, "created_at"@)),
        non_empty_text(member(meta, "valid_until"@)),
        now,
    )
}

pub open spec fn hint_warnings(hints: Option<Seq<(String, JsonValue)>>) -> Seq<Seq<char>> {
    match hints {
        Some(h) => line_if(
            non_empty_array(member(h, "missing_fields"@)),
            "materialize_hints.missing_fields があります"@,
        ) + line_if(non_empty_array(member(h, "assumptions"@)), "materialize_hints.assumptions があります"@)
            + line_if(non_empty_array(member(h, "warnings"@)), "materialize_hints.warnings があります"@),
        None => Seq::empty(),
    }
}

pub open spec fn body_warnings(p: Seq<(String, JsonValue)>) -> Seq<Seq<char>> {
    line_if(!non_empty_array(member(p, "candidate_days"@)), "proposal.candidate_days が空です"@)
        + line_if(!non_empty_array(member(p, "candidate_itineraries"@)), "proposal.candidate_itineraries が空です"@)
}

pub open spec fn summary_of(p: Seq<(String, JsonValue)>, meta: Seq<(String, JsonValue)>) -> SummaryView {
    (
        non_empty_text(member(p, "title"@)),
        non_empty_text(member(p, "destination"@)),
        non_empty_text(member(p, "date_policy"@)),
        non_empty_text(member(meta, "created_at"@)),
        non_empty_text(member(meta, "valid_until"@)),
        non_empty_text(member(meta, "source"@)),
        non_empty_text(member(meta, "provider"@)),
    )
}

/// The blocking errors found in a parsed document (or in its parse error).
pub open spec fn envelope_errors(parsed: Result<JsonValue, Seq<char>>) -> Seq<Seq<char>> {
    match parsed {
        Err(e) => seq!["JSON の parse に失敗しました: "@ + e],
        Ok(root) => match as_object(root) {
            None => seq!["トップレベルが JSON object ではありません"@],
            Some(m) => export_like_errors(m) + match member(m, "proposal"@) {
                None => seq!["Trip Proposal Envelope には proposal object が必要です"@],
                Some(v) => match as_object(v) {
                    None => seq!["proposal は object である必要があります"@],
                    Some(p) => proposal_field_errors(p),
                },
            },
        },
    }
}

/// The warnings, which are only looked for once a proposal object is found.
pub open spec fn envelope_warnings(parsed: Result<JsonValue, Seq<char>>, now: Instant) -> Seq<Seq<char>> {
    match parsed {
        Ok(root) => match as_object(root) {
            Some(m) => match proposal_object(m) {
                Some(p) => metadata_warnings(metadata_members(m), now) + hint_warnings(hints_object(m))
                    + body_warnings(p),
                None => Seq::empty(),
            },
            None => Seq::empty(),
        },
        Err(_) => Seq::empty(),
    }
}

pub open spec fn envelope_summary(parsed: Result<JsonValue, Seq<char>>) -> SummaryView {
    match parsed {
        Ok(root) => match as_object(root) {
            Some(m) => match proposal_object(m) {
                Some(p) => summary_of(p, metadata_members(m)),
                None => empty_summary(),
            },
            None => empty_summary(),
        },
        Err(_) => empty_summary(),
    }
}

/// `r` is the report on the document `parsed`, read from `path`, at instant `now`.
pub open spec fn is_envelope_report(
    r: ProposalEnvelopeValidationReport,
    path: Seq<char>,
    parsed: Result<JsonValue, Seq<char>>,
    now: Instant,
) -> bool {
    &&& r.schema_version == PROPOSAL_VALIDATION_REPORT_SCHEMA_VERSION
    &&& r.file@ == path
    &&& r.document_kind@ == "trip_proposal_envelope"@
    &&& strings_view(r.errors@) == envelope_errors(parsed)
    &&& strings_view(r.warnings@) == envelope_warnings(parsed, now)
    &&& summary_view(r.summary) == envelope_summary(parsed)
    &&& r.valid == (envelope_errors(parsed).len() == 0)
}

// ---------------------------------------------------------------------------
// The analysis.

fn collect_trip_export_like_errors(root: &JsonMembers, errors: &mut Vec<String>)
    ensures
        strings_view(final(errors)@) == strings_view(old(errors)@) + export_like_errors(root@),
{
    let ghost before = strings_view(errors@);
    push_line_if(
        errors,
        contains_key(root, "schema_version"),
        "schema_version が含まれています — これは schema v8 Trip export の可能性が高く、Trip Proposal Envelope ではありません（trip validate-export を使用してください）",
    );
    push_line_if(
        errors,
        is_object_value(get_member(root, "trip")),
        "トップレベル trip object が含まれています — schema v8 Trip export の可能性が高く、Trip Proposal Envelope ではありません",
    );
    push_line_if(
        errors,
        contains_key(root, "itinerary_items"),
        "itinerary_items が含まれています — schema v8 Trip export（legacy flat）の可能性が高く、Trip Proposal Envelope ではありません",
    );
    let days_only = is_array_value(get_member(root, "days")) && !contains_key(root, "proposal");
    push_line_if(errors, days_only, "days 配列のみの export 形式です — Trip Proposal Envelope ではありません");
    assert(strings_view(errors@) =~= before + export_like_errors(root@));
}

fn is_confirmed_range(v: &JsonValue) -> (r: bool)
    ensures
        r == confirmed_range(*v),
{
    match json_object(v) {
        Some(o) => {
            let confirmed = match get_member(o, "confirmed") {
                Some(c) => match &c.kind {
                    JsonKind::Bool(b) => *b,
                    _ => false,
                },
                None => false,
            };
            confirmed && non_empty_string(get_member(o, "start")).is_some() && non_empty_string(
                get_member(o, "end"),
            ).is_some()
        },
        None => false,
    }
}

/// The error for a `fixed_dates` proposal without its dates.
pub open spec fn fixed_dates_missing_message() -> Seq<char> {
    "date_policy が fixed_dates ですが、確定日付（proposal.start_date / proposal.end_date、または confirmed な candidate_date_ranges）が不足しています"@
}

/// A candidate date range marked `confirmed: true` with a non-empty `start`
/// and a non-empty `end`.
pub open spec fn range_is_confirmed(x: JsonValue) -> bool {
    match as_object(x) {
        Some(o) => {
            &&& match member(o, "confirmed"@) {
                Some(c) => c.kind == JsonKind::Bool(true),
                None => false,
            }
            &&& non_empty_text(member(o, "start"@)) is Some
            &&& non_empty_text(member(o, "end"@)) is Some
        },
        None => false,
    }
}

/// The proposal's `candidate_date_ranges` is an array holding a confirmed range.
pub open spec fn lists_confirmed_range(p: Seq<(String, JsonValue)>) -> bool {
    match member(p, "candidate_date_ranges"@) {
        Some(v) => match v.kind {
            JsonKind::Array(a) => exists|i: int| 0 <= i < a@.len() && #[trigger] range_is_confirmed(a@[i]),
            _ => false,
        },
        None => false,
    }
}

/// Under `date_policy` `fixed_dates`, a proposal that lists no confirmed
/// candidate date range and lacks a non-empty `start_date` or a non-empty
/// `end_date` is refused for its missing dates, so the envelope is invalid.
pub proof fn lemma_fixed_dates_need_both_dates(
    root: JsonValue,
    m: Seq<(String, JsonValue)>,
    pv: JsonValue,
    p: Seq<(String, JsonValue)>,
)
    requires
        as_object(root) == Some(m),
        member(m, "proposal"@) == Some(pv),
        as_object(pv) == Some(p),
        non_empty_text(member(p, "date_policy"@)) == Some("fixed_dates"@),
        !lists_confirmed_range(p),
        non_empty_text(member(p, "start_date"@)) is None || non_empty_text(member(p, "end_date"@)) is None,
    ensures
        envelope_errors(Ok(root)).contains(fixed_dates_missing_message()),
        envelope_errors(Ok(root)).len() > 0,
{
    if let Some(v) = member(p, "candidate_date_ranges"@) {
        if let Some(arr) = as_array(v) {
            assert forall|i: int| 0 <= i < arr.len() implies !confirmed_range(#[trigger] arr[i]) by {
                if confirmed_range(arr[i]) {
                    assert(range_is_confirmed(arr[i]));
                }
            }
        }
    }
    assert(!fixed_dates_met(p));
    let a = line_if(non_empty_text(member(p, "title"@)) is None, "proposal.title が必要です"@);
    let b = line_if(non_empty_text(member(p, "destination"@)) is None, "proposal.destination が必要です"@);
    assert(date_policy_errors(p) == seq![fixed_dates_missing_message()]);
    let f = proposal_field_errors(p);
    assert(f[(a.len() + b.len()) as int] == fixed_dates_missing_message());
    let e = envelope_errors(Ok(root));
    assert(e == export_like_errors(m) + f);
    assert(e[(export_like_errors(m).len() + a.len() + b.len()) as int] == fixed_dates_missing_message());
}

/// Under `date_policy` `fixed_dates`, a proposal with a non-empty
/// `start_date` and a non-empty `end_date`, or with a confirmed candidate
/// date range, has no date-policy error.
pub proof fn lemma_fixed_dates_met_by_dates_or_range(p: Seq<(String, JsonValue)>)
    requires
        non_empty_text(member(p, "date_policy"@)) == Some("fixed_dates"@),
        (non_empty_text(member(p, "start_date"@)) is Some && non_empty_text(member(p, "end_date"@)) is Some)
            || lists_confirmed_range(p),
    ensures
        date_policy_errors(p).len() == 0,
{
    if lists_confirmed_range(p) {
        let v = member(p, "candidate_date_ranges"@)->Some_0;
        let a = as_array(v)->Some_0;
        let i = choose|i: int| 0 <= i < a.len() && #[trigger] range_is_confirmed(a[i]);
        assert(confirmed_range(a[i]));
    }
}

fn fixed_dates_requirements_met(p: &JsonMembers) -> (r: bool)
    ensures
        r == fixed_dates_met(p@),
{
    let start = non_empty_string(get_member(p, "start_date"));
    let end = non_empty_string(get_member(p, "end_date"));
    if start.is_some() && end.is_some() {
        return true;
    }
    let ranges = get_member(p, "candidate_date_ranges");
    match ranges {
        Some(v) => match &v.kind {
            JsonKind::Array(a) => {
                let mut i: usize = 0;
                while i < a.len()
                    invariant
                        i <= a@.len(),
                        !(non_empty_text(member(p@, "start_date"@)) is Some && non_empty_text(member(p@, "end_date"@)) is Some),
                        member(p@, "candidate_date_ranges"@) == Some(*v),
                        as_array(*v) == Some(a@),
                        forall|j: int| 0 <= j < i ==> !confirmed_range(#[trigger] a@[j]),
                    decreases a@.len() - i,
                {
                    if is_confirmed_range(&a[i]) {
                        let ghost sa = as_array(*v)->0;
                        assert(confirmed_range(sa[i as int]));
                        return true;
                    }
                    i = i + 1;
                }
                false
            },
            _ => false,
        },
        None => false,
    }
}

fn proposal_body_nearly_empty(p: &JsonMembers) -> (r: bool)
    ensures
        r == body_nearly_empty(p@),
{
    let has_days = is_non_empty_array(get_member(p, "candidate_days"));
    let has_itineraries = is_non_empty_array(get_member(p, "candidate_itineraries"));
    let has_ranges = is_non_empty_array(get_member(p, "candidate_date_ranges"));
    let has_notes = non_empty_string(get_member(p, "notes")).is_some();
    !has_days && !has_itineraries && !has_ranges && !has_notes
}

fn is_known_policy(policy: &str) -> (r: bool)
    ensures
        r == is_known_date_policy(policy@),
{
    str_eq(policy, "fixed_dates") || str_eq(policy, "flexible_dates") || str_eq(policy, "undated")
}

fn validate_proposal_fields(p: &JsonMembers, errors: &mut Vec<String>)
    ensures
        strings_view(final(errors)@) == strings_view(old(errors)@) + proposal_field_errors(p@),
{
    let ghost before = strings_view(errors@);
    let title = non_empty_string(get_member(p, "title"));
    push_line_if(errors, title.is_none(), "proposal.title が必要です");
    let destination = non_empty_string(get_member(p, "destination"));
    push_line_if(errors, destination.is_none(), "proposal.destination が必要です");
    let ghost mid = strings_view(errors@);
    match non_empty_string(get_member(p, "date_policy")) {
        None => {
            push_string(errors, owned("proposal.date_policy が必要です"));
        },
        Some(policy) => {
            if !is_known_policy(policy.as_str()) {
                let mut msg = owned("proposal.date_policy が不明です: ");
                push_str(&mut msg, policy.as_str());
                push_str(&mut msg, "（fixed_dates / flexible_dates / undated のいずれか）");
                push_string(errors, msg);
            } else if str_eq(policy.as_str(), "fixed_dates") && !fixed_dates_requirements_met(p) {
                push_string(
                    errors,
                    owned(
                        "date_policy が fixed_dates ですが、確定日付（proposal.start_date / proposal.end_date、または confirmed な candidate_date_ranges）が不足しています",
                    ),
                );
            }
        },
    }
    assert(strings_view(errors@) =~= mid + date_policy_errors(p@));
    push_line_if(
        errors,
        proposal_body_nearly_empty(p),
        "proposal body が空に近いです（candidate_days / candidate_itineraries / candidate_date_ranges / notes のいずれかが必要）",
    );
    assert(strings_view(errors@) =~= before + proposal_field_errors(p@));
}

fn fill_summary(p: &JsonMembers, meta: &JsonMembers) -> (s: ProposalEnvelopeSummary)
    ensures
        summary_view(s) == summary_of(p@, meta@),
{
    ProposalEnvelopeSummary {
        title: non_empty_string(get_member(p, "title")),
        destination: non_empty_string(get_member(p, "destination")),
        date_policy: non_empty_string(get_member(p, "date_policy")),
        created_at: non_empty_string(get_member(meta, "created_at")),
        valid_until: non_empty_string(get_member(meta, "valid_until")),
        source: non_empty_string(get_member(meta, "source")),
        provider: non_empty_string(get_member(meta, "provider")),
    }
}

fn collect_validity_warnings(created: &Option<String>, until: &Option<String>, now: Instant, warnings: &mut Vec<String>)
    ensures
        strings_view(final(warnings)@) == strings_view(old(warnings)@) + validity_warnings(
            opt_view(*created),
            opt_view(*until),
            now,
        ),
{
    let ghost before = strings_view(warnings@);
    match until {
        Some(u) => match parse_datetime(u.as_str()) {
            Some(t) => {
                if is_before(t, now) {
                    let mut msg = owned("metadata.valid_until を過ぎています: ");
                    push_str(&mut msg, u.as_str());
                    push_string(warnings, msg);
                }
            },
            None => {
                let mut msg = owned("metadata.valid_until の形式を解釈できません: ");
                push_str(&mut msg, u.as_str());
                push_string(warnings, msg);
            },
        },
        None => match created {
            Some(c) => match parse_datetime(c.as_str()) {
                Some(t) => {
                    push_line_if(
                        warnings,
                        is_over_a_year_old(t, now),
                        "metadata.valid_until がなく、created_at から 1 年を超えています（提案が古い可能性）",
                    );
                },
                None => {},
            },
            None => {},
        },
    }
    assert(strings_view(warnings@) =~= before + validity_warnings(opt_view(*created), opt_view(*until), now));
}

fn collect_metadata_warnings(meta: &JsonMembers, now: Instant, warnings: &mut Vec<String>)
    ensures
        strings_view(final(warnings)@) == strings_view(old(warnings)@) + metadata_warnings(meta@, now),
{
    let ghost before = strings_view(warnings@);
    let created_at = non_empty_string(get_member(meta, "created_at"));
    let valid_until = non_empty_string(get_member(meta, "valid_until"));
    push_line_if(warnings, created_at.is_none(), "metadata.created_at がありません");
    push_line_if(
        warnings,
        non_empty_string(get_member(meta, "source")).is_none(),
        "metadata.source がありません",
    );
    push_line_if(
        warnings,
        non_empty_string(get_member(meta, "provider")).is_none(),
        "metadata.provider がありません",
    );
    collect_validity_warnings(&created_at, &valid_until, now, warnings);
    assert(strings_view(warnings@) =~= before + metadata_warnings(meta@, now));
}

fn collect_materialize_hint_warnings(hints: Option<&JsonMembers>, warnings: &mut Vec<String>)
    ensures
        strings_view(final(warnings)@) == strings_view(old(warnings)@) + hint_warnings(
            match hints {
                Some(h) => Some(h@),
                None => None,
            },
        ),
{
    let ghost before = strings_view(warnings@);
    match hints {
        Some(h) => {
            push_line_if(
                warnings,
                is_non_empty_array(get_member(h, "missing_fields")),
                "materialize_hints.missing_fields があります",
            );
            push_line_if(
                warnings,
                is_non_empty_array(get_member(h, "assumptions")),
                "materialize_hints.assumptions があります",
            );
            push_line_if(
                warnings,
                is_non_empty_array(get_member(h, "warnings")),
                "materialize_hints.warnings があります",
            );
            assert(strings_view(warnings@) =~= before + hint_warnings(Some(h@)));
        },
        None => {
            assert(strings_view(warnings@) =~= before + hint_warnings(None));
        },
    }
}

fn collect_body_warnings(p: &JsonMembers, warnings: &mut Vec<String>)
    ensures
        strings_view(final(warnings)@) == strings_view(old(warnings)@) + body_warnings(p@),
{
    let ghost before = strings_view(warnings@);
    push_line_if(
        warnings,
        !is_non_empty_array(get_member(p, "candidate_days")),
        "proposal.candidate_days が空です",
    );
    push_line_if(
        warnings,
        !is_non_empty_array(get_member(p, "candidate_itineraries")),
        "proposal.candidate_itineraries が空です",
    );
    assert(strings_view(warnings@) =~= before + body_warnings(p@));
}

/// The report on a parsed envelope document (or on its parse error) read
/// from `path`, with `now` the instant against which dates are judged.
pub fn analyze_proposal_envelope_at(path: &str, parsed: &Result<JsonValue, String>, now: Instant) -> (r:
    ProposalEnvelopeValidationReport)
    ensures
        is_envelope_report(r, path@, crate::text::result_view(*parsed), now),
{
    let mut report = ProposalEnvelopeValidationReport::new(path);
    assert(strings_view(report.warnings@) =~= Seq::empty());
    let root = match parsed {
        Ok(v) => v,
        Err(e) => {
            let mut msg = owned("JSON の parse に失敗しました: ");
            push_str(&mut msg, e.as_str());
            push_string(&mut report.errors, msg);
            assert(strings_view(report.errors@) =~= envelope_errors(crate::text::result_view(*parsed)));
            return report;
        },
    };
    let root_obj = match json_object(root) {
        Some(m) => m,
        None => {
            push_string(&mut report.errors, owned("トップレベルが JSON object ではありません"));
            assert(strings_view(report.errors@) =~= envelope_errors(crate::text::result_view(*parsed)));
            return report;
        },
    };
    collect_trip_export_like_errors(root_obj, &mut report.errors);
    let ghost after_export = strings_view(report.errors@);
    let proposal = match get_member(root_obj, "proposal") {
        Some(v) => match json_object(v) {
            Some(p) => p,
            None => {
                push_string(&mut report.errors, owned("proposal は object である必要があります"));
                assert(strings_view(report.errors@) =~= envelope_errors(crate::text::result_view(*parsed)));
                report.valid = report.errors.len() == 0;
                return report;
            },
        },
        None => {
            push_string(&mut report.errors, owned("Trip Proposal Envelope には proposal object が必要です"));
            assert(strings_view(report.errors@) =~= envelope_errors(crate::text::result_view(*parsed)));
            report.valid = report.errors.len() == 0;
            return report;
        },
    };
    let empty: JsonMembers = Vec::new();
    let metadata: &JsonMembers = match get_member(root_obj, "metadata") {
        Some(v) => match json_object(v) {
            Some(o) => o,
            None => &empty,
        },
        None => &empty,
    };
    assert(metadata@ =~= metadata_members(root_obj@));
    let hints: Option<&JsonMembers> = match get_member(root_obj, "materialize_hints") {
        Some(v) => json_object(v),
        None => None,
    };
    validate_proposal_fields(proposal, &mut report.errors);
    report.summary = fill_summary(proposal, metadata);
    let ghost w0 = strings_view(report.warnings@);
    collect_metadata_warnings(metadata, now, &mut report.warnings);
    collect_materialize_hint_warnings(hints, &mut report.warnings);
    collect_body_warnings(proposal, &mut report.warnings);
    assert(strings_view(report.errors@) =~= envelope_errors(crate::text::result_view(*parsed)));
    assert(strings_view(report.warnings@) =~= envelope_warnings(crate::text::result_view(*parsed), now));
    report.valid = report.errors.len() == 0;
    report
}

/// Validates the JSON text of a Trip Proposal Envelope read from `path`
/// (no database needed). Dates are judged against the current time.
pub fn analyze_proposal_envelope_json(path: &str, json: &str) -> (r: ProposalEnvelopeValidationReport)
    ensures
        exists|now: Instant| is_envelope_report(r, path@, json_document(json@), now),
        strings_view(r.errors@) == envelope_errors(json_document(json@)),
        r.valid == (envelope_errors(json_document(json@)).len() == 0),
{
    let parsed = parse_json(json);
    let now = utc_now();
    analyze_proposal_envelope_at(path, &parsed, now)
}

// ---------------------------------------------------------------------------
// Details for `proposal show` / `proposal inspect`.

/// What `proposal show` and `proposal inspect` print beyond the validation report.
#[derive(Debug, PartialEq, Eq)]
pub struct ProposalEnvelopeDetails {
    pub proposal_id: Option<String>,
    pub notes: Option<String>,
    pub start_date: Option<String>,
    pub end_date: Option<String>,
    pub candidate_days_count: usize,
    pub candidate_itineraries_count: usize,
    pub candidate_date_ranges_count: usize,
    pub missing_fields_count: usize,
    pub assumptions_count: usize,
    pub hint_warnings_count: usize,
    pub required_decisions_count: usize,
    pub missing_fields: Vec<String>,
    pub assumptions: Vec<String>,
    pub hint_warnings: Vec<String>,
    pub required_decisions: Vec<String>,
    pub candidate_days_preview: Vec<String>,
    pub candidate_itineraries_preview: Vec<String>,
    pub candidate_date_ranges_preview: Vec<String>,
    pub expired: bool,
}

#[derive(Debug, PartialEq, Eq)]
pub struct ProposalEnvelopeView {
    pub report: ProposalEnvelopeValidationReport,
    pub details: ProposalEnvelopeDetails,
}

/// Which candidate list a preview line is made for.
#[derive(Clone, Copy, Debug, PartialEq, Eq)]
pub enum PreviewKind {
    Day,
    Itinerary,
    DateRange,
}

pub open spec fn text_or(t: Option<Seq<char>>, fallback: Seq<char>) -> Seq<char> {
    match t {
        Some(x) => x,
        None => fallback,
    }
}

/// The preview line of one candidate (none for an element that is not an object).
pub open spec fn preview_of(kind: PreviewKind, v: JsonValue) -> Option<Seq<char>> {
    match as_object(v) {
        None => None,
        Some(o) => Some(
            match kind {
                PreviewKind::Day => {
                    let label = text_or(non_empty_text(member(o, "label"@)), "(no label)"@);
                    let date = text_or(non_empty_text(member(o, "date"@)), "date TBD"@);
                    match non_empty_text(member(o, "summary"@)) {
                        Some(summary) => label + ": "@ + summary + " ["@ + date + "]"@,
                        None => label + " ["@ + date + "]"@,
                    }
                },
                PreviewKind::Itinerary => text_or(non_empty_text(member(o, "title"@)), "(no title)"@),
                PreviewKind::DateRange => {
                    let label = text_or(non_empty_text(member(o, "label"@)), "(no label)"@);
                    let start = text_or(non_empty_text(member(o, "start"@)), "?"@);
                    let end = text_or(non_empty_text(member(o, "end"@)), "?"@);
                    let confirmed = match member(o, "confirmed"@) {
                        Some(c) => as_bool(c) == Some(true),
                        None => false,
                    };
                    label + ": "@ + start + " .. "@ + end + " (confirmed="@ + crate::text::bool_text(confirmed)
                        + ")"@
                },
            },
        ),
    }
}

/// The preview lines of the candidates that have one, in order.
pub open spec fn preview_list(a: Seq<JsonValue>, kind: PreviewKind) -> Seq<Seq<char>>
    decreases a.len(),
{
    if a.len() == 0 {
        Seq::empty()
    } else {
        preview_list(a.drop_last(), kind) + match preview_of(kind, a.last()) {
            Some(line) => seq![line],
            None => Seq::empty(),
        }
    }
}

/// The elements of an array value (empty for anything else).
pub open spec fn array_elements(v: Option<JsonValue>) -> Seq<JsonValue> {
    match v {
        Some(x) => match as_array(x) {
            Some(a) => a,
            None => Seq::empty(),
        },
        None => Seq::empty(),
    }
}

/// A warning that says the proposal has expired or is over a year old.
pub open spec fn is_expiry_warning(w: Seq<char>) -> bool {
    crate::text::seq_contains_sub(w, "valid_until を過ぎ"@) || crate::text::seq_contains_sub(w, "1 年を超え"@)
}

/// The details read from the document, given the warnings of its report.
pub open spec fn details_match(
    d: ProposalEnvelopeDetails,
    parsed: Result<JsonValue, Seq<char>>,
    warnings: Seq<Seq<char>>,
) -> bool {
    let root = match parsed {
        Ok(v) => as_object(v),
        Err(_) => None,
    };
    let (meta, prop, hints) = match root {
        Some(m) => (metadata_members(m), proposal_object(m), hints_object(m)),
        None => (Seq::empty(), None, None),
    };
    let pm = match prop {
        Some(p) => p,
        None => Seq::empty(),
    };
    let hm = match hints {
        Some(h) => h,
        None => Seq::empty(),
    };
    &&& opt_view(d.proposal_id) == non_empty_text(member(meta, "proposal_id"@))
    &&& opt_view(d.notes) == non_empty_text(member(pm, "notes"@))
    &&& opt_view(d.start_date) == non_empty_text(member(pm, "start_date"@))
    &&& opt_view(d.end_date) == non_empty_text(member(pm, "end_date"@))
    &&& d.candidate_days_count == array_elements(member(pm, "candidate_days"@)).len()
    &&& d.candidate_itineraries_count == array_elements(member(pm, "candidate_itineraries"@)).len()
    &&& d.candidate_date_ranges_count == array_elements(member(pm, "candidate_date_ranges"@)).len()
    &&& strings_view(d.candidate_days_preview@) == preview_list(
        array_elements(member(pm, "candidate_days"@)),
        PreviewKind::Day,
    )
    &&& strings_view(d.candidate_itineraries_preview@) == preview_list(
        array_elements(member(pm, "candidate_itineraries"@)),
        PreviewKind::Itinerary,
    )
    &&& strings_view(d.candidate_date_ranges_preview@) == preview_list(
        array_elements(member(pm, "candidate_date_ranges"@)),
        PreviewKind::DateRange,
    )
    &&& strings_view(d.missing_fields@) == string_array_of(member(hm, "missing_fields"@))
    &&& strings_view(d.assumptions@) == string_array_of(member(hm, "assumptions"@))
    &&& strings_view(d.hint_warnings@) == string_array_of(member(hm, "warnings"@))
    &&& strings_view(d.required_decisions@) == string_array_of(member(hm, "required_decisions"@))
    &&& d.missing_fields_count == d.missing_fields@.len()
    &&& d.assumptions_count == d.assumptions@.len()
    &&& d.hint_warnings_count == d.hint_warnings@.len()
    &&& d.required_decisions_count == d.required_decisions@.len()
    &&& d.expired == exists|i: int| 0 <= i < warnings.len() && is_expiry_warning(#[trigger] warnings[i])
}

fn preview_line(kind: PreviewKind, v: &JsonValue) -> (r: Option<String>)
    ensures
        opt_view(r) == preview_of(kind, *v),
{
    let o = match json_object(v) {
        Some(o) => o,
        None => return None,
    };
    match kind {
        PreviewKind::Day => {
            let mut line = match non_empty_string(get_member(o, "label")) {
                Some(l) => l,
                None => owned("(no label)"),
            };
            let date = match non_empty_string(get_member(o, "date")) {
                Some(d) => d,
                None => owned("date TBD"),
            };
            match non_empty_string(get_member(o, "summary")) {
                Some(summary) => {
                    push_str(&mut line, ": ");
                    push_str(&mut line, summary.as_str());
                },
                None => {},
            }
            push_str(&mut line, " [");
            push_str(&mut line, date.as_str());
            push_str(&mut line, "]");
            Some(line)
        },
        PreviewKind::Itinerary => match non_empty_string(get_member(o, "title")) {
            Some(t) => Some(t),
            None => Some(owned("(no title)")),
        },
        PreviewKind::DateRange => {
            let mut line = match non_empty_string(get_member(o, "label")) {
                Some(l) => l,
                None => owned("(no label)"),
            };
            let start = match non_empty_string(get_member(o, "start")) {
                Some(t) => t,
                None => owned("?"),
            };
            let end = match non_empty_string(get_member(o, "end")) {
                Some(t) => t,
                None => owned("?"),
            };
            let confirmed = match get_member(o, "confirmed") {
                Some(c) => match &c.kind {
                    JsonKind::Bool(b) => *b,
                    _ => false,
                },
                None => false,
            };
            push_str(&mut line, ": ");
            push_str(&mut line, start.as_str());
            push_str(&mut line, " .. ");
            push_str(&mut line, end.as_str());
            push_str(&mut line, " (confirmed=");
            push_str(&mut line, if confirmed { "true" } else { "false" });
            push_str(&mut line, ")");
            Some(line)
        },
    }
}

fn preview_lines(v: Option<&JsonValue>, kind: PreviewKind) -> (r: (usize, Vec<String>))
    ensures
        r.0 == array_elements(crate::json::opt_ref_view(v)).len(),
        strings_view(r.1@) == preview_list(array_elements(crate::json::opt_ref_view(v)), kind),
{
    let mut out: Vec<String> = Vec::new();
    assert(strings_view(out@) =~= Seq::empty());
    match v {
        Some(x) => match &x.kind {
            JsonKind::Array(a) => {
                let mut i: usize = 0;
                while i < a.len()
                    invariant
                        i <= a@.len(),
                        strings_view(out@) == preview_list(a@.subrange(0, i as int), kind),
                    decreases a@.len() - i,
                {
                    assert(a@.subrange(0, i + 1).drop_last() =~= a@.subrange(0, i as int));
                    match preview_line(kind, &a[i]) {
                        Some(line) => push_string(&mut out, line),
                        None => {},
                    }
                    i = i + 1;
                }
                assert(a@.subrange(0, a@.len() as int) =~= a@);
                (a.len(), out)
            },
            _ => (0, out),
        },
        None => (0, out),
    }
}

fn has_expiry_warning(warnings: &Vec<String>) -> (r: bool)
    ensures
        r == exists|i: int| 0 <= i < strings_view(warnings@).len() && is_expiry_warning(
            #[trigger] strings_view(warnings@)[i],
        ),
{
    let mut i: usize = 0;
    while i < warnings.len()
        invariant
            i <= warnings@.len(),
            forall|j: int| 0 <= j < i ==> !is_expiry_warning(#[trigger] strings_view(warnings@)[j]),
        decreases warnings@.len() - i,
    {
        let w = warnings[i].as_str();
        if crate::text::str_contains(w, "valid_until を過ぎ") || crate::text::str_contains(w, "1 年を超え") {
            assert(is_expiry_warning(strings_view(warnings@)[i as int]));
            return true;
        }
        i = i + 1;
    }
    false
}

/// The details of an envelope document, given its validation report.
pub fn extract_proposal_envelope_details(
    parsed: &Result<JsonValue, String>,
    report: &ProposalEnvelopeValidationReport,
) -> (d: ProposalEnvelopeDetails)
    ensures
        details_match(d, crate::text::result_view(*parsed), strings_view(report.warnings@)),
{
    let empty: JsonMembers = Vec::new();
    let root: Option<&JsonMembers> = match parsed {
        Ok(v) => json_object(v),
        Err(_) => None,
    };
    let (meta, prop, hints): (&JsonMembers, Option<&JsonMembers>, Option<&JsonMembers>) = match root {
        Some(m) => {
            let meta: &JsonMembers = match get_member(m, "metadata") {
                Some(v) => match json_object(v) {
                    Some(o) => o,
                    None => &empty,
                },
                None => &empty,
            };
            let prop = match get_member(m, "proposal") {
                Some(v) => json_object(v),
                None => None,
            };
            let hints = match get_member(m, "materialize_hints") {
                Some(v) => json_object(v),
                None => None,
            };
            (meta, prop, hints)
        },
        None => (&empty, None, None),
    };
    let pm: &JsonMembers = match prop {
        Some(p) => p,
        None => &empty,
    };
    let hm: &JsonMembers = match hints {
        Some(h) => h,
        None => &empty,
    };
    let (days_count, days_preview) = preview_lines(get_member(pm, "candidate_days"), PreviewKind::Day);
    let (items_count, items_preview) = preview_lines(
        get_member(pm, "candidate_itineraries"),
        PreviewKind::Itinerary,
    );
    let (ranges_count, ranges_preview) = preview_lines(
        get_member(pm, "candidate_date_ranges"),
        PreviewKind::DateRange,
    );
    let missing_fields = string_array(get_member(hm, "missing_fields"));
    let assumptions = string_array(get_member(hm, "assumptions"));
    let hint_warnings = string_array(get_member(hm, "warnings"));
    let required_decisions = string_array(get_member(hm, "required_decisions"));
    ProposalEnvelopeDetails {
        proposal_id: non_empty_string(get_member(meta, "proposal_id")),
        notes: non_empty_string(get_member(pm, "notes")),
        start_date: non_empty_string(get_member(pm, "start_date")),
        end_date: non_empty_string(get_member(pm, "end_date")),
        candidate_days_count: days_count,
        candidate_itineraries_count: items_count,
        candidate_date_ranges_count: ranges_count,
        missing_fields_count: missing_fields.len(),
        assumptions_count: assumptions.len(),
        hint_warnings_count: hint_warnings.len(),
        required_decisions_count: required_decisions.len(),
        missing_fields,
        assumptions,
        hint_warnings,
        required_decisions,
        candidate_days_preview: days_preview,
        candidate_itineraries_preview: items_preview,
        candidate_date_ranges_preview: ranges_preview,
        expired: has_expiry_warning(&report.warnings),
    }
}

/// An error that says the file cannot be read as an envelope at all.
pub open spec fn is_not_envelope_error(e: Seq<char>) -> bool {
    ||| crate::text::seq_contains_sub(e, "parse"@)
    ||| crate::text::seq_contains_sub(e, "Trip Proposal Envelope ではありません"@)
    ||| crate::text::seq_contains_sub(e, "trip validate-export"@)
    ||| crate::text::seq_contains_sub(e, "proposal object が必要"@)
    ||| crate::text::seq_contains_sub(e, "JSON object ではありません"@)
}

/// Whether some error of the report says the file is not an envelope at all
/// (unparsable, not an object, a Trip export, or without a proposal object).
pub fn is_not_proposal_envelope_file(report: &ProposalEnvelopeValidationReport) -> (r: bool)
    ensures
        r == exists|i: int| 0 <= i < report.errors@.len() && is_not_envelope_error(#[trigger] report.errors@[i]@),
{
    let mut i: usize = 0;
    while i < report.errors.len()
        invariant
            i <= report.errors@.len(),
            forall|j: int| 0 <= j < i ==> !is_not_envelope_error(#[trigger] report.errors@[j]@),
        decreases report.errors@.len() - i,
    {
        let e = report.errors[i].as_str();
        if crate::text::str_contains(e, "parse") || crate::text::str_contains(e, "Trip Proposal Envelope ではありません")
            || crate::text::str_contains(e, "trip validate-export") || crate::text::str_contains(
            e,
            "proposal object が必要",
        ) || crate::text::str_contains(e, "JSON object ではありません") {
            assert(is_not_envelope_error(report.errors@[i as int]@));
            return true;
        }
        i = i + 1;
    }
    false
}

/// The report and the details of an envelope's JSON text read from `path`.
pub fn proposal_envelope_view(path: &str, json: &str) -> (v: ProposalEnvelopeView)
    ensures
        exists|now: Instant| is_envelope_report(v.report, path@, json_document(json@), now),
        details_match(v.details, json_document(json@), strings_view(v.report.warnings@)),
{
    let parsed = parse_json(json);
    let now = utc_now();
    let report = analyze_proposal_envelope_at(path, &parsed, now);
    let details = extract_proposal_envelope_details(&parsed, &report);
    ProposalEnvelopeView { report, details }
}

/// `proposal validate`: the report on the file's JSON text, and the command's
/// outcome, an error exactly when the envelope is invalid.
pub fn run_proposal_validate(path: &str, json: &str) -> (r: (ProposalEnvelopeValidationReport, Result<(), String>))
    ensures
        exists|now: Instant| is_envelope_report(r.0, path@, json_document(json@), now),
        r.0.valid ==> r.1 is Ok,
        !r.0.valid ==> crate::text::result_view(r.1) == Err::<(), Seq<char>>("無効な Trip Proposal Envelope ファイルです"@),
{
    let report = analyze_proposal_envelope_json(path, json);
    let outcome = if report.valid {
        Ok(())
    } else {
        Err(owned("無効な Trip Proposal Envelope ファイルです"))
    };
    (report, outcome)
}

/// The outcome of `proposal show` / `proposal inspect` for a view: an error
/// exactly when the file cannot be read as an envelope.
pub fn proposal_view_outcome(view: &ProposalEnvelopeView) -> (r: Result<(), String>)
    ensures
        r is Err <==> exists|i: int|
            0 <= i < view.report.errors@.len() && is_not_envelope_error(#[trigger] view.report.errors@[i]@),
        r is Err ==> crate::text::result_view(r) == Err::<(), Seq<char>>("Trip Proposal Envelope として読めないファイルです"@),
{
    if is_not_proposal_envelope_file(&view.report) {
        Err(owned("Trip Proposal Envelope として読めないファイルです"))
    } else {
        Ok(())
    }
}

/// `proposal show`: the view to print and the command's outcome.
pub fn run_proposal_show(path: &str, json: &str) -> (r: (ProposalEnvelopeView, Result<(), String>))
    ensures
        exists|now: Instant| is_envelope_report(r.0.report, path@, json_document(json@), now),
        details_match(r.0.details, json_document(json@), strings_view(r.0.report.warnings@)),
        r.1 is Err <==> exists|i: int|
            0 <= i < r.0.report.errors@.len() && is_not_envelope_error(#[trigger] r.0.report.errors@[i]@),
        r.1 is Err ==> crate::text::result_view(r.1) == Err::<(), Seq<char>>("Trip Proposal Envelope として読めないファイルです"@),
{
    let view = proposal_envelope_view(path, json);
    let outcome = proposal_view_outcome(&view);
    (view, outcome)
}

/// `proposal inspect`: the same view and outcome as `proposal show`; the
/// command prints more of the view.
pub fn run_proposal_inspect(path: &str, json: &str) -> (r: (ProposalEnvelopeView, Result<(), String>))
    ensures
        exists|now: Instant| is_envelope_report(r.0.report, path@, json_document(json@), now),
        details_match(r.0.details, json_document(json@), strings_view(r.0.report.warnings@)),
        r.1 is Err <==> exists|i: int|
            0 <= i < r.0.report.errors@.len() && is_not_envelope_error(#[trigger] r.0.report.errors@[i]@),
        r.1 is Err ==> crate::text::result_view(r.1) == Err::<(), Seq<char>>("Trip Proposal Envelope として読めないファイルです"@),
{
    run_proposal_show(path, json)
}

} // verus!
