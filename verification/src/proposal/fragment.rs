//! Proposal Fragment files: structural validation, the body rules of each
//! intent, the summary and the warnings about metadata, hints and targets.
use vstd::prelude::*;

use crate::json::{
    as_array, as_object, contains_key, get_member, has_member, is_array, is_array_value, is_non_empty_array, is_null,
    is_object, is_object_value, json_document, json_object, member, non_empty_array, non_empty_string, non_empty_text,
    parse_json, string_array, string_array_of, JsonKind, JsonMembers, JsonValue,
};
use crate::proposal::envelope::text_or;
use crate::text::{line_if, opt_view, owned, push_line_if, push_str, push_string, str_eq, strings_view};
use crate::time::{
    datetime_of, instant_before, is_before, is_over_a_year_old, over_a_year_old, parse_datetime, utc_now, Instant,
};

verus! {

pub const FRAGMENT_VALIDATION_REPORT_SCHEMA_VERSION: i32 = 1;

#[derive(Debug, PartialEq, Eq)]
pub struct ProposalFragmentSummary {
    pub fragment_id: Option<String>,
    pub target_type: Option<String>,
    pub target_summary: Option<String>,
    pub intent: Option<String>,
    pub created_at: Option<String>,
    pub valid_until: Option<String>,
    pub source: Option<String>,
    pub provider: Option<String>,
    pub conflicts_count: usize,
    pub missing_fields_count: usize,
    pub assumptions_count: usize,
    pub warnings_count: usize,
}

#[derive(Debug, PartialEq, Eq)]
pub struct ProposalFragmentValidationReport {
    pub schema_version: i32,
    pub file: String,
    pub valid: bool,
    pub document_kind: String,
    pub summary: ProposalFragmentSummary,
    pub errors: Vec<String>,
    pub warnings: Vec<String>,
}

/// The summary's text fields (in declaration order) through their views, then its counts.
pub type FragmentSummaryView = (
    Seq<Option<Seq<char>>>,
    (nat, nat, nat, nat),
);

pub open spec fn fragment_summary_view(s: ProposalFragmentSummary) -> FragmentSummaryView {
    (
        seq![
            opt_view(s.fragment_id),
            opt_view(s.target_type),
            opt_view(s.target_summary),
            opt_view(s.intent),
            opt_view(s.created_at),
            opt_view(s.valid_until),
            opt_view(s.source),
            opt_view(s.provider),
        ],
        (s.conflicts_count as nat, s.missing_fields_count as nat, s.assumptions_count as nat, s.warnings_count as nat),
    )
}

pub open spec fn empty_fragment_texts() -> Seq<Option<Seq<char>>> {
    seq![None, None, None, None, None, None, None, None]
}

impl ProposalFragmentValidationReport {
    /// An invalid report for `file` with an empty summary and no messages.
    pub fn new(file: &str) -> (r: Self)
        ensures
            r.schema_version == FRAGMENT_VALIDATION_REPORT_SCHEMA_VERSION,
            r.file@ == file@,
            !r.valid,
            r.document_kind@ == "proposal_fragment"@,
            fragment_summary_view(r.summary) == (empty_fragment_texts(), (0nat, 0nat, 0nat, 0nat)),
            r.errors@.len() == 0,
            r.warnings@.len() == 0,
    {
        ProposalFragmentValidationReport {
            schema_version: FRAGMENT_VALIDATION_REPORT_SCHEMA_VERSION,
            file: owned(file),
            valid: false,
            document_kind: owned("proposal_fragment"),
            summary: ProposalFragmentSummary {
                fragment_id: None,
                target_type: None,
                target_summary: None,
                intent: None,
                created_at: None,
                valid_until: None,
                source: None,
                provider: None,
                conflicts_count: 0,
                missing_fields_count: 0,
                assumptions_count: 0,
                warnings_count: 0,
            },
            errors: Vec::new(),
            warnings: Vec::new(),
        }
    }
}

// ---------------------------------------------------------------------------
// What the analysis finds, stated over the document.

pub open spec fn object_member(m: Seq<(String, JsonValue)>, key: Seq<char>) -> Option<Seq<(String, JsonValue)>> {
    match member(m, key) {
        Some(v) => as_object(v),
        None => None,
    }
}

pub open spec fn fragment_metadata(m: Seq<(String, JsonValue)>) -> Seq<(String, JsonValue)> {
    match object_member(m, "metadata"@) {
        Some(o) => o,
        None => Seq::empty(),
    }
}

pub open spec fn fragment_export_like_errors(m: Seq<(String, JsonValue)>) -> Seq<Seq<char>> {
    line_if(
        has_member(m, "schema_version"@),
        "schema_version が含まれています — これは schema v8 Trip export の可能性が高く、Proposal Fragment ではありません（trip validate-export を使用してください）"@,
    ) + line_if(
        is_object(member(m, "trip"@)),
        "トップレベル trip object が含まれています — schema v8 Trip export の可能性が高く、Proposal Fragment ではありません（trip validate-export を使用してください）"@,
    ) + line_if(
        has_member(m, "itinerary_items"@),
        "itinerary_items が含まれています — schema v8 Trip export（legacy flat）の可能性が高く、Proposal Fragment ではありません"@,
    ) + line_if(
        is_array(member(m, "days"@)) && !has_member(m, "fragment"@),
        "days 配列のみの export 形式です — schema v8 Trip export の可能性が高く、Proposal Fragment ではありません"@,
    )
}

pub open spec fn envelope_like_errors(m: Seq<(String, JsonValue)>) -> Seq<Seq<char>> {
    line_if(
        has_member(m, "proposal"@),
        "proposal object が含まれています — Trip Proposal Envelope の可能性が高く、Proposal Fragment ではありません（proposal validate を使用してください）"@,
    ) + line_if(
        has_member(m, "materialize_hints"@) && !has_member(m, "fragment"@),
        "materialize_hints が含まれています — Trip Proposal Envelope の可能性が高く、Proposal Fragment ではありません（proposal validate を使用してください）"@,
    ) + line_if(
        match object_member(m, "proposal"@) {
            Some(p) => has_member(p, "date_policy"@) || has_member(p, "destination"@),
            None => false,
        },
        "Trip Proposal Envelope の特徴（date_policy / destination 等）が含まれています — Proposal Fragment ではありません（proposal validate を使用してください）"@,
    )
}

pub open spec fn is_known_target_type(t: Seq<char>) -> bool {
    t == "trip"@ || t == "day"@ || t == "itinerary"@ || t == "unresolved"@
}

pub open spec fn is_known_intent(i: Seq<char>) -> bool {
    ||| i == "add"@
    ||| i == "add_note"@
    ||| i == "add_expense"@
    ||| i == "add_estimate"@
    ||| i == "update_estimate"@
    ||| i == "add_reservation"@
    ||| i == "update_itinerary"@
    ||| i == "delete_itinerary"@
    ||| i == "delete_estimate"@
    ||| i == "reorder_itinerary"@
    ||| i == "move_itinerary"@
    ||| i == "enrich"@
    ||| i == "replace_candidate"@
    ||| i == "reorder_hint"@
    ||| i == "warning"@
}

/// The keys an `update_estimate` candidate may change or check.
pub open spec fn update_estimate_field_key(k: Seq<char>) -> bool {
    ||| k == "amount"@
    ||| k == "currency"@
    ||| k == "title"@
    ||| k == "note"@
    ||| k == "sort_order"@
    ||| k == "clear_title"@
    ||| k == "clear_note"@
    ||| k == "expected_amount"@
    ||| k == "expected_currency"@
    ||| k == "expected_title"@
    ||| k == "expected_note"@
    ||| k == "expected_sort_order"@
}

/// The keys an `update_itinerary` candidate may change.
pub open spec fn update_itinerary_field_key(k: Seq<char>) -> bool {
    ||| k == "title"@
    ||| k == "note"@
    ||| k == "location"@
    ||| k == "category"@
    ||| k == "start_time"@
    ||| k == "time"@
    ||| k == "duration_minutes"@
    ||| k == "duration"@
    ||| k == "travel_minutes"@
    ||| k == "travel_time_minutes"@
    ||| k == "travel"@
}

pub open spec fn target_field_errors(t: Seq<(String, JsonValue)>) -> Seq<Seq<char>> {
    match non_empty_text(member(t, "target_type"@)) {
        None => seq!["target.target_type が必要です"@],
        Some(kind) => line_if(
            !is_known_target_type(kind),
            "target.target_type が不明です: "@ + kind + "（trip / day / itinerary / unresolved のいずれか）"@,
        ),
    }
}

/// The body text of an `add_note` fragment: the candidate's `body`, or a
/// candidate given as text, else the fragment's notes.
pub open spec fn add_note_body(f: Seq<(String, JsonValue)>) -> Option<Seq<char>> {
    let from_candidate = match member(f, "candidate_content"@) {
        Some(c) => match as_object(c) {
            Some(o) => non_empty_text(member(o, "body"@)),
            None => non_empty_text(Some(c)),
        },
        None => None,
    };
    match from_candidate {
        Some(b) => Some(b),
        None => non_empty_text(member(f, "notes"@)),
    }
}

/// An expense or estimate candidate lacks an amount or a currency.
pub open spec fn amount_body_nearly_empty(f: Seq<(String, JsonValue)>) -> bool {
    match object_member(f, "candidate_content"@) {
        None => true,
        Some(o) => !(match member(o, "amount"@) {
            Some(a) => !is_null(a),
            None => false,
        } && non_empty_text(member(o, "currency"@)) is Some),
    }
}

pub open spec fn has_estimate_field_key(o: Seq<(String, JsonValue)>) -> bool {
    exists|i: int| 0 <= i < o.len() && update_estimate_field_key(#[trigger] o[i].0@)
}

pub open spec fn has_itinerary_field_key(o: Seq<(String, JsonValue)>) -> bool {
    exists|i: int| 0 <= i < o.len() && update_itinerary_field_key(#[trigger] o[i].0@)
}

pub open spec fn update_estimate_body_nearly_empty(f: Seq<(String, JsonValue)>) -> bool {
    match object_member(f, "candidate_content"@) {
        None => true,
        Some(o) => o.len() == 0 || (!has_member(o, "estimate_id"@) && !has_estimate_field_key(o)),
    }
}

pub open spec fn update_itinerary_body_nearly_empty(f: Seq<(String, JsonValue)>) -> bool {
    match object_member(f, "candidate_content"@) {
        None => true,
        Some(o) => !has_itinerary_field_key(o),
    }
}

pub open spec fn first_text(m: Seq<(String, JsonValue)>, a: Seq<char>, b: Seq<char>) -> Option<Seq<char>> {
    match non_empty_text(member(m, a)) {
        Some(x) => Some(x),
        None => non_empty_text(member(m, b)),
    }
}

pub open spec fn reservation_body_nearly_empty(f: Seq<(String, JsonValue)>) -> bool {
    match object_member(f, "candidate_content"@) {
        None => true,
        Some(o) => !(first_text(o, "reservation_type"@, "type"@) is Some && first_text(
            o,
            "provider"@,
            "provider_name"@,
        ) is Some),
    }
}

/// Whether the fragment's body carries too little for its intent.
pub open spec fn fragment_body_nearly_empty(f: Seq<(String, JsonValue)>, intent: Option<Seq<char>>) -> bool {
    if intent == Some("add_note"@) {
        add_note_body(f) is None
    } else if intent == Some("add_expense"@) || intent == Some("add_estimate"@) {
        amount_body_nearly_empty(f)
    } else if intent == Some("update_estimate"@) {
        update_estimate_body_nearly_empty(f)
    } else if intent == Some("add_reservation"@) {
        reservation_body_nearly_empty(f)
    } else if intent == Some("update_itinerary"@) {
        update_itinerary_body_nearly_empty(f)
    } else if intent == Some("delete_itinerary"@) {
        false
    } else {
        let has_notes = non_empty_text(member(f, "notes"@)) is Some;
        let candidate = member(f, "candidate_content"@);
        let has_candidate = match object_member(f, "candidate_content"@) {
            Some(o) => o.len() > 0,
            None => false,
        } || non_empty_text(candidate) is Some;
        !has_notes && !has_candidate
    }
}

pub open spec fn fragment_field_errors(f: Seq<(String, JsonValue)>) -> Seq<Seq<char>> {
    let intent = non_empty_text(member(f, "intent"@));
    (match intent {
        None => seq!["fragment.intent が必要です"@],
        Some(value) => line_if(
            !is_known_intent(value),
            "fragment.intent が想定範囲外です: "@ + value
                + "（add / add_note / add_expense / add_estimate / update_estimate / add_reservation / update_itinerary / delete_itinerary / reorder_itinerary / move_itinerary / enrich / replace_candidate / reorder_hint / warning のいずれか）"@,
        ),
    }) + line_if(
        fragment_body_nearly_empty(f, intent),
        "fragment body が空に近いです（candidate_content または notes が必要）"@,
    )
}

/// `day=` / `itinerary=` references are quoted as JSON text.
pub open spec fn target_summary_parts(t: Seq<(String, JsonValue)>) -> Seq<Seq<char>> {
    (match non_empty_text(member(t, "trip_reference"@)) {
        Some(r) => seq!["trip="@ + r],
        None => Seq::empty(),
    }) + (match member(t, "day_reference"@) {
        Some(v) => seq!["day="@ + v.rendered@],
        None => Seq::empty(),
    }) + (match member(t, "itinerary_reference"@) {
        Some(v) => seq!["itinerary="@ + v.rendered@],
        None => Seq::empty(),
    })
}

/// The parts joined with `", "`.
pub open spec fn join_comma(parts: Seq<Seq<char>>) -> Seq<char>
    decreases parts.len(),
{
    if parts.len() == 0 {
        Seq::empty()
    } else if parts.len() == 1 {
        parts[0]
    } else {
        join_comma(parts.drop_last()) + ", "@ + parts.last()
    }
}

pub open spec fn target_summary(t: Seq<(String, JsonValue)>) -> Option<Seq<char>> {
    if target_summary_parts(t).len() == 0 {
        non_empty_text(member(t, "summary"@))
    } else {
        Some(join_comma(target_summary_parts(t)))
    }
}

pub open spec fn hint_count(hints: Option<Seq<(String, JsonValue)>>, key: Seq<char>) -> nat {
    match hints {
        Some(h) => string_array_of(member(h, key)).len(),
        None => 0,
    }
}

pub open spec fn fragment_summary_of(
    t: Seq<(String, JsonValue)>,
    f: Seq<(String, JsonValue)>,
    meta: Seq<(String, JsonValue)>,
    hints: Option<Seq<(String, JsonValue)>>,
    warnings_count: nat,
) -> FragmentSummaryView {
    (
        seq![
            non_empty_text(member(meta, "fragment_id"@)),
            non_empty_text(member(t, "target_type"@)),
            target_summary(t),
            non_empty_text(member(f, "intent"@)),
            non_empty_text(member(meta, "created_at"@)),
            non_empty_text(member(meta, "valid_until"@)),
            non_empty_text(member(meta, "source"@)),
            non_empty_text(member(meta, "provider"@)),
        ],
        (
            hint_count(hints, "conflicts"@),
            hint_count(hints, "missing_fields"@),
            hint_count(hints, "assumptions"@),
            warnings_count,
        ),
    )
}

pub open spec fn fragment_validity_warnings(
    created: Option<Seq<char>>,
    until: Option<Seq<char>>,
    now: Instant,
) -> Seq<Seq<char>> {
    match until {
        Some(u) => match datetime_of(u) {
            Some(t) => line_if(instant_before(t, now), "metadata.valid_until を過ぎています: "@ + u),
            None => seq!["metadata.valid_until の形式を解釈できません: "@ + u],
        },
        None => seq!["metadata.valid_until がありません"@] + match created {
            Some(c) => match datetime_of(c) {
                Some(t) => line_if(
                    over_a_year_old(t, now),
                    "metadata.valid_until がなく、created_at から 1 年を超えています（提案が古い可能性）"@,
                ),
                None => Seq::empty(),
            },
            None => Seq::empty(),
        },
    }
}

pub open spec fn fragment_metadata_warnings(meta: Seq<(String, JsonValue)>, now: Instant) -> Seq<Seq<char>> {
    line_if(non_empty_text(member(meta, "created_at"@)) is None, "metadata.created_at がありません"@)
        + line_if(non_empty_text(member(meta, "source"@)) is None, "metadata.source がありません"@)
        + line_if(non_empty_text(member(meta, "provider"@)) is None, "metadata.provider がありません"@)
        + fragment_validity_warnings(
        non_empty_text(member(meta, "created_at"@)),
        non_empty_text(member(meta, "valid_until"@)),
        now,
    )
}

/// Some string element of the array is not empty.
pub open spec fn has_non_empty_string(v: Option<JsonValue>) -> bool {
    exists|i: int| 0 <= i < string_array_of(v).len() && #[trigger] string_array_of(v)[i].len() > 0
}

pub open spec fn adoption_hint_warnings(hints: Option<Seq<(String, JsonValue)>>) -> Seq<Seq<char>> {
    match hints {
        Some(h) => line_if(
            has_non_empty_string(member(h, "missing_fields"@)),
            "adoption_hints.missing_fields があります"@,
        ) + line_if(has_non_empty_string(member(h, "assumptions"@)), "adoption_hints.assumptions があります"@)
            + line_if(has_non_empty_string(member(h, "warnings"@)), "adoption_hints.warnings があります"@)
            + line_if(has_non_empty_string(member(h, "conflicts"@)), "adoption_hints.conflicts があります"@)
            + line_if(
            string_array_of(member(h, "required_decisions"@)).len() > 0,
            "adoption_hints.required_decisions があります"@,
        ),
        None => Seq::empty(),
    }
}

pub open spec fn target_warnings(t: Seq<(String, JsonValue)>) -> Seq<Seq<char>> {
    let tt = non_empty_text(member(t, "target_type"@));
    let has_trip = non_empty_text(member(t, "trip_reference"@)) is Some || has_member(t, "trip_id"@);
    let has_day = has_member(t, "day_reference"@) || has_member(t, "day_id"@);
    line_if(tt == Some("unresolved"@), "target が unresolved です"@) + line_if(
        non_empty_array(member(t, "unresolved_target_hints"@)),
        "target.unresolved_target_hints があります"@,
    ) + line_if(
        (tt == Some("day"@) || tt == Some("itinerary"@)) && !has_trip,
        "target reference が曖昧です（trip 参照がありません）"@,
    ) + line_if(
        tt == Some("itinerary"@) && !has_day && !has_trip,
        "target reference が曖昧です（itinerary 参照の文脈が不足）"@,
    )
}

/// The blocking errors found in a parsed fragment document (or in its parse error).
pub open spec fn fragment_errors(parsed: Result<JsonValue, Seq<char>>) -> Seq<Seq<char>> {
    match parsed {
        Err(e) => seq!["JSON の parse に失敗しました: "@ + e],
        Ok(root) => match as_object(root) {
            None => seq!["トップレベルが JSON object ではありません"@],
            Some(m) => fragment_export_like_errors(m) + envelope_like_errors(m) + match member(m, "target"@) {
                None => seq!["Proposal Fragment には target object が必要です"@],
                Some(tv) => match as_object(tv) {
                    None => seq!["target は object である必要があります"@],
                    Some(t) => match member(m, "fragment"@) {
                        None => seq!["Proposal Fragment には fragment object が必要です"@],
                        Some(fv) => match as_object(fv) {
                            None => seq!["fragment は object である必要があります"@],
                            Some(f) => target_field_errors(t) + fragment_field_errors(f),
                        },
                    },
                },
            },
        },
    }
}

/// Target and fragment objects, when both are present.
pub open spec fn target_and_fragment(m: Seq<(String, JsonValue)>) -> Option<
    (Seq<(String, JsonValue)>, Seq<(String, JsonValue)>),
> {
    match (object_member(m, "target"@), object_member(m, "fragment"@)) {
        (Some(t), Some(f)) => Some((t, f)),
        _ => None,
    }
}

pub open spec fn fragment_warnings(parsed: Result<JsonValue, Seq<char>>, now: Instant) -> Seq<Seq<char>> {
    match parsed {
        Ok(root) => match as_object(root) {
            Some(m) => match target_and_fragment(m) {
                Some((t, f)) => fragment_metadata_warnings(fragment_metadata(m), now) + adoption_hint_warnings(
                    object_member(m, "adoption_hints"@),
                ) + target_warnings(t),
                None => Seq::empty(),
            },
            None => Seq::empty(),
        },
        Err(_) => Seq::empty(),
    }
}

pub open spec fn fragment_summary(parsed: Result<JsonValue, Seq<char>>, now: Instant) -> FragmentSummaryView {
    match parsed {
        Ok(root) => match as_object(root) {
            Some(m) => match target_and_fragment(m) {
                Some((t, f)) => fragment_summary_of(
                    t,
                    f,
                    fragment_metadata(m),
                    object_member(m, "adoption_hints"@),
                    fragment_warnings(parsed, now).len(),
                ),
                None => (empty_fragment_texts(), (0nat, 0nat, 0nat, 0nat)),
            },
            None => (empty_fragment_texts(), (0nat, 0nat, 0nat, 0nat)),
        },
        Err(_) => (empty_fragment_texts(), (0nat, 0nat, 0nat, 0nat)),
    }
}

/// `r` is the report on the fragment document `parsed`, read from `path`, at instant `now`.
pub open spec fn is_fragment_report(
    r: ProposalFragmentValidationReport,
    path: Seq<char>,
    parsed: Result<JsonValue, Seq<char>>,
    now: Instant,
) -> bool {
    &&& r.schema_version == FRAGMENT_VALIDATION_REPORT_SCHEMA_VERSION
    &&& r.file@ == path
    &&& r.document_kind@ == "proposal_fragment"@
    &&& strings_view(r.errors@) == fragment_errors(parsed)
    &&& strings_view(r.warnings@) == fragment_warnings(parsed, now)
    &&& fragment_summary_view(r.summary) == fragment_summary(parsed, now)
    &&& r.valid == (fragment_errors(parsed).len() == 0)
}

// ---------------------------------------------------------------------------
// The analysis.

/// Whether `key` is one that an `update_estimate` candidate may change or check.
pub fn is_update_estimate_field_key(key: &str) -> (r: bool)
    ensures
        r == update_estimate_field_key(key@),
{
    str_eq(key, "amount") || str_eq(key, "currency") || str_eq(key, "title") || str_eq(key, "note") || str_eq(
        key,
        "sort_order",
    ) || str_eq(key, "clear_title") || str_eq(key, "clear_note") || str_eq(key, "expected_amount") || str_eq(
        key,
        "expected_currency",
    ) || str_eq(key, "expected_title") || str_eq(key, "expected_note") || str_eq(key, "expected_sort_order")
}

/// Whether `key` is one that an `update_itinerary` candidate may change.
pub fn is_update_itinerary_field_key(key: &str) -> (r: bool)
    ensures
        r == update_itinerary_field_key(key@),
{
    str_eq(key, "title") || str_eq(key, "note") || str_eq(key, "location") || str_eq(key, "category") || str_eq(
        key,
        "start_time",
    ) || str_eq(key, "time") || str_eq(key, "duration_minutes") || str_eq(key, "duration") || str_eq(
        key,
        "travel_minutes",
    ) || str_eq(key, "travel_time_minutes") || str_eq(key, "travel")
}

fn collect_trip_export_like_errors(root: &JsonMembers, errors: &mut Vec<String>)
    ensures
        strings_view(final(errors)@) == strings_view(old(errors)@) + fragment_export_like_errors(root@),
{
    let ghost before = strings_view(errors@);
    push_line_if(
        errors,
        contains_key(root, "schema_version"),
        "schema_version が含まれています — これは schema v8 Trip export の可能性が高く、Proposal Fragment ではありません（trip validate-export を使用してください）",
    );
    push_line_if(
        errors,
        is_object_value(get_member(root, "trip")),
        "トップレベル trip object が含まれています — schema v8 Trip export の可能性が高く、Proposal Fragment ではありません（trip validate-export を使用してください）",
    );
    push_line_if(
        errors,
        contains_key(root, "itinerary_items"),
        "itinerary_items が含まれています — schema v8 Trip export（legacy flat）の可能性が高く、Proposal Fragment ではありません",
    );
    let days_only = is_array_value(get_member(root, "days")) && !contains_key(root, "fragment");
    push_line_if(
        errors,
        days_only,
        "days 配列のみの export 形式です — schema v8 Trip export の可能性が高く、Proposal Fragment ではありません",
    );
    assert(strings_view(errors@) =~= before + fragment_export_like_errors(root@));
}

fn collect_envelope_like_errors(root: &JsonMembers, errors: &mut Vec<String>)
    ensures
        strings_view(final(errors)@) == strings_view(old(errors)@) + envelope_like_errors(root@),
{
    let ghost before = strings_view(errors@);
    push_line_if(
        errors,
        contains_key(root, "proposal"),
        "proposal object が含まれています — Trip Proposal Envelope の可能性が高く、Proposal Fragment ではありません（proposal validate を使用してください）",
    );
    push_line_if(
        errors,
        contains_key(root, "materialize_hints") && !contains_key(root, "fragment"),
        "materialize_hints が含まれています — Trip Proposal Envelope の可能性が高く、Proposal Fragment ではありません（proposal validate を使用してください）",
    );
    let envelope_traits = match get_member(root, "proposal") {
        Some(v) => match json_object(v) {
            Some(p) => contains_key(p, "date_policy") || contains_key(p, "destination"),
            None => false,
        },
        None => false,
    };
    push_line_if(
        errors,
        envelope_traits,
        "Trip Proposal Envelope の特徴（date_policy / destination 等）が含まれています — Proposal Fragment ではありません（proposal validate を使用してください）",
    );
    assert(strings_view(errors@) =~= before + envelope_like_errors(root@));
}

fn is_known_target(kind: &str) -> (r: bool)
    ensures
        r == is_known_target_type(kind@),
{
    str_eq(kind, "trip") || str_eq(kind, "day") || str_eq(kind, "itinerary") || str_eq(kind, "unresolved")
}

fn is_known_intent_text(v: &str) -> (r: bool)
    ensures
        r == is_known_intent(v@),
{
    str_eq(v, "add") || str_eq(v, "add_note") || str_eq(v, "add_expense") || str_eq(v, "add_estimate") || str_eq(
        v,
        "update_estimate",
    ) || str_eq(v, "add_reservation") || str_eq(v, "update_itinerary") || str_eq(v, "delete_itinerary") || str_eq(
        v,
        "delete_estimate",
    ) || str_eq(v, "reorder_itinerary") || str_eq(v, "move_itinerary") || str_eq(v, "enrich") || str_eq(v, "replace_candidate") || str_eq(
        v,
        "reorder_hint",
    ) || str_eq(v, "warning")
}

fn validate_target_fields(t: &JsonMembers, errors: &mut Vec<String>)
    ensures
        strings_view(final(errors)@) == strings_view(old(errors)@) + target_field_errors(t@),
{
    let ghost before = strings_view(errors@);
    match non_empty_string(get_member(t, "target_type")) {
        None => push_string(errors, owned("target.target_type が必要です")),
        Some(kind) => {
            if !is_known_target(kind.as_str()) {
                let mut msg = owned("target.target_type が不明です: ");
                push_str(&mut msg, kind.as_str());
                push_str(&mut msg, "（trip / day / itinerary / unresolved のいずれか）");
                push_string(errors, msg);
            }
        },
    }
    assert(strings_view(errors@) =~= before + target_field_errors(t@));
}

fn candidate_object(f: &JsonMembers) -> (r: Option<&JsonMembers>)
    ensures
        match r {
            Some(o) => object_member(f@, "candidate_content"@) == Some(o@),
            None => object_member(f@, "candidate_content"@) is None,
        },
{
    match get_member(f, "candidate_content") {
        Some(v) => json_object(v),
        None => None,
    }
}

fn add_note_body_from_fragment(f: &JsonMembers) -> (r: Option<String>)
    ensures
        opt_view(r) == add_note_body(f@),
{
    match get_member(f, "candidate_content") {
        Some(c) => match json_object(c) {
            Some(o) => match non_empty_string(get_member(o, "body")) {
                Some(b) => return Some(b),
                None => {},
            },
            None => match non_empty_string(Some(c)) {
                Some(t) => return Some(t),
                None => {},
            },
        },
        None => {},
    }
    non_empty_string(get_member(f, "notes"))
}

fn amount_candidate_nearly_empty(f: &JsonMembers) -> (r: bool)
    ensures
        r == amount_body_nearly_empty(f@),
{
    match candidate_object(f) {
        None => true,
        Some(o) => {
            let has_amount = match get_member(o, "amount") {
                Some(a) => match &a.kind {
                    JsonKind::Null => false,
                    _ => true,
                },
                None => false,
            };
            let has_currency = non_empty_string(get_member(o, "currency")).is_some();
            !(has_amount && has_currency)
        },
    }
}

fn has_field_key(o: &JsonMembers, estimate_keys: bool) -> (r: bool)
    ensures
        estimate_keys ==> r == has_estimate_field_key(o@),
        !estimate_keys ==> r == has_itinerary_field_key(o@),
{
    let mut i: usize = 0;
    while i < o.len()
        invariant
            i <= o@.len(),
            estimate_keys ==> forall|j: int| 0 <= j < i ==> !update_estimate_field_key(#[trigger] o@[j].0@),
            !estimate_keys ==> forall|j: int| 0 <= j < i ==> !update_itinerary_field_key(#[trigger] o@[j].0@),
        decreases o@.len() - i,
    {
        let key = o[i].0.as_str();
        let hit = if estimate_keys {
            is_update_estimate_field_key(key)
        } else {
            is_update_itinerary_field_key(key)
        };
        if hit {
            assert(estimate_keys ==> update_estimate_field_key(o@[i as int].0@));
            assert(!estimate_keys ==> update_itinerary_field_key(o@[i as int].0@));
            return true;
        }
        i = i + 1;
    }
    false
}

fn update_estimate_candidate_nearly_empty(f: &JsonMembers) -> (r: bool)
    ensures
        r == update_estimate_body_nearly_empty(f@),
{
    match candidate_object(f) {
        None => true,
        Some(o) => {
            if o.len() == 0 {
                return true;
            }
            !contains_key(o, "estimate_id") && !has_field_key(o, true)
        },
    }
}

fn update_itinerary_candidate_nearly_empty(f: &JsonMembers) -> (r: bool)
    ensures
        r == update_itinerary_body_nearly_empty(f@),
{
    match candidate_object(f) {
        None => true,
        Some(o) => !has_field_key(o, false),
    }
}

fn first_non_empty(m: &JsonMembers, a: &str, b: &str) -> (r: Option<String>)
    ensures
        opt_view(r) == first_text(m@, a@, b@),
{
    match non_empty_string(get_member(m, a)) {
        Some(x) => Some(x),
        None => non_empty_string(get_member(m, b)),
    }
}

fn reservation_candidate_nearly_empty(f: &JsonMembers) -> (r: bool)
    ensures
        r == reservation_body_nearly_empty(f@),
{
    match candidate_object(f) {
        None => true,
        Some(o) => !(first_non_empty(o, "reservation_type", "type").is_some() && first_non_empty(
            o,
            "provider",
            "provider_name",
        ).is_some()),
    }
}

fn is_intent(intent: &Option<String>, name: &str) -> (r: bool)
    ensures
        r == (opt_view(*intent) == Some(name@)),
{
    match intent {
        Some(i) => str_eq(i.as_str(), name),
        None => false,
    }
}

fn body_nearly_empty_for(f: &JsonMembers, intent: &Option<String>) -> (r: bool)
    ensures
        r == fragment_body_nearly_empty(f@, opt_view(*intent)),
{
    if is_intent(intent, "add_note") {
        return add_note_body_from_fragment(f).is_none();
    }
    if is_intent(intent, "add_expense") || is_intent(intent, "add_estimate") {
        return amount_candidate_nearly_empty(f);
    }
    if is_intent(intent, "update_estimate") {
        return update_estimate_candidate_nearly_empty(f);
    }
    if is_intent(intent, "add_reservation") {
        return reservation_candidate_nearly_empty(f);
    }
    if is_intent(intent, "update_itinerary") {
        return update_itinerary_candidate_nearly_empty(f);
    }
    if is_intent(intent, "delete_itinerary") {
        return false;
    }
    let has_notes = non_empty_string(get_member(f, "notes")).is_some();
    let has_object = match candidate_object(f) {
        Some(o) => o.len() > 0,
        None => false,
    };
    let has_candidate = has_object || non_empty_string(get_member(f, "candidate_content")).is_some();
    !has_notes && !has_candidate
}

fn validate_fragment_fields(f: &JsonMembers, errors: &mut Vec<String>)
    ensures
        strings_view(final(errors)@) == strings_view(old(errors)@) + fragment_field_errors(f@),
{
    let ghost before = strings_view(errors@);
    let intent = non_empty_string(get_member(f, "intent"));
    match &intent {
        None => push_string(errors, owned("fragment.intent が必要です")),
        Some(value) => {
            if !is_known_intent_text(value.as_str()) {
                let mut msg = owned("fragment.intent が想定範囲外です: ");
                push_str(&mut msg, value.as_str());
                push_str(
                    &mut msg,
                    "（add / add_note / add_expense / add_estimate / update_estimate / add_reservation / update_itinerary / delete_itinerary / reorder_itinerary / move_itinerary / enrich / replace_candidate / reorder_hint / warning のいずれか）",
                );
                push_string(errors, msg);
            }
        },
    }
    let ghost mid = strings_view(errors@);
    push_line_if(
        errors,
        body_nearly_empty_for(f, &intent),
        "fragment body が空に近いです（candidate_content または notes が必要）",
    );
    assert(strings_view(errors@) =~= before + fragment_field_errors(f@));
}

/// Joins the parts with `", "`.
fn join_with_comma(parts: &Vec<String>) -> (r: String)
    ensures
        r@ == join_comma(strings_view(parts@)),
{
    let mut out = String::new();
    let mut i: usize = 0;
    while i < parts.len()
        invariant
            i <= parts@.len(),
            out@ == join_comma(strings_view(parts@).subrange(0, i as int)),
        decreases parts@.len() - i,
    {
        let ghost prefix = strings_view(parts@).subrange(0, i + 1);
        assert(prefix.drop_last() =~= strings_view(parts@).subrange(0, i as int));
        if i > 0 {
            push_str(&mut out, ", ");
        }
        push_str(&mut out, parts[i].as_str());
        i = i + 1;
    }
    assert(strings_view(parts@).subrange(0, parts@.len() as int) =~= strings_view(parts@));
    out
}

fn target_summary_string(t: &JsonMembers) -> (r: Option<String>)
    ensures
        opt_view(r) == target_summary(t@),
{
    let mut parts: Vec<String> = Vec::new();
    assert(strings_view(parts@) =~= Seq::empty());
    match non_empty_string(get_member(t, "trip_reference")) {
        Some(trip_ref) => {
            let mut p = owned("trip=");
            push_str(&mut p, trip_ref.as_str());
            push_string(&mut parts, p);
        },
        None => {},
    }
    match get_member(t, "day_reference") {
        Some(v) => {
            let mut p = owned("day=");
            push_str(&mut p, v.rendered.as_str());
            push_string(&mut parts, p);
        },
        None => {},
    }
    match get_member(t, "itinerary_reference") {
        Some(v) => {
            let mut p = owned("itinerary=");
            push_str(&mut p, v.rendered.as_str());
            push_string(&mut parts, p);
        },
        None => {},
    }
    assert(strings_view(parts@) =~= target_summary_parts(t@));
    if parts.len() == 0 {
        non_empty_string(get_member(t, "summary"))
    } else {
        Some(join_with_comma(&parts))
    }
}

fn hint_array_len(hints: Option<&JsonMembers>, key: &str) -> (r: usize)
    ensures
        r == hint_count(
            match hints {
                Some(h) => Some(h@),
                None => None,
            },
            key@,
        ),
{
    match hints {
        Some(h) => string_array(get_member(h, key)).len(),
        None => 0,
    }
}

fn collect_validity_warnings(
    created: &Option<String>,
    until: &Option<String>,
    now: Instant,
    warnings: &mut Vec<String>,
)
    ensures
        strings_view(final(warnings)@) == strings_view(old(warnings)@) + fragment_validity_warnings(
            opt_view(*created),
            opt_view(*until),
            now,
        ),
{
    let ghost before = strings_view(warnings@);
    match until {
        Some(u) => match parse_datetime(u.as_str()) {
            Some(t) => {
                if is_before(t, now) {
                    let mut msg = owned("metadata.valid_until を過ぎています: ");
                    push_str(&mut msg, u.as_str());
                    push_string(warnings, msg);
                }
            },
            None => {
                let mut msg = owned("metadata.valid_until の形式を解釈できません: ");
                push_str(&mut msg, u.as_str());
                push_string(warnings, msg);
            },
        },
        None => {
            push_string(warnings, owned("metadata.valid_until がありません"));
            match created {
                Some(c) => match parse_datetime(c.as_str()) {
                    Some(t) => {
                        push_line_if(
                            warnings,
                            is_over_a_year_old(t, now),
                            "metadata.valid_until がなく、created_at から 1 年を超えています（提案が古い可能性）",
                        );
                    },
                    None => {},
                },
                None => {},
            }
        },
    }
    assert(strings_view(warnings@) =~= before + fragment_validity_warnings(
        opt_view(*created),
        opt_view(*until),
        now,
    ));
}

fn collect_fragment_metadata_warnings(meta: &JsonMembers, now: Instant, warnings: &mut Vec<String>)
    ensures
        strings_view(final(warnings)@) == strings_view(old(warnings)@) + fragment_metadata_warnings(meta@, now),
{
    let ghost before = strings_view(warnings@);
    let created_at = non_empty_string(get_member(meta, "created_at"));
    let valid_until = non_empty_string(get_member(meta, "valid_until"));
    push_line_if(warnings, created_at.is_none(), "metadata.created_at がありません");
    push_line_if(
        warnings,
        non_empty_string(get_member(meta, "source")).is_none(),
        "metadata.source がありません",
    );
    push_line_if(
        warnings,
        non_empty_string(get_member(meta, "provider")).is_none(),
        "metadata.provider がありません",
    );
    collect_validity_warnings(&created_at, &valid_until, now, warnings);
    assert(strings_view(warnings@) =~= before + fragment_metadata_warnings(meta@, now));
}

fn any_non_empty_string(v: Option<&JsonValue>) -> (r: bool)
    ensures
        r == has_non_empty_string(crate::json::opt_ref_view(v)),
{
    let items = string_array(v);
    let mut i: usize = 0;
    while i < items.len()
        invariant
            i <= items@.len(),
            strings_view(items@) == string_array_of(crate::json::opt_ref_view(v)),
            forall|j: int| 0 <= j < i ==> #[trigger] strings_view(items@)[j].len() == 0,
        decreases items@.len() - i,
    {
        if items[i].as_str().unicode_len() > 0 {
            assert(strings_view(items@)[i as int].len() > 0);
            return true;
        }
        assert(strings_view(items@)[i as int].len() == 0);
        i = i + 1;
    }
    false
}

fn collect_adoption_hint_warnings(hints: Option<&JsonMembers>, warnings: &mut Vec<String>)
    ensures
        strings_view(final(warnings)@) == strings_view(old(warnings)@) + adoption_hint_warnings(
            match hints {
                Some(h) => Some(h@),
                None => None,
            },
        ),
{
    let ghost before = strings_view(warnings@);
    match hints {
        Some(h) => {
            push_line_if(
                warnings,
                any_non_empty_string(get_member(h, "missing_fields")),
                "adoption_hints.missing_fields があります",
            );
            push_line_if(
                warnings,
                any_non_empty_string(get_member(h, "assumptions")),
                "adoption_hints.assumptions があります",
            );
            push_line_if(
                warnings,
                any_non_empty_string(get_member(h, "warnings")),
                "adoption_hints.warnings があります",
            );
            push_line_if(
                warnings,
                any_non_empty_string(get_member(h, "conflicts")),
                "adoption_hints.conflicts があります",
            );
            push_line_if(
                warnings,
                string_array(get_member(h, "required_decisions")).len() > 0,
                "adoption_hints.required_decisions があります",
            );
            assert(strings_view(warnings@) =~= before + adoption_hint_warnings(Some(h@)));
        },
        None => {
            assert(strings_view(warnings@) =~= before + adoption_hint_warnings(None));
        },
    }
}

fn collect_target_warnings(t: &JsonMembers, warnings: &mut Vec<String>)
    ensures
        strings_view(final(warnings)@) == strings_view(old(warnings)@) + target_warnings(t@),
{
    let ghost before = strings_view(warnings@);
    let target_type = non_empty_string(get_member(t, "target_type"));
    push_line_if(warnings, is_intent(&target_type, "unresolved"), "target が unresolved です");
    push_line_if(
        warnings,
        is_non_empty_array(get_member(t, "unresolved_target_hints")),
        "target.unresolved_target_hints があります",
    );
    let has_trip = non_empty_string(get_member(t, "trip_reference")).is_some() || contains_key(t, "trip_id");
    let has_day = contains_key(t, "day_reference") || contains_key(t, "day_id");
    push_line_if(
        warnings,
        (is_intent(&target_type, "day") || is_intent(&target_type, "itinerary")) && !has_trip,
        "target reference が曖昧です（trip 参照がありません）",
    );
    push_line_if(
        warnings,
        is_intent(&target_type, "itinerary") && !has_day && !has_trip,
        "target reference が曖昧です（itinerary 参照の文脈が不足）",
    );
    assert(strings_view(warnings@) =~= before + target_warnings(t@));
}

/// The report on a parsed fragment document (or on its parse error) read
/// from `path`, with `now` the instant against which dates are judged.
pub fn analyze_proposal_fragment_at(path: &str, parsed: &Result<JsonValue, String>, now: Instant) -> (r:
    ProposalFragmentValidationReport)
    ensures
        is_fragment_report(r, path@, crate::text::result_view(*parsed), now),
{
    let ghost doc = crate::text::result_view(*parsed);
    let mut report = ProposalFragmentValidationReport::new(path);
    assert(strings_view(report.warnings@) =~= Seq::empty());
    let root = match parsed {
        Ok(v) => v,
        Err(e) => {
            let mut msg = owned("JSON の parse に失敗しました: ");
            push_str(&mut msg, e.as_str());
            push_string(&mut report.errors, msg);
            assert(strings_view(report.errors@) =~= fragment_errors(doc));
            return report;
        },
    };
    let root_obj = match json_object(root) {
        Some(m) => m,
        None => {
            push_string(&mut report.errors, owned("トップレベルが JSON object ではありません"));
            assert(strings_view(report.errors@) =~= fragment_errors(doc));
            return report;
        },
    };
    collect_trip_export_like_errors(root_obj, &mut report.errors);
    collect_envelope_like_errors(root_obj, &mut report.errors);
    let target = match get_member(root_obj, "target") {
        Some(v) => match json_object(v) {
            Some(t) => t,
            None => {
                push_string(&mut report.errors, owned("target は object である必要があります"));
                assert(strings_view(report.errors@) =~= fragment_errors(doc));
                report.valid = report.errors.len() == 0;
                return report;
            },
        },
        None => {
            push_string(&mut report.errors, owned("Proposal Fragment には target object が必要です"));
            assert(strings_view(report.errors@) =~= fragment_errors(doc));
            report.valid = report.errors.len() == 0;
            return report;
        },
    };
    let body = match get_member(root_obj, "fragment") {
        Some(v) => match json_object(v) {
            Some(f) => f,
            None => {
                push_string(&mut report.errors, owned("fragment は object である必要があります"));
                assert(strings_view(report.errors@) =~= fragment_errors(doc));
                report.valid = report.errors.len() == 0;
                return report;
            },
        },
        None => {
            push_string(&mut report.errors, owned("Proposal Fragment には fragment object が必要です"));
            assert(strings_view(report.errors@) =~= fragment_errors(doc));
            report.valid = report.errors.len() == 0;
            return report;
        },
    };
    let empty: JsonMembers = Vec::new();
    let metadata: &JsonMembers = match get_member(root_obj, "metadata") {
        Some(v) => match json_object(v) {
            Some(o) => o,
            None => &empty,
        },
        None => &empty,
    };
    assert(metadata@ =~= fragment_metadata(root_obj@));
    let hints: Option<&JsonMembers> = match get_member(root_obj, "adoption_hints") {
        Some(v) => json_object(v),
        None => None,
    };
    validate_target_fields(target, &mut report.errors);
    validate_fragment_fields(body, &mut report.errors);
    report.summary = ProposalFragmentSummary {
        fragment_id: non_empty_string(get_member(metadata, "fragment_id")),
        target_type: non_empty_string(get_member(target, "target_type")),
        target_summary: target_summary_string(target),
        intent: non_empty_string(get_member(body, "intent")),
        created_at: non_empty_string(get_member(metadata, "created_at")),
        valid_until: non_empty_string(get_member(metadata, "valid_until")),
        source: non_empty_string(get_member(metadata, "source")),
        provider: non_empty_string(get_member(metadata, "provider")),
        conflicts_count: hint_array_len(hints, "conflicts"),
        missing_fields_count: hint_array_len(hints, "missing_fields"),
        assumptions_count: hint_array_len(hints, "assumptions"),
        warnings_count: 0,
    };
    collect_fragment_metadata_warnings(metadata, now, &mut report.warnings);
    collect_adoption_hint_warnings(hints, &mut report.warnings);
    collect_target_warnings(target, &mut report.warnings);
    report.summary.warnings_count = report.warnings.len();
    assert(strings_view(report.errors@) =~= fragment_errors(doc));
    assert(strings_view(report.warnings@) =~= fragment_warnings(doc, now));
    report.valid = report.errors.len() == 0;
    report
}

/// Validates the JSON text of a Proposal Fragment read from `path` (no
/// database needed). Dates are judged against the current time.
pub fn analyze_proposal_fragment_json(path: &str, json: &str) -> (r: ProposalFragmentValidationReport)
    ensures
        exists|now: Instant| is_fragment_report(r, path@, json_document(json@), now),
        strings_view(r.errors@) == fragment_errors(json_document(json@)),
        r.valid == (fragment_errors(json_document(json@)).len() == 0),
{
    let parsed = parse_json(json);
    let now = utc_now();
    analyze_proposal_fragment_at(path, &parsed, now)
}

/// `fragment validate`: the report on the file's JSON text, and the command's
/// outcome, an error exactly when the fragment is invalid.
pub fn run_fragment_validate(path: &str, json: &str) -> (r: (ProposalFragmentValidationReport, Result<(), String>))
    ensures
        exists|now: Instant| is_fragment_report(r.0, path@, json_document(json@), now),
        r.0.valid ==> r.1 is Ok,
        !r.0.valid ==> crate::text::result_view(r.1) == Err::<(), Seq<char>>("無効な Proposal Fragment ファイルです"@),
{
    let report = analyze_proposal_fragment_json(path, json);
    let outcome = if report.valid {
        Ok(())
    } else {
        Err(owned("無効な Proposal Fragment ファイルです"))
    };
    (report, outcome)
}

} // verus!
