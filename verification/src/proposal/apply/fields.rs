//! Reading a fragment's candidate content into the fields of a change, with
//! the warnings about candidate keys that a change does not use.
use vstd::prelude::*;

use crate::json::{
    as_i64, as_object, get_member, has_member, is_null, json_object, member, non_empty_string, non_empty_text,
    JsonKind, JsonMembers, JsonValue,
};
use crate::models::{category_parse, parse_itinerary_category, ItineraryCategory};
use crate::money::{amount_result_view, currency_format_result, parse_amount_for_currency, parse_amount_result, validate_currency_code};
use crate::proposal::apply::{
    push_unique, ParsedAddEstimateFields, ParsedAddExpenseFields, ParsedAddNoteFields, UpdateFieldPatch,
};
use crate::proposal::fragment::{add_note_body, object_member};
use crate::text::{opt_view, owned, push_str, str_eq, strings_view};

verus! {

// ---------------------------------------------------------------------------
// Numbers.

/// An optional integer field that must not be negative.
pub open spec fn optional_non_negative(v: Option<JsonValue>, field: Seq<char>) -> Result<Option<i64>, Seq<char>> {
    match v {
        None => Ok(None),
        Some(x) => match as_i64(x) {
            None => Err(field + " は整数である必要があります"@),
            Some(n) => if n < 0 {
                Err(field + " は 0 以上である必要があります"@)
            } else {
                Ok(Some(n))
            },
        },
    }
}

pub fn parse_optional_non_negative_i64(value: Option<&JsonValue>, field: &str) -> (r: Result<Option<i64>, String>)
    ensures
        crate::text::result_view(r) == optional_non_negative(crate::json::opt_ref_view(value), field@),
{
    let v = match value {
        Some(v) => v,
        None => return Ok(None),
    };
    let n = match &v.kind {
        JsonKind::Number(Some(n)) => *n,
        _ => {
            let mut m = owned(field);
            push_str(&mut m, " は整数である必要があります");
            return Err(m);
        },
    };
    if n < 0 {
        let mut m = owned(field);
        push_str(&mut m, " は 0 以上である必要があります");
        return Err(m);
    }
    Ok(Some(n))
}

/// Two spellings of one field: they must agree when both are given.
pub open spec fn agreeing(a: Option<i64>, b: Option<i64>, conflict: Seq<char>) -> Result<Option<i64>, Seq<char>> {
    match (a, b) {
        (Some(l), Some(r)) => if l != r {
            Err(conflict)
        } else {
            Ok(Some(l))
        },
        (Some(v), None) => Ok(Some(v)),
        (None, Some(v)) => Ok(Some(v)),
        (None, None) => Ok(None),
    }
}

/// Two spellings of one number field, each checked, then required to agree.
pub open spec fn two_spellings(
    c: Seq<(String, JsonValue)>,
    a: Seq<char>,
    b: Seq<char>,
    conflict: Seq<char>,
) -> Result<Option<i64>, Seq<char>> {
    match optional_non_negative(member(c, a), a) {
        Err(e) => Err(e),
        Ok(x) => match optional_non_negative(member(c, b), b) {
            Err(e) => Err(e),
            Ok(y) => agreeing(x, y, conflict),
        },
    }
}

fn read_two_spellings(c: &JsonMembers, a: &str, b: &str, conflict: &str) -> (r: Result<Option<i64>, String>)
    ensures
        crate::text::result_view(r) == two_spellings(c@, a@, b@, conflict@),
{
    let x = match parse_optional_non_negative_i64(get_member(c, a), a) {
        Ok(x) => x,
        Err(e) => return Err(e),
    };
    let y = match parse_optional_non_negative_i64(get_member(c, b), b) {
        Ok(y) => y,
        Err(e) => return Err(e),
    };
    match (x, y) {
        (Some(l), Some(r)) => if l != r {
            Err(owned(conflict))
        } else {
            Ok(Some(l))
        },
        (Some(v), None) => Ok(Some(v)),
        (None, Some(v)) => Ok(Some(v)),
        (None, None) => Ok(None),
    }
}

/// `travel_minutes`, also spelled `travel_time_minutes`.
pub fn parse_travel_minutes_field(candidate: &JsonMembers) -> (r: Result<Option<i64>, String>)
    ensures
        crate::text::result_view(r) == two_spellings(
            candidate@,
            "travel_minutes"@,
            "travel_time_minutes"@,
            "travel_minutes と travel_time_minutes が矛盾しています"@,
        ),
{
    read_two_spellings(candidate, "travel_minutes", "travel_time_minutes", "travel_minutes と travel_time_minutes が矛盾しています")
}

/// `duration_minutes`, also spelled `duration`.
pub fn parse_update_duration_minutes_field(candidate: &JsonMembers) -> (r: Result<Option<i64>, String>)
    ensures
        crate::text::result_view(r) == two_spellings(
            candidate@,
            "duration_minutes"@,
            "duration"@,
            "duration_minutes と duration が矛盾しています"@,
        ),
{
    read_two_spellings(candidate, "duration_minutes", "duration", "duration_minutes と duration が矛盾しています")
}

/// The values given, in order.
pub open spec fn present(a: Option<i64>, b: Option<i64>, c: Option<i64>) -> Seq<i64> {
    (match a {
        Some(x) => seq![x],
        None => Seq::empty(),
    }) + (match b {
        Some(x) => seq![x],
        None => Seq::empty(),
    }) + (match c {
        Some(x) => seq![x],
        None => Seq::empty(),
    })
}

/// `travel_minutes`, also spelled `travel_time_minutes` or `travel`: all that are given must agree.
pub open spec fn update_travel_minutes(c: Seq<(String, JsonValue)>) -> Result<Option<i64>, Seq<char>> {
    match optional_non_negative(member(c, "travel_minutes"@), "travel_minutes"@) {
        Err(e) => Err(e),
        Ok(a) => match optional_non_negative(member(c, "travel_time_minutes"@), "travel_time_minutes"@) {
            Err(e) => Err(e),
            Ok(b) => match optional_non_negative(member(c, "travel"@), "travel"@) {
                Err(e) => Err(e),
                Ok(d) => {
                    let vals = present(a, b, d);
                    if vals.len() == 0 {
                        Ok(None)
                    } else if exists|i: int| 0 <= i < vals.len() && #[trigger] vals[i] != vals[0] {
                        Err("travel_minutes / travel_time_minutes / travel が矛盾しています"@)
                    } else {
                        Ok(Some(vals[0]))
                    }
                },
            },
        },
    }
}

pub fn parse_update_travel_minutes_field(candidate: &JsonMembers) -> (r: Result<Option<i64>, String>)
    ensures
        crate::text::result_view(r) == update_travel_minutes(candidate@),
{
    let a = match parse_optional_non_negative_i64(get_member(candidate, "travel_minutes"), "travel_minutes") {
        Ok(x) => x,
        Err(e) => return Err(e),
    };
    let b = match parse_optional_non_negative_i64(get_member(candidate, "travel_time_minutes"), "travel_time_minutes") {
        Ok(x) => x,
        Err(e) => return Err(e),
    };
    let d = match parse_optional_non_negative_i64(get_member(candidate, "travel"), "travel") {
        Ok(x) => x,
        Err(e) => return Err(e),
    };
    let mut values: Vec<i64> = Vec::new();
    match a {
        Some(x) => values.push(x),
        None => {},
    }
    match b {
        Some(x) => values.push(x),
        None => {},
    }
    match d {
        Some(x) => values.push(x),
        None => {},
    }
    assert(values@ =~= present(a, b, d));
    if values.len() == 0 {
        return Ok(None);
    }
    let first = values[0];
    let mut i: usize = 0;
    while i < values.len()
        invariant
            i <= values@.len(),
            values@.len() > 0,
            first == values@[0],
            values@ == present(a, b, d),
            optional_non_negative(member(candidate@, "travel_minutes"@), "travel_minutes"@) == Ok::<Option<i64>, Seq<char>>(a),
            optional_non_negative(member(candidate@, "travel_time_minutes"@), "travel_time_minutes"@) == Ok::<Option<i64>, Seq<char>>(b),
            optional_non_negative(member(candidate@, "travel"@), "travel"@) == Ok::<Option<i64>, Seq<char>>(d),
            forall|j: int| 0 <= j < i ==> values@[j] == first,
        decreases values@.len() - i,
    {
        if values[i] != first {
            assert(values@[i as int] != values@[0]);
            return Err(owned("travel_minutes / travel_time_minutes / travel が矛盾しています"));
        }
        i = i + 1;
    }
    Ok(Some(first))
}

// ---------------------------------------------------------------------------
// Text fields of an update.

/// A text field that an update names: null or empty clears it, other text sets it.
pub open spec fn optional_text_patch(c: Seq<(String, JsonValue)>, key: Seq<char>) -> Result<
    Option<Seq<char>>,
    Seq<char>,
> {
    match member(c, key) {
        None => Ok(None),
        Some(v) => match v.kind {
            JsonKind::Null => Ok(Some(Seq::empty())),
            JsonKind::Str(t) => Ok(Some(t@)),
            _ => Err("candidate_content."@ + key + " は文字列である必要があります"@),
        },
    }
}

pub open spec fn text_patch_view(r: Result<Option<UpdateFieldPatch<String>>, String>) -> Result<
    Option<Seq<char>>,
    Seq<char>,
> {
    match r {
        Ok(Some(p)) => Ok(Some(p.value@)),
        Ok(None) => Ok(None),
        Err(e) => Err(e@),
    }
}

pub fn patch_optional_string_field(candidate: &JsonMembers, key: &str) -> (r: Result<
    Option<UpdateFieldPatch<String>>,
    String,
>)
    ensures
        text_patch_view(r) == optional_text_patch(candidate@, key@),
{
    match get_member(candidate, key) {
        None => Ok(None),
        Some(v) => match &v.kind {
            JsonKind::Null => Ok(Some(UpdateFieldPatch { value: String::new() })),
            JsonKind::Str(t) => Ok(Some(UpdateFieldPatch { value: owned(t.as_str()) })),
            _ => {
                let mut m = owned("candidate_content.");
                push_str(&mut m, key);
                push_str(&mut m, " は文字列である必要があります");
                Err(m)
            },
        },
    }
}

/// A category that an update names: it must be one of the defined categories.
pub open spec fn category_patch(c: Seq<(String, JsonValue)>) -> Result<Option<ItineraryCategory>, Seq<char>> {
    if !has_member(c, "category"@) {
        Ok(None)
    } else {
        match non_empty_text(member(c, "category"@)) {
            None => Err("candidate_content.category が必要です"@),
            Some(t) => match category_parse(t) {
                Ok(cat) => Ok(Some(cat)),
                Err(e) => Err("candidate_content.category が不正です: "@ + e),
            },
        }
    }
}

pub fn patch_optional_category_field(candidate: &JsonMembers) -> (r: Result<
    Option<UpdateFieldPatch<ItineraryCategory>>,
    String,
>)
    ensures
        match r {
            Ok(Some(p)) => category_patch(candidate@) == Ok::<Option<ItineraryCategory>, Seq<char>>(Some(p.value)),
            Ok(None) => category_patch(candidate@) == Ok::<Option<ItineraryCategory>, Seq<char>>(None),
            Err(e) => category_patch(candidate@) == Err::<Option<ItineraryCategory>, Seq<char>>(e@),
        },
{
    if !crate::json::contains_key(candidate, "category") {
        return Ok(None);
    }
    let text = match non_empty_string(get_member(candidate, "category")) {
        Some(t) => t,
        None => return Err(owned("candidate_content.category が必要です")),
    };
    match parse_itinerary_category(text.as_str()) {
        Ok(c) => Ok(Some(UpdateFieldPatch { value: c })),
        Err(e) => {
            let mut m = owned("candidate_content.category が不正です: ");
            push_str(&mut m, e.as_str());
            Err(m)
        },
    }
}

// ---------------------------------------------------------------------------
// Notes.

pub open spec fn msg_note_body_required() -> Seq<char> {
    "add_note には candidate_content.body または fragment.notes が必要です"@
}

/// The title and body of an `add_note`: the body from the candidate's
/// `body`, a candidate given as text, or the fragment's notes.
pub open spec fn add_note_fields(f: Seq<(String, JsonValue)>) -> Result<(Option<Seq<char>>, Seq<char>), Seq<char>> {
    match add_note_body(f) {
        None => Err(msg_note_body_required()),
        Some(body) => Ok(
            (
                match object_member(f, "candidate_content"@) {
                    Some(o) => non_empty_text(member(o, "title"@)),
                    None => None,
                },
                body,
            ),
        ),
    }
}

pub fn parse_add_note_fields(fragment: &JsonMembers) -> (r: Result<ParsedAddNoteFields, String>)
    ensures
        match r {
            Ok(n) => add_note_fields(fragment@) == Ok::<(Option<Seq<char>>, Seq<char>), Seq<char>>(
                (opt_view(n.title), n.body@),
            ),
            Err(e) => add_note_fields(fragment@) == Err::<(Option<Seq<char>>, Seq<char>), Seq<char>>(e@),
        },
{
    let candidate = get_member(fragment, "candidate_content");
    let from_candidate = match candidate {
        Some(c) => match json_object(c) {
            Some(o) => non_empty_string(get_member(o, "body")),
            None => non_empty_string(Some(c)),
        },
        None => None,
    };
    let body = match from_candidate {
        Some(b) => b,
        None => match non_empty_string(get_member(fragment, "notes")) {
            Some(n) => n,
            None => return Err(owned("add_note には candidate_content.body または fragment.notes が必要です")),
        },
    };
    let title = match candidate {
        Some(c) => match json_object(c) {
            Some(o) => non_empty_string(get_member(o, "title")),
            None => None,
        },
        None => None,
    };
    Ok(ParsedAddNoteFields { title, body })
}

/// An `add_note` fragment passes the body rule of `fragment validate`
/// exactly when its note fields can be read.
pub proof fn lemma_note_body_rule_matches_note_fields(f: Seq<(String, JsonValue)>)
    ensures
        crate::proposal::fragment::fragment_body_nearly_empty(f, Some("add_note"@)) <==> add_note_fields(f) is Err,
{
}

// ---------------------------------------------------------------------------
// Expenses and estimates.

pub open spec fn expense_amount(v: Option<JsonValue>, currency: Seq<char>) -> Result<int, Seq<char>> {
    match v {
        None => Err("candidate_content.amount が必要です"@),
        Some(x) => match x.kind {
            JsonKind::Number(n) => match n {
                None => Err("candidate_content.amount は整数である必要があります"@),
                Some(a) => if a < 0 {
                    Err("candidate_content.amount は 0 以上である必要があります"@)
                } else {
                    Ok(a as int)
                },
            },
            JsonKind::Str(t) => match parse_amount_result(t@, currency) {
                Ok(a) => Ok(a),
                Err(e) => Err("candidate_content.amount が不正です: "@ + e),
            },
            _ => Err("candidate_content.amount は数値または文字列である必要があります"@),
        },
    }
}

pub fn parse_expense_amount_field(value: Option<&JsonValue>, currency: &str) -> (r: Result<i64, String>)
    ensures
        amount_result_view(r) == expense_amount(crate::json::opt_ref_view(value), currency@),
{
    let v = match value {
        Some(v) => v,
        None => return Err(owned("candidate_content.amount が必要です")),
    };
    match &v.kind {
        JsonKind::Number(n) => match n {
            None => Err(owned("candidate_content.amount は整数である必要があります")),
            Some(a) => {
                if *a < 0 {
                    Err(owned("candidate_content.amount は 0 以上である必要があります"))
                } else {
                    Ok(*a)
                }
            },
        },
        JsonKind::Str(t) => match parse_amount_for_currency(t.as_str(), currency) {
            Ok(a) => Ok(a),
            Err(e) => {
                let mut m = owned("candidate_content.amount が不正です: ");
                push_str(&mut m, e.as_str());
                Err(m)
            },
        },
        _ => Err(owned("candidate_content.amount は数値または文字列である必要があります")),
    }
}

/// The first non-blank of three text fields.
pub open spec fn first_of_three(
    m: Seq<(String, JsonValue)>,
    a: Seq<char>,
    b: Seq<char>,
    c: Option<Seq<char>>,
) -> Option<Seq<char>> {
    match non_empty_text(member(m, a)) {
        Some(x) => Some(x),
        None => match non_empty_text(member(m, b)) {
            Some(x) => Some(x),
            None => c,
        },
    }
}

/// The validated currency of a candidate.
pub open spec fn candidate_currency(c: Seq<(String, JsonValue)>) -> Result<Seq<char>, Seq<char>> {
    match non_empty_text(member(c, "currency"@)) {
        None => Err("candidate_content.currency が必要です"@),
        Some(t) => match currency_format_result(t) {
            Ok(cur) => Ok(cur),
            Err(e) => Err("candidate_content.currency が不正です: "@ + e),
        },
    }
}

pub type MoneyFieldsView = (Option<Seq<char>>, int, Seq<char>, Option<Seq<char>>);

/// An expense's title, amount, currency and note, read from the candidate.
pub open spec fn money_fields(f: Seq<(String, JsonValue)>, c: Seq<(String, JsonValue)>) -> Result<
    MoneyFieldsView,
    Seq<char>,
> {
    match candidate_currency(c) {
        Err(e) => Err(e),
        Ok(cur) => match expense_amount(member(c, "amount"@), cur) {
            Err(e) => Err(e),
            Ok(amount) => Ok(
                (
                    first_of_three(c, "title"@, "description"@, non_empty_text(member(c, "label"@))),
                    amount,
                    cur,
                    first_of_three(c, "note"@, "memo"@, non_empty_text(member(f, "notes"@))),
                ),
            ),
        },
    }
}

pub open spec fn add_expense_fields(f: Seq<(String, JsonValue)>) -> Result<MoneyFieldsView, Seq<char>> {
    match object_member(f, "candidate_content"@) {
        None => Err("candidate_content object が必要です"@),
        Some(c) => money_fields(f, c),
    }
}

pub(crate) fn first_non_empty_of_three(m: &JsonMembers, a: &str, b: &str, c: Option<String>) -> (r: Option<String>)
    ensures
        opt_view(r) == first_of_three(m@, a@, b@, opt_view(c)),
{
    match non_empty_string(get_member(m, a)) {
        Some(x) => Some(x),
        None => match non_empty_string(get_member(m, b)) {
            Some(x) => Some(x),
            None => c,
        },
    }
}

fn read_currency(c: &JsonMembers) -> (r: Result<String, String>)
    ensures
        crate::money::string_result_view(r) == candidate_currency(c@),
{
    let text = match non_empty_string(get_member(c, "currency")) {
        Some(t) => t,
        None => return Err(owned("candidate_content.currency が必要です")),
    };
    match validate_currency_code(text.as_str()) {
        Ok(cur) => Ok(cur),
        Err(e) => {
            let mut m = owned("candidate_content.currency が不正です: ");
            push_str(&mut m, e.as_str());
            Err(m)
        },
    }
}

pub(crate) fn candidate_members(fragment: &JsonMembers) -> (r: Option<&JsonMembers>)
    ensures
        match r {
            Some(o) => object_member(fragment@, "candidate_content"@) == Some(o@),
            None => object_member(fragment@, "candidate_content"@) is None,
        },
{
    match get_member(fragment, "candidate_content") {
        Some(v) => json_object(v),
        None => None,
    }
}

pub fn parse_add_expense_fields(fragment: &JsonMembers) -> (r: Result<ParsedAddExpenseFields, String>)
    ensures
        match r {
            Ok(x) => add_expense_fields(fragment@) == Ok::<MoneyFieldsView, Seq<char>>(
                (opt_view(x.title), x.amount as int, x.currency@, opt_view(x.note)),
            ),
            Err(e) => add_expense_fields(fragment@) == Err::<MoneyFieldsView, Seq<char>>(e@),
        },
{
    let candidate = match candidate_members(fragment) {
        Some(c) => c,
        None => return Err(owned("candidate_content object が必要です")),
    };
    let currency = match read_currency(candidate) {
        Ok(c) => c,
        Err(e) => return Err(e),
    };
    let amount = match parse_expense_amount_field(get_member(candidate, "amount"), currency.as_str()) {
        Ok(a) => a,
        Err(e) => return Err(e),
    };
    let title = first_non_empty_of_three(
        candidate,
        "title",
        "description",
        non_empty_string(get_member(candidate, "label")),
    );
    let note = first_non_empty_of_three(candidate, "note", "memo", non_empty_string(get_member(fragment, "notes")));
    Ok(ParsedAddExpenseFields { title, amount, currency, note })
}

/// An expense whose fields can be read passes the body rule of `fragment validate`.
pub proof fn lemma_readable_expense_is_not_nearly_empty(f: Seq<(String, JsonValue)>)
    requires
        add_expense_fields(f) is Ok,
    ensures
        !crate::proposal::fragment::amount_body_nearly_empty(f),
{
    let c = object_member(f, "candidate_content"@)->0;
    let v = member(c, "amount"@)->0;
    assert(!is_null(v));
}

/// A text field that may be absent or null, but otherwise must be text.
pub open spec fn optional_text_ok(c: Seq<(String, JsonValue)>, key: Seq<char>) -> Result<(), Seq<char>> {
    match member(c, key) {
        None => Ok(()),
        Some(v) => match v.kind {
            JsonKind::Null => Ok(()),
            JsonKind::Str(_) => Ok(()),
            _ => Err("candidate_content."@ + key + " は文字列である必要があります"@),
        },
    }
}

pub fn validate_optional_string_candidate_field(candidate: &JsonMembers, key: &str) -> (r: Result<(), String>)
    ensures
        crate::text::result_view(r) == optional_text_ok(candidate@, key@),
{
    match get_member(candidate, key) {
        None => Ok(()),
        Some(v) => match &v.kind {
            JsonKind::Null => Ok(()),
            JsonKind::Str(_) => Ok(()),
            _ => {
                let mut m = owned("candidate_content.");
                push_str(&mut m, key);
                push_str(&mut m, " は文字列である必要があります");
                Err(m)
            },
        },
    }
}

pub open spec fn estimate_sort_order(v: Option<JsonValue>) -> Result<i64, Seq<char>> {
    match v {
        None => Ok(0),
        Some(x) => match as_i64(x) {
            Some(n) => Ok(n),
            None => Err("candidate_content.sort_order は整数である必要があります"@),
        },
    }
}

pub fn parse_estimate_sort_order_field(value: Option<&JsonValue>) -> (r: Result<i64, String>)
    ensures
        crate::text::result_view(r) == estimate_sort_order(crate::json::opt_ref_view(value)),
{
    match value {
        None => Ok(0),
        Some(v) => match &v.kind {
            JsonKind::Number(Some(n)) => Ok(*n),
            _ => Err(owned("candidate_content.sort_order は整数である必要があります")),
        },
    }
}

pub type EstimateFieldsView = (Option<Seq<char>>, int, Seq<char>, Option<Seq<char>>, i64);

pub open spec fn add_estimate_fields(f: Seq<(String, JsonValue)>) -> Result<EstimateFieldsView, Seq<char>> {
    match object_member(f, "candidate_content"@) {
        None => Err("candidate_content object が必要です"@),
        Some(c) => if optional_text_ok(c, "title"@) is Err {
            Err(optional_text_ok(c, "title"@)->Err_0)
        } else if optional_text_ok(c, "description"@) is Err {
            Err(optional_text_ok(c, "description"@)->Err_0)
        } else if optional_text_ok(c, "label"@) is Err {
            Err(optional_text_ok(c, "label"@)->Err_0)
        } else if optional_text_ok(c, "note"@) is Err {
            Err(optional_text_ok(c, "note"@)->Err_0)
        } else if optional_text_ok(c, "memo"@) is Err {
            Err(optional_text_ok(c, "memo"@)->Err_0)
        } else {
            match money_fields(f, c) {
                Err(e) => Err(e),
                Ok(m) => match estimate_sort_order(member(c, "sort_order"@)) {
                    Err(e) => Err(e),
                    Ok(s) => Ok((m.0, m.1, m.2, m.3, s)),
                },
            }
        },
    }
}

pub fn parse_add_estimate_fields(fragment: &JsonMembers) -> (r: Result<ParsedAddEstimateFields, String>)
    ensures
        match r {
            Ok(x) => add_estimate_fields(fragment@) == Ok::<EstimateFieldsView, Seq<char>>(
                (opt_view(x.title), x.amount as int, x.currency@, opt_view(x.note), x.sort_order),
            ),
            Err(e) => add_estimate_fields(fragment@) == Err::<EstimateFieldsView, Seq<char>>(e@),
        },
{
    let candidate = match candidate_members(fragment) {
        Some(c) => c,
        None => return Err(owned("candidate_content object が必要です")),
    };
    match validate_optional_string_candidate_field(candidate, "title") {
        Err(e) => return Err(e),
        Ok(()) => {},
    }
    match validate_optional_string_candidate_field(candidate, "description") {
        Err(e) => return Err(e),
        Ok(()) => {},
    }
    match validate_optional_string_candidate_field(candidate, "label") {
        Err(e) => return Err(e),
        Ok(()) => {},
    }
    match validate_optional_string_candidate_field(candidate, "note") {
        Err(e) => return Err(e),
        Ok(()) => {},
    }
    match validate_optional_string_candidate_field(candidate, "memo") {
        Err(e) => return Err(e),
        Ok(()) => {},
    }
    let currency = match read_currency(candidate) {
        Ok(c) => c,
        Err(e) => return Err(e),
    };
    let amount = match parse_expense_amount_field(get_member(candidate, "amount"), currency.as_str()) {
        Ok(a) => a,
        Err(e) => return Err(e),
    };
    let title = first_non_empty_of_three(
        candidate,
        "title",
        "description",
        non_empty_string(get_member(candidate, "label")),
    );
    let note = first_non_empty_of_three(candidate, "note", "memo", non_empty_string(get_member(fragment, "notes")));
    let sort_order = match parse_estimate_sort_order_field(get_member(candidate, "sort_order")) {
        Ok(s) => s,
        Err(e) => return Err(e),
    };
    Ok(ParsedAddEstimateFields { title, amount, currency, note, sort_order })
}

// ---------------------------------------------------------------------------
// Warnings about candidate keys.

/// The warning for a candidate key that a change does not use.
pub open spec fn unsupported_key_line(key: Seq<char>, change: Seq<char>) -> Seq<char> {
    "unsupported_field: candidate_content."@ + key + " は "@ + change + " では未反映です"@
}

/// The warnings for the candidate's keys outside `supported`, in key order.
pub open spec fn unsupported_key_lines(
    keys: Seq<(String, JsonValue)>,
    supported: Seq<&'static str>,
    change: Seq<char>,
) -> Seq<Seq<char>>
    decreases keys.len(),
{
    if keys.len() == 0 {
        Seq::empty()
    } else {
        unsupported_key_lines(keys.drop_last(), supported, change) + if exists|i: int|
            0 <= i < supported.len() && supported[i]@ == keys.last().0@ {
            Seq::empty()
        } else {
            seq![unsupported_key_line(keys.last().0@, change)]
        }
    }
}

fn is_listed(list: &[&'static str], key: &str) -> (r: bool)
    ensures
        r == exists|i: int| 0 <= i < list@.len() && list@[i]@ == key@,
{
    let mut i: usize = 0;
    while i < list.len()
        invariant
            i <= list@.len(),
            forall|j: int| 0 <= j < i ==> list@[j]@ != key@,
        decreases list@.len() - i,
    {
        if str_eq(list[i], key) {
            return true;
        }
        i = i + 1;
    }
    false
}

/// Adds (once each) a warning for every candidate key outside `supported`.
pub fn warn_unsupported_candidate_keys(
    candidate: &JsonMembers,
    supported: &[&'static str],
    change: &str,
    warnings: &mut Vec<String>,
)
    ensures
        strings_view(final(warnings)@) == crate::proposal::materialize::append_unique(
            strings_view(old(warnings)@),
            unsupported_key_lines(candidate@, supported@, change@),
        ),
{
    let ghost start = strings_view(warnings@);
    let mut i: usize = 0;
    while i < candidate.len()
        invariant
            i <= candidate@.len(),
            strings_view(warnings@) == crate::proposal::materialize::append_unique(
                start,
                unsupported_key_lines(candidate@.subrange(0, i as int), supported@, change@),
            ),
        decreases candidate@.len() - i,
    {
        let ghost prefix = candidate@.subrange(0, i + 1);
        assert(prefix.drop_last() =~= candidate@.subrange(0, i as int));
        let key = candidate[i].0.as_str();
        if !is_listed(supported, key) {
            let mut line = owned("unsupported_field: candidate_content.");
            push_str(&mut line, key);
            push_str(&mut line, " は ");
            push_str(&mut line, change);
            push_str(&mut line, " では未反映です");
            let ghost lines = unsupported_key_lines(prefix, supported@, change@);
            let ghost before = unsupported_key_lines(candidate@.subrange(0, i as int), supported@, change@);
            assert(lines == before + seq![line@]);
            assert((before + seq![line@]).drop_last() =~= before);
            push_unique(warnings, line);
        } else {
            assert(unsupported_key_lines(prefix, supported@, change@) =~= unsupported_key_lines(
                candidate@.subrange(0, i as int),
                supported@,
                change@,
            ));
        }
        i = i + 1;
    }
    assert(candidate@.subrange(0, candidate@.len() as int) =~= candidate@);
}

/// Warnings for `add` candidate keys that adding an itinerary does not use.
pub fn warn_unsupported_add_candidate_keys(candidate: &JsonMembers, warnings: &mut Vec<String>)
    ensures
        strings_view(final(warnings)@) == crate::proposal::materialize::append_unique(
            strings_view(old(warnings)@),
            unsupported_key_lines(
                candidate@,
                seq![
                    "title",
                    "location",
                    "category",
                    "start_time",
                    "duration_minutes",
                    "travel_minutes",
                    "travel_time_minutes",
                    "sort_order",
                    "placement_hint",
                    "after",
                    "before",
                ],
                "add_itinerary"@,
            ),
        ),
{
    let supported: [&'static str; 11] = [
        "title",
        "location",
        "category",
        "start_time",
        "duration_minutes",
        "travel_minutes",
        "travel_time_minutes",
        "sort_order",
        "placement_hint",
        "after",
        "before",
    ];
    assert(supported@ =~= seq![
        "title",
        "location",
        "category",
        "start_time",
        "duration_minutes",
        "travel_minutes",
        "travel_time_minutes",
        "sort_order",
        "placement_hint",
        "after",
        "before",
    ]);
    warn_unsupported_candidate_keys(candidate, &supported, "add_itinerary", warnings);
}

/// Warnings for `add_expense` candidate keys that adding an expense does not use.
pub fn warn_unsupported_add_expense_candidate_keys(candidate: &JsonMembers, warnings: &mut Vec<String>)
    ensures
        strings_view(final(warnings)@) == crate::proposal::materialize::append_unique(
            strings_view(old(warnings)@),
            unsupported_key_lines(
                candidate@,
                seq!["title", "description", "label", "amount", "currency", "note", "memo"],
                "add_expense"@,
            ),
        ),
{
    let supported: [&'static str; 7] = ["title", "description", "label", "amount", "currency", "note", "memo"];
    assert(supported@ =~= seq!["title", "description", "label", "amount", "currency", "note", "memo"]);
    warn_unsupported_candidate_keys(candidate, &supported, "add_expense", warnings);
}

/// Warnings for `add_estimate` candidate keys that adding an estimate does not use.
pub fn warn_unsupported_add_estimate_candidate_keys(candidate: &JsonMembers, warnings: &mut Vec<String>)
    ensures
        strings_view(final(warnings)@) == crate::proposal::materialize::append_unique(
            strings_view(old(warnings)@),
            unsupported_key_lines(
                candidate@,
                seq!["title", "description", "label", "amount", "currency", "note", "memo", "sort_order"],
                "add_estimate"@,
            ),
        ),
{
    let supported: [&'static str; 8] = [
        "title",
        "description",
        "label",
        "amount",
        "currency",
        "note",
        "memo",
        "sort_order",
    ];
    assert(supported@ =~= seq!["title", "description", "label", "amount", "currency", "note", "memo", "sort_order"]);
    warn_unsupported_candidate_keys(candidate, &supported, "add_estimate", warnings);
}

/// Warnings for `add_note` candidate keys other than title and body.
pub fn warn_unsupported_add_note_candidate_keys(candidate: &JsonMembers, warnings: &mut Vec<String>)
    ensures
        strings_view(final(warnings)@) == crate::proposal::materialize::append_unique(
            strings_view(old(warnings)@),
            unsupported_key_lines(candidate@, seq!["title", "body"], "add_note"@),
        ),
{
    let supported: [&'static str; 2] = ["title", "body"];
    assert(supported@ =~= seq!["title", "body"]);
    warn_unsupported_candidate_keys(candidate, &supported, "add_note", warnings);
}

/// The ordering hints of an `add` that `--confirm` does not follow (it appends at the end of the day).
pub open spec fn ordering_hint_lines(c: Seq<(String, JsonValue)>, f: Seq<(String, JsonValue)>) -> Seq<Seq<char>> {
    crate::text::line_if(
        has_member(c, "sort_order"@),
        "ordering_hint: candidate_content.sort_order は v4.7.21 confirm では無視され、Day 末尾に append します"@,
    ) + crate::text::line_if(
        non_empty_text(member(c, "placement_hint"@)) is Some,
        "ordering_hint: placement_hint は preview のみ — confirm は Day 末尾 append（--after / reorder は未実装）"@,
    ) + crate::text::line_if(
        has_member(c, "after"@) || has_member(c, "before"@),
        "ordering_hint: after / before は v4.7.21 confirm では未対応です — Day 末尾に append します"@,
    ) + crate::text::line_if(
        match member(f, "placement_hints"@) {
            Some(v) => !is_null(v),
            None => false,
        },
        "ordering_hint: placement_hints は v4.7.21 confirm では未反映です — Day 末尾に append します"@,
    )
}

pub fn collect_add_ordering_hint_warnings(candidate: &JsonMembers, fragment: &JsonMembers, warnings: &mut Vec<String>)
    ensures
        strings_view(final(warnings)@) == crate::proposal::materialize::append_unique(
            strings_view(old(warnings)@),
            ordering_hint_lines(candidate@, fragment@),
        ),
{
    let mut lines: Vec<String> = Vec::new();
    crate::text::push_line_if(
        &mut lines,
        crate::json::contains_key(candidate, "sort_order"),
        "ordering_hint: candidate_content.sort_order は v4.7.21 confirm では無視され、Day 末尾に append します",
    );
    crate::text::push_line_if(
        &mut lines,
        non_empty_string(get_member(candidate, "placement_hint")).is_some(),
        "ordering_hint: placement_hint は preview のみ — confirm は Day 末尾 append（--after / reorder は未実装）",
    );
    crate::text::push_line_if(
        &mut lines,
        crate::json::contains_key(candidate, "after") || crate::json::contains_key(candidate, "before"),
        "ordering_hint: after / before は v4.7.21 confirm では未対応です — Day 末尾に append します",
    );
    let hints_given = match get_member(fragment, "placement_hints") {
        Some(v) => match &v.kind {
            JsonKind::Null => false,
            _ => true,
        },
        None => false,
    };
    crate::text::push_line_if(
        &mut lines,
        hints_given,
        "ordering_hint: placement_hints は v4.7.21 confirm では未反映です — Day 末尾に append します",
    );
    assert(strings_view(lines@) =~= ordering_hint_lines(candidate@, fragment@));
    crate::proposal::materialize::append_each_unique(warnings, lines);
}

// ---------------------------------------------------------------------------
// Baselines: the values the fragment expects the record to have now.

/// The first expected value (non-blank text under the key) that differs from
/// the record's current value, from check `i` on.
pub open spec fn baseline_check(
    c: Seq<(String, JsonValue)>,
    checks: Seq<(Seq<char>, Seq<char>)>,
    i: int,
) -> Result<(), Seq<char>>
    decreases checks.len() - i,
{
    if i < 0 || i >= checks.len() {
        Ok(())
    } else {
        match non_empty_text(member(c, checks[i].0)) {
            Some(expected) => if expected != checks[i].1 {
                Err(
                    "baseline mismatch: "@ + checks[i].0 + " ("@ + expected + ") が現行値 ("@ + checks[i].1
                        + ") と一致しません"@,
                )
            } else {
                baseline_check(c, checks, i + 1)
            },
            None => baseline_check(c, checks, i + 1),
        }
    }
}

pub open spec fn checks_view(checks: Seq<(&'static str, String)>) -> Seq<(Seq<char>, Seq<char>)> {
    checks.map_values(|p: (&'static str, String)| (p.0@, p.1@))
}

fn check_baselines(candidate: &JsonMembers, checks: &Vec<(&'static str, String)>) -> (r: Result<(), String>)
    ensures
        crate::text::result_view(r) == baseline_check(candidate@, checks_view(checks@), 0),
{
    let mut i: usize = 0;
    while i < checks.len()
        invariant
            i <= checks@.len(),
            baseline_check(candidate@, checks_view(checks@), 0) == baseline_check(
                candidate@,
                checks_view(checks@),
                i as int,
            ),
        decreases checks@.len() - i,
    {
        let key = checks[i].0;
        let current = checks[i].1.as_str();
        assert(checks_view(checks@)[i as int] == (key@, current@));
        match non_empty_string(get_member(candidate, key)) {
            Some(expected) => {
                if !str_eq(expected.as_str(), current) {
                    let mut m = owned("baseline mismatch: ");
                    push_str(&mut m, key);
                    push_str(&mut m, " (");
                    push_str(&mut m, expected.as_str());
                    push_str(&mut m, ") が現行値 (");
                    push_str(&mut m, current);
                    push_str(&mut m, ") と一致しません");
                    return Err(m);
                }
            },
            None => {},
        }
        i = i + 1;
    }
    Ok(())
}

/// What an `update_itinerary` may expect of the itinerary, with its current display.
pub open spec fn itinerary_baselines(current: crate::models::ExportItineraryV3) -> Seq<(Seq<char>, Seq<char>)> {
    seq![
        ("expected_title"@, current.title@),
        ("expected_note"@, crate::proposal::apply::diff_text(opt_view(current.note))),
        ("expected_location"@, crate::proposal::apply::diff_text(opt_view(current.location))),
        ("expected_category"@, crate::proposal::apply::diff_category(current.category)),
        ("expected_start_time"@, crate::proposal::apply::diff_text(opt_view(current.start_time))),
        ("expected_duration_minutes"@, crate::proposal::apply::diff_i64(current.duration_minutes)),
        ("expected_travel_minutes"@, crate::proposal::apply::diff_i64(current.travel_minutes)),
    ]
}

/// Checks the itinerary values that the fragment expects against the current ones.
pub fn detect_update_itinerary_baseline_conflicts(
    candidate: &JsonMembers,
    current: &crate::models::ExportItineraryV3,
) -> (r: Result<(), String>)
    ensures
        crate::text::result_view(r) == baseline_check(candidate@, itinerary_baselines(*current), 0),
{
    let mut checks: Vec<(&'static str, String)> = Vec::new();
    checks.push(("expected_title", owned(current.title.as_str())));
    checks.push(("expected_note", crate::proposal::apply::fmt_diff_option_str(&current.note)));
    checks.push(("expected_location", crate::proposal::apply::fmt_diff_option_str(&current.location)));
    checks.push(("expected_category", crate::proposal::apply::fmt_diff_option_category(current.category)));
    checks.push(("expected_start_time", crate::proposal::apply::fmt_diff_option_str(&current.start_time)));
    checks.push(("expected_duration_minutes", crate::proposal::apply::fmt_diff_option_i64(current.duration_minutes)));
    checks.push(("expected_travel_minutes", crate::proposal::apply::fmt_diff_option_i64(current.travel_minutes)));
    assert(checks_view(checks@) =~= itinerary_baselines(*current));
    check_baselines(candidate, &checks)
}

/// What an `update_estimate` may expect of the estimate, with its current display.
pub open spec fn estimate_baselines(current: crate::models::Estimate) -> Seq<(Seq<char>, Seq<char>)> {
    seq![
        ("expected_amount"@, crate::text::int_decimal(current.amount as int)),
        ("expected_currency"@, current.currency@),
        ("expected_title"@, crate::proposal::apply::diff_text(opt_view(current.title))),
        ("expected_note"@, crate::proposal::apply::diff_text(opt_view(current.note))),
        ("expected_sort_order"@, crate::proposal::apply::diff_i64(Some(current.sort_order))),
    ]
}

fn estimate_checks(current: &crate::models::Estimate) -> (r: Vec<(&'static str, String)>)
    ensures
        checks_view(r@) == estimate_baselines(*current),
{
    let mut checks: Vec<(&'static str, String)> = Vec::new();
    checks.push(("expected_amount", crate::text::i64_to_string(current.amount)));
    checks.push(("expected_currency", owned(current.currency.as_str())));
    checks.push(("expected_title", crate::proposal::apply::fmt_diff_option_str(&current.title)));
    checks.push(("expected_note", crate::proposal::apply::fmt_diff_option_str(&current.note)));
    checks.push(("expected_sort_order", crate::proposal::apply::fmt_diff_option_i64(Some(current.sort_order))));
    assert(checks_view(checks@) =~= estimate_baselines(*current));
    checks
}

/// Checks the estimate values that an `update_estimate` expects against the current ones.
pub fn detect_update_estimate_baseline_conflicts(candidate: &JsonMembers, current: &crate::models::Estimate) -> (r:
    Result<(), String>)
    ensures
        crate::text::result_view(r) == baseline_check(candidate@, estimate_baselines(*current), 0),
{
    let checks = estimate_checks(current);
    check_baselines(candidate, &checks)
}

/// Checks the estimate values that a `delete_estimate` expects (its update time too).
pub fn detect_delete_estimate_baseline_conflicts(candidate: &JsonMembers, current: &crate::models::Estimate) -> (r:
    Result<(), String>)
    ensures
        crate::text::result_view(r) == baseline_check(
            candidate@,
            estimate_baselines(*current).push(("expected_updated_at"@, current.updated_at@)),
            0,
        ),
{
    let mut checks = estimate_checks(current);
    checks.push(("expected_updated_at", owned(current.updated_at.as_str())));
    assert(checks_view(checks@) =~= estimate_baselines(*current).push(("expected_updated_at"@, current.updated_at@)));
    check_baselines(candidate, &checks)
}

/// A fragment that expects nothing, or expects exactly the current values,
/// never conflicts with the baseline.
pub proof fn lemma_matching_expectations_pass(
    c: Seq<(String, JsonValue)>,
    checks: Seq<(Seq<char>, Seq<char>)>,
    i: int,
)
    requires
        forall|j: int|
            0 <= j < checks.len() ==> match non_empty_text(member(c, #[trigger] checks[j].0)) {
                Some(e) => e == checks[j].1,
                None => true,
            },
    ensures
        baseline_check(c, checks, i) == Ok::<(), Seq<char>>(()),
    decreases checks.len() - i,
{
    if 0 <= i < checks.len() {
        lemma_matching_expectations_pass(c, checks, i + 1);
    }
}

// ---------------------------------------------------------------------------
// Updating and deleting estimates.

pub open spec fn null_rejected(c: Seq<(String, JsonValue)>, key: Seq<char>) -> Result<(), Seq<char>> {
    match member(c, key) {
        Some(v) => if is_null(v) {
            Err("candidate_content."@ + key + " に null は指定できません"@)
        } else {
            Ok(())
        },
        None => Ok(()),
    }
}

pub fn reject_explicit_null_candidate_field(candidate: &JsonMembers, key: &str) -> (r: Result<(), String>)
    ensures
        crate::text::result_view(r) == null_rejected(candidate@, key@),
{
    match get_member(candidate, key) {
        Some(v) => match &v.kind {
            JsonKind::Null => {
                let mut m = owned("candidate_content.");
                push_str(&mut m, key);
                push_str(&mut m, " に null は指定できません");
                Err(m)
            },
            _ => Ok(()),
        },
        None => Ok(()),
    }
}

/// The first of the keys (from position `i` on) that is given as null.
pub open spec fn first_null_key(c: Seq<(String, JsonValue)>, keys: Seq<&'static str>, i: int) -> Result<(), Seq<char>>
    decreases keys.len() - i,
{
    if i < 0 || i >= keys.len() {
        Ok(())
    } else if null_rejected(c, keys[i]@) is Err {
        null_rejected(c, keys[i]@)
    } else {
        first_null_key(c, keys, i + 1)
    }
}

fn reject_null_keys(candidate: &JsonMembers, keys: &[&'static str]) -> (r: Result<(), String>)
    ensures
        crate::text::result_view(r) == first_null_key(candidate@, keys@, 0),
{
    let mut i: usize = 0;
    while i < keys.len()
        invariant
            i <= keys@.len(),
            first_null_key(candidate@, keys@, 0) == first_null_key(candidate@, keys@, i as int),
        decreases keys@.len() - i,
    {
        match reject_explicit_null_candidate_field(candidate, keys[i]) {
            Err(e) => return Err(e),
            Ok(()) => {},
        }
        i = i + 1;
    }
    Ok(())
}

pub open spec fn update_estimate_null_keys() -> Seq<&'static str> {
    seq![
        "estimate_id",
        "amount",
        "currency",
        "title",
        "note",
        "sort_order",
        "expected_amount",
        "expected_currency",
        "expected_title",
        "expected_note",
        "expected_sort_order",
        "clear_title",
        "clear_note",
    ]
}

pub fn reject_explicit_null_update_estimate_keys(candidate: &JsonMembers) -> (r: Result<(), String>)
    ensures
        crate::text::result_view(r) == first_null_key(candidate@, update_estimate_null_keys(), 0),
{
    let keys: [&'static str; 13] = [
        "estimate_id",
        "amount",
        "currency",
        "title",
        "note",
        "sort_order",
        "expected_amount",
        "expected_currency",
        "expected_title",
        "expected_note",
        "expected_sort_order",
        "clear_title",
        "clear_note",
    ];
    assert(keys@ =~= update_estimate_null_keys());
    reject_null_keys(candidate, &keys)
}

pub open spec fn delete_estimate_null_keys() -> Seq<&'static str> {
    seq![
        "estimate_id",
        "expected_amount",
        "expected_currency",
        "expected_title",
        "expected_note",
        "expected_sort_order",
        "expected_updated_at",
    ]
}

pub fn reject_explicit_null_delete_estimate_keys(candidate: &JsonMembers) -> (r: Result<(), String>)
    ensures
        crate::text::result_view(r) == first_null_key(candidate@, delete_estimate_null_keys(), 0),
{
    let keys: [&'static str; 7] = [
        "estimate_id",
        "expected_amount",
        "expected_currency",
        "expected_title",
        "expected_note",
        "expected_sort_order",
        "expected_updated_at",
    ];
    assert(keys@ =~= delete_estimate_null_keys());
    reject_null_keys(candidate, &keys)
}

pub open spec fn estimate_id_field(c: Seq<(String, JsonValue)>) -> Result<i64, Seq<char>> {
    if null_rejected(c, "estimate_id"@) is Err {
        Err(null_rejected(c, "estimate_id"@)->Err_0)
    } else {
        match member(c, "estimate_id"@) {
            None => Err("candidate_content.estimate_id が必要です"@),
            Some(v) => match as_i64(v) {
                Some(n) => Ok(n),
                None => Err("candidate_content.estimate_id は整数である必要があります"@),
            },
        }
    }
}

pub fn parse_estimate_id_field(candidate: &JsonMembers) -> (r: Result<i64, String>)
    ensures
        crate::text::result_view(r) == estimate_id_field(candidate@),
{
    match reject_explicit_null_candidate_field(candidate, "estimate_id") {
        Err(e) => return Err(e),
        Ok(()) => {},
    }
    match get_member(candidate, "estimate_id") {
        None => Err(owned("candidate_content.estimate_id が必要です")),
        Some(v) => match &v.kind {
            JsonKind::Number(Some(n)) => Ok(*n),
            _ => Err(owned("candidate_content.estimate_id は整数である必要があります")),
        },
    }
}

pub open spec fn clear_flag(c: Seq<(String, JsonValue)>, key: Seq<char>) -> Result<bool, Seq<char>> {
    if null_rejected(c, key) is Err {
        Err(null_rejected(c, key)->Err_0)
    } else {
        match member(c, key) {
            None => Ok(false),
            Some(v) => match v.kind {
                JsonKind::Bool(b) => Ok(b),
                _ => Err("candidate_content."@ + key + " は真偽値である必要があります"@),
            },
        }
    }
}

pub fn parse_clear_flag_field(candidate: &JsonMembers, key: &str) -> (r: Result<bool, String>)
    ensures
        crate::text::result_view(r) == clear_flag(candidate@, key@),
{
    match reject_explicit_null_candidate_field(candidate, key) {
        Err(e) => return Err(e),
        Ok(()) => {},
    }
    match get_member(candidate, key) {
        None => Ok(false),
        Some(v) => match &v.kind {
            JsonKind::Bool(b) => Ok(*b),
            _ => {
                let mut m = owned("candidate_content.");
                push_str(&mut m, key);
                push_str(&mut m, " は真偽値である必要があります");
                Err(m)
            },
        },
    }
}

/// A text field of an estimate update: it may not be null and must be text.
pub open spec fn estimate_text_patch(c: Seq<(String, JsonValue)>, key: Seq<char>) -> Result<
    Option<Seq<char>>,
    Seq<char>,
> {
    if !has_member(c, key) {
        Ok(None)
    } else if null_rejected(c, key) is Err {
        Err(null_rejected(c, key)->Err_0)
    } else {
        match member(c, key)->0.kind {
            JsonKind::Str(t) => Ok(Some(t@)),
            _ => Err("candidate_content."@ + key + " は文字列である必要があります"@),
        }
    }
}

pub fn patch_optional_estimate_text_field(candidate: &JsonMembers, key: &str) -> (r: Result<
    Option<UpdateFieldPatch<String>>,
    String,
>)
    ensures
        text_patch_view(r) == estimate_text_patch(candidate@, key@),
{
    let v = match get_member(candidate, key) {
        None => return Ok(None),
        Some(v) => v,
    };
    match reject_explicit_null_candidate_field(candidate, key) {
        Err(e) => return Err(e),
        Ok(()) => {},
    }
    match &v.kind {
        JsonKind::Str(t) => Ok(Some(UpdateFieldPatch { value: owned(t.as_str()) })),
        _ => {
            let mut m = owned("candidate_content.");
            push_str(&mut m, key);
            push_str(&mut m, " は文字列である必要があります");
            Err(m)
        },
    }
}

pub open spec fn update_estimate_sort_order(v: Option<JsonValue>) -> Result<Option<i64>, Seq<char>> {
    match v {
        None => Ok(None),
        Some(x) => match x.kind {
            JsonKind::Null => Err("candidate_content.sort_order に null は指定できません"@),
            JsonKind::Number(Some(n)) => Ok(Some(n)),
            _ => Err("candidate_content.sort_order は整数である必要があります"@),
        },
    }
}

pub fn parse_update_estimate_sort_order_field(value: Option<&JsonValue>) -> (r: Result<Option<i64>, String>)
    ensures
        crate::text::result_view(r) == update_estimate_sort_order(crate::json::opt_ref_view(value)),
{
    match value {
        None => Ok(None),
        Some(v) => match &v.kind {
            JsonKind::Null => Err(owned("candidate_content.sort_order に null は指定できません")),
            JsonKind::Number(Some(n)) => Ok(Some(*n)),
            _ => Err(owned("candidate_content.sort_order は整数である必要があります")),
        },
    }
}

/// The amount of an estimate update, given as a whole number or as text in the currency.
pub fn parse_update_estimate_amount_value(value: &JsonValue, currency: &str) -> (r: Result<i64, String>)
    ensures
        amount_result_view(r) == expense_amount(Some(*value), currency@),
{
    parse_expense_amount_field(Some(value), currency)
}

/// The first of the mutation keys (from position `i` on) that a delete names.
pub open spec fn first_given_key(c: Seq<(String, JsonValue)>, keys: Seq<&'static str>, i: int) -> Option<Seq<char>>
    decreases keys.len() - i,
{
    if i < 0 || i >= keys.len() {
        None
    } else if has_member(c, keys[i]@) {
        Some(keys[i]@)
    } else {
        first_given_key(c, keys, i + 1)
    }
}

fn first_present_key(candidate: &JsonMembers, keys: &[&'static str]) -> (r: Option<&'static str>)
    ensures
        match r {
            Some(k) => first_given_key(candidate@, keys@, 0) == Some(k@),
            None => first_given_key(candidate@, keys@, 0) is None,
        },
{
    let mut i: usize = 0;
    while i < keys.len()
        invariant
            i <= keys@.len(),
            first_given_key(candidate@, keys@, 0) == first_given_key(candidate@, keys@, i as int),
        decreases keys@.len() - i,
    {
        if crate::json::contains_key(candidate, keys[i]) {
            return Some(keys[i]);
        }
        i = i + 1;
    }
    None
}

pub open spec fn delete_mutation_keys() -> Seq<&'static str> {
    seq![
        "amount",
        "currency",
        "title",
        "note",
        "sort_order",
        "clear_title",
        "clear_note",
        "clear_amount",
        "clear_currency",
        "clear_sort_order",
    ]
}

pub fn reject_delete_estimate_mutation_fields(candidate: &JsonMembers) -> (r: Result<(), String>)
    ensures
        crate::text::result_view(r) == match first_given_key(candidate@, delete_mutation_keys(), 0) {
            Some(k) => Err::<(), Seq<char>>("candidate_content."@ + k + " は delete_estimate では指定できません"@),
            None => Ok(()),
        },
{
    let keys: [&'static str; 10] = [
        "amount",
        "currency",
        "title",
        "note",
        "sort_order",
        "clear_title",
        "clear_note",
        "clear_amount",
        "clear_currency",
        "clear_sort_order",
    ];
    assert(keys@ =~= delete_mutation_keys());
    match first_present_key(candidate, &keys) {
        Some(k) => {
            let mut m = owned("candidate_content.");
            push_str(&mut m, k);
            push_str(&mut m, " は delete_estimate では指定できません");
            Err(m)
        },
        None => Ok(()),
    }
}

/// The estimate a `delete_estimate` names: a positive id, with no null
/// expectation and no field to change.
pub open spec fn delete_estimate_id(f: Seq<(String, JsonValue)>) -> Result<i64, Seq<char>> {
    match object_member(f, "candidate_content"@) {
        None => Err("candidate_content object が必要です"@),
        Some(c) => if first_null_key(c, delete_estimate_null_keys(), 0) is Err {
            Err(first_null_key(c, delete_estimate_null_keys(), 0)->Err_0)
        } else if first_given_key(c, delete_mutation_keys(), 0) is Some {
            Err(
                "candidate_content."@ + first_given_key(c, delete_mutation_keys(), 0)->0
                    + " は delete_estimate では指定できません"@,
            )
        } else {
            match estimate_id_field(c) {
                Err(e) => Err(e),
                Ok(id) => if id <= 0 {
                    Err("candidate_content.estimate_id は正の整数である必要があります"@)
                } else {
                    Ok(id)
                },
            }
        },
    }
}

pub fn parse_delete_estimate_fields(fragment: &JsonMembers) -> (r: Result<i64, String>)
    ensures
        crate::text::result_view(r) == delete_estimate_id(fragment@),
{
    let candidate = match candidate_members(fragment) {
        Some(c) => c,
        None => return Err(owned("candidate_content object が必要です")),
    };
    match reject_explicit_null_delete_estimate_keys(candidate) {
        Err(e) => return Err(e),
        Ok(()) => {},
    }
    match reject_delete_estimate_mutation_fields(candidate) {
        Err(e) => return Err(e),
        Ok(()) => {},
    }
    let id = match parse_estimate_id_field(candidate) {
        Ok(id) => id,
        Err(e) => return Err(e),
    };
    if id <= 0 {
        return Err(owned("candidate_content.estimate_id は正の整数である必要があります"));
    }
    Ok(id)
}

/// Warnings for `update_estimate` candidate keys that it does not use.
pub fn warn_unsupported_update_estimate_candidate_keys(candidate: &JsonMembers, warnings: &mut Vec<String>)
    ensures
        strings_view(final(warnings)@) == crate::proposal::materialize::append_unique(
            strings_view(old(warnings)@),
            unsupported_key_lines(candidate@, update_estimate_null_keys(), "update_estimate"@),
        ),
{
    let supported: [&'static str; 13] = [
        "estimate_id",
        "amount",
        "currency",
        "title",
        "note",
        "sort_order",
        "expected_amount",
        "expected_currency",
        "expected_title",
        "expected_note",
        "expected_sort_order",
        "clear_title",
        "clear_note",
    ];
    assert(supported@ =~= update_estimate_null_keys());
    warn_unsupported_candidate_keys(candidate, &supported, "update_estimate", warnings);
}

/// Warnings for `delete_estimate` candidate keys that it does not use.
pub fn warn_unsupported_delete_estimate_candidate_keys(candidate: &JsonMembers, warnings: &mut Vec<String>)
    ensures
        strings_view(final(warnings)@) == crate::proposal::materialize::append_unique(
            strings_view(old(warnings)@),
            unsupported_key_lines(candidate@, delete_estimate_null_keys(), "delete_estimate"@),
        ),
{
    let supported: [&'static str; 7] = [
        "estimate_id",
        "expected_amount",
        "expected_currency",
        "expected_title",
        "expected_note",
        "expected_sort_order",
        "expected_updated_at",
    ];
    assert(supported@ =~= delete_estimate_null_keys());
    warn_unsupported_candidate_keys(candidate, &supported, "delete_estimate", warnings);
}

/// The keys an `update_itinerary` candidate may use.
pub open spec fn update_itinerary_keys() -> Seq<&'static str> {
    seq![
        "title",
        "note",
        "location",
        "category",
        "start_time",
        "time",
        "duration_minutes",
        "duration",
        "travel_minutes",
        "travel_time_minutes",
        "travel",
        "expected_title",
        "expected_note",
        "expected_location",
        "expected_category",
        "expected_start_time",
        "expected_duration_minutes",
        "expected_travel_minutes",
    ]
}

/// Warnings for `update_itinerary` candidate keys that it does not use.
pub fn warn_unsupported_update_itinerary_candidate_keys(candidate: &JsonMembers, warnings: &mut Vec<String>)
    ensures
        strings_view(final(warnings)@) == crate::proposal::materialize::append_unique(
            strings_view(old(warnings)@),
            unsupported_key_lines(candidate@, update_itinerary_keys(), "update_itinerary"@),
        ),
{
    let supported: [&'static str; 18] = [
        "title",
        "note",
        "location",
        "category",
        "start_time",
        "time",
        "duration_minutes",
        "duration",
        "travel_minutes",
        "travel_time_minutes",
        "travel",
        "expected_title",
        "expected_note",
        "expected_location",
        "expected_category",
        "expected_start_time",
        "expected_duration_minutes",
        "expected_travel_minutes",
    ];
    assert(supported@ =~= update_itinerary_keys());
    warn_unsupported_candidate_keys(candidate, &supported, "update_itinerary", warnings);
}

/// An `update_estimate`'s fields, but the raw amount: estimate id, whether
/// amount and currency are given, the currency text, title and note patches,
/// sort order and the two clear flags.
pub type UpdateEstimateView = (
    i64,
    bool,
    bool,
    Option<Seq<char>>,
    Option<Seq<char>>,
    Option<Seq<char>>,
    Option<i64>,
    bool,
    bool,
);

pub open spec fn clear_keys() -> Seq<&'static str> {
    seq!["clear_amount", "clear_currency", "clear_sort_order"]
}

pub open spec fn update_estimate_fields(f: Seq<(String, JsonValue)>) -> Result<UpdateEstimateView, Seq<char>> {
    match object_member(f, "candidate_content"@) {
        None => Err("candidate_content object が必要です"@),
        Some(c) => {
            let has_amount = has_member(c, "amount"@);
            let has_currency = has_member(c, "currency"@);
            if first_null_key(c, update_estimate_null_keys(), 0) is Err {
                Err(first_null_key(c, update_estimate_null_keys(), 0)->Err_0)
            } else if first_given_key(c, clear_keys(), 0) is Some {
                Err("candidate_content."@ + first_given_key(c, clear_keys(), 0)->0 + " は update_estimate では未対応です"@)
            } else if estimate_id_field(c) is Err {
                Err(estimate_id_field(c)->Err_0)
            } else if has_currency && non_empty_text(member(c, "currency"@)) is None {
                Err("candidate_content.currency が必要です"@)
            } else if has_currency && !has_amount {
                Err("currency を変更する場合は amount も指定してください"@)
            } else if estimate_text_patch(c, "title"@) is Err {
                Err(estimate_text_patch(c, "title"@)->Err_0)
            } else if estimate_text_patch(c, "note"@) is Err {
                Err(estimate_text_patch(c, "note"@)->Err_0)
            } else if update_estimate_sort_order(member(c, "sort_order"@)) is Err {
                Err(update_estimate_sort_order(member(c, "sort_order"@))->Err_0)
            } else if clear_flag(c, "clear_title"@) is Err {
                Err(clear_flag(c, "clear_title"@)->Err_0)
            } else if clear_flag(c, "clear_note"@) is Err {
                Err(clear_flag(c, "clear_note"@)->Err_0)
            } else {
                let title = estimate_text_patch(c, "title"@)->Ok_0;
                let note = estimate_text_patch(c, "note"@)->Ok_0;
                let sort_order = update_estimate_sort_order(member(c, "sort_order"@))->Ok_0;
                let clear_title = clear_flag(c, "clear_title"@)->Ok_0;
                let clear_note = clear_flag(c, "clear_note"@)->Ok_0;
                if title is Some && clear_title {
                    Err("title と clear_title は同時に指定できません"@)
                } else if note is Some && clear_note {
                    Err("note と clear_note は同時に指定できません"@)
                } else if !(has_amount || has_currency || title is Some || note is Some || sort_order is Some
                    || clear_title || clear_note) {
                    Err("update_estimate には少なくとも 1 つの更新フィールドが必要です"@)
                } else {
                    Ok(
                        (
                            estimate_id_field(c)->Ok_0,
                            has_amount,
                            has_currency,
                            if has_currency {
                                non_empty_text(member(c, "currency"@))
                            } else {
                                None
                            },
                            title,
                            note,
                            sort_order,
                            clear_title,
                            clear_note,
                        ),
                    )
                }
            }
        },
    }
}

pub open spec fn patch_view(p: Option<UpdateFieldPatch<String>>) -> Option<Seq<char>> {
    match p {
        Some(x) => Some(x.value@),
        None => None,
    }
}

pub open spec fn update_estimate_view(x: crate::proposal::apply::ParsedUpdateEstimateFields) -> UpdateEstimateView {
    (
        x.estimate_id,
        x.has_amount,
        x.has_currency,
        opt_view(x.currency_text),
        patch_view(x.title),
        patch_view(x.note),
        x.sort_order,
        x.clear_title,
        x.clear_note,
    )
}

/// Reads an `update_estimate` candidate. The raw amount is kept (as a copy)
/// to be read once the currency is known.
pub fn parse_update_estimate_fields(fragment: &JsonMembers) -> (r: Result<
    crate::proposal::apply::ParsedUpdateEstimateFields,
    String,
>)
    ensures
        match r {
            Ok(x) => {
                &&& update_estimate_fields(fragment@) == Ok::<UpdateEstimateView, Seq<char>>(update_estimate_view(x))
                &&& match (x.amount_raw, member(object_member(fragment@, "candidate_content"@)->0, "amount"@)) {
                    (Some(a), Some(b)) => crate::json::same_json(b, a),
                    (None, None) => true,
                    _ => false,
                }
            },
            Err(e) => update_estimate_fields(fragment@) == Err::<UpdateEstimateView, Seq<char>>(e@),
        },
{
    let c = match candidate_members(fragment) {
        Some(c) => c,
        None => return Err(owned("candidate_content object が必要です")),
    };
    match reject_explicit_null_update_estimate_keys(c) {
        Err(e) => return Err(e),
        Ok(()) => {},
    }
    let clears: [&'static str; 3] = ["clear_amount", "clear_currency", "clear_sort_order"];
    assert(clears@ =~= clear_keys());
    match first_present_key(c, &clears) {
        Some(k) => {
            let mut m = owned("candidate_content.");
            push_str(&mut m, k);
            push_str(&mut m, " は update_estimate では未対応です");
            return Err(m);
        },
        None => {},
    }
    let estimate_id = match parse_estimate_id_field(c) {
        Ok(id) => id,
        Err(e) => return Err(e),
    };
    let amount_value = get_member(c, "amount");
    let has_amount = amount_value.is_some();
    let has_currency = crate::json::contains_key(c, "currency");
    let amount_raw = match amount_value {
        Some(v) => Some(crate::json::copy_json(v)),
        None => None,
    };
    let currency_text = if has_currency {
        match non_empty_string(get_member(c, "currency")) {
            Some(t) => Some(t),
            None => return Err(owned("candidate_content.currency が必要です")),
        }
    } else {
        None
    };
    if has_currency && !has_amount {
        return Err(owned("currency を変更する場合は amount も指定してください"));
    }
    let title = match patch_optional_estimate_text_field(c, "title") {
        Ok(t) => t,
        Err(e) => return Err(e),
    };
    let note = match patch_optional_estimate_text_field(c, "note") {
        Ok(t) => t,
        Err(e) => return Err(e),
    };
    let sort_order = match parse_update_estimate_sort_order_field(get_member(c, "sort_order")) {
        Ok(s) => s,
        Err(e) => return Err(e),
    };
    let clear_title = match parse_clear_flag_field(c, "clear_title") {
        Ok(b) => b,
        Err(e) => return Err(e),
    };
    let clear_note = match parse_clear_flag_field(c, "clear_note") {
        Ok(b) => b,
        Err(e) => return Err(e),
    };
    if title.is_some() && clear_title {
        return Err(owned("title と clear_title は同時に指定できません"));
    }
    if note.is_some() && clear_note {
        return Err(owned("note と clear_note は同時に指定できません"));
    }
    let has_update_field = has_amount || has_currency || title.is_some() || note.is_some() || sort_order.is_some()
        || clear_title || clear_note;
    if !has_update_field {
        return Err(owned("update_estimate には少なくとも 1 つの更新フィールドが必要です"));
    }
    Ok(
        crate::proposal::apply::ParsedUpdateEstimateFields {
            estimate_id,
            has_amount,
            amount_raw,
            has_currency,
            currency_text,
            title,
            note,
            sort_order,
            clear_title,
            clear_note,
        },
    )
}

// ---------------------------------------------------------------------------
// References to days and itineraries.

/// The day a fragment's target refers to; an error is reported when the
/// reference is missing, not an integer, or below 1.
pub fn day_reference_number(target: &JsonMembers, report: &mut crate::proposal::apply::FragmentApplyDryRunReport) -> (r:
    Option<i64>)
    ensures
        crate::proposal::apply::checks::same_but_errors(*old(report), *final(report)),
        match member(target@, "day_reference"@) {
            Some(v) => match as_i64(v) {
                Some(d) => if d >= 1 {
                    r == Some(d) && final(report).errors@ == old(report).errors@
                } else {
                    r is None && strings_view(final(report).errors@) == strings_view(old(report).errors@).push(
                        "target.day_reference ("@ + crate::text::int_decimal(d as int) + ") は 1 以上である必要があります"@,
                    )
                },
                None => r is None && strings_view(final(report).errors@) == strings_view(old(report).errors@).push(
                    "target.day_reference が必要です"@,
                ),
            },
            None => r is None && strings_view(final(report).errors@) == strings_view(old(report).errors@).push(
                "target.day_reference が必要です"@,
            ),
        },
{
    let day = match get_member(target, "day_reference") {
        Some(v) => match &v.kind {
            JsonKind::Number(n) => *n,
            _ => None,
        },
        None => None,
    };
    match day {
        Some(d) => {
            if d >= 1 {
                Some(d)
            } else {
                let mut m = owned("target.day_reference (");
                crate::text::push_i64_decimal(&mut m, d);
                push_str(&mut m, ") は 1 以上である必要があります");
                crate::text::push_string(&mut report.errors, m);
                None
            }
        },
        None => {
            crate::text::push_string(&mut report.errors, owned("target.day_reference が必要です"));
            None
        },
    }
}

/// An itinerary named in a reorder: by sort order or by title.
#[derive(Debug, PartialEq, Eq)]
pub enum ItineraryRefKey {
    Number(i64),
    Title(String),
}

pub open spec fn ref_view(k: ItineraryRefKey) -> Result<i64, Seq<char>> {
    match k {
        ItineraryRefKey::Number(n) => Ok(n),
        ItineraryRefKey::Title(t) => Err(t@),
    }
}

pub open spec fn msg_ref_element(field: Seq<char>) -> Seq<char> {
    "candidate_content."@ + field + " の要素は整数（sort_order）または文字列（title）である必要があります"@
}

/// One element of a reorder list (a sort order, or a non-blank title, trimmed).
pub open spec fn ref_of(v: JsonValue, field: Seq<char>) -> Result<Result<i64, Seq<char>>, Seq<char>> {
    match v.kind {
        JsonKind::Number(Some(n)) => Ok(Ok(n)),
        JsonKind::Str(t) => if crate::text::trim_seq(t@).len() == 0 {
            Err("candidate_content."@ + field + " に空文字が含まれています"@)
        } else {
            Ok(Err(crate::text::trim_seq(t@)))
        },
        _ => Err(msg_ref_element(field)),
    }
}

/// The references of the first `k` elements, or the first element's error.
pub open spec fn refs_upto(a: Seq<JsonValue>, field: Seq<char>, k: int) -> Result<Seq<Result<i64, Seq<char>>>, Seq<char>>
    decreases k,
{
    if k <= 0 {
        Ok(Seq::empty())
    } else {
        match refs_upto(a, field, k - 1) {
            Err(e) => Err(e),
            Ok(prev) => match ref_of(a[k - 1], field) {
                Err(e) => Err(e),
                Ok(r) => Ok(prev.push(r)),
            },
        }
    }
}

/// A reorder list: an array of references without repetitions.
pub open spec fn reorder_refs(v: JsonValue, field: Seq<char>) -> Result<Seq<Result<i64, Seq<char>>>, Seq<char>> {
    match crate::json::as_array(v) {
        None => Err("candidate_content."@ + field + " は配列である必要があります"@),
        Some(a) => match refs_upto(a, field, a.len() as int) {
            Err(e) => Err(e),
            Ok(refs) => if exists|i: int, j: int| 0 <= i < j < refs.len() && #[trigger] refs[i] == #[trigger] refs[j] {
                Err("candidate_content."@ + field + " に重複が含まれています"@)
            } else {
                Ok(refs)
            },
        },
    }
}

proof fn lemma_refs_error_stays(a: Seq<JsonValue>, field: Seq<char>, k: int, m: int)
    requires
        refs_upto(a, field, k) is Err,
        k <= m,
    ensures
        refs_upto(a, field, m) == refs_upto(a, field, k),
    decreases m - k,
{
    if k < m {
        lemma_refs_error_stays(a, field, k, m - 1);
    }
}

fn same_ref(a: &ItineraryRefKey, b: &ItineraryRefKey) -> (r: bool)
    ensures
        r == (ref_view(*a) == ref_view(*b)),
{
    match (a, b) {
        (ItineraryRefKey::Number(x), ItineraryRefKey::Number(y)) => *x == *y,
        (ItineraryRefKey::Title(x), ItineraryRefKey::Title(y)) => str_eq(x.as_str(), y.as_str()),
        _ => false,
    }
}

pub fn parse_reorder_order_refs(value: &JsonValue, field: &str) -> (r: Result<Vec<ItineraryRefKey>, String>)
    ensures
        match r {
            Ok(v) => reorder_refs(*value, field@) == Ok::<Seq<Result<i64, Seq<char>>>, Seq<char>>(
                v@.map_values(|k: ItineraryRefKey| ref_view(k)),
            ),
            Err(e) => reorder_refs(*value, field@) == Err::<Seq<Result<i64, Seq<char>>>, Seq<char>>(e@),
        },
{
    let arr = match &value.kind {
        JsonKind::Array(a) => a,
        _ => {
            let mut m = owned("candidate_content.");
            push_str(&mut m, field);
            push_str(&mut m, " は配列である必要があります");
            return Err(m);
        },
    };
    let mut out: Vec<ItineraryRefKey> = Vec::new();
    let mut i: usize = 0;
    assert(out@.map_values(|k: ItineraryRefKey| ref_view(k)) =~= Seq::<Result<i64, Seq<char>>>::empty());
    while i < arr.len()
        invariant
            i <= arr@.len(),
            value.kind == JsonKind::Array(*arr),
            refs_upto(arr@, field@, i as int) == Ok::<Seq<Result<i64, Seq<char>>>, Seq<char>>(
                out@.map_values(|k: ItineraryRefKey| ref_view(k)),
            ),
        decreases arr@.len() - i,
    {
        let item = &arr[i];
        let key = match &item.kind {
            JsonKind::Number(Some(n)) => ItineraryRefKey::Number(*n),
            JsonKind::Str(s) => {
                let needle = crate::text::str_trim(s.as_str());
                if needle.unicode_len() == 0 {
                    let mut m = owned("candidate_content.");
                    push_str(&mut m, field);
                    push_str(&mut m, " に空文字が含まれています");
                    proof {
                        lemma_refs_error_stays(arr@, field@, i + 1, arr@.len() as int);
                    }
                    return Err(m);
                }
                ItineraryRefKey::Title(owned(needle))
            },
            _ => {
                let mut m = owned("candidate_content.");
                push_str(&mut m, field);
                push_str(&mut m, " の要素は整数（sort_order）または文字列（title）である必要があります");
                proof {
                    lemma_refs_error_stays(arr@, field@, i + 1, arr@.len() as int);
                }
                return Err(m);
            },
        };
        let ghost before = out@;
        out.push(key);
        assert(out@.map_values(|k: ItineraryRefKey| ref_view(k)) =~= before.map_values(|k: ItineraryRefKey| ref_view(k)).push(
            ref_view(key),
        ));
        i = i + 1;
    }
    let ghost refs = out@.map_values(|k: ItineraryRefKey| ref_view(k));
    assert(refs_upto(arr@, field@, arr@.len() as int) == Ok::<Seq<Result<i64, Seq<char>>>, Seq<char>>(refs));
    let mut a: usize = 0;
    while a < out.len()
        invariant
            a <= out@.len(),
            refs == out@.map_values(|k: ItineraryRefKey| ref_view(k)),
            value.kind == JsonKind::Array(*arr),
            refs_upto(arr@, field@, arr@.len() as int) == Ok::<Seq<Result<i64, Seq<char>>>, Seq<char>>(refs),
            forall|x: int, y: int| 0 <= x < a && x < y < refs.len() ==> refs[x] != refs[y],
        decreases out@.len() - a,
    {
        let mut b: usize = a + 1;
        while b < out.len()
            invariant
                a < out@.len(),
                a + 1 <= b <= out@.len(),
                refs == out@.map_values(|k: ItineraryRefKey| ref_view(k)),
                value.kind == JsonKind::Array(*arr),
                refs_upto(arr@, field@, arr@.len() as int) == Ok::<Seq<Result<i64, Seq<char>>>, Seq<char>>(refs),
                forall|x: int, y: int| 0 <= x < a && x < y < refs.len() ==> refs[x] != refs[y],
                forall|y: int| a < y < b ==> refs[a as int] != refs[y],
            decreases out@.len() - b,
        {
            if same_ref(&out[a], &out[b]) {
                assert(refs[a as int] == refs[b as int]);
                let mut m = owned("candidate_content.");
                push_str(&mut m, field);
                push_str(&mut m, " に重複が含まれています");
                return Err(m);
            }
            b = b + 1;
        }
        a = a + 1;
    }
    assert(!(exists|x: int, y: int| 0 <= x < y < refs.len() && #[trigger] refs[x] == #[trigger] refs[y]));
    Ok(out)
}

} // verus!
