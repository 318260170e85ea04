use caglla::json::{JsonKind, JsonMembers, JsonValue};
use caglla::models::{Estimate, ExportItineraryV3};
use caglla::proposal::apply::fields::{
    collect_add_ordering_hint_warnings, detect_delete_estimate_baseline_conflicts,
    detect_update_estimate_baseline_conflicts, detect_update_itinerary_baseline_conflicts, parse_add_estimate_fields,
    parse_add_expense_fields, parse_add_note_fields, parse_delete_estimate_fields, parse_expense_amount_field,
    parse_optional_non_negative_i64, parse_travel_minutes_field, parse_update_estimate_fields,
    parse_update_travel_minutes_field, patch_optional_category_field, patch_optional_string_field,
    warn_unsupported_add_expense_candidate_keys, day_reference_number, parse_reorder_order_refs, ItineraryRefKey,
};
use caglla::proposal::apply::FragmentApplyDryRunReport;
use caglla::models::ItineraryCategory;
use caglla::proposal::materialize::build_export_days;

fn to_json(v: serde_json::Value) -> JsonValue {
    let rendered = v.to_string();
    let kind = match v {
        serde_json::Value::Null => JsonKind::Null,
        serde_json::Value::Bool(b) => JsonKind::Bool(b),
        serde_json::Value::Number(n) => JsonKind::Number(n.as_i64()),
        serde_json::Value::String(s) => JsonKind::Str(s),
        serde_json::Value::Array(a) => JsonKind::Array(a.into_iter().map(to_json).collect()),
        serde_json::Value::Object(o) => JsonKind::Object(o.into_iter().map(|(k, x)| (k, to_json(x))).collect()),
    };
    JsonValue { kind, rendered }
}

fn members(text: &str) -> JsonMembers {
    match to_json(serde_json::from_str(text).unwrap()).kind {
        JsonKind::Object(m) => m,
        _ => panic!("not an object"),
    }
}

fn estimate() -> Estimate {
    Estimate {
        id: 4,
        itinerary_id: 10,
        title: None,
        amount: 1500,
        currency: "JPY".to_string(),
        note: Some("cash".to_string()),
        sort_order: 2,
        created_at: String::new(),
        updated_at: "2026-03-01".to_string(),
    }
}

#[test]
fn non_negative_numbers() {
    let c = members(r#"{"a": 5, "b": -1, "c": "x", "d": 1.5}"#);
    let get = |k: &str| c.iter().find(|(key, _)| key == k).map(|(_, v)| v);
    assert_eq!(parse_optional_non_negative_i64(get("a"), "a").unwrap(), Some(5));
    assert_eq!(parse_optional_non_negative_i64(get("b"), "b").unwrap_err(), "b は 0 以上である必要があります");
    assert_eq!(parse_optional_non_negative_i64(get("c"), "c").unwrap_err(), "c は整数である必要があります");
    assert_eq!(parse_optional_non_negative_i64(get("d"), "d").unwrap_err(), "d は整数である必要があります");
    assert_eq!(parse_optional_non_negative_i64(None, "z").unwrap(), None);
}

#[test]
fn travel_minutes_spellings_must_agree() {
    assert_eq!(parse_travel_minutes_field(&members(r#"{"travel_time_minutes": 20}"#)).unwrap(), Some(20));
    assert_eq!(
        parse_travel_minutes_field(&members(r#"{"travel_minutes": 10, "travel_time_minutes": 20}"#)).unwrap_err(),
        "travel_minutes と travel_time_minutes が矛盾しています"
    );
    assert_eq!(parse_update_travel_minutes_field(&members(r#"{"travel": 15, "travel_minutes": 15}"#)).unwrap(), Some(15));
    assert!(parse_update_travel_minutes_field(&members(r#"{"travel": 15, "travel_time_minutes": 16}"#)).is_err());
    assert_eq!(parse_update_travel_minutes_field(&members("{}")).unwrap(), None);
}

#[test]
fn text_and_category_patches() {
    let c = members(r#"{"note": null, "location": "Naha", "title": 3, "category": "beach"}"#);
    assert_eq!(patch_optional_string_field(&c, "note").unwrap().unwrap().value, "");
    assert_eq!(patch_optional_string_field(&c, "location").unwrap().unwrap().value, "Naha");
    assert!(patch_optional_string_field(&c, "start_time").unwrap().is_none());
    assert_eq!(patch_optional_string_field(&c, "title").unwrap_err(), "candidate_content.title は文字列である必要があります");
    assert_eq!(patch_optional_category_field(&c).unwrap().unwrap().value, ItineraryCategory::Beach);
    assert!(patch_optional_category_field(&members(r#"{"category": "spa"}"#)).unwrap_err().starts_with("candidate_content.category が不正です: "));
}

#[test]
fn note_fields() {
    let f = members(r#"{"candidate_content": {"title": "Memo", "body": " Bring cash "}}"#);
    let note = parse_add_note_fields(&f).unwrap();
    assert_eq!((note.title.as_deref(), note.body.as_str()), (Some("Memo"), "Bring cash"));
    let f = members(r#"{"candidate_content": "Plain text"}"#);
    assert_eq!(parse_add_note_fields(&f).unwrap().body, "Plain text");
    let f = members(r#"{"candidate_content": {"body": ""}, "notes": "From notes"}"#);
    assert_eq!(parse_add_note_fields(&f).unwrap().body, "From notes");
    assert_eq!(
        parse_add_note_fields(&members("{}")).unwrap_err(),
        "add_note には candidate_content.body または fragment.notes が必要です"
    );
}

#[test]
fn expense_and_estimate_fields() {
    let f = members(r#"{"candidate_content": {"amount": "12.5", "currency": "usd", "label": "Taxi"}, "notes": "n"}"#);
    let e = parse_add_expense_fields(&f).unwrap();
    assert_eq!((e.amount, e.currency.as_str(), e.title.as_deref(), e.note.as_deref()), (1250, "USD", Some("Taxi"), Some("n")));
    let f = members(r#"{"candidate_content": {"amount": -3, "currency": "JPY"}}"#);
    assert_eq!(parse_add_expense_fields(&f).unwrap_err(), "candidate_content.amount は 0 以上である必要があります");
    let f = members(r#"{"candidate_content": {"amount": 3}}"#);
    assert_eq!(parse_add_expense_fields(&f).unwrap_err(), "candidate_content.currency が必要です");
    let f = members(r#"{"candidate_content": {"amount": 300, "currency": "JPY", "sort_order": 7, "memo": "m"}}"#);
    let est = parse_add_estimate_fields(&f).unwrap();
    assert_eq!((est.amount, est.sort_order, est.note.as_deref()), (300, 7, Some("m")));
    let f = members(r#"{"candidate_content": {"amount": 300, "currency": "JPY", "title": 1}}"#);
    assert_eq!(parse_add_estimate_fields(&f).unwrap_err(), "candidate_content.title は文字列である必要があります");
    let amount = to_json(serde_json::from_str("true").unwrap());
    assert_eq!(
        parse_expense_amount_field(Some(&amount), "JPY").unwrap_err(),
        "candidate_content.amount は数値または文字列である必要があります"
    );
}

#[test]
fn unsupported_key_warnings_are_listed_once() {
    let c = members(r#"{"amount": 1, "colour": "red", "currency": "JPY"}"#);
    let mut warnings = vec!["unsupported_field: candidate_content.colour は add_expense では未反映です".to_string()];
    warn_unsupported_add_expense_candidate_keys(&c, &mut warnings);
    assert_eq!(warnings.len(), 1);
    let mut fresh = Vec::new();
    let c = members(r#"{"sort_order": 1, "after": "x"}"#);
    collect_add_ordering_hint_warnings(&c, &members(r#"{"placement_hints": null}"#), &mut fresh);
    assert_eq!(fresh.len(), 2);
}

#[test]
fn baselines_compare_expected_values() {
    let it = ExportItineraryV3 {
        title: "Lunch".to_string(),
        note: None,
        start_time: Some("12:00".to_string()),
        sort_order: 1000,
        duration_minutes: Some(60),
        travel_minutes: None,
        location: None,
        category: None,
        expenses: Vec::new(),
        estimates: Vec::new(),
        reservations: Vec::new(),
    };
    assert!(detect_update_itinerary_baseline_conflicts(&members(r#"{"expected_title": "Lunch", "expected_note": "-"}"#), &it).is_ok());
    assert_eq!(
        detect_update_itinerary_baseline_conflicts(&members(r#"{"expected_duration_minutes": "90"}"#), &it).unwrap_err(),
        "baseline mismatch: expected_duration_minutes (90) が現行値 (60) と一致しません"
    );
    assert!(detect_update_estimate_baseline_conflicts(&members(r#"{"expected_amount": "1500", "expected_sort_order": "2"}"#), &estimate()).is_ok());
    assert!(detect_delete_estimate_baseline_conflicts(&members(r#"{"expected_updated_at": "2026-03-02"}"#), &estimate()).is_err());
}

#[test]
fn update_and_delete_estimate_fields() {
    let f = members(r#"{"candidate_content": {"estimate_id": 4, "amount": "2000", "currency": "jpy", "clear_title": true}}"#);
    let x = parse_update_estimate_fields(&f).unwrap();
    assert_eq!((x.estimate_id, x.has_amount, x.has_currency, x.clear_title), (4, true, true, true));
    assert_eq!(x.currency_text.as_deref(), Some("jpy"));
    assert!(matches!(x.amount_raw.map(|v| v.kind), Some(JsonKind::Str(s)) if s == "2000"));
    let f = members(r#"{"candidate_content": {"estimate_id": 4, "currency": "USD"}}"#);
    assert_eq!(parse_update_estimate_fields(&f).unwrap_err(), "currency を変更する場合は amount も指定してください");
    let f = members(r#"{"candidate_content": {"estimate_id": 4, "note": "x", "clear_note": true}}"#);
    assert_eq!(parse_update_estimate_fields(&f).unwrap_err(), "note と clear_note は同時に指定できません");
    let f = members(r#"{"candidate_content": {"estimate_id": 4}}"#);
    assert_eq!(parse_update_estimate_fields(&f).unwrap_err(), "update_estimate には少なくとも 1 つの更新フィールドが必要です");
    let f = members(r#"{"candidate_content": {"estimate_id": null}}"#);
    assert_eq!(parse_update_estimate_fields(&f).unwrap_err(), "candidate_content.estimate_id に null は指定できません");
    assert_eq!(parse_delete_estimate_fields(&members(r#"{"candidate_content": {"estimate_id": 9}}"#)).unwrap(), 9);
    assert_eq!(
        parse_delete_estimate_fields(&members(r#"{"candidate_content": {"estimate_id": 9, "amount": 1}}"#)).unwrap_err(),
        "candidate_content.amount は delete_estimate では指定できません"
    );
    assert_eq!(
        parse_delete_estimate_fields(&members(r#"{"candidate_content": {"estimate_id": 0}}"#)).unwrap_err(),
        "candidate_content.estimate_id は正の整数である必要があります"
    );
}

#[test]
fn export_days_follow_candidates() {
    let p = members(
        r#"{"candidate_days": [{"day_number": 2, "label": "Beach day"}, "oops", {"summary": "Arrival"}, {"day_number": 9}],
            "candidate_itineraries": [
              {"title": "Swim", "day_number": 2, "category": "beach"},
              {"title": "Dinner", "day_number": 2, "category": "dinner"},
              {"title": "", "day_number": 1},
              {"title": "Check in", "sort_order": 10},
              {"title": "Late", "day_number": 4}
            ]}"#,
    );
    let mut warnings = Vec::new();
    let days = build_export_days(&p, 3, &mut warnings);
    let numbers: Vec<i64> = days.iter().map(|d| d.day_number).collect();
    assert_eq!(numbers, vec![1, 2, 3]);
    assert_eq!(days[1].summary.as_deref(), Some("Beach day"));
    assert_eq!(days[2].summary.as_deref(), Some("Arrival"));
    let day2: Vec<(&str, i64)> = days[1].itineraries.iter().map(|i| (i.title.as_str(), i.sort_order)).collect();
    assert_eq!(day2, vec![("Swim", 1), ("Dinner", 2)]);
    assert_eq!(days[1].itineraries[0].category, Some(ItineraryCategory::Beach));
    assert_eq!(days[1].itineraries[1].category, None);
    assert_eq!(days[0].itineraries[0].sort_order, 10);
    assert_eq!(
        warnings,
        vec![
            "candidate_days[1] は object である必要があります — スキップしました",
            "candidate_days[3].day_number (9) が旅行期間外です — スキップしました",
            "candidate_itineraries[2].title が空です — スキップしました",
            "candidate_itineraries[4].day_number (4) が旅行期間外です — スキップしました",
        ]
    );
}

#[test]
fn reorder_refs_are_parsed_and_checked() {
    let v = to_json(serde_json::from_str(r#"[3, " 朝食 ", 1]"#).unwrap());
    assert_eq!(
        parse_reorder_order_refs(&v, "after_order").unwrap(),
        vec![ItineraryRefKey::Number(3), ItineraryRefKey::Title("朝食".to_string()), ItineraryRefKey::Number(1)]
    );
    let dup = to_json(serde_json::from_str(r#"["a", 2, " a"]"#).unwrap());
    assert_eq!(parse_reorder_order_refs(&dup, "after_order").unwrap_err(), "candidate_content.after_order に重複が含まれています");
    let empty = to_json(serde_json::from_str(r#"[1, "  "]"#).unwrap());
    assert_eq!(parse_reorder_order_refs(&empty, "expected_order").unwrap_err(), "candidate_content.expected_order に空文字が含まれています");
    let bad = to_json(serde_json::from_str(r#"[true]"#).unwrap());
    assert_eq!(
        parse_reorder_order_refs(&bad, "expected_order").unwrap_err(),
        "candidate_content.expected_order の要素は整数（sort_order）または文字列（title）である必要があります"
    );
    let not_array = to_json(serde_json::from_str(r#"{"a": 1}"#).unwrap());
    assert_eq!(parse_reorder_order_refs(&not_array, "after_order").unwrap_err(), "candidate_content.after_order は配列である必要があります");
    assert_eq!(parse_reorder_order_refs(&to_json(serde_json::Value::Array(Vec::new())), "after_order").unwrap(), vec![]);
}

#[test]
fn day_reference_must_be_positive() {
    let mut report = FragmentApplyDryRunReport::new("f.json", 1, true, false);
    assert_eq!(day_reference_number(&members(r#"{"day_reference": 2}"#), &mut report), Some(2));
    assert!(report.errors.is_empty());
    assert_eq!(day_reference_number(&members(r#"{"day_reference": 0}"#), &mut report), None);
    assert_eq!(day_reference_number(&members(r#"{"day_reference": "2"}"#), &mut report), None);
    assert_eq!(day_reference_number(&members(r#"{}"#), &mut report), None);
    assert_eq!(
        report.errors,
        vec![
            "target.day_reference (0) は 1 以上である必要があります".to_string(),
            "target.day_reference が必要です".to_string(),
            "target.day_reference が必要です".to_string(),
        ]
    );
}

#[test]
fn update_itinerary_baseline_conflict_detected() {
    let current = ExportItineraryV3 {
        title: "Morning temple".to_string(),
        note: None,
        start_time: None,
        sort_order: 1000,
        duration_minutes: None,
        travel_minutes: None,
        location: None,
        category: None,
        expenses: Vec::new(),
        estimates: Vec::new(),
        reservations: Vec::new(),
    };
    let candidate = members(r#"{"expected_title": "Wrong title"}"#);
    let error = detect_update_itinerary_baseline_conflicts(&candidate, &current).unwrap_err();
    assert!(error.contains("baseline mismatch"));
}
