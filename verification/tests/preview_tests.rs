use caglla::proposal::apply::reorder_confirm::{reorder_confirm_request, reorder_confirm_updates};
use caglla::proposal::apply::{FragmentApplyItineraryOrderChange, FragmentApplyReorderPreview};
use caglla::proposal::apply::revalidate::{
    revalidate_delete_estimate_before_write, revalidate_delete_itinerary_before_write,
    revalidate_update_estimate_before_write, revalidate_update_itinerary_before_write, verify_estimate_deleted,
};
use caglla::proposal::apply::{
    build_estimate_delete_preview, FragmentApplyBlockingChildren, FragmentApplyDeletePreview,
    FragmentApplyEstimateFieldChange, FragmentApplyItineraryFieldChange,
};
use caglla::proposal::apply::checks::{verify_estimate_preview_matches_fields, verify_update_estimate_gate_preview_matches};
use caglla::proposal::apply::confirm::{
    check_fragment_apply_mode, confirm_write_for, fragment_apply_outcome, record_confirm_result, ConfirmInsertResult,
    ConfirmWrite,
};
use caglla::proposal::apply::empty_preview_summary;
use caglla::json::{JsonKind, JsonMembers, JsonValue};
use caglla::models::{Estimate, ExportDayV3, ExportEstimateV3, ExportExpenseV3, ExportItineraryV3, ItineraryItem, Trip, TripExportV3};
use caglla::proposal::apply::additions::{
    fragment_candidate_title_of, lookup_itinerary_db_id_from_resolved, simulate_add_estimate_preview,
    simulate_add_expense_preview, simulate_add_itinerary_preview, simulate_add_note_preview, simulate_enrich_preview,
};
use caglla::proposal::apply::dispatch::{simulate_apply_preview, PreviewReads};
use caglla::proposal::apply::estimate_previews::{
    apply_delete_estimate_preview, apply_update_estimate_preview, compute_update_estimate_proposed,
    find_estimate_index_in_itinerary,
};
use caglla::proposal::apply::fields::parse_update_estimate_fields;
use caglla::proposal::apply::previews::resolve_itinerary_id_for_apply_target;
use caglla::proposal::apply::reservations::{parse_add_reservation_fields, simulate_add_reservation_preview};
use caglla::proposal::apply::{resolved_apply_target_to_fragment_target, FragmentApplyDryRunReport, ResolvedApplyTarget};

fn to_json(v: serde_json::Value) -> JsonValue {
    let rendered = v.to_string();
    let kind = match v {
        serde_json::Value::Null => JsonKind::Null,
        serde_json::Value::Bool(b) => JsonKind::Bool(b),
        serde_json::Value::Number(n) => JsonKind::Number(n.as_i64()),
        serde_json::Value::String(s) => JsonKind::Str(s),
        serde_json::Value::Array(a) => JsonKind::Array(a.into_iter().map(to_json).collect()),
        serde_json::Value::Object(o) => JsonKind::Object(o.into_iter().map(|(k, x)| (k, to_json(x))).collect()),
    };
    JsonValue { kind, rendered }
}

fn members(text: &str) -> JsonMembers {
    match to_json(serde_json::from_str(text).unwrap()).kind {
        JsonKind::Object(m) => m,
        _ => panic!("not an object"),
    }
}

fn row(id: i64, day: i64, title: &str, sort_order: i64) -> ItineraryItem {
    ItineraryItem {
        id,
        trip_id: 1,
        day,
        title: title.to_string(),
        note: None,
        start_time: None,
        sort_order,
        duration_minutes: None,
        travel_minutes: None,
        location: None,
        category: None,
        created_at: String::new(),
        updated_at: String::new(),
    }
}

fn item(title: &str, sort_order: i64) -> ExportItineraryV3 {
    ExportItineraryV3 {
        title: title.to_string(),
        note: None,
        start_time: None,
        sort_order,
        duration_minutes: None,
        travel_minutes: None,
        location: None,
        category: None,
        expenses: Vec::new(),
        estimates: Vec::new(),
        reservations: Vec::new(),
    }
}

fn expense(sort_order: i64) -> ExportExpenseV3 {
    ExportExpenseV3 {
        title: None,
        amount: 100,
        currency: "JPY".to_string(),
        paid_by_name: None,
        paid_by_participant_ref: None,
        beneficiaries: Vec::new(),
        expense_date: None,
        note: None,
        sort_order,
    }
}

fn export_estimate(title: &str) -> ExportEstimateV3 {
    ExportEstimateV3 { title: Some(title.to_string()), amount: 1500, currency: "JPY".to_string(), note: None, sort_order: 1 }
}

fn stored_estimate(id: i64, itinerary_id: i64) -> Estimate {
    Estimate {
        id,
        itinerary_id,
        title: Some("Tickets".to_string()),
        amount: 1500,
        currency: "JPY".to_string(),
        note: None,
        sort_order: 1,
        created_at: "2026-03-01".to_string(),
        updated_at: "2026-03-02".to_string(),
    }
}

fn export(days: Vec<ExportDayV3>) -> TripExportV3 {
    TripExportV3 {
        schema_version: Some(5),
        generator: None,
        generator_version: None,
        exported_at: None,
        trip: Trip {
            id: 1,
            name: "Trip".to_string(),
            start_date: Some("2026-05-01".to_string()),
            end_date: Some("2026-05-02".to_string()),
            summary: None,
            created_at: String::new(),
            updated_at: String::new(),
        },
        days,
        checklist_items: None,
        notes: None,
        participants: None,
    }
}

fn day(n: i64, items: Vec<ExportItineraryV3>) -> ExportDayV3 {
    ExportDayV3 { day_number: n, summary: None, itineraries: items }
}

fn target(target_type: &str, day: Option<i64>, sort_order: Option<i64>, title: Option<&str>) -> ResolvedApplyTarget {
    ResolvedApplyTarget {
        target_type: target_type.to_string(),
        trip_id: 1,
        trip_name: "Trip".to_string(),
        day_number: day,
        itinerary_sort_order: sort_order,
        itinerary_title: title.map(|t| t.to_string()),
        resolution: "resolved".to_string(),
    }
}

fn report() -> FragmentApplyDryRunReport {
    FragmentApplyDryRunReport::new("test.json", 1, true, false)
}

fn hhmm(t: &str) -> Result<(), String> {
    let b = t.as_bytes();
    if b.len() == 5 && b[2] == b':' { Ok(()) } else { Err(format!("bad time {t}")) }
}

fn known_type(t: &str) -> Result<String, String> {
    if t == "hotel" || t == "restaurant" { Ok(t.to_string()) } else { Err(format!("unknown type {t}")) }
}

fn provider(t: &str) -> Result<String, String> {
    Ok(t.trim().to_string())
}

fn tidy(t: &str) -> Option<String> {
    let t = t.trim();
    if t.is_empty() { None } else { Some(t.to_string()) }
}

#[test]
fn add_itinerary_appends_one_step_after_the_last() {
    let mut preview = export(vec![day(1, vec![item("Temple", 1000), item("Lunch", 2500)])]);
    let mut r = report();
    let f = members(r#"{"candidate_content": {"title": "Museum", "start_time": "14:00", "colour": "red"}}"#);
    let s = simulate_add_itinerary_preview(&mut preview, &target("day", Some(1), None, None), &f, "add", 2, Ok(2), &hhmm, &mut r)
        .unwrap();
    assert_eq!((s.action.as_str(), s.itineraries_after, s.candidate_title.as_deref()), ("add_itinerary", 3, Some("Museum")));
    let added = preview.days[0].itineraries.last().unwrap();
    assert_eq!((added.title.as_str(), added.sort_order, added.start_time.as_deref()), ("Museum", 3500, Some("14:00")));
    assert_eq!(r.warnings, vec!["unsupported_field: candidate_content.colour は add_itinerary では未反映です".to_string()]);
    let mut new_day = export(vec![]);
    let s = simulate_add_itinerary_preview(&mut new_day, &target("day", Some(2), None, None), &f, "add", 0, Ok(2), &hhmm, &mut r)
        .unwrap();
    assert_eq!((new_day.days.len(), new_day.days[0].day_number, new_day.days[0].itineraries[0].sort_order), (1, 2, 1000));
    assert_eq!(s.itineraries_after, 1);
    let err = simulate_add_itinerary_preview(&mut new_day, &target("day", Some(3), None, None), &f, "add", 1, Ok(2), &hhmm, &mut r)
        .unwrap_err();
    assert_eq!(err, "day_number (3) が旅行期間 (1..=2) の範囲外です");
    let bad = members(r#"{"candidate_content": {"title": "Museum", "start_time": "2pm"}}"#);
    assert!(simulate_add_itinerary_preview(&mut new_day, &target("day", Some(1), None, None), &bad, "add", 1, Ok(2), &hhmm, &mut r)
        .is_err());
}

#[test]
fn add_note_goes_to_the_trip_notes() {
    let mut preview = export(vec![]);
    let mut r = report();
    let f = members(r#"{"candidate_content": {"title": "Memo", "body": "Pack rain jacket."}}"#);
    let s = simulate_add_note_preview(&mut preview, &target("trip", None, None, None), &f, "add_note", 0, 0, &mut r).unwrap();
    assert_eq!((s.action.as_str(), s.notes_before, s.notes_after), ("add_note", Some(0), Some(1)));
    assert_eq!(preview.notes.as_ref().map(|n| n.len()), Some(1));
    let err = simulate_add_note_preview(&mut preview, &target("day", None, None, None), &f, "add_note", 0, 1, &mut r).unwrap_err();
    assert_eq!(err, "add_note の Day target が解決されていません");
    assert_eq!(preview.notes.as_ref().map(|n| n.len()), Some(1));
}

#[test]
fn add_expense_takes_the_next_sort_order() {
    let mut lunch = item("Lunch", 2000);
    lunch.expenses = vec![expense(1), expense(5)];
    let mut preview = export(vec![day(1, vec![item("Temple", 1000), lunch])]);
    let mut r = report();
    let f = members(r#"{"candidate_content": {"title": "Ramen", "amount": 1200, "currency": "jpy", "colour": "red"}}"#);
    let s = simulate_add_expense_preview(&mut preview, &target("itinerary", Some(1), Some(2000), Some("Lunch")), &f, "add_expense", 2, 2, Ok(2), &mut r)
        .unwrap();
    assert_eq!((s.expenses_before, s.expenses_after), (Some(2), Some(3)));
    let p = s.expense_preview.unwrap();
    assert_eq!((p.amount, p.currency.as_str(), p.title.as_deref()), (1200, "JPY", Some("Ramen")));
    let added = preview.days[0].itineraries[1].expenses.last().unwrap();
    assert_eq!((added.sort_order, added.amount), (6, 1200));
    assert_eq!(r.warnings, vec!["unsupported_field: candidate_content.colour は add_expense では未反映です".to_string()]);
    let err = simulate_add_expense_preview(&mut preview, &target("itinerary", Some(1), Some(9000), Some("X")), &f, "add_expense", 2, 3, Ok(2), &mut r)
        .unwrap_err();
    assert_eq!(err, "preview 内に itinerary (day 1, sort_order 9000) が見つかりません");
    let err = simulate_add_expense_preview(&mut preview, &target("day", Some(1), None, None), &f, "add_expense", 2, 3, Ok(2), &mut r)
        .unwrap_err();
    assert_eq!(err, "add_expense は itinerary target のみサポートしています（trip / day は未対応）");
    let err = simulate_add_expense_preview(&mut preview, &target("itinerary", Some(1), None, None), &f, "add_expense", 2, 3, Ok(2), &mut r)
        .unwrap_err();
    assert_eq!(err, "add_expense の Itinerary target が解決されていません（sort_order）");
}

#[test]
fn add_estimate_finds_the_itinerary_id() {
    let mut preview = export(vec![day(1, vec![item("Temple", 1000)])]);
    let mut r = report();
    let f = members(r#"{"candidate_content": {"amount": 300, "currency": "JPY", "sort_order": 7, "memo": "m"}}"#);
    let rows = vec![row(41, 1, "Temple", 1000)];
    let s = simulate_add_estimate_preview(&mut preview, &target("itinerary", Some(1), Some(1000), Some("Temple")), &f, "add_estimate", 1, 0, Ok(2), Ok(rows.clone()), &mut r)
        .unwrap();
    let p = s.estimate_preview.unwrap();
    assert_eq!((p.target_itinerary_id, p.target_itinerary_title.as_str(), p.amount, p.sort_order), (41, "Temple", 300, 7));
    assert_eq!((s.estimates_before, s.estimates_after), (Some(0), Some(1)));
    assert_eq!(preview.days[0].itineraries[0].estimates.len(), 1);
    let err = simulate_add_estimate_preview(&mut preview, &target("itinerary", Some(1), Some(2000), Some("Lunch")), &f, "add_estimate", 1, 1, Ok(2), Ok(rows), &mut r)
        .unwrap_err();
    assert_eq!(err, "target itinerary (day 1, sort_order 2000) の DB ID を解決できません");
    let err = lookup_itinerary_db_id_from_resolved(&target("itinerary", Some(1), Some(1000), None), Err("disk".to_string())).unwrap_err();
    assert_eq!(err, "Itinerary target の解決に失敗しました: disk");
}

#[test]
fn add_reservation_checks_type_and_provider() {
    let f = members(r#"{"candidate_content": {"type": "hotel", "provider_name": " Inn ", "memo": "late", "confirmation_code": "A1"}}"#);
    let x = parse_add_reservation_fields(&f, &known_type, &provider).unwrap();
    assert_eq!((x.reservation_type.as_str(), x.provider_name.as_str(), x.remark.as_deref(), x.confirmation_code.as_deref()), ("hotel", "Inn", Some("late"), Some("A1")));
    let bad = members(r#"{"candidate_content": {"type": "boat", "provider": "P"}}"#);
    assert_eq!(parse_add_reservation_fields(&bad, &known_type, &provider).unwrap_err(), "candidate_content.reservation_type が不正です: unknown type boat");
    let none = members(r#"{"candidate_content": {"type": "hotel"}}"#);
    assert_eq!(parse_add_reservation_fields(&none, &known_type, &provider).unwrap_err(), "candidate_content.provider が必要です");
    let mut preview = export(vec![day(1, vec![item("Temple", 1000)])]);
    let mut r = report();
    let s = simulate_add_reservation_preview(&mut preview, &target("itinerary", Some(1), Some(1000), Some("Temple")), &f, "add_reservation", 1, 0, Ok(2), &known_type, &provider, &mut r)
        .unwrap();
    assert_eq!((s.candidate_title.as_deref(), s.reservations_after), (Some("Inn"), Some(1)));
    assert_eq!(preview.days[0].itineraries[0].reservations[0].provider_name, "Inn");
}

#[test]
fn enrich_sets_the_day_summary_or_warns() {
    let mut preview = export(vec![day(1, vec![])]);
    let mut r = report();
    let f = members(r#"{"candidate_content": {"title": "Slow day", "summary": " Rest "}}"#);
    let s = simulate_enrich_preview(&mut preview, &target("day", Some(1), None, None), &f, "enrich", 0, Ok(2), &mut r).unwrap();
    assert_eq!((s.action.as_str(), s.candidate_title.as_deref()), ("enrich_preview", Some("Slow day")));
    assert_eq!(preview.days[0].summary.as_deref(), Some("Rest"));
    let none = members(r#"{"candidate_content": "just text"}"#);
    let s = simulate_enrich_preview(&mut preview, &target("day", Some(2), None, None), &none, "enrich", 0, Ok(2), &mut r).unwrap();
    assert_eq!(s.candidate_title.as_deref(), Some("just text"));
    assert_eq!(r.warnings, vec!["intent が enrich ですが candidate_content.summary がありません — preview は変更なし".to_string()]);
    simulate_enrich_preview(&mut preview, &target("trip", None, None, None), &f, "enrich", 0, Ok(2), &mut r).unwrap();
    assert_eq!(r.warnings.len(), 2);
    assert_eq!(preview.days.len(), 1);
    assert_eq!(fragment_candidate_title_of(&members(r#"{"candidate_content": {"title": "  "}}"#)), None);
}

#[test]
fn delete_estimate_removes_it_from_the_preview() {
    let mut temple = item("Temple", 1000);
    temple.estimates = vec![export_estimate("Tickets")];
    let mut preview = export(vec![day(1, vec![temple])]);
    let mut r = report();
    let rows = vec![row(10, 1, "Temple", 1000)];
    let f = members(r#"{"candidate_content": {"estimate_id": 4, "expected_amount": "1500"}}"#);
    let read = |id: i64| if id == 4 { Ok(stored_estimate(4, 10)) } else { Err(format!("no estimate {id}")) };
    let s = apply_delete_estimate_preview(&mut preview, &target("itinerary", Some(1), Some(1000), Some("Temple")), &f, "delete_estimate", 1, 1, Ok(2), Ok(rows.clone()), &read, Ok(vec![stored_estimate(4, 10)]), &mut r)
        .unwrap();
    let p = s.estimate_delete_preview.unwrap();
    assert_eq!((p.target_itinerary_id, p.target_estimate_id, p.amount, p.updated_at.as_str()), (10, 4, 1500, "2026-03-02"));
    assert_eq!((s.estimates_before, s.estimates_after), (Some(1), Some(0)));
    assert!(r.warnings.iter().any(|w| w.contains("hard delete")));
    assert!(preview.days[0].itineraries[0].estimates.is_empty());
    let other = |_: i64| Ok(stored_estimate(4, 99));
    let err = apply_delete_estimate_preview(&mut preview, &target("itinerary", Some(1), Some(1000), Some("Temple")), &f, "delete_estimate", 1, 0, Ok(2), Ok(rows.clone()), &other, Ok(vec![]), &mut r)
        .unwrap_err();
    assert_eq!(err, "Estimate 4 は Itinerary 10 配下ではありません");
    let missing = members(r#"{"candidate_content": {"estimate_id": 5}}"#);
    let err = apply_delete_estimate_preview(&mut preview, &target("itinerary", Some(1), Some(1000), Some("Temple")), &missing, "delete_estimate", 1, 0, Ok(2), Ok(rows.clone()), &read, Ok(vec![]), &mut r)
        .unwrap_err();
    assert!(err.starts_with("Estimate not found"));
    let stale = members(r#"{"candidate_content": {"estimate_id": 4, "expected_amount": "999"}}"#);
    assert!(apply_delete_estimate_preview(&mut preview, &target("itinerary", Some(1), Some(1000), Some("Temple")), &stale, "delete_estimate", 1, 0, Ok(2), Ok(rows), &read, Ok(vec![]), &mut r)
        .unwrap_err()
        .starts_with("baseline mismatch: expected_amount"));
}

#[test]
fn update_estimate_patches_the_preview_estimate() {
    let current = stored_estimate(4, 10);
    let f = members(r#"{"candidate_content": {"estimate_id": 4, "amount": "2000", "currency": "usd", "title": "  New  "}}"#);
    let x = parse_update_estimate_fields(&f).unwrap();
    let p = compute_update_estimate_proposed(&current, &x, &tidy).unwrap();
    assert_eq!((p.amount, p.currency.as_str(), p.title.as_deref(), p.sort_order), (200000, "USD", Some("New"), 1));
    let mut temple = item("Temple", 1000);
    temple.estimates = vec![export_estimate("Old")];
    let mut preview = export(vec![day(1, vec![temple])]);
    let mut r = report();
    let read = |_: i64| Ok(stored_estimate(4, 10));
    let s = apply_update_estimate_preview(&mut preview, &target("itinerary", Some(1), Some(1000), Some("Temple")), &f, "update_estimate", 1, 1, Ok(2), Ok(vec![row(10, 1, "Temple", 1000)]), &read, &tidy, Ok(vec![stored_estimate(4, 10)]), &mut r)
        .unwrap();
    assert_eq!((s.action.as_str(), s.candidate_title.as_deref()), ("update_estimate", Some("New")));
    let changes = s.estimate_field_changes.unwrap();
    assert_eq!(changes.iter().map(|c| c.field.as_str()).collect::<Vec<_>>(), vec!["amount", "currency", "title"]);
    let e = &preview.days[0].itineraries[0].estimates[0];
    assert_eq!((e.amount, e.currency.as_str(), e.title.as_deref()), (200000, "USD", Some("New")));
    let err = apply_update_estimate_preview(&mut preview, &target("itinerary", Some(1), Some(1000), Some("Temple")), &f, "update_estimate", 1, 1, Ok(2), Ok(vec![row(10, 1, "Temple", 1000)]), &read, &tidy, Ok(vec![stored_estimate(3, 10), stored_estimate(4, 10)]), &mut r)
        .unwrap_err();
    assert_eq!(err, "preview 内に estimate index 1 が見つかりません");
}

#[test]
fn estimate_positions_and_target_ids() {
    assert_eq!(find_estimate_index_in_itinerary(&Ok(vec![stored_estimate(3, 1), stored_estimate(8, 1)]), 8).unwrap(), 1);
    assert_eq!(find_estimate_index_in_itinerary(&Ok(vec![]), 8).unwrap_err(), "Estimate not found: 8");
    assert_eq!(find_estimate_index_in_itinerary(&Err("io".to_string()), 8).unwrap_err(), "Estimate 一覧の取得に失敗しました: io");
    let t = resolved_apply_target_to_fragment_target(&target("itinerary", Some(2), Some(500), Some("X")));
    assert_eq!(resolve_itinerary_id_for_apply_target(&t, Ok(vec![row(7, 2, "X", 500)])).unwrap(), 7);
    assert_eq!(
        resolve_itinerary_id_for_apply_target(&t, Ok(vec![])).unwrap_err(),
        "itinerary_reference (sort_order 500) が Day 2 に見つかりません"
    );
    let d = resolved_apply_target_to_fragment_target(&target("day", Some(2), None, None));
    assert_eq!(resolve_itinerary_id_for_apply_target(&d, Ok(vec![])).unwrap_err(), "itinerary target の apply のみサポートしています（現在: day）");
}

fn reads() -> PreviewReads {
    PreviewReads {
        day_count: Ok(2),
        day_items: Ok(vec![row(10, 1, "Temple", 1000)]),
        target_estimates: Ok(vec![]),
        day_ids: vec![(1, 100), (2, 200)],
        trip: Err("not read".to_string()),
        trip_day_count: Ok(2),
        trip_days: Vec::new(),
    }
}

#[test]
fn intents_choose_their_preview() {
    let read = |_: i64| Err("none".to_string());
    let mut preview = export(vec![day(1, vec![item("Temple", 1000)])]);
    let mut r = report();
    let f = members(r#"{"intent": "warning", "candidate_content": {"title": "Heads up"}}"#);
    let s = simulate_apply_preview(&mut preview, &target("trip", None, None, None), &f, "warning", 1, 0, 0, 0, 0, reads(), &hhmm, &known_type, &provider, &read, &tidy, &mut r)
        .unwrap();
    assert_eq!((s.action.as_str(), s.candidate_title.as_deref()), ("none", Some("Heads up")));
    let s = simulate_apply_preview(&mut preview, &target("trip", None, None, None), &f, "reorder_hint", 1, 0, 0, 0, 0, reads(), &hhmm, &known_type, &provider, &read, &tidy, &mut r)
        .unwrap();
    assert_eq!(s.action, "preview_only");
    assert_eq!(r.warnings, vec!["intent が reorder_hint です — v4.7.18 preview は構造変更をシミュレートしません".to_string()]);
    let err = simulate_apply_preview(&mut preview, &target("trip", None, None, None), &f, "merge", 1, 0, 0, 0, 0, reads(), &hhmm, &known_type, &provider, &read, &tidy, &mut r)
        .unwrap_err();
    assert_eq!(err, "未対応の intent です: merge");
    let add = members(r#"{"candidate_content": {"title": "Museum"}}"#);
    let s = simulate_apply_preview(&mut preview, &target("day", Some(1), None, None), &add, "add", 1, 0, 0, 0, 0, reads(), &hhmm, &known_type, &provider, &read, &tidy, &mut r)
        .unwrap();
    assert_eq!((s.action.as_str(), s.itineraries_after), ("add_itinerary", 2));
    let del = simulate_apply_preview(&mut preview, &target("itinerary", Some(1), Some(1000), Some("Temple")), &add, "delete_itinerary", 2, 0, 0, 0, 0, reads(), &hhmm, &known_type, &provider, &read, &tidy, &mut r)
        .unwrap();
    assert_eq!((del.action.as_str(), del.itineraries_after), ("delete_itinerary", 1));
}

#[test]
fn apply_modes_and_confirm_bookkeeping() {
    assert_eq!(check_fragment_apply_mode(false, false).unwrap_err(), "fragment apply には --dry-run または --confirm のいずれかが必要です");
    assert!(check_fragment_apply_mode(true, true).unwrap_err().starts_with("--dry-run と --confirm は併用できません"));
    assert!(check_fragment_apply_mode(false, true).is_ok());
    let mut r = FragmentApplyDryRunReport::new("test.json", 1, false, true);
    r.valid = true;
    assert_eq!(confirm_write_for(&r).unwrap_err(), "未対応の confirm action です: ");
    r.preview = Some(empty_preview_summary("move_itinerary", "move_itinerary", 3));
    assert_eq!(confirm_write_for(&r).unwrap(), ConfirmWrite::MoveItinerary);
    r.preview = Some(empty_preview_summary("warning", "none", 3));
    assert_eq!(confirm_write_for(&r).unwrap_err(), "未対応の confirm action です: none");
    record_confirm_result(&mut r, Ok(ConfirmInsertResult::MovedItinerary { itinerary_id: 7, updated_rows: 4 }));
    assert_eq!((r.moved_itinerary_id, r.moved_itinerary_updated_rows, r.valid), (Some(7), Some(4), true));
    assert!(fragment_apply_outcome(&r).is_ok());
    record_confirm_result(&mut r, Err("disk full".to_string()));
    assert_eq!((r.valid, r.errors.clone()), (false, vec!["disk full".to_string()]));
    assert_eq!(fragment_apply_outcome(&r).unwrap_err(), "fragment apply --confirm に失敗しました");
}

#[test]
fn previews_pass_the_confirm_gate_when_nothing_changed() {
    let mut preview = export(vec![day(1, vec![item("Temple", 1000)])]);
    let mut r = report();
    let f = members(r#"{"candidate_content": {"amount": "12.5", "currency": "usd", "title": "Tickets", "sort_order": 3}}"#);
    let s = simulate_add_estimate_preview(&mut preview, &target("itinerary", Some(1), Some(1000), Some("Temple")), &f, "add_estimate", 1, 0, Ok(2), Ok(vec![row(41, 1, "Temple", 1000)]), &mut r)
        .unwrap();
    let fields = caglla::proposal::apply::fields::parse_add_estimate_fields(&f).unwrap();
    assert!(verify_estimate_preview_matches_fields(&s.estimate_preview.unwrap(), &fields, 41).is_ok());

    let u = members(r#"{"candidate_content": {"estimate_id": 4, "note": " bring cash ", "sort_order": 9}}"#);
    let mut temple = item("Temple", 1000);
    temple.estimates = vec![export_estimate("Tickets")];
    let mut preview = export(vec![day(1, vec![temple])]);
    let read = |_: i64| Ok(stored_estimate(4, 10));
    let s = apply_update_estimate_preview(&mut preview, &target("itinerary", Some(1), Some(1000), Some("Temple")), &u, "update_estimate", 1, 1, Ok(2), Ok(vec![row(10, 1, "Temple", 1000)]), &read, &tidy, Ok(vec![stored_estimate(4, 10)]), &mut r)
        .unwrap();
    let x = parse_update_estimate_fields(&u).unwrap();
    let current = stored_estimate(4, 10);
    let p = compute_update_estimate_proposed(&current, &x, &tidy).unwrap();
    let recomputed = caglla::proposal::apply::build_update_estimate_field_changes(&current, &p, &x);
    let gate = s.estimate_update_preview.unwrap();
    let changes = s.estimate_field_changes.unwrap();
    assert!(verify_update_estimate_gate_preview_matches(&gate, &changes, 10, &x, &p, &recomputed).is_ok());
    assert!(verify_update_estimate_gate_preview_matches(&gate, &changes, 11, &x, &p, &recomputed).is_err());
}

#[test]
fn writes_are_checked_again_against_the_records() {
    let gate = build_estimate_delete_preview(10, "Temple".to_string(), &stored_estimate(4, 10));
    let empty = members("{}");
    assert!(revalidate_delete_estimate_before_write(Ok(stored_estimate(4, 10)), 4, 10, &empty, &gate).is_ok());
    let mut changed = stored_estimate(4, 10);
    changed.title = None;
    assert_eq!(
        revalidate_delete_estimate_before_write(Ok(changed), 4, 10, &empty, &gate).unwrap_err(),
        "TOCTOU mismatch: title の before (Some(\"Tickets\")) が現行 DB (None) と一致しません — DB 更新しません"
    );
    let mut moved = stored_estimate(4, 10);
    moved.amount = 99;
    assert_eq!(
        revalidate_delete_estimate_before_write(Ok(moved), 4, 10, &empty, &gate).unwrap_err(),
        "TOCTOU mismatch: amount の before (1500) が現行 DB (99) と一致しません — DB 更新しません"
    );
    assert_eq!(
        revalidate_delete_estimate_before_write(Err("gone".to_string()), 4, 10, &empty, &gate).unwrap_err(),
        "Estimate not found: gone"
    );
    assert!(verify_estimate_deleted(Err("gone".to_string()), 4).is_ok());
    assert_eq!(verify_estimate_deleted(Ok(stored_estimate(4, 10)), 4).unwrap_err(), "Estimate 4 が削除後も存在します — DB 更新しません");

    let change = |field: &str, before: &str| FragmentApplyEstimateFieldChange {
        field: field.to_string(),
        before: before.to_string(),
        after: String::new(),
    };
    assert!(revalidate_update_estimate_before_write(Ok(stored_estimate(4, 10)), 4, 10, &empty, &[change("amount", "1500")]).is_ok());
    assert_eq!(
        revalidate_update_estimate_before_write(Ok(stored_estimate(4, 10)), 4, 10, &empty, &[change("amount", "1200")]).unwrap_err(),
        "TOCTOU mismatch: estimate_field_changes.amount の before (1200) が現行 DB (1500) と一致しません — DB 更新しません"
    );
    assert_eq!(
        revalidate_update_estimate_before_write(Ok(stored_estimate(4, 11)), 4, 10, &empty, &[]).unwrap_err(),
        "Estimate 4 は Itinerary 10 配下ではありません"
    );

    let ichange = |field: &str, before: &str| FragmentApplyItineraryFieldChange {
        field: field.to_string(),
        before: before.to_string(),
        after: String::new(),
    };
    assert!(revalidate_update_itinerary_before_write(Ok(row(10, 1, "Temple", 1000)), &empty, &[ichange("title", "Temple")]).is_ok());
    assert_eq!(
        revalidate_update_itinerary_before_write(Ok(row(10, 1, "Shrine", 1000)), &empty, &[ichange("title", "Temple")]).unwrap_err(),
        "TOCTOU mismatch: itinerary_field_changes.title の before (Temple) が現行 DB (Shrine) と一致しません — DB 更新しません"
    );

    let none = FragmentApplyBlockingChildren { expenses: 0, estimates: 0, reservations: 0, notes: 0 };
    let expected = FragmentApplyDeletePreview {
        target_type: "itinerary".to_string(),
        itinerary_id: 10,
        title: "Temple".to_string(),
        day_number: 1,
        sort_order: 1000,
        blocking_children: none,
        non_blocking_relations: None,
    };
    assert!(revalidate_delete_itinerary_before_write(1, &expected, Ok(row(10, 1, "Temple", 1000)), Ok(none)).is_ok());
    assert_eq!(
        revalidate_delete_itinerary_before_write(1, &expected, Ok(row(10, 2, "Temple", 1000)), Ok(none)).unwrap_err(),
        "TOCTOU mismatch: day_number の before (1) が現行 DB (2) と一致しません — DB 更新しません"
    );
    let one = FragmentApplyBlockingChildren { notes: 1, ..none };
    assert_eq!(
        revalidate_delete_itinerary_before_write(1, &expected, Ok(row(10, 1, "Temple", 1000)), Ok(one)).unwrap_err(),
        "TOCTOU mismatch: blocking child が存在します（expenses: 0, estimates: 0, reservations: 0, notes: 1）— DB 更新しません"
    );
}

#[test]
fn reorder_confirm_decides_the_updates() {
    let change = |id: i64, before: i64, after: i64| FragmentApplyItineraryOrderChange {
        itinerary_id: id,
        title: String::new(),
        before_sort_order: before,
        after_sort_order: after,
    };
    let mut r = report();
    let json = r#"{"fragment": {"intent": "reorder_itinerary", "candidate_content": {"expected_order": [11, 12, 13], "after_order": [13, 11, 12]}}}"#;
    assert_eq!(reorder_confirm_request(&r, json).unwrap_err(), "reorder_itinerary confirm には preview が必要です");
    let mut s = empty_preview_summary("reorder_itinerary", "reorder_itinerary", 3);
    let changes = vec![change(13, 3000, 1000), change(11, 1000, 2000), change(12, 2000, 3000)];
    s.reorder_preview = Some(FragmentApplyReorderPreview { day_number: 1, itinerary_order_changes: Vec::new() });
    r.preview = Some(s);
    r.resolved_target = Some(resolved_apply_target_to_fragment_target(&target("day", Some(1), None, None)));
    let (d, expected, after) = reorder_confirm_request(&r, json).unwrap();
    assert_eq!((d, expected.len(), after.len()), (1, 3, 3));
    assert_eq!(reorder_confirm_request(&r, "{").unwrap_err(), "Fragment JSON の parse に失敗しました");
    let rows = vec![row(11, 1, "Temple", 1000), row(12, 1, "Lunch", 2000), row(13, 1, "Museum", 3000)];
    let trip = Trip {
        id: 1,
        name: "Trip".to_string(),
        start_date: Some("2026-05-01".to_string()),
        end_date: Some("2026-05-02".to_string()),
        summary: None,
        created_at: String::new(),
        updated_at: String::new(),
    };
    let updates = reorder_confirm_updates(1, Ok(rows.clone()), Ok(trip.clone()), Ok(2), &Vec::new(), &expected, &after, &changes).unwrap();
    assert_eq!(updates, vec![(11, 2000), (12, 3000), (13, 1000)]);
    let stale = vec![change(13, 3000, 2000)];
    assert_eq!(
        reorder_confirm_updates(1, Ok(rows.clone()), Ok(trip.clone()), Ok(2), &Vec::new(), &expected, &after, &stale).unwrap_err(),
        "TOCTOU mismatch: after_sort_order が gate preview と一致しません（itinerary_id 13）— DB 更新しません"
    );
    let moved = vec![row(12, 1, "Lunch", 2000), row(11, 1, "Temple", 1000), row(13, 1, "Museum", 3000)];
    assert_eq!(
        reorder_confirm_updates(1, Ok(moved), Ok(trip.clone()), Ok(2), &Vec::new(), &expected, &after, &changes).unwrap_err(),
        "TOCTOU mismatch: expected_order が現行 Day の順序と一致しません（baseline mismatch）— DB 更新しません"
    );
    assert_eq!(
        reorder_confirm_updates(1, Err("locked".to_string()), Ok(trip), Ok(2), &Vec::new(), &expected, &after, &changes).unwrap_err(),
        "Day itinerary の取得に失敗しました"
    );
}
