use caglla::proposal::apply::move_confirm::{move_confirm_writes, move_confirm_writes_checked, MoveItineraryUpdateKind};
use caglla::proposal::apply::resolved_apply_target_to_fragment_target;
use caglla::json::{JsonKind, JsonMembers, JsonValue};
use caglla::models::{
    ExportDayV3, ExportItineraryV3, ExportNote, ItineraryItem, ItineraryNoteKey, Trip, TripExport, TripExportMetadata, TripExportV3,
};
use caglla::proposal::apply::fields::ItineraryRefKey;
use caglla::proposal::apply::moving::{apply_move_itinerary_preview, compute_move_itinerary_plan};
use caglla::proposal::apply::order::{
    itinerary_title_exists_in_other_day, resolve_move_after_destination_order, resolve_reorder_order_in_day,
};
use caglla::proposal::apply::previews::apply_delete_itinerary_preview;
use caglla::proposal::apply::reorder::{apply_reorder_itinerary_preview, current_ids_in_sort_order, sorted_slots};
use caglla::proposal::apply::target::resolve_apply_target;
use caglla::proposal::apply::itinerary_fields::{apply_update_itinerary_preview, parse_add_itinerary_fields, parse_update_itinerary_fields};
use caglla::proposal::apply::{FragmentApplyDryRunReport, ResolvedApplyTarget};

fn to_json(v: serde_json::Value) -> JsonValue {
    let rendered = v.to_string();
    let kind = match v {
        serde_json::Value::Null => JsonKind::Null,
        serde_json::Value::Bool(b) => JsonKind::Bool(b),
        serde_json::Value::Number(n) => JsonKind::Number(n.as_i64()),
        serde_json::Value::String(s) => JsonKind::Str(s),
        serde_json::Value::Array(a) => JsonKind::Array(a.into_iter().map(to_json).collect()),
        serde_json::Value::Object(o) => JsonKind::Object(o.into_iter().map(|(k, x)| (k, to_json(x))).collect()),
    };
    JsonValue { kind, rendered }
}

fn members(text: &str) -> JsonMembers {
    match to_json(serde_json::from_str(text).unwrap()).kind {
        JsonKind::Object(m) => m,
        _ => panic!("not an object"),
    }
}

fn row(id: i64, day: i64, title: &str, sort_order: i64) -> ItineraryItem {
    ItineraryItem {
        id,
        trip_id: 1,
        day,
        title: title.to_string(),
        note: None,
        start_time: None,
        sort_order,
        duration_minutes: None,
        travel_minutes: None,
        location: None,
        category: None,
        created_at: String::new(),
        updated_at: String::new(),
    }
}

fn export_item(title: &str, sort_order: i64) -> ExportItineraryV3 {
    ExportItineraryV3 {
        title: title.to_string(),
        note: None,
        start_time: None,
        sort_order,
        duration_minutes: None,
        travel_minutes: None,
        location: None,
        category: None,
        expenses: Vec::new(),
        estimates: Vec::new(),
        reservations: Vec::new(),
    }
}

fn trip() -> Trip {
    Trip {
        id: 1,
        name: "Kyoto Trip".to_string(),
        start_date: Some("2026-05-01".to_string()),
        end_date: Some("2026-05-03".to_string()),
        summary: None,
        created_at: String::new(),
        updated_at: String::new(),
    }
}

fn export(days: Vec<ExportDayV3>, notes: Vec<ExportNote>) -> TripExportV3 {
    TripExportV3 {
        schema_version: Some(5),
        generator: None,
        generator_version: None,
        exported_at: None,
        trip: trip(),
        days,
        checklist_items: None,
        notes: Some(notes),
        participants: None,
    }
}

fn target(target_type: &str, day: Option<i64>, sort_order: Option<i64>, title: Option<&str>) -> ResolvedApplyTarget {
    ResolvedApplyTarget {
        target_type: target_type.to_string(),
        trip_id: 1,
        trip_name: "Kyoto Trip".to_string(),
        day_number: day,
        itinerary_sort_order: sort_order,
        itinerary_title: title.map(|t| t.to_string()),
        resolution: "resolved".to_string(),
    }
}

fn day1_rows() -> Vec<ItineraryItem> {
    vec![row(11, 1, "Temple", 1000), row(12, 1, "Lunch", 2000), row(13, 1, "Museum", 3000)]
}

fn day1_export() -> ExportDayV3 {
    ExportDayV3 {
        day_number: 1,
        summary: None,
        itineraries: vec![export_item("Temple", 1000), export_item("Lunch", 2000), export_item("Museum", 3000)],
    }
}

#[test]
fn order_references_resolve_by_id_sort_order_or_title() {
    let others = vec![(2, vec![row(21, 2, "Castle", 1000)])];
    let refs = vec![ItineraryRefKey::Number(13), ItineraryRefKey::Number(1000), ItineraryRefKey::Title("Lunch".to_string())];
    let r = resolve_reorder_order_in_day(&others, 1, 3, &day1_rows(), &refs, "after_order").unwrap();
    assert_eq!(r.iter().map(|x| (x.id, x.sort_order)).collect::<Vec<_>>(), vec![(13, 3000), (11, 1000), (12, 2000)]);
    let elsewhere = vec![ItineraryRefKey::Title("Castle".to_string())];
    assert_eq!(
        resolve_reorder_order_in_day(&others, 1, 3, &day1_rows(), &elsewhere, "after_order").unwrap_err(),
        "reorder_itinerary: cross-day move は未対応です（別 intent として defer）。after_order の itinerary_reference (title \"Castle\") は Day 1 ではなく別 Day に存在します — DB 更新しません"
    );
    let dup = vec![ItineraryRefKey::Number(11), ItineraryRefKey::Number(1000)];
    assert_eq!(
        resolve_reorder_order_in_day(&others, 1, 3, &day1_rows(), &dup, "expected_order").unwrap_err(),
        "reorder_itinerary: expected_order に同一 itinerary の重複参照が含まれています"
    );
    let missing = vec![ItineraryRefKey::Number(99)];
    assert_eq!(
        resolve_reorder_order_in_day(&others, 1, 3, &day1_rows(), &missing, "after_order").unwrap_err(),
        "reorder_itinerary: after_order の itinerary_reference (id/sort_order 99) が Day 1 に見つかりません"
    );
    let both = vec![row(1000, 1, "A", 5), row(7, 1, "B", 1000)];
    assert_eq!(
        resolve_reorder_order_in_day(&others, 1, 3, &both, &vec![ItineraryRefKey::Number(1000)], "after_order").unwrap_err(),
        "reorder_itinerary: after_order の数値 selector (1000) が itinerary_id と sort_order の両方に一致し曖昧です — DB 更新しません"
    );
    let moved = row(21, 2, "Castle", 1000);
    let dest = resolve_move_after_destination_order(&others, 1, 3, &day1_rows(), &moved, &vec![ItineraryRefKey::Title("Castle".to_string())], "after_destination_order").unwrap();
    assert_eq!(dest[0].id, 21);
}

#[test]
fn titles_on_other_days_count_only_within_the_trip() {
    let others = vec![(2, vec![row(21, 2, " Castle ", 1000)]), (9, vec![row(31, 9, "Harbour", 1000)])];
    assert!(itinerary_title_exists_in_other_day(&others, 1, 3, "Castle"));
    assert!(!itinerary_title_exists_in_other_day(&others, 2, 3, "Castle"));
    assert!(!itinerary_title_exists_in_other_day(&others, 1, 3, "Harbour"));
}

#[test]
fn current_order_and_slots_follow_sort_order() {
    let rows = vec![row(5, 1, "C", 3000), row(6, 1, "A", 1000), row(7, 1, "B", 2000)];
    assert_eq!(current_ids_in_sort_order(&rows), vec![6, 7, 5]);
    assert_eq!(sorted_slots(&rows), vec![1000, 2000, 3000]);
}

#[test]
fn reorder_preview_assigns_existing_slots_in_new_order() {
    let mut preview = export(vec![day1_export()], Vec::new());
    let fragment = members(
        r#"{"intent": "reorder_itinerary", "candidate_content": {"expected_order": [11, 12, 13], "after_order": [13, 11, 12]}}"#,
    );
    let s = apply_reorder_itinerary_preview(
        &mut preview,
        &target("day", Some(1), None, None),
        &fragment,
        "reorder_itinerary",
        3,
        Ok(3),
        Ok(day1_rows()),
        &Vec::new(),
    )
    .unwrap();
    let p = s.reorder_preview.unwrap();
    assert_eq!(p.day_number, 1);
    assert_eq!(
        p.itinerary_order_changes.iter().map(|c| (c.itinerary_id, c.before_sort_order, c.after_sort_order)).collect::<Vec<_>>(),
        vec![(13, 3000, 1000), (11, 1000, 2000), (12, 2000, 3000)]
    );
    assert_eq!(
        preview.days[0].itineraries.iter().map(|i| (i.title.as_str(), i.sort_order)).collect::<Vec<_>>(),
        vec![("Museum", 1000), ("Temple", 2000), ("Lunch", 3000)]
    );
}

#[test]
fn reorder_preview_refuses_stale_or_empty_orders() {
    let mut preview = export(vec![day1_export()], Vec::new());
    let before = preview.clone();
    let stale = members(r#"{"candidate_content": {"expected_order": [12, 11, 13], "after_order": [13, 11, 12]}}"#);
    assert_eq!(
        apply_reorder_itinerary_preview(&mut preview, &target("day", Some(1), None, None), &stale, "reorder_itinerary", 3, Ok(3), Ok(day1_rows()), &Vec::new()).unwrap_err(),
        "reorder_itinerary: expected_order が現行 Day の順序と一致しません（baseline mismatch）— DB 更新しません"
    );
    let noop = members(r#"{"candidate_content": {"expected_order": [11, 12, 13], "after_order": [11, 12, 13]}}"#);
    assert_eq!(
        apply_reorder_itinerary_preview(&mut preview, &target("day", Some(1), None, None), &noop, "reorder_itinerary", 3, Ok(3), Ok(day1_rows()), &Vec::new()).unwrap_err(),
        "reorder_itinerary: no-op reorder は許可されません"
    );
    let empty = members(r#"{"candidate_content": {"expected_order": [], "after_order": [11]}}"#);
    assert_eq!(
        apply_reorder_itinerary_preview(&mut preview, &target("day", Some(1), None, None), &empty, "reorder_itinerary", 3, Ok(3), Ok(day1_rows()), &Vec::new()).unwrap_err(),
        "candidate_content.expected_order は空にできません"
    );
    assert_eq!(
        apply_reorder_itinerary_preview(&mut preview, &target("trip", None, None, None), &noop, "reorder_itinerary", 3, Ok(3), Ok(day1_rows()), &Vec::new()).unwrap_err(),
        "reorder_itinerary は day target のみサポートしています（現在: trip）"
    );
    assert_eq!(preview, before);
}

fn move_candidate() -> JsonMembers {
    members(
        r#"{"from_day": 1, "to_day": 2, "expected_source_order": [11, 12, 13], "expected_destination_order": [21, 22],
            "after_source_order": [11, 13], "after_destination_order": [21, 12, 22]}"#,
    )
}

fn move_days() -> Vec<(i64, Vec<ItineraryItem>)> {
    vec![(1, day1_rows()), (2, vec![row(21, 2, "Castle", 1000), row(22, 2, "Dinner", 3000)])]
}

#[test]
fn move_plan_takes_the_midpoint_slot() {
    let plan = compute_move_itinerary_plan(1, 2000, &move_candidate(), &vec![(1, 101), (2, 102), (3, 103)], &Ok(trip()), &Ok(3), &move_days()).unwrap();
    assert_eq!((plan.from_day, plan.to_day, plan.to_day_id, plan.moved.id, plan.moved_after_sort), (1, 2, 102, 12, 2000));
    assert_eq!(plan.source_after_sort, vec![(11, 1000), (13, 2000)]);
    assert_eq!(
        plan.source_changes.iter().map(|c| (c.itinerary_id, c.after_day_number, c.after_sort_order)).collect::<Vec<_>>(),
        vec![(11, 1, 1000), (13, 1, 2000), (12, 2, 2000)]
    );
    assert_eq!(
        plan.destination_changes.iter().map(|c| (c.itinerary_id, c.before_sort_order, c.after_sort_order)).collect::<Vec<_>>(),
        vec![(21, 1000, 1000), (12, 2000, 2000), (22, 3000, 3000)]
    );
}

#[test]
fn move_plan_refuses_bad_requests() {
    let days = vec![(1, 101), (2, 102)];
    let same = members(r#"{"from_day": 1, "to_day": 1}"#);
    assert_eq!(
        compute_move_itinerary_plan(1, 2000, &same, &days, &Ok(trip()), &Ok(3), &move_days()).unwrap_err(),
        "move_itinerary: same-day move はサポートしていません — reorder_itinerary を使用してください"
    );
    let far = members(r#"{"from_day": 1, "to_day": 3}"#);
    assert_eq!(
        compute_move_itinerary_plan(1, 2000, &far, &days, &Ok(trip()), &Ok(3), &move_days()).unwrap_err(),
        "move_itinerary: destination Day 3 が存在しません"
    );
    let no_gap = vec![(1, day1_rows()), (2, vec![row(21, 2, "Castle", 1000), row(22, 2, "Dinner", 1001)])];
    assert_eq!(
        compute_move_itinerary_plan(1, 2000, &move_candidate(), &days, &Ok(trip()), &Ok(3), &no_gap).unwrap_err(),
        "move_itinerary: destination に安全な sort_order slot を生成できません（no gap）— DB 更新しません"
    );
    let head = members(
        r#"{"from_day": 1, "to_day": 2, "expected_source_order": [11, 12, 13], "expected_destination_order": [21, 22],
            "after_source_order": [11, 13], "after_destination_order": [12, 21, 22]}"#,
    );
    assert_eq!(
        compute_move_itinerary_plan(1, 2000, &head, &days, &Ok(trip()), &Ok(3), &move_days()).unwrap_err(),
        "move_itinerary: destination 先頭への挿入に必要な正の sort_order slot を生成できません — DB 更新しません"
    );
}

#[test]
fn move_preview_moves_the_itinerary_between_days() {
    let day2 = ExportDayV3 { day_number: 2, summary: None, itineraries: vec![export_item("Castle", 1000), export_item("Dinner", 3000)] };
    let mut preview = export(vec![day1_export(), day2], Vec::new());
    let fragment = members(
        r#"{"intent": "move_itinerary", "candidate_content": {"from_day": 1, "to_day": 2,
            "expected_source_order": [11, 12, 13], "expected_destination_order": [21, 22],
            "after_source_order": [11, 13], "after_destination_order": [21, 12, 22]}}"#,
    );
    let s = apply_move_itinerary_preview(
        &mut preview,
        &target("itinerary", Some(1), Some(2000), Some("Lunch")),
        &fragment,
        "move_itinerary",
        5,
        Ok(3),
        &vec![(1, 101), (2, 102)],
        &Ok(trip()),
        &Ok(3),
        &move_days(),
    )
    .unwrap();
    assert_eq!(s.action, "move_itinerary");
    assert_eq!(s.candidate_title.as_deref(), Some("Lunch"));
    let p = s.move_preview.unwrap();
    assert_eq!((p.itinerary_id, p.title.as_str(), p.from_day_number, p.to_day_number), (12, "Lunch", 1, 2));
    assert_eq!(
        preview.days[0].itineraries.iter().map(|i| (i.title.as_str(), i.sort_order)).collect::<Vec<_>>(),
        vec![("Temple", 1000), ("Museum", 2000)]
    );
    assert_eq!(
        preview.days[1].itineraries.iter().map(|i| (i.title.as_str(), i.sort_order)).collect::<Vec<_>>(),
        vec![("Castle", 1000), ("Lunch", 2000), ("Dinner", 3000)]
    );
}

#[test]
fn delete_preview_removes_itinerary_and_its_notes() {
    let note = ExportNote::Itinerary {
        itinerary_key: ItineraryNoteKey { day_number: 1, sort_order: 3000, start_time: None, title: "Museum".to_string() },
        title: None,
        body: "b".to_string(),
    };
    let mut preview = export(vec![day1_export()], vec![note]);
    let mut report = FragmentApplyDryRunReport::new("f.json", 1, true, false);
    let s = apply_delete_itinerary_preview(&mut preview, &target("itinerary", Some(1), Some(2000), Some("Lunch")), "delete_itinerary", 3, Ok(3), Ok(day1_rows()), &mut report).unwrap();
    let d = s.delete_preview.unwrap();
    assert_eq!((d.itinerary_id, d.title.as_str(), d.sort_order, d.blocking_children.notes), (12, "Lunch", 2000, 0));
    assert!(report.errors.is_empty());
    assert_eq!(s.itineraries_after, 2);
    assert_eq!(preview.days[0].itineraries.len(), 2);
    assert_eq!(preview.notes.as_ref().unwrap().len(), 1);
    let blocked = apply_delete_itinerary_preview(&mut preview, &target("itinerary", Some(1), Some(3000), Some("Museum")), "delete_itinerary", 2, Ok(3), Ok(day1_rows()), &mut report).unwrap();
    assert_eq!(blocked.delete_preview.unwrap().blocking_children.notes, 1);
    assert_eq!(report.errors.len(), 1);
}

#[test]
fn delete_preview_is_blocked_by_children() {
    let mut day = day1_export();
    day.itineraries[1].estimates.push(caglla::models::ExportEstimateV3 {
        title: None,
        amount: 500,
        currency: "JPY".to_string(),
        note: None,
        sort_order: 1,
    });
    let mut preview = export(vec![day], Vec::new());
    let before = preview.clone();
    let mut report = FragmentApplyDryRunReport::new("f.json", 1, true, false);
    let s = apply_delete_itinerary_preview(&mut preview, &target("itinerary", Some(1), Some(2000), Some("Lunch")), "delete_itinerary", 3, Ok(3), Ok(day1_rows()), &mut report).unwrap();
    assert_eq!(s.itineraries_after, 3);
    assert_eq!(report.errors, vec!["delete_itinerary は blocking child が存在します（expenses: 0, estimates: 1, reservations: 0, notes: 0）— DB 更新しません".to_string()]);
    assert_eq!(preview, before);
    let err = apply_delete_itinerary_preview(&mut preview, &target("trip", None, None, None), "delete_itinerary", 3, Ok(3), Ok(day1_rows()), &mut report).unwrap_err();
    assert!(err.contains("itinerary target"));
}

#[test]
fn targets_resolve_against_the_trip() {
    let days = vec![(1, 101), (2, 102)];
    let mut report = FragmentApplyDryRunReport::new("f.json", 1, true, false);
    let t = resolve_apply_target(1, "Kyoto Trip", &members(r#"{"target_type": "itinerary", "day_reference": 1, "itinerary_reference": " Lunch "}"#), &days, &move_days(), &mut report).unwrap().unwrap();
    assert_eq!((t.day_number, t.itinerary_sort_order, t.itinerary_title.as_deref()), (Some(1), Some(2000), Some("Lunch")));
    let t = resolve_apply_target(1, "Kyoto Trip", &members(r#"{"target_type": "day", "day_reference": 2}"#), &days, &move_days(), &mut report).unwrap().unwrap();
    assert_eq!((t.target_type.as_str(), t.day_number), ("day", Some(2)));
    assert!(report.errors.is_empty());
    assert!(resolve_apply_target(1, "Kyoto Trip", &members(r#"{"target_type": "day", "day_reference": 3}"#), &days, &move_days(), &mut report).is_err());
    assert!(resolve_apply_target(1, "Kyoto Trip", &members(r#"{"target_type": "unresolved"}"#), &days, &move_days(), &mut report).is_err());
    assert!(resolve_apply_target(1, "Kyoto Trip", &members(r#"{"target_type": "itinerary", "day_reference": 1, "itinerary_reference": 99}"#), &days, &move_days(), &mut report).is_err());
    assert_eq!(
        report.errors,
        vec![
            "target day_reference (3) が Trip 1 に存在しません".to_string(),
            "target が unresolved です — apply preview には Day / Itinerary の解決が必要です".to_string(),
            "itinerary_reference (id/sort_order 99) が Day 1 に見つかりません".to_string(),
        ]
    );
}

fn hhmm(t: &str) -> Result<(), String> {
    let ok = t.len() == 5 && t.as_bytes()[2] == b':' && t.chars().filter(|c| c.is_ascii_digit()).count() == 4;
    if ok { Ok(()) } else { Err(format!("時刻は HH:MM 形式で指定してください: {t}")) }
}

#[test]
fn update_itinerary_parse_requires_update_field() {
    let fragment = members(
        r#"{
          "intent": "update_itinerary",
          "candidate_content": { "expected_title": "Morning temple" }
        }"#,
    );
    let error = parse_update_itinerary_fields(&fragment, &hhmm).unwrap_err();
    assert!(error.contains("更新フィールド"));
}

#[test]
fn update_fields_read_every_spelling() {
    let f = parse_update_itinerary_fields(
        &members(r#"{"candidate_content": {"title": " Temple visit ", "note": null, "time": "09:30", "duration": 45, "travel": 10}}"#),
        &hhmm,
    )
    .unwrap();
    assert_eq!(f.title.as_deref(), Some("Temple visit"));
    assert_eq!(f.note.as_ref().map(|p| p.value.as_str()), Some(""));
    assert_eq!(f.start_time.as_ref().map(|p| p.value.as_str()), Some("09:30"));
    assert_eq!((f.duration_minutes, f.travel_minutes), (Some(45), Some(10)));
    assert_eq!(
        parse_update_itinerary_fields(&members(r#"{"candidate_content": {"start_time": "09:30", "time": "10:00"}}"#), &hhmm).unwrap_err(),
        "start_time と time が矛盾しています"
    );
    assert_eq!(
        parse_update_itinerary_fields(&members(r#"{"candidate_content": {"start_time": "9.30"}}"#), &hhmm).unwrap_err(),
        "時刻は HH:MM 形式で指定してください: 9.30"
    );
    let cleared = parse_update_itinerary_fields(&members(r#"{"candidate_content": {"start_time": null}}"#), &hhmm).unwrap();
    assert_eq!(cleared.start_time.map(|p| p.value), Some(String::new()));
}

#[test]
fn add_itinerary_fields_need_a_title() {
    let f = parse_add_itinerary_fields(
        &members(r#"{"notes": " memo ", "candidate_content": {"title": "Lunch", "category": "restaurant", "start_time": "12:00", "travel_time_minutes": 15}}"#),
        &hhmm,
    )
    .unwrap();
    assert_eq!((f.title.as_str(), f.note.as_deref(), f.start_time.as_deref(), f.travel_minutes), ("Lunch", Some("memo"), Some("12:00"), Some(15)));
    assert_eq!(
        parse_add_itinerary_fields(&members(r#"{"candidate_content": {"title": "  "}}"#), &hhmm).unwrap_err(),
        "candidate_content.title が必要です"
    );
    assert!(parse_add_itinerary_fields(&members(r#"{"candidate_content": {"title": "Lunch", "category": "party"}}"#), &hhmm)
        .unwrap_err()
        .starts_with("candidate_content.category が不正です: "));
}

#[test]
fn update_preview_patches_the_itinerary() {
    let mut preview = export(vec![day1_export()], Vec::new());
    let mut report = FragmentApplyDryRunReport::new("f.json", 1, true, false);
    let fragment = members(r#"{"intent": "update_itinerary", "candidate_content": {"expected_title": "Lunch", "title": "Long lunch", "duration_minutes": 90, "mood": "happy"}}"#);
    let s = apply_update_itinerary_preview(&mut preview, &target("itinerary", Some(1), Some(2000), Some("Lunch")), &fragment, "update_itinerary", 3, Ok(3), &hhmm, &mut report).unwrap();
    assert_eq!(s.candidate_title.as_deref(), Some("Long lunch"));
    let changes = s.itinerary_field_changes.unwrap();
    assert_eq!(changes.iter().map(|c| c.field.as_str()).collect::<Vec<_>>(), vec!["title", "duration_minutes"]);
    assert_eq!(preview.days[0].itineraries[1].title, "Long lunch");
    assert_eq!(preview.days[0].itineraries[1].duration_minutes, Some(90));
    assert_eq!(report.warnings.len(), 1);
    let stale = members(r#"{"candidate_content": {"expected_title": "Breakfast", "title": "X"}}"#);
    assert!(apply_update_itinerary_preview(&mut preview, &target("itinerary", Some(1), Some(2000), None), &stale, "update_itinerary", 3, Ok(3), &hhmm, &mut report)
        .unwrap_err()
        .contains("baseline mismatch"));
}

#[test]
fn move_confirm_writes_what_the_preview_showed() {
    let day2 = ExportDayV3 { day_number: 2, summary: None, itineraries: vec![export_item("Castle", 1000), export_item("Dinner", 3000)] };
    let mut preview = export(vec![day1_export(), day2], Vec::new());
    let body = r#"{"intent": "move_itinerary", "candidate_content": {"from_day": 1, "to_day": 2,
            "expected_source_order": [11, 12, 13], "expected_destination_order": [21, 22],
            "after_source_order": [11, 13], "after_destination_order": [21, 12, 22]}}"#;
    let resolved = target("itinerary", Some(1), Some(2000), Some("Lunch"));
    let s = apply_move_itinerary_preview(&mut preview, &resolved, &members(body), "move_itinerary", 5, Ok(3), &vec![(1, 101), (2, 102)], &Ok(trip()), &Ok(3), &move_days())
        .unwrap();
    let mut report = FragmentApplyDryRunReport::new("f.json", 1, false, true);
    report.preview = Some(s);
    report.resolved_target = Some(resolved_apply_target_to_fragment_target(&resolved));
    let json = format!(r#"{{"fragment": {body}}}"#);
    let (plan, updates) = move_confirm_writes(&report, &json, &vec![(1, 101), (2, 102)], &Ok(trip()), &Ok(3), &move_days()).unwrap();
    assert_eq!(plan.moved.id, 12);
    assert_eq!(plan.moved.day, plan.from_day);
    assert_eq!(updates, vec![(MoveItineraryUpdateKind::SourceSort, 13, 2000, 1), (MoveItineraryUpdateKind::Moved, 12, 2000, 1)]);
    let shifted = vec![(1, day1_rows()), (2, vec![row(21, 2, "Castle", 1000), row(22, 2, "Dinner", 5000)])];
    assert!(move_confirm_writes(&report, &json, &vec![(1, 101), (2, 102)], &Ok(trip()), &Ok(3), &shifted)
        .unwrap_err()
        .starts_with("TOCTOU mismatch"));
    let checked = move_confirm_writes_checked(&report, &json, &vec![(1, 101), (2, 102)], &Ok(trip()), &Ok(3), &move_days());
    assert_eq!(checked.unwrap().unwrap().0.moved.id, 12);
    let huge = vec![(1, day1_rows()), (2, vec![row(21, 2, "Castle", i64::MAX - 10), row(22, 2, "Dinner", i64::MAX)])];
    assert!(move_confirm_writes_checked(&report, &json, &vec![(1, 101), (2, 102)], &Ok(trip()), &Ok(3), &huge).is_none());
    report.preview = None;
    assert_eq!(
        move_confirm_writes(&report, &json, &vec![(1, 101), (2, 102)], &Ok(trip()), &Ok(3), &move_days()).unwrap_err(),
        "move_itinerary confirm には preview が必要です"
    );
}

#[test]
fn reorder_confirm_accepts_the_previewed_changes() {
    let mut preview = export(vec![day1_export()], Vec::new());
    let body = r#"{"intent": "reorder_itinerary", "candidate_content": {"expected_order": [11, 12, 13], "after_order": [13, 11, 12]}}"#;
    let s = apply_reorder_itinerary_preview(&mut preview, &target("day", Some(1), None, None), &members(body), "reorder_itinerary", 3, Ok(3), Ok(day1_rows()), &Vec::new())
        .unwrap();
    let changes = s.reorder_preview.unwrap().itinerary_order_changes;
    let fragment = members(body);
    let candidate = match &fragment.iter().find(|(k, _)| k == "candidate_content").unwrap().1.kind {
        JsonKind::Object(m) => m.clone(),
        _ => panic!("candidate"),
    };
    let refs = |key: &str| {
        let v = &candidate.iter().find(|(k, _)| k == key).unwrap().1;
        caglla::proposal::apply::fields::parse_reorder_order_refs(v, key).unwrap()
    };
    let updates = caglla::proposal::apply::reorder_confirm::reorder_confirm_updates(
        1,
        Ok(day1_rows()),
        Ok(trip()),
        Ok(3),
        &Vec::new(),
        &refs("expected_order"),
        &refs("after_order"),
        &changes,
    )
    .unwrap();
    assert_eq!(updates, vec![(11, 2000), (12, 3000), (13, 1000)]);
}

#[test]
fn export_metadata_tells_absent_from_null() {
    let root = to_json(serde_json::from_str(r#"{"generator": "caglla", "exported_at": null}"#).unwrap());
    let export = TripExport {
        schema_version: Some(1),
        generator: Some("caglla".to_string()),
        generator_version: None,
        exported_at: None,
        trip: trip(),
        itinerary_items: Vec::new(),
        checklist_items: None,
        notes: None,
        day_summaries: Vec::new(),
        reservations: Vec::new(),
        participants: Vec::new(),
        expenses: Vec::new(),
    };
    let m = TripExportMetadata::from_parsed(&root, &export);
    assert!(m.generator_present && !m.generator_version_present && m.exported_at_present);
    assert_eq!(m.display_generator(), "caglla");
    assert_eq!(m.display_generator_version(), "不明");
    assert_eq!(m.display_exported_at(), "-");
}
