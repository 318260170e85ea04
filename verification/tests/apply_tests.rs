use caglla::models::{
    Estimate, ExportDayV3, ExportItineraryV3, ExportNote, ItineraryCategory, ItineraryNoteKey, Trip, TripExportV3,
};
use caglla::proposal::apply::checks::{
    estimate_delete_snapshot_agreement_fields_match, validate_confirm_scope, verify_estimate_preview_matches_fields,
    verify_updated_estimate_matches_proposed,
};
use caglla::proposal::apply::{
    append_sort_order_for_export_day, apply_update_itinerary_patch, build_export_note_from_add_fields,
    build_update_estimate_field_changes, build_update_itinerary_field_changes, count_itineraries,
    count_itinerary_notes_in_export, ensure_day_in_range, export_itinerary_field_display, find_or_create_day,
    lookup_itinerary_in_export, push_unique, remove_itinerary_from_export, remove_itinerary_notes_from_export,
    FragmentApplyDryRunReport, FragmentApplyEstimateDeletePreview, FragmentApplyEstimatePreview,
    FragmentApplyPreviewSummary, ParsedAddEstimateFields, ParsedAddNoteFields, ParsedUpdateEstimateFields,
    ParsedUpdateItineraryFields, ResolvedApplyTarget, UpdateFieldPatch,
};
use caglla::json::{JsonKind, JsonValue};
use caglla::proposal::apply::{collect_required_decisions, find_itinerary_mut_in_export_day, move_itinerary_in_export_preview};
use caglla::proposal::materialize::{has_adoptable_content, needs_date_decision, resolve_materialize_dates, ProposalMaterializeParams};
use std::collections::HashMap;

fn text(s: &str) -> JsonValue {
    JsonValue { kind: JsonKind::Str(s.to_string()), rendered: format!("{s:?}") }
}

fn texts(items: &[&str]) -> JsonValue {
    JsonValue { kind: JsonKind::Array(items.iter().map(|s| text(s)).collect()), rendered: String::new() }
}

fn object(members: Vec<(&str, JsonValue)>) -> JsonValue {
    JsonValue {
        kind: JsonKind::Object(members.into_iter().map(|(k, v)| (k.to_string(), v)).collect()),
        rendered: String::new(),
    }
}

fn boolean(b: bool) -> JsonValue {
    JsonValue { kind: JsonKind::Bool(b), rendered: b.to_string() }
}

fn members(v: JsonValue) -> Vec<(String, JsonValue)> {
    match v.kind {
        JsonKind::Object(m) => m,
        _ => panic!("not an object"),
    }
}

fn estimate(amount: i64) -> Estimate {
    Estimate {
        id: 1,
        itinerary_id: 10,
        title: Some("Title".to_string()),
        amount,
        currency: "USD".to_string(),
        note: Some("Note".to_string()),
        sort_order: 1,
        created_at: "2026-01-01T00:00:00Z".to_string(),
        updated_at: "2026-01-01T00:00:00Z".to_string(),
    }
}

fn item(title: &str, sort_order: i64) -> ExportItineraryV3 {
    ExportItineraryV3 {
        title: title.to_string(),
        note: None,
        start_time: Some("09:00".to_string()),
        sort_order,
        duration_minutes: Some(60),
        travel_minutes: None,
        location: None,
        category: None,
        expenses: Vec::new(),
        estimates: Vec::new(),
        reservations: Vec::new(),
    }
}

fn export_with(days: Vec<ExportDayV3>, notes: Vec<ExportNote>) -> TripExportV3 {
    TripExportV3 {
        schema_version: Some(5),
        generator: None,
        generator_version: None,
        exported_at: None,
        trip: Trip {
            id: 1,
            name: "Trip".to_string(),
            start_date: Some("2026-05-01".to_string()),
            end_date: Some("2026-05-03".to_string()),
            summary: None,
            created_at: String::new(),
            updated_at: String::new(),
        },
        days,
        checklist_items: None,
        notes: Some(notes),
        participants: None,
    }
}

fn itinerary_note(day: i64, sort_order: i64) -> ExportNote {
    ExportNote::Itinerary {
        itinerary_key: ItineraryNoteKey { day_number: day, sort_order, start_time: None, title: "x".to_string() },
        title: None,
        body: "b".to_string(),
    }
}

fn empty_preview(action: &str) -> FragmentApplyPreviewSummary {
    FragmentApplyPreviewSummary {
        intent: action.to_string(),
        action: action.to_string(),
        candidate_title: None,
        itineraries_before: 0,
        itineraries_after: 0,
        notes_before: None,
        notes_after: None,
        expenses_before: None,
        expenses_after: None,
        expense_preview: None,
        estimates_before: None,
        estimates_after: None,
        estimate_preview: None,
        estimate_update_preview: None,
        estimate_field_changes: None,
        estimate_delete_preview: None,
        reservations_before: None,
        reservations_after: None,
        reservation_preview: None,
        itinerary_field_changes: None,
        reorder_preview: None,
        move_preview: None,
        delete_preview: None,
    }
}

fn resolved(target_type: &str) -> ResolvedApplyTarget {
    ResolvedApplyTarget {
        target_type: target_type.to_string(),
        trip_id: 1,
        trip_name: "Trip".to_string(),
        day_number: Some(2),
        itinerary_sort_order: Some(1000),
        itinerary_title: Some("Lunch".to_string()),
        resolution: "resolved".to_string(),
    }
}

#[test]
fn verify_updated_estimate_matches_proposed_rejects_amount_mismatch() {
    let stored = estimate(1300);
    let proposed = Estimate { amount: 1250, ..stored.clone() };
    let error = verify_updated_estimate_matches_proposed(&stored, 10, &proposed).unwrap_err();
    assert!(error.contains("amount"));
    assert!(error.contains("DB 更新しません"));
}

#[test]
fn updated_estimate_check_reports_first_mismatch_exactly() {
    let stored = estimate(1300);
    assert!(verify_updated_estimate_matches_proposed(&stored, 10, &stored.clone()).is_ok());
    let error = verify_updated_estimate_matches_proposed(&stored, 11, &stored.clone()).unwrap_err();
    assert_eq!(error, "updated estimate の itinerary_id (10) が期待値 (11) と一致しません — DB 更新しません");
}

#[test]
fn estimate_preview_check_compares_fields_in_order() {
    let preview = FragmentApplyEstimatePreview {
        target_itinerary_id: 10,
        target_itinerary_title: "Lunch".to_string(),
        amount: 500,
        currency: "JPY".to_string(),
        title: None,
        note: None,
        sort_order: 2,
    };
    let fields = ParsedAddEstimateFields { title: None, amount: 500, currency: "JPY".to_string(), note: None, sort_order: 2 };
    assert!(verify_estimate_preview_matches_fields(&preview, &fields, 10).is_ok());
    let fields = ParsedAddEstimateFields { title: None, amount: 500, currency: "USD".to_string(), note: None, sort_order: 3 };
    assert_eq!(
        verify_estimate_preview_matches_fields(&preview, &fields, 10).unwrap_err(),
        "gate preview と currency が一致しません（preview: JPY, parsed: USD）— DB 更新しません"
    );
}

#[test]
fn delete_snapshot_agrees_with_itself() {
    let snap = FragmentApplyEstimateDeletePreview {
        target_itinerary_id: 1,
        target_itinerary_title: "t".to_string(),
        target_estimate_id: 2,
        title: None,
        amount: 3,
        currency: "EUR".to_string(),
        note: None,
        sort_order: 4,
        updated_at: "u".to_string(),
    };
    assert!(estimate_delete_snapshot_agreement_fields_match(&snap, &snap).is_ok());
}

#[test]
fn confirm_scope_checks_target_and_preview() {
    let mut report = FragmentApplyDryRunReport::new("f.json", 1, false, true);
    assert!(validate_confirm_scope(&resolved("day"), "add", &empty_preview("add_itinerary"), &mut report));
    assert!(report.errors.is_empty());
    assert!(!validate_confirm_scope(&resolved("trip"), "add_expense", &empty_preview("add_expense"), &mut report));
    assert_eq!(
        report.errors,
        vec!["v4.7.25 --confirm は itinerary target + add_expense のみサポートしています（現在: target_type=trip）".to_string()]
    );
    let mut report = FragmentApplyDryRunReport::new("f.json", 1, false, true);
    assert!(!validate_confirm_scope(&resolved("itinerary"), "delete_itinerary", &empty_preview("delete_itinerary"), &mut report));
    assert_eq!(report.errors, vec!["delete_itinerary confirm には delete_preview が必要です".to_string()]);
    let mut report = FragmentApplyDryRunReport::new("f.json", 1, false, true);
    report.required_decisions.push("pick".to_string());
    assert!(!validate_confirm_scope(&resolved("day"), "add", &empty_preview("add_itinerary"), &mut report));
    assert_eq!(report.errors, vec!["required decisions が未解決です — DB 更新しません".to_string()]);
    let mut report = FragmentApplyDryRunReport::new("f.json", 1, false, true);
    assert!(!validate_confirm_scope(&resolved("day"), "enrich", &empty_preview("enrich"), &mut report));
    assert!(report.errors[0].ends_with("（現在: intent=enrich, action=enrich）"));
}

#[test]
fn push_unique_skips_duplicates() {
    let mut items = vec!["a".to_string()];
    push_unique(&mut items, "b".to_string());
    push_unique(&mut items, "a".to_string());
    push_unique(&mut items, "b".to_string());
    assert_eq!(items, vec!["a".to_string(), "b".to_string()]);
}

#[test]
fn appended_sort_order_follows_largest() {
    let day = ExportDayV3 { day_number: 1, summary: None, itineraries: vec![item("a", 3000), item("b", 1000)] };
    assert_eq!(append_sort_order_for_export_day(&day), 4000);
    let empty = ExportDayV3 { day_number: 1, summary: None, itineraries: Vec::new() };
    assert_eq!(append_sort_order_for_export_day(&empty), 1000);
    let negative = ExportDayV3 { day_number: 1, summary: None, itineraries: vec![item("a", -5000)] };
    assert_eq!(append_sort_order_for_export_day(&negative), -4000);
}

#[test]
fn removing_an_itinerary_and_its_notes() {
    let days = vec![
        ExportDayV3 { day_number: 1, summary: None, itineraries: vec![item("a", 1000), item("b", 2000)] },
        ExportDayV3 { day_number: 2, summary: None, itineraries: vec![item("c", 1000)] },
    ];
    let mut export = export_with(days, vec![itinerary_note(1, 2000), itinerary_note(2, 1000), itinerary_note(1, 2000)]);
    assert_eq!(count_itineraries(&export), 3);
    assert_eq!(count_itinerary_notes_in_export(&export, 1, 2000), 2);
    assert!(remove_itinerary_from_export(&mut export, 1, 2000).is_ok());
    assert_eq!(count_itineraries(&export), 2);
    remove_itinerary_notes_from_export(&mut export, 1, 2000);
    assert_eq!(count_itinerary_notes_in_export(&export, 1, 2000), 0);
    assert_eq!(export.notes.as_ref().unwrap().len(), 1);
    assert_eq!(
        remove_itinerary_from_export(&mut export, 3, 1000).unwrap_err(),
        "preview 内に Day 3 が見つかりません"
    );
    assert_eq!(
        remove_itinerary_from_export(&mut export, 2, 5000).unwrap_err(),
        "preview 内に itinerary (day 2, sort_order 5000) が見つかりません"
    );
}

#[test]
fn find_or_create_day_and_lookup() {
    let days = vec![ExportDayV3 { day_number: 1, summary: None, itineraries: vec![item("a", 1000)] }];
    let mut export = export_with(days, Vec::new());
    assert_eq!(find_or_create_day(&mut export, 1), 0);
    assert_eq!(export.days.len(), 1);
    assert_eq!(find_or_create_day(&mut export, 3), 1);
    assert_eq!(export.days[1].day_number, 3);
    assert_eq!(lookup_itinerary_in_export(&export, 1, 1000).map(|i| i.title.as_str()), Some("a"));
    assert!(lookup_itinerary_in_export(&export, 3, 1000).is_none());
}

#[test]
fn itinerary_note_takes_start_time_from_preview() {
    let days = vec![ExportDayV3 { day_number: 2, summary: None, itineraries: vec![item("Lunch", 1000)] }];
    let export = export_with(days, Vec::new());
    let fields = ParsedAddNoteFields { title: None, body: "Bring cash".to_string() };
    match build_export_note_from_add_fields(&fields, &resolved("itinerary"), &export).unwrap() {
        ExportNote::Itinerary { itinerary_key, body, .. } => {
            assert_eq!(itinerary_key.start_time.as_deref(), Some("09:00"));
            assert_eq!(itinerary_key.title, "Lunch");
            assert_eq!(body, "Bring cash");
        }
        _ => panic!("expected an itinerary note"),
    }
    assert_eq!(
        build_export_note_from_add_fields(&fields, &resolved("receipt"), &export).unwrap_err(),
        "add_note は trip / day / itinerary target のみサポートしています（現在: receipt）"
    );
}

#[test]
fn day_range_check() {
    let export = export_with(Vec::new(), Vec::new());
    assert!(ensure_day_in_range(&export, 3, Ok(3)).is_ok());
    assert_eq!(
        ensure_day_in_range(&export, 4, Ok(3)).unwrap_err(),
        "day_number (4) が旅行期間 (1..=3) の範囲外です"
    );
    assert_eq!(ensure_day_in_range(&export, 1, Err("bad".to_string())).unwrap_err(), "bad");
}

#[test]
fn itinerary_changes_describe_the_patch() {
    let current = item("Lunch", 1000);
    let fields = ParsedUpdateItineraryFields {
        title: Some("Lunch".to_string()),
        note: Some(UpdateFieldPatch { value: "Try the set menu".to_string() }),
        location: None,
        category: Some(UpdateFieldPatch { value: ItineraryCategory::Restaurant }),
        start_time: Some(UpdateFieldPatch { value: String::new() }),
        duration_minutes: Some(90),
        travel_minutes: None,
    };
    let changes = build_update_itinerary_field_changes(&current, &fields).unwrap();
    let names: Vec<&str> = changes.iter().map(|c| c.field.as_str()).collect();
    assert_eq!(names, vec!["note", "category", "start_time", "duration_minutes"]);
    let mut patched = item("Lunch", 1000);
    apply_update_itinerary_patch(&mut patched, &fields);
    for change in &changes {
        assert_eq!(export_itinerary_field_display(&patched, &change.field), change.after);
        assert_eq!(export_itinerary_field_display(&current, &change.field), change.before);
    }
    assert_eq!(patched.start_time, None);
    let same = ParsedUpdateItineraryFields {
        title: Some("Lunch".to_string()),
        note: None,
        location: None,
        category: None,
        start_time: None,
        duration_minutes: Some(60),
        travel_minutes: None,
    };
    assert_eq!(
        build_update_itinerary_field_changes(&current, &same).unwrap_err(),
        "有効な itinerary 更新がありません — 現行値と同一のため no-op です"
    );
}

#[test]
fn estimate_changes_list_named_fields() {
    let current = estimate(1300);
    let proposed = Estimate { amount: 1250, title: None, ..current.clone() };
    let fields = ParsedUpdateEstimateFields {
        estimate_id: 1,
        has_amount: true,
        amount_raw: None,
        has_currency: false,
        currency_text: None,
        title: None,
        note: None,
        sort_order: None,
        clear_title: true,
        clear_note: false,
    };
    let changes = build_update_estimate_field_changes(&current, &proposed, &fields);
    assert_eq!(changes.len(), 2);
    assert_eq!((changes[0].before.as_str(), changes[0].after.as_str()), ("1300", "1250"));
    assert_eq!((changes[1].field.as_str(), changes[1].after.as_str()), ("title", "-"));
}

#[test]
fn adoptable_content_needs_a_title_or_summary() {
    let blank = ExportDayV3 { day_number: 1, summary: Some("  ".to_string()), itineraries: vec![item(" ", 1)] };
    assert!(!has_adoptable_content(&[blank]));
    let titled = ExportDayV3 { day_number: 1, summary: None, itineraries: vec![item("Museum", 1)] };
    assert!(has_adoptable_content(&[titled]));
    assert!(!has_adoptable_content(&[]));
}

#[test]
fn moving_an_itinerary_between_days() {
    let days = vec![
        ExportDayV3 { day_number: 1, summary: None, itineraries: vec![item("a", 1000), item("b", 2000), item("c", 3000)] },
        ExportDayV3 { day_number: 2, summary: None, itineraries: vec![item("x", 1000), item("y", 3000)] },
    ];
    let mut export = export_with(days, Vec::new());
    let mut rewrites = HashMap::new();
    rewrites.insert(3000i64, 2000i64);
    assert!(move_itinerary_in_export_preview(&mut export, 1, 2, 2000, 2000, &rewrites).is_ok());
    let day1: Vec<(&str, i64)> = export.days[0].itineraries.iter().map(|i| (i.title.as_str(), i.sort_order)).collect();
    let day2: Vec<(&str, i64)> = export.days[1].itineraries.iter().map(|i| (i.title.as_str(), i.sort_order)).collect();
    assert_eq!(day1, vec![("a", 1000), ("c", 2000)]);
    assert_eq!(day2, vec![("x", 1000), ("b", 2000), ("y", 3000)]);
    assert_eq!(
        move_itinerary_in_export_preview(&mut export, 5, 2, 1000, 1000, &rewrites).unwrap_err(),
        "preview export に source Day 5 がありません"
    );
    assert!(move_itinerary_in_export_preview(&mut export, 2, 4, 1000, 500, &HashMap::new()).is_ok());
    assert_eq!(export.days.len(), 3);
    assert_eq!(export.days[2].day_number, 4);
    assert_eq!(export.days[2].itineraries[0].sort_order, 500);
}

#[test]
fn materialize_dates_prefer_flags_then_proposal_then_ranges() {
    let proposal = members(object(vec![
        ("candidate_date_ranges", JsonValue {
            kind: JsonKind::Array(vec![
                object(vec![("start", text("2026-04-01")), ("end", text("2026-04-02")), ("confirmed", boolean(false))]),
                object(vec![("start", text("2026-05-01")), ("end", text("2026-05-03")), ("confirmed", boolean(true))]),
            ]),
            rendered: String::new(),
        }),
    ]));
    let none = ProposalMaterializeParams { start_date: None, end_date: None };
    assert_eq!(resolve_materialize_dates(&proposal, &none).unwrap(), ("2026-05-01".to_string(), "2026-05-03".to_string()));
    assert!(!needs_date_decision(&proposal));
    let flags = ProposalMaterializeParams { start_date: Some("2026-06-01".to_string()), end_date: Some("2026-06-02".to_string()) };
    assert_eq!(resolve_materialize_dates(&proposal, &flags).unwrap().0, "2026-06-01");
    let half = ProposalMaterializeParams { start_date: Some("2026-06-01".to_string()), end_date: None };
    assert_eq!(resolve_materialize_dates(&proposal, &half).unwrap_err(), "--start と --end は両方指定してください");
    assert!(needs_date_decision(&Vec::new()));
}

#[test]
fn required_decisions_are_collected_once() {
    let hints = object(vec![("required_decisions", texts(&["hotel", " hotel ", ""])), ("conflicts", texts(&["hotel", "time"]))]);
    let target = members(object(vec![("target_type", text("unresolved")), ("unresolved_target_hints", texts(&["pick a day"]))]));
    let mut decisions = Vec::new();
    collect_required_decisions(Some(&hints), &target, &mut decisions);
    assert_eq!(decisions, vec!["hotel", "time", "target Day / Itinerary の確定", "pick a day"]);
}

#[test]
fn editing_an_itinerary_in_place() {
    let mut day = ExportDayV3 { day_number: 1, summary: None, itineraries: vec![item("a", 1000), item("b", 2000)] };
    if let Some(it) = find_itinerary_mut_in_export_day(&mut day, 2000) {
        it.title = "B".to_string();
    }
    assert_eq!(day.itineraries[1].title, "B");
    assert!(find_itinerary_mut_in_export_day(&mut day, 3000).is_none());
}
