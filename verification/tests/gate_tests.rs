use caglla::json::{JsonKind, JsonMembers, JsonValue};
use caglla::proposal::apply::revalidate::{
    revalidate_delete_estimate_before_write, revalidate_delete_itinerary_before_write, revalidate_update_itinerary_before_write,
    verify_estimate_deleted,
};
use caglla::proposal::apply::FragmentApplyBlockingChildren;
use caglla::models::{Estimate, ItineraryCategory, ExportDayV3, ExportEstimateV3, ExportExpenseV3, ExportItineraryV3, ItineraryItem, Trip, TripExportV3};
use caglla::proposal::apply::dispatch::{simulate_apply_preview, PreviewReads};
use caglla::proposal::apply::gate::{fragment_apply_gate_finish, fragment_apply_gate_prelude};
use caglla::proposal::apply::{
    count_estimates, count_expenses, count_itineraries, count_notes, count_reservations, finalize_apply_preview_export,
    FragmentApplyDryRunReport,
};

const APPLY_READY_FRAGMENT: &str = r#"{
  "metadata": {
    "fragment_id": "frag-apply-ready",
    "created_at": "2026-03-15T14:00:00Z",
    "source": "manual",
    "provider": "fixture"
  },
  "target": {
    "target_type": "day",
    "day_reference": 1
  },
  "fragment": {
    "intent": "add",
    "candidate_content": { "title": "Lunch candidate" },
    "notes": "Preview only."
  },
  "adoption_hints": { "required_decisions": [] }
}"#;

const DELETE_ITINERARY_FRAGMENT: &str = r#"{
  "metadata": { "created_at": "2026-03-15T14:00:00Z", "source": "manual" },
  "target": {
    "target_type": "itinerary",
    "day_reference": 1,
    "itinerary_reference": "Morning temple"
  },
  "fragment": {
    "intent": "delete_itinerary"
  },
  "adoption_hints": { "required_decisions": [] }
}"#;

const DELETE_ESTIMATE_FRAGMENT: &str = r#"{
  "metadata": { "created_at": "2026-03-15T14:00:00Z", "source": "manual" },
  "target": {
    "target_type": "itinerary",
    "day_reference": 1,
    "itinerary_reference": "Morning temple"
  },
  "fragment": {
    "intent": "delete_estimate",
    "candidate_content": {
      "estimate_id": 1
    }
  },
  "adoption_hints": { "required_decisions": [] }
}"#;

/// A trip as the database holds it: its days, their itinerary rows, what
/// each itinerary's export holds, and the stored estimates.
struct World {
    trip: Trip,
    days: i64,
    rows: Vec<(i64, Vec<ItineraryItem>)>,
    expenses: Vec<(i64, usize)>,
    estimates: Vec<Estimate>,
}

fn world(name: &str, end_date: &str, days: i64) -> World {
    World {
        trip: Trip {
            id: 1,
            name: name.to_string(),
            start_date: Some("2026-05-01".to_string()),
            end_date: Some(end_date.to_string()),
            summary: None,
            created_at: String::new(),
            updated_at: String::new(),
        },
        days,
        rows: (1..=days).map(|d| (d, Vec::new())).collect(),
        expenses: Vec::new(),
        estimates: Vec::new(),
    }
}

fn add_item(w: &mut World, id: i64, day: i64, title: &str, sort_order: i64) {
    let rows = &mut w.rows.iter_mut().find(|(d, _)| *d == day).unwrap().1;
    rows.push(ItineraryItem {
        id,
        trip_id: 1,
        day,
        title: title.to_string(),
        note: None,
        start_time: None,
        sort_order,
        duration_minutes: None,
        travel_minutes: None,
        location: None,
        category: None,
        created_at: String::new(),
        updated_at: String::new(),
    });
}

fn add_estimate(w: &mut World, id: i64, itinerary_id: i64, amount: i64) {
    add_estimate_with(w, id, itinerary_id, amount, None, None);
}

fn add_estimate_with(w: &mut World, id: i64, itinerary_id: i64, amount: i64, title: Option<&str>, note: Option<&str>) {
    w.estimates.push(Estimate {
        id,
        itinerary_id,
        title: title.map(|t| t.to_string()),
        amount,
        currency: "JPY".to_string(),
        note: note.map(|t| t.to_string()),
        sort_order: 1,
        created_at: "2026-03-01 00:00:00".to_string(),
        updated_at: "2026-03-01 00:00:00".to_string(),
    });
}

fn export_of(w: &World) -> TripExportV3 {
    let days = w
        .rows
        .iter()
        .map(|(d, items)| ExportDayV3 {
            day_number: *d,
            summary: None,
            itineraries: items
                .iter()
                .map(|i| ExportItineraryV3 {
                    title: i.title.clone(),
                    note: None,
                    start_time: None,
                    sort_order: i.sort_order,
                    duration_minutes: None,
                    travel_minutes: None,
                    location: None,
                    category: None,
                    expenses: (0..w.expenses.iter().filter(|(id, _)| *id == i.id).map(|(_, n)| *n).sum::<usize>())
                        .map(|k| ExportExpenseV3 {
                            title: Some("Admission".to_string()),
                            amount: 500,
                            currency: "JPY".to_string(),
                            paid_by_name: None,
                            paid_by_participant_ref: None,
                            beneficiaries: Vec::new(),
                            expense_date: None,
                            note: None,
                            sort_order: k as i64 + 1,
                        })
                        .collect(),
                    estimates: w
                        .estimates
                        .iter()
                        .filter(|e| e.itinerary_id == i.id)
                        .map(|e| ExportEstimateV3 {
                            title: e.title.clone(),
                            amount: e.amount,
                            currency: e.currency.clone(),
                            note: e.note.clone(),
                            sort_order: e.sort_order,
                        })
                        .collect(),
                    reservations: Vec::new(),
                })
                .collect(),
        })
        .collect();
    TripExportV3 {
        schema_version: Some(5),
        generator: None,
        generator_version: None,
        exported_at: None,
        trip: w.trip.clone(),
        days,
        checklist_items: Some(Vec::new()),
        notes: Some(Vec::new()),
        participants: Some(Vec::new()),
    }
}

fn hhmm(t: &str) -> Result<(), String> {
    let b = t.as_bytes();
    if b.len() == 5 && b[2] == b':' { Ok(()) } else { Err(format!("bad time {t}")) }
}

fn known_type(t: &str) -> Result<String, String> {
    if t == "hotel" || t == "restaurant" { Ok(t.to_string()) } else { Err(format!("unknown type {t}")) }
}

fn provider(t: &str) -> Result<String, String> {
    Ok(t.trim().to_string())
}

fn tidy(t: &str) -> Option<String> {
    let t = t.trim();
    if t.is_empty() { None } else { Some(t.to_string()) }
}

/// `fragment apply` as far as its decision, against the trip `w`: the
/// checks, the preview on the trip's export, and the decision on it (the
/// preview's JSON passes export validation).
fn gate(w: &World, json: &str, confirm: bool) -> (FragmentApplyDryRunReport, Option<String>) {
    let (report, preview_json, _) = gate_with_export(w, json, confirm);
    (report, preview_json)
}

/// `gate`, with the finalized preview export (the trip's export when the
/// checks stop before the preview).
fn gate_with_export(w: &World, json: &str, confirm: bool) -> (FragmentApplyDryRunReport, Option<String>, TripExportV3) {
    let day_ids: Vec<(i64, i64)> = w.rows.iter().map(|(d, _)| (*d, 100 + *d)).collect();
    let (mut report, out) = fragment_apply_gate_prelude("test.json", json, 1, !confirm, confirm, &Ok(w.trip.clone()), &day_ids, &w.rows);
    let (resolved, body, intent) = match out {
        Some(x) => x,
        None => return (report, None, export_of(w)),
    };
    let fragment = match body.kind {
        JsonKind::Object(m) => m,
        _ => panic!("fragment is an object"),
    };
    let mut export = export_of(w);
    let day_items = w.rows.iter().find(|(d, _)| Some(*d) == resolved.day_number).map(|(_, r)| r.clone()).unwrap_or_default();
    let target_id = day_items
        .iter()
        .find(|i| Some(i.title.clone()) == resolved.itinerary_title && Some(i.sort_order) == resolved.itinerary_sort_order)
        .map(|i| i.id);
    let target_estimates = w.estimates.iter().filter(|e| Some(e.itinerary_id) == target_id).cloned().collect();
    let reads = PreviewReads {
        day_count: Ok(w.days),
        day_items: Ok(day_items),
        target_estimates: Ok(target_estimates),
        day_ids: day_ids.clone(),
        trip: Ok(w.trip.clone()),
        trip_day_count: Ok(w.days),
        trip_days: w.rows.clone(),
    };
    let read = |id: i64| w.estimates.iter().find(|e| e.id == id).cloned().ok_or(format!("Estimate not found: {id}"));
    let (ib, nb, eb, rb, sb) = (
        count_itineraries(&export),
        count_notes(&export),
        count_expenses(&export),
        count_reservations(&export),
        count_estimates(&export),
    );
    let summary = simulate_apply_preview(
        &mut export, &resolved, &fragment, &intent, ib, nb, eb, rb, sb, reads, &hhmm, &known_type, &provider, &read, &tidy,
        &mut report,
    );
    finalize_apply_preview_export(&mut export);
    let preview_json = Ok(format!("{{\"trip\": {:?}, \"days\": {}}}", export.trip.name, export.days.len()));
    let (report, out) = fragment_apply_gate_finish(report, &resolved, &intent, summary, preview_json, true, Vec::new());
    (report, out, export)
}

#[test]
fn invalid_category_blocks_apply_without_db_write() {
    let w = world("Trip", "2026-05-01", 1);
    let json = r#"{
      "metadata": { "created_at": "2026-03-15T14:00:00Z", "source": "ai" },
      "target": { "target_type": "day", "day_reference": 1 },
      "fragment": {
        "intent": "add",
        "candidate_content": { "title": "Bad", "category": "meal" },
        "notes": "n"
      }
    }"#;
    let before = w.rows.iter().map(|(_, r)| r.len()).sum::<usize>();
    let (report, preview) = gate(&w, json, false);
    assert!(!report.valid);
    assert!(preview.is_none());
    assert!(report.errors.iter().any(|e| e.contains("category")));
    assert_eq!(before, w.rows.iter().map(|(_, r)| r.len()).sum::<usize>());
}

#[test]
fn dry_run_simulates_add_without_db_write() {
    let mut w = world("Apply Test Trip", "2026-05-02", 2);
    add_item(&mut w, 1, 1, "Morning walk", 1);
    let before = w.rows.iter().map(|(_, r)| r.len()).sum::<usize>();
    let (report, preview_json) = gate(&w, APPLY_READY_FRAGMENT, false);
    assert!(report.valid, "errors: {:?}", report.errors);
    assert!(report.trip_export_valid);
    assert!(preview_json.is_some());
    assert_eq!(before, w.rows.iter().map(|(_, r)| r.len()).sum::<usize>(), "DB must not change on dry-run");
    assert_eq!(report.preview.unwrap().itineraries_after, before + 1);
}

#[test]
fn unresolved_target_blocks_apply() {
    let w = world("Trip", "2026-05-01", 1);
    let json = r#"{
      "metadata": { "created_at": "2026-03-15T14:00:00Z", "source": "ai" },
      "target": { "target_type": "unresolved" },
      "fragment": {
        "intent": "add",
        "candidate_content": { "title": "TBD" },
        "notes": "n"
      }
    }"#;
    let (report, preview) = gate(&w, json, false);
    assert!(!report.valid);
    assert!(preview.is_none());
    assert!(report.errors.iter().any(|e| e.contains("unresolved")));
}

#[test]
fn confirm_rejects_unsupported_intent_without_db_write() {
    let w = world("Trip", "2026-05-01", 1);
    let json = r#"{
      "metadata": { "created_at": "2026-03-15T14:00:00Z", "source": "ai" },
      "target": { "target_type": "day", "day_reference": 1 },
      "fragment": {
        "intent": "enrich",
        "candidate_content": { "summary": "Updated" },
        "notes": "n"
      }
    }"#;
    let (report, _) = gate(&w, json, true);
    assert!(!report.valid);
    assert!(report.errors.iter().any(|e| e.contains("add_itinerary")));
}

#[test]
fn delete_itinerary_blocking_children_block_preview() {
    let mut w = world("Trip", "2026-05-01", 1);
    add_item(&mut w, 1, 1, "Morning temple", 1000);
    w.expenses.push((1, 1));
    let (report, preview_json) = gate(&w, DELETE_ITINERARY_FRAGMENT, false);
    assert!(!report.valid);
    assert!(preview_json.is_none());
    assert!(report.errors.iter().any(|error| error.contains("blocking child") && error.contains("expenses: 1")));
}

#[test]
fn delete_itinerary_trip_target_blocks_preview() {
    let mut w = world("Trip", "2026-05-01", 1);
    add_item(&mut w, 1, 1, "Morning temple", 1000);
    let json = r#"{
      "metadata": { "created_at": "2026-03-15T14:00:00Z", "source": "manual" },
      "target": { "target_type": "trip" },
      "fragment": { "intent": "delete_itinerary" },
      "adoption_hints": { "required_decisions": [] }
    }"#;
    let (report, preview_json) = gate(&w, json, false);
    assert!(!report.valid);
    assert!(preview_json.is_none());
    assert!(report.errors.iter().any(|error| error.contains("itinerary target")));
}

#[test]
fn delete_estimate_not_found_blocks_preview() {
    let mut w = world("Trip", "2026-05-01", 1);
    add_item(&mut w, 1, 1, "Morning temple", 1000);
    let (report, preview_json) = gate(&w, DELETE_ESTIMATE_FRAGMENT, false);
    assert!(!report.valid);
    assert!(preview_json.is_none());
    assert!(report.errors.iter().any(|error| error.contains("Estimate not found")), "errors: {:?} warnings: {:?}", report.errors, report.warnings);
}

#[test]
fn delete_estimate_cross_itinerary_blocks_preview() {
    let mut w = world("Trip", "2026-05-01", 1);
    add_item(&mut w, 1, 1, "Morning temple", 1000);
    add_item(&mut w, 2, 1, "Second stop", 2000);
    add_estimate(&mut w, 1, 2, 5000);
    let before = w.estimates.clone();
    let foreign_estimate_id = 1;
    let fragment = format!(
        r#"{{
  "metadata": {{ "created_at": "2026-03-15T14:00:00Z", "source": "manual" }},
  "target": {{
    "target_type": "itinerary",
    "day_reference": 1,
    "itinerary_reference": "Morning temple"
  }},
  "fragment": {{
    "intent": "delete_estimate",
    "candidate_content": {{
      "estimate_id": {foreign_estimate_id}
    }}
  }},
  "adoption_hints": {{ "required_decisions": [] }}
}}"#
    );
    let (report, preview_json) = gate(&w, &fragment, false);
    assert!(!report.valid);
    assert!(preview_json.is_none());
    assert!(report.errors.iter().any(|error| error.contains("配下ではありません")), "errors: {:?} warnings: {:?}", report.errors, report.warnings);
    assert_eq!(w.estimates, before);
}

#[test]
fn delete_estimate_mutation_field_blocks_preview() {
    let mut w = world("Trip", "2026-05-01", 1);
    add_item(&mut w, 1, 1, "Morning temple", 1000);
    add_estimate(&mut w, 1, 1, 10000);
    let before = w.estimates.clone();
    let fragment = r#"{
  "metadata": { "created_at": "2026-03-15T14:00:00Z", "source": "manual" },
  "target": {
    "target_type": "itinerary",
    "day_reference": 1,
    "itinerary_reference": "Morning temple"
  },
  "fragment": {
    "intent": "delete_estimate",
    "candidate_content": {
      "estimate_id": 1,
      "amount": 15000
    }
  },
  "adoption_hints": { "required_decisions": [] }
}"#;
    let (report, preview_json) = gate(&w, fragment, false);
    assert!(!report.valid);
    assert!(preview_json.is_none());
    assert!(report.errors.iter().any(|error| error.contains("指定できません")), "errors: {:?} warnings: {:?}", report.errors, report.warnings);
    assert_eq!(w.estimates, before);
}

#[test]
fn add_note_dry_run_appends_trip_note_to_preview() {
    let w = world("Trip", "2026-05-01", 1);
    let json = r#"{
      "metadata": { "created_at": "2026-03-15T14:00:00Z", "source": "ai" },
      "target": { "target_type": "trip" },
      "fragment": {
        "intent": "add_note",
        "candidate_content": {
          "title": "Memo",
          "body": "Pack rain jacket."
        }
      }
    }"#;
    let (report, preview_json, export) = gate_with_export(&w, json, false);
    assert!(report.valid, "errors: {:?}", report.errors);
    assert!(preview_json.is_some());
    assert_eq!(export.notes().len(), 1);
    assert_eq!(report.preview.unwrap().action, "add_note");
}

#[test]
fn update_itinerary_dry_run_preview_patches_export_without_db_write() {
    let mut w = world("Trip", "2026-05-01", 1);
    add_item(&mut w, 1, 1, "Morning temple", 1000);
    let json = r#"{
      "metadata": { "created_at": "2026-03-15T14:00:00Z", "source": "manual" },
      "target": {
        "target_type": "itinerary",
        "day_reference": 1,
        "itinerary_reference": "Morning temple"
      },
      "fragment": {
        "intent": "update_itinerary",
        "candidate_content": {
          "title": "Morning temple visit",
          "category": "museum"
        }
      },
      "adoption_hints": { "required_decisions": [] }
    }"#;
    let (report, preview_json, export) = gate_with_export(&w, json, false);
    assert!(report.valid, "errors: {:?}", report.errors);
    let preview = report.preview.expect("preview summary");
    assert_eq!(preview.action, "update_itinerary");
    let changes = preview.itinerary_field_changes.expect("field changes");
    assert_eq!(changes.len(), 2);
    assert_eq!(changes[0].field, "title");
    assert_eq!(changes[1].field, "category");
    assert!(preview_json.is_some());
    let item = export
        .days
        .iter()
        .flat_map(|day| day.itineraries.iter())
        .find(|item| item.title == "Morning temple visit")
        .expect("patched itinerary");
    assert_eq!(item.category, Some(ItineraryCategory::Museum));
    let item_after = &w.rows[0].1[0];
    assert_eq!(item_after.title, "Morning temple");
    assert_eq!(item_after.category, None);
}

#[test]
fn delete_itinerary_dry_run_preview_removes_itinerary_without_db_write() {
    let mut w = world("Trip", "2026-05-01", 1);
    add_item(&mut w, 1, 1, "Morning temple", 1000);
    let item_id = 1;
    let (report, preview_json, export) = gate_with_export(&w, DELETE_ITINERARY_FRAGMENT, false);
    assert!(report.valid, "errors: {:?}", report.errors);
    let preview = report.preview.expect("preview summary");
    assert_eq!(preview.action, "delete_itinerary");
    assert_eq!(preview.itineraries_before, 1);
    assert_eq!(preview.itineraries_after, 0);
    let delete_preview = preview.delete_preview.expect("delete_preview");
    assert_eq!(delete_preview.itinerary_id, item_id);
    assert_eq!(delete_preview.title, "Morning temple");
    assert_eq!(delete_preview.blocking_children.expenses, 0);
    assert_eq!(delete_preview.blocking_children.estimates, 0);
    assert_eq!(delete_preview.blocking_children.reservations, 0);
    assert_eq!(delete_preview.blocking_children.notes, 0);
    assert!(delete_preview.non_blocking_relations.is_none());
    assert!(preview_json.is_some());
    assert_eq!(count_itineraries(&export), 0);
    let items = &w.rows[0].1;
    assert_eq!(items.len(), 1);
    assert_eq!(items[0].id, item_id);
    assert_eq!(items[0].title, "Morning temple");
}

#[test]
fn delete_estimate_dry_run_preview_removes_estimate_without_db_write() {
    let mut w = world("Trip", "2026-05-01", 1);
    add_item(&mut w, 1, 1, "Morning temple", 1000);
    add_estimate_with(&mut w, 1, 1, 10000, Some("Lunch estimate"), Some("Original note"));
    let (itinerary_id, estimate_id) = (1, 1);
    let before = w.estimates[0].clone();
    let (report, preview_json, export) = gate_with_export(&w, DELETE_ESTIMATE_FRAGMENT, false);
    assert!(report.valid, "errors: {:?}", report.errors);
    assert!(report.deleted_estimate_id.is_none());
    let preview = report.preview.expect("preview summary");
    assert_eq!(preview.action, "delete_estimate");
    assert_eq!(preview.estimates_before, Some(1));
    assert_eq!(preview.estimates_after, Some(0));
    let delete_preview = preview.estimate_delete_preview.expect("estimate_delete_preview");
    assert_eq!(delete_preview.target_itinerary_id, itinerary_id);
    assert_eq!(delete_preview.target_estimate_id, estimate_id);
    assert_eq!(delete_preview.title, before.title);
    assert_eq!(delete_preview.amount, before.amount);
    assert_eq!(delete_preview.currency, before.currency);
    assert_eq!(delete_preview.note, before.note);
    assert_eq!(delete_preview.sort_order, before.sort_order);
    assert_eq!(delete_preview.updated_at, before.updated_at);
    assert!(report.warnings.iter().any(|warning| warning.contains("hard delete")));
    assert!(preview_json.is_some());
    assert_eq!(count_estimates(&export), 0);
    assert_eq!(w.estimates[0], before);
}

const UPDATE_ITINERARY_FRAGMENT: &str = r#"{
  "metadata": { "created_at": "2026-03-15T14:00:00Z", "source": "manual" },
  "target": {
    "target_type": "itinerary",
    "day_reference": 1,
    "itinerary_reference": "Morning temple"
  },
  "fragment": {
    "intent": "update_itinerary",
    "candidate_content": {
      "title": "Morning temple visit",
      "category": "museum",
      "note": "Arrive 15 minutes early."
    }
  },
  "adoption_hints": { "required_decisions": [] }
}"#;

fn to_json(v: serde_json::Value) -> JsonValue {
    let rendered = v.to_string();
    let kind = match v {
        serde_json::Value::Null => JsonKind::Null,
        serde_json::Value::Bool(b) => JsonKind::Bool(b),
        serde_json::Value::Number(n) => JsonKind::Number(n.as_i64()),
        serde_json::Value::String(s) => JsonKind::Str(s),
        serde_json::Value::Array(a) => JsonKind::Array(a.into_iter().map(to_json).collect()),
        serde_json::Value::Object(o) => JsonKind::Object(o.into_iter().map(|(k, x)| (k, to_json(x))).collect()),
    };
    JsonValue { kind, rendered }
}

fn candidate_of(json: &str) -> JsonMembers {
    let root: serde_json::Value = serde_json::from_str(json).unwrap();
    match to_json(root["fragment"]["candidate_content"].clone()).kind {
        JsonKind::Object(m) => m,
        _ => panic!("candidate_content is an object"),
    }
}

/// The itinerary as read again before the write: its title has changed since the preview.
fn changed_by_another_writer(w: &World) -> ItineraryItem {
    let mut item = w.rows[0].1[0].clone();
    item.title = "Changed by another writer".to_string();
    item
}

#[test]
fn confirm_update_itinerary_toctou_blocks_db_write() {
    let mut w = world("Trip", "2026-05-01", 1);
    add_item(&mut w, 1, 1, "Morning temple", 1000);
    let (report, _) = gate(&w, UPDATE_ITINERARY_FRAGMENT, true);
    assert!(report.valid, "errors: {:?}", report.errors);
    let current = changed_by_another_writer(&w);
    let changes = report.preview.as_ref().unwrap().itinerary_field_changes.as_ref().unwrap();
    let error = revalidate_update_itinerary_before_write(Ok(current.clone()), &candidate_of(UPDATE_ITINERARY_FRAGMENT), changes)
        .unwrap_err();
    assert!(error.contains("TOCTOU"));
    assert_eq!(current.title, "Changed by another writer");
    assert_eq!(current.category, None);
}

#[test]
fn confirm_delete_itinerary_toctou_blocks_db_write() {
    let mut w = world("Trip", "2026-05-01", 1);
    add_item(&mut w, 1, 1, "Morning temple", 1000);
    let (report, _) = gate(&w, DELETE_ITINERARY_FRAGMENT, true);
    assert!(report.valid, "errors: {:?}", report.errors);
    let current = changed_by_another_writer(&w);
    let expected = report.preview.as_ref().unwrap().delete_preview.as_ref().unwrap();
    let none = FragmentApplyBlockingChildren { expenses: 0, estimates: 0, reservations: 0, notes: 0 };
    let error = revalidate_delete_itinerary_before_write(1, expected, Ok(current.clone()), Ok(none)).unwrap_err();
    assert!(error.contains("TOCTOU"));
    assert_eq!(current.title, "Changed by another writer");
}

const DELETE_ESTIMATE_CONFIRM_FRAGMENT: &str = r#"{
  "metadata": { "created_at": "2026-03-15T14:00:00Z", "source": "manual" },
  "target": {
    "target_type": "itinerary",
    "day_reference": 1,
    "itinerary_reference": "Morning temple"
  },
  "fragment": {
    "intent": "delete_estimate",
    "candidate_content": {
      "estimate_id": 1
    }
  },
  "adoption_hints": { "required_decisions": [] }
}"#;

/// The trip of the estimate confirm tests: one itinerary with one estimate.
fn estimate_world() -> World {
    let mut w = world("Trip", "2026-05-01", 1);
    add_item(&mut w, 1, 1, "Morning temple", 1000);
    add_estimate_with(&mut w, 1, 1, 10000, Some("Lunch estimate"), Some("Original note"));
    w
}

#[test]
fn confirm_delete_estimate_writes_db() {
    let mut w = estimate_world();
    let (itinerary_id, estimate_id) = (1, 1);
    let (gate_report, _) = gate(&w, DELETE_ESTIMATE_FRAGMENT, true);
    assert!(gate_report.valid, "errors: {:?}", gate_report.errors);
    let expected = gate_report.preview.as_ref().unwrap().estimate_delete_preview.as_ref().unwrap();
    let current = w.estimates.iter().find(|e| e.id == estimate_id).cloned().ok_or("Estimate not found".to_string());
    revalidate_delete_estimate_before_write(current, estimate_id, itinerary_id, &candidate_of(DELETE_ESTIMATE_CONFIRM_FRAGMENT), expected)
        .unwrap();
    w.estimates.retain(|e| e.id != estimate_id);
    let deleted_id = estimate_id;
    assert_eq!(deleted_id, 1);
    let read = w.estimates.iter().find(|e| e.id == estimate_id).cloned().ok_or("Estimate not found".to_string());
    assert!(read.is_err());
    assert!(verify_estimate_deleted(read, estimate_id).is_ok());
    assert_eq!(w.estimates.iter().filter(|e| e.itinerary_id == itinerary_id).count(), 0);
}

#[test]
fn confirm_delete_estimate_candidate_preview_mismatch_blocks_db_write() {
    let w = estimate_world();
    let (itinerary_id, estimate_id) = (1, 1);
    let before = w.estimates[0].clone();
    let (gate_report, _) = gate(&w, DELETE_ESTIMATE_FRAGMENT, true);
    assert!(gate_report.valid, "errors: {:?}", gate_report.errors);
    let mismatch_fragment = r#"{
  "metadata": { "created_at": "2026-03-15T14:00:00Z", "source": "manual" },
  "target": {
    "target_type": "itinerary",
    "day_reference": 1,
    "itinerary_reference": "Morning temple"
  },
  "fragment": {
    "intent": "delete_estimate",
    "candidate_content": {
      "estimate_id": 1,
      "expected_amount": "99999"
    }
  },
  "adoption_hints": { "required_decisions": [] }
}"#;
    let expected = gate_report.preview.as_ref().unwrap().estimate_delete_preview.as_ref().unwrap();
    let message =
        revalidate_delete_estimate_before_write(Ok(before.clone()), estimate_id, itinerary_id, &candidate_of(mismatch_fragment), expected)
            .unwrap_err();
    assert!(message.contains("baseline mismatch") || message.contains("gate preview"), "got: {message}");
    assert_eq!(w.estimates[0], before);
    assert_eq!(w.estimates.iter().filter(|e| e.itinerary_id == itinerary_id).count(), 1);
}

#[test]
fn confirm_delete_estimate_toctou_blocks_db_write() {
    let mut w = estimate_world();
    let (itinerary_id, estimate_id) = (1, 1);
    let (gate_report, _) = gate(&w, DELETE_ESTIMATE_FRAGMENT, true);
    assert!(gate_report.valid, "errors: {:?}", gate_report.errors);
    w.estimates[0].amount = 20000;
    let after_update = w.estimates[0].clone();
    let expected = gate_report.preview.as_ref().unwrap().estimate_delete_preview.as_ref().unwrap();
    let message = revalidate_delete_estimate_before_write(
        Ok(after_update.clone()),
        estimate_id,
        itinerary_id,
        &candidate_of(DELETE_ESTIMATE_CONFIRM_FRAGMENT),
        expected,
    )
    .unwrap_err();
    assert!(message.contains("TOCTOU") || message.contains("gate preview"), "got: {message}");
    assert_eq!(w.estimates[0], after_update);
}
