use caglla::json::{JsonKind, JsonMembers, JsonValue};
use caglla::models::{ItineraryItem, Trip};
use caglla::proposal::apply::gate::{ascii_case_insensitive_eq, fragment_apply_gate_finish, fragment_apply_gate_prelude};
use caglla::proposal::apply::{FragmentApplyDryRunReport, FragmentApplyPreviewSummary, ResolvedApplyTarget};
use caglla::proposal::materialize::ProposalMaterializeParams;
use caglla::proposal::materializing::{materialize_finish, materialize_prelude, materialize_proposal_envelope_json, materialize_trip_export};

const FRAGMENT: &str = r#"{
  "metadata": {
    "fragment_id": "frag-test-01",
    "created_at": "2026-03-15T14:00:00Z",
    "source": "ai",
    "provider": "test-model"
  },
  "target": {
    "target_type": "day",
    "trip_reference": "Example Trip",
    "day_reference": 2
  },
  "fragment": {
    "intent": "add",
    "candidate_content": { "title": "Lunch candidate" },
    "notes": "Hours not verified."
  },
  "adoption_hints": {
    "required_decisions": ["Pick a restaurant"],
    "conflicts": [],
    "warnings": []
  }
}"#;

const ENVELOPE: &str = r#"{
  "metadata": {
    "proposal_id": "prop-test-01",
    "created_at": "2026-03-01T09:00:00Z",
    "source": "ai",
    "provider": "test-model"
  },
  "proposal": {
    "title": "Okinawa family trip (draft)",
    "destination": "Okinawa, Japan",
    "date_policy": "flexible_dates",
    "candidate_days": [{ "label": "Day 1", "summary": "Arrival" }],
    "candidate_itineraries": [{ "day_number": 1, "title": "Aquarium" }, { "day_number": 2, "title": "Beach" }],
    "notes": "Dates not confirmed."
  },
  "materialize_hints": { "missing_fields": [], "assumptions": [], "warnings": [] }
}"#;

fn trip(name: &str) -> Trip {
    Trip {
        id: 7,
        name: name.to_string(),
        start_date: Some("2026-05-01".to_string()),
        end_date: Some("2026-05-03".to_string()),
        summary: None,
        created_at: String::new(),
        updated_at: String::new(),
    }
}

fn row(id: i64, day: i64, title: &str, sort_order: i64) -> ItineraryItem {
    ItineraryItem {
        id,
        trip_id: 7,
        day,
        title: title.to_string(),
        note: None,
        start_time: None,
        sort_order,
        duration_minutes: None,
        travel_minutes: None,
        location: None,
        category: None,
        created_at: String::new(),
        updated_at: String::new(),
    }
}

fn members(v: JsonValue) -> JsonMembers {
    match v.kind {
        JsonKind::Object(m) => m,
        _ => panic!("not an object"),
    }
}

fn summary(action: &str) -> FragmentApplyPreviewSummary {
    FragmentApplyPreviewSummary {
        intent: action.to_string(),
        action: action.to_string(),
        candidate_title: None,
        itineraries_before: 1,
        itineraries_after: 2,
        notes_before: None,
        notes_after: None,
        expenses_before: None,
        expenses_after: None,
        expense_preview: None,
        estimates_before: None,
        estimates_after: None,
        estimate_preview: None,
        estimate_update_preview: None,
        estimate_field_changes: None,
        estimate_delete_preview: None,
        reservations_before: None,
        reservations_after: None,
        reservation_preview: None,
        itinerary_field_changes: None,
        reorder_preview: None,
        move_preview: None,
        delete_preview: None,
    }
}

fn day_target() -> ResolvedApplyTarget {
    ResolvedApplyTarget {
        target_type: "day".to_string(),
        trip_id: 7,
        trip_name: "Example Trip".to_string(),
        day_number: Some(2),
        itinerary_sort_order: None,
        itinerary_title: None,
        resolution: "resolved".to_string(),
    }
}

#[test]
fn names_compare_without_ascii_case() {
    assert!(ascii_case_insensitive_eq("Example Trip", "EXAMPLE trip"));
    assert!(!ascii_case_insensitive_eq("Example Trip", "Example Trips"));
    assert!(ascii_case_insensitive_eq("沖縄 Trip", "沖縄 TRIP"));
}

#[test]
fn gate_prelude_resolves_the_target() {
    let days = vec![(1, 101), (2, 102)];
    let trip_days = vec![(2, vec![row(21, 2, "Castle", 1000)])];
    let (report, out) = fragment_apply_gate_prelude("f.json", FRAGMENT, 7, true, false, &Ok(trip("example trip")), &days, &trip_days);
    assert!(report.fragment_valid, "errors: {:?}", report.errors);
    assert!(report.errors.is_empty());
    assert_eq!(report.required_decisions, vec!["Pick a restaurant".to_string()]);
    let (resolved, body, intent) = out.unwrap();
    assert_eq!((resolved.target_type.as_str(), resolved.day_number), ("day", Some(2)));
    assert_eq!(intent, "add");
    assert!(members(body).iter().any(|(k, _)| k == "candidate_content"));
    assert_eq!(report.resolved_target.unwrap().trip_name, "example trip");
    assert!(!report.warnings.iter().any(|w| w.contains("trip_reference")));
}

#[test]
fn gate_prelude_reports_mismatches_and_failures() {
    let days = vec![(1, 101)];
    let (report, out) = fragment_apply_gate_prelude("f.json", FRAGMENT, 7, true, false, &Ok(trip("Other")), &days, &Vec::new());
    assert!(out.is_none());
    assert_eq!(
        report.warnings.last().unwrap(),
        "target.trip_reference (Example Trip) が --trip 7 の名前 (Other) と一致しません — CLI の --trip を優先します"
    );
    assert_eq!(report.errors, vec!["target day_reference (2) が Trip 7 に存在しません".to_string()]);
    let (report, out) = fragment_apply_gate_prelude("f.json", "{bad", 7, true, false, &Ok(trip("Other")), &days, &Vec::new());
    assert!(out.is_none());
    assert!(!report.fragment_valid);
    assert_eq!(report.errors[0], "Proposal Fragment の validation に失敗しました（fragment validate を先に通してください）");
    let (report, _) = fragment_apply_gate_prelude("f.json", FRAGMENT, 7, true, false, &Err("Trip not found: 7".to_string()), &days, &Vec::new());
    assert_eq!(report.errors, vec!["Trip not found: 7".to_string()]);
}

#[test]
fn gate_finish_decides_validity() {
    let fresh = || FragmentApplyDryRunReport::new("f.json", 7, true, false);
    let (r, out) = fragment_apply_gate_finish(fresh(), &day_target(), "add", Ok(summary("add_itinerary")), Ok("{}".to_string()), true, Vec::new());
    assert!(r.valid && r.trip_export_valid);
    assert_eq!(out.as_deref(), Some("{}"));
    let (r, out) = fragment_apply_gate_finish(fresh(), &day_target(), "add", Err("未対応の intent です: x".to_string()), Ok("{}".to_string()), true, Vec::new());
    assert!(!r.valid && out.is_none());
    assert_eq!(r.errors, vec!["未対応の intent です: x".to_string()]);
    let (r, out) = fragment_apply_gate_finish(fresh(), &day_target(), "add", Ok(summary("add_itinerary")), Ok("{}".to_string()), false, vec!["days[0]: bad".to_string()]);
    assert!(out.is_none() && !r.trip_export_valid);
    assert_eq!(r.errors, vec!["apply preview が trip validate-export に合格しませんでした".to_string(), "days[0]: bad".to_string()]);
    let mut pending = fresh();
    pending.required_decisions.push("Pick".to_string());
    let (r, out) = fragment_apply_gate_finish(pending, &day_target(), "add", Ok(summary("add_itinerary")), Ok("{}".to_string()), true, Vec::new());
    assert!(!r.valid && out.is_some() && r.preview.is_some());
    assert_eq!(r.errors, vec!["required decisions が未解決です — apply preview は valid confirm candidate ではありません".to_string()]);
}

#[test]
fn materialize_steps_build_the_export() {
    let params = ProposalMaterializeParams { start_date: Some("2026-05-01".to_string()), end_date: Some("2026-05-02".to_string()) };
    let (report, out) = materialize_prelude("p.json", ENVELOPE, &params, true, false);
    assert!(report.envelope_valid, "errors: {:?}", report.errors);
    assert!(report.required_decisions.contains(&"start_date / end_date の確定".to_string()));
    let (proposal, start, end) = out.unwrap();
    assert_eq!((start.as_str(), end.as_str()), ("2026-05-01", "2026-05-02"));
    let (report, export) =
        materialize_trip_export(report, &members(proposal), &start, &end, Ok(2), "4.7.40", "2026-03-01T00:00:00+00:00", "2026-03-01 00:00:00");
    let export = export.unwrap();
    assert_eq!(export.trip.name, "Okinawa family trip (draft)");
    assert_eq!(export.trip.summary.as_deref(), Some("Dates not confirmed."));
    assert_eq!(export.days.len(), 2);
    let out = report.output.as_ref().unwrap();
    assert_eq!((out.day_count, out.itinerary_count), (2, 2));
    let (report, json) = materialize_finish(report, Ok("{}".to_string()), true, Vec::new());
    assert!(report.valid && report.trip_export_valid);
    assert_eq!(json.as_deref(), Some("{}"));
}

#[test]
fn materialize_steps_refuse_what_cannot_be_built() {
    let (report, out) = materialize_prelude("p.json", ENVELOPE, &ProposalMaterializeParams::default(), true, false);
    assert!(out.is_none());
    assert_eq!(report.errors.len(), 1);
    let (report, out) = materialize_prelude("p.json", "{bad", &ProposalMaterializeParams::default(), true, false);
    assert!(out.is_none());
    assert_eq!(report.errors[0], "Trip Proposal Envelope の validation に失敗しました（proposal validate を先に通してください）");
    let empty = members(JsonValue { kind: JsonKind::Object(Vec::new()), rendered: "{}".to_string() });
    let (report, export) = materialize_trip_export(report, &empty, "2026-05-01", "2026-05-02", Ok(2), "v", "t", "n");
    assert!(export.is_none());
    assert_eq!(
        report.errors.last().unwrap(),
        "採用可能な Day / Itinerary がありません（candidate_days / candidate_itineraries が空です）"
    );
    let (report, export) = materialize_trip_export(report, &empty, "2026-05-01", "2026-05-02", Err("end_date は start_date 以降".to_string()), "v", "t", "n");
    assert!(export.is_none());
    assert_eq!(report.errors.last().unwrap(), "end_date は start_date 以降");
    let (report, json) = materialize_finish(report, Err("boom".to_string()), true, Vec::new());
    assert!(json.is_none());
    assert_eq!(report.errors.last().unwrap(), "schema v8 Trip JSON の生成に失敗しました: boom");
}

#[test]
fn materialize_runs_the_whole_pipeline() {
    let params = ProposalMaterializeParams { start_date: Some("2026-05-01".to_string()), end_date: Some("2026-05-02".to_string()) };
    let days = |_: &str, _: &str| -> Result<i64, String> { Ok(2) };
    let to_json = |x: &caglla::models::TripExportV3| -> Result<String, String> { Ok(format!("trip:{}", x.trip.name)) };
    let pass = |_: &String| -> (bool, Vec<String>) { (true, Vec::new()) };
    let (report, json) =
        materialize_proposal_envelope_json("p.json", ENVELOPE, &params, true, false, &days, &to_json, &pass, "v", "t", "n").unwrap();
    assert!(report.valid);
    assert_eq!(json.as_deref(), Some("trip:Okinawa family trip (draft)"));
    let out = report.output.as_ref().expect("output summary");
    assert_eq!((out.day_count, out.itinerary_count), (2, 2));
    let fail = |_: &String| -> (bool, Vec<String>) { (false, vec!["bad".to_string()]) };
    let (report, json) =
        materialize_proposal_envelope_json("p.json", ENVELOPE, &params, true, false, &days, &to_json, &fail, "v", "t", "n").unwrap();
    assert!(!report.valid && json.is_none());
    assert_eq!(report.errors.last().unwrap(), "bad");
    let (report, json) = materialize_proposal_envelope_json(
        "p.json",
        ENVELOPE,
        &ProposalMaterializeParams::default(),
        true,
        false,
        &days,
        &to_json,
        &pass,
        "v",
        "t",
        "n",
    )
    .unwrap();
    assert!(!report.valid && json.is_none());
    assert_eq!(report.required_decisions.iter().filter(|d| d.as_str() == "start_date / end_date の確定").count(), 1);
}
