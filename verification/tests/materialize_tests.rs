use caglla::models::{TripExportV3, TRIP_EXPORT_SCHEMA_VERSION};
use caglla::proposal::materialize::{ProposalMaterializeDryRunReport, ProposalMaterializeParams};
use caglla::proposal::materializing::materialize_proposal_envelope_json;

const MATERIALIZE_READY: &str = r#"{
  "metadata": {
    "proposal_id": "prop-materialize-ready",
    "created_at": "2026-03-01T09:00:00Z",
    "source": "manual",
    "provider": "fixture"
  },
  "proposal": {
    "title": "Okinawa weekend draft",
    "destination": "Okinawa, Japan",
    "date_policy": "fixed_dates",
    "start_date": "2026-04-26",
    "end_date": "2026-04-27",
    "candidate_days": [
      { "day_number": 1, "summary": "Arrival" },
      { "day_number": 2, "summary": "Sightseeing" }
    ],
    "candidate_itineraries": [
      {
        "day_number": 1,
        "title": "Flight to Naha",
        "sort_order": 1,
        "category": "flight"
      },
      {
        "day_number": 2,
        "title": "Churaumi Aquarium",
        "sort_order": 1,
        "category": "activity"
      }
    ]
  },
  "materialize_hints": {
    "required_decisions": [],
    "warnings": []
  }
}"#;

/// The trip's length in days, from two `YYYY-MM-DD` dates.
fn day_count(start: &str, end: &str) -> Result<i64, String> {
    let s = chrono::NaiveDate::parse_from_str(start, "%Y-%m-%d").map_err(|e| e.to_string())?;
    let e = chrono::NaiveDate::parse_from_str(end, "%Y-%m-%d").map_err(|e| e.to_string())?;
    if e < s {
        return Err("end_date は start_date 以降である必要があります".to_string());
    }
    Ok((e - s).num_days() + 1)
}

fn object(members: Vec<(&str, serde_json::Value)>) -> serde_json::Value {
    let mut m = serde_json::Map::new();
    for (k, v) in members {
        m.insert(k.to_string(), v);
    }
    serde_json::Value::Object(m)
}

fn text(s: &Option<String>) -> serde_json::Value {
    match s {
        Some(t) => serde_json::Value::String(t.clone()),
        None => serde_json::Value::Null,
    }
}

/// A JSON text of the export's header, trip and days.
fn export_json(x: &TripExportV3) -> Result<String, String> {
    let days: Vec<serde_json::Value> = x
        .days
        .iter()
        .map(|d| {
            let titles = d.itineraries.iter().map(|i| serde_json::Value::String(i.title.clone())).collect();
            object(vec![("day_number", serde_json::Value::from(d.day_number)), ("itineraries", serde_json::Value::Array(titles))])
        })
        .collect();
    let trip = object(vec![
        ("name", serde_json::Value::String(x.trip.name.clone())),
        ("start_date", text(&x.trip.start_date)),
        ("end_date", text(&x.trip.end_date)),
    ]);
    let schema = match x.schema_version {
        Some(v) => serde_json::Value::from(v),
        None => serde_json::Value::Null,
    };
    let value = object(vec![("schema_version", schema), ("trip", trip), ("days", serde_json::Value::Array(days))]);
    serde_json::to_string_pretty(&value).map_err(|e| e.to_string())
}

/// The export's schema version, when the text is an export with a trip.
fn validate_export(json: &String) -> (bool, Vec<String>) {
    match serde_json::from_str::<serde_json::Value>(json) {
        Ok(v) if v.get("trip").is_some() && v.get("schema_version").and_then(|s| s.as_i64()).is_some() => (true, Vec::new()),
        Ok(_) => (false, vec!["schema_version / trip が必要です".to_string()]),
        Err(e) => (false, vec![e.to_string()]),
    }
}

fn materialize(json: &str, params: &ProposalMaterializeParams) -> (ProposalMaterializeDryRunReport, Option<String>) {
    materialize_proposal_envelope_json(
        "test.json",
        json,
        params,
        true,
        false,
        &day_count,
        &export_json,
        &validate_export,
        "0.1.0",
        "2026-03-01T00:00:00+00:00",
        "2026-03-01 00:00:00",
    )
    .expect("candidate lists fit")
}

#[test]
fn dry_run_generates_valid_trip_export() {
    let (report, json) = materialize(MATERIALIZE_READY, &ProposalMaterializeParams::default());
    assert!(report.valid, "errors: {:?}", report.errors);
    assert!(report.envelope_valid);
    assert!(report.trip_export_valid);
    let json = json.expect("trip json");
    assert!(validate_export(&json).0);
    let value: serde_json::Value = serde_json::from_str(&json).unwrap();
    assert_eq!(value["schema_version"].as_i64(), Some(TRIP_EXPORT_SCHEMA_VERSION as i64));
    assert_eq!(value["days"].as_array().unwrap().len(), 2);
    let out = report.output.expect("output summary");
    assert_eq!((out.day_count, out.itinerary_count), (2, 2));
}

#[test]
fn unresolved_dates_block_materialize() {
    let json = r#"{
      "metadata": { "created_at": "2026-03-01T09:00:00Z", "source": "ai" },
      "proposal": {
        "title": "Undated trip",
        "destination": "Kyoto",
        "date_policy": "undated",
        "candidate_days": [{ "label": "Day 1", "summary": "Walk" }],
        "notes": "Dates TBD"
      }
    }"#;
    let (report, trip_json) = materialize(json, &ProposalMaterializeParams::default());
    assert!(!report.valid);
    assert!(trip_json.is_none());
    assert!(report.errors.iter().any(|e| e.contains("start_date") || e.contains("end_date")));
}

#[test]
fn cli_date_flags_resolve_flexible_envelope() {
    let json = r#"{
      "metadata": { "created_at": "2026-03-01T09:00:00Z", "source": "ai" },
      "proposal": {
        "title": "Flexible trip",
        "destination": "Kyoto",
        "date_policy": "flexible_dates",
        "candidate_days": [{ "summary": "Temple visit" }],
        "notes": "Hotel pending"
      }
    }"#;
    let params = ProposalMaterializeParams {
        start_date: Some("2026-05-01".to_string()),
        end_date: Some("2026-05-01".to_string()),
    };
    let (report, json) = materialize(json, &params);
    assert!(report.valid, "errors: {:?}", report.errors);
    let json = json.expect("trip json");
    assert!(validate_export(&json).0);
}

#[test]
fn utc_now_reads_the_clock() {
    let now = caglla::time::utc_now();
    assert!(now.0 > 1_700_000_000);
    assert!(now.1 < 1_000_000_000);
}
