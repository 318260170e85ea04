use caglla::proposal::envelope::{
    analyze_proposal_envelope_json, is_not_proposal_envelope_file, run_proposal_show, run_proposal_validate,
};
use caglla::proposal::fragment::{
    analyze_proposal_fragment_json, is_update_estimate_field_key, is_update_itinerary_field_key,
    run_fragment_validate,
};

const VALID_ENVELOPE: &str = r#"{
  "metadata": {
    "proposal_id": "prop-test-01",
    "created_at": "2026-03-01T09:00:00Z",
    "source": "ai",
    "provider": "test-model"
  },
  "proposal": {
    "title": "Okinawa family trip (draft)",
    "destination": "Okinawa, Japan",
    "date_policy": "flexible_dates",
    "candidate_days": [{ "label": "Day 1", "summary": "Arrival" }],
    "notes": "Dates not confirmed."
  },
  "materialize_hints": {
    "missing_fields": ["hotel booking"],
    "assumptions": ["Family of five"],
    "warnings": []
  }
}"#;

#[test]
fn valid_envelope_passes() {
    let report = analyze_proposal_envelope_json("test.json", VALID_ENVELOPE);
    assert!(report.valid, "errors: {:?}", report.errors);
    assert_eq!(report.summary.title.as_deref(), Some("Okinawa family trip (draft)"));
}

#[test]
fn envelope_json_parse_error_fails() {
    let report = analyze_proposal_envelope_json("test.json", "{not json");
    assert!(!report.valid);
    assert!(report.errors.iter().any(|e| e.contains("parse")));
}

#[test]
fn missing_title_fails() {
    let json = r#"{"proposal":{"destination":"X","date_policy":"undated","notes":"n"}}"#;
    let report = analyze_proposal_envelope_json("test.json", json);
    assert!(!report.valid);
    assert!(report.errors.iter().any(|e| e.contains("title")));
}

#[test]
fn missing_destination_fails() {
    let json = r#"{"proposal":{"title":"T","date_policy":"undated","notes":"n"}}"#;
    let report = analyze_proposal_envelope_json("test.json", json);
    assert!(!report.valid);
    assert!(report.errors.iter().any(|e| e.contains("destination")));
}

#[test]
fn missing_date_policy_fails() {
    let json = r#"{"proposal":{"title":"T","destination":"D","notes":"n"}}"#;
    let report = analyze_proposal_envelope_json("test.json", json);
    assert!(!report.valid);
    assert!(report.errors.iter().any(|e| e.contains("date_policy")));
}

#[test]
fn unknown_date_policy_fails() {
    let json = r#"{"proposal":{"title":"T","destination":"D","date_policy":"maybe","notes":"n"}}"#;
    let report = analyze_proposal_envelope_json("test.json", json);
    assert!(!report.valid);
    assert!(report.errors.iter().any(|e| e.contains("date_policy") && e.contains("maybe")));
}

#[test]
fn schema_v8_trip_like_fails() {
    let json = r#"{"schema_version":8,"trip":{"name":"T","start_date":"2026-01-01","end_date":"2026-01-02"},"days":[]}"#;
    let report = analyze_proposal_envelope_json("test.json", json);
    assert!(!report.valid);
    assert!(report.errors.iter().any(|e| e.contains("schema_version")));
}

#[test]
fn stale_valid_until_warns_but_passes() {
    let json = r#"{
      "metadata": {
        "created_at": "2024-01-01T00:00:00Z",
        "valid_until": "2024-06-01T00:00:00Z",
        "source": "ai"
      },
      "proposal": {
        "title": "Old trip",
        "destination": "Somewhere",
        "date_policy": "undated",
        "notes": "Still readable"
      }
    }"#;
    let report = analyze_proposal_envelope_json("test.json", json);
    assert!(report.valid, "errors: {:?}", report.errors);
    assert!(report.warnings.iter().any(|w| w.contains("valid_until")));
}

#[test]
fn fixed_dates_without_dates_fails() {
    let json = r#"{"proposal":{"title":"T","destination":"D","date_policy":"fixed_dates","notes":"n"}}"#;
    let report = analyze_proposal_envelope_json("test.json", json);
    assert!(!report.valid);
    assert!(report.errors.iter().any(|e| e.contains("fixed_dates")));
}

#[test]
fn nearly_empty_body_fails() {
    let json = r#"{"proposal":{"title":"T","destination":"D","date_policy":"undated"}}"#;
    let report = analyze_proposal_envelope_json("test.json", json);
    assert!(!report.valid);
    assert!(report.errors.iter().any(|e| e.contains("空に近い")));
}

#[test]
fn fixed_dates_with_confirmed_range_passes() {
    let json = r#"{"proposal":{"title":"T","destination":"D","date_policy":"fixed_dates",
      "candidate_date_ranges":[{"start":"2026-05-01","end":"2026-05-03","confirmed":true}]}}"#;
    let report = analyze_proposal_envelope_json("test.json", json);
    assert!(report.valid, "errors: {:?}", report.errors);
}

#[test]
fn envelope_messages_are_exact() {
    let report = analyze_proposal_envelope_json("a.json", "[1, 2]");
    assert_eq!(report.errors, vec!["トップレベルが JSON object ではありません".to_string()]);
    assert!(report.warnings.is_empty());
    assert_eq!(report.file, "a.json");
    assert_eq!(report.document_kind, "trip_proposal_envelope");

    let report = analyze_proposal_envelope_json("a.json", r#"{"proposal": 3}"#);
    assert_eq!(report.errors, vec!["proposal は object である必要があります".to_string()]);

    let report = analyze_proposal_envelope_json("a.json", r#"{"days": []}"#);
    assert_eq!(
        report.errors,
        vec![
            "days 配列のみの export 形式です — Trip Proposal Envelope ではありません".to_string(),
            "Trip Proposal Envelope には proposal object が必要です".to_string(),
        ]
    );
}

#[test]
fn envelope_warnings_follow_metadata_and_hints() {
    let json = r#"{"metadata":{"created_at":"2026-03-01T09:00:00Z","valid_until":"2999-01-01T00:00:00Z","source":"ai","provider":"m"},
      "proposal":{"title":"T","destination":"D","date_policy":"undated","candidate_days":[{"label":"Day 1"}]},
      "materialize_hints":{"missing_fields":["hotel booking"],"assumptions":["Family of five"],"warnings":[]}}"#;
    let report = analyze_proposal_envelope_json("test.json", json);
    assert_eq!(
        report.warnings,
        vec![
            "materialize_hints.missing_fields があります".to_string(),
            "materialize_hints.assumptions があります".to_string(),
            "proposal.candidate_itineraries が空です".to_string(),
        ]
    );
    let json = r#"{"metadata":{"valid_until":"someday","source":"s","provider":"p"},
      "proposal":{"title":"T","destination":"D","date_policy":"undated","notes":"n","candidate_days":[1],"candidate_itineraries":[1]}}"#;
    let report = analyze_proposal_envelope_json("test.json", json);
    assert_eq!(
        report.warnings,
        vec![
            "metadata.created_at がありません".to_string(),
            "metadata.valid_until の形式を解釈できません: someday".to_string(),
        ]
    );
    let json = r#"{"metadata":{"created_at":"2001-01-01","source":"s","provider":"p"},
      "proposal":{"title":"T","destination":"D","date_policy":"undated","notes":"n","candidate_days":[1],"candidate_itineraries":[1]}}"#;
    let report = analyze_proposal_envelope_json("test.json", json);
    assert_eq!(
        report.warnings,
        vec!["metadata.valid_until がなく、created_at から 1 年を超えています（提案が古い可能性）".to_string()]
    );
}

#[test]
fn envelope_validate_and_show_outcomes() {
    let (report, outcome) = run_proposal_validate("test.json", VALID_ENVELOPE);
    assert!(report.valid);
    assert!(outcome.is_ok());
    let (_, outcome) = run_proposal_validate("test.json", r#"{"proposal":{}}"#);
    assert_eq!(outcome.unwrap_err(), "無効な Trip Proposal Envelope ファイルです");

    let (view, outcome) = run_proposal_show("test.json", VALID_ENVELOPE);
    assert!(outcome.is_ok());
    assert!(!is_not_proposal_envelope_file(&view.report));
    assert_eq!(view.details.proposal_id.as_deref(), Some("prop-test-01"));
    assert_eq!(view.details.candidate_days_count, 1);
    assert_eq!(view.details.candidate_days_preview, vec!["Day 1: Arrival [date TBD]".to_string()]);
    assert_eq!(view.details.missing_fields, vec!["hotel booking".to_string()]);
    assert_eq!(view.details.assumptions_count, 1);
    assert!(!view.details.expired);

    let (view, outcome) = run_proposal_show("test.json", "{oops");
    assert!(is_not_proposal_envelope_file(&view.report));
    assert_eq!(outcome.unwrap_err(), "Trip Proposal Envelope として読めないファイルです");
}

#[test]
fn envelope_date_range_preview_and_expiry() {
    let json = r#"{"metadata":{"valid_until":"2020-01-01 00:00:00"},
      "proposal":{"title":"T","destination":"D","date_policy":"undated",
        "candidate_date_ranges":[{"label":"GW","start":"2026-05-01","confirmed":true}, 5]}}"#;
    let (view, _) = run_proposal_show("x.json", json);
    assert_eq!(view.details.candidate_date_ranges_count, 2);
    assert_eq!(view.details.candidate_date_ranges_preview, vec!["GW: 2026-05-01 .. ? (confirmed=true)".to_string()]);
    assert!(view.details.expired);
}

const VALID_FRAGMENT: &str = r#"{
  "metadata": {
    "fragment_id": "frag-test-01",
    "created_at": "2026-03-15T14:00:00Z",
    "source": "ai",
    "provider": "test-model"
  },
  "target": {
    "target_type": "day",
    "trip_reference": "Example Trip",
    "day_reference": 2
  },
  "fragment": {
    "intent": "add",
    "candidate_content": { "title": "Lunch candidate" },
    "notes": "Hours not verified."
  },
  "adoption_hints": {
    "missing_fields": ["opening hours"],
    "conflicts": [],
    "warnings": []
  }
}"#;

#[test]
fn valid_fragment_passes() {
    let report = analyze_proposal_fragment_json("test.json", VALID_FRAGMENT);
    assert!(report.valid, "errors: {:?}", report.errors);
    assert_eq!(report.summary.intent.as_deref(), Some("add"));
}

#[test]
fn fragment_json_parse_error_fails() {
    let report = analyze_proposal_fragment_json("test.json", "{bad");
    assert!(!report.valid);
}

#[test]
fn missing_target_fails() {
    let json = r#"{"fragment":{"intent":"add","candidate_content":{"title":"x"},"notes":"n"}}"#;
    let report = analyze_proposal_fragment_json("test.json", json);
    assert!(!report.valid);
    assert!(report.errors.iter().any(|e| e.contains("target")));
}

#[test]
fn missing_intent_fails() {
    let json = r#"{"target":{"target_type":"day"},"fragment":{"candidate_content":{"title":"x"}}}"#;
    let report = analyze_proposal_fragment_json("test.json", json);
    assert!(!report.valid);
    assert!(report.errors.iter().any(|e| e.contains("intent")));
}

#[test]
fn unknown_target_type_fails() {
    let json = r#"{"target":{"target_type":"planet"},"fragment":{"intent":"add","notes":"n"}}"#;
    let report = analyze_proposal_fragment_json("test.json", json);
    assert!(!report.valid);
    assert!(report.errors.iter().any(|e| e.contains("target_type")));
}

#[test]
fn unknown_intent_fails() {
    let json = r#"{"target":{"target_type":"day"},"fragment":{"intent":"maybe","notes":"n"}}"#;
    let report = analyze_proposal_fragment_json("test.json", json);
    assert!(!report.valid);
    assert!(report.errors.iter().any(|e| e.contains("intent")));
}

#[test]
fn unresolved_target_warns_but_passes() {
    let json = r#"{
      "metadata": {"created_at": "2026-01-01T00:00:00Z", "source": "ai"},
      "target": {"target_type": "unresolved", "unresolved_target_hints": ["pick a day"]},
      "fragment": {"intent": "add", "notes": "TBD"}
    }"#;
    let report = analyze_proposal_fragment_json("test.json", json);
    assert!(report.valid, "errors: {:?}", report.errors);
    assert!(report.warnings.iter().any(|w| w.contains("unresolved")));
}

#[test]
fn schema_v8_trip_fails() {
    let json = r#"{"schema_version":8,"trip":{"name":"T"},"days":[]}"#;
    let report = analyze_proposal_fragment_json("test.json", json);
    assert!(!report.valid);
    assert!(report.errors.iter().any(|e| e.contains("schema_version")));
}

#[test]
fn envelope_fails() {
    let json = r#"{"proposal":{"title":"T","destination":"D","date_policy":"undated","notes":"n"}}"#;
    let report = analyze_proposal_fragment_json("test.json", json);
    assert!(!report.valid);
    assert!(report.errors.iter().any(|e| e.contains("Envelope")));
}

#[test]
fn fragment_summary_quotes_references() {
    let report = analyze_proposal_fragment_json("test.json", VALID_FRAGMENT);
    assert_eq!(report.summary.target_summary.as_deref(), Some("trip=Example Trip, day=2"));
    assert_eq!(report.summary.missing_fields_count, 1);
    assert_eq!(report.summary.conflicts_count, 0);
    assert_eq!(report.summary.warnings_count, report.warnings.len());
    assert_eq!(report.warnings[0], "metadata.valid_until がありません");
    assert!(report.warnings.contains(&"adoption_hints.missing_fields があります".to_string()));
    let json = r#"{"target":{"target_type":"itinerary","itinerary_reference":"Lunch"},
      "fragment":{"intent":"add_note","candidate_content":{"body":"  "}}}"#;
    let report = analyze_proposal_fragment_json("test.json", json);
    assert_eq!(report.summary.target_summary.as_deref(), Some("itinerary=\"Lunch\""));
    assert_eq!(report.errors, vec!["fragment body が空に近いです（candidate_content または notes が必要）".to_string()]);
    assert!(report.warnings.contains(&"target reference が曖昧です（trip 参照がありません）".to_string()));
    assert!(report.warnings.contains(&"target reference が曖昧です（itinerary 参照の文脈が不足）".to_string()));
}

#[test]
fn fragment_body_rules_per_intent() {
    let expense_ok = r#"{"target":{"target_type":"itinerary","trip_id":1,"day_id":2},
      "fragment":{"intent":"add_expense","candidate_content":{"amount":1200,"currency":"JPY"}}}"#;
    assert!(analyze_proposal_fragment_json("t", expense_ok).valid);
    let expense_missing = r#"{"target":{"target_type":"itinerary","trip_id":1,"day_id":2},
      "fragment":{"intent":"add_expense","candidate_content":{"amount":null,"currency":"JPY"}}}"#;
    assert!(!analyze_proposal_fragment_json("t", expense_missing).valid);
    let update_estimate = r#"{"target":{"target_type":"itinerary","trip_id":1,"day_id":2},
      "fragment":{"intent":"update_estimate","candidate_content":{"estimate_id":4}}}"#;
    assert!(analyze_proposal_fragment_json("t", update_estimate).valid);
    let update_itinerary = r#"{"target":{"target_type":"itinerary","trip_id":1,"day_id":2},
      "fragment":{"intent":"update_itinerary","candidate_content":{"colour":"red"}}}"#;
    assert!(!analyze_proposal_fragment_json("t", update_itinerary).valid);
    let delete = r#"{"target":{"target_type":"itinerary","trip_id":1,"day_id":2},
      "fragment":{"intent":"delete_itinerary"}}"#;
    assert!(analyze_proposal_fragment_json("t", delete).valid);
    let reservation = r#"{"target":{"target_type":"itinerary","trip_id":1,"day_id":2},
      "fragment":{"intent":"add_reservation","candidate_content":{"type":"hotel","provider_name":"Inn"}}}"#;
    assert!(analyze_proposal_fragment_json("t", reservation).valid);
}

#[test]
fn fragment_validate_outcome() {
    let (report, outcome) = run_fragment_validate("test.json", VALID_FRAGMENT);
    assert!(report.valid && outcome.is_ok());
    let (_, outcome) = run_fragment_validate("test.json", "{}");
    assert_eq!(outcome.unwrap_err(), "無効な Proposal Fragment ファイルです");
}

#[test]
fn update_field_keys() {
    assert!(is_update_estimate_field_key("expected_sort_order"));
    assert!(!is_update_estimate_field_key("location"));
    assert!(is_update_itinerary_field_key("travel"));
    assert!(!is_update_itinerary_field_key("amount"));
}
