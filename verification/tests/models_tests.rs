use caglla::models::{
    parse_itinerary_category, CategoryDefinition, DoctorIssue, DoctorIssueCode, DoctorIssueSeverity,
    DoctorIssueTarget, IssueTargetType, ItineraryCategory, DOCTOR_REPORT_SCHEMA_VERSION,
};

#[test]
fn test_parse_invalid_itinerary_category() {
    assert!(parse_itinerary_category("invalid").is_err());
    assert!(parse_itinerary_category("lodging").is_err());
}

#[test]
fn test_category_definition_flight() {
    let def = ItineraryCategory::Flight.definition();
    assert_eq!(def.display_name, "フライト");
    assert_eq!(def.default_checklist, &["航空券確認", "身分証明書確認", "空港到着時刻確認"]);
}

#[test]
fn test_category_definition_hotel() {
    let def = ItineraryCategory::Hotel.definition();
    assert_eq!(def.display_name, "ホテル");
    assert_eq!(def.default_checklist, &["宿泊予約確認", "チェックイン時間確認", "住所確認"]);
}

#[test]
fn test_category_definition_beach() {
    let def = ItineraryCategory::Beach.definition();
    assert_eq!(def.display_name, "ビーチ");
    assert_eq!(def.default_checklist, &["水着", "タオル", "日焼け止め"]);
}

#[test]
fn test_all_itinerary_categories_have_definitions() {
    for category in ItineraryCategory::all() {
        let def = category.definition();
        assert!(!def.display_name.is_empty(), "display_name が空: {}", category.as_str());
        assert!(!def.default_checklist.is_empty(), "default_checklist が空: {}", category.as_str());
    }
}

#[test]
fn test_category_definition_matches_storage_key() {
    for category in ItineraryCategory::all() {
        let parsed = parse_itinerary_category(category.as_str()).unwrap();
        assert_eq!(parsed, category);
        let _def: CategoryDefinition = parsed.definition();
    }
}

#[test]
fn test_issue_json_uses_snake_case_code_and_envelope_fields() {
    let trip_id = 42;
    let issue = DoctorIssue {
        code: DoctorIssueCode::NoRestaurant,
        target: DoctorIssueTarget::Day(3),
        day: Some(3),
        itinerary_count: None,
        travel_minutes: None,
    };
    let json = issue.to_issue_json(trip_id);
    assert_eq!(json.code, DoctorIssueCode::NoRestaurant);
    assert_eq!(json.severity, DoctorIssueSeverity::Warning);
    assert_eq!(json.target.target_type, IssueTargetType::Day);
    assert_eq!(json.target.id, 3);
    assert_eq!(json.details.day, Some(3));
}

#[test]
fn test_issue_json_trip_target_uses_trip_id() {
    let issue = DoctorIssue {
        code: DoctorIssueCode::EmptyItinerary,
        target: DoctorIssueTarget::Trip,
        day: None,
        itinerary_count: None,
        travel_minutes: None,
    };
    let json = issue.to_issue_json(7);
    assert_eq!(json.target.target_type, IssueTargetType::Trip);
    assert_eq!(json.target.id, 7);
    assert!(json.details.is_empty());
    assert_eq!(json.severity, DoctorIssueSeverity::Info);
}

#[test]
fn test_issue_json_details_for_all_codes() {
    let overloaded = DoctorIssue {
        code: DoctorIssueCode::OverloadedDay,
        target: DoctorIssueTarget::Day(2),
        day: Some(2),
        itinerary_count: Some(8),
        travel_minutes: None,
    };
    let details = overloaded.to_issue_details();
    assert_eq!(details.day, Some(2));
    assert_eq!(details.itinerary_count, Some(8));

    let travel = DoctorIssue {
        code: DoctorIssueCode::HighTravelTime,
        target: DoctorIssueTarget::Day(4),
        day: Some(4),
        itinerary_count: None,
        travel_minutes: Some(190),
    };
    let details = travel.to_issue_details();
    assert_eq!(details.day, Some(4));
    assert_eq!(details.travel_minutes, Some(190));

    let missing = DoctorIssue {
        code: DoctorIssueCode::MissingDuration,
        target: DoctorIssueTarget::Itinerary(11),
        day: None,
        itinerary_count: None,
        travel_minutes: None,
    };
    let details = missing.to_issue_details();
    assert_eq!(details.itinerary_id, Some(11));

    let report = caglla::models::DoctorReportJson::new(1, vec![]);
    assert_eq!(report.schema_version, DOCTOR_REPORT_SCHEMA_VERSION);
}

#[test]
fn category_keys_round_trip_through_parse() {
    for category in ItineraryCategory::all() {
        assert_eq!(parse_itinerary_category(category.as_str()).unwrap(), category);
    }
    let err = parse_itinerary_category("Hotel").unwrap_err();
    assert!(err.starts_with("不正なカテゴリです: Hotel"));
}
