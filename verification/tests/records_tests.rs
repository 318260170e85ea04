use caglla::models::{Day, ExportNote, Note, NoteOwnerType};
use caglla::note::{build_export_notes, note_owner_request, NoteOwnerRequest};
use caglla::models::{ExportParticipantV4, ItineraryItem, ItineraryNoteKey};
use caglla::models::parse_note_owner_type;
use caglla::note::resolve_itinerary_id_from_export_items;
use caglla::participant::{collect_export_participant_validation_errors, compute_participant_counts};
use caglla::proposal::apply_errors::ApplyErrorCode;
use caglla::receipt::format_amount_optional;

fn test_itinerary_item(id: i64, day: i64, title: &str, start_time: Option<&str>, sort_order: i64) -> ItineraryItem {
    ItineraryItem {
        id,
        trip_id: 1,
        day,
        title: title.to_string(),
        note: None,
        start_time: start_time.map(str::to_string),
        sort_order,
        duration_minutes: None,
        travel_minutes: None,
        location: None,
        category: None,
        created_at: String::new(),
        updated_at: String::new(),
    }
}

fn itinerary_note_key(day: i64, sort_order: i64, title: &str, start_time: Option<&str>) -> ItineraryNoteKey {
    ItineraryNoteKey {
        day_number: day,
        sort_order,
        start_time: start_time.map(str::to_string),
        title: title.to_string(),
    }
}

#[test]
fn test_parse_note_owner_type_rejects_invalid() {
    assert!(parse_note_owner_type("invalid").is_err());
}

#[test]
fn test_resolve_itinerary_id_unique_by_day_and_sort_order() {
    let items = vec![test_itinerary_item(10, 3, "Breakfast", Some("07:00"), 1000)];
    let key = itinerary_note_key(3, 1000, "Breakfast", Some("07:00"));
    assert_eq!(resolve_itinerary_id_from_export_items(&items, &key).unwrap(), 10);
}

#[test]
fn test_resolve_itinerary_id_narrows_by_title_and_start_time_when_sort_order_collides() {
    let items = vec![
        test_itinerary_item(10, 3, "Existing breakfast", Some("08:00"), 1000),
        test_itinerary_item(11, 3, "Hotel breakfast", Some("07:00"), 1000),
    ];
    let key = itinerary_note_key(3, 1000, "Hotel breakfast", Some("07:00"));
    assert_eq!(resolve_itinerary_id_from_export_items(&items, &key).unwrap(), 11);
}

#[test]
fn test_resolve_itinerary_id_ambiguous_when_day_sort_title_start_time_all_match() {
    let items = vec![
        test_itinerary_item(10, 3, "Hotel breakfast", Some("07:00"), 1000),
        test_itinerary_item(11, 3, "Hotel breakfast", Some("07:00"), 1000),
    ];
    let key = itinerary_note_key(3, 1000, "Hotel breakfast", Some("07:00"));
    let err = resolve_itinerary_id_from_export_items(&items, &key).unwrap_err();
    assert!(err.to_string().contains("複数"));
}

#[test]
fn resolve_itinerary_id_not_found_is_an_error() {
    let items = vec![test_itinerary_item(10, 3, "Breakfast", Some("07:00"), 1000)];
    let key = itinerary_note_key(4, 1000, "Breakfast", Some("07:00"));
    assert!(resolve_itinerary_id_from_export_items(&items, &key).is_err());
}

#[test]
fn test_validate_export_multiple_self() {
    let participants = vec![
        ExportParticipantV4 { name: "A".to_string(), sort_order: 0, is_self: true },
        ExportParticipantV4 { name: "B".to_string(), sort_order: 1, is_self: true },
    ];
    let errors = collect_export_participant_validation_errors(&participants);
    assert!(!errors.is_empty());
}

#[test]
fn single_self_participant_is_valid() {
    let participants = vec![
        ExportParticipantV4 { name: "A".to_string(), sort_order: 0, is_self: true },
        ExportParticipantV4 { name: "B".to_string(), sort_order: 1, is_self: false },
    ];
    assert!(collect_export_participant_validation_errors(&participants).is_empty());
}

#[test]
fn test_empty_trip_counts_unknown() {
    let counts = compute_participant_counts(&[]);
    assert!(!counts.participants_recorded);
    assert!(counts.participant_count.is_none());
    assert!(counts.companion_count.is_none());
}

#[test]
fn apply_error_code_strings_are_stable() {
    assert_eq!(ApplyErrorCode::ApplyUnsupportedIntent.as_str(), "APPLY_UNSUPPORTED_INTENT");
    assert_eq!(ApplyErrorCode::ApplyUnsupportedTarget.as_str(), "APPLY_UNSUPPORTED_TARGET");
    assert_eq!(ApplyErrorCode::ApplyTargetUnresolved.as_str(), "APPLY_TARGET_UNRESOLVED");
    assert_eq!(ApplyErrorCode::ApplyTargetAmbiguous.as_str(), "APPLY_TARGET_AMBIGUOUS");
    assert_eq!(ApplyErrorCode::ApplyRequiredDecision.as_str(), "APPLY_REQUIRED_DECISION");
    assert_eq!(ApplyErrorCode::ApplyBaselineMismatch.as_str(), "APPLY_BASELINE_MISMATCH");
    assert_eq!(ApplyErrorCode::ApplyScopedWriteMultipleRows.as_str(), "APPLY_SCOPED_WRITE_MULTIPLE_ROWS");
}

#[test]
fn test_format_amount_optional_negative_decimal_currency_display() {
    let display = format_amount_optional(Some(-50), &Some("USD".to_string()));
    assert_eq!(display, "-0.50 USD");
    assert!(!display.contains("-0.500"));
}

#[test]
fn receipt_values_are_checked_before_storing() {
    let j = |s: &str| Some(s.to_string());
    assert_eq!(caglla::receipt::prepare_new_receipt_values(Some("  lunch "), None, None).unwrap(), (j("lunch"), None, None));
    assert_eq!(caglla::receipt::prepare_new_receipt_values(None, Some("12.5"), Some("usd")).unwrap(), (None, Some(1250), j("USD")));
    assert_eq!(
        caglla::receipt::prepare_new_receipt_values(None, Some("1"), None).unwrap_err(),
        "amount and currency must be provided together"
    );
    assert_eq!(
        caglla::receipt::prepare_new_receipt_values(Some("  "), None, None).unwrap_err(),
        "receipt requires memo and/or amount with currency"
    );
    assert_eq!(
        caglla::receipt::prepare_updated_receipt_values(Some(100), &j("JPY"), &None, None, None, Some(None), true).unwrap_err(),
        "receipt requires memo and/or amount with currency"
    );
    assert_eq!(
        caglla::receipt::prepare_updated_receipt_values(Some(100), &j("JPY"), &None, None, Some("USD"), None, false).unwrap_err(),
        "amount is required when updating currency"
    );
    assert_eq!(
        caglla::receipt::prepare_updated_receipt_values(Some(100), &j("JPY"), &None, Some("5"), Some("usd"), Some(Some(" m ")), false)
            .unwrap(),
        (j("m"), Some(500), j("USD"))
    );
    assert_eq!(
        caglla::receipt::prepare_updated_receipt_values(Some(100), &j("JPY"), &j("kept"), None, None, None, false).unwrap(),
        (j("kept"), Some(100), j("JPY"))
    );
}

#[test]
fn stored_notes_take_their_export_form() {
    let note = |id: i64, owner_type: NoteOwnerType, owner_id: i64| Note {
        id,
        owner_type,
        owner_id,
        title: None,
        body: format!("body {id}"),
        sort_order: 0,
        created_at: String::new(),
        updated_at: String::new(),
    };
    let day = Day {
        id: 7,
        trip_id: 1,
        day_number: 2,
        title: String::new(),
        summary: None,
        created_at: String::new(),
        updated_at: String::new(),
    };
    let items = vec![test_itinerary_item(40, 2, "Temple", Some("09:00"), 1000)];
    let notes = vec![note(1, NoteOwnerType::Trip, 1), note(2, NoteOwnerType::Day, 7), note(3, NoteOwnerType::Itinerary, 40)];
    let out = build_export_notes(notes, &vec![day.clone()], &items).unwrap();
    assert!(matches!(&out[0], ExportNote::Trip { body, .. } if body == "body 1"));
    assert!(matches!(&out[1], ExportNote::Day { day_number: 2, .. }));
    assert!(matches!(&out[2], ExportNote::Itinerary { itinerary_key, .. }
        if itinerary_key.sort_order == 1000 && itinerary_key.start_time.as_deref() == Some("09:00")));
    assert_eq!(
        build_export_notes(vec![note(4, NoteOwnerType::Day, 8)], &vec![day], &items).unwrap_err(),
        "Day Note の owner_id 8 が見つかりません"
    );
    assert_eq!(note_owner_request(Some(1), Some(2), None).unwrap(), NoteOwnerRequest::Day(1, 2));
    assert_eq!(note_owner_request(None, Some(2), None).unwrap_err(), "--day を指定する場合は --trip も必要です");
    assert_eq!(
        note_owner_request(Some(1), None, Some(3)).unwrap_err(),
        "owner は --trip、--trip + --day、--itinerary のいずれか1つだけ指定してください"
    );
}
