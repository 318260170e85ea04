//! Data models of trips, itineraries, notes, expenses and their export forms,
//! together with the trip doctor/advisor issue model.
use vstd::prelude::*;

use crate::stats::{format_minutes_duration, minutes_duration_text};
use crate::text::{int_decimal, nat_decimal, owned, push_i64_decimal, push_str, str_eq};

verus! {

/// One row of the `days` table.
#[derive(Clone, Debug, PartialEq, Eq)]
pub struct Day {
    pub id: i64,
    pub trip_id: i64,
    pub day_number: i64,
    pub title: String,
    pub summary: Option<String>,
    pub created_at: String,
    pub updated_at: String,
}

/// What a note is attached to.
#[derive(Clone, Copy, Debug, PartialEq, Eq, Structural)]
pub enum NoteOwnerType {
    Trip,
    Day,
    Itinerary,
}

/// Storage key of a note owner type.
pub open spec fn note_owner_key(t: NoteOwnerType) -> Seq<char> {
    match t {
        NoteOwnerType::Trip => "trip"@,
        NoteOwnerType::Day => "day"@,
        NoteOwnerType::Itinerary => "itinerary"@,
    }
}

/// What `parse_note_owner_type` gives for a text.
pub open spec fn note_owner_parse(value: Seq<char>) -> Result<NoteOwnerType, Seq<char>> {
    if value == "trip"@ {
        Ok(NoteOwnerType::Trip)
    } else if value == "day"@ {
        Ok(NoteOwnerType::Day)
    } else if value == "itinerary"@ {
        Ok(NoteOwnerType::Itinerary)
    } else {
        Err("invalid owner_type: "@ + value)
    }
}

impl NoteOwnerType {
    /// The storage key (`trip`, `day`, `itinerary`).
    pub fn as_str(self) -> (r: &'static str)
        ensures
            r@ == note_owner_key(self),
    {
        match self {
            NoteOwnerType::Trip => "trip",
            NoteOwnerType::Day => "day",
            NoteOwnerType::Itinerary => "itinerary",
        }
    }
}

/// Reads a note owner type from its storage key.
pub fn parse_note_owner_type(value: &str) -> (r: Result<NoteOwnerType, String>)
    ensures
        crate::text::result_view(r) == note_owner_parse(value@),
{
    if str_eq(value, "trip") {
        Ok(NoteOwnerType::Trip)
    } else if str_eq(value, "day") {
        Ok(NoteOwnerType::Day)
    } else if str_eq(value, "itinerary") {
        Ok(NoteOwnerType::Itinerary)
    } else {
        let mut msg = owned("invalid owner_type: ");
        push_str(&mut msg, value);
        Err(msg)
    }
}

/// Reading back the key of a note owner type gives that type.
pub proof fn lemma_note_owner_key_roundtrip(t: NoteOwnerType)
    ensures
        note_owner_parse(note_owner_key(t)) == Ok::<NoteOwnerType, Seq<char>>(t),
{
    reveal_strlit("trip");
    reveal_strlit("day");
    reveal_strlit("itinerary");
    assert("trip"@.len() == 4 && "day"@.len() == 3 && "itinerary"@.len() == 9);
}

/// One row of the `notes` table.
#[derive(Clone, Debug, PartialEq, Eq)]
pub struct Note {
    pub id: i64,
    pub owner_type: NoteOwnerType,
    pub owner_id: i64,
    pub title: Option<String>,
    pub body: String,
    pub sort_order: i64,
    pub created_at: String,
    pub updated_at: String,
}

/// One row of the `reservations` table.
#[derive(Clone, Debug, PartialEq, Eq)]
pub struct Reservation {
    pub id: i64,
    pub itinerary_id: i64,
    pub reservation_type: String,
    pub provider_name: String,
    pub confirmation_code: Option<String>,
    pub reservation_site_url: Option<String>,
    pub remark: Option<String>,
    pub start_at: Option<String>,
    pub end_at: Option<String>,
    pub created_at: String,
    pub updated_at: String,
}

/// One row of the `expenses` table.
#[derive(Clone, Debug, PartialEq, Eq)]
pub struct Expense {
    pub id: i64,
    pub itinerary_id: i64,
    pub title: Option<String>,
    pub amount: i64,
    pub currency: String,
    pub paid_by_name: Option<String>,
    pub paid_by_participant_id: Option<i64>,
    pub expense_date: Option<String>,
    pub note: Option<String>,
    pub sort_order: i64,
    pub created_at: String,
    pub updated_at: String,
}

/// One row of the `expense_beneficiaries` table.
#[derive(Clone, Debug, PartialEq, Eq)]
pub struct ExpenseBeneficiary {
    pub id: i64,
    pub expense_id: i64,
    pub participant_id: i64,
    pub sort_order: i32,
    pub created_at: String,
    pub updated_at: String,
}

/// One row of the `estimates` table.
#[derive(Clone, Debug, PartialEq, Eq)]
pub struct Estimate {
    pub id: i64,
    pub itinerary_id: i64,
    pub title: Option<String>,
    pub amount: i64,
    pub currency: String,
    pub note: Option<String>,
    pub sort_order: i64,
    pub created_at: String,
    pub updated_at: String,
}

/// One row of the `trips` table.
#[derive(Clone, Debug, PartialEq, Eq)]
pub struct Trip {
    pub id: i64,
    pub name: String,
    pub start_date: Option<String>,
    pub end_date: Option<String>,
    pub summary: Option<String>,
    pub created_at: String,
    pub updated_at: String,
}

/// Kinds of issue that trip doctor / advisor report.
#[derive(Clone, Copy, Debug, PartialEq, Eq, Structural)]
pub enum DoctorIssueCode {
    EmptyItinerary,
    OverloadedDay,
    NoRestaurant,
    HighTravelTime,
    MissingDuration,
    ParticipantsNotRecorded,
    SelfParticipantUnknown,
    MultipleSelfParticipants,
    SharedExpenseSingleBeneficiary,
    PaidByNameParticipantMismatch,
    DuplicateParticipantNames,
}

/// What an issue is about (internal model).
#[derive(Clone, Copy, Debug, PartialEq, Eq, Structural)]
pub enum DoctorIssueTarget {
    Trip,
    Day(i64),
    Itinerary(i64),
    Expense(i64),
}

/// Kind of the issue target in JSON output.
#[derive(Clone, Copy, Debug, PartialEq, Eq, Structural)]
pub enum IssueTargetType {
    Trip,
    Day,
    Itinerary,
    Expense,
}

/// The issue target in JSON output (`id`'s meaning depends on `target_type`).
#[derive(Clone, Copy, Debug, PartialEq, Eq, Structural)]
pub struct IssueTarget {
    pub target_type: IssueTargetType,
    pub id: i64,
}

impl IssueTarget {
    /// A trip target carries the trip id; the others carry their own id.
    pub fn from_doctor_target(target: DoctorIssueTarget, trip_id: i64) -> (r: Self)
        ensures
            r == (match target {
                DoctorIssueTarget::Trip => IssueTarget { target_type: IssueTargetType::Trip, id: trip_id },
                DoctorIssueTarget::Day(day) => IssueTarget { target_type: IssueTargetType::Day, id: day },
                DoctorIssueTarget::Itinerary(id) => IssueTarget {
                    target_type: IssueTargetType::Itinerary,
                    id,
                },
                DoctorIssueTarget::Expense(id) => IssueTarget { target_type: IssueTargetType::Expense, id },
            }),
    {
        match target {
            DoctorIssueTarget::Trip => IssueTarget { target_type: IssueTargetType::Trip, id: trip_id },
            DoctorIssueTarget::Day(day) => IssueTarget { target_type: IssueTargetType::Day, id: day },
            DoctorIssueTarget::Itinerary(id) => IssueTarget {
                target_type: IssueTargetType::Itinerary,
                id,
            },
            DoctorIssueTarget::Expense(id) => IssueTarget { target_type: IssueTargetType::Expense, id },
        }
    }
}

/// Extra data of an issue in JSON output (which fields are used depends on the code).
#[derive(Clone, Copy, Debug, PartialEq, Eq, Structural)]
pub struct IssueDetails {
    pub day: Option<i64>,
    pub itinerary_id: Option<i64>,
    pub itinerary_count: Option<usize>,
    pub travel_minutes: Option<i64>,
    pub expense_id: Option<i64>,
}

/// Details with every field unset.
pub open spec fn empty_details() -> IssueDetails {
    IssueDetails { day: None, itinerary_id: None, itinerary_count: None, travel_minutes: None, expense_id: None }
}

impl Default for IssueDetails {
    fn default() -> (r: Self)
        ensures
            r == empty_details(),
    {
        IssueDetails { day: None, itinerary_id: None, itinerary_count: None, travel_minutes: None, expense_id: None }
    }
}

impl IssueDetails {
    /// Whether no field is set.
    pub fn is_empty(&self) -> (r: bool)
        ensures
            r == (*self == empty_details()),
    {
        self.day.is_none() && self.itinerary_id.is_none() && self.itinerary_count.is_none()
            && self.travel_minutes.is_none() && self.expense_id.is_none()
    }
}

/// Severity of an issue in JSON output.
#[derive(Clone, Copy, Debug, PartialEq, Eq, Structural)]
pub enum DoctorIssueSeverity {
    Info,
    Warning,
}

/// One issue in trip doctor JSON output.
#[derive(Clone, Debug, PartialEq, Eq)]
pub struct DoctorIssueJson {
    pub code: DoctorIssueCode,
    pub severity: DoctorIssueSeverity,
    pub message: String,
    pub target: IssueTarget,
    pub details: IssueDetails,
}

/// Schema version of the trip doctor JSON envelope.
pub const DOCTOR_REPORT_SCHEMA_VERSION: i32 = 1;

/// The trip doctor `--json` envelope.
#[derive(Clone, Debug, PartialEq, Eq)]
pub struct DoctorReportJson {
    pub schema_version: i32,
    pub trip_id: i64,
    pub issues: Vec<DoctorIssueJson>,
}

impl DoctorReportJson {
    pub fn new(trip_id: i64, issues: Vec<DoctorIssueJson>) -> (r: Self)
        ensures
            r.schema_version == DOCTOR_REPORT_SCHEMA_VERSION,
            r.trip_id == trip_id,
            r.issues == issues,
    {
        DoctorReportJson { schema_version: DOCTOR_REPORT_SCHEMA_VERSION, trip_id, issues }
    }
}

/// One trip advisor JSON entry (diagnosis plus advice).
#[derive(Clone, Debug, PartialEq, Eq)]
pub struct AdvisorIssueJson {
    pub issue: DoctorIssueJson,
    pub advice: Vec<String>,
    pub commands: Vec<String>,
}

/// Schema version of the trip advisor JSON envelope.
pub const ADVISOR_REPORT_SCHEMA_VERSION: i32 = 1;

/// The trip advisor `--json` envelope.
#[derive(Clone, Debug, PartialEq, Eq)]
pub struct AdvisorReportJson {
    pub schema_version: i32,
    pub trip_id: i64,
    pub with_commands: bool,
    pub issues: Vec<AdvisorIssueJson>,
}

impl AdvisorReportJson {
    pub fn new(trip_id: i64, with_commands: bool, issues: Vec<AdvisorIssueJson>) -> (r: Self)
        ensures
            r.schema_version == ADVISOR_REPORT_SCHEMA_VERSION,
            r.trip_id == trip_id,
            r.with_commands == with_commands,
            r.issues == issues,
    {
        AdvisorReportJson { schema_version: ADVISOR_REPORT_SCHEMA_VERSION, trip_id, with_commands, issues }
    }
}

/// One issue found by trip doctor / advisor.
#[derive(Clone, Copy, Debug, PartialEq, Eq, Structural)]
pub struct DoctorIssue {
    pub code: DoctorIssueCode,
    pub target: DoctorIssueTarget,
    pub day: Option<i64>,
    pub itinerary_count: Option<usize>,
    pub travel_minutes: Option<i64>,
}

pub open spec fn issue_target_day(issue: DoctorIssue) -> Option<i64> {
    match issue.target {
        DoctorIssueTarget::Day(day) => Some(day),
        _ => issue.day,
    }
}

pub open spec fn issue_target_itinerary_id(issue: DoctorIssue) -> Option<i64> {
    match issue.target {
        DoctorIssueTarget::Itinerary(id) => Some(id),
        _ => None,
    }
}

pub open spec fn opt_or_zero(o: Option<i64>) -> int {
    match o {
        Some(v) => v as int,
        None => 0,
    }
}

/// The one-line message of an issue.
pub open spec fn issue_message(issue: DoctorIssue) -> Seq<char> {
    let day = int_decimal(opt_or_zero(issue_target_day(issue)));
    match issue.code {
        DoctorIssueCode::EmptyItinerary => "No itinerary found."@,
        DoctorIssueCode::OverloadedDay => "Day "@ + day + " has many itineraries ("@ + nat_decimal(
            match issue.itinerary_count {
                Some(c) => c as nat,
                None => 0,
            },
        ) + ")"@,
        DoctorIssueCode::NoRestaurant => "Day "@ + day + " has no restaurant"@,
        DoctorIssueCode::HighTravelTime => "Day "@ + day + " has high travel time ("@
            + minutes_duration_text(opt_or_zero(issue.travel_minutes)) + ")"@,
        DoctorIssueCode::MissingDuration => match issue.target {
            DoctorIssueTarget::Itinerary(id) => "Itinerary "@ + int_decimal(id as int) + " has no duration estimate"@,
            _ => "1 itinerary has no duration estimate"@,
        },
        DoctorIssueCode::ParticipantsNotRecorded => "No participants recorded for this trip."@,
        DoctorIssueCode::SelfParticipantUnknown => "Participants are recorded but self is not marked."@,
        DoctorIssueCode::MultipleSelfParticipants => "Multiple self participants are recorded (data error)."@,
        DoctorIssueCode::SharedExpenseSingleBeneficiary => match issue.target {
            DoctorIssueTarget::Expense(id) => "Expense "@ + int_decimal(id as int)
                + " has only one beneficiary (shared split with one person)"@,
            _ => "Expense has only one beneficiary (shared split with one person)"@,
        },
        DoctorIssueCode::PaidByNameParticipantMismatch => match issue.target {
            DoctorIssueTarget::Expense(id) => "Expense "@ + int_decimal(id as int)
                + ": paid_by_name does not match payer participant name"@,
            _ => "paid_by_name does not match payer participant name"@,
        },
        DoctorIssueCode::DuplicateParticipantNames => "Duplicate participant names in this trip (ambiguous export refs)"@,
    }
}

pub open spec fn issue_severity_of(code: DoctorIssueCode) -> DoctorIssueSeverity {
    match code {
        DoctorIssueCode::EmptyItinerary
        | DoctorIssueCode::ParticipantsNotRecorded
        | DoctorIssueCode::SelfParticipantUnknown => DoctorIssueSeverity::Info,
        _ => DoctorIssueSeverity::Warning,
    }
}

/// The `details` of an issue in JSON output.
pub open spec fn issue_details_of(issue: DoctorIssue) -> IssueDetails {
    match issue.code {
        DoctorIssueCode::OverloadedDay => IssueDetails {
            day: issue_target_day(issue),
            itinerary_count: issue.itinerary_count,
            ..empty_details()
        },
        DoctorIssueCode::NoRestaurant => IssueDetails { day: issue_target_day(issue), ..empty_details() },
        DoctorIssueCode::HighTravelTime => IssueDetails {
            day: issue_target_day(issue),
            travel_minutes: issue.travel_minutes,
            ..empty_details()
        },
        DoctorIssueCode::MissingDuration => IssueDetails {
            itinerary_id: issue_target_itinerary_id(issue),
            ..empty_details()
        },
        DoctorIssueCode::SharedExpenseSingleBeneficiary
        | DoctorIssueCode::PaidByNameParticipantMismatch => IssueDetails {
            expense_id: match issue.target {
                DoctorIssueTarget::Expense(id) => Some(id),
                _ => None,
            },
            ..empty_details()
        },
        _ => empty_details(),
    }
}

impl DoctorIssue {
    /// The target day (`DoctorIssueTarget::Day`, else the `day` field).
    pub fn target_day(&self) -> (r: Option<i64>)
        ensures
            r == issue_target_day(*self),
    {
        match self.target {
            DoctorIssueTarget::Day(day) => Some(day),
            _ => self.day,
        }
    }

    /// The target itinerary id (`DoctorIssueTarget::Itinerary` only).
    pub fn target_itinerary_id(&self) -> (r: Option<i64>)
        ensures
            r == issue_target_itinerary_id(*self),
    {
        match self.target {
            DoctorIssueTarget::Itinerary(id) => Some(id),
            _ => None,
        }
    }

    /// The one-line message shown for the issue.
    pub fn warning_message(&self) -> (r: String)
        ensures
            r@ == issue_message(*self),
    {
        let day: i64 = match self.target_day() {
            Some(d) => d,
            None => 0,
        };
        match self.code {
            DoctorIssueCode::EmptyItinerary => owned("No itinerary found."),
            DoctorIssueCode::OverloadedDay => {
                let mut s = owned("Day ");
                push_i64_decimal(&mut s, day);
                push_str(&mut s, " has many itineraries (");
                let count: usize = match self.itinerary_count {
                    Some(c) => c,
                    None => 0,
                };
                crate::text::push_u64_decimal(&mut s, count as u64);
                push_str(&mut s, ")");
                s
            },
            DoctorIssueCode::NoRestaurant => {
                let mut s = owned("Day ");
                push_i64_decimal(&mut s, day);
                push_str(&mut s, " has no restaurant");
                s
            },
            DoctorIssueCode::HighTravelTime => {
                let mut s = owned("Day ");
                push_i64_decimal(&mut s, day);
                push_str(&mut s, " has high travel time (");
                let minutes: i64 = match self.travel_minutes {
                    Some(m) => m,
                    None => 0,
                };
                let d = format_minutes_duration(minutes);
                push_str(&mut s, d.as_str());
                push_str(&mut s, ")");
                s
            },
            DoctorIssueCode::MissingDuration => match self.target {
                DoctorIssueTarget::Itinerary(id) => {
                    let mut s = owned("Itinerary ");
                    push_i64_decimal(&mut s, id);
                    push_str(&mut s, " has no duration estimate");
                    s
                },
                _ => owned("1 itinerary has no duration estimate"),
            },
            DoctorIssueCode::ParticipantsNotRecorded => owned("No participants recorded for this trip."),
            DoctorIssueCode::SelfParticipantUnknown => owned("Participants are recorded but self is not marked."),
            DoctorIssueCode::MultipleSelfParticipants => owned("Multiple self participants are recorded (data error)."),
            DoctorIssueCode::SharedExpenseSingleBeneficiary => match self.target {
                DoctorIssueTarget::Expense(id) => {
                    let mut s = owned("Expense ");
                    push_i64_decimal(&mut s, id);
                    push_str(&mut s, " has only one beneficiary (shared split with one person)");
                    s
                },
                _ => owned("Expense has only one beneficiary (shared split with one person)"),
            },
            DoctorIssueCode::PaidByNameParticipantMismatch => match self.target {
                DoctorIssueTarget::Expense(id) => {
                    let mut s = owned("Expense ");
                    push_i64_decimal(&mut s, id);
                    push_str(&mut s, ": paid_by_name does not match payer participant name");
                    s
                },
                _ => owned("paid_by_name does not match payer participant name"),
            },
            DoctorIssueCode::DuplicateParticipantNames => owned("Duplicate participant names in this trip (ambiguous export refs)"),
        }
    }

    /// Info for the participant-recording and empty-itinerary notices, Warning otherwise.
    pub fn issue_severity(&self) -> (r: DoctorIssueSeverity)
        ensures
            r == issue_severity_of(self.code),
    {
        match self.code {
            DoctorIssueCode::EmptyItinerary
            | DoctorIssueCode::ParticipantsNotRecorded
            | DoctorIssueCode::SelfParticipantUnknown => DoctorIssueSeverity::Info,
            _ => DoctorIssueSeverity::Warning,
        }
    }

    /// The JSON `details` of the issue.
    pub fn to_issue_details(&self) -> (r: IssueDetails)
        ensures
            r == issue_details_of(*self),
    {
        match self.code {
            DoctorIssueCode::OverloadedDay => IssueDetails {
                day: self.target_day(),
                itinerary_count: self.itinerary_count,
                ..IssueDetails::default()
            },
            DoctorIssueCode::NoRestaurant => IssueDetails { day: self.target_day(), ..IssueDetails::default() },
            DoctorIssueCode::HighTravelTime => IssueDetails {
                day: self.target_day(),
                travel_minutes: self.travel_minutes,
                ..IssueDetails::default()
            },
            DoctorIssueCode::MissingDuration => IssueDetails {
                itinerary_id: self.target_itinerary_id(),
                ..IssueDetails::default()
            },
            DoctorIssueCode::SharedExpenseSingleBeneficiary
            | DoctorIssueCode::PaidByNameParticipantMismatch => IssueDetails {
                expense_id: match self.target {
                    DoctorIssueTarget::Expense(id) => Some(id),
                    _ => None,
                },
                ..IssueDetails::default()
            },
            _ => IssueDetails::default(),
        }
    }

    /// The JSON form of the issue.
    pub fn to_issue_json(&self, trip_id: i64) -> (r: DoctorIssueJson)
        ensures
            r.code == self.code,
            r.severity == issue_severity_of(self.code),
            r.message@ == issue_message(*self),
            r.target == (match self.target {
                DoctorIssueTarget::Trip => IssueTarget { target_type: IssueTargetType::Trip, id: trip_id },
                DoctorIssueTarget::Day(day) => IssueTarget { target_type: IssueTargetType::Day, id: day },
                DoctorIssueTarget::Itinerary(id) => IssueTarget {
                    target_type: IssueTargetType::Itinerary,
                    id,
                },
                DoctorIssueTarget::Expense(id) => IssueTarget { target_type: IssueTargetType::Expense, id },
            }),
            r.details == issue_details_of(*self),
    {
        DoctorIssueJson {
            code: self.code,
            severity: self.issue_severity(),
            message: self.warning_message(),
            target: IssueTarget::from_doctor_target(self.target, trip_id),
            details: self.to_issue_details(),
        }
    }
}

/// Itinerary category (only the defined ones are accepted).
#[derive(Clone, Copy, Debug, PartialEq, Eq, Hash, Structural)]
pub enum ItineraryCategory {
    Flight,
    Hotel,
    Restaurant,
    Activity,
    Transport,
    Shopping,
    Beach,
    Museum,
}

/// Display name and default checklist of a category.
#[derive(Clone, Debug, PartialEq, Eq)]
pub struct CategoryDefinition {
    pub display_name: &'static str,
    pub default_checklist: Vec<&'static str>,
}

/// Storage key of a category.
pub open spec fn category_key(c: ItineraryCategory) -> Seq<char> {
    match c {
        ItineraryCategory::Flight => "flight"@,
        ItineraryCategory::Hotel => "hotel"@,
        ItineraryCategory::Restaurant => "restaurant"@,
        ItineraryCategory::Activity => "activity"@,
        ItineraryCategory::Transport => "transport"@,
        ItineraryCategory::Shopping => "shopping"@,
        ItineraryCategory::Beach => "beach"@,
        ItineraryCategory::Museum => "museum"@,
    }
}

/// Display name of a category.
pub open spec fn category_display_name(c: ItineraryCategory) -> Seq<char> {
    match c {
        ItineraryCategory::Flight => "フライト"@,
        ItineraryCategory::Hotel => "ホテル"@,
        ItineraryCategory::Restaurant => "食事"@,
        ItineraryCategory::Activity => "アクティビティ"@,
        ItineraryCategory::Transport => "移動"@,
        ItineraryCategory::Shopping => "買い物"@,
        ItineraryCategory::Beach => "ビーチ"@,
        ItineraryCategory::Museum => "博物館・展示"@,
    }
}

/// Default checklist of a category.
pub open spec fn category_default_checklist(c: ItineraryCategory) -> Seq<Seq<char>> {
    match c {
        ItineraryCategory::Flight => seq!["航空券確認"@, "身分証明書確認"@, "空港到着時刻確認"@],
        ItineraryCategory::Hotel => seq!["宿泊予約確認"@, "チェックイン時間確認"@, "住所確認"@],
        ItineraryCategory::Restaurant => seq!["予約確認"@, "営業時間確認"@],
        ItineraryCategory::Activity => seq!["予約確認"@, "所要時間確認"@, "服装確認"@],
        ItineraryCategory::Transport => seq!["移動手段確認"@, "所要時間確認"@],
        ItineraryCategory::Shopping => seq!["営業時間確認"@, "支払い方法確認"@],
        ItineraryCategory::Beach => seq!["水着"@, "タオル"@, "日焼け止め"@],
        ItineraryCategory::Museum => seq!["営業時間確認"@, "チケット確認"@],
    }
}

/// The views of a list of string slices.
pub open spec fn strs_view(v: Seq<&'static str>) -> Seq<Seq<char>> {
    v.map_values(|s: &'static str| s@)
}

/// All categories in their defined order.
pub open spec fn all_categories() -> Seq<ItineraryCategory> {
    seq![
        ItineraryCategory::Flight,
        ItineraryCategory::Hotel,
        ItineraryCategory::Restaurant,
        ItineraryCategory::Activity,
        ItineraryCategory::Transport,
        ItineraryCategory::Shopping,
        ItineraryCategory::Beach,
        ItineraryCategory::Museum,
    ]
}

/// The accepted category keys joined for the error message.
pub open spec fn category_values_text() -> Seq<char> {
    "flight, hotel, restaurant, activity, transport, shopping, beach, museum"@
}

/// What `parse_itinerary_category` gives for a text.
pub open spec fn category_parse(s: Seq<char>) -> Result<ItineraryCategory, Seq<char>> {
    if s == "flight"@ {
        Ok(ItineraryCategory::Flight)
    } else if s == "hotel"@ {
        Ok(ItineraryCategory::Hotel)
    } else if s == "restaurant"@ {
        Ok(ItineraryCategory::Restaurant)
    } else if s == "activity"@ {
        Ok(ItineraryCategory::Activity)
    } else if s == "transport"@ {
        Ok(ItineraryCategory::Transport)
    } else if s == "shopping"@ {
        Ok(ItineraryCategory::Shopping)
    } else if s == "beach"@ {
        Ok(ItineraryCategory::Beach)
    } else if s == "museum"@ {
        Ok(ItineraryCategory::Museum)
    } else {
        Err("不正なカテゴリです: "@ + s + ". 有効な値: "@ + category_values_text())
    }
}

fn str_vec(items: &[&'static str]) -> (r: Vec<&'static str>)
    ensures
        r@ == items@,
{
    let mut out: Vec<&'static str> = Vec::new();
    let mut i: usize = 0;
    while i < items.len()
        invariant
            i <= items@.len(),
            out@ == items@.subrange(0, i as int),
        decreases items@.len() - i,
    {
        out.push(items[i]);
        i = i + 1;
        assert(out@ =~= items@.subrange(0, i as int));
    }
    assert(out@ =~= items@);
    out
}

impl ItineraryCategory {
    /// The storage key (`flight`, `hotel`, ...).
    pub fn as_str(self) -> (r: &'static str)
        ensures
            r@ == category_key(self),
    {
        match self {
            ItineraryCategory::Flight => "flight",
            ItineraryCategory::Hotel => "hotel",
            ItineraryCategory::Restaurant => "restaurant",
            ItineraryCategory::Activity => "activity",
            ItineraryCategory::Transport => "transport",
            ItineraryCategory::Shopping => "shopping",
            ItineraryCategory::Beach => "beach",
            ItineraryCategory::Museum => "museum",
        }
    }

    /// The display name and default checklist of the category.
    pub fn definition(self) -> (r: CategoryDefinition)
        ensures
            r.display_name@ == category_display_name(self),
            strs_view(r.default_checklist@) == category_default_checklist(self),
    {
        let (name, list): (&'static str, Vec<&'static str>) = match self {
            ItineraryCategory::Flight => ("フライト", str_vec(&["航空券確認", "身分証明書確認", "空港到着時刻確認"])),
            ItineraryCategory::Hotel => ("ホテル", str_vec(&["宿泊予約確認", "チェックイン時間確認", "住所確認"])),
            ItineraryCategory::Restaurant => ("食事", str_vec(&["予約確認", "営業時間確認"])),
            ItineraryCategory::Activity => ("アクティビティ", str_vec(&["予約確認", "所要時間確認", "服装確認"])),
            ItineraryCategory::Transport => ("移動", str_vec(&["移動手段確認", "所要時間確認"])),
            ItineraryCategory::Shopping => ("買い物", str_vec(&["営業時間確認", "支払い方法確認"])),
            ItineraryCategory::Beach => ("ビーチ", str_vec(&["水着", "タオル", "日焼け止め"])),
            ItineraryCategory::Museum => ("博物館・展示", str_vec(&["営業時間確認", "チケット確認"])),
        };
        assert(strs_view(list@) =~= category_default_checklist(self));
        CategoryDefinition { display_name: name, default_checklist: list }
    }

    /// All defined categories.
    pub fn all() -> (r: [Self; 8])
        ensures
            r@ == all_categories(),
    {
        let r = [
            ItineraryCategory::Flight,
            ItineraryCategory::Hotel,
            ItineraryCategory::Restaurant,
            ItineraryCategory::Activity,
            ItineraryCategory::Transport,
            ItineraryCategory::Shopping,
            ItineraryCategory::Beach,
            ItineraryCategory::Museum,
        ];
        assert(r@ =~= all_categories());
        r
    }
}

/// Reads a category from its storage key (`none`, used to clear a category,
/// is not accepted here).
pub fn parse_itinerary_category(s: &str) -> (r: Result<ItineraryCategory, String>)
    ensures
        crate::text::result_view(r) == category_parse(s@),
{
    if str_eq(s, "flight") {
        Ok(ItineraryCategory::Flight)
    } else if str_eq(s, "hotel") {
        Ok(ItineraryCategory::Hotel)
    } else if str_eq(s, "restaurant") {
        Ok(ItineraryCategory::Restaurant)
    } else if str_eq(s, "activity") {
        Ok(ItineraryCategory::Activity)
    } else if str_eq(s, "transport") {
        Ok(ItineraryCategory::Transport)
    } else if str_eq(s, "shopping") {
        Ok(ItineraryCategory::Shopping)
    } else if str_eq(s, "beach") {
        Ok(ItineraryCategory::Beach)
    } else if str_eq(s, "museum") {
        Ok(ItineraryCategory::Museum)
    } else {
        let mut msg = owned("不正なカテゴリです: ");
        push_str(&mut msg, s);
        push_str(&mut msg, ". 有効な値: ");
        push_str(&mut msg, "flight, hotel, restaurant, activity, transport, shopping, beach, museum");
        Err(msg)
    }
}

/// Reading back the key of any category gives that category.
pub proof fn lemma_category_key_roundtrip(c: ItineraryCategory)
    ensures
        category_parse(category_key(c)) == Ok::<ItineraryCategory, Seq<char>>(c),
{
    reveal_strlit("flight");
    reveal_strlit("hotel");
    reveal_strlit("restaurant");
    reveal_strlit("activity");
    reveal_strlit("transport");
    reveal_strlit("shopping");
    reveal_strlit("beach");
    reveal_strlit("museum");
    assert("flight"@.len() == 6 && "hotel"@.len() == 5 && "restaurant"@.len() == 10);
    assert("activity"@.len() == 8 && "transport"@.len() == 9 && "shopping"@.len() == 8);
    assert("beach"@.len() == 5 && "museum"@.len() == 6);
    assert("flight"@[0] == 'f' && "activity"@[0] == 'a' && "shopping"@[0] == 's');
    assert("hotel"@[0] == 'h' && "beach"@[0] == 'b' && "museum"@[0] == 'm' && "transport"@[0] == 't');
}

/// Every category has a non-empty display name and a non-empty default checklist.
pub proof fn lemma_category_definitions_non_empty(c: ItineraryCategory)
    ensures
        category_display_name(c).len() > 0,
        category_default_checklist(c).len() > 0,
{
    reveal_strlit("フライト");
    reveal_strlit("ホテル");
    reveal_strlit("食事");
    reveal_strlit("アクティビティ");
    reveal_strlit("移動");
    reveal_strlit("買い物");
    reveal_strlit("ビーチ");
    reveal_strlit("博物館・展示");
}

/// A checklist added when a trip holds all the given categories.
#[derive(Clone, Debug, PartialEq, Eq)]
pub struct ChecklistRule {
    pub required_categories: Vec<ItineraryCategory>,
    pub checklist: Vec<&'static str>,
}

/// The combination rules: required categories and the checklist they add.
pub open spec fn combination_rules_spec() -> Seq<(Seq<ItineraryCategory>, Seq<Seq<char>>)> {
    seq![
        (seq![ItineraryCategory::Flight, ItineraryCategory::Hotel], seq!["宿泊予約確認"@, "身分証明書"@, "充電器"@]),
        (seq![ItineraryCategory::Flight, ItineraryCategory::Transport], seq!["ETCカード"@, "運転免許証"@, "レンタカー予約確認"@]),
        (seq![ItineraryCategory::Beach], seq!["水着"@, "タオル"@, "日焼け止め"@, "サンダル"@]),
        (seq![ItineraryCategory::Beach, ItineraryCategory::Activity], seq!["着替え"@, "防水バッグ"@, "酔い止め"@]),
        (seq![ItineraryCategory::Shopping], seq!["エコバッグ"@, "現金（小銭）"@]),
        (seq![ItineraryCategory::Museum, ItineraryCategory::Activity], seq!["事前予約確認"@, "入場チケット"@]),
    ]
}

fn category_vec(items: &[ItineraryCategory]) -> (r: Vec<ItineraryCategory>)
    ensures
        r@ == items@,
{
    let mut out: Vec<ItineraryCategory> = Vec::new();
    let mut i: usize = 0;
    while i < items.len()
        invariant
            i <= items@.len(),
            out@ == items@.subrange(0, i as int),
        decreases items@.len() - i,
    {
        out.push(items[i]);
        i = i + 1;
        assert(out@ =~= items@.subrange(0, i as int));
    }
    assert(out@ =~= items@);
    out
}

fn checklist_rule(cats: &[ItineraryCategory], items: &[&'static str]) -> (r: ChecklistRule)
    ensures
        r.required_categories@ == cats@,
        r.checklist@ == items@,
{
    ChecklistRule { required_categories: category_vec(cats), checklist: str_vec(items) }
}

/// Checklist rules applied according to the categories a trip holds.
pub fn checklist_combination_rules() -> (r: Vec<ChecklistRule>)
    ensures
        r@.len() == combination_rules_spec().len(),
        forall|i: int|
            0 <= i < r@.len() ==> (#[trigger] r@[i]).required_categories@ == combination_rules_spec()[i].0
                && strs_view(r@[i].checklist@) == combination_rules_spec()[i].1,
{
    let mut rules: Vec<ChecklistRule> = Vec::new();
    rules.push(checklist_rule(&[ItineraryCategory::Flight, ItineraryCategory::Hotel], &["宿泊予約確認", "身分証明書", "充電器"]));
    rules.push(checklist_rule(&[ItineraryCategory::Flight, ItineraryCategory::Transport], &["ETCカード", "運転免許証", "レンタカー予約確認"]));
    rules.push(checklist_rule(&[ItineraryCategory::Beach], &["水着", "タオル", "日焼け止め", "サンダル"]));
    rules.push(checklist_rule(&[ItineraryCategory::Beach, ItineraryCategory::Activity], &["着替え", "防水バッグ", "酔い止め"]));
    rules.push(checklist_rule(&[ItineraryCategory::Shopping], &["エコバッグ", "現金（小銭）"]));
    rules.push(checklist_rule(&[ItineraryCategory::Museum, ItineraryCategory::Activity], &["事前予約確認", "入場チケット"]));
    assert forall|i: int| 0 <= i < rules@.len() implies (#[trigger] rules@[i]).required_categories@
        == combination_rules_spec()[i].0 && strs_view(rules@[i].checklist@) == combination_rules_spec()[i].1 by {
        assert(strs_view(rules@[i].checklist@) =~= combination_rules_spec()[i].1);
        assert(rules@[i].required_categories@ =~= combination_rules_spec()[i].0);
    }
    rules
}

/// One row of the `itinerary_items` table.
#[derive(Clone, Debug, PartialEq, Eq)]
pub struct ItineraryItem {
    pub id: i64,
    pub trip_id: i64,
    pub day: i64,
    pub title: String,
    pub note: Option<String>,
    pub start_time: Option<String>,
    pub sort_order: i64,
    pub duration_minutes: Option<i64>,
    pub travel_minutes: Option<i64>,
    pub location: Option<String>,
    pub category: Option<ItineraryCategory>,
    pub created_at: String,
    pub updated_at: String,
}

/// One row of the `checklist_items` table.
#[derive(Clone, Debug, PartialEq, Eq)]
pub struct ChecklistItem {
    pub id: i64,
    pub trip_id: i64,
    pub title: String,
    pub is_done: bool,
    pub sort_order: i64,
    pub created_at: String,
    pub updated_at: String,
}

/// One row of the `participants` table.
#[derive(Clone, Debug, PartialEq, Eq)]
pub struct Participant {
    pub id: i64,
    pub trip_id: i64,
    pub name: String,
    pub sort_order: i64,
    pub is_self: bool,
    pub created_at: String,
    pub updated_at: String,
}

/// A participant in the trip export (no database id).
#[derive(Clone, Debug, PartialEq, Eq)]
pub struct ExportParticipantV4 {
    pub name: String,
    pub sort_order: i64,
    pub is_self: bool,
}

/// Participant counts (stats and list output).
#[derive(Clone, Copy, Debug, PartialEq, Eq, Structural)]
pub struct ParticipantCounts {
    pub registered_count: usize,
    pub participant_count: Option<usize>,
    pub companion_count: Option<usize>,
    pub self_known: bool,
    pub participants_recorded: bool,
}

/// Schema version written by the current trip export.
pub const TRIP_EXPORT_SCHEMA_VERSION: i32 = 5;

/// Trip export schema v4 (still imported).
pub const TRIP_EXPORT_SCHEMA_VERSION_V4: i32 = 4;

/// Trip export schema v3 (still imported).
pub const TRIP_EXPORT_SCHEMA_VERSION_V3: i32 = 3;

/// Trip export schema v1 (still imported).
pub const TRIP_EXPORT_SCHEMA_VERSION_V1: i32 = 1;

/// Reference to an itinerary inside an export (no database id).
#[derive(Clone, Debug, PartialEq, Eq)]
pub struct ItineraryNoteKey {
    pub day_number: i64,
    pub sort_order: i64,
    pub start_time: Option<String>,
    pub title: String,
}

/// A note in the trip export, tagged by its owner.
#[derive(Clone, Debug, PartialEq, Eq)]
pub enum ExportNote {
    Trip { title: Option<String>, body: String },
    Day { day_number: i64, title: Option<String>, body: String },
    Itinerary { itinerary_key: ItineraryNoteKey, title: Option<String>, body: String },
}

/// The schema an export is read with (absent means v1).
pub fn effective_export_schema_version(schema_version: Option<i32>) -> (r: i32)
    ensures
        r == (match schema_version {
            Some(v) => v,
            None => TRIP_EXPORT_SCHEMA_VERSION_V1,
        }),
{
    match schema_version {
        Some(v) => v,
        None => TRIP_EXPORT_SCHEMA_VERSION_V1,
    }
}

/// Whether an export with this schema can be imported (v1 to v5).
pub fn is_supported_export_schema_version(schema_version: Option<i32>) -> (r: bool)
    ensures
        r == (match schema_version {
            Some(v) => 1 <= v <= 5,
            None => true,
        }),
{
    let v = effective_export_schema_version(schema_version);
    v == TRIP_EXPORT_SCHEMA_VERSION_V1 || v == 2 || v == TRIP_EXPORT_SCHEMA_VERSION_V3
        || v == TRIP_EXPORT_SCHEMA_VERSION_V4 || v == TRIP_EXPORT_SCHEMA_VERSION
}

/// A reservation in the trip export (no database id).
#[derive(Clone, Debug, PartialEq, Eq)]
pub struct ExportReservationV3 {
    pub reservation_type: String,
    pub provider_name: String,
    pub confirmation_code: Option<String>,
    pub reservation_site_url: Option<String>,
    pub remark: Option<String>,
    pub start_at: Option<String>,
    pub end_at: Option<String>,
}

/// A reservation with its itinerary context (trip diff).
#[derive(Clone, Debug, PartialEq, Eq)]
pub struct ExportReservation {
    pub itinerary_key: ItineraryNoteKey,
    pub reservation: ExportReservationV3,
}

/// An expense beneficiary in the trip export.
#[derive(Clone, Debug, PartialEq, Eq)]
pub struct ExportExpenseBeneficiaryV5 {
    pub participant_ref: String,
    pub sort_order: Option<i32>,
}

/// An expense in the trip export (no database id).
#[derive(Clone, Debug, PartialEq, Eq)]
pub struct ExportExpenseV3 {
    pub title: Option<String>,
    pub amount: i64,
    pub currency: String,
    pub paid_by_name: Option<String>,
    pub paid_by_participant_ref: Option<String>,
    pub beneficiaries: Vec<ExportExpenseBeneficiaryV5>,
    pub expense_date: Option<String>,
    pub note: Option<String>,
    pub sort_order: i64,
}

/// An expense with its itinerary context (trip diff).
#[derive(Clone, Debug, PartialEq, Eq)]
pub struct ExportExpense {
    pub itinerary_key: ItineraryNoteKey,
    pub expense: ExportExpenseV3,
}

/// A cost estimate in the trip export (no database id).
#[derive(Clone, Debug, PartialEq, Eq)]
pub struct ExportEstimateV3 {
    pub title: Option<String>,
    pub amount: i64,
    pub currency: String,
    pub note: Option<String>,
    pub sort_order: i64,
}

/// An itinerary in the trip export (no database id).
#[derive(Clone, Debug, PartialEq, Eq)]
pub struct ExportItineraryV3 {
    pub title: String,
    pub note: Option<String>,
    pub start_time: Option<String>,
    pub sort_order: i64,
    pub duration_minutes: Option<i64>,
    pub travel_minutes: Option<i64>,
    pub location: Option<String>,
    pub category: Option<ItineraryCategory>,
    pub expenses: Vec<ExportExpenseV3>,
    pub estimates: Vec<ExportEstimateV3>,
    pub reservations: Vec<ExportReservationV3>,
}

/// A day in the trip export.
#[derive(Clone, Debug, PartialEq, Eq)]
pub struct ExportDayV3 {
    pub day_number: i64,
    pub summary: Option<String>,
    pub itineraries: Vec<ExportItineraryV3>,
}

/// A day summary snapshot (trip diff).
#[derive(Clone, Debug, PartialEq, Eq)]
pub struct ExportDaySummary {
    pub day_number: i64,
    pub summary: Option<String>,
}

/// The nested trip export (days holding itineraries).
#[derive(Clone, Debug, PartialEq, Eq)]
pub struct TripExportV3 {
    pub schema_version: Option<i32>,
    pub generator: Option<String>,
    pub generator_version: Option<String>,
    pub exported_at: Option<String>,
    pub trip: Trip,
    pub days: Vec<ExportDayV3>,
    pub checklist_items: Option<Vec<ChecklistItem>>,
    pub notes: Option<Vec<ExportNote>>,
    pub participants: Option<Vec<ExportParticipantV4>>,
}

/// The elements of an optional list (none when absent).
pub open spec fn opt_vec_view<T>(o: Option<Vec<T>>) -> Seq<T> {
    match o {
        Some(v) => v@,
        None => Seq::<T>::empty(),
    }
}

impl TripExportV3 {
    pub fn checklist_items(&self) -> (r: &[ChecklistItem])
        ensures
            r@ == opt_vec_view(self.checklist_items),
    {
        match &self.checklist_items {
            Some(v) => v.as_slice(),
            None => &[],
        }
    }

    pub fn notes(&self) -> (r: &[ExportNote])
        ensures
            r@ == opt_vec_view(self.notes),
    {
        match &self.notes {
            Some(v) => v.as_slice(),
            None => &[],
        }
    }

    pub fn participants(&self) -> (r: &[ExportParticipantV4])
        ensures
            r@ == opt_vec_view(self.participants),
    {
        match &self.participants {
            Some(v) => v.as_slice(),
            None => &[],
        }
    }
}

/// Name of the program that writes trip exports.
pub const TRIP_EXPORT_GENERATOR: &'static str = "caglla-cli";

/// The flat trip export (all itineraries in one list).
#[derive(Clone, Debug, PartialEq, Eq)]
pub struct TripExport {
    pub schema_version: Option<i32>,
    pub generator: Option<String>,
    pub generator_version: Option<String>,
    pub exported_at: Option<String>,
    pub trip: Trip,
    pub itinerary_items: Vec<ItineraryItem>,
    pub checklist_items: Option<Vec<ChecklistItem>>,
    pub notes: Option<Vec<ExportNote>>,
    pub day_summaries: Vec<ExportDaySummary>,
    pub reservations: Vec<ExportReservation>,
    pub participants: Vec<ExportParticipantV4>,
    pub expenses: Vec<ExportExpense>,
}

impl TripExport {
    pub fn checklist_items(&self) -> (r: &[ChecklistItem])
        ensures
            r@ == opt_vec_view(self.checklist_items),
    {
        match &self.checklist_items {
            Some(v) => v.as_slice(),
            None => &[],
        }
    }

    pub fn notes(&self) -> (r: &[ExportNote])
        ensures
            r@ == opt_vec_view(self.notes),
    {
        match &self.notes {
            Some(v) => v.as_slice(),
            None => &[],
        }
    }

    pub fn participants(&self) -> (r: &[ExportParticipantV4])
        ensures
            r@ == self.participants@,
    {
        self.participants.as_slice()
    }

    pub fn expenses(&self) -> (r: &[ExportExpense])
        ensures
            r@ == self.expenses@,
    {
        self.expenses.as_slice()
    }
}

/// Metadata at the top of an export file (for display and reports only).
#[derive(Clone, Debug, PartialEq, Eq)]
pub struct TripExportMetadata {
    pub generator_present: bool,
    pub generator: Option<String>,
    pub generator_version_present: bool,
    pub generator_version: Option<String>,
    pub exported_at_present: bool,
    pub exported_at: Option<String>,
}

/// Display text of a metadata field: `不明` when the key is absent, `-` when it is null.
pub open spec fn metadata_display(present: bool, value: Option<String>) -> Seq<char> {
    if present {
        match value {
            Some(v) => v@,
            None => "-"@,
        }
    } else {
        "不明"@
    }
}

/// JSON value of a metadata field: absent keys are reported as null.
pub open spec fn metadata_json(present: bool, value: Option<String>) -> Option<Seq<char>> {
    if present {
        crate::text::opt_view(value)
    } else {
        None
    }
}

fn display_field<'a>(present: bool, value: &'a Option<String>) -> (r: &'a str)
    ensures
        r@ == metadata_display(present, *value),
{
    if present {
        match value {
            Some(v) => v.as_str(),
            None => "-",
        }
    } else {
        "不明"
    }
}

fn copy_opt_string(v: &Option<String>) -> (r: Option<String>)
    ensures
        crate::text::opt_view(r) == crate::text::opt_view(*v),
{
    match v {
        Some(x) => Some(owned(x.as_str())),
        None => None,
    }
}

fn json_field(present: bool, value: &Option<String>) -> (r: Option<String>)
    ensures
        crate::text::opt_view(r) == metadata_json(present, *value),
{
    if present {
        match value {
            Some(v) => Some(owned(v.as_str())),
            None => None,
        }
    } else {
        None
    }
}

impl TripExportMetadata {
    /// The metadata of an export file: whether the file's top-level object
    /// has each key (`root`, the parsed file), and each value as the export
    /// read it.
    pub fn from_parsed(root: &crate::json::JsonValue, export: &TripExport) -> (r: Self)
        ensures
            r.generator_present == (crate::json::value_member(Some(*root), "generator"@) is Some),
            r.generator_version_present == (crate::json::value_member(Some(*root), "generator_version"@) is Some),
            r.exported_at_present == (crate::json::value_member(Some(*root), "exported_at"@) is Some),
            crate::text::opt_view(r.generator) == crate::text::opt_view(export.generator),
            crate::text::opt_view(r.generator_version) == crate::text::opt_view(export.generator_version),
            crate::text::opt_view(r.exported_at) == crate::text::opt_view(export.exported_at),
    {
        TripExportMetadata {
            generator_present: crate::json::get_value_member(Some(root), "generator").is_some(),
            generator: copy_opt_string(&export.generator),
            generator_version_present: crate::json::get_value_member(Some(root), "generator_version").is_some(),
            generator_version: copy_opt_string(&export.generator_version),
            exported_at_present: crate::json::get_value_member(Some(root), "exported_at").is_some(),
            exported_at: copy_opt_string(&export.exported_at),
        }
    }

    pub fn display_generator(&self) -> (r: &str)
        ensures
            r@ == metadata_display(self.generator_present, self.generator),
    {
        display_field(self.generator_present, &self.generator)
    }

    pub fn display_generator_version(&self) -> (r: &str)
        ensures
            r@ == metadata_display(self.generator_version_present, self.generator_version),
    {
        display_field(self.generator_version_present, &self.generator_version)
    }

    pub fn display_exported_at(&self) -> (r: &str)
        ensures
            r@ == metadata_display(self.exported_at_present, self.exported_at),
    {
        display_field(self.exported_at_present, &self.exported_at)
    }

    pub fn json_generator(&self) -> (r: Option<String>)
        ensures
            crate::text::opt_view(r) == metadata_json(self.generator_present, self.generator),
    {
        json_field(self.generator_present, &self.generator)
    }

    pub fn json_generator_version(&self) -> (r: Option<String>)
        ensures
            crate::text::opt_view(r) == metadata_json(self.generator_version_present, self.generator_version),
    {
        json_field(self.generator_version_present, &self.generator_version)
    }

    pub fn json_exported_at(&self) -> (r: Option<String>)
        ensures
            crate::text::opt_view(r) == metadata_json(self.exported_at_present, self.exported_at),
    {
        json_field(self.exported_at_present, &self.exported_at)
    }
}

/// Schema version of the export validation report.
pub const EXPORT_VALIDATION_REPORT_SCHEMA_VERSION: i32 = 1;

/// Structural checks of `trip validate-export`.
#[derive(Clone, Copy, Debug, PartialEq, Eq, Structural)]
pub enum ExportValidationCheckId {
    JsonFormat,
    SchemaVersion,
    Trip,
    ItineraryItems,
    ChecklistItems,
    Notes,
    Expenses,
    Reservations,
    Participants,
}

/// Result of one structural check.
#[derive(Clone, Copy, Debug, PartialEq, Eq, Structural)]
pub struct ExportValidationCheck {
    pub id: ExportValidationCheckId,
    pub passed: bool,
}

/// Result of validating an export file (`trip validate-export --json`).
#[derive(Clone, Debug, PartialEq, Eq)]
pub struct ExportValidationReport {
    pub schema_version: i32,
    pub file: String,
    pub valid: bool,
    pub trip_name: Option<String>,
    pub export_schema_version: Option<i32>,
    pub itinerary_count: usize,
    pub checklist_count: usize,
    pub note_count: usize,
    pub participant_count: usize,
    pub generator: Option<String>,
    pub generator_version: Option<String>,
    pub exported_at: Option<String>,
    pub checks: Vec<ExportValidationCheck>,
    pub warnings: Vec<String>,
    pub errors: Vec<String>,
    pub export_metadata: Option<TripExportMetadata>,
}

impl ExportValidationReport {
    /// An empty, not yet valid report for `file`.
    pub fn new(file: &str) -> (r: Self)
        ensures
            r.schema_version == EXPORT_VALIDATION_REPORT_SCHEMA_VERSION,
            r.file@ == file@,
            !r.valid,
            r.trip_name is None,
            r.export_schema_version is None,
            r.itinerary_count == 0,
            r.checklist_count == 0,
            r.note_count == 0,
            r.participant_count == 0,
            r.generator is None,
            r.generator_version is None,
            r.exported_at is None,
            r.checks@.len() == 0,
            r.warnings@.len() == 0,
            r.errors@.len() == 0,
            r.export_metadata is None,
    {
        ExportValidationReport {
            schema_version: EXPORT_VALIDATION_REPORT_SCHEMA_VERSION,
            file: owned(file),
            valid: false,
            trip_name: None,
            export_schema_version: None,
            itinerary_count: 0,
            checklist_count: 0,
            note_count: 0,
            participant_count: 0,
            generator: None,
            generator_version: None,
            exported_at: None,
            checks: Vec::new(),
            warnings: Vec::new(),
            errors: Vec::new(),
            export_metadata: None,
        }
    }
}

/// Summary printed when `trip import` completes.
#[derive(Clone, Debug, PartialEq, Eq)]
pub struct TripImportSummary {
    pub trip_id: i64,
    pub trip_name: String,
    pub itinerary_count: usize,
    pub checklist_count: usize,
    pub note_count: usize,
    pub participant_count: usize,
    pub schema_version_present: bool,
    pub export_schema_version: Option<i32>,
    pub export_metadata: TripExportMetadata,
}

} // verus!
