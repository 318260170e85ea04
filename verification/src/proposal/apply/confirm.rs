//! The decisions of `fragment apply` around its database writes: which modes
//! may run, which write a confirmed preview calls for, how a write's outcome
//! is recorded in the report, and when the command fails.
use vstd::prelude::*;

use crate::proposal::apply::FragmentApplyDryRunReport;
use crate::text::{owned, push_str, push_string, str_eq, strings_view};

verus! {

/// Exactly one of `--dry-run` and `--confirm` must be given.
pub open spec fn apply_mode_result(dry_run: bool, confirm: bool) -> Result<(), Seq<char>> {
    if !dry_run && !confirm {
        Err("fragment apply には --dry-run または --confirm のいずれかが必要です"@)
    } else if dry_run && confirm {
        Err("--dry-run と --confirm は併用できません（dry-run means no Trip domain data side effects）"@)
    } else {
        Ok(())
    }
}

/// Checks the mode flags of `fragment apply`.
pub fn check_fragment_apply_mode(dry_run: bool, confirm: bool) -> (r: Result<(), String>)
    ensures
        crate::text::result_view(r) == apply_mode_result(dry_run, confirm),
{
    if !dry_run && !confirm {
        return Err(owned("fragment apply には --dry-run または --confirm のいずれかが必要です"));
    }
    if dry_run && confirm {
        return Err(owned("--dry-run と --confirm は併用できません（dry-run means no Trip domain data side effects）"));
    }
    Ok(())
}

/// The database write a confirmed preview calls for.
#[derive(Clone, Copy, Debug, PartialEq, Eq, Structural)]
pub enum ConfirmWrite {
    AddItinerary,
    AddNote,
    AddExpense,
    AddReservation,
    AddEstimate,
    UpdateItinerary,
    UpdateEstimate,
    DeleteEstimate,
    DeleteItinerary,
    ReorderItineraries,
    MoveItinerary,
}

/// The write for a preview action, or none for an action `--confirm` does not write.
pub open spec fn confirm_write_of(action: Seq<char>) -> Option<ConfirmWrite> {
    if action == "add_itinerary"@ {
        Some(ConfirmWrite::AddItinerary)
    } else if action == "add_note"@ {
        Some(ConfirmWrite::AddNote)
    } else if action == "add_expense"@ {
        Some(ConfirmWrite::AddExpense)
    } else if action == "add_reservation"@ {
        Some(ConfirmWrite::AddReservation)
    } else if action == "add_estimate"@ {
        Some(ConfirmWrite::AddEstimate)
    } else if action == "update_itinerary"@ {
        Some(ConfirmWrite::UpdateItinerary)
    } else if action == "update_estimate"@ {
        Some(ConfirmWrite::UpdateEstimate)
    } else if action == "delete_estimate"@ {
        Some(ConfirmWrite::DeleteEstimate)
    } else if action == "delete_itinerary"@ {
        Some(ConfirmWrite::DeleteItinerary)
    } else if action == "reorder_itinerary"@ {
        Some(ConfirmWrite::ReorderItineraries)
    } else if action == "move_itinerary"@ {
        Some(ConfirmWrite::MoveItinerary)
    } else {
        None
    }
}

/// The action of the report's preview (empty without one).
pub open spec fn preview_action(report: FragmentApplyDryRunReport) -> Seq<char> {
    match report.preview {
        Some(p) => p.action@,
        None => Seq::empty(),
    }
}

/// The write a confirmed, valid report calls for; an action that `--confirm`
/// does not write is an error.
pub fn confirm_write_for(report: &FragmentApplyDryRunReport) -> (r: Result<ConfirmWrite, String>)
    ensures
        match confirm_write_of(preview_action(*report)) {
            Some(w) => r == Ok::<ConfirmWrite, String>(w),
            None => r is Err && r->Err_0@ == "未対応の confirm action です: "@ + preview_action(*report),
        },
{
    let action: &str = match &report.preview {
        Some(p) => p.action.as_str(),
        None => "",
    };
    proof {
        reveal_strlit("");
        reveal_strlit("add_itinerary");
        assert("add_itinerary"@.len() == 13);
        reveal_strlit("add_note");
        assert("add_note"@.len() == 8);
        reveal_strlit("add_expense");
        assert("add_expense"@.len() == 11);
        reveal_strlit("add_reservation");
        assert("add_reservation"@.len() == 15);
        reveal_strlit("add_estimate");
        assert("add_estimate"@.len() == 12);
        reveal_strlit("update_itinerary");
        assert("update_itinerary"@.len() == 16);
        reveal_strlit("update_estimate");
        assert("update_estimate"@.len() == 15);
        reveal_strlit("delete_estimate");
        assert("delete_estimate"@.len() == 15);
        reveal_strlit("delete_itinerary");
        assert("delete_itinerary"@.len() == 16);
        reveal_strlit("reorder_itinerary");
        assert("reorder_itinerary"@.len() == 17);
        reveal_strlit("move_itinerary");
        assert("move_itinerary"@.len() == 14);
        assert("add_reservation"@[0] != "update_estimate"@[0]);
        assert("add_reservation"@[0] != "delete_estimate"@[0]);
        assert("update_estimate"@[0] != "delete_estimate"@[0]);
        assert("update_itinerary"@[0] != "delete_itinerary"@[0]);
    }
    if str_eq(action, "add_itinerary") {
        Ok(ConfirmWrite::AddItinerary)
    } else if str_eq(action, "add_note") {
        Ok(ConfirmWrite::AddNote)
    } else if str_eq(action, "add_expense") {
        Ok(ConfirmWrite::AddExpense)
    } else if str_eq(action, "add_reservation") {
        Ok(ConfirmWrite::AddReservation)
    } else if str_eq(action, "add_estimate") {
        Ok(ConfirmWrite::AddEstimate)
    } else if str_eq(action, "update_itinerary") {
        Ok(ConfirmWrite::UpdateItinerary)
    } else if str_eq(action, "update_estimate") {
        Ok(ConfirmWrite::UpdateEstimate)
    } else if str_eq(action, "delete_estimate") {
        Ok(ConfirmWrite::DeleteEstimate)
    } else if str_eq(action, "delete_itinerary") {
        Ok(ConfirmWrite::DeleteItinerary)
    } else if str_eq(action, "reorder_itinerary") {
        Ok(ConfirmWrite::ReorderItineraries)
    } else if str_eq(action, "move_itinerary") {
        Ok(ConfirmWrite::MoveItinerary)
    } else {
        let mut m = owned("未対応の confirm action です: ");
        push_str(&mut m, action);
        Err(m)
    }
}

/// What a database write gave back: the id of the record written, the number
/// of itineraries reordered, or the moved itinerary and the rows updated.
#[derive(Clone, Copy, Debug, PartialEq, Eq, Structural)]
pub enum ConfirmInsertResult {
    Itinerary(i64),
    Note(i64),
    Expense(i64),
    Reservation(i64),
    Estimate(i64),
    UpdatedItinerary(i64),
    UpdatedEstimate(i64),
    DeletedItinerary(i64),
    DeletedEstimate(i64),
    ReorderedItineraries(usize),
    MovedItinerary { itinerary_id: i64, updated_rows: usize },
}

/// `after` is `before` with the outcome of the write recorded: the written
/// id (or count) in its field, or, for a failed write, the report invalid
/// with the error appended.
pub open spec fn confirm_recorded(
    before: FragmentApplyDryRunReport,
    after: FragmentApplyDryRunReport,
    outcome: Result<ConfirmInsertResult, String>,
) -> bool {
    match outcome {
        Err(e) => {
            &&& after == FragmentApplyDryRunReport { valid: false, errors: after.errors, ..before }
            &&& strings_view(after.errors@) == strings_view(before.errors@).push(e@)
        },
        Ok(w) => match w {
            ConfirmInsertResult::Itinerary(id) => after == FragmentApplyDryRunReport {
                inserted_itinerary_id: Some(id),
                ..before
            },
            ConfirmInsertResult::Note(id) => after == FragmentApplyDryRunReport { inserted_note_id: Some(id), ..before },
            ConfirmInsertResult::Expense(id) => after == FragmentApplyDryRunReport {
                inserted_expense_id: Some(id),
                ..before
            },
            ConfirmInsertResult::Reservation(id) => after == FragmentApplyDryRunReport {
                inserted_reservation_id: Some(id),
                ..before
            },
            ConfirmInsertResult::Estimate(id) => after == FragmentApplyDryRunReport {
                inserted_estimate_id: Some(id),
                ..before
            },
            ConfirmInsertResult::UpdatedItinerary(id) => after == FragmentApplyDryRunReport {
                updated_itinerary_id: Some(id),
                ..before
            },
            ConfirmInsertResult::UpdatedEstimate(id) => after == FragmentApplyDryRunReport {
                updated_estimate_id: Some(id),
                ..before
            },
            ConfirmInsertResult::DeletedEstimate(id) => after == FragmentApplyDryRunReport {
                deleted_estimate_id: Some(id),
                ..before
            },
            ConfirmInsertResult::DeletedItinerary(id) => after == FragmentApplyDryRunReport {
                deleted_itinerary_id: Some(id),
                ..before
            },
            ConfirmInsertResult::ReorderedItineraries(n) => after == FragmentApplyDryRunReport {
                reordered_itineraries: Some(n),
                ..before
            },
            ConfirmInsertResult::MovedItinerary { itinerary_id, updated_rows } => after == FragmentApplyDryRunReport {
                moved_itinerary_id: Some(itinerary_id),
                moved_itinerary_updated_rows: Some(updated_rows),
                ..before
            },
        },
    }
}

/// Records the outcome of a confirmed write in the report.
pub fn record_confirm_result(report: &mut FragmentApplyDryRunReport, outcome: Result<ConfirmInsertResult, String>)
    ensures
        confirm_recorded(*old(report), *final(report), outcome),
{
    match outcome {
        Ok(ConfirmInsertResult::Itinerary(id)) => report.inserted_itinerary_id = Some(id),
        Ok(ConfirmInsertResult::Note(id)) => report.inserted_note_id = Some(id),
        Ok(ConfirmInsertResult::Expense(id)) => report.inserted_expense_id = Some(id),
        Ok(ConfirmInsertResult::Reservation(id)) => report.inserted_reservation_id = Some(id),
        Ok(ConfirmInsertResult::Estimate(id)) => report.inserted_estimate_id = Some(id),
        Ok(ConfirmInsertResult::UpdatedItinerary(id)) => report.updated_itinerary_id = Some(id),
        Ok(ConfirmInsertResult::UpdatedEstimate(id)) => report.updated_estimate_id = Some(id),
        Ok(ConfirmInsertResult::DeletedEstimate(id)) => report.deleted_estimate_id = Some(id),
        Ok(ConfirmInsertResult::DeletedItinerary(id)) => report.deleted_itinerary_id = Some(id),
        Ok(ConfirmInsertResult::ReorderedItineraries(n)) => report.reordered_itineraries = Some(n),
        Ok(ConfirmInsertResult::MovedItinerary { itinerary_id, updated_rows }) => {
            report.moved_itinerary_id = Some(itinerary_id);
            report.moved_itinerary_updated_rows = Some(updated_rows);
        },
        Err(e) => {
            report.valid = false;
            push_string(&mut report.errors, e);
        },
    }
}

/// The command fails when the report is not valid, naming the mode.
pub open spec fn apply_outcome(valid: bool, confirm: bool) -> Result<(), Seq<char>> {
    if valid {
        Ok(())
    } else if confirm {
        Err("fragment apply --confirm に失敗しました"@)
    } else {
        Err("fragment apply --dry-run に失敗しました"@)
    }
}

/// How `fragment apply` ends once its report is printed.
pub fn fragment_apply_outcome(report: &FragmentApplyDryRunReport) -> (r: Result<(), String>)
    ensures
        crate::text::result_view(r) == apply_outcome(report.valid, report.confirm),
{
    if report.valid {
        Ok(())
    } else if report.confirm {
        Err(owned("fragment apply --confirm に失敗しました"))
    } else {
        Err(owned("fragment apply --dry-run に失敗しました"))
    }
}

} // verus!
