//! The checks made before and after a confirmed write: that the write stays
//! within what `--confirm` supports, and that what is written (or was
//! written) agrees with the preview the user accepted.
use vstd::prelude::*;

use crate::models::Estimate;
use crate::proposal::apply::{
    estimate_changes_view, estimate_display_value_for_field, estimate_field_display, opt_string_eq,
    FragmentApplyDryRunReport, FragmentApplyEstimateDeletePreview, FragmentApplyEstimateFieldChange,
    FragmentApplyEstimatePreview, FragmentApplyEstimateUpdatePreview, FragmentApplyItineraryMoveOrderChange,
    FragmentApplyMovePreview, FragmentApplyPreviewSummary, ParsedAddEstimateFields, ParsedUpdateEstimateFields,
    ResolvedApplyTarget,
};
use crate::text::{int_decimal, opt_view, owned, push_i64_decimal, push_str, push_string, str_eq, strings_view};

verus! {

pub open spec fn dec(x: i64) -> Seq<char> {
    int_decimal(x as int)
}

/// `a` + `x` + `b` + `y` + `c`, the numbers in decimal.
pub open spec fn text_with_two(a: Seq<char>, x: Seq<char>, b: Seq<char>, y: Seq<char>, c: Seq<char>) -> Seq<char> {
    a + x + b + y + c
}

fn message_with_numbers(a: &str, x: i64, b: &str, y: i64, c: &str) -> (r: String)
    ensures
        r@ == text_with_two(a@, dec(x), b@, dec(y), c@),
{
    let mut m = owned(a);
    push_i64_decimal(&mut m, x);
    push_str(&mut m, b);
    push_i64_decimal(&mut m, y);
    push_str(&mut m, c);
    m
}

fn message_with_texts(a: &str, x: &str, b: &str, y: &str, c: &str) -> (r: String)
    ensures
        r@ == text_with_two(a@, x@, b@, y@, c@),
{
    let mut m = owned(a);
    push_str(&mut m, x);
    push_str(&mut m, b);
    push_str(&mut m, y);
    push_str(&mut m, c);
    m
}

fn message_with_number(a: &str, x: i64, b: &str) -> (r: String)
    ensures
        r@ == a@ + dec(x) + b@,
{
    let mut m = owned(a);
    push_i64_decimal(&mut m, x);
    push_str(&mut m, b);
    m
}

// ---------------------------------------------------------------------------
// Adding an estimate.

/// Where an `add_estimate` preview and the fields read at write time first differ.
pub open spec fn estimate_preview_check(p: FragmentApplyEstimatePreview, f: ParsedAddEstimateFields, itinerary_id: i64) -> Result<
    (),
    Seq<char>,
> {
    if itinerary_id != p.target_itinerary_id {
        Err(
            text_with_two(
                "gate preview と target itinerary が一致しません（preview: "@,
                dec(p.target_itinerary_id),
                ", resolved: "@,
                dec(itinerary_id),
                "）— DB 更新しません"@,
            ),
        )
    } else if f.amount != p.amount {
        Err(
            text_with_two(
                "gate preview と amount が一致しません（preview: "@,
                dec(p.amount),
                ", parsed: "@,
                dec(f.amount),
                "）— DB 更新しません"@,
            ),
        )
    } else if f.currency@ != p.currency@ {
        Err(
            text_with_two(
                "gate preview と currency が一致しません（preview: "@,
                p.currency@,
                ", parsed: "@,
                f.currency@,
                "）— DB 更新しません"@,
            ),
        )
    } else if opt_view(f.title) != opt_view(p.title) {
        Err("gate preview と title が一致しません — DB 更新しません"@)
    } else if opt_view(f.note) != opt_view(p.note) {
        Err("gate preview と note が一致しません — DB 更新しません"@)
    } else if f.sort_order != p.sort_order {
        Err(
            text_with_two(
                "gate preview と sort_order が一致しません（preview: "@,
                dec(p.sort_order),
                ", parsed: "@,
                dec(f.sort_order),
                "）— DB 更新しません"@,
            ),
        )
    } else {
        Ok(())
    }
}

pub fn verify_estimate_preview_matches_fields(
    preview: &FragmentApplyEstimatePreview,
    fields: &ParsedAddEstimateFields,
    itinerary_id: i64,
) -> (r: Result<(), String>)
    ensures
        crate::text::result_view(r) == estimate_preview_check(*preview, *fields, itinerary_id),
{
    if itinerary_id != preview.target_itinerary_id {
        return Err(
            message_with_numbers(
                "gate preview と target itinerary が一致しません（preview: ",
                preview.target_itinerary_id,
                ", resolved: ",
                itinerary_id,
                "）— DB 更新しません",
            ),
        );
    }
    if fields.amount != preview.amount {
        return Err(
            message_with_numbers(
                "gate preview と amount が一致しません（preview: ",
                preview.amount,
                ", parsed: ",
                fields.amount,
                "）— DB 更新しません",
            ),
        );
    }
    if !str_eq(fields.currency.as_str(), preview.currency.as_str()) {
        return Err(
            message_with_texts(
                "gate preview と currency が一致しません（preview: ",
                preview.currency.as_str(),
                ", parsed: ",
                fields.currency.as_str(),
                "）— DB 更新しません",
            ),
        );
    }
    if !opt_string_eq(&fields.title, &preview.title) {
        return Err(owned("gate preview と title が一致しません — DB 更新しません"));
    }
    if !opt_string_eq(&fields.note, &preview.note) {
        return Err(owned("gate preview と note が一致しません — DB 更新しません"));
    }
    if fields.sort_order != preview.sort_order {
        return Err(
            message_with_numbers(
                "gate preview と sort_order が一致しません（preview: ",
                preview.sort_order,
                ", parsed: ",
                fields.sort_order,
                "）— DB 更新しません",
            ),
        );
    }
    Ok(())
}

/// The first disagreement between the estimate read back after an insert and the parsed fields.
pub open spec fn inserted_estimate_check(e: Estimate, itinerary_id: i64, f: ParsedAddEstimateFields) -> Result<
    (),
    Seq<char>,
> {
    if e.id <= 0 {
        Err("inserted estimate ID が不正です — DB 更新しません"@)
    } else if e.itinerary_id != itinerary_id {
        Err(
            text_with_two(
                "inserted estimate の itinerary_id ("@,
                dec(e.itinerary_id),
                ") が期待値 ("@,
                dec(itinerary_id),
                ") と一致しません — DB 更新しません"@,
            ),
        )
    } else if e.amount != f.amount {
        Err(
            text_with_two(
                "inserted estimate の amount ("@,
                dec(e.amount),
                ") が期待値 ("@,
                dec(f.amount),
                ") と一致しません — DB 更新しません"@,
            ),
        )
    } else if e.currency@ != f.currency@ {
        Err(
            text_with_two(
                "inserted estimate の currency ("@,
                e.currency@,
                ") が期待値 ("@,
                f.currency@,
                ") と一致しません — DB 更新しません"@,
            ),
        )
    } else if opt_view(e.title) != opt_view(f.title) {
        Err("inserted estimate の title が期待値と一致しません — DB 更新しません"@)
    } else if opt_view(e.note) != opt_view(f.note) {
        Err("inserted estimate の note が期待値と一致しません — DB 更新しません"@)
    } else if e.sort_order != f.sort_order {
        Err(
            text_with_two(
                "inserted estimate の sort_order ("@,
                dec(e.sort_order),
                ") が期待値 ("@,
                dec(f.sort_order),
                ") と一致しません — DB 更新しません"@,
            ),
        )
    } else {
        Ok(())
    }
}

pub fn verify_inserted_estimate_matches_fields(
    estimate: &Estimate,
    itinerary_id: i64,
    fields: &ParsedAddEstimateFields,
) -> (r: Result<(), String>)
    ensures
        crate::text::result_view(r) == inserted_estimate_check(*estimate, itinerary_id, *fields),
{
    if estimate.id <= 0 {
        return Err(owned("inserted estimate ID が不正です — DB 更新しません"));
    }
    if estimate.itinerary_id != itinerary_id {
        return Err(
            message_with_numbers(
                "inserted estimate の itinerary_id (",
                estimate.itinerary_id,
                ") が期待値 (",
                itinerary_id,
                ") と一致しません — DB 更新しません",
            ),
        );
    }
    if estimate.amount != fields.amount {
        return Err(
            message_with_numbers(
                "inserted estimate の amount (",
                estimate.amount,
                ") が期待値 (",
                fields.amount,
                ") と一致しません — DB 更新しません",
            ),
        );
    }
    if !str_eq(estimate.currency.as_str(), fields.currency.as_str()) {
        return Err(
            message_with_texts(
                "inserted estimate の currency (",
                estimate.currency.as_str(),
                ") が期待値 (",
                fields.currency.as_str(),
                ") と一致しません — DB 更新しません",
            ),
        );
    }
    if !opt_string_eq(&estimate.title, &fields.title) {
        return Err(owned("inserted estimate の title が期待値と一致しません — DB 更新しません"));
    }
    if !opt_string_eq(&estimate.note, &fields.note) {
        return Err(owned("inserted estimate の note が期待値と一致しません — DB 更新しません"));
    }
    if estimate.sort_order != fields.sort_order {
        return Err(
            message_with_numbers(
                "inserted estimate の sort_order (",
                estimate.sort_order,
                ") が期待値 (",
                fields.sort_order,
                ") と一致しません — DB 更新しません",
            ),
        );
    }
    Ok(())
}

// ---------------------------------------------------------------------------
// Updating an estimate.

/// Whether two change lists are equal entry by entry.
fn estimate_changes_equal(a: &[FragmentApplyEstimateFieldChange], b: &[FragmentApplyEstimateFieldChange]) -> (r: bool)
    ensures
        r == (estimate_changes_view(a@) == estimate_changes_view(b@)),
{
    if a.len() != b.len() {
        assert(estimate_changes_view(a@).len() != estimate_changes_view(b@).len());
        return false;
    }
    let mut i: usize = 0;
    while i < a.len()
        invariant
            a@.len() == b@.len(),
            i <= a@.len(),
            forall|j: int| 0 <= j < i ==> estimate_changes_view(a@)[j] == estimate_changes_view(b@)[j],
        decreases a@.len() - i,
    {
        if !str_eq(a[i].field.as_str(), b[i].field.as_str()) || !str_eq(a[i].before.as_str(), b[i].before.as_str())
            || !str_eq(a[i].after.as_str(), b[i].after.as_str()) {
            assert(estimate_changes_view(a@)[i as int] != estimate_changes_view(b@)[i as int]);
            return false;
        }
        i = i + 1;
    }
    assert(estimate_changes_view(a@) =~= estimate_changes_view(b@));
    true
}

/// The index of the first gate change whose `after` differs from the proposed estimate.
pub open spec fn first_after_mismatch(changes: Seq<FragmentApplyEstimateFieldChange>, proposed: Estimate, i: int) -> Option<
    int,
>
    decreases changes.len() - i,
{
    if i < 0 || i >= changes.len() {
        None
    } else if changes[i].after@ != estimate_field_display(changes[i].field@, proposed) {
        Some(i)
    } else {
        first_after_mismatch(changes, proposed, i + 1)
    }
}

/// Where an `update_estimate` preview and the values worked out at write time first differ.
pub open spec fn update_estimate_gate_check(
    gate: FragmentApplyEstimateUpdatePreview,
    gate_changes: Seq<FragmentApplyEstimateFieldChange>,
    itinerary_id: i64,
    fields: ParsedUpdateEstimateFields,
    proposed: Estimate,
    recomputed: Seq<FragmentApplyEstimateFieldChange>,
) -> Result<(), Seq<char>> {
    if gate.target_itinerary_id != itinerary_id {
        Err(
            text_with_two(
                "gate preview と target itinerary が一致しません（preview: "@,
                dec(gate.target_itinerary_id),
                ", resolved: "@,
                dec(itinerary_id),
                "）— DB 更新しません"@,
            ),
        )
    } else if gate.target_estimate_id != fields.estimate_id {
        Err(
            text_with_two(
                "gate preview と target estimate が一致しません（preview: "@,
                dec(gate.target_estimate_id),
                ", parsed: "@,
                dec(fields.estimate_id),
                "）— DB 更新しません"@,
            ),
        )
    } else if estimate_changes_view(gate_changes) != estimate_changes_view(recomputed) {
        Err("gate preview と estimate_field_changes が一致しません — DB 更新しません"@)
    } else {
        match first_after_mismatch(gate_changes, proposed, 0) {
            Some(i) => Err(
                text_with_two(
                    "gate preview の after ("@,
                    gate_changes[i].after@,
                    ") と proposed "@,
                    gate_changes[i].field@,
                    " ("@,
                ) + estimate_field_display(gate_changes[i].field@, proposed) + ") が一致しません — DB 更新しません"@,
            ),
            None => Ok(()),
        }
    }
}

pub fn verify_update_estimate_gate_preview_matches(
    gate_preview: &FragmentApplyEstimateUpdatePreview,
    gate_changes: &[FragmentApplyEstimateFieldChange],
    itinerary_id: i64,
    fields: &ParsedUpdateEstimateFields,
    proposed: &Estimate,
    recomputed_changes: &[FragmentApplyEstimateFieldChange],
) -> (r: Result<(), String>)
    ensures
        crate::text::result_view(r) == update_estimate_gate_check(
            *gate_preview,
            gate_changes@,
            itinerary_id,
            *fields,
            *proposed,
            recomputed_changes@,
        ),
{
    if gate_preview.target_itinerary_id != itinerary_id {
        return Err(
            message_with_numbers(
                "gate preview と target itinerary が一致しません（preview: ",
                gate_preview.target_itinerary_id,
                ", resolved: ",
                itinerary_id,
                "）— DB 更新しません",
            ),
        );
    }
    if gate_preview.target_estimate_id != fields.estimate_id {
        return Err(
            message_with_numbers(
                "gate preview と target estimate が一致しません（preview: ",
                gate_preview.target_estimate_id,
                ", parsed: ",
                fields.estimate_id,
                "）— DB 更新しません",
            ),
        );
    }
    if !estimate_changes_equal(gate_changes, recomputed_changes) {
        return Err(owned("gate preview と estimate_field_changes が一致しません — DB 更新しません"));
    }
    let mut i: usize = 0;
    while i < gate_changes.len()
        invariant
            i <= gate_changes@.len(),
            first_after_mismatch(gate_changes@, *proposed, 0) == first_after_mismatch(gate_changes@, *proposed, i as int),
            gate_preview.target_itinerary_id == itinerary_id,
            gate_preview.target_estimate_id == fields.estimate_id,
            estimate_changes_view(gate_changes@) == estimate_changes_view(recomputed_changes@),
        decreases gate_changes@.len() - i,
    {
        let change = &gate_changes[i];
        let expected_after = estimate_display_value_for_field(change.field.as_str(), proposed);
        if !str_eq(change.after.as_str(), expected_after.as_str()) {
            let mut m = message_with_texts(
                "gate preview の after (",
                change.after.as_str(),
                ") と proposed ",
                change.field.as_str(),
                " (",
            );
            push_str(&mut m, expected_after.as_str());
            push_str(&mut m, ") が一致しません — DB 更新しません");
            return Err(m);
        }
        i = i + 1;
    }
    Ok(())
}

/// The first disagreement between the estimate read back after an update and the proposed one.
pub open spec fn updated_estimate_check(stored: Estimate, itinerary_id: i64, proposed: Estimate) -> Result<
    (),
    Seq<char>,
> {
    if stored.id != proposed.id {
        Err(
            text_with_two(
                "updated estimate ID ("@,
                dec(stored.id),
                ") が期待値 ("@,
                dec(proposed.id),
                ") と一致しません — DB 更新しません"@,
            ),
        )
    } else if stored.itinerary_id != itinerary_id {
        Err(
            text_with_two(
                "updated estimate の itinerary_id ("@,
                dec(stored.itinerary_id),
                ") が期待値 ("@,
                dec(itinerary_id),
                ") と一致しません — DB 更新しません"@,
            ),
        )
    } else if stored.amount != proposed.amount {
        Err(
            text_with_two(
                "updated estimate の amount ("@,
                dec(stored.amount),
                ") が期待値 ("@,
                dec(proposed.amount),
                ") と一致しません — DB 更新しません"@,
            ),
        )
    } else if stored.currency@ != proposed.currency@ {
        Err(
            text_with_two(
                "updated estimate の currency ("@,
                stored.currency@,
                ") が期待値 ("@,
                proposed.currency@,
                ") と一致しません — DB 更新しません"@,
            ),
        )
    } else if opt_view(stored.title) != opt_view(proposed.title) {
        Err("updated estimate の title が期待値と一致しません — DB 更新しません"@)
    } else if opt_view(stored.note) != opt_view(proposed.note) {
        Err("updated estimate の note が期待値と一致しません — DB 更新しません"@)
    } else if stored.sort_order != proposed.sort_order {
        Err(
            text_with_two(
                "updated estimate の sort_order ("@,
                dec(stored.sort_order),
                ") が期待値 ("@,
                dec(proposed.sort_order),
                ") と一致しません — DB 更新しません"@,
            ),
        )
    } else {
        Ok(())
    }
}

pub fn verify_updated_estimate_matches_proposed(stored: &Estimate, itinerary_id: i64, proposed: &Estimate) -> (r:
    Result<(), String>)
    ensures
        crate::text::result_view(r) == updated_estimate_check(*stored, itinerary_id, *proposed),
{
    if stored.id != proposed.id {
        return Err(
            message_with_numbers(
                "updated estimate ID (",
                stored.id,
                ") が期待値 (",
                proposed.id,
                ") と一致しません — DB 更新しません",
            ),
        );
    }
    if stored.itinerary_id != itinerary_id {
        return Err(
            message_with_numbers(
                "updated estimate の itinerary_id (",
                stored.itinerary_id,
                ") が期待値 (",
                itinerary_id,
                ") と一致しません — DB 更新しません",
            ),
        );
    }
    if stored.amount != proposed.amount {
        return Err(
            message_with_numbers(
                "updated estimate の amount (",
                stored.amount,
                ") が期待値 (",
                proposed.amount,
                ") と一致しません — DB 更新しません",
            ),
        );
    }
    if !str_eq(stored.currency.as_str(), proposed.currency.as_str()) {
        return Err(
            message_with_texts(
                "updated estimate の currency (",
                stored.currency.as_str(),
                ") が期待値 (",
                proposed.currency.as_str(),
                ") と一致しません — DB 更新しません",
            ),
        );
    }
    if !opt_string_eq(&stored.title, &proposed.title) {
        return Err(owned("updated estimate の title が期待値と一致しません — DB 更新しません"));
    }
    if !opt_string_eq(&stored.note, &proposed.note) {
        return Err(owned("updated estimate の note が期待値と一致しません — DB 更新しません"));
    }
    if stored.sort_order != proposed.sort_order {
        return Err(
            message_with_numbers(
                "updated estimate の sort_order (",
                stored.sort_order,
                ") が期待値 (",
                proposed.sort_order,
                ") と一致しません — DB 更新しません",
            ),
        );
    }
    Ok(())
}

// ---------------------------------------------------------------------------
// Deleting an estimate.

/// The first field in which two snapshots of the estimate to delete disagree.
pub open spec fn delete_snapshot_check(g: FragmentApplyEstimateDeletePreview, o: FragmentApplyEstimateDeletePreview) -> Result<
    (),
    Seq<char>,
> {
    if g.target_itinerary_id != o.target_itinerary_id {
        Err(
            text_with_two(
                "gate preview と recomputed target_itinerary_id が一致しません（preview: "@,
                dec(g.target_itinerary_id),
                ", recomputed: "@,
                dec(o.target_itinerary_id),
                "）— DB 更新しません"@,
            ),
        )
    } else if g.target_estimate_id != o.target_estimate_id {
        Err(
            text_with_two(
                "gate preview と recomputed target_estimate_id が一致しません（preview: "@,
                dec(g.target_estimate_id),
                ", recomputed: "@,
                dec(o.target_estimate_id),
                "）— DB 更新しません"@,
            ),
        )
    } else if opt_view(g.title) != opt_view(o.title) {
        Err("gate preview と recomputed title が一致しません — DB 更新しません"@)
    } else if g.amount != o.amount {
        Err(
            text_with_two(
                "gate preview と recomputed amount が一致しません（preview: "@,
                dec(g.amount),
                ", recomputed: "@,
                dec(o.amount),
                "）— DB 更新しません"@,
            ),
        )
    } else if g.currency@ != o.currency@ {
        Err(
            text_with_two(
                "gate preview と recomputed currency が一致しません（preview: "@,
                g.currency@,
                ", recomputed: "@,
                o.currency@,
                "）— DB 更新しません"@,
            ),
        )
    } else if opt_view(g.note) != opt_view(o.note) {
        Err("gate preview と recomputed note が一致しません — DB 更新しません"@)
    } else if g.sort_order != o.sort_order {
        Err(
            text_with_two(
                "gate preview と recomputed sort_order が一致しません（preview: "@,
                dec(g.sort_order),
                ", recomputed: "@,
                dec(o.sort_order),
                "）— DB 更新しません"@,
            ),
        )
    } else if g.updated_at@ != o.updated_at@ {
        Err(
            text_with_two(
                "gate preview と recomputed updated_at が一致しません（preview: "@,
                g.updated_at@,
                ", recomputed: "@,
                o.updated_at@,
                "）— DB 更新しません"@,
            ),
        )
    } else {
        Ok(())
    }
}

pub fn estimate_delete_snapshot_agreement_fields_match(
    gate: &FragmentApplyEstimateDeletePreview,
    other: &FragmentApplyEstimateDeletePreview,
) -> (r: Result<(), String>)
    ensures
        crate::text::result_view(r) == delete_snapshot_check(*gate, *other),
{
    if gate.target_itinerary_id != other.target_itinerary_id {
        return Err(
            message_with_numbers(
                "gate preview と recomputed target_itinerary_id が一致しません（preview: ",
                gate.target_itinerary_id,
                ", recomputed: ",
                other.target_itinerary_id,
                "）— DB 更新しません",
            ),
        );
    }
    if gate.target_estimate_id != other.target_estimate_id {
        return Err(
            message_with_numbers(
                "gate preview と recomputed target_estimate_id が一致しません（preview: ",
                gate.target_estimate_id,
                ", recomputed: ",
                other.target_estimate_id,
                "）— DB 更新しません",
            ),
        );
    }
    if !opt_string_eq(&gate.title, &other.title) {
        return Err(owned("gate preview と recomputed title が一致しません — DB 更新しません"));
    }
    if gate.amount != other.amount {
        return Err(
            message_with_numbers(
                "gate preview と recomputed amount が一致しません（preview: ",
                gate.amount,
                ", recomputed: ",
                other.amount,
                "）— DB 更新しません",
            ),
        );
    }
    if !str_eq(gate.currency.as_str(), other.currency.as_str()) {
        return Err(
            message_with_texts(
                "gate preview と recomputed currency が一致しません（preview: ",
                gate.currency.as_str(),
                ", recomputed: ",
                other.currency.as_str(),
                "）— DB 更新しません",
            ),
        );
    }
    if !opt_string_eq(&gate.note, &other.note) {
        return Err(owned("gate preview と recomputed note が一致しません — DB 更新しません"));
    }
    if gate.sort_order != other.sort_order {
        return Err(
            message_with_numbers(
                "gate preview と recomputed sort_order が一致しません（preview: ",
                gate.sort_order,
                ", recomputed: ",
                other.sort_order,
                "）— DB 更新しません",
            ),
        );
    }
    if !str_eq(gate.updated_at.as_str(), other.updated_at.as_str()) {
        return Err(
            message_with_texts(
                "gate preview と recomputed updated_at が一致しません（preview: ",
                gate.updated_at.as_str(),
                ", recomputed: ",
                other.updated_at.as_str(),
                "）— DB 更新しません",
            ),
        );
    }
    Ok(())
}

pub open spec fn delete_estimate_gate_check(
    gate: FragmentApplyEstimateDeletePreview,
    itinerary_id: i64,
    estimate_id: i64,
    recomputed: FragmentApplyEstimateDeletePreview,
) -> Result<(), Seq<char>> {
    if gate.target_itinerary_id != itinerary_id {
        Err(
            text_with_two(
                "gate preview と target itinerary が一致しません（preview: "@,
                dec(gate.target_itinerary_id),
                ", resolved: "@,
                dec(itinerary_id),
                "）— DB 更新しません"@,
            ),
        )
    } else if gate.target_estimate_id != estimate_id {
        Err(
            text_with_two(
                "gate preview と target estimate が一致しません（preview: "@,
                dec(gate.target_estimate_id),
                ", parsed: "@,
                dec(estimate_id),
                "）— DB 更新しません"@,
            ),
        )
    } else {
        delete_snapshot_check(gate, recomputed)
    }
}

pub fn verify_delete_estimate_gate_preview_matches(
    gate: &FragmentApplyEstimateDeletePreview,
    itinerary_id: i64,
    estimate_id: i64,
    recomputed: &FragmentApplyEstimateDeletePreview,
) -> (r: Result<(), String>)
    ensures
        crate::text::result_view(r) == delete_estimate_gate_check(*gate, itinerary_id, estimate_id, *recomputed),
{
    if gate.target_itinerary_id != itinerary_id {
        return Err(
            message_with_numbers(
                "gate preview と target itinerary が一致しません（preview: ",
                gate.target_itinerary_id,
                ", resolved: ",
                itinerary_id,
                "）— DB 更新しません",
            ),
        );
    }
    if gate.target_estimate_id != estimate_id {
        return Err(
            message_with_numbers(
                "gate preview と target estimate が一致しません（preview: ",
                gate.target_estimate_id,
                ", parsed: ",
                estimate_id,
                "）— DB 更新しません",
            ),
        );
    }
    estimate_delete_snapshot_agreement_fields_match(gate, recomputed)
}

/// A snapshot always agrees with itself.
pub proof fn lemma_delete_snapshot_agrees_with_itself(g: FragmentApplyEstimateDeletePreview)
    ensures
        delete_snapshot_check(g, g) == Ok::<(), Seq<char>>(()),
{
}

// ---------------------------------------------------------------------------
// What `--confirm` may write.

/// The error of a target of the wrong type: the rule's text, then the target type.
pub open spec fn target_type_message(rule: Seq<char>, target_type: Seq<char>) -> Seq<char> {
    rule + target_type + "）"@
}

/// Why `--confirm` refuses to write for this target, intent and preview (none when it may).
pub open spec fn confirm_scope_error(
    resolved: ResolvedApplyTarget,
    intent: Seq<char>,
    preview: FragmentApplyPreviewSummary,
    decisions_pending: bool,
) -> Option<Seq<char>> {
    let tt = resolved.target_type@;
    let action = preview.action@;
    let is = |i: Seq<char>, a: Seq<char>| intent == i && action == a;
    if resolved.resolution@ == "ambiguous"@ {
        Some("target が曖昧です — DB 更新しません"@)
    } else if decisions_pending {
        Some("required decisions が未解決です — DB 更新しません"@)
    } else if is("add"@, "add_itinerary"@) {
        if tt != "day"@ {
            Some("v4.7.19 --confirm は Day target + add_itinerary のみサポートしています"@)
        } else {
            None
        }
    } else if is("add_note"@, "add_note"@) {
        if !(tt == "trip"@ || tt == "day"@ || tt == "itinerary"@) {
            Some(
                target_type_message(
                    "v4.7.23 --confirm は trip / day / itinerary target + add_note のみサポートしています（現在: target_type="@,
                    tt,
                ),
            )
        } else {
            None
        }
    } else if is("add_expense"@, "add_expense"@) {
        if tt != "itinerary"@ {
            Some(
                target_type_message(
                    "v4.7.25 --confirm は itinerary target + add_expense のみサポートしています（現在: target_type="@,
                    tt,
                ),
            )
        } else {
            None
        }
    } else if is("add_reservation"@, "add_reservation"@) {
        if tt != "itinerary"@ {
            Some(
                target_type_message(
                    "v4.7.27 --confirm は itinerary target + add_reservation のみサポートしています（現在: target_type="@,
                    tt,
                ),
            )
        } else {
            None
        }
    } else if is("add_estimate"@, "add_estimate"@) {
        if tt != "itinerary"@ {
            Some(
                target_type_message(
                    "v4.7.43 --confirm は itinerary target + add_estimate のみサポートしています（現在: target_type="@,
                    tt,
                ),
            )
        } else if preview.estimate_preview is None {
            Some("add_estimate confirm には estimate_preview が必要です"@)
        } else {
            None
        }
    } else if is("update_itinerary"@, "update_itinerary"@) {
        if tt != "itinerary"@ {
            Some(
                target_type_message(
                    "v4.7.29 --confirm は itinerary target + update_itinerary のみサポートしています（現在: target_type="@,
                    tt,
                ),
            )
        } else {
            None
        }
    } else if is("update_estimate"@, "update_estimate"@) {
        if tt != "itinerary"@ {
            Some(
                target_type_message(
                    "v4.7.48 --confirm は itinerary target + update_estimate のみサポートしています（現在: target_type="@,
                    tt,
                ),
            )
        } else if preview.estimate_update_preview is None {
            Some("update_estimate confirm には estimate_update_preview が必要です"@)
        } else if match preview.estimate_field_changes {
            Some(c) => c@.len() == 0,
            None => true,
        } {
            Some("update_estimate confirm には estimate_field_changes が必要です"@)
        } else {
            None
        }
    } else if is("delete_estimate"@, "delete_estimate"@) {
        if tt != "itinerary"@ {
            Some(
                target_type_message(
                    "v4.8.2 --confirm は itinerary target + delete_estimate のみサポートしています（現在: target_type="@,
                    tt,
                ),
            )
        } else if preview.estimate_delete_preview is None {
            Some("delete_estimate confirm には estimate_delete_preview が必要です"@)
        } else {
            None
        }
    } else if is("delete_itinerary"@, "delete_itinerary"@) {
        if tt != "itinerary"@ {
            Some(
                target_type_message(
                    "v4.7.32 --confirm は itinerary target + delete_itinerary のみサポートしています（現在: target_type="@,
                    tt,
                ),
            )
        } else if preview.delete_preview is None {
            Some("delete_itinerary confirm には delete_preview が必要です"@)
        } else {
            None
        }
    } else if is("reorder_itinerary"@, "reorder_itinerary"@) {
        if tt != "day"@ {
            Some(
                target_type_message(
                    "v4.7.36 --confirm は day target + reorder_itinerary のみサポートしています（現在: target_type="@,
                    tt,
                ),
            )
        } else if preview.reorder_preview is None {
            Some("reorder_itinerary confirm には reorder_preview が必要です"@)
        } else {
            None
        }
    } else if is("move_itinerary"@, "move_itinerary"@) {
        if tt != "itinerary"@ {
            Some(
                target_type_message(
                    "v4.7.39 --confirm は itinerary target + move_itinerary のみサポートしています（現在: target_type="@,
                    tt,
                ),
            )
        } else if preview.move_preview is None {
            Some("move_itinerary confirm には move_preview が必要です"@)
        } else {
            None
        }
    } else {
        Some(
            "v4.8.2 --confirm は intent add (add_itinerary)、add_note、add_expense、add_reservation、add_estimate、update_itinerary、update_estimate、delete_estimate、delete_itinerary、または将来の confirm 対象 intent のみサポートしています（現在: intent="@
                + intent + ", action="@ + action + "）"@,
        )
    }
}

/// The report is unchanged but for its error and warning lists.
pub open spec fn same_but_messages(a: FragmentApplyDryRunReport, b: FragmentApplyDryRunReport) -> bool {
    &&& a.schema_version == b.schema_version
    &&& a.file == b.file
    &&& a.dry_run == b.dry_run
    &&& a.confirm == b.confirm
    &&& a.valid == b.valid
    &&& a.fragment_valid == b.fragment_valid
    &&& a.trip_export_valid == b.trip_export_valid
    &&& a.trip_id == b.trip_id
    &&& a.required_decisions == b.required_decisions
    &&& a.resolved_target == b.resolved_target
    &&& a.preview == b.preview
    &&& a.inserted_itinerary_id == b.inserted_itinerary_id
    &&& a.inserted_note_id == b.inserted_note_id
    &&& a.inserted_expense_id == b.inserted_expense_id
    &&& a.inserted_reservation_id == b.inserted_reservation_id
    &&& a.inserted_estimate_id == b.inserted_estimate_id
    &&& a.updated_estimate_id == b.updated_estimate_id
    &&& a.updated_itinerary_id == b.updated_itinerary_id
    &&& a.deleted_itinerary_id == b.deleted_itinerary_id
    &&& a.deleted_estimate_id == b.deleted_estimate_id
    &&& a.reordered_itineraries == b.reordered_itineraries
    &&& a.moved_itinerary_id == b.moved_itinerary_id
    &&& a.moved_itinerary_updated_rows == b.moved_itinerary_updated_rows
}

/// The report is unchanged but for its error list.
pub open spec fn same_but_errors(a: FragmentApplyDryRunReport, b: FragmentApplyDryRunReport) -> bool {
    same_but_messages(a, b) && a.warnings == b.warnings
}

/// The report is unchanged but for its warning list.
pub open spec fn same_but_warnings(a: FragmentApplyDryRunReport, b: FragmentApplyDryRunReport) -> bool {
    same_but_messages(a, b) && a.errors == b.errors
}

fn target_type_error(rule: &str, target_type: &str) -> (r: String)
    ensures
        r@ == target_type_message(rule@, target_type@),
{
    let mut m = owned(rule);
    push_str(&mut m, target_type);
    push_str(&mut m, "）");
    m
}

fn scope_error(
    resolved: &ResolvedApplyTarget,
    intent: &str,
    preview: &FragmentApplyPreviewSummary,
    decisions_pending: bool,
) -> (r: Option<String>)
    ensures
        opt_view(r) == confirm_scope_error(*resolved, intent@, *preview, decisions_pending),
{
    let tt = resolved.target_type.as_str();
    let action = preview.action.as_str();
    if str_eq(resolved.resolution.as_str(), "ambiguous") {
        return Some(owned("target が曖昧です — DB 更新しません"));
    }
    if decisions_pending {
        return Some(owned("required decisions が未解決です — DB 更新しません"));
    }
    if str_eq(intent, "add") && str_eq(action, "add_itinerary") {
        if !str_eq(tt, "day") {
            return Some(owned("v4.7.19 --confirm は Day target + add_itinerary のみサポートしています"));
        }
        return None;
    }
    if str_eq(intent, "add_note") && str_eq(action, "add_note") {
        if !(str_eq(tt, "trip") || str_eq(tt, "day") || str_eq(tt, "itinerary")) {
            return Some(
                target_type_error(
                    "v4.7.23 --confirm は trip / day / itinerary target + add_note のみサポートしています（現在: target_type=",
                    tt,
                ),
            );
        }
        return None;
    }
    if str_eq(intent, "add_expense") && str_eq(action, "add_expense") {
        if !str_eq(tt, "itinerary") {
            return Some(
                target_type_error(
                    "v4.7.25 --confirm は itinerary target + add_expense のみサポートしています（現在: target_type=",
                    tt,
                ),
            );
        }
        return None;
    }
    if str_eq(intent, "add_reservation") && str_eq(action, "add_reservation") {
        if !str_eq(tt, "itinerary") {
            return Some(
                target_type_error(
                    "v4.7.27 --confirm は itinerary target + add_reservation のみサポートしています（現在: target_type=",
                    tt,
                ),
            );
        }
        return None;
    }
    if str_eq(intent, "add_estimate") && str_eq(action, "add_estimate") {
        if !str_eq(tt, "itinerary") {
            return Some(
                target_type_error(
                    "v4.7.43 --confirm は itinerary target + add_estimate のみサポートしています（現在: target_type=",
                    tt,
                ),
            );
        }
        if preview.estimate_preview.is_none() {
            return Some(owned("add_estimate confirm には estimate_preview が必要です"));
        }
        return None;
    }
    if str_eq(intent, "update_itinerary") && str_eq(action, "update_itinerary") {
        if !str_eq(tt, "itinerary") {
            return Some(
                target_type_error(
                    "v4.7.29 --confirm は itinerary target + update_itinerary のみサポートしています（現在: target_type=",
                    tt,
                ),
            );
        }
        return None;
    }
    if str_eq(intent, "update_estimate") && str_eq(action, "update_estimate") {
        if !str_eq(tt, "itinerary") {
            return Some(
                target_type_error(
                    "v4.7.48 --confirm は itinerary target + update_estimate のみサポートしています（現在: target_type=",
                    tt,
                ),
            );
        }
        if preview.estimate_update_preview.is_none() {
            return Some(owned("update_estimate confirm には estimate_update_preview が必要です"));
        }
        let no_changes = match &preview.estimate_field_changes {
            Some(c) => c.len() == 0,
            None => true,
        };
        if no_changes {
            return Some(owned("update_estimate confirm には estimate_field_changes が必要です"));
        }
        return None;
    }
    if str_eq(intent, "delete_estimate") && str_eq(action, "delete_estimate") {
        if !str_eq(tt, "itinerary") {
            return Some(
                target_type_error(
                    "v4.8.2 --confirm は itinerary target + delete_estimate のみサポートしています（現在: target_type=",
                    tt,
                ),
            );
        }
        if preview.estimate_delete_preview.is_none() {
            return Some(owned("delete_estimate confirm には estimate_delete_preview が必要です"));
        }
        return None;
    }
    if str_eq(intent, "delete_itinerary") && str_eq(action, "delete_itinerary") {
        if !str_eq(tt, "itinerary") {
            return Some(
                target_type_error(
                    "v4.7.32 --confirm は itinerary target + delete_itinerary のみサポートしています（現在: target_type=",
                    tt,
                ),
            );
        }
        if preview.delete_preview.is_none() {
            return Some(owned("delete_itinerary confirm には delete_preview が必要です"));
        }
        return None;
    }
    if str_eq(intent, "reorder_itinerary") && str_eq(action, "reorder_itinerary") {
        if !str_eq(tt, "day") {
            return Some(
                target_type_error(
                    "v4.7.36 --confirm は day target + reorder_itinerary のみサポートしています（現在: target_type=",
                    tt,
                ),
            );
        }
        if preview.reorder_preview.is_none() {
            return Some(owned("reorder_itinerary confirm には reorder_preview が必要です"));
        }
        return None;
    }
    if str_eq(intent, "move_itinerary") && str_eq(action, "move_itinerary") {
        if !str_eq(tt, "itinerary") {
            return Some(
                target_type_error(
                    "v4.7.39 --confirm は itinerary target + move_itinerary のみサポートしています（現在: target_type=",
                    tt,
                ),
            );
        }
        if preview.move_preview.is_none() {
            return Some(owned("move_itinerary confirm には move_preview が必要です"));
        }
        return None;
    }
    let mut m = owned(
        "v4.8.2 --confirm は intent add (add_itinerary)、add_note、add_expense、add_reservation、add_estimate、update_itinerary、update_estimate、delete_estimate、delete_itinerary、または将来の confirm 対象 intent のみサポートしています（現在: intent=",
    );
    push_str(&mut m, intent);
    push_str(&mut m, ", action=");
    push_str(&mut m, action);
    push_str(&mut m, "）");
    Some(m)
}

/// Whether `--confirm` may write for this target, intent and preview; when
/// it may not, the reason is added to the report's errors.
pub fn validate_confirm_scope(
    resolved: &ResolvedApplyTarget,
    intent: &str,
    preview: &FragmentApplyPreviewSummary,
    report: &mut FragmentApplyDryRunReport,
) -> (r: bool)
    ensures
        same_but_errors(*old(report), *final(report)),
        match confirm_scope_error(*resolved, intent@, *preview, old(report).required_decisions@.len() > 0) {
            None => r && final(report).errors@ == old(report).errors@,
            Some(e) => !r && strings_view(final(report).errors@) == strings_view(old(report).errors@).push(e),
        },
{
    let pending = report.required_decisions.len() > 0;
    match scope_error(resolved, intent, preview, pending) {
        None => true,
        Some(e) => {
            push_string(&mut report.errors, e);
            false
        },
    }
}

// ---------------------------------------------------------------------------
// Moving an itinerary.

/// An itinerary of a day, as the move plan sees it.
#[derive(Debug, PartialEq, Eq)]
pub struct ResolvedDayItinerary {
    pub id: i64,
    pub title: String,
    pub sort_order: i64,
}

/// The move computed from the database at confirm time.
#[derive(Debug, PartialEq, Eq)]
pub struct MoveItineraryComputedPlan {
    pub from_day: i64,
    pub to_day: i64,
    pub to_day_id: i64,
    pub moved: crate::models::ItineraryItem,
    pub moved_after_sort: i64,
    pub after_source_resolved: Vec<ResolvedDayItinerary>,
    /// New sort orders of the source day's remaining itineraries, keyed by their old sort order.
    pub source_after_sort: Vec<(i64, i64)>,
    pub source_changes: Vec<FragmentApplyItineraryMoveOrderChange>,
    pub destination_changes: Vec<FragmentApplyItineraryMoveOrderChange>,
}

/// Two order changes agree in every number.
pub open spec fn same_move_change(a: FragmentApplyItineraryMoveOrderChange, b: FragmentApplyItineraryMoveOrderChange) -> bool {
    &&& a.itinerary_id == b.itinerary_id
    &&& a.before_day_number == b.before_day_number
    &&& a.after_day_number == b.after_day_number
    &&& a.before_sort_order == b.before_sort_order
    &&& a.after_sort_order == b.after_sort_order
}

/// The first position where two lists of order changes disagree (the shorter length bounds it).
pub open spec fn first_change_mismatch(
    a: Seq<FragmentApplyItineraryMoveOrderChange>,
    b: Seq<FragmentApplyItineraryMoveOrderChange>,
    i: int,
) -> Option<int>
    decreases a.len() - i,
{
    if i < 0 || i >= a.len() || i >= b.len() {
        None
    } else if !same_move_change(a[i], b[i]) {
        Some(i)
    } else {
        first_change_mismatch(a, b, i + 1)
    }
}

/// Where the move worked out at write time and its preview first differ.
pub open spec fn move_plan_check(plan: MoveItineraryComputedPlan, preview: FragmentApplyMovePreview) -> Result<
    (),
    Seq<char>,
> {
    if plan.moved.id != preview.itinerary_id {
        Err(
            text_with_two(
                "TOCTOU mismatch: moved itinerary_id が gate preview と一致しません（"@,
                dec(plan.moved.id),
                " vs "@,
                dec(preview.itinerary_id),
                "）— DB 更新しません"@,
            ),
        )
    } else if plan.from_day != preview.from_day_number {
        Err("TOCTOU mismatch: from_day_number が gate preview と一致しません — DB 更新しません"@)
    } else if plan.to_day != preview.to_day_number {
        Err("TOCTOU mismatch: to_day_number が gate preview と一致しません — DB 更新しません"@)
    } else if plan.source_changes@.len() != preview.source_order_changes@.len() {
        Err("TOCTOU mismatch: source_order_changes の件数が gate preview と一致しません — DB 更新しません"@)
    } else if let Some(i) = first_change_mismatch(plan.source_changes@, preview.source_order_changes@, 0) {
        Err(
            "TOCTOU mismatch: source_order_changes が gate preview と一致しません（itinerary_id "@ + dec(
                plan.source_changes@[i].itinerary_id,
            ) + "）— DB 更新しません"@,
        )
    } else if plan.destination_changes@.len() != preview.destination_order_changes@.len() {
        Err("TOCTOU mismatch: destination_order_changes の件数が gate preview と一致しません — DB 更新しません"@)
    } else if let Some(i) = first_change_mismatch(plan.destination_changes@, preview.destination_order_changes@, 0) {
        Err(
            "TOCTOU mismatch: destination_order_changes が gate preview と一致しません（itinerary_id "@ + dec(
                plan.destination_changes@[i].itinerary_id,
            ) + "）— DB 更新しません"@,
        )
    } else {
        Ok(())
    }
}

fn first_mismatch_index(
    a: &Vec<FragmentApplyItineraryMoveOrderChange>,
    b: &Vec<FragmentApplyItineraryMoveOrderChange>,
) -> (r: Option<usize>)
    requires
        a@.len() == b@.len(),
    ensures
        match r {
            Some(i) => first_change_mismatch(a@, b@, 0) == Some(i as int) && i < a@.len(),
            None => first_change_mismatch(a@, b@, 0) is None,
        },
{
    let mut i: usize = 0;
    while i < a.len()
        invariant
            a@.len() == b@.len(),
            i <= a@.len(),
            first_change_mismatch(a@, b@, 0) == first_change_mismatch(a@, b@, i as int),
        decreases a@.len() - i,
    {
        let x = &a[i];
        let y = &b[i];
        if x.itinerary_id != y.itinerary_id || x.before_day_number != y.before_day_number || x.after_day_number
            != y.after_day_number || x.before_sort_order != y.before_sort_order || x.after_sort_order
            != y.after_sort_order {
            return Some(i);
        }
        i = i + 1;
    }
    None
}

pub fn verify_move_plan_matches_preview(plan: &MoveItineraryComputedPlan, preview: &FragmentApplyMovePreview) -> (r:
    Result<(), String>)
    ensures
        crate::text::result_view(r) == move_plan_check(*plan, *preview),
{
    if plan.moved.id != preview.itinerary_id {
        return Err(
            message_with_numbers(
                "TOCTOU mismatch: moved itinerary_id が gate preview と一致しません（",
                plan.moved.id,
                " vs ",
                preview.itinerary_id,
                "）— DB 更新しません",
            ),
        );
    }
    if plan.from_day != preview.from_day_number {
        return Err(owned("TOCTOU mismatch: from_day_number が gate preview と一致しません — DB 更新しません"));
    }
    if plan.to_day != preview.to_day_number {
        return Err(owned("TOCTOU mismatch: to_day_number が gate preview と一致しません — DB 更新しません"));
    }
    if plan.source_changes.len() != preview.source_order_changes.len() {
        return Err(
            owned("TOCTOU mismatch: source_order_changes の件数が gate preview と一致しません — DB 更新しません"),
        );
    }
    match first_mismatch_index(&plan.source_changes, &preview.source_order_changes) {
        Some(i) => {
            return Err(
                message_with_number(
                    "TOCTOU mismatch: source_order_changes が gate preview と一致しません（itinerary_id ",
                    plan.source_changes[i].itinerary_id,
                    "）— DB 更新しません",
                ),
            );
        },
        None => {},
    }
    if plan.destination_changes.len() != preview.destination_order_changes.len() {
        return Err(
            owned(
                "TOCTOU mismatch: destination_order_changes の件数が gate preview と一致しません — DB 更新しません",
            ),
        );
    }
    match first_mismatch_index(&plan.destination_changes, &preview.destination_order_changes) {
        Some(i) => {
            return Err(
                message_with_number(
                    "TOCTOU mismatch: destination_order_changes が gate preview と一致しません（itinerary_id ",
                    plan.destination_changes[i].itinerary_id,
                    "）— DB 更新しません",
                ),
            );
        },
        None => {},
    }
    Ok(())
}

} // verus!
