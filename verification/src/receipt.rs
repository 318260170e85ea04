//! Receipts: status values, memo normalization, amount/currency pairing and
//! export validation.
use vstd::prelude::*;

use crate::money::{
    amount_value_text, currency_format_result, format_amount_display, minor_unit_digits,
    validate_currency_code,
};
use crate::text::{
    nat_decimal, opt_view, owned, push_str, push_string, push_u64_decimal, str_eq, str_trim,
    strings_view, trim_seq,
};

verus! {

pub const RECEIPT_STATUS_UNREVIEWED: &'static str = "unreviewed";

pub const RECEIPT_STATUS_LINKED: &'static str = "linked";

pub const RECEIPT_STATUS_CONVERTED: &'static str = "converted";

pub const RECEIPT_STATUS_IGNORED: &'static str = "ignored";

/// Whether a status is one of the four receipt statuses.
pub open spec fn is_receipt_status(status: Seq<char>) -> bool {
    status == "unreviewed"@ || status == "linked"@ || status == "converted"@ || status == "ignored"@
}

/// A receipt status must be `unreviewed`, `linked`, `converted` or `ignored`.
pub fn validate_receipt_status(status: &str) -> (r: Result<(), String>)
    ensures
        r is Ok <==> is_receipt_status(status@),
        r matches Err(e) ==> e@ == "invalid receipt status: "@ + status@,
{
    if str_eq(status, RECEIPT_STATUS_UNREVIEWED) || str_eq(status, RECEIPT_STATUS_LINKED) || str_eq(
        status,
        RECEIPT_STATUS_CONVERTED,
    ) || str_eq(status, RECEIPT_STATUS_IGNORED) {
        Ok(())
    } else {
        let mut m = owned("invalid receipt status: ");
        push_str(&mut m, status);
        Err(m)
    }
}

/// The memo trimmed; a blank memo counts as no memo.
pub open spec fn normalized_memo(memo: Option<Seq<char>>) -> Option<Seq<char>> {
    match memo {
        None => None,
        Some(text) => if trim_seq(text).len() == 0 {
            None
        } else {
            Some(trim_seq(text))
        },
    }
}

/// Trims a memo; a blank memo becomes `None`. Never fails.
pub fn normalize_optional_memo(memo: Option<&str>) -> (r: Result<Option<String>, String>)
    ensures
        r matches Ok(m) && opt_view(m) == normalized_memo(
            match memo {
                Some(t) => Some(t@),
                None => None,
            },
        ),
{
    match memo {
        None => Ok(None),
        Some(text) => {
            let trimmed = str_trim(text);
            if trimmed.is_empty() {
                Ok(None)
            } else {
                Ok(Some(owned(trimmed)))
            }
        },
    }
}

/// Why an amount/currency pair is incomplete, if it is.
pub open spec fn amount_currency_pair_error(amount: Option<i64>, currency: Option<String>) -> Option<Seq<char>> {
    match (amount, currency) {
        (Some(_), None) => Some("currency is required when amount is set"@),
        (None, Some(c)) => if trim_seq(c@).len() > 0 {
            Some("amount is required when currency is set"@)
        } else {
            None
        },
        _ => None,
    }
}

/// An amount needs a currency, and a non-blank currency needs an amount.
pub fn validate_receipt_amount_currency_pair(amount: Option<i64>, currency: &Option<String>) -> (r: Result<
    (),
    String,
>)
    ensures
        r is Ok <==> amount_currency_pair_error(amount, *currency) is None,
        r matches Err(e) ==> Some(e@) == amount_currency_pair_error(amount, *currency),
{
    match (amount, currency) {
        (Some(_), None) => Err(owned("currency is required when amount is set")),
        (None, Some(c)) => {
            if !str_trim(c.as_str()).is_empty() {
                Err(owned("amount is required when currency is set"))
            } else {
                Ok(())
            }
        },
        _ => Ok(()),
    }
}

/// A receipt needs a memo or an amount.
pub fn validate_receipt_has_content(memo: &Option<String>, amount: Option<i64>) -> (r: Result<(), String>)
    ensures
        r is Ok <==> (memo is Some || amount is Some),
        r matches Err(e) ==> e@ == "receipt requires memo and/or amount with currency"@,
{
    if memo.is_some() || amount.is_some() {
        Ok(())
    } else {
        Err(owned("receipt requires memo and/or amount with currency"))
    }
}

/// The display of an optional amount: `<amount> <currency>`, or `-` when either is missing.
pub fn format_amount_optional(amount: Option<i64>, currency: &Option<String>) -> (r: String)
    requires
        match (amount, *currency) {
            (Some(v), Some(c)) => minor_unit_digits(c@) == 0 ==> v > i64::MIN,
            _ => true,
        },
    ensures
        r@ == (match (amount, *currency) {
            (Some(v), Some(c)) => amount_value_text(v as int, c@) + seq![' '] + c@,
            _ => "-"@,
        }),
{
    match (amount, currency) {
        (Some(value), Some(cur)) => format_amount_display(value, cur.as_str()),
        _ => owned("-"),
    }
}

/// Day reference of an exported receipt.
#[derive(Clone, Debug, PartialEq, Eq)]
pub struct ExportReceiptDayRef {
    pub day_number: i64,
}

/// Itinerary reference of an exported receipt.
#[derive(Clone, Debug, PartialEq, Eq)]
pub struct ExportReceiptItineraryRef {
    pub day_number: i64,
    pub sort_order: i64,
    pub start_time: Option<String>,
    pub title: String,
}

/// Reference to the expense a receipt was converted into.
#[derive(Clone, Debug, PartialEq, Eq)]
pub struct ExportReceiptExpenseRef {
    pub itinerary_ref: ExportReceiptItineraryRef,
    pub expense_sort_order: i64,
    pub expense_title: Option<String>,
    pub amount: i64,
    pub currency: String,
}

/// A receipt in the trip export.
#[derive(Clone, Debug, PartialEq, Eq)]
pub struct ExportReceiptV7 {
    pub day_ref: Option<ExportReceiptDayRef>,
    pub itinerary_ref: Option<ExportReceiptItineraryRef>,
    pub linked_expense_ref: Option<ExportReceiptExpenseRef>,
    pub amount: Option<i64>,
    pub currency: Option<String>,
    pub occurred_date: Option<String>,
    pub memo: Option<String>,
    pub status: String,
}

/// The errors of one exported receipt; `date_check` is the verdict of the
/// expense-date validator on its `occurred_date`.
pub open spec fn receipt_errors(
    r: ExportReceiptV7,
    index: nat,
    date_check: Result<(), String>,
) -> Seq<Seq<char>> {
    let prefix = "receipts["@ + nat_decimal(index) + "]"@;
    (if is_receipt_status(r.status@) {
        Seq::empty()
    } else {
        seq![prefix + ".status: "@ + "invalid receipt status: "@ + r.status@]
    }) + (match amount_currency_pair_error(r.amount, r.currency) {
        Some(e) => seq![prefix + ": "@ + e],
        None => Seq::empty(),
    }) + (if r.amount is None && r.memo is None {
        seq![prefix + ": memo and/or amount required"@]
    } else {
        Seq::empty()
    }) + (match r.currency {
        Some(c) => match currency_format_result(c@) {
            Err(e) => seq![prefix + ".currency: "@ + e],
            Ok(_) => Seq::empty(),
        },
        None => Seq::empty(),
    }) + (match (r.occurred_date, date_check) {
        (Some(_), Err(e)) => seq![prefix + ".occurred_date: "@ + e@],
        _ => Seq::empty(),
    })
}

pub open spec fn receipts_errors_upto(
    rs: Seq<ExportReceiptV7>,
    checks: Seq<Result<(), String>>,
    n: nat,
) -> Seq<Seq<char>>
    decreases n,
{
    if n == 0 {
        Seq::empty()
    } else {
        receipts_errors_upto(rs, checks, (n - 1) as nat) + receipt_errors(rs[n - 1], (n - 1) as nat, checks[n - 1])
    }
}

fn prefixed(prefix: &String, rest: &str) -> (r: String)
    ensures
        r@ == prefix@ + rest@,
{
    let mut s = owned(prefix.as_str());
    push_str(&mut s, rest);
    s
}

#[verifier::rlimit(50)]
fn push_receipt_errors(
    errors: &mut Vec<String>,
    receipt: &ExportReceiptV7,
    index: usize,
    check: &Result<(), String>,
)
    ensures
        strings_view(final(errors)@) == strings_view(old(errors)@) + receipt_errors(*receipt, index as nat, *check),
{
    let ghost start = strings_view(errors@);
    let mut prefix = owned("receipts[");
    push_u64_decimal(&mut prefix, index as u64);
    push_str(&mut prefix, "]");
    let ghost r = *receipt;
    let ghost pre = "receipts["@ + nat_decimal(index as nat) + "]"@;
    assert(prefix@ == pre);
    let ghost p1: Seq<Seq<char>> = if is_receipt_status(r.status@) {
        Seq::empty()
    } else {
        seq![pre + ".status: "@ + "invalid receipt status: "@ + r.status@]
    };
    let ghost p2: Seq<Seq<char>> = match amount_currency_pair_error(r.amount, r.currency) {
        Some(e) => seq![pre + ": "@ + e],
        None => Seq::empty(),
    };
    let ghost p3: Seq<Seq<char>> = if r.amount is None && r.memo is None {
        seq![pre + ": memo and/or amount required"@]
    } else {
        Seq::empty()
    };
    let ghost p4: Seq<Seq<char>> = match r.currency {
        Some(c) => match currency_format_result(c@) {
            Err(e) => seq![pre + ".currency: "@ + e],
            Ok(_) => Seq::empty(),
        },
        None => Seq::empty(),
    };
    let ghost chk = *check;
    let ghost p5: Seq<Seq<char>> = match (r.occurred_date, chk) {
        (Some(_), Err(e)) => seq![pre + ".occurred_date: "@ + e@],
        _ => Seq::empty(),
    };
    match validate_receipt_status(receipt.status.as_str()) {
        Err(e) => {
            let mut m = prefixed(&prefix, ".status: ");
            push_str(&mut m, e.as_str());
            assert(m@ =~= pre + ".status: "@ + "invalid receipt status: "@ + r.status@);
            push_string(errors, m);
        },
        Ok(()) => {},
    }
    assert(strings_view(errors@) =~= start + p1);
    match validate_receipt_amount_currency_pair(receipt.amount, &receipt.currency) {
        Err(e) => {
            let mut m = prefixed(&prefix, ": ");
            push_str(&mut m, e.as_str());
            push_string(errors, m);
        },
        Ok(()) => {},
    }
    assert(strings_view(errors@) =~= start + p1 + p2);
    if receipt.amount.is_none() && receipt.memo.is_none() {
        push_string(errors, prefixed(&prefix, ": memo and/or amount required"));
    }
    assert(strings_view(errors@) =~= start + p1 + p2 + p3);
    match &receipt.currency {
        Some(c) => match validate_currency_code(c.as_str()) {
            Err(e) => {
                let mut m = prefixed(&prefix, ".currency: ");
                push_str(&mut m, e.as_str());
                push_string(errors, m);
            },
            Ok(_) => {},
        },
        None => {},
    }
    assert(strings_view(errors@) =~= start + p1 + p2 + p3 + p4);
    match (&receipt.occurred_date, check) {
        (Some(_), Err(e)) => {
            let mut m = prefixed(&prefix, ".occurred_date: ");
            push_str(&mut m, e.as_str());
            push_string(errors, m);
        },
        _ => {},
    }
    assert(strings_view(errors@) =~= start + p1 + p2 + p3 + p4 + p5);
    assert(receipt_errors(*receipt, index as nat, *check) =~= p1 + p2 + p3 + p4 + p5);
    assert(strings_view(errors@) =~= start + receipt_errors(
        *receipt,
        index as nat,
        *check,
    ));
}

/// Validation errors of exported receipts (only checked from the current
/// schema on). `occurred_date_checks[i]` is the expense-date validator's
/// verdict on `receipts[i].occurred_date`.
pub fn collect_export_receipt_validation_errors(
    receipts: &[ExportReceiptV7],
    effective_schema: i32,
    occurred_date_checks: &[Result<(), String>],
) -> (r: Vec<String>)
    requires
        occurred_date_checks@.len() == receipts@.len(),
    ensures
        strings_view(r@) == (if effective_schema < crate::models::TRIP_EXPORT_SCHEMA_VERSION {
            Seq::<Seq<char>>::empty()
        } else {
            receipts_errors_upto(receipts@, occurred_date_checks@, receipts@.len())
        }),
{
    let mut errors: Vec<String> = Vec::new();
    assert(strings_view(errors@) =~= Seq::empty());
    if effective_schema < crate::models::TRIP_EXPORT_SCHEMA_VERSION {
        return errors;
    }
    let mut i: usize = 0;
    while i < receipts.len()
        invariant
            i <= receipts@.len(),
            occurred_date_checks@.len() == receipts@.len(),
            strings_view(errors@) == receipts_errors_upto(receipts@, occurred_date_checks@, i as nat),
        decreases receipts@.len() - i,
    {
        push_receipt_errors(&mut errors, &receipts[i], i, &occurred_date_checks[i]);
        i = i + 1;
    }
    errors
}

// ---------------------------------------------------------------------------
// The values a new or changed receipt stores.

pub open spec fn opt_text(o: Option<&str>) -> Option<Seq<char>> {
    match o {
        Some(t) => Some(t@),
        None => None,
    }
}

/// The amount and currency given together: the currency validated, the
/// amount read in its minor unit; neither given is none; one alone is an error.
pub open spec fn receipt_money(amount: Option<Seq<char>>, currency: Option<Seq<char>>) -> Result<
    (Option<int>, Option<Seq<char>>),
    Seq<char>,
> {
    match (amount, currency) {
        (Some(a), Some(c)) => match currency_format_result(c) {
            Err(e) => Err(e),
            Ok(cur) => match crate::money::parse_amount_result(a, cur) {
                Err(e) => Err(e),
                Ok(v) => Ok((Some(v), Some(cur))),
            },
        },
        (None, None) => Ok((None, None)),
        _ => Err("amount and currency must be provided together"@),
    }
}

fn receipt_money_of(amount: Option<&str>, currency: Option<&str>) -> (r: Result<(Option<i64>, Option<String>), String>)
    ensures
        match r {
            Ok((a, c)) => receipt_money(opt_text(amount), opt_text(currency)) == Ok::<
                (Option<int>, Option<Seq<char>>),
                Seq<char>,
            >(
                (
                    match a {
                        Some(v) => Some(v as int),
                        None => None,
                    },
                    opt_view(c),
                ),
            ),
            Err(e) => receipt_money(opt_text(amount), opt_text(currency)) == Err::<
                (Option<int>, Option<Seq<char>>),
                Seq<char>,
            >(e@),
        },
{
    match (amount, currency) {
        (Some(a), Some(c)) => {
            let cur = match validate_currency_code(c) {
                Ok(cur) => cur,
                Err(e) => return Err(e),
            };
            match crate::money::parse_amount_for_currency(a, cur.as_str()) {
                Ok(v) => Ok((Some(v), Some(cur))),
                Err(e) => Err(e),
            }
        },
        (None, None) => Ok((None, None)),
        _ => Err(owned("amount and currency must be provided together")),
    }
}

/// The memo, amount and currency a new receipt stores, checked: the memo
/// trimmed (blank is none), amount and currency given together (the currency
/// validated, the amount read in its minor unit), and a memo or an amount
/// present.
pub open spec fn new_receipt_values(memo: Option<Seq<char>>, amount: Option<Seq<char>>, currency: Option<Seq<char>>) -> Result<
    (Option<Seq<char>>, Option<int>, Option<Seq<char>>),
    Seq<char>,
> {
    match receipt_money(amount, currency) {
        Err(e) => Err(e),
        Ok((a, c)) => if normalized_memo(memo) is None && a is None {
            Err("receipt requires memo and/or amount with currency"@)
        } else {
            Ok((normalized_memo(memo), a, c))
        },
    }
}

/// Checks the values of a new receipt (the part of adding one that needs no
/// database).
pub fn prepare_new_receipt_values(memo: Option<&str>, amount: Option<&str>, currency: Option<&str>) -> (r: Result<
    (Option<String>, Option<i64>, Option<String>),
    String,
>)
    ensures
        match r {
            Ok((m, a, c)) => new_receipt_values(opt_text(memo), opt_text(amount), opt_text(currency)) == Ok::<
                (Option<Seq<char>>, Option<int>, Option<Seq<char>>),
                Seq<char>,
            >(
                (
                    opt_view(m),
                    match a {
                        Some(v) => Some(v as int),
                        None => None,
                    },
                    opt_view(c),
                ),
            ),
            Err(e) => new_receipt_values(opt_text(memo), opt_text(amount), opt_text(currency)) == Err::<
                (Option<Seq<char>>, Option<int>, Option<Seq<char>>),
                Seq<char>,
            >(e@),
        },
{
    let m = match normalize_optional_memo(memo) {
        Ok(m) => m,
        Err(e) => return Err(e),
    };
    let (a, c) = match receipt_money_of(amount, currency) {
        Ok(p) => p,
        Err(e) => return Err(e),
    };
    match validate_receipt_amount_currency_pair(a, &c) {
        Ok(()) => {},
        Err(e) => return Err(e),
    }
    match validate_receipt_has_content(&m, a) {
        Ok(()) => {},
        Err(e) => return Err(e),
    }
    Ok((m, a, c))
}

/// The amount and currency after an update: cleared, replaced when either is
/// given (both are then needed; the currency validated, the amount read in
/// its minor unit), or kept.
pub open spec fn updated_receipt_money(
    amount: Option<i64>,
    currency: Option<Seq<char>>,
    amount_input: Option<Seq<char>>,
    currency_input: Option<Seq<char>>,
    clear: bool,
) -> Result<(Option<int>, Option<Seq<char>>), Seq<char>> {
    if clear {
        Ok((None, None))
    } else if amount_input is Some || currency_input is Some {
        match amount_input {
            None => Err("amount is required when updating currency"@),
            Some(a) => match currency_input {
                None => Err("currency is required when updating amount"@),
                Some(c) => match currency_format_result(c) {
                    Err(e) => Err(e),
                    Ok(cur) => match crate::money::parse_amount_result(a, cur) {
                        Err(e) => Err(e),
                        Ok(v) => Ok((Some(v), Some(cur))),
                    },
                },
            },
        }
    } else {
        Ok((
            match amount {
                Some(v) => Some(v as int),
                None => None,
            },
            currency,
        ))
    }
}

/// The memo, amount and currency a receipt stores after an update, checked:
/// the new money (see `updated_receipt_money`), the memo replaced when given
/// (trimmed, blank is none), then an amount still needing its currency and a
/// currency its amount, and a memo or an amount present.
pub open spec fn updated_receipt_values(
    amount: Option<i64>,
    currency: Option<Seq<char>>,
    memo: Option<Seq<char>>,
    amount_input: Option<Seq<char>>,
    currency_input: Option<Seq<char>>,
    memo_input: Option<Option<Seq<char>>>,
    clear: bool,
) -> Result<(Option<Seq<char>>, Option<int>, Option<Seq<char>>), Seq<char>> {
    match updated_receipt_money(amount, currency, amount_input, currency_input, clear) {
        Err(e) => Err(e),
        Ok((a, c)) => {
            let m = match memo_input {
                Some(given) => normalized_memo(given),
                None => memo,
            };
            if a is Some && c is None {
                Err("currency is required when amount is set"@)
            } else if a is None && (c matches Some(cv) && trim_seq(cv).len() > 0) {
                Err("amount is required when currency is set"@)
            } else if m is None && a is None {
                Err("receipt requires memo and/or amount with currency"@)
            } else {
                Ok((m, a, c))
            }
        },
    }
}

pub open spec fn opt_opt_text(o: Option<Option<&str>>) -> Option<Option<Seq<char>>> {
    match o {
        Some(inner) => Some(opt_text(inner)),
        None => None,
    }
}

/// Checks the values a receipt stores after an update (the part of updating
/// one that needs no database and no date check).
pub fn prepare_updated_receipt_values(
    amount: Option<i64>,
    currency: &Option<String>,
    memo: &Option<String>,
    amount_input: Option<&str>,
    currency_input: Option<&str>,
    memo_input: Option<Option<&str>>,
    clear_amount_currency: bool,
) -> (r: Result<(Option<String>, Option<i64>, Option<String>), String>)
    ensures
        match r {
            Ok((m, a, c)) => updated_receipt_values(
                amount,
                opt_view(*currency),
                opt_view(*memo),
                opt_text(amount_input),
                opt_text(currency_input),
                opt_opt_text(memo_input),
                clear_amount_currency,
            ) == Ok::<(Option<Seq<char>>, Option<int>, Option<Seq<char>>), Seq<char>>(
                (
                    opt_view(m),
                    match a {
                        Some(v) => Some(v as int),
                        None => None,
                    },
                    opt_view(c),
                ),
            ),
            Err(e) => updated_receipt_values(
                amount,
                opt_view(*currency),
                opt_view(*memo),
                opt_text(amount_input),
                opt_text(currency_input),
                opt_opt_text(memo_input),
                clear_amount_currency,
            ) == Err::<(Option<Seq<char>>, Option<int>, Option<Seq<char>>), Seq<char>>(e@),
        },
{
    let mut a = amount;
    let mut c = crate::proposal::apply::opt_string_copy(currency);
    if clear_amount_currency {
        a = None;
        c = None;
    } else if amount_input.is_some() || currency_input.is_some() {
        let amount_text = match amount_input {
            Some(t) => t,
            None => return Err(owned("amount is required when updating currency")),
        };
        let currency_text = match currency_input {
            Some(t) => t,
            None => return Err(owned("currency is required when updating amount")),
        };
        let cur = match validate_currency_code(currency_text) {
            Ok(cur) => cur,
            Err(e) => return Err(e),
        };
        a = match crate::money::parse_amount_for_currency(amount_text, cur.as_str()) {
            Ok(v) => Some(v),
            Err(e) => return Err(e),
        };
        c = Some(cur);
    }
    let m = match memo_input {
        Some(given) => match normalize_optional_memo(given) {
            Ok(m) => m,
            Err(e) => return Err(e),
        },
        None => crate::proposal::apply::opt_string_copy(memo),
    };
    match validate_receipt_amount_currency_pair(a, &c) {
        Ok(()) => {},
        Err(e) => return Err(e),
    }
    match validate_receipt_has_content(&m, a) {
        Ok(()) => {},
        Err(e) => return Err(e),
    }
    Ok((m, a, c))
}

} // verus!
