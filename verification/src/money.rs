//! Currency codes and money amounts held as integers in the minor currency
//! unit (no floating point anywhere).
pub mod currency_registry;

use vstd::prelude::*;

use crate::money::currency_registry::{
    is_iso4217_alpha3, is_travel_expense_denylisted, iso4217_codes, travel_expense_denylist,
};
use crate::text::{
    all_ascii_alpha, all_ascii_digits, ascii_upper, char_ascii_upper, is_white_space, trim_end_seq, trim_start_seq, chars_of, digit_char, digit_value,
    digits_value, is_ascii_alpha, is_ascii_alpha_char, is_ascii_digit, is_ascii_digit_char,
    nat_decimal, owned, push_char, push_str, push_u64_decimal, str_eq, str_trim,
    string_from_chars, trim_seq, upper_seq, utf8_len, utf8_width,
};

verus! {

/// How strictly a currency code is checked.
#[derive(Clone, Copy, Debug, PartialEq, Eq, Structural)]
pub enum CurrencyValidationMode {
    /// Three ASCII letters, upper-cased; unknown codes are allowed.
    FormatOnly,
    /// Additionally a registered ISO 4217 code that is not on the travel-expense denylist.
    IsoStrict,
}

impl Default for CurrencyValidationMode {
    fn default() -> (r: Self)
        ensures
            r == CurrencyValidationMode::FormatOnly,
    {
        CurrencyValidationMode::FormatOnly
    }
}

pub open spec fn msg_currency_len() -> Seq<char> {
    "currency は 3 文字である必要があります"@
}

pub open spec fn msg_currency_alpha() -> Seq<char> {
    "currency は英字 3 文字である必要があります"@
}

pub open spec fn msg_currency_denied_prefix() -> Seq<char> {
    "currency は旅行費用として許可されていません: "@
}

pub open spec fn msg_currency_not_iso() -> Seq<char> {
    "currency は有効な ISO 4217 コードではありません"@
}

pub open spec fn msg_amount_required() -> Seq<char> {
    "amount は必須です"@
}

pub open spec fn msg_amount_nonneg() -> Seq<char> {
    "amount は 0 以上である必要があります"@
}

pub open spec fn msg_amount_format() -> Seq<char> {
    "amount の形式が不正です"@
}

pub open spec fn msg_amount_numeric() -> Seq<char> {
    "amount は数値である必要があります"@
}

pub open spec fn msg_amount_too_large() -> Seq<char> {
    "amount が大きすぎます"@
}

/// The message for a fraction with more digits than the currency allows.
pub open spec fn msg_too_many_decimals(currency: Seq<char>, decimals: nat) -> Seq<char> {
    "amount の小数桁が多すぎます（"@ + currency + " は "@ + nat_decimal(decimals) + " 桁まで）"@
}

/// Format check of a currency code: the trimmed input must be three ASCII
/// letters (three bytes first, then letters); the result is upper-cased.
pub open spec fn currency_format_result(code: Seq<char>) -> Result<Seq<char>, Seq<char>> {
    let t = trim_seq(code);
    if utf8_len(t) != 3 {
        Err(msg_currency_len())
    } else if !all_ascii_alpha(upper_seq(t)) {
        Err(msg_currency_alpha())
    } else {
        Ok(upper_seq(t))
    }
}

/// Strict check of an already normalized code.
pub open spec fn currency_strict_result(normalized: Seq<char>) -> Result<Seq<char>, Seq<char>> {
    if travel_expense_denylist().contains(normalized) {
        Err(msg_currency_denied_prefix() + normalized)
    } else if !iso4217_codes().contains(normalized) {
        Err(msg_currency_not_iso())
    } else {
        Ok(normalized)
    }
}

/// What validating `code` in `mode` gives.
pub open spec fn currency_mode_result(code: Seq<char>, mode: CurrencyValidationMode) -> Result<
    Seq<char>,
    Seq<char>,
> {
    match currency_format_result(code) {
        Err(e) => Err(e),
        Ok(n) => match mode {
            CurrencyValidationMode::FormatOnly => Ok(n),
            CurrencyValidationMode::IsoStrict => currency_strict_result(n),
        },
    }
}

/// A result over `String` seen through the views of its payloads.
pub open spec fn string_result_view(r: Result<String, String>) -> Result<Seq<char>, Seq<char>> {
    match r {
        Ok(v) => Ok(v@),
        Err(e) => Err(e@),
    }
}

/// Currencies whose minor unit has no decimal digits.
pub open spec fn zero_decimal_currencies() -> Seq<Seq<char>> {
    seq![
        "BIF"@, "CLP"@, "DJF"@, "GNF"@, "ISK"@, "JPY"@, "KMF"@, "KRW"@, "PYG"@, "RWF"@, "UGX"@,
        "UYI"@, "VND"@, "VUV"@, "XAF"@, "XOF"@, "XPF"@,
    ]
}

/// Decimal digits of the minor unit: 0 for the listed currencies, 2 otherwise.
pub open spec fn minor_unit_digits(currency: Seq<char>) -> nat {
    if zero_decimal_currencies().contains(currency) {
        0
    } else {
        2
    }
}

pub open spec fn pow10(n: nat) -> nat
    decreases n,
{
    if n == 0 {
        1
    } else {
        10 * pow10((n - 1) as nat)
    }
}

/// Index of the first `.` in `s`, if any.
pub open spec fn first_dot(s: Seq<char>) -> Option<int> {
    if exists|i: int| 0 <= i < s.len() && s[i] == '.' {
        Some(choose|i: int| 0 <= i < s.len() && s[i] == '.' && forall|j: int| 0 <= j < i ==> s[j] != '.')
    } else {
        None
    }
}

/// Parse of a trimmed, sign-free amount text split at its first `.`.
pub open spec fn amount_parts_result(
    whole: Seq<char>,
    frac: Option<Seq<char>>,
    currency: Seq<char>,
) -> Result<int, Seq<char>> {
    let d = minor_unit_digits(currency);
    if frac is Some && frac->0.contains('.') {
        Err(msg_amount_format())
    } else if whole.len() > 0 && !all_ascii_digits(whole) {
        Err(msg_amount_numeric())
    } else if frac is Some && !all_ascii_digits(frac->0) {
        Err(msg_amount_numeric())
    } else if frac is Some && frac->0.len() > d {
        Err(msg_too_many_decimals(currency, d))
    } else if digits_value(whole) > i64::MAX {
        Err(msg_amount_format())
    } else if frac is Some && frac->0.len() == 0 && d == 0 {
        Err(msg_amount_format())
    } else {
        let fv: int = match frac {
            Some(f) => (digits_value(f) * pow10((d - f.len()) as nat)) as int,
            None => 0,
        };
        let amount: int = (digits_value(whole) * pow10(d)) as int + fv;
        if amount > i64::MAX {
            Err(msg_amount_too_large())
        } else {
            Ok(amount)
        }
    }
}

/// What `parse_amount_for_currency(input, currency)` gives: the amount in the
/// minor unit of the (format-checked) currency, or the first error met.
pub open spec fn parse_amount_result(input: Seq<char>, currency: Seq<char>) -> Result<int, Seq<char>> {
    match currency_format_result(currency) {
        Err(e) => Err(e),
        Ok(cur) => {
            let s = trim_seq(input);
            if s.len() == 0 {
                Err(msg_amount_required())
            } else if s[0] == '-' || s[0] == '+' {
                Err(msg_amount_nonneg())
            } else {
                match first_dot(s) {
                    Some(k) => amount_parts_result(s.take(k), Some(s.skip(k + 1)), cur),
                    None => amount_parts_result(s, None, cur),
                }
            }
        },
    }
}

/// Digits with a `,` between each group of three counted from the right,
/// built over the first `k` digits.
pub open spec fn group_prefix(d: Seq<char>, k: nat) -> Seq<char>
    decreases k,
{
    if k == 0 {
        Seq::<char>::empty()
    } else {
        let i = (k - 1) as nat;
        let sep: Seq<char> = if i > 0 && (d.len() - i) % 3 == 0 {
            seq![',']
        } else {
            Seq::<char>::empty()
        };
        group_prefix(d, i) + sep + seq![d[i as int]]
    }
}

pub open spec fn group_thousands(d: Seq<char>) -> Seq<char> {
    group_prefix(d, d.len())
}

/// An integer with thousands separators, `-` in front when negative.
pub open spec fn integer_with_commas(v: int) -> Seq<char> {
    if v < 0 {
        seq!['-'] + group_thousands(nat_decimal((-v) as nat))
    } else {
        group_thousands(nat_decimal(v as nat))
    }
}

pub open spec fn abs_int(v: int) -> nat {
    if v < 0 {
        (-v) as nat
    } else {
        v as nat
    }
}

/// The display text of an amount in minor units (no currency code).
pub open spec fn amount_value_text(amount: int, currency: Seq<char>) -> Seq<char> {
    if minor_unit_digits(currency) == 0 {
        integer_with_commas(amount)
    } else {
        let a = abs_int(amount);
        let frac = a % 100;
        let body = group_thousands(nat_decimal(a / 100)) + seq!['.', digit_char(frac / 10), digit_char(frac % 10)];
        if amount < 0 {
            seq!['-'] + body
        } else {
            body
        }
    }
}

/// Normalizes a currency code and checks it in the given mode.
pub fn validate_currency_code_with_mode(code: &str, mode: CurrencyValidationMode) -> (r: Result<
    String,
    String,
>)
    ensures
        string_result_view(r) == currency_mode_result(code@, mode),
{
    let normalized = match normalize_currency_format(code) {
        Ok(n) => n,
        Err(e) => return Err(e),
    };
    match mode {
        CurrencyValidationMode::FormatOnly => Ok(normalized),
        CurrencyValidationMode::IsoStrict => validate_iso_strict(normalized.as_str()),
    }
}

/// Format-only check (unknown codes allowed).
pub fn validate_currency_code(code: &str) -> (r: Result<String, String>)
    ensures
        string_result_view(r) == currency_format_result(code@),
{
    validate_currency_code_with_mode(code, CurrencyValidationMode::FormatOnly)
}

/// The check used by create/update write paths: ISO 4217 registry plus denylist.
pub fn validate_cli_write_currency_code(code: &str) -> (r: Result<String, String>)
    ensures
        string_result_view(r) == currency_mode_result(code@, CurrencyValidationMode::IsoStrict),
{
    validate_currency_code_with_mode(code, CurrencyValidationMode::IsoStrict)
}

proof fn lemma_utf8_len_prefix(s: Seq<char>, i: int)
    requires
        0 <= i < s.len(),
    ensures
        utf8_len(s.subrange(0, i + 1)) == utf8_len(s.subrange(0, i)) + utf8_width(s[i]),
{
    assert(s.subrange(0, i + 1).drop_last() =~= s.subrange(0, i));
}

proof fn lemma_utf8_len_mono(s: Seq<char>, i: int, j: int)
    requires
        0 <= i <= j <= s.len(),
    ensures
        utf8_len(s.subrange(0, i)) <= utf8_len(s.subrange(0, j)),
    decreases j - i,
{
    if i < j {
        lemma_utf8_len_mono(s, i, j - 1);
        lemma_utf8_len_prefix(s, j - 1);
    }
}

/// Whether the UTF-8 encoding of `cs` is exactly three bytes long.
fn utf8_len_is_three(cs: &[char]) -> (r: bool)
    ensures
        r == (utf8_len(cs@) == 3),
{
    let mut total: usize = 0;
    let mut i: usize = 0;
    while i < cs.len()
        invariant
            i <= cs@.len(),
            total == utf8_len(cs@.subrange(0, i as int)),
            total <= 3,
        decreases cs@.len() - i,
    {
        let u = cs[i] as u32;
        let w: usize = if u < 0x80 {
            1
        } else if u < 0x800 {
            2
        } else if u < 0x10000 {
            3
        } else {
            4
        };
        proof {
            lemma_utf8_len_prefix(cs@, i as int);
        }
        if total + w > 3 {
            proof {
                lemma_utf8_len_mono(cs@, i + 1, cs@.len() as int);
                assert(cs@.subrange(0, cs@.len() as int) =~= cs@);
            }
            return false;
        }
        total = total + w;
        i = i + 1;
    }
    assert(cs@.subrange(0, cs@.len() as int) =~= cs@);
    total == 3
}

fn normalize_currency_format(code: &str) -> (r: Result<String, String>)
    ensures
        string_result_view(r) == currency_format_result(code@),
{
    let trimmed = str_trim(code);
    let cs = chars_of(trimmed);
    if !utf8_len_is_three(cs.as_slice()) {
        return Err(owned("currency は 3 文字である必要があります"));
    }
    let mut up: Vec<char> = Vec::new();
    let mut all_alpha = true;
    let mut i: usize = 0;
    while i < cs.len()
        invariant
            i <= cs@.len(),
            cs@ == trim_seq(code@),
            up@ == upper_seq(cs@).subrange(0, i as int),
            all_alpha == all_ascii_alpha(up@),
        decreases cs@.len() - i,
    {
        let c = char_ascii_upper(cs[i]);
        let ghost before = up@;
        up.push(c);
        all_alpha = all_alpha && is_ascii_alpha(c);
        proof {
            assert(up@ =~= upper_seq(cs@).subrange(0, i + 1));
            if all_ascii_alpha(before) && is_ascii_alpha_char(c) {
                assert forall|j: int| 0 <= j < up@.len() implies is_ascii_alpha_char(#[trigger] up@[j]) by {
                    if j < before.len() {
                        assert(up@[j] == before[j]);
                    }
                }
            }
            if !all_ascii_alpha(before) {
                let j = choose|j: int| 0 <= j < before.len() && !is_ascii_alpha_char(#[trigger] before[j]);
                assert(up@[j] == before[j]);
            }
            if !is_ascii_alpha_char(c) {
                assert(up@[up@.len() - 1] == c);
            }
        }
        i = i + 1;
    }
    assert(up@ =~= upper_seq(cs@));
    if !all_alpha {
        return Err(owned("currency は英字 3 文字である必要があります"));
    }
    Ok(string_from_chars(up.as_slice()))
}

fn validate_iso_strict(normalized: &str) -> (r: Result<String, String>)
    ensures
        string_result_view(r) == currency_strict_result(normalized@),
{
    if is_travel_expense_denylisted(normalized) {
        let mut msg = owned("currency は旅行費用として許可されていません: ");
        push_str(&mut msg, normalized);
        return Err(msg);
    }
    if !is_iso4217_alpha3(normalized) {
        return Err(owned("currency は有効な ISO 4217 コードではありません"));
    }
    Ok(owned(normalized))
}

/// Decimal digits of the minor currency unit (0 for the listed currencies, else 2).
pub fn currency_minor_unit_digits(currency: &str) -> (r: u32)
    ensures
        r == minor_unit_digits(currency@),
{
    let zero = vec![
        "BIF", "CLP", "DJF", "GNF", "ISK", "JPY", "KMF", "KRW", "PYG", "RWF", "UGX", "UYI", "VND",
        "VUV", "XAF", "XOF", "XPF",
    ];
    assert(zero@.len() == zero_decimal_currencies().len());
    let mut i: usize = 0;
    while i < zero.len()
        invariant
            i <= zero@.len(),
            zero@.len() == zero_decimal_currencies().len(),
            forall|k: int| 0 <= k < zero@.len() ==> (#[trigger] zero@[k])@ == zero_decimal_currencies()[k],
            forall|k: int| 0 <= k < i ==> zero_decimal_currencies()[k] != currency@,
        decreases zero@.len() - i,
    {
        if str_eq(zero[i], currency) {
            assert(zero_decimal_currencies()[i as int] == currency@);
            return 0;
        }
        i = i + 1;
    }
    2
}

/// An `i64` result seen with its error through the view of the message.
pub open spec fn amount_result_view(r: Result<i64, String>) -> Result<int, Seq<char>> {
    match r {
        Ok(v) => Ok(v as int),
        Err(e) => Err(e@),
    }
}

/// The characters `v[a..b]` as a new vector.
pub fn sub_chars(v: &[char], a: usize, b: usize) -> (r: Vec<char>)
    requires
        a <= b <= v@.len(),
    ensures
        r@ == v@.subrange(a as int, b as int),
{
    let mut out: Vec<char> = Vec::new();
    let mut i = a;
    while i < b
        invariant
            a <= i <= b,
            b <= v@.len(),
            out@ == v@.subrange(a as int, i as int),
        decreases b - i,
    {
        out.push(v[i]);
        i = i + 1;
        assert(out@ =~= v@.subrange(a as int, i as int));
    }
    out
}

/// Whether every character is an ASCII digit.
pub fn chars_all_digits(v: &[char]) -> (r: bool)
    ensures
        r == all_ascii_digits(v@),
{
    let mut i: usize = 0;
    while i < v.len()
        invariant
            i <= v@.len(),
            forall|k: int| 0 <= k < i ==> is_ascii_digit_char(#[trigger] v@[k]),
        decreases v@.len() - i,
    {
        if !is_ascii_digit(v[i]) {
            return false;
        }
        i = i + 1;
    }
    true
}

/// Whether `c` occurs among the characters.
pub fn chars_contain_char(v: &[char], c: char) -> (r: bool)
    ensures
        r == v@.contains(c),
{
    let mut i: usize = 0;
    while i < v.len()
        invariant
            i <= v@.len(),
            forall|k: int| 0 <= k < i ==> v@[k] != c,
        decreases v@.len() - i,
    {
        if v[i] == c {
            assert(v@[i as int] == c);
            return true;
        }
        i = i + 1;
    }
    false
}

proof fn lemma_digits_value_prefix(s: Seq<char>, i: int)
    requires
        0 <= i < s.len(),
    ensures
        digits_value(s.subrange(0, i + 1)) == digits_value(s.subrange(0, i)) * 10 + digit_value(s[i]),
{
    assert(s.subrange(0, i + 1).drop_last() =~= s.subrange(0, i));
}

proof fn lemma_digits_value_mono(s: Seq<char>, i: int, j: int)
    requires
        0 <= i <= j <= s.len(),
    ensures
        digits_value(s.subrange(0, i)) <= digits_value(s.subrange(0, j)),
    decreases j - i,
{
    if i < j {
        lemma_digits_value_mono(s, i, j - 1);
        lemma_digits_value_prefix(s, j - 1);
    }
}

proof fn lemma_digits_value_bound(s: Seq<char>)
    requires
        all_ascii_digits(s),
    ensures
        digits_value(s) < pow10(s.len()),
    decreases s.len(),
{
    if s.len() > 0 {
        assert(all_ascii_digits(s.drop_last())) by {
            assert forall|i: int| 0 <= i < s.drop_last().len() implies is_ascii_digit_char(#[trigger] s.drop_last()[i]) by {
                assert(s.drop_last()[i] == s[i]);
            }
        }
        lemma_digits_value_bound(s.drop_last());
        assert(is_ascii_digit_char(s[s.len() - 1]));
    }
}

/// Decimal value of a string of ASCII digits, when it fits in an `i64`
/// (`str::parse::<i64>` on such a string).
pub fn parse_digits_i64(ds: &[char]) -> (r: Option<i64>)
    requires
        all_ascii_digits(ds@),
    ensures
        r is Some <==> digits_value(ds@) <= i64::MAX,
        r matches Some(v) ==> v == digits_value(ds@),
{
    let mut acc: i64 = 0;
    let mut i: usize = 0;
    while i < ds.len()
        invariant
            i <= ds@.len(),
            all_ascii_digits(ds@),
            acc == digits_value(ds@.subrange(0, i as int)),
        decreases ds@.len() - i,
    {
        let d = (ds[i] as u32 - 48) as i64;
        assert(is_ascii_digit_char(ds@[i as int]));
        proof {
            lemma_digits_value_prefix(ds@, i as int);
        }
        let next = match acc.checked_mul(10) {
            Some(m) => m.checked_add(d),
            None => None,
        };
        match next {
            Some(v) => {
                acc = v;
            },
            None => {
                proof {
                    lemma_digits_value_mono(ds@, i + 1, ds@.len() as int);
                    assert(ds@.subrange(0, ds@.len() as int) =~= ds@);
                }
                return None;
            },
        }
        i = i + 1;
    }
    assert(ds@.subrange(0, ds@.len() as int) =~= ds@);
    Some(acc)
}

/// The message for a fraction with more digits than the currency allows.
fn too_many_decimals_message(currency: &str, decimals: u32) -> (r: String)
    ensures
        r@ == msg_too_many_decimals(currency@, decimals as nat),
{
    let mut msg = owned("amount の小数桁が多すぎます（");
    push_str(&mut msg, currency);
    push_str(&mut msg, " は ");
    push_u64_decimal(&mut msg, decimals as u64);
    push_str(&mut msg, " 桁まで）");
    msg
}

fn parse_amount_parts(whole: &[char], has_frac: bool, frac: &[char], currency: &str) -> (r: Result<
    i64,
    String,
>)
    ensures
        amount_result_view(r) == amount_parts_result(
            whole@,
            if has_frac {
                Some(frac@)
            } else {
                None
            },
            currency@,
        ),
{
    let decimals = currency_minor_unit_digits(currency);
    if has_frac && chars_contain_char(frac, '.') {
        return Err(owned("amount の形式が不正です"));
    }
    if whole.len() > 0 && !chars_all_digits(whole) {
        return Err(owned("amount は数値である必要があります"));
    }
    if has_frac && !chars_all_digits(frac) {
        return Err(owned("amount は数値である必要があります"));
    }
    if has_frac && frac.len() > decimals as usize {
        return Err(too_many_decimals_message(currency, decimals));
    }
    let whole_value = if whole.len() == 0 {
        assert(digits_value(whole@) == 0);
        0i64
    } else {
        match parse_digits_i64(whole) {
            Some(v) => v,
            None => {
                return Err(owned("amount の形式が不正です"));
            },
        }
    };
    if has_frac && frac.len() == 0 && decimals == 0 {
        return Err(owned("amount の形式が不正です"));
    }
    assert(pow10(0) == 1);
    assert(pow10(1) == 10);
    assert(pow10(2) == 100);
    let frac_value: i64 = if has_frac {
        proof {
            lemma_digits_value_bound(frac@);
        }
        let fv: i64 = match parse_digits_i64(frac) {
            Some(v) => v,
            None => 0,
        };
        assert(fv == digits_value(frac@));
        if decimals as usize == frac.len() {
            assert(pow10((decimals - frac.len()) as nat) == 1);
            fv
        } else if decimals as usize == frac.len() + 1 {
            assert(pow10((decimals - frac.len()) as nat) == 10);
            assert(fv < 10);
            fv * 10
        } else {
            assert(frac.len() == 0);
            assert(fv == 0);
            assert(pow10((decimals - frac.len()) as nat) == 100);
            0
        }
    } else {
        0
    };
    let multiplier: i64 = if decimals == 0 {
        1
    } else {
        100
    };
    let amount = match whole_value.checked_mul(multiplier) {
        Some(m) => m.checked_add(frac_value),
        None => None,
    };
    match amount {
        Some(v) => Ok(v),
        None => Err(owned("amount が大きすぎます")),
    }
}

/// Converts an amount text to an integer in the minor unit of `currency`
/// (e.g. `"12.50"` USD is 1250), without floating point.
pub fn parse_amount_for_currency(input: &str, currency: &str) -> (r: Result<i64, String>)
    ensures
        amount_result_view(r) == parse_amount_result(input@, currency@),
{
    let cur = match validate_currency_code(currency) {
        Ok(c) => c,
        Err(e) => return Err(e),
    };
    let s = chars_of(str_trim(input));
    if s.len() == 0 {
        return Err(owned("amount は必須です"));
    }
    if s[0] == '-' || s[0] == '+' {
        return Err(owned("amount は 0 以上である必要があります"));
    }
    let mut k: usize = 0;
    while k < s.len() && s[k] != '.'
        invariant
            k <= s@.len(),
            forall|j: int| 0 <= j < k ==> s@[j] != '.',
        decreases s@.len() - k,
    {
        k = k + 1;
    }
    if k < s.len() {
        proof {
            assert(exists|i: int| 0 <= i < s@.len() && s@[i] == '.') by {
                assert(s@[k as int] == '.');
            }
            let c = choose|i: int| 0 <= i < s@.len() && s@[i] == '.' && forall|j: int| 0 <= j < i ==> s@[j] != '.';
            assert(0 <= k < s@.len() && s@[k as int] == '.' && forall|j: int| 0 <= j < k ==> s@[j] != '.');
            assert(first_dot(s@) == Some(c));
            if c < k {
            } else if c > k {
            }
            assert(c == k);
        }
        let whole = sub_chars(s.as_slice(), 0, k);
        let frac = sub_chars(s.as_slice(), k + 1, s.len());
        assert(whole@ =~= s@.take(k as int));
        assert(frac@ =~= s@.skip(k + 1));
        parse_amount_parts(whole.as_slice(), true, frac.as_slice(), cur.as_str())
    } else {
        assert(first_dot(s@) is None);
        let empty: Vec<char> = Vec::new();
        parse_amount_parts(s.as_slice(), false, empty.as_slice(), cur.as_str())
    }
}

/// Appends the digits of `n` grouped by thousands.
fn push_grouped(out: &mut String, n: u64)
    ensures
        final(out)@ == old(out)@ + group_thousands(nat_decimal(n as nat)),
{
    let mut digits = String::new();
    push_u64_decimal(&mut digits, n);
    let ds = chars_of(digits.as_str());
    assert(ds@ =~= nat_decimal(n as nat));
    let ghost start = out@;
    let len = ds.len();
    let mut i: usize = 0;
    while i < len
        invariant
            len == ds@.len(),
            i <= len,
            out@ == start + group_prefix(ds@, i as nat),
        decreases len - i,
    {
        if i > 0 && (len - i) % 3 == 0 {
            push_char(out, ',');
        }
        push_char(out, ds[i]);
        proof {
            let sep: Seq<char> = if i > 0 && (ds@.len() - i) % 3 == 0 {
                seq![',']
            } else {
                Seq::<char>::empty()
            };
            assert(group_prefix(ds@, (i + 1) as nat) == group_prefix(ds@, i as nat) + sep + seq![ds@[i as int]]);
        }
        i = i + 1;
        assert(out@ =~= start + group_prefix(ds@, i as nat));
    }
}

/// The integer with thousands separators (e.g. `-50,000`).
pub fn format_integer_with_commas(value: i64) -> (r: String)
    requires
        value > i64::MIN,
    ensures
        r@ == integer_with_commas(value as int),
{
    let mut out = String::new();
    if value < 0 {
        push_char(&mut out, '-');
        push_grouped(&mut out, (-value) as u64);
    } else {
        push_grouped(&mut out, value as u64);
    }
    assert(out@ =~= integer_with_commas(value as int));
    out
}

/// The number part of an amount for display, without the currency code
/// (e.g. `-0.50` for -50 USD, `-50,000` for -50000 KRW).
pub fn format_amount_value(amount: i64, currency: &str) -> (r: String)
    requires
        minor_unit_digits(currency@) == 0 ==> amount > i64::MIN,
    ensures
        r@ == amount_value_text(amount as int, currency@),
{
    let decimals = currency_minor_unit_digits(currency);
    if decimals == 0 {
        return format_integer_with_commas(amount);
    }
    let negative = amount < 0;
    let a: u64 = if amount == i64::MIN {
        9223372036854775808u64
    } else if amount < 0 {
        (-amount) as u64
    } else {
        amount as u64
    };
    assert(a as nat == abs_int(amount as int));
    let whole = a / 100;
    let frac = a % 100;
    let mut out = String::new();
    if negative {
        push_char(&mut out, '-');
    }
    push_grouped(&mut out, whole);
    push_char(&mut out, '.');
    let c1 = (48u8 + (frac / 10) as u8) as char;
    let c2 = (48u8 + (frac % 10) as u8) as char;
    assert(c1 == digit_char((frac / 10) as nat));
    assert(c2 == digit_char((frac % 10) as nat));
    push_char(&mut out, c1);
    push_char(&mut out, c2);
    assert(out@ =~= amount_value_text(amount as int, currency@));
    out
}

/// The amount followed by a space and the currency code (e.g. `-0.50 USD`).
pub fn format_amount_display(amount: i64, currency: &str) -> (r: String)
    requires
        minor_unit_digits(currency@) == 0 ==> amount > i64::MIN,
    ensures
        r@ == amount_value_text(amount as int, currency@) + seq![' '] + currency@,
{
    let mut out = format_amount_value(amount, currency);
    push_char(&mut out, ' ');
    push_str(&mut out, currency);
    out
}

proof fn lemma_upper_keeps_utf8_len(s: Seq<char>)
    ensures
        utf8_len(upper_seq(s)) == utf8_len(s),
    decreases s.len(),
{
    if s.len() > 0 {
        lemma_upper_keeps_utf8_len(s.drop_last());
        assert(upper_seq(s).drop_last() =~= upper_seq(s.drop_last()));
        let c = s.last();
        assert(upper_seq(s).last() == ascii_upper(c));
        if 97 <= (c as u32) && (c as u32) <= 122 {
            assert((ascii_upper(c) as u32) < 0x80);
        }
    }
}

/// Validating a validated code gives it back unchanged, in either mode.
pub proof fn lemma_currency_validation_idempotent(code: Seq<char>, mode: CurrencyValidationMode)
    requires
        currency_mode_result(code, mode) is Ok,
    ensures
        currency_mode_result(currency_mode_result(code, mode)->Ok_0, mode) == currency_mode_result(code, mode),
{
    let t = trim_seq(code);
    let n = upper_seq(t);
    assert(currency_format_result(code) == Ok::<Seq<char>, Seq<char>>(n));
    lemma_upper_keeps_utf8_len(t);
    assert(n.len() > 0) by {
        if n.len() == 0 {
            assert(t.len() == 0);
            assert(utf8_len(t) == 0);
        }
    }
    assert(!is_white_space(n[0]));
    assert(!is_white_space(n.last()));
    assert(trim_start_seq(n) == n);
    assert(trim_end_seq(n) == n);
    assert(trim_seq(n) == n);
    assert(upper_seq(n) =~= n);
    assert(currency_format_result(n) == Ok::<Seq<char>, Seq<char>>(n));
}

/// A code that the strict check accepts is accepted as it stands by the format check.
pub proof fn lemma_strict_acceptance_implies_format_acceptance(code: Seq<char>)
    requires
        currency_mode_result(code, CurrencyValidationMode::IsoStrict) is Ok,
    ensures
        currency_mode_result(code, CurrencyValidationMode::FormatOnly) == currency_mode_result(
            code,
            CurrencyValidationMode::IsoStrict,
        ),
{
}


// ---------------------------------------------------------------------------
// What the display text of an amount is made of.

/// The text with its commas taken out.
pub open spec fn without_commas(s: Seq<char>) -> Seq<char>
    decreases s.len(),
{
    if s.len() == 0 {
        Seq::empty()
    } else if s.last() == ',' {
        without_commas(s.drop_last())
    } else {
        without_commas(s.drop_last()).push(s.last())
    }
}

/// Every character is a digit or a comma.
pub open spec fn digits_and_commas(s: Seq<char>) -> bool {
    forall|i: int| 0 <= i < s.len() ==> is_ascii_digit_char(#[trigger] s[i]) || s[i] == ','
}

proof fn lemma_without_commas_add(a: Seq<char>, b: Seq<char>)
    ensures
        without_commas(a + b) == without_commas(a) + without_commas(b),
    decreases b.len(),
{
    if b.len() == 0 {
        assert(a + b =~= a);
        assert(without_commas(a) + without_commas(b) =~= without_commas(a));
    } else {
        lemma_without_commas_add(a, b.drop_last());
        assert((a + b).drop_last() =~= a + b.drop_last());
        assert((a + b).last() == b.last());
        if b.last() != ',' {
            assert(without_commas(a) + without_commas(b) =~= (without_commas(a) + without_commas(b.drop_last())).push(
                b.last(),
            ));
        }
    }
}

proof fn lemma_digit_char(d: nat)
    requires
        d < 10,
    ensures
        is_ascii_digit_char(digit_char(d)),
        digit_value(digit_char(d)) == d,
        digit_char(d) != ',' && digit_char(d) != '.' && digit_char(d) != '-',
{
}

proof fn lemma_nat_decimal_digits(n: nat)
    ensures
        nat_decimal(n).len() >= 1,
        all_ascii_digits(nat_decimal(n)),
        digits_value(nat_decimal(n)) == n,
    decreases n,
{
    if n < 10 {
        lemma_digit_char(n);
        assert(nat_decimal(n).drop_last() =~= Seq::<char>::empty());
        assert(digits_value(nat_decimal(n)) == digits_value(Seq::<char>::empty()) * 10 + digit_value(digit_char(n)));
    } else {
        lemma_nat_decimal_digits(n / 10);
        lemma_digit_char(n % 10);
        let s = nat_decimal(n);
        assert(s.drop_last() =~= nat_decimal(n / 10));
        assert(s.last() == digit_char(n % 10));
        assert(digits_value(s) == digits_value(nat_decimal(n / 10)) * 10 + digit_value(digit_char(n % 10)));
        assert((n / 10) * 10 + n % 10 == n);
        assert forall|i: int| 0 <= i < s.len() implies is_ascii_digit_char(#[trigger] s[i]) by {
            if i < s.len() - 1 {
                assert(s[i] == nat_decimal(n / 10)[i]);
            }
        }
    }
}

proof fn lemma_group_prefix(d: Seq<char>, k: nat)
    requires
        k <= d.len(),
        all_ascii_digits(d),
    ensures
        without_commas(group_prefix(d, k)) == d.take(k as int),
        digits_and_commas(group_prefix(d, k)),
        k > 0 ==> group_prefix(d, k)[0] == d[0],
        group_prefix(d, k).len() >= k,
    decreases k,
{
    if k == 0 {
        assert(d.take(0) =~= Seq::<char>::empty());
    } else {
        let i = (k - 1) as nat;
        lemma_group_prefix(d, i);
        let sep: Seq<char> = if i > 0 && (d.len() - i) % 3 == 0 {
            seq![',']
        } else {
            Seq::<char>::empty()
        };
        let g = group_prefix(d, i);
        assert(group_prefix(d, k) == g + sep + seq![d[i as int]]);
        lemma_without_commas_add(g + sep, seq![d[i as int]]);
        lemma_without_commas_add(g, sep);
        assert(is_ascii_digit_char(d[i as int]));
        assert((',' as u32) == 44);
        assert(d[i as int] != ',');
        let one = seq![d[i as int]];
        assert(one.drop_last() =~= Seq::<char>::empty());
        assert(one.last() == d[i as int]);
        assert(without_commas(Seq::<char>::empty()) == Seq::<char>::empty());
        assert(without_commas(one) == without_commas(one.drop_last()).push(one.last()));
        assert(without_commas(one) =~= one);
        if sep.len() > 0 {
            assert(sep.drop_last() =~= Seq::<char>::empty());
        }
        assert(without_commas(sep) =~= Seq::<char>::empty());
        assert(d.take(k as int) =~= d.take(i as int).push(d[i as int]));
        let full = g + sep + seq![d[i as int]];
        assert forall|j: int| 0 <= j < full.len() implies is_ascii_digit_char(#[trigger] full[j]) || full[j] == ',' by {
            if j < g.len() {
                assert(full[j] == g[j]);
            } else if j < g.len() + sep.len() {
                assert(full[j] == sep[j - g.len()]);
            } else {
                assert(full[j] == d[i as int]);
            }
        }
        if i > 0 {
            assert(full[0] == g[0]);
        } else {
            assert(g.len() == 0);
            assert(full[0] == d[0]);
        }
    }
}

/// Digits in groups of three from the right, a comma between groups, the
/// first group of one to three digits.
pub open spec fn grouped_digits(w: Seq<char>) -> bool
    decreases w.len(),
{
    if w.len() <= 3 {
        w.len() >= 1 && all_ascii_digits(w)
    } else {
        &&& w.len() >= 5
        &&& w[w.len() - 4] == ','
        &&& all_ascii_digits(w.subrange(w.len() - 3, w.len() as int))
        &&& grouped_digits(w.take(w.len() - 4))
    }
}

proof fn lemma_group_prefix_shift(d: Seq<char>, k: nat)
    requires
        d.len() >= 3,
        k <= d.len() - 3,
    ensures
        group_prefix(d, k) == group_prefix(d.take(d.len() - 3), k),
    decreases k,
{
    if k > 0 {
        lemma_group_prefix_shift(d, (k - 1) as nat);
        let e = d.take(d.len() - 3);
        let i = (k - 1) as nat;
        assert((d.len() - i) % 3 == (e.len() - i) % 3);
        assert(e[i as int] == d[i as int]);
    }
}

proof fn lemma_grouped(d: Seq<char>)
    requires
        d.len() >= 1,
        all_ascii_digits(d),
    ensures
        grouped_digits(group_prefix(d, d.len())),
    decreases d.len(),
{
    let n = d.len();
    if n <= 3 {
        lemma_group_prefix(d, n);
        let g = group_prefix(d, n);
        assert(without_commas(g) == d.take(n as int));
        // no separator is placed in three digits or fewer
        assert(group_prefix(d, 0) =~= Seq::<char>::empty());
        assert(group_prefix(d, 1) =~= seq![d[0]]);
        if n == 1 {
            assert(g =~= seq![d[0]]);
        } else if n == 2 {
            assert(group_prefix(d, 2) == group_prefix(d, 1) + Seq::<char>::empty() + seq![d[1]]);
            assert(g =~= seq![d[0], d[1]]);
        } else {
            assert(group_prefix(d, 2) == group_prefix(d, 1) + Seq::<char>::empty() + seq![d[1]]);
            assert(group_prefix(d, 3) == group_prefix(d, 2) + Seq::<char>::empty() + seq![d[2]]);
            assert(g =~= seq![d[0], d[1], d[2]]);
        }
        assert forall|i: int| 0 <= i < g.len() implies is_ascii_digit_char(#[trigger] g[i]) by {
            assert(g[i] == d[i]);
        }
    } else {
        let e = d.take(n - 3);
        assert(all_ascii_digits(e)) by {
            assert forall|i: int| 0 <= i < e.len() implies is_ascii_digit_char(#[trigger] e[i]) by {
                assert(e[i] == d[i]);
            }
        }
        lemma_grouped(e);
        lemma_group_prefix_shift(d, (n - 3) as nat);
        let g0 = group_prefix(d, (n - 3) as nat);
        assert(g0 == group_prefix(e, e.len()));
        let g = group_prefix(d, n);
        assert(group_prefix(d, (n - 2) as nat) == g0 + seq![','] + seq![d[n - 3]]);
        assert(group_prefix(d, (n - 1) as nat) == group_prefix(d, (n - 2) as nat) + Seq::<char>::empty() + seq![d[n - 2]]);
        assert(g == group_prefix(d, (n - 1) as nat) + Seq::<char>::empty() + seq![d[n - 1]]);
        assert(g =~= g0 + seq![',', d[n - 3], d[n - 2], d[n - 1]]);
        lemma_group_prefix(e, e.len());
        assert(g.len() >= 5);
        assert(g.take(g.len() - 4) =~= g0);
        let tail = g.subrange(g.len() - 3, g.len() as int);
        assert(tail =~= seq![d[n - 3], d[n - 2], d[n - 1]]);
        assert forall|i: int| 0 <= i < tail.len() implies is_ascii_digit_char(#[trigger] tail[i]) by {
            assert(tail[i] == d[n - 3 + i]);
        }
    }
}

proof fn lemma_nat_decimal_first(n: nat)
    ensures
        nat_decimal(n)[0] == '0' ==> n == 0,
    decreases n,
{
    if n >= 10 {
        lemma_nat_decimal_first(n / 10);
        lemma_nat_decimal_digits(n / 10);
        assert(nat_decimal(n)[0] == nat_decimal(n / 10)[0]);
    } else {
        lemma_digit_char(n);
        assert(('0' as u32) == 48);
    }
}

/// The whole units of an amount, grouped by threes: digits and commas, the
/// digits reading the number.
proof fn lemma_grouped_number(n: nat)
    ensures
        digits_and_commas(group_thousands(nat_decimal(n))),
        digits_value(without_commas(group_thousands(nat_decimal(n)))) == n,
        group_thousands(nat_decimal(n)).len() >= 1,
        is_ascii_digit_char(group_thousands(nat_decimal(n))[0]),
        grouped_digits(group_thousands(nat_decimal(n))),
        group_thousands(nat_decimal(n))[0] == '0' ==> n == 0 && group_thousands(nat_decimal(n)).len() == 1,
{
    lemma_nat_decimal_digits(n);
    let d = nat_decimal(n);
    lemma_group_prefix(d, d.len());
    assert(d.take(d.len() as int) =~= d);
    lemma_grouped(d);
    lemma_nat_decimal_first(n);
    if n == 0 {
        assert(d =~= seq![digit_char(0)]);
        assert(group_prefix(d, 0) =~= Seq::<char>::empty());
        assert(group_thousands(d) =~= seq![d[0]]);
    }
}

/// For a currency with two minor-unit digits, the display text of an amount
/// is a `-` exactly when the amount is negative, then the whole units in
/// digits without leading zeros, grouped by threes with commas, a `.`, and
/// exactly two digits that give the amount's cents.
pub proof fn lemma_two_decimal_text(amount: int, currency: Seq<char>)
    requires
        minor_unit_digits(currency) == 2,
    ensures
        ({
            let t = amount_value_text(amount, currency);
            let s: int = if amount < 0 {
                1
            } else {
                0
            };
            let w = t.subrange(s, t.len() - 3);
            &&& t.len() >= s + 4
            &&& (t[0] == '-') == (amount < 0)
            &&& t[t.len() - 3] == '.'
            &&& is_ascii_digit_char(t[t.len() - 2]) && is_ascii_digit_char(t[t.len() - 1])
            &&& digit_value(t[t.len() - 2]) * 10 + digit_value(t[t.len() - 1]) == abs_int(amount) % 100
            &&& digits_and_commas(w)
            &&& grouped_digits(w)
            &&& (w[0] == '0' ==> w.len() == 1)
            &&& digits_value(without_commas(w)) == abs_int(amount) / 100
        }),
{
    let a = abs_int(amount);
    let frac = a % 100;
    let g = group_thousands(nat_decimal(a / 100));
    lemma_grouped_number(a / 100);
    lemma_digit_char(frac / 10);
    lemma_digit_char(frac % 10);
    let body = g + seq!['.', digit_char(frac / 10), digit_char(frac % 10)];
    let t = amount_value_text(amount, currency);
    let s: int = if amount < 0 {
        1
    } else {
        0
    };
    if amount < 0 {
        assert(t == seq!['-'] + body);
    } else {
        assert(t == body);
    }
    assert(t.subrange(s, t.len() - 3) =~= g);
    assert(t[t.len() - 3] == '.');
    assert(t[t.len() - 2] == digit_char(frac / 10));
    assert(t[t.len() - 1] == digit_char(frac % 10));
    if amount >= 0 {
        assert(t[0] == g[0]);
    }
}

/// For a currency without minor-unit digits, the display text of an amount
/// is a `-` exactly when the amount is negative, then the amount in digits
/// without leading zeros, grouped by threes with commas, with no `.`.
pub proof fn lemma_zero_decimal_text(amount: int, currency: Seq<char>)
    requires
        minor_unit_digits(currency) == 0,
    ensures
        ({
            let t = amount_value_text(amount, currency);
            let s: int = if amount < 0 {
                1
            } else {
                0
            };
            let w = t.subrange(s, t.len() as int);
            &&& t.len() >= s + 1
            &&& (t[0] == '-') == (amount < 0)
            &&& digits_and_commas(w)
            &&& grouped_digits(w)
            &&& (w[0] == '0' ==> w.len() == 1)
            &&& digits_value(without_commas(w)) == abs_int(amount)
        }),
{
    let a = abs_int(amount);
    let g = group_thousands(nat_decimal(a));
    lemma_grouped_number(a);
    let t = amount_value_text(amount, currency);
    if amount < 0 {
        assert(t == seq!['-'] + g);
        assert(t.subrange(1, t.len() as int) =~= g);
    } else {
        assert(t == g);
        assert(t.subrange(0, t.len() as int) =~= g);
        assert(t[0] == g[0]);
    }
}

} // verus!
