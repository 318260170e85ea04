//! ISO 4217 alpha-3 registry and the travel-expense denylist used by strict
//! currency validation.
use vstd::prelude::*;

use crate::text::str_eq;

verus! {

/// ISO 4217 alpha-3 codes (current and withdrawn), in ascending order.
pub open spec fn iso4217_codes() -> Seq<Seq<char>> {
    seq![
        "ADF"@, "ADP"@, "AED"@, "AFA"@, "AFN"@, "ALL"@, "AMD"@, "AOA"@, "AOK"@, "AON"@,
        "AOR"@, "ARA"@, "ARP"@, "ARS"@, "ATS"@, "AUD"@, "AWG"@, "AYM"@, "AZM"@, "AZN"@,
        "BAD"@, "BAM"@, "BBD"@, "BDT"@, "BEF"@, "BGL"@, "BGN"@, "BHD"@, "BIF"@, "BMD"@,
        "BND"@, "BOB"@, "BOV"@, "BRC"@, "BRE"@, "BRL"@, "BRR"@, "BSD"@, "BTN"@, "BWP"@,
        "BYB"@, "BYN"@, "BYR"@, "BZD"@, "CAD"@, "CDF"@, "CHC"@, "CHE"@, "CHF"@, "CHW"@,
        "CLF"@, "CLP"@, "CNY"@, "COP"@, "COU"@, "CRC"@, "CSD"@, "CUC"@, "CUP"@, "CVE"@,
        "CYP"@, "CZK"@, "DDM"@, "DEM"@, "DJF"@, "DKK"@, "DOP"@, "DZD"@, "ECS"@, "ECV"@,
        "EEK"@, "EGP"@, "ERN"@, "ESP"@, "ETB"@, "EUR"@, "FIM"@, "FJD"@, "FKP"@, "FRF"@,
        "GBP"@, "GEL"@, "GHC"@, "GHP"@, "GHS"@, "GIP"@, "GMD"@, "GNF"@, "GRD"@, "GTQ"@,
        "GYD"@, "HKD"@, "HNL"@, "HRD"@, "HRK"@, "HTG"@, "HUF"@, "IDR"@, "IEP"@, "ILS"@,
        "INR"@, "IQD"@, "IRR"@, "ISK"@, "ITL"@, "JMD"@, "JOD"@, "JPY"@, "KES"@, "KGS"@,
        "KHR"@, "KMF"@, "KPW"@, "KRW"@, "KWD"@, "KYD"@, "KZT"@, "LAK"@, "LBP"@, "LKR"@,
        "LRD"@, "LSL"@, "LTL"@, "LUF"@, "LVL"@, "LYD"@, "MAD"@, "MDL"@, "MGA"@, "MGF"@,
        "MKD"@, "MMK"@, "MNT"@, "MOP"@, "MRO"@, "MRU"@, "MTL"@, "MUR"@, "MVR"@, "MWK"@,
        "MXN"@, "MXP"@, "MXV"@, "MYR"@, "MZM"@, "MZN"@, "NAD"@, "NGN"@, "NIC"@, "NIO"@,
        "NLG"@, "NOK"@, "NPR"@, "NZD"@, "OMR"@, "PAB"@, "PEH"@, "PEI"@, "PEN"@, "PGK"@,
        "PHP"@, "PKR"@, "PLN"@, "PLZ"@, "PTE"@, "PYG"@, "QAR"@, "RHD"@, "ROL"@, "RON"@,
        "RSD"@, "RUB"@, "RUR"@, "RWF"@, "SAR"@, "SBD"@, "SCR"@, "SDD"@, "SDG"@, "SDP"@,
        "SEK"@, "SGD"@, "SHP"@, "SIT"@, "SKK"@, "SLE"@, "SLL"@, "SOS"@, "SRD"@, "SRG"@,
        "SSP"@, "STD"@, "STN"@, "SUR"@, "SVC"@, "SYP"@, "SZL"@, "THB"@, "TJR"@, "TJS"@,
        "TMM"@, "TMT"@, "TND"@, "TOP"@, "TPE"@, "TRL"@, "TRY"@, "TTD"@, "TWD"@, "TZS"@,
        "UAH"@, "UAK"@, "UGX"@, "USD"@, "USM"@, "USN"@, "USS"@, "UYI"@, "UYU"@, "UYW"@,
        "UZS"@, "VEB"@, "VED"@, "VEF"@, "VES"@, "VNC"@, "VND"@, "VUV"@, "WST"@, "XAF"@,
        "XAG"@, "XAU"@, "XBA"@, "XBB"@, "XBC"@, "XBD"@, "XCD"@, "XCG"@, "XDR"@, "XEU"@,
        "XFO"@, "XFU"@, "XOF"@, "XPD"@, "XPF"@, "XPT"@, "XSU"@, "XTS"@, "XUA"@, "XXX"@,
        "YDD"@, "YER"@, "YUM"@, "YUN"@, "ZAL"@, "ZAR"@, "ZMK"@, "ZMW"@, "ZRN"@, "ZWD"@,
        "ZWG"@, "ZWL"@,
    ]
}

/// Codes that must not be used for trip money entries (test, pseudo and
/// precious-metal codes), in ascending order.
pub open spec fn travel_expense_denylist() -> Seq<Seq<char>> {
    seq![
        "XAG"@, "XAU"@, "XBA"@, "XBB"@, "XBC"@, "XBD"@, "XPD"@, "XPT"@, "XTS"@, "XXX"@,
    ]
}

fn iso4217_code_table() -> (r: Vec<&'static str>)
    ensures
        r@.len() == iso4217_codes().len(),
        forall|i: int| 0 <= i < r@.len() ==> (#[trigger] r@[i])@ == iso4217_codes()[i],
{
    vec![
        "ADF", "ADP", "AED", "AFA", "AFN", "ALL", "AMD", "AOA", "AOK", "AON",
        "AOR", "ARA", "ARP", "ARS", "ATS", "AUD", "AWG", "AYM", "AZM", "AZN",
        "BAD", "BAM", "BBD", "BDT", "BEF", "BGL", "BGN", "BHD", "BIF", "BMD",
        "BND", "BOB", "BOV", "BRC", "BRE", "BRL", "BRR", "BSD", "BTN", "BWP",
        "BYB", "BYN", "BYR", "BZD", "CAD", "CDF", "CHC", "CHE", "CHF", "CHW",
        "CLF", "CLP", "CNY", "COP", "COU", "CRC", "CSD", "CUC", "CUP", "CVE",
        "CYP", "CZK", "DDM", "DEM", "DJF", "DKK", "DOP", "DZD", "ECS", "ECV",
        "EEK", "EGP", "ERN", "ESP", "ETB", "EUR", "FIM", "FJD", "FKP", "FRF",
        "GBP", "GEL", "GHC", "GHP", "GHS", "GIP", "GMD", "GNF", "GRD", "GTQ",
        "GYD", "HKD", "HNL", "HRD", "HRK", "HTG", "HUF", "IDR", "IEP", "ILS",
        "INR", "IQD", "IRR", "ISK", "ITL", "JMD", "JOD", "JPY", "KES", "KGS",
        "KHR", "KMF", "KPW", "KRW", "KWD", "KYD", "KZT", "LAK", "LBP", "LKR",
        "LRD", "LSL", "LTL", "LUF", "LVL", "LYD", "MAD", "MDL", "MGA", "MGF",
        "MKD", "MMK", "MNT", "MOP", "MRO", "MRU", "MTL", "MUR", "MVR", "MWK",
        "MXN", "MXP", "MXV", "MYR", "MZM", "MZN", "NAD", "NGN", "NIC", "NIO",
        "NLG", "NOK", "NPR", "NZD", "OMR", "PAB", "PEH", "PEI", "PEN", "PGK",
        "PHP", "PKR", "PLN", "PLZ", "PTE", "PYG", "QAR", "RHD", "ROL", "RON",
        "RSD", "RUB", "RUR", "RWF", "SAR", "SBD", "SCR", "SDD", "SDG", "SDP",
        "SEK", "SGD", "SHP", "SIT", "SKK", "SLE", "SLL", "SOS", "SRD", "SRG",
        "SSP", "STD", "STN", "SUR", "SVC", "SYP", "SZL", "THB", "TJR", "TJS",
        "TMM", "TMT", "TND", "TOP", "TPE", "TRL", "TRY", "TTD", "TWD", "TZS",
        "UAH", "UAK", "UGX", "USD", "USM", "USN", "USS", "UYI", "UYU", "UYW",
        "UZS", "VEB", "VED", "VEF", "VES", "VNC", "VND", "VUV", "WST", "XAF",
        "XAG", "XAU", "XBA", "XBB", "XBC", "XBD", "XCD", "XCG", "XDR", "XEU",
        "XFO", "XFU", "XOF", "XPD", "XPF", "XPT", "XSU", "XTS", "XUA", "XXX",
        "YDD", "YER", "YUM", "YUN", "ZAL", "ZAR", "ZMK", "ZMW", "ZRN", "ZWD",
        "ZWG", "ZWL",
    ]
}

fn travel_expense_denylist_table() -> (r: Vec<&'static str>)
    ensures
        r@.len() == travel_expense_denylist().len(),
        forall|i: int| 0 <= i < r@.len() ==> (#[trigger] r@[i])@ == travel_expense_denylist()[i],
{
    vec![
        "XAG", "XAU", "XBA", "XBB", "XBC", "XBD", "XPD", "XPT", "XTS", "XXX",
    ]
}

fn table_contains(table: &Vec<&'static str>, code: &str, ghost_table: Ghost<Seq<Seq<char>>>) -> (r: bool)
    requires
        table@.len() == ghost_table@.len(),
        forall|i: int| 0 <= i < table@.len() ==> (#[trigger] table@[i])@ == ghost_table@[i],
    ensures
        r == ghost_table@.contains(code@),
{
    let mut i: usize = 0;
    while i < table.len()
        invariant
            i <= table@.len(),
            table@.len() == ghost_table@.len(),
            forall|k: int| 0 <= k < table@.len() ==> (#[trigger] table@[k])@ == ghost_table@[k],
            forall|k: int| 0 <= k < i ==> ghost_table@[k] != code@,
        decreases table@.len() - i,
    {
        if str_eq(table[i], code) {
            assert(ghost_table@[i as int] == code@);
            return true;
        }
        i = i + 1;
    }
    false
}

/// Whether `code` is a registered ISO 4217 alpha-3 code.
pub fn is_iso4217_alpha3(code: &str) -> (r: bool)
    ensures
        r == iso4217_codes().contains(code@),
{
    let table = iso4217_code_table();
    table_contains(&table, code, Ghost(iso4217_codes()))
}

/// Whether `code` is on the travel-expense denylist.
pub fn is_travel_expense_denylisted(code: &str) -> (r: bool)
    ensures
        r == travel_expense_denylist().contains(code@),
{
    let table = travel_expense_denylist_table();
    table_contains(&table, code, Ghost(travel_expense_denylist()))
}

} // verus!
