use crate::model::{FeeDetail, SettlementRecord};
use crate::text::{i64_to_string, spec_decimal_i64};
use vstd::prelude::*;

verus! {

/// An absent amount renders as zero rather than failing.
pub open spec fn spec_or_zero(v: Option<i64>) -> i64 {
    match v {
        Some(x) => x,
        None => 0,
    }
}

/// The figures a settlement report displays: gross, fee and net amounts
/// with the currency, and the fee breakdown in insertion order.
#[derive(Debug)]
pub struct SettlementSummary {
    pub gross: i64,
    pub fee: i64,
    pub net: i64,
    pub currency: String,
    pub fee_lines: Vec<FeeDetail>,
}

/// Extracts the displayed figures of a settlement record: each missing
/// amount becomes zero, the currency is carried over, and the fee
/// breakdown keeps its order untouched.
pub fn settlement_summary(rec: &SettlementRecord) -> (r: SettlementSummary)
    ensures
        r.gross == spec_or_zero(rec.amount),
        r.fee == spec_or_zero(rec.fee),
        r.net == spec_or_zero(rec.net),
        r.currency@ == rec.currency@,
        r.fee_lines@ == rec.fee_details@,
{
    let mut fee_lines: Vec<FeeDetail> = Vec::new();
    let n = rec.fee_details.len();
    let mut i: usize = 0;
    while i < n
        invariant
            n == rec.fee_details@.len(),
            0 <= i <= n,
            fee_lines@.len() == i,
            forall|k: int| 0 <= k < i ==> fee_lines@[k] == rec.fee_details@[k],
        decreases n - i,
    {
        fee_lines.push(rec.fee_details[i].duplicate());
        i = i + 1;
    }
    proof {
        assert(fee_lines@ =~= rec.fee_details@);
    }
    let gross: i64 = match rec.amount {
        Some(v) => v,
        None => 0,
    };
    let fee: i64 = match rec.fee {
        Some(v) => v,
        None => 0,
    };
    let net: i64 = match rec.net {
        Some(v) => v,
        None => 0,
    };
    SettlementSummary { gross, fee, net, currency: rec.currency.clone(), fee_lines }
}

/// Renders an amount with its currency code, as one displayed cell.
pub fn amount_with_currency(v: i64, currency: &str) -> (r: String)
    ensures
        r@ == spec_decimal_i64(v as int) + " "@ + currency@,
{
    let mut s = i64_to_string(v);
    s.append(" ");
    s.append(currency);
    s
}

} // verus!
