use crate::json::{spec_int_field, spec_str_field_or, JsonDoc};
use crate::text::str_eq;
use vstd::prelude::*;

verus! {

/// One line of a settlement's fee breakdown; a field the record does not
/// carry is kept as an empty string or a zero amount, as it is rendered.
#[derive(Debug)]
pub struct FeeDetail {
    pub detail_type: String,
    pub amount: i64,
    pub currency: String,
    pub description: String,
}

/// The settlement (balance-transaction) sub-resource of a charge.  Its
/// gross amount is the sole readiness signal: the record counts as
/// available only when `amount` is present.
#[derive(Debug)]
pub struct SettlementRecord {
    pub amount: Option<i64>,
    pub fee: Option<i64>,
    pub net: Option<i64>,
    pub currency: String,
    pub status: String,
    pub fee_details: Vec<FeeDetail>,
}

/// The local, possibly stale copy of the remote charge: its id, its
/// status, and the settlement sub-resource when the expansion path
/// resolved to one.
#[derive(Debug)]
pub struct ChargeRecord {
    pub id: String,
    pub status: String,
    pub settlement: Option<SettlementRecord>,
}

/// A status on which phase one stops: the charge will not change on its
/// own any more.
pub open spec fn spec_is_terminal(status: Seq<char>) -> bool {
    status == "succeeded"@ || status == "failed"@ || status == "canceled"@
}

/// Whether a status string is terminal; every other status is retried.
pub fn is_terminal_status(status: &str) -> (r: bool)
    ensures
        r == spec_is_terminal(status@),
{
    str_eq(status, "succeeded") || str_eq(status, "failed") || str_eq(status, "canceled")
}

/// The settlement is available: the sub-resource is there and its gross
/// amount is present.  A missing sub-resource and a present one with a
/// null amount both count as "not yet available".
pub open spec fn spec_settlement_ready(c: ChargeRecord) -> bool {
    match c.settlement {
        Some(s) => s.amount is Some,
        None => false,
    }
}

/// Readiness predicate for the settlement-wait phase.
pub fn settlement_ready(c: &ChargeRecord) -> (r: bool)
    ensures
        r == spec_settlement_ready(*c),
{
    match &c.settlement {
        Some(s) => s.amount.is_some(),
        None => false,
    }
}

/// The document the expansion path `latest_charge.balance_transaction`
/// leads to, when both steps resolve.
pub open spec fn spec_settlement_doc(doc: JsonDoc) -> Option<JsonDoc> {
    match doc.spec_get("latest_charge"@) {
        Some(lc) => lc.spec_get("balance_transaction"@),
        None => None,
    }
}

/// `f` holds the fields of fee-breakdown line `d`, with the defaults the
/// rendering uses for what is absent.
pub open spec fn spec_fee_detail_matches(f: FeeDetail, d: JsonDoc) -> bool {
    &&& f.detail_type@ == spec_str_field_or(d, "type"@, ""@)
    &&& f.amount == (match spec_int_field(d, "amount"@) {
        Some(v) => v,
        None => 0,
    })
    &&& f.currency@ == spec_str_field_or(d, "currency"@, ""@)
    &&& f.description@ == spec_str_field_or(d, "description"@, ""@)
}

/// `s` holds exactly what the flow reads of a balance-transaction
/// document `d`.
pub open spec fn spec_settlement_matches(s: SettlementRecord, d: JsonDoc) -> bool {
    &&& s.amount == spec_int_field(d, "amount"@)
    &&& s.fee == spec_int_field(d, "fee"@)
    &&& s.net == spec_int_field(d, "net"@)
    &&& s.currency@ == spec_str_field_or(d, "currency"@, ""@)
    &&& s.status@ == spec_str_field_or(d, "status"@, ""@)
    &&& (match d.spec_get("fee_details"@) {
        Some(JsonDoc::Arr(a)) => {
            &&& s.fee_details@.len() == a@.len()
            &&& forall|i: int|
                0 <= i < a@.len() ==> spec_fee_detail_matches(#[trigger] s.fee_details@[i], a@[i])
        },
        _ => s.fee_details@.len() == 0,
    })
}

/// `c` holds exactly what the flow reads of a charge document `d`: the
/// id (empty when absent), the status (`"unknown"` when absent), and the
/// settlement sub-resource when the expansion path resolves.
pub open spec fn spec_charge_matches(c: ChargeRecord, d: JsonDoc) -> bool {
    &&& c.id@ == spec_str_field_or(d, "id"@, ""@)
    &&& c.status@ == spec_str_field_or(d, "status"@, "unknown"@)
    &&& (match spec_settlement_doc(d) {
        Some(bt) => match c.settlement {
            Some(s) => spec_settlement_matches(s, bt),
            None => false,
        },
        None => c.settlement is None,
    })
}

/// Whether a charge document carries a charge at all: its
/// `latest_charge` field is there and is not null.  The details view
/// shows a charge only then.
pub fn has_latest_charge(doc: &JsonDoc) -> (r: bool)
    ensures
        r == (match doc.spec_get("latest_charge"@) {
            Some(lc) => !(lc is Null),
            None => false,
        }),
{
    match doc.get("latest_charge") {
        Some(lc) => match lc {
            JsonDoc::Null => false,
            _ => true,
        },
        None => false,
    }
}

/// Law: on the charge copy read out of a document, the readiness
/// predicate holds exactly when the expansion path resolves and the
/// `amount` there is a present integer: a missing sub-resource and a
/// present one with a null amount are both "not yet available", and a
/// zero amount is a valid present amount.
pub proof fn lemma_readiness_goes_by_the_document(c: ChargeRecord, d: JsonDoc)
    requires
        spec_charge_matches(c, d),
    ensures
        spec_settlement_ready(c) == (match spec_settlement_doc(d) {
            Some(bt) => spec_int_field(bt, "amount"@) is Some,
            None => false,
        }),
{
}

impl FeeDetail {
    /// A field-for-field copy of this line.
    pub fn duplicate(&self) -> (r: FeeDetail)
        ensures
            r == *self,
    {
        FeeDetail {
            detail_type: self.detail_type.clone(),
            amount: self.amount,
            currency: self.currency.clone(),
            description: self.description.clone(),
        }
    }

    /// Reads one fee-breakdown line out of its document.
    pub fn of_doc(d: &JsonDoc) -> (r: FeeDetail)
        ensures
            spec_fee_detail_matches(r, *d),
    {
        let amount: i64 = match d.int_field("amount") {
            Some(v) => v,
            None => 0,
        };
        FeeDetail {
            detail_type: d.str_field_or("type", ""),
            amount,
            currency: d.str_field_or("currency", ""),
            description: d.str_field_or("description", ""),
        }
    }
}

impl SettlementRecord {
    /// Reads a settlement record out of a balance-transaction document.
    pub fn of_doc(d: &JsonDoc) -> (r: SettlementRecord)
        ensures
            spec_settlement_matches(r, *d),
    {
        let mut fee_details: Vec<FeeDetail> = Vec::new();
        match d.get("fee_details") {
            Some(fd) => match fd {
                JsonDoc::Arr(a) => {
                    let n = a.len();
                    let mut i: usize = 0;
                    while i < n
                        invariant
                            n == a@.len(),
                            0 <= i <= n,
                            fee_details@.len() == i,
                            forall|k: int|
                                0 <= k < i ==> spec_fee_detail_matches(
                                    #[trigger] fee_details@[k],
                                    a@[k],
                                ),
                        decreases n - i,
                    {
                        fee_details.push(FeeDetail::of_doc(&a[i]));
                        i = i + 1;
                    }
                },
                _ => {},
            },
            None => {},
        }
        SettlementRecord {
            amount: d.int_field("amount"),
            fee: d.int_field("fee"),
            net: d.int_field("net"),
            currency: d.str_field_or("currency", ""),
            status: d.str_field_or("status", ""),
            fee_details,
        }
    }
}

impl ChargeRecord {
    /// Reads the local charge copy out of a charge document.
    pub fn of_doc(d: &JsonDoc) -> (r: ChargeRecord)
        ensures
            spec_charge_matches(r, *d),
    {
        let settlement: Option<SettlementRecord> = match d.get("latest_charge") {
            Some(lc) => match lc.get("balance_transaction") {
                Some(bt) => Some(SettlementRecord::of_doc(bt)),
                None => None,
            },
            None => None,
        };
        ChargeRecord {
            id: d.str_field_or("id", ""),
            status: d.str_field_or("status", "unknown"),
            settlement,
        }
    }
}

} // verus!
