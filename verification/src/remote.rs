use crate::error::ApiError;
use crate::json::JsonDoc;
use crate::text::{i64_to_string, spec_decimal_i64};
use vstd::prelude::*;

verus! {

/// serde_json's document type, declared so that a parsed body can pass
/// through the gateway.  The library never looks inside a value of it:
/// it converts it to its own document model at once.
#[verifier::external_type_specification]
#[verifier::external_body]
pub struct ExValue(serde_json::Value);

/// serde_json's error type, declared so that a parse failure can be
/// turned into this library's own error.
#[verifier::external_type_specification]
#[verifier::external_body]
pub struct ExJsonError(serde_json::Error);

/// The parse outcome of a JSON text, in this library's document model:
/// `Some` of the parsed document for well-formed JSON, `None` for the
/// rest.  serde_json::from_str reads nothing but the text, so the
/// outcome is a function of the text alone; what it is on given text is
/// stated nowhere, and only running the parser answers it.
pub uninterp spec fn spec_parsed_doc(text: Seq<char>) -> Option<JsonDoc>;

/// Relies on serde_json::from_str: parses a JSON text, or fails when it
/// is not well-formed JSON.  The result, converted to the document
/// model by `doc_of_value` below, is the named parse outcome of the
/// text; a failure means the text has none.
#[verifier::external_body]
fn parse_to_doc(text: &str) -> (r: Result<JsonDoc, serde_json::Error>)
    ensures
        r matches Ok(d) ==> spec_parsed_doc(text@) == Some(d),
        r is Err ==> spec_parsed_doc(text@) is None,
{
    match serde_json::from_str::<serde_json::Value>(text) {
        Ok(v) => Ok(doc_of_value(&v)),
        Err(e) => Err(e),
    }
}

/// Relies on serde_json::Error's Display rendering: the human-readable
/// detail of a parse failure, kept for diagnostics.
#[verifier::external_body]
fn json_error_message(e: &serde_json::Error) -> (r: String) {
    e.to_string()
}

/// Relies on serde_json::Value's variants and serde_json::Number::as_i64:
/// converts a parsed document into this library's document model, one
/// variant to one variant.  A number that has no `i64` value is kept as
/// `Other`.  Called only by `parse_to_doc` above, whose contract names
/// what the two calls together return.
#[verifier::external_body]
fn doc_of_value(v: &serde_json::Value) -> (r: JsonDoc) {
    match v {
        serde_json::Value::Null => JsonDoc::Null,
        serde_json::Value::Bool(b) => JsonDoc::Bool(*b),
        serde_json::Value::Number(n) => match n.as_i64() {
            Some(i) => JsonDoc::Int(i),
            None => JsonDoc::Other,
        },
        serde_json::Value::String(s) => JsonDoc::Str(s.clone()),
        serde_json::Value::Array(a) => JsonDoc::Arr(a.iter().map(doc_of_value).collect()),
        serde_json::Value::Object(m) => JsonDoc::Obj(
            m.iter().map(|(k, x)| (k.clone(), doc_of_value(x))).collect(),
        ),
    }
}

/// Parses a JSON text into the document model: exactly the text's named
/// parse outcome when it has one, and a parse failure carrying the
/// parser's detail when it has none.
pub fn parse_document(text: &str) -> (r: Result<JsonDoc, ApiError>)
    ensures
        (match spec_parsed_doc(text@) {
            Some(d) => r == Ok::<JsonDoc, ApiError>(d),
            None => r matches Err(ApiError::Parse(_)),
        }),
{
    match parse_to_doc(text) {
        Ok(d) => Ok(d),
        Err(e) => Err(ApiError::Parse(json_error_message(&e))),
    }
}

/// The HTTP statuses the remote counts as success.
pub open spec fn spec_is_success_status(status: u16) -> bool {
    200 <= status < 300
}

/// Whether an HTTP status is a success status.
pub fn is_success_status(status: u16) -> (r: bool)
    ensures
        r == spec_is_success_status(status),
{
    200 <= status && status < 300
}

/// Classifies one remote response.  A non-success status fails with that
/// status and the untouched body; a success body comes back as exactly
/// its parse outcome, and a body that does not parse is a distinct parse
/// failure.  No retry happens here: retry policy belongs entirely to the
/// poller, and this is a single best-effort attempt.
pub fn interpret_response(status: u16, body: String) -> (r: Result<JsonDoc, ApiError>)
    ensures
        !spec_is_success_status(status) ==> r == Err::<JsonDoc, ApiError>(
            ApiError::Remote { status, body },
        ),
        spec_is_success_status(status) ==> (match spec_parsed_doc(body@) {
            Some(d) => r == Ok::<JsonDoc, ApiError>(d),
            None => r matches Err(ApiError::Parse(_)),
        }),
{
    if !is_success_status(status) {
        return Err(ApiError::Remote { status, body });
    }
    parse_document(body.as_str())
}

/// The form of the charge-creation call: the amount in the smallest
/// currency unit, the currency, synchronous confirmation, and the fixed
/// stand-in card payment method.
pub fn payment_create_form(amount: i64, currency: &str) -> (r: Vec<(String, String)>)
    ensures
        r@.len() == 5,
        r@[0].0@ == "amount"@ && r@[0].1@ == spec_decimal_i64(amount as int),
        r@[1].0@ == "currency"@ && r@[1].1@ == currency@,
        r@[2].0@ == "confirm"@ && r@[2].1@ == "true"@,
        r@[3].0@ == "payment_method"@ && r@[3].1@ == "pm_card_visa"@,
        r@[4].0@ == "payment_method_types[]"@ && r@[4].1@ == "card"@,
{
    let mut form: Vec<(String, String)> = Vec::new();
    form.push((String::from_str("amount"), i64_to_string(amount)));
    form.push((String::from_str("currency"), currency.to_owned()));
    form.push((String::from_str("confirm"), String::from_str("true")));
    form.push((String::from_str("payment_method"), String::from_str("pm_card_visa")));
    form.push((String::from_str("payment_method_types[]"), String::from_str("card")));
    form
}

/// The query that asks for the charge expanded with its settlement
/// sub-resource, two levels deep along the expansion path.
pub fn settlement_expand_query() -> (r: Vec<(String, String)>)
    ensures
        r@.len() == 1,
        r@[0].0@ == "expand[]"@,
        r@[0].1@ == "latest_charge.balance_transaction"@,
{
    let mut q: Vec<(String, String)> = Vec::new();
    q.push((String::from_str("expand[]"), String::from_str("latest_charge.balance_transaction")));
    q
}

/// The form of a refund creation: the charge to refund and the fixed
/// customer-requested reason.  An empty charge id gives no form at all:
/// there is nothing to refund.
pub fn refund_create_form(latest_charge: &str) -> (r: Option<Vec<(String, String)>>)
    ensures
        latest_charge@.len() == 0 ==> r is None,
        latest_charge@.len() > 0 ==> (r matches Some(f) && f@.len() == 2 && f@[0].0@ == "charge"@
            && f@[0].1@ == latest_charge@ && f@[1].0@ == "reason"@ && f@[1].1@
            == "requested_by_customer"@),
{
    if latest_charge.is_empty() {
        return None;
    }
    let mut form: Vec<(String, String)> = Vec::new();
    form.push((String::from_str("charge"), latest_charge.to_owned()));
    form.push((String::from_str("reason"), String::from_str("requested_by_customer")));
    Some(form)
}

/// The form of a customer creation: the email, the name, and the
/// description only when one is given.
pub fn customer_create_form(email: &str, name: &str, description: Option<&str>) -> (r: Vec<
    (String, String),
>)
    ensures
        r@.len() == (if description is Some {
            3int
        } else {
            2int
        }),
        r@[0].0@ == "email"@ && r@[0].1@ == email@,
        r@[1].0@ == "name"@ && r@[1].1@ == name@,
        (match description {
            Some(d) => r@[2].0@ == "description"@ && r@[2].1@ == d@,
            None => true,
        }),
{
    let mut form: Vec<(String, String)> = Vec::new();
    form.push((String::from_str("email"), email.to_owned()));
    form.push((String::from_str("name"), name.to_owned()));
    match description {
        Some(d) => {
            form.push((String::from_str("description"), d.to_owned()));
        },
        None => {},
    }
    form
}

/// The query of a bounded listing: how many items at most to return.
pub fn list_limit_query(limit: u32) -> (r: Vec<(String, String)>)
    ensures
        r@.len() == 1,
        r@[0].0@ == "limit"@,
        r@[0].1@ == crate::text::spec_decimal_digits(limit as nat),
{
    let mut q: Vec<(String, String)> = Vec::new();
    q.push((String::from_str("limit"), crate::text::u64_to_string(limit as u64)));
    q
}

/// The query of the card payment-method listing: card methods, ten at
/// most.
pub fn payment_methods_query() -> (r: Vec<(String, String)>)
    ensures
        r@.len() == 2,
        r@[0].0@ == "type"@ && r@[0].1@ == "card"@,
        r@[1].0@ == "limit"@ && r@[1].1@ == "10"@,
{
    let mut q: Vec<(String, String)> = Vec::new();
    q.push((String::from_str("type"), String::from_str("card")));
    q.push((String::from_str("limit"), String::from_str("10")));
    q
}

/// The API path of one charge, addressed by its id.
pub fn charge_path(id: &str) -> (r: String)
    ensures
        r@ == "/payment_intents/"@ + id@,
{
    let mut s = String::from_str("/payment_intents/");
    s.append(id);
    s
}

} // verus!
