//! What the service answers, and how an answer is recognised by its shape.
//!
//! The service sends no field that says which kind of answer a body is. A
//! body is a success where it has the members of one, a reported error
//! where it has the members of that instead, and unreadable otherwise.

use vstd::prelude::*;
use crate::json::{json_view, member_of, JsonView};
use crate::parameters::optional_text;

verus! {

/// The payment that a successful charge created.
#[derive(Debug, PartialEq)]
pub struct VenmoPayment {
    pub id: String,
    pub status: String,
    pub action: String,
}

/// Mathematical value of a [`VenmoPayment`].
pub struct VenmoPaymentView {
    pub id: Seq<char>,
    pub status: Seq<char>,
    pub action: Seq<char>,
}

impl View for VenmoPayment {
    type V = VenmoPaymentView;

    open spec fn view(&self) -> VenmoPaymentView {
        VenmoPaymentView { id: self.id@, status: self.status@, action: self.action@ }
    }
}

/// What the service reports of a charge it created.
#[derive(Debug, PartialEq)]
pub struct VenmoChargeCreateResponseData {
    /// The balance left on the account, as the JSON number that was sent.
    pub balance: serde_json::Number,
    pub payment: VenmoPayment,
}

/// Mathematical value of a [`VenmoChargeCreateResponseData`].
pub struct VenmoChargeCreateResponseDataView {
    pub balance: serde_json::Number,
    pub payment: VenmoPaymentView,
}

impl View for VenmoChargeCreateResponseData {
    type V = VenmoChargeCreateResponseDataView;

    open spec fn view(&self) -> VenmoChargeCreateResponseDataView {
        VenmoChargeCreateResponseDataView { balance: self.balance, payment: self.payment@ }
    }
}

/// A failure that the service itself reports.
#[derive(Debug, PartialEq)]
pub struct VenmoChargeCreateResponseError {
    pub message: String,
    pub code: String,
}

/// Mathematical value of a [`VenmoChargeCreateResponseError`].
pub struct VenmoChargeCreateResponseErrorView {
    pub message: Seq<char>,
    pub code: Seq<char>,
}

impl View for VenmoChargeCreateResponseError {
    type V = VenmoChargeCreateResponseErrorView;

    open spec fn view(&self) -> VenmoChargeCreateResponseErrorView {
        VenmoChargeCreateResponseErrorView { message: self.message@, code: self.code@ }
    }
}

/// A well-formed answer: one of the two shapes.
#[derive(Debug, PartialEq)]
pub enum VenmoChargeCreateResponse {
    DataResponse { data: VenmoChargeCreateResponseData },
    ErrorResponse { error: VenmoChargeCreateResponseError },
}

/// Mathematical value of a [`VenmoChargeCreateResponse`].
pub enum VenmoChargeCreateResponseView {
    DataResponse { data: VenmoChargeCreateResponseDataView },
    ErrorResponse { error: VenmoChargeCreateResponseErrorView },
}

impl View for VenmoChargeCreateResponse {
    type V = VenmoChargeCreateResponseView;

    open spec fn view(&self) -> VenmoChargeCreateResponseView {
        match *self {
            VenmoChargeCreateResponse::DataResponse { data } => {
                VenmoChargeCreateResponseView::DataResponse { data: data@ }
            },
            VenmoChargeCreateResponse::ErrorResponse { error } => {
                VenmoChargeCreateResponseView::ErrorResponse { error: error@ }
            },
        }
    }
}

/// The payment that `json` describes: an object with the strings `id`,
/// `status` and `action`. Other members are ignored.
pub open spec fn payment_shape(json: JsonView) -> Option<VenmoPaymentView> {
    match (json.text_member("id"@), json.text_member("status"@), json.text_member("action"@)) {
        (Some(id), Some(status), Some(action)) => Some(VenmoPaymentView { id, status, action }),
        _ => None,
    }
}

/// The charge data that `json` describes: an object with the number
/// `balance` and a payment under `payment`.
pub open spec fn data_shape(json: JsonView) -> Option<VenmoChargeCreateResponseDataView> {
    match (json.number_member("balance"@), json.member("payment"@)) {
        (Some(balance), Some(inner)) => match payment_shape(inner) {
            Some(payment) => Some(VenmoChargeCreateResponseDataView { balance, payment }),
            None => None,
        },
        _ => None,
    }
}

/// The reported error that `json` describes: an object with the strings
/// `message` and `code`.
pub open spec fn service_error_shape(json: JsonView) -> Option<VenmoChargeCreateResponseErrorView> {
    match (json.text_member("message"@), json.text_member("code"@)) {
        (Some(message), Some(code)) => Some(VenmoChargeCreateResponseErrorView { message, code }),
        _ => None,
    }
}

/// The success that a whole body describes: an object with charge data under
/// `data`.
pub open spec fn success_shape(json: JsonView) -> Option<VenmoChargeCreateResponseDataView> {
    match json.member("data"@) {
        Some(inner) => data_shape(inner),
        None => None,
    }
}

/// The reported error that a whole body describes: an object with one under
/// `error`.
pub open spec fn error_shape(json: JsonView) -> Option<VenmoChargeCreateResponseErrorView> {
    match json.member("error"@) {
        Some(inner) => service_error_shape(inner),
        None => None,
    }
}

/// The answer that a body is: a success where it has that shape; a reported
/// error where it has not, but has the shape of an error; nothing otherwise.
pub open spec fn response_shape(json: JsonView) -> Option<VenmoChargeCreateResponseView> {
    match success_shape(json) {
        Some(data) => Some(VenmoChargeCreateResponseView::DataResponse { data }),
        None => match error_shape(json) {
            Some(error) => Some(VenmoChargeCreateResponseView::ErrorResponse { error }),
            None => None,
        },
    }
}

/// The mathematical value of an optional item of the answer.
pub open spec fn optional_view<T: View>(item: Option<T>) -> Option<T::V> {
    match item {
        Some(inner) => Some(inner@),
        None => None,
    }
}

/// Reads the string stored under `key`.
fn read_text_member(value: &serde_json::Value, key: &str) -> (text: Option<String>)
    ensures
        optional_text(text) == json_view(*value).text_member(key@),
{
    match member_of(value, key) {
        Some(inner) => match inner.as_str() {
            Some(characters) => Some(characters.to_owned()),
            None => None,
        },
        None => None,
    }
}

/// Reads the number stored under `key`.
fn read_number_member(value: &serde_json::Value, key: &str) -> (number: Option<serde_json::Number>)
    ensures
        number == json_view(*value).number_member(key@),
{
    match member_of(value, key) {
        Some(inner) => match inner.as_number() {
            Some(number) => Some(number.clone()),
            None => None,
        },
        None => None,
    }
}

impl VenmoPayment {
    /// Reads a payment from the object that describes it.
    pub fn from_document(document: &serde_json::Value) -> (payment: Option<VenmoPayment>)
        ensures
            optional_view(payment) == payment_shape(json_view(*document)),
    {
        let id = read_text_member(document, "id");
        let status = read_text_member(document, "status");
        let action = read_text_member(document, "action");
        match (id, status, action) {
            (Some(id), Some(status), Some(action)) => Some(VenmoPayment { id, status, action }),
            _ => None,
        }
    }
}

impl VenmoChargeCreateResponseData {
    /// Reads charge data from the object that describes it.
    pub fn from_document(document: &serde_json::Value) -> (data: Option<
        VenmoChargeCreateResponseData,
    >)
        ensures
            optional_view(data) == data_shape(json_view(*document)),
    {
        let balance = read_number_member(document, "balance");
        let payment = match member_of(document, "payment") {
            Some(inner) => VenmoPayment::from_document(inner),
            None => None,
        };
        match (balance, payment) {
            (Some(balance), Some(payment)) => Some(
                VenmoChargeCreateResponseData { balance, payment },
            ),
            _ => None,
        }
    }
}

impl VenmoChargeCreateResponseError {
    /// Reads a reported error from the object that describes it.
    pub fn from_document(document: &serde_json::Value) -> (error: Option<
        VenmoChargeCreateResponseError,
    >)
        ensures
            optional_view(error) == service_error_shape(json_view(*document)),
    {
        let message = read_text_member(document, "message");
        let code = read_text_member(document, "code");
        match (message, code) {
            (Some(message), Some(code)) => Some(VenmoChargeCreateResponseError { message, code }),
            _ => None,
        }
    }
}

impl VenmoChargeCreateResponse {
    /// Recognises a whole body by its shape. The shape of a success is tried
    /// first, then that of a reported error; a body with neither is no answer.
    pub fn from_document(document: &serde_json::Value) -> (response: Option<
        VenmoChargeCreateResponse,
    >)
        ensures
            optional_view(response) == response_shape(json_view(*document)),
    {
        let data = match member_of(document, "data") {
            Some(inner) => VenmoChargeCreateResponseData::from_document(inner),
            None => None,
        };
        if let Some(data) = data {
            return Some(VenmoChargeCreateResponse::DataResponse { data });
        }
        let error = match member_of(document, "error") {
            Some(inner) => VenmoChargeCreateResponseError::from_document(inner),
            None => None,
        };
        match error {
            Some(error) => Some(VenmoChargeCreateResponse::ErrorResponse { error }),
            None => None,
        }
    }
}

} // verus!
