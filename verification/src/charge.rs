//! A charge from start to end: the request that goes out, what can come
//! back, and what that means for the caller.
//!
//! Sending is the caller's part. It is handed in as a function from the
//! request to what came back, so that the same code runs against the real
//! service and against a stand-in.

use vstd::prelude::*;
use crate::error::{
    invalid_data_error, unknown_shape_details, unreadable_body, unreadable_message,
    VenmoChargeCreateError, VenmoChargeCreateErrorView,
};
use crate::json::{json_view, parse_document, parsed_json, parser_account, JsonView};
use crate::parameters::{
    charge_parameters, create_venmo_charge_create_params, VENMO_BASE_URL, VENMO_PAYMENTS_PATH,
};
use crate::response::{
    error_shape, optional_view, response_shape, success_shape, VenmoChargeCreateResponse,
    VenmoChargeCreateResponseData, VenmoChargeCreateResponseDataView,
    VenmoChargeCreateResponseErrorView, VenmoChargeCreateResponseView,
};
use crate::target::{TargetIdentity, VenmoCharge, VenmoPaymentTargetUniqueId};
use crate::wire::{member_views, WireMember, WireMemberView};

verus! {

/// What is to be sent: an HTTP POST to `url` with a JSON object of the
/// members in `body`.
#[derive(Debug, PartialEq)]
pub struct VenmoChargeRequest {
    pub url: String,
    pub body: Vec<WireMember>,
}

/// Mathematical value of a [`VenmoChargeRequest`].
pub struct VenmoChargeRequestView {
    pub url: Seq<char>,
    pub body: Seq<WireMemberView>,
}

impl View for VenmoChargeRequest {
    type V = VenmoChargeRequestView;

    open spec fn view(&self) -> VenmoChargeRequestView {
        VenmoChargeRequestView { url: self.url@, body: member_views(self.body@) }
    }
}

/// What came of sending a request.
#[derive(Debug)]
pub enum VenmoChargeExchange {
    /// No answer that the HTTP client accepts: the connection failed, or the
    /// status was one of failure.
    TransportFailed(ureq::Error),
    /// An answer came, but reading its body failed.
    BodyUnread(std::io::Error),
    /// The bytes of the answer's body.
    BodyRead(Vec<u8>),
}

/// Mathematical value of a [`VenmoChargeExchange`].
pub enum VenmoChargeExchangeView {
    TransportFailed(ureq::Error),
    BodyUnread(std::io::Error),
    BodyRead(Seq<u8>),
}

impl View for VenmoChargeExchange {
    type V = VenmoChargeExchangeView;

    open spec fn view(&self) -> VenmoChargeExchangeView {
        match *self {
            VenmoChargeExchange::TransportFailed(cause) => {
                VenmoChargeExchangeView::TransportFailed(cause)
            },
            VenmoChargeExchange::BodyUnread(cause) => VenmoChargeExchangeView::BodyUnread(cause),
            VenmoChargeExchange::BodyRead(body) => VenmoChargeExchangeView::BodyRead(body@),
        }
    }
}

/// How a charge ended: the mathematical value of its result.
pub enum ChargeOutcome {
    /// The service created the charge.
    Success(VenmoChargeCreateResponseDataView),
    /// The service refused, and said why.
    ServiceError(VenmoChargeCreateResponseErrorView),
    /// An answer came that could not be read as one; the cause says why not.
    ParseError(std::io::Error),
    /// No answer came; the cause says why not.
    TransportError(ureq::Error),
}

/// How a result ended.
pub open spec fn outcome_of(
    result: Result<VenmoChargeCreateResponseData, VenmoChargeCreateError>,
) -> ChargeOutcome {
    match result {
        Ok(data) => ChargeOutcome::Success(data@),
        Err(VenmoChargeCreateError::WithinResponse(error)) => ChargeOutcome::ServiceError(error@),
        Err(VenmoChargeCreateError::JsonParse(cause)) => ChargeOutcome::ParseError(cause),
        Err(VenmoChargeCreateError::CallResponse(cause)) => ChargeOutcome::TransportError(cause),
    }
}

/// The failure of an outcome, where it is one.
pub open spec fn failure_of_outcome(outcome: ChargeOutcome) -> Option<VenmoChargeCreateErrorView> {
    match outcome {
        ChargeOutcome::Success(_) => None,
        ChargeOutcome::ServiceError(error) => Some(
            VenmoChargeCreateErrorView::WithinResponse(error),
        ),
        ChargeOutcome::ParseError(cause) => Some(VenmoChargeCreateErrorView::JsonParse(cause)),
        ChargeOutcome::TransportError(cause) => Some(
            VenmoChargeCreateErrorView::CallResponse(cause),
        ),
    }
}

/// The parse failure whose cause is invalid data with `details` in its
/// message.
pub open spec fn unreadable_outcome(details: Seq<char>) -> ChargeOutcome {
    ChargeOutcome::ParseError(invalid_data_error(unreadable_message(details)))
}

/// What a JSON document means as an answer.
pub open spec fn document_outcome(json: JsonView) -> ChargeOutcome {
    match response_shape(json) {
        Some(VenmoChargeCreateResponseView::DataResponse { data }) => ChargeOutcome::Success(data),
        Some(VenmoChargeCreateResponseView::ErrorResponse { error }) => {
            ChargeOutcome::ServiceError(error)
        },
        None => unreadable_outcome(unknown_shape_details()),
    }
}

/// What a body means as an answer, given what the JSON parser made of it: a
/// document decides by its shape, and the parser's error is a parse failure
/// that keeps the parser's account.
pub open spec fn body_outcome(parsed: Result<JsonView, Seq<char>>) -> ChargeOutcome {
    match parsed {
        Ok(json) => document_outcome(json),
        Err(account) => unreadable_outcome(account),
    }
}

/// What an exchange comes to. A failed transport and an unread body end the
/// charge with their own cause, and no body is looked at; a body decides by
/// what it holds.
pub open spec fn exchange_outcome(exchange: VenmoChargeExchangeView) -> ChargeOutcome {
    match exchange {
        VenmoChargeExchangeView::TransportFailed(cause) => ChargeOutcome::TransportError(cause),
        VenmoChargeExchangeView::BodyUnread(cause) => ChargeOutcome::ParseError(cause),
        VenmoChargeExchangeView::BodyRead(body) => body_outcome(parsed_json(body)),
    }
}

/// Whether `result` is what `exchange` comes to.
pub open spec fn concludes(
    exchange: VenmoChargeExchange,
    result: Result<VenmoChargeCreateResponseData, VenmoChargeCreateError>,
) -> bool {
    outcome_of(result) == exchange_outcome(exchange@)
}

/// The error of a result, where it has one.
pub open spec fn failure_of(
    result: Result<VenmoChargeCreateResponseData, VenmoChargeCreateError>,
) -> Option<VenmoChargeCreateError> {
    match result {
        Ok(_) => None,
        Err(error) => Some(error),
    }
}

/// The address of the payments endpoint.
pub open spec fn payments_url_text() -> Seq<char> {
    VENMO_BASE_URL@ + VENMO_PAYMENTS_PATH@
}

/// The request that charges `target` for `cents` hundredths.
pub open spec fn charge_request(
    access_token: Seq<char>,
    cents: u32,
    target: TargetIdentity,
    note: Seq<char>,
) -> VenmoChargeRequestView {
    VenmoChargeRequestView {
        url: payments_url_text(),
        body: charge_parameters(access_token, cents, target, note).members(),
    }
}

/// A transport failure ends the charge as a transport error that carries
/// the cause unchanged. No body has a say in it: there is none to look at.
pub proof fn lemma_transport_failure_is_final(
    cause: ureq::Error,
    result: Result<VenmoChargeCreateResponseData, VenmoChargeCreateError>,
)
    requires
        concludes(VenmoChargeExchange::TransportFailed(cause), result),
    ensures
        outcome_of(result) == ChargeOutcome::TransportError(cause),
        failure_of(result) == Some(VenmoChargeCreateError::CallResponse(cause)),
{
}

/// The two shapes are tried in order. A document with the shape of a success
/// is one, even where it also holds an error; a document is a reported error
/// only where it has not the shape of a success; a document with neither
/// shape is a parse failure that says so.
pub proof fn lemma_shapes_in_order(json: JsonView)
    ensures
        success_shape(json) matches Some(data) ==> document_outcome(json)
            == ChargeOutcome::Success(data),
        success_shape(json) is None ==> (error_shape(json) matches Some(error)
            ==> document_outcome(json) == ChargeOutcome::ServiceError(error)),
        success_shape(json) is None && error_shape(json) is None ==> document_outcome(json)
            == unreadable_outcome(unknown_shape_details()),
{
}

/// A body that was read ends the charge in a parse failure exactly where the
/// parser rejects it or the document has neither shape; and never in a
/// transport error.
pub proof fn lemma_body_outcomes(parsed: Result<JsonView, Seq<char>>)
    ensures
        !(body_outcome(parsed) is TransportError),
        body_outcome(parsed) is ParseError <==> (parsed matches Ok(json) ==> success_shape(json)
            is None && error_shape(json) is None),
{
}

/// The outcome says all of a failed result: which kind of failure it is, and
/// with which cause.
pub proof fn lemma_outcome_fixes_the_failure(
    result: Result<VenmoChargeCreateResponseData, VenmoChargeCreateError>,
)
    ensures
        optional_view(failure_of(result)) == failure_of_outcome(outcome_of(result)),
        outcome_of(result) matches ChargeOutcome::ParseError(cause) ==> result == Err::<
            VenmoChargeCreateResponseData,
            VenmoChargeCreateError,
        >(VenmoChargeCreateError::JsonParse(cause)),
        outcome_of(result) matches ChargeOutcome::TransportError(cause) ==> result == Err::<
            VenmoChargeCreateResponseData,
            VenmoChargeCreateError,
        >(VenmoChargeCreateError::CallResponse(cause)),
{
}

/// Answers that are alike end alike: nothing but what came back decides how
/// a charge ends. Two exchanges with the same cause, or with the same bytes
/// in the body, give the same success, or the same kind of failure with the
/// same content.
pub proof fn lemma_like_answers_end_alike(
    first: VenmoChargeExchange,
    first_result: Result<VenmoChargeCreateResponseData, VenmoChargeCreateError>,
    second: VenmoChargeExchange,
    second_result: Result<VenmoChargeCreateResponseData, VenmoChargeCreateError>,
)
    requires
        first@ == second@,
        concludes(first, first_result),
        concludes(second, second_result),
    ensures
        outcome_of(first_result) == outcome_of(second_result),
        optional_view(failure_of(first_result)) == optional_view(failure_of(second_result)),
{
    lemma_outcome_fixes_the_failure(first_result);
    lemma_outcome_fixes_the_failure(second_result);
}

/// The address of the payments endpoint: the base and the path, joined as
/// they stand.
pub fn payments_url() -> (url: String)
    ensures
        url@ == payments_url_text(),
{
    VENMO_BASE_URL.to_owned().concat(VENMO_PAYMENTS_PATH)
}

/// Builds the request for a charge.
pub fn prepare_payment_charge(
    access_token: String,
    charge_amount_in_cents: u32,
    venmo_unique_id: VenmoPaymentTargetUniqueId,
    note_text: String,
) -> (request: VenmoChargeRequest)
    ensures
        request@ == charge_request(
            access_token@,
            charge_amount_in_cents,
            venmo_unique_id@,
            note_text@,
        ),
{
    let params = create_venmo_charge_create_params(
        access_token,
        charge_amount_in_cents,
        venmo_unique_id,
        note_text,
    );
    VenmoChargeRequest { url: payments_url(), body: params.into_members() }
}

/// Turns a well-formed answer into the caller's result: data is success, a
/// reported error is a failure of its own kind.
pub fn classify_response(response: VenmoChargeCreateResponse) -> (result: Result<
    VenmoChargeCreateResponseData,
    VenmoChargeCreateError,
>)
    ensures
        match response {
            VenmoChargeCreateResponse::DataResponse { data } => result == Ok::<
                VenmoChargeCreateResponseData,
                VenmoChargeCreateError,
            >(data),
            VenmoChargeCreateResponse::ErrorResponse { error } => result == Err::<
                VenmoChargeCreateResponseData,
                VenmoChargeCreateError,
            >(VenmoChargeCreateError::WithinResponse(error)),
        },
{
    match response {
        VenmoChargeCreateResponse::DataResponse { data } => Ok(data),
        VenmoChargeCreateResponse::ErrorResponse { error } => Err(
            VenmoChargeCreateError::WithinResponse(error),
        ),
    }
}

/// Says what the JSON parser's finding on a body means: a document of either
/// shape is that answer; a document of neither is a parse failure that says
/// so; an error of the parser is a parse failure that keeps its account.
pub fn interpret_document(parsed: Result<serde_json::Value, serde_json::Error>) -> (result: Result<
    VenmoChargeCreateResponseData,
    VenmoChargeCreateError,
>)
    ensures
        outcome_of(result) == match parsed {
            Ok(document) => document_outcome(json_view(document)),
            Err(cause) => unreadable_outcome(parser_account(cause)),
        },
        parsed matches Ok(document) && response_shape(json_view(document)) is None ==> result
            == Err::<VenmoChargeCreateResponseData, VenmoChargeCreateError>(
            unreadable_body(unknown_shape_details()),
        ),
        parsed matches Err(cause) ==> result == Err::<
            VenmoChargeCreateResponseData,
            VenmoChargeCreateError,
        >(unreadable_body(parser_account(cause))),
{
    match parsed {
        Ok(document) => match VenmoChargeCreateResponse::from_document(&document) {
            Some(response) => classify_response(response),
            None => Err(VenmoChargeCreateError::unknown_shape()),
        },
        Err(cause) => Err(VenmoChargeCreateError::malformed_body(cause)),
    }
}

/// Reads the body of an answer.
pub fn interpret_response_body(body: &[u8]) -> (result: Result<
    VenmoChargeCreateResponseData,
    VenmoChargeCreateError,
>)
    ensures
        outcome_of(result) == body_outcome(parsed_json(body@)),
{
    interpret_document(parse_document(body))
}

/// Says how a charge ended, given what came of sending its request.
pub fn conclude_payment_charge(exchange: VenmoChargeExchange) -> (result: Result<
    VenmoChargeCreateResponseData,
    VenmoChargeCreateError,
>)
    ensures
        concludes(exchange, result),
{
    match exchange {
        VenmoChargeExchange::TransportFailed(cause) => Err(VenmoChargeCreateError::from(cause)),
        VenmoChargeExchange::BodyUnread(cause) => Err(VenmoChargeCreateError::from(cause)),
        VenmoChargeExchange::BodyRead(body) => interpret_response_body(body.as_slice()),
    }
}

/// Creates a charge: builds the request, has `send` carry it to the service
/// once, and says how it ended.
pub fn execute_payment_charge_request<F>(
    access_token: String,
    charge_amount_in_cents: u32,
    venmo_unique_id: VenmoPaymentTargetUniqueId,
    note_text: String,
    send: F,
) -> (result: Result<VenmoChargeCreateResponseData, VenmoChargeCreateError>) where
    F: FnOnce(VenmoChargeRequest) -> VenmoChargeExchange,

    requires
        forall|request: VenmoChargeRequest|
            request@ == charge_request(
                access_token@,
                charge_amount_in_cents,
                venmo_unique_id@,
                note_text@,
            ) ==> call_requires(send, (request,)),
    ensures
        exists|request: VenmoChargeRequest, exchange: VenmoChargeExchange|
            {
                &&& request@ == charge_request(
                    access_token@,
                    charge_amount_in_cents,
                    venmo_unique_id@,
                    note_text@,
                )
                &&& #[trigger] call_ensures(send, (request,), exchange)
                &&& concludes(exchange, result)
            },
{
    let request = prepare_payment_charge(
        access_token,
        charge_amount_in_cents,
        venmo_unique_id,
        note_text,
    );
    let ghost sent = request;
    let exchange = send(request);
    let ghost returned = exchange;
    let result = conclude_payment_charge(exchange);
    assert(call_ensures(send, (sent,), returned) && concludes(returned, result));
    result
}

/// Creates a charge and reports only whether it failed: `None` says that the
/// service created it.
pub fn create_venmo_payment_charge<F>(
    access_token: String,
    venmo_charge: VenmoCharge,
    send: F,
) -> (failure: Option<VenmoChargeCreateError>) where
    F: FnOnce(VenmoChargeRequest) -> VenmoChargeExchange,

    requires
        forall|request: VenmoChargeRequest|
            request@ == charge_request(
                access_token@,
                venmo_charge@.charge_amount_in_cents,
                venmo_charge@.target_unique_id,
                venmo_charge@.note_text,
            ) ==> call_requires(send, (request,)),
    ensures
        exists|
            request: VenmoChargeRequest,
            exchange: VenmoChargeExchange,
            result: Result<VenmoChargeCreateResponseData, VenmoChargeCreateError>,
        |
            {
                &&& request@ == charge_request(
                    access_token@,
                    venmo_charge@.charge_amount_in_cents,
                    venmo_charge@.target_unique_id,
                    venmo_charge@.note_text,
                )
                &&& #[trigger] call_ensures(send, (request,), exchange)
                &&& #[trigger] concludes(exchange, result)
                &&& failure == failure_of(result)
            },
{
    let VenmoCharge { charge_amount_in_cents, target_unique_id, note_text } = venmo_charge;
    let result = execute_payment_charge_request(
        access_token,
        charge_amount_in_cents,
        target_unique_id,
        note_text,
        send,
    );
    match result {
        Ok(_) => None,
        Err(error) => Some(error),
    }
}

} // verus!
