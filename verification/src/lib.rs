//! Builds charge requests for a peer-to-peer payment service and interprets
//! the service's answers.
//!
//! A charge asks another party for money. The caller describes it with a
//! [`VenmoCharge`]; [`create_venmo_payment_charge`] lowers it to the request
//! the service expects, has it sent once, and sorts what comes back into
//! success or one of three kinds of failure.
//!
//! The crate computes; it never touches the network. Sending is handed in
//! as a function from a [`VenmoChargeRequest`] to a [`VenmoChargeExchange`].

pub mod charge;
pub mod error;
pub mod json;
pub mod parameters;
pub mod response;
pub mod target;
pub mod wire;

pub use charge::{
    classify_response, conclude_payment_charge, create_venmo_payment_charge,
    execute_payment_charge_request, interpret_document, interpret_response_body, payments_url,
    prepare_payment_charge, VenmoChargeExchange, VenmoChargeRequest,
};
pub use error::VenmoChargeCreateError;
pub use parameters::{
    create_venmo_charge_create_params, VenmoChargeCreateParameters, PRIVATE_AUDIENCE_PARAM_VALUE,
    VENMO_BASE_URL, VENMO_PAYMENTS_PATH,
};
pub use response::{
    VenmoChargeCreateResponse, VenmoChargeCreateResponseData, VenmoChargeCreateResponseError,
    VenmoPayment,
};
pub use target::{VenmoCharge, VenmoPaymentTargetUniqueId};
pub use wire::{WireMember, WireValue};
