//! The parameters of a charge as they go on the wire.

use vstd::prelude::*;
use crate::target::{TargetIdentity, VenmoPaymentTargetUniqueId};

verus! {

/// Root of the service's API.
pub const VENMO_BASE_URL: &'static str = "https://api.venmo.com/v1";

/// Path of the payments endpoint below [`VENMO_BASE_URL`].
pub const VENMO_PAYMENTS_PATH: &'static str = "/payments";

/// The only audience a charge is ever created with.
pub const PRIVATE_AUDIENCE_PARAM_VALUE: &'static str = "private";

/// The request body before it is written as JSON. Of `phone`, `email` and
/// `user_id`, the ones that are `None` do not appear in the body at all.
#[derive(Debug, PartialEq)]
pub struct VenmoChargeCreateParameters {
    pub phone: Option<String>,
    pub email: Option<String>,
    pub user_id: Option<String>,
    /// The amount in hundredths of the currency unit. On the wire it is the
    /// decimal number `amount_hundredths / 100`.
    pub amount_hundredths: u32,
    pub access_token: String,
    pub note: String,
    pub audience: String,
}

/// The characters of an optional string.
pub open spec fn optional_text(text: Option<String>) -> Option<Seq<char>> {
    match text {
        Some(characters) => Some(characters@),
        None => None,
    }
}

/// Mathematical value of [`VenmoChargeCreateParameters`].
pub struct WireParameters {
    pub phone: Option<Seq<char>>,
    pub email: Option<Seq<char>>,
    pub user_id: Option<Seq<char>>,
    pub amount_hundredths: u32,
    pub access_token: Seq<char>,
    pub note: Seq<char>,
    pub audience: Seq<char>,
}

impl View for VenmoChargeCreateParameters {
    type V = WireParameters;

    open spec fn view(&self) -> WireParameters {
        WireParameters {
            phone: optional_text(self.phone),
            email: optional_text(self.email),
            user_id: optional_text(self.user_id),
            amount_hundredths: self.amount_hundredths,
            access_token: self.access_token@,
            note: self.note@,
            audience: self.audience@,
        }
    }
}

impl TargetIdentity {
    /// The phone number, where the target is one.
    pub open spec fn phone(self) -> Option<Seq<char>> {
        match self {
            TargetIdentity::PhoneNumber(number) => Some(number),
            _ => None,
        }
    }

    /// The email address, where the target is one.
    pub open spec fn email(self) -> Option<Seq<char>> {
        match self {
            TargetIdentity::Email(address) => Some(address),
            _ => None,
        }
    }

    /// The user id, where the target is one.
    pub open spec fn user_id(self) -> Option<Seq<char>> {
        match self {
            TargetIdentity::UserId(id) => Some(id),
            _ => None,
        }
    }
}

impl WireParameters {
    /// How many of the three identity fields are set.
    pub open spec fn identities_set(self) -> nat {
        (if self.phone.is_some() { 1nat } else { 0nat })
            + (if self.email.is_some() { 1nat } else { 0nat })
            + (if self.user_id.is_some() { 1nat } else { 0nat })
    }

    /// Parameters that the service accepts for a charge: one party is
    /// named, and the audience is private.
    pub open spec fn well_formed(self) -> bool {
        &&& self.identities_set() == 1
        &&& self.audience == PRIVATE_AUDIENCE_PARAM_VALUE@
    }
}

/// The parameters that charge `target` for `cents` hundredths on behalf of the
/// holder of `access_token`.
pub open spec fn charge_parameters(
    access_token: Seq<char>,
    cents: u32,
    target: TargetIdentity,
    note: Seq<char>,
) -> WireParameters {
    WireParameters {
        phone: target.phone(),
        email: target.email(),
        user_id: target.user_id(),
        amount_hundredths: cents,
        access_token,
        note,
        audience: PRIVATE_AUDIENCE_PARAM_VALUE@,
    }
}

/// Lowers a charge to the parameters of the request: the target fills the one
/// identity field of its kind, and the audience is always private.
pub fn create_venmo_charge_create_params(
    access_token: String,
    charge_amount_in_cents: u32,
    venmo_unique_id: VenmoPaymentTargetUniqueId,
    note_text: String,
) -> (params: VenmoChargeCreateParameters)
    ensures
        params@ == charge_parameters(
            access_token@,
            charge_amount_in_cents,
            venmo_unique_id@,
            note_text@,
        ),
        params@.well_formed(),
{
    let audience: String = PRIVATE_AUDIENCE_PARAM_VALUE.to_owned();

    match venmo_unique_id {
        VenmoPaymentTargetUniqueId::PhoneNumber(phone_number) => VenmoChargeCreateParameters {
            phone: Some(phone_number),
            email: None,
            user_id: None,
            amount_hundredths: charge_amount_in_cents,
            access_token,
            note: note_text,
            audience,
        },
        VenmoPaymentTargetUniqueId::Email(email) => VenmoChargeCreateParameters {
            phone: None,
            email: Some(email),
            user_id: None,
            amount_hundredths: charge_amount_in_cents,
            access_token,
            note: note_text,
            audience,
        },
        VenmoPaymentTargetUniqueId::UserId(user_id) => VenmoChargeCreateParameters {
            phone: None,
            email: None,
            user_id: Some(user_id),
            amount_hundredths: charge_amount_in_cents,
            access_token,
            note: note_text,
            audience,
        },
    }
}

} // verus!
