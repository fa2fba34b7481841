//! Whom a charge is addressed to, and the charge a caller describes.

use vstd::prelude::*;

verus! {

/// The one identifier by which the service finds the other party.
#[derive(Debug, PartialEq)]
pub enum VenmoPaymentTargetUniqueId {
    PhoneNumber(String),
    Email(String),
    UserId(String),
}

/// Mathematical value of a [`VenmoPaymentTargetUniqueId`]: the kind of
/// identifier and its characters.
pub enum TargetIdentity {
    PhoneNumber(Seq<char>),
    Email(Seq<char>),
    UserId(Seq<char>),
}

impl View for VenmoPaymentTargetUniqueId {
    type V = TargetIdentity;

    open spec fn view(&self) -> TargetIdentity {
        match *self {
            VenmoPaymentTargetUniqueId::PhoneNumber(number) => TargetIdentity::PhoneNumber(number@),
            VenmoPaymentTargetUniqueId::Email(address) => TargetIdentity::Email(address@),
            VenmoPaymentTargetUniqueId::UserId(id) => TargetIdentity::UserId(id@),
        }
    }
}

/// A charge as the caller describes it: how much, from whom, and why.
#[derive(Debug)]
pub struct VenmoCharge {
    /// The amount in hundredths of the currency unit.
    pub charge_amount_in_cents: u32,
    pub target_unique_id: VenmoPaymentTargetUniqueId,
    /// Free text shown with the charge; may be empty.
    pub note_text: String,
}

/// Mathematical value of a [`VenmoCharge`].
pub struct VenmoChargeView {
    pub charge_amount_in_cents: u32,
    pub target_unique_id: TargetIdentity,
    pub note_text: Seq<char>,
}

impl View for VenmoCharge {
    type V = VenmoChargeView;

    open spec fn view(&self) -> VenmoChargeView {
        VenmoChargeView {
            charge_amount_in_cents: self.charge_amount_in_cents,
            target_unique_id: self.target_unique_id@,
            note_text: self.note_text@,
        }
    }
}

} // verus!
