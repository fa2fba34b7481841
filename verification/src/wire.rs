//! The members of the JSON object that carries a charge to the service.

use vstd::prelude::*;
use crate::parameters::{
    charge_parameters, VenmoChargeCreateParameters, WireParameters, PRIVATE_AUDIENCE_PARAM_VALUE,
};
use crate::target::TargetIdentity;

verus! {

/// The value of one member of the request body.
#[derive(Debug, PartialEq)]
pub enum WireValue {
    /// A JSON string.
    Text(String),
    /// The decimal number that is this many hundredths: `1000` stands for
    /// ten units, `1` for a hundredth of one.
    Hundredths(u32),
}

/// Mathematical value of a [`WireValue`].
pub enum WireValueView {
    Text(Seq<char>),
    Hundredths(u32),
}

impl View for WireValue {
    type V = WireValueView;

    open spec fn view(&self) -> WireValueView {
        match *self {
            WireValue::Text(text) => WireValueView::Text(text@),
            WireValue::Hundredths(count) => WireValueView::Hundredths(count),
        }
    }
}

/// One member of the request body: a key and what is stored under it.
#[derive(Debug, PartialEq)]
pub struct WireMember {
    pub key: String,
    pub value: WireValue,
}

/// Mathematical value of a [`WireMember`].
pub struct WireMemberView {
    pub key: Seq<char>,
    pub value: WireValueView,
}

impl View for WireMember {
    type V = WireMemberView;

    open spec fn view(&self) -> WireMemberView {
        WireMemberView { key: self.key@, value: self.value@ }
    }
}

/// The mathematical values of a list of members, in the list's order.
pub open spec fn member_views(members: Seq<WireMember>) -> Seq<WireMemberView> {
    Seq::new(members.len(), |i: int| members[i]@)
}

/// A string member.
pub open spec fn text_member(key: Seq<char>, text: Seq<char>) -> WireMemberView {
    WireMemberView { key, value: WireValueView::Text(text) }
}

/// The member for an optional string: one member where the string is there,
/// none at all where it is not.
pub open spec fn optional_member(key: Seq<char>, text: Option<Seq<char>>) -> Seq<WireMemberView> {
    match text {
        Some(characters) => seq![text_member(key, characters)],
        None => Seq::empty(),
    }
}

/// What is stored under `key` in a list of members: the value of the first
/// member with that key, or `None` where no member has it.
pub open spec fn lookup(members: Seq<WireMemberView>, key: Seq<char>) -> Option<WireValueView>
    decreases members.len(),
{
    if members.len() == 0 {
        None
    } else if members[0].key == key {
        Some(members[0].value)
    } else {
        lookup(members.drop_first(), key)
    }
}

impl WireParameters {
    /// The members of the request body, in the order they are written.
    pub open spec fn members(self) -> Seq<WireMemberView> {
        optional_member("phone"@, self.phone)
            + optional_member("email"@, self.email)
            + optional_member("user_id"@, self.user_id)
            + seq![
                WireMemberView {
                    key: "amount"@,
                    value: WireValueView::Hundredths(self.amount_hundredths),
                },
                text_member("access_token"@, self.access_token),
                text_member("note"@, self.note),
                text_member("audience"@, self.audience),
            ]
    }
}

/// The value that an optional string is stored as.
pub open spec fn optional_value(text: Option<Seq<char>>) -> Option<WireValueView> {
    match text {
        Some(characters) => Some(WireValueView::Text(characters)),
        None => None,
    }
}

impl WireParameters {
    /// What the parameters hold for `key`: an identity that is set, the
    /// amount and the three strings that are always there, each under its own
    /// key, and nothing under any other.
    pub open spec fn stored_under(self, key: Seq<char>) -> Option<WireValueView> {
        if key == "phone"@ {
            optional_value(self.phone)
        } else if key == "email"@ {
            optional_value(self.email)
        } else if key == "user_id"@ {
            optional_value(self.user_id)
        } else if key == "amount"@ {
            Some(WireValueView::Hundredths(self.amount_hundredths))
        } else if key == "access_token"@ {
            Some(WireValueView::Text(self.access_token))
        } else if key == "note"@ {
            Some(WireValueView::Text(self.note))
        } else if key == "audience"@ {
            Some(WireValueView::Text(self.audience))
        } else {
            None
        }
    }
}

/// Looking a key up in two lists joined is looking it up in the first, and
/// in the second where the first has nothing under it.
proof fn lemma_lookup_joined(
    front: Seq<WireMemberView>,
    back: Seq<WireMemberView>,
    key: Seq<char>,
)
    ensures
        lookup(front + back, key) == match lookup(front, key) {
            Some(value) => Some(value),
            None => lookup(back, key),
        },
    decreases front.len(),
{
    if front.len() == 0 {
        assert(front + back =~= back);
    } else {
        assert((front + back).drop_first() =~= front.drop_first() + back);
        lemma_lookup_joined(front.drop_first(), back, key);
    }
}

/// The keys of the request body differ: in length, but for `phone` and
/// `email`, which differ in their first letter.
proof fn lemma_keys_differ()
    ensures
        "phone"@ != "email"@,
        "phone"@.len() == 5,
        "email"@.len() == 5,
        "user_id"@.len() == 7,
        "amount"@.len() == 6,
        "access_token"@.len() == 12,
        "note"@.len() == 4,
        "audience"@.len() == 8,
{
    reveal_strlit("phone");
    reveal_strlit("email");
    reveal_strlit("user_id");
    reveal_strlit("amount");
    reveal_strlit("access_token");
    reveal_strlit("note");
    reveal_strlit("audience");
    assert("phone"@[0] != "email"@[0]);
}

/// A list of one member holds that member's value under its key, and
/// nothing under any other.
proof fn lemma_lookup_single(member: WireMemberView, key: Seq<char>)
    ensures
        lookup(seq![member], key) == if member.key == key {
            Some(member.value)
        } else {
            None
        },
{
    reveal_with_fuel(lookup, 2);
}

/// The request body says what the parameters hold and no more: under each
/// key stands what the parameters hold for it, and an identity that is not
/// set has no member, not even an empty one.
pub proof fn lemma_members_table(params: WireParameters, key: Seq<char>)
    ensures
        lookup(params.members(), key) == params.stored_under(key),
{
    let phone = optional_member("phone"@, params.phone);
    let email = optional_member("email"@, params.email);
    let user_id = optional_member("user_id"@, params.user_id);
    let amount = WireMemberView {
        key: "amount"@,
        value: WireValueView::Hundredths(params.amount_hundredths),
    };
    let access_token = text_member("access_token"@, params.access_token);
    let note = text_member("note"@, params.note);
    let audience = text_member("audience"@, params.audience);
    let always = seq![amount, access_token, note, audience];
    assert(always =~= seq![amount] + (seq![access_token] + (seq![note] + seq![audience])));
    lemma_lookup_joined(phone + email + user_id, always, key);
    lemma_lookup_joined(phone + email, user_id, key);
    lemma_lookup_joined(phone, email, key);
    lemma_lookup_joined(seq![amount], seq![access_token] + (seq![note] + seq![audience]), key);
    lemma_lookup_joined(seq![access_token], seq![note] + seq![audience], key);
    lemma_lookup_joined(seq![note], seq![audience], key);
    lemma_lookup_single(amount, key);
    lemma_lookup_single(access_token, key);
    lemma_lookup_single(note, key);
    lemma_lookup_single(audience, key);
    if params.phone is Some {
        lemma_lookup_single(text_member("phone"@, params.phone.unwrap()), key);
    }
    if params.email is Some {
        lemma_lookup_single(text_member("email"@, params.email.unwrap()), key);
    }
    if params.user_id is Some {
        lemma_lookup_single(text_member("user_id"@, params.user_id.unwrap()), key);
    }
    lemma_keys_differ();
}

/// A charge names its target under exactly one key: the key of the target's
/// kind holds the target's text, and the two other identity keys do not
/// occur in the body. The audience is private whatever the charge.
pub proof fn lemma_one_identity_on_the_wire(
    access_token: Seq<char>,
    cents: u32,
    target: TargetIdentity,
    note: Seq<char>,
)
    ensures
        ({
            let body = charge_parameters(access_token, cents, target, note).members();
            &&& body.len() == 5
            &&& lookup(body, "phone"@) == optional_value(target.phone())
            &&& lookup(body, "email"@) == optional_value(target.email())
            &&& lookup(body, "user_id"@) == optional_value(target.user_id())
            &&& lookup(body, "audience"@) == Some(
                WireValueView::Text(PRIVATE_AUDIENCE_PARAM_VALUE@),
            )
            &&& match target {
                TargetIdentity::PhoneNumber(_) => {
                    &&& lookup(body, "phone"@) is Some
                    &&& lookup(body, "email"@) is None
                    &&& lookup(body, "user_id"@) is None
                },
                TargetIdentity::Email(_) => {
                    &&& lookup(body, "phone"@) is None
                    &&& lookup(body, "email"@) is Some
                    &&& lookup(body, "user_id"@) is None
                },
                TargetIdentity::UserId(_) => {
                    &&& lookup(body, "phone"@) is None
                    &&& lookup(body, "email"@) is None
                    &&& lookup(body, "user_id"@) is Some
                },
            }
        }),
{
    let params = charge_parameters(access_token, cents, target, note);
    lemma_keys_differ();
    lemma_members_table(params, "phone"@);
    lemma_members_table(params, "email"@);
    lemma_members_table(params, "user_id"@);
    lemma_members_table(params, "audience"@);
}

impl VenmoChargeCreateParameters {
    /// Lays the parameters out as the members of the request body. An
    /// identity field that is `None` gets no member.
    pub fn into_members(self) -> (members: Vec<WireMember>)
        ensures
            member_views(members@) == self@.members(),
    {
        let mut members: Vec<WireMember> = Vec::new();
        if let Some(phone) = self.phone {
            members.push(WireMember { key: "phone".to_owned(), value: WireValue::Text(phone) });
        }
        if let Some(email) = self.email {
            members.push(WireMember { key: "email".to_owned(), value: WireValue::Text(email) });
        }
        if let Some(user_id) = self.user_id {
            members.push(
                WireMember { key: "user_id".to_owned(), value: WireValue::Text(user_id) },
            );
        }
        members.push(
            WireMember {
                key: "amount".to_owned(),
                value: WireValue::Hundredths(self.amount_hundredths),
            },
        );
        members.push(
            WireMember {
                key: "access_token".to_owned(),
                value: WireValue::Text(self.access_token),
            },
        );
        members.push(WireMember { key: "note".to_owned(), value: WireValue::Text(self.note) });
        members.push(
            WireMember { key: "audience".to_owned(), value: WireValue::Text(self.audience) },
        );
        assert(member_views(members@) =~= self@.members());
        members
    }
}

} // verus!
