use venmo_charge::{
    create_venmo_charge_create_params, payments_url, prepare_payment_charge, VenmoCharge,
    VenmoChargeCreateParameters, VenmoPaymentTargetUniqueId, WireMember, WireValue,
    PRIVATE_AUDIENCE_PARAM_VALUE, VENMO_BASE_URL, VENMO_PAYMENTS_PATH,
};

fn params_for(target: VenmoPaymentTargetUniqueId) -> VenmoChargeCreateParameters {
    create_venmo_charge_create_params(
        String::from("token-1"),
        1000,
        target,
        String::from("dinner"),
    )
}

fn keys_of(members: &[WireMember]) -> Vec<&str> {
    members.iter().map(|member| member.key.as_str()).collect()
}

fn text(key: &str, value: &str) -> WireMember {
    WireMember { key: String::from(key), value: WireValue::Text(String::from(value)) }
}

#[test]
fn phone_target_sets_only_the_phone() {
    let params = params_for(VenmoPaymentTargetUniqueId::PhoneNumber(String::from("15555550100")));
    assert_eq!(params.phone, Some(String::from("15555550100")));
    assert_eq!(params.email, None);
    assert_eq!(params.user_id, None);
}

#[test]
fn email_target_sets_only_the_email() {
    let params = params_for(VenmoPaymentTargetUniqueId::Email(String::from("pat@example.com")));
    assert_eq!(params.phone, None);
    assert_eq!(params.email, Some(String::from("pat@example.com")));
    assert_eq!(params.user_id, None);
}

#[test]
fn user_id_target_sets_only_the_user_id() {
    let params = params_for(VenmoPaymentTargetUniqueId::UserId(String::from("test_user_id")));
    assert_eq!(params.phone, None);
    assert_eq!(params.email, None);
    assert_eq!(params.user_id, Some(String::from("test_user_id")));
}

#[test]
fn builder_carries_every_input_over() {
    let params = create_venmo_charge_create_params(
        String::from("secret token"),
        12345,
        VenmoPaymentTargetUniqueId::UserId(String::from("u-9")),
        String::from("rent, March"),
    );
    assert_eq!(
        params,
        VenmoChargeCreateParameters {
            phone: None,
            email: None,
            user_id: Some(String::from("u-9")),
            amount_hundredths: 12345,
            access_token: String::from("secret token"),
            note: String::from("rent, March"),
            audience: String::from("private"),
        }
    );
}

#[test]
fn audience_is_private_whatever_the_input() {
    let targets = vec![
        VenmoPaymentTargetUniqueId::PhoneNumber(String::from("public")),
        VenmoPaymentTargetUniqueId::Email(String::from("friends")),
        VenmoPaymentTargetUniqueId::UserId(String::from("")),
    ];
    for target in targets {
        let params = create_venmo_charge_create_params(
            String::from("audience"),
            7,
            target,
            String::from("public"),
        );
        assert_eq!(params.audience, "private");
    }
    assert_eq!(PRIVATE_AUDIENCE_PARAM_VALUE, "private");
}

#[test]
fn amount_is_carried_in_hundredths() {
    let thousand = params_for(VenmoPaymentTargetUniqueId::UserId(String::from("u")));
    assert_eq!(thousand.amount_hundredths, 1000);
    assert_eq!(f64::from(thousand.amount_hundredths) / 100f64, 10.0);

    let one = create_venmo_charge_create_params(
        String::new(),
        1,
        VenmoPaymentTargetUniqueId::UserId(String::from("u")),
        String::new(),
    );
    assert_eq!(one.amount_hundredths, 1);
    assert_eq!(f64::from(one.amount_hundredths) / 100f64, 0.01);

    let zero = create_venmo_charge_create_params(
        String::new(),
        0,
        VenmoPaymentTargetUniqueId::UserId(String::from("u")),
        String::new(),
    );
    assert_eq!(zero.amount_hundredths, 0);
    assert_eq!(f64::from(zero.amount_hundredths) / 100f64, 0.0);
}

#[test]
fn largest_amount_is_not_clipped() {
    let params = create_venmo_charge_create_params(
        String::from("t"),
        u32::MAX,
        VenmoPaymentTargetUniqueId::Email(String::from("e")),
        String::from("n"),
    );
    assert_eq!(params.amount_hundredths, 4_294_967_295);
}

#[test]
fn empty_note_is_kept_as_empty() {
    let params = create_venmo_charge_create_params(
        String::from("t"),
        5,
        VenmoPaymentTargetUniqueId::Email(String::from("e")),
        String::new(),
    );
    assert_eq!(params.note, "");
    let members = params.into_members();
    assert!(members.contains(&text("note", "")));
}

#[test]
fn phone_charge_has_no_email_or_user_id_member() {
    let members =
        params_for(VenmoPaymentTargetUniqueId::PhoneNumber(String::from("15555550100")))
            .into_members();
    assert_eq!(keys_of(&members), vec!["phone", "amount", "access_token", "note", "audience"]);
    assert_eq!(members[0], text("phone", "15555550100"));
}

#[test]
fn email_charge_has_no_phone_or_user_id_member() {
    let members = params_for(VenmoPaymentTargetUniqueId::Email(String::from("pat@example.com")))
        .into_members();
    assert_eq!(keys_of(&members), vec!["email", "amount", "access_token", "note", "audience"]);
    assert_eq!(members[0], text("email", "pat@example.com"));
}

#[test]
fn user_id_charge_has_no_phone_or_email_member() {
    let members =
        params_for(VenmoPaymentTargetUniqueId::UserId(String::from("test_user_id"))).into_members();
    assert_eq!(keys_of(&members), vec!["user_id", "amount", "access_token", "note", "audience"]);
    assert_eq!(members[0], text("user_id", "test_user_id"));
}

#[test]
fn members_hold_amount_token_note_and_audience() {
    let members =
        params_for(VenmoPaymentTargetUniqueId::UserId(String::from("test_user_id"))).into_members();
    assert_eq!(
        members,
        vec![
            text("user_id", "test_user_id"),
            WireMember { key: String::from("amount"), value: WireValue::Hundredths(1000) },
            text("access_token", "token-1"),
            text("note", "dinner"),
            text("audience", "private"),
        ]
    );
}

#[test]
fn members_list_whatever_identity_is_set() {
    let none = VenmoChargeCreateParameters {
        phone: None,
        email: None,
        user_id: None,
        amount_hundredths: 3,
        access_token: String::from("t"),
        note: String::from("n"),
        audience: String::from("private"),
    };
    assert_eq!(keys_of(&none.into_members()), vec!["amount", "access_token", "note", "audience"]);

    let all = VenmoChargeCreateParameters {
        phone: Some(String::from("1")),
        email: Some(String::from("2")),
        user_id: Some(String::from("3")),
        amount_hundredths: 3,
        access_token: String::from("t"),
        note: String::from("n"),
        audience: String::from("private"),
    };
    assert_eq!(
        keys_of(&all.into_members()),
        vec!["phone", "email", "user_id", "amount", "access_token", "note", "audience"]
    );
}

#[test]
fn payments_url_joins_base_and_path() {
    assert_eq!(payments_url(), "https://api.venmo.com/v1/payments");
    assert_eq!(payments_url(), format!("{}{}", VENMO_BASE_URL, VENMO_PAYMENTS_PATH));
}

#[test]
fn prepared_request_addresses_the_payments_endpoint() {
    let charge = VenmoCharge {
        charge_amount_in_cents: 1000,
        target_unique_id: VenmoPaymentTargetUniqueId::UserId(String::from("test_user_id")),
        note_text: String::from("example note text"),
    };
    let request = prepare_payment_charge(
        String::from("token-1"),
        charge.charge_amount_in_cents,
        charge.target_unique_id,
        charge.note_text,
    );
    assert_eq!(request.url, "https://api.venmo.com/v1/payments");
    assert_eq!(
        request.body,
        vec![
            text("user_id", "test_user_id"),
            WireMember { key: String::from("amount"), value: WireValue::Hundredths(1000) },
            text("access_token", "token-1"),
            text("note", "example note text"),
            text("audience", "private"),
        ]
    );
}

#[test]
fn targets_compare_by_kind_and_text() {
    let phone = VenmoPaymentTargetUniqueId::PhoneNumber(String::from("15555550100"));
    assert_eq!(phone, VenmoPaymentTargetUniqueId::PhoneNumber(String::from("15555550100")));
    assert_ne!(phone, VenmoPaymentTargetUniqueId::Email(String::from("15555550100")));
    assert_ne!(phone, VenmoPaymentTargetUniqueId::PhoneNumber(String::from("15555550101")));
}
