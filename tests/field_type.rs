use user_domain::field_type::FieldType;

#[test]
fn test_partialeq_for_field_type() {
    let user_address_country_is_us = FieldType::UserAddressCountry {
        options: vec!["US".to_string()],
    };

    let user_address_country_is_all = FieldType::UserAddressCountry {
        options: vec!["ALL".to_string()],
    };

    assert!(user_address_country_is_us.eq(&user_address_country_is_all))
}

#[test]
fn address_country_never_equals_shipping_country() {
    let billing = FieldType::UserAddressCountry { options: vec!["US".to_string()] };
    let shipping = FieldType::UserShippingAddressCountry { options: vec!["US".to_string()] };
    assert!(billing != shipping);
    assert!(shipping != billing);
}

#[test]
fn shipping_country_ignores_options() {
    let a = FieldType::UserShippingAddressCountry { options: vec!["DE".to_string()] };
    let b = FieldType::UserShippingAddressCountry { options: vec![] };
    assert!(a == b);
}

#[test]
fn language_preference_ignores_options() {
    let a = FieldType::LanguagePreference { options: vec!["en".to_string()] };
    let b = FieldType::LanguagePreference { options: vec!["fr".to_string()] };
    assert!(a == b);
}

#[test]
fn country_currency_and_drop_down_compare_options() {
    let us = FieldType::UserCountry { options: vec!["US".to_string()] };
    let us_again = FieldType::UserCountry { options: vec!["US".to_string()] };
    let de = FieldType::UserCountry { options: vec!["DE".to_string()] };
    assert!(us == us_again);
    assert!(us != de);
    let usd = FieldType::UserCurrency { options: vec!["USD".to_string()] };
    let eur = FieldType::UserCurrency { options: vec!["EUR".to_string(), "USD".to_string()] };
    assert!(usd != eur);
    let a = FieldType::DropDown { options: vec!["x".to_string(), "y".to_string()] };
    let b = FieldType::DropDown { options: vec!["x".to_string(), "y".to_string()] };
    let c = FieldType::DropDown { options: vec!["x".to_string()] };
    assert!(a == b);
    assert!(a != c);
}

#[test]
fn plain_variants_compare_by_variant() {
    assert!(FieldType::UserCardNumber == FieldType::UserCardNumber);
    assert!(FieldType::UserCardNumber != FieldType::UserCardCvc);
    assert!(FieldType::Text != FieldType::DropDown { options: vec![] });
    assert!(FieldType::UserCnpj == FieldType::UserCnpj);
}

#[test]
fn billing_and_shipping_variants() {
    let billing = FieldType::get_billing_variants();
    assert_eq!(billing.len(), 7);
    assert!(billing[0] == FieldType::UserBillingName);
    assert!(billing[6] == FieldType::UserAddressCountry { options: vec!["US".to_string()] });
    let shipping = FieldType::get_shipping_variants();
    assert_eq!(shipping.len(), 7);
    assert!(shipping[0] == FieldType::UserShippingName);
    assert!(shipping[5] == FieldType::UserShippingAddressState);
    assert!(shipping[6] == FieldType::UserShippingAddressCountry { options: vec![] });
}
