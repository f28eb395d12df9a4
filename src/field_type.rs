//! The kinds of field that a payment method may require from the customer.
use vstd::prelude::*;

verus! {

/// A field that a payment method requires. Variants that carry options list the
/// values that may be chosen.
#[derive(Clone, Debug)]
pub enum FieldType {
    UserCardNumber,
    UserCardExpiryMonth,
    UserCardExpiryYear,
    UserCardCvc,
    UserFullName,
    UserEmailAddress,
    UserPhoneNumber,
    UserPhoneNumberCountryCode,
    UserCountry { options: Vec<String> },
    UserCurrency { options: Vec<String> },
    UserCryptoCurrencyNetwork,
    UserBillingName,
    UserAddressLine1,
    UserAddressLine2,
    UserAddressCity,
    UserAddressPincode,
    UserAddressState,
    UserAddressCountry { options: Vec<String> },
    UserShippingName,
    UserShippingAddressLine1,
    UserShippingAddressLine2,
    UserShippingAddressCity,
    UserShippingAddressPincode,
    UserShippingAddressState,
    UserShippingAddressCountry { options: Vec<String> },
    UserBlikCode,
    UserBank,
    Text,
    DropDown { options: Vec<String> },
    UserDateOfBirth,
    UserVpaId,
    LanguagePreference { options: Vec<String> },
    UserPixKey,
    UserCpf,
    UserCnpj,
}

/// The position of a field's variant in the declaration, options aside.
pub open spec fn field_kind(f: FieldType) -> int {
    match f {
        FieldType::UserCardNumber => 0,
        FieldType::UserCardExpiryMonth => 1,
        FieldType::UserCardExpiryYear => 2,
        FieldType::UserCardCvc => 3,
        FieldType::UserFullName => 4,
        FieldType::UserEmailAddress => 5,
        FieldType::UserPhoneNumber => 6,
        FieldType::UserPhoneNumberCountryCode => 7,
        FieldType::UserCountry { .. } => 8,
        FieldType::UserCurrency { .. } => 9,
        FieldType::UserCryptoCurrencyNetwork => 10,
        FieldType::UserBillingName => 11,
        FieldType::UserAddressLine1 => 12,
        FieldType::UserAddressLine2 => 13,
        FieldType::UserAddressCity => 14,
        FieldType::UserAddressPincode => 15,
        FieldType::UserAddressState => 16,
        FieldType::UserAddressCountry { .. } => 17,
        FieldType::UserShippingName => 18,
        FieldType::UserShippingAddressLine1 => 19,
        FieldType::UserShippingAddressLine2 => 20,
        FieldType::UserShippingAddressCity => 21,
        FieldType::UserShippingAddressPincode => 22,
        FieldType::UserShippingAddressState => 23,
        FieldType::UserShippingAddressCountry { .. } => 24,
        FieldType::UserBlikCode => 25,
        FieldType::UserBank => 26,
        FieldType::Text => 27,
        FieldType::DropDown { .. } => 28,
        FieldType::UserDateOfBirth => 29,
        FieldType::UserVpaId => 30,
        FieldType::LanguagePreference { .. } => 31,
        FieldType::UserPixKey => 32,
        FieldType::UserCpf => 33,
        FieldType::UserCnpj => 34,
    }
}

/// Equality of fields: same variant, and for country, currency and drop-down
/// fields the same options. Address, shipping-address country and language
/// fields ignore their options.
pub open spec fn same_field(a: FieldType, b: FieldType) -> bool {
    &&& field_kind(a) == field_kind(b)
    &&& match (a, b) {
        (
            FieldType::UserCountry { options: x },
            FieldType::UserCountry { options: y },
        ) => x.deep_view() == y.deep_view(),
        (
            FieldType::UserCurrency { options: x },
            FieldType::UserCurrency { options: y },
        ) => x.deep_view() == y.deep_view(),
        (FieldType::DropDown { options: x }, FieldType::DropDown { options: y }) => x.deep_view()
            == y.deep_view(),
        _ => true,
    }
}

fn same_options(a: &Vec<String>, b: &Vec<String>) -> (r: bool)
    ensures
        r == (a.deep_view() == b.deep_view()),
{
    if a.len() != b.len() {
        assert(a.deep_view().len() != b.deep_view().len());
        return false;
    }
    let mut i: usize = 0;
    while i < a.len()
        invariant
            a@.len() == b@.len(),
            i <= a@.len(),
            forall|j: int| 0 <= j < i ==> a@[j]@ == b@[j]@,
        decreases a@.len() - i,
    {
        if a[i] != b[i] {
            assert(a.deep_view()[i as int] != b.deep_view()[i as int]);
            return false;
        }
        i += 1;
    }
    assert(a.deep_view() =~= b.deep_view());
    true
}

impl PartialEq for FieldType {
    fn eq(&self, other: &Self) -> (r: bool) {
        match (self, other) {
            (Self::UserCardNumber, Self::UserCardNumber) => true,
            (Self::UserCardExpiryMonth, Self::UserCardExpiryMonth) => true,
            (Self::UserCardExpiryYear, Self::UserCardExpiryYear) => true,
            (Self::UserCardCvc, Self::UserCardCvc) => true,
            (Self::UserFullName, Self::UserFullName) => true,
            (Self::UserEmailAddress, Self::UserEmailAddress) => true,
            (Self::UserPhoneNumber, Self::UserPhoneNumber) => true,
            (Self::UserPhoneNumberCountryCode, Self::UserPhoneNumberCountryCode) => true,
            (
                Self::UserCountry { options: options_self },
                Self::UserCountry { options: options_other },
            ) => same_options(options_self, options_other),
            (
                Self::UserCurrency { options: options_self },
                Self::UserCurrency { options: options_other },
            ) => same_options(options_self, options_other),
            (Self::UserCryptoCurrencyNetwork, Self::UserCryptoCurrencyNetwork) => true,
            (Self::UserBillingName, Self::UserBillingName) => true,
            (Self::UserAddressLine1, Self::UserAddressLine1) => true,
            (Self::UserAddressLine2, Self::UserAddressLine2) => true,
            (Self::UserAddressCity, Self::UserAddressCity) => true,
            (Self::UserAddressPincode, Self::UserAddressPincode) => true,
            (Self::UserAddressState, Self::UserAddressState) => true,
            (Self::UserAddressCountry { .. }, Self::UserAddressCountry { .. }) => true,
            (Self::UserShippingName, Self::UserShippingName) => true,
            (Self::UserShippingAddressLine1, Self::UserShippingAddressLine1) => true,
            (Self::UserShippingAddressLine2, Self::UserShippingAddressLine2) => true,
            (Self::UserShippingAddressCity, Self::UserShippingAddressCity) => true,
            (Self::UserShippingAddressPincode, Self::UserShippingAddressPincode) => true,
            (Self::UserShippingAddressState, Self::UserShippingAddressState) => true,
            (Self::UserShippingAddressCountry { .. }, Self::UserShippingAddressCountry { .. }) => true,
            (Self::UserBlikCode, Self::UserBlikCode) => true,
            (Self::UserBank, Self::UserBank) => true,
            (Self::Text, Self::Text) => true,
            (
                Self::DropDown { options: options_self },
                Self::DropDown { options: options_other },
            ) => same_options(options_self, options_other),
            (Self::UserDateOfBirth, Self::UserDateOfBirth) => true,
            (Self::UserVpaId, Self::UserVpaId) => true,
            (Self::LanguagePreference { .. }, Self::LanguagePreference { .. }) => true,
            (Self::UserPixKey, Self::UserPixKey) => true,
            (Self::UserCpf, Self::UserCpf) => true,
            (Self::UserCnpj, Self::UserCnpj) => true,
            _ => false,
        }
    }
}

impl vstd::std_specs::cmp::PartialEqSpecImpl for FieldType {
    open spec fn obeys_eq_spec() -> bool {
        true
    }

    open spec fn eq_spec(&self, other: &FieldType) -> bool {
        same_field(*self, *other)
    }
}

/// A billing country field equals every other billing country field whatever
/// options each lists, and never equals a shipping country field.
pub proof fn address_country_ignores_options(a: Vec<String>, b: Vec<String>)
    ensures
        same_field(FieldType::UserAddressCountry { options: a }, FieldType::UserAddressCountry { options: b }),
        !same_field(
            FieldType::UserAddressCountry { options: a },
            FieldType::UserShippingAddressCountry { options: b },
        ),
        !same_field(
            FieldType::UserShippingAddressCountry { options: a },
            FieldType::UserAddressCountry { options: b },
        ),
{
}

impl FieldType {
    pub fn get_billing_variants() -> (r: Vec<Self>)
        ensures
            r@ == seq![
                FieldType::UserBillingName,
                FieldType::UserAddressLine1,
                FieldType::UserAddressLine2,
                FieldType::UserAddressCity,
                FieldType::UserAddressPincode,
                FieldType::UserAddressState,
                FieldType::UserAddressCountry { options: r@[6]->UserAddressCountry_options },
            ],
            r@[6]->UserAddressCountry_options@.len() == 0,
    {
        vec![
            Self::UserBillingName,
            Self::UserAddressLine1,
            Self::UserAddressLine2,
            Self::UserAddressCity,
            Self::UserAddressPincode,
            Self::UserAddressState,
            Self::UserAddressCountry { options: Vec::new() },
        ]
    }

    pub fn get_shipping_variants() -> (r: Vec<Self>)
        ensures
            r@ == seq![
                FieldType::UserShippingName,
                FieldType::UserShippingAddressLine1,
                FieldType::UserShippingAddressLine2,
                FieldType::UserShippingAddressCity,
                FieldType::UserShippingAddressPincode,
                FieldType::UserShippingAddressState,
                FieldType::UserShippingAddressCountry {
                    options: r@[6]->UserShippingAddressCountry_options,
                },
            ],
            r@[6]->UserShippingAddressCountry_options@.len() == 0,
    {
        vec![
            Self::UserShippingName,
            Self::UserShippingAddressLine1,
            Self::UserShippingAddressLine2,
            Self::UserShippingAddressCity,
            Self::UserShippingAddressPincode,
            Self::UserShippingAddressState,
            Self::UserShippingAddressCountry { options: Vec::new() },
        ]
    }
}

} // verus!
