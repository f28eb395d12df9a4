use user_domain::errors::UserErrors;
use user_domain::ids::MerchantAccountId;
use user_domain::values::{
    BlockedDomains, MerchantId, RoleName, UserCompanyName, UserEmail, UserName, UserPassword,
};

fn blocked() -> BlockedDomains {
    BlockedDomains::from_entries(&vec![" mailinator.com ".to_string(), "spam.test".to_string()])
}

#[test]
fn password_meeting_every_class_is_accepted() {
    let p = UserPassword::new("Abcd1234!".to_string()).unwrap();
    assert_eq!(p.get_secret(), "Abcd1234!");
}

#[test]
fn password_without_upper_digit_or_special_is_refused() {
    assert!(matches!(
        UserPassword::new("abcdefgh".to_string()),
        Err(UserErrors::PasswordParsingError)
    ));
}

#[test]
fn password_with_whitespace_is_refused() {
    assert!(matches!(
        UserPassword::new("Ab1! ".to_string()),
        Err(UserErrors::PasswordParsingError)
    ));
    assert!(matches!(
        UserPassword::new("Abcd 1234!".to_string()),
        Err(UserErrors::PasswordParsingError)
    ));
}

#[test]
fn password_length_bounds() {
    assert!(UserPassword::new("Abc123!x".to_string()).is_ok());
    assert!(UserPassword::new("Abc123!".to_string()).is_err());
    let longest = format!("Aa1!{}", "x".repeat(66));
    assert_eq!(longest.len(), 70);
    assert!(UserPassword::new(longest).is_ok());
    let too_long = format!("Aa1!{}", "x".repeat(67));
    assert!(UserPassword::new(too_long).is_err());
}

#[test]
fn password_each_missing_class_is_refused() {
    assert!(UserPassword::new("ABCD1234!".to_string()).is_err());
    assert!(UserPassword::new("abcd1234!".to_string()).is_err());
    assert!(UserPassword::new("Abcdefgh!".to_string()).is_err());
    assert!(UserPassword::new("Abcd12345".to_string()).is_err());
}

#[test]
fn system_password_only_refuses_empty() {
    assert!(UserPassword::new_password_without_validation("abc".to_string()).is_ok());
    assert!(matches!(
        UserPassword::new_password_without_validation(String::new()),
        Err(UserErrors::PasswordParsingError)
    ));
}

#[test]
fn email_with_blocked_domain_is_refused() {
    assert!(matches!(
        UserEmail::new("someone@mailinator.com".to_string(), &blocked()),
        Err(UserErrors::InvalidEmailError)
    ));
    assert!(matches!(
        UserEmail::new("other.person@mailinator.com".to_string(), &blocked()),
        Err(UserErrors::InvalidEmailError)
    ));
}

#[test]
fn email_allowed_and_malformed() {
    let e = UserEmail::new("someone@example.com".to_string(), &blocked()).unwrap();
    assert_eq!(e.get_secret(), "someone@example.com");
    assert!(matches!(
        UserEmail::new("not-an-email".to_string(), &blocked()),
        Err(UserErrors::EmailParsingError)
    ));
    assert!(matches!(
        UserEmail::new("a@b@c".to_string(), &blocked()),
        Err(UserErrors::EmailParsingError)
    ));
    assert!(UserEmail::from_pii_email("x@spam.test".to_string(), &blocked()).is_err());
}

#[test]
fn blocked_domains_trim_entries() {
    let b = blocked();
    assert!(b.contains("mailinator.com"));
    assert!(b.contains("spam.test"));
    assert!(!b.contains("example.com"));
    assert!(!BlockedDomains::from_entries(&vec![]).contains(""));
}

#[test]
fn role_name_is_case_insensitive() {
    let upper = RoleName::new("Admin".to_string()).unwrap().get_role_name();
    let lower = RoleName::new("admin".to_string()).unwrap().get_role_name();
    assert_eq!(upper, "admin");
    assert_eq!(upper, lower);
}

#[test]
fn role_name_with_space_or_blank_is_refused() {
    assert!(matches!(
        RoleName::new("role name".to_string()),
        Err(UserErrors::RoleNameParsingError)
    ));
    assert!(RoleName::new("   ".to_string()).is_err());
    assert!(RoleName::new(String::new()).is_err());
    assert!(RoleName::new("a".repeat(64)).is_ok());
    assert!(RoleName::new("a".repeat(65)).is_err());
}

#[test]
fn user_name_rules() {
    assert_eq!(UserName::new("John Doe".to_string()).unwrap().get_secret(), "John Doe");
    assert!(matches!(
        UserName::new("John/Doe".to_string()),
        Err(UserErrors::NameParsingError)
    ));
    assert!(UserName::new("a{b}".to_string()).is_err());
    assert!(UserName::new(" \t ".to_string()).is_err());
    assert!(UserName::new("x".repeat(70)).is_ok());
    assert!(UserName::new("x".repeat(71)).is_err());
}

#[test]
fn user_name_length_counts_graphemes() {
    let accented = "e\u{301}".repeat(70);
    assert_eq!(accented.chars().count(), 140);
    assert!(UserName::new(accented).is_ok());
    assert!(UserName::new("e\u{301}".repeat(71)).is_err());
}

#[test]
fn user_name_from_email_local_part() {
    let n = UserName::from_email(&"jane.doe@example.com".to_string()).unwrap();
    assert_eq!(n.get_secret(), "jane.doe");
    assert!(matches!(
        UserName::from_email(&"no-at-sign".to_string()),
        Err(UserErrors::InvalidEmailError)
    ));
    assert!(matches!(
        UserName::from_email(&"@example.com".to_string()),
        Err(UserErrors::NameParsingError)
    ));
}

#[test]
fn company_name_is_trimmed_and_checked() {
    let c = UserCompanyName::new("  Acme Corp_1  ".to_string()).unwrap();
    assert_eq!(c.get_secret(), "Acme Corp_1");
    assert!(matches!(
        UserCompanyName::new("Acme-Corp".to_string()),
        Err(UserErrors::CompanyNameParsingError)
    ));
    assert!(UserCompanyName::new("   ".to_string()).is_err());
    assert!(UserCompanyName::new("c".repeat(71)).is_err());
}

#[test]
fn merchant_id_is_normalized() {
    let m = MerchantId::new("  Acme Corp ".to_string()).unwrap();
    assert_eq!(m.get_secret(), "acme_corp");
    assert!(matches!(
        MerchantId::new("Acme-Corp".to_string()),
        Err(UserErrors::MerchantIdParsingError)
    ));
    assert!(MerchantId::new("  ".to_string()).is_err());
}

#[test]
fn merchant_account_id_conversion() {
    let m = MerchantId::new("Shop One".to_string()).unwrap();
    let id = MerchantAccountId::try_from_merchant_id(m).unwrap();
    assert_eq!(id.get_string_repr(), "shop_one");
    let long = MerchantId::new("a".repeat(65)).unwrap();
    assert!(matches!(
        MerchantAccountId::try_from_merchant_id(long),
        Err(UserErrors::MerchantIdParsingError)
    ));
    let unicode = MerchantId::new("caf\u{e9}".to_string()).unwrap();
    assert!(MerchantAccountId::try_from_merchant_id(unicode).is_err());
    let exact = MerchantId::new("b".repeat(64)).unwrap();
    assert!(MerchantAccountId::try_from_merchant_id(exact).is_ok());
}
