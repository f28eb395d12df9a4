use user_domain::dates::{CalendarDate, DateTime};
use user_domain::errors::{StoreError, UserErrors};
use user_domain::ids::{MerchantAccountId, OrganizationId};
use user_domain::key_store::{
    KeyStoreAction, KeyStoreEvent, TotpSecretAction, TotpSecretEvent, TotpSecretFlow, UserKeyStore,
};
use user_domain::roles::{InsertUserRolePayload, UserRoleVersion, UserStatus};
use user_domain::signup::{
    ConnectAccountRequest, CreateInternalUserRequest, InviteUserRequest, MerchantAccountCreate,
    NewUser, NewUserMerchant, NewUserOrganization, Organization, PlatformVersion, SignUpRequest,
    SignUpWithMerchantIdRequest, UserFromToken, UserMerchantCreate,
};
use user_domain::signup_flow::{SignupAction, SignupEvent, SignupFlow};
use user_domain::user::{StoredUser, TotpStatus, UserFromStorage};
use user_domain::values::BlockedDomains;

fn at(julian_day: i32) -> DateTime {
    DateTime { date: CalendarDate { julian_day }, hour: 0, minute: 0, second: 0, nanosecond: 0 }
}

fn stored_user(user_id: &str) -> StoredUser {
    StoredUser {
        user_id: user_id.to_string(),
        email: "owner@example.com".to_string(),
        name: "Owner".to_string(),
        password: None,
        is_verified: true,
        created_at: at(2_460_000),
        last_modified_at: at(2_460_000),
        preferred_merchant_id: None,
        totp_status: TotpStatus::NotSet,
        totp_secret: None,
        totp_recovery_codes: None,
        last_password_modified_at: None,
    }
}

fn key_store(user_id: &str, key: u8) -> UserKeyStore {
    UserKeyStore { user_id: user_id.to_string(), key: vec![key; 48], created_at: at(2_460_000) }
}

fn blocked() -> BlockedDomains {
    BlockedDomains::from_entries(&vec!["mailinator.com".to_string()])
}

#[test]
fn existing_key_store_is_returned() {
    let user = UserFromStorage(stored_user("u1"));
    let (mut flow, first) = user.get_or_create_key_store(false);
    assert!(matches!(first, KeyStoreAction::FetchKeyStore { ref user_id } if user_id == "u1"));
    match flow.next(KeyStoreEvent::Fetched(Ok(key_store("u1", 7)))) {
        KeyStoreAction::Finish(Ok(ks)) => assert_eq!(ks.key, vec![7; 48]),
        other => panic!("unexpected {:?}", other),
    }
}

#[test]
fn fetch_failure_is_not_taken_for_absence() {
    let user = UserFromStorage(stored_user("u1"));
    let (mut flow, _) = user.get_or_create_key_store(false);
    assert!(matches!(
        flow.next(KeyStoreEvent::Fetched(Err(StoreError::Other))),
        KeyStoreAction::Finish(Err(UserErrors::InternalServerError))
    ));
}

#[test]
fn missing_key_store_is_created_and_transferred() {
    let user = UserFromStorage(stored_user("u2"));
    let (mut flow, _) = user.get_or_create_key_store(true);
    assert!(matches!(
        flow.next(KeyStoreEvent::Fetched(Err(StoreError::NotFound))),
        KeyStoreAction::GenerateKey
    ));
    match flow.next(KeyStoreEvent::KeyGenerated(Some([0u8; 32]))) {
        KeyStoreAction::TransferKey { user_id, encoded_key } => {
            assert_eq!(user_id, "u2");
            assert_eq!(encoded_key, format!("{}=", "A".repeat(43)));
        }
        other => panic!("unexpected {:?}", other),
    }
    match flow.next(KeyStoreEvent::KeyTransferred(true)) {
        KeyStoreAction::EncryptKey { user_id, key } => {
            assert_eq!(user_id, "u2");
            assert_eq!(key, [0u8; 32]);
        }
        other => panic!("unexpected {:?}", other),
    }
    match flow.next(KeyStoreEvent::KeyEncrypted(Some(vec![9; 60]))) {
        KeyStoreAction::InsertKeyStore(ks) => {
            assert_eq!(ks.user_id, "u2");
            assert_eq!(ks.key, vec![9; 60]);
        }
        other => panic!("unexpected {:?}", other),
    }
    match flow.next(KeyStoreEvent::Inserted(Ok(key_store("u2", 9)))) {
        KeyStoreAction::Finish(Ok(ks)) => assert_eq!(ks.user_id, "u2"),
        other => panic!("unexpected {:?}", other),
    }
}

#[test]
fn key_store_without_key_manager_goes_straight_to_encryption() {
    let user = UserFromStorage(stored_user("u3"));
    let (mut flow, _) = user.get_or_create_key_store(false);
    flow.next(KeyStoreEvent::Fetched(Err(StoreError::NotFound)));
    assert!(matches!(
        flow.next(KeyStoreEvent::KeyGenerated(Some([1u8; 32]))),
        KeyStoreAction::EncryptKey { .. }
    ));
    assert!(matches!(
        flow.next(KeyStoreEvent::KeyEncrypted(None)),
        KeyStoreAction::Finish(Err(UserErrors::InternalServerError))
    ));
}

#[test]
fn racing_key_store_creation_leaves_the_loser_failed() {
    let user = UserFromStorage(stored_user("u4"));
    let (mut winner, _) = user.get_or_create_key_store(false);
    let (mut loser, _) = user.get_or_create_key_store(false);
    for flow in [&mut winner, &mut loser] {
        flow.next(KeyStoreEvent::Fetched(Err(StoreError::NotFound)));
        flow.next(KeyStoreEvent::KeyGenerated(Some([2u8; 32])));
        flow.next(KeyStoreEvent::KeyEncrypted(Some(vec![3; 60])));
    }
    assert!(matches!(
        winner.next(KeyStoreEvent::Inserted(Ok(key_store("u4", 3)))),
        KeyStoreAction::Finish(Ok(_))
    ));
    assert!(matches!(
        loser.next(KeyStoreEvent::Inserted(Err(StoreError::UniqueViolation))),
        KeyStoreAction::Finish(Err(UserErrors::InternalServerError))
    ));
}

#[test]
fn out_of_order_event_ends_key_store_flow() {
    let user = UserFromStorage(stored_user("u5"));
    let (mut flow, _) = user.get_or_create_key_store(false);
    assert!(matches!(
        flow.next(KeyStoreEvent::KeyTransferred(true)),
        KeyStoreAction::Finish(Err(UserErrors::InternalServerError))
    ));
}

#[test]
fn totp_secret_absent_or_decrypted() {
    let user = UserFromStorage(stored_user("u6"));
    let (_, action) = user.decrypt_and_get_totp_secret();
    assert!(matches!(action, TotpSecretAction::Finish(Ok(None))));

    let mut with_secret = stored_user("u6");
    with_secret.totp_secret = Some(vec![4; 20]);
    let user = UserFromStorage(with_secret);
    let (mut flow, action) = user.decrypt_and_get_totp_secret();
    assert!(matches!(action, TotpSecretAction::FetchKeyStore { ref user_id } if user_id == "u6"));
    match flow.next(TotpSecretEvent::Fetched(Ok(key_store("u6", 5)))) {
        TotpSecretAction::Decrypt { ciphertext, key, .. } => {
            assert_eq!(ciphertext, vec![4; 20]);
            assert_eq!(key, vec![5; 48]);
        }
        other => panic!("unexpected {:?}", other),
    }
    match flow.next(TotpSecretEvent::Decrypted(Some("JBSWY3DP".to_string()))) {
        TotpSecretAction::Finish(Ok(Some(secret))) => assert_eq!(secret, "JBSWY3DP"),
        other => panic!("unexpected {:?}", other),
    }
}

#[test]
fn totp_decryption_failure_is_an_error() {
    let (mut flow, _) = TotpSecretFlow::start(&"u7".to_string(), Some(vec![1, 2, 3]));
    flow.next(TotpSecretEvent::Fetched(Ok(key_store("u7", 1))));
    assert!(matches!(
        flow.next(TotpSecretEvent::Decrypted(None)),
        TotpSecretAction::Finish(Err(UserErrors::InternalServerError))
    ));
    let (mut flow, _) = TotpSecretFlow::start(&"u7".to_string(), Some(vec![1]));
    assert!(matches!(
        flow.next(TotpSecretEvent::Fetched(Err(StoreError::NotFound))),
        TotpSecretAction::Finish(Err(UserErrors::InternalServerError))
    ));
}

fn signup_with_company(company: &str) -> SignUpWithMerchantIdRequest {
    SignUpWithMerchantIdRequest {
        name: "Ada Lovelace".to_string(),
        email: "ada@example.com".to_string(),
        password: "Abcd1234!".to_string(),
        company_name: company.to_string(),
    }
}

#[test]
fn signup_with_company_derives_merchant() {
    let user = NewUser::from_sign_up_with_merchant_id(signup_with_company(" Analytical Engines "), &blocked())
        .unwrap();
    assert_eq!(user.get_user_id().len(), 36);
    assert_eq!(user.get_email(), "ada@example.com");
    assert_eq!(user.get_name(), "Ada Lovelace");
    assert_eq!(user.get_password().unwrap(), "Abcd1234!");
    let merchant = user.get_new_merchant();
    assert_eq!(merchant.get_merchant_id().get_string_repr(), "analytical_engines");
    assert_eq!(merchant.get_company_name().unwrap(), "Analytical Engines");
    assert_eq!(
        merchant.get_new_organization().to_organization().org_name.unwrap(),
        "Analytical Engines"
    );
}

#[test]
fn signup_checks_in_order() {
    let mut bad_email = signup_with_company("Acme");
    bad_email.email = "ada@mailinator.com".to_string();
    bad_email.name = "bad/name".to_string();
    assert!(matches!(
        NewUser::from_sign_up_with_merchant_id(bad_email, &blocked()),
        Err(UserErrors::InvalidEmailError)
    ));
    let mut bad_name = signup_with_company("Acme");
    bad_name.name = "bad/name".to_string();
    bad_name.password = "weak".to_string();
    assert!(matches!(
        NewUser::from_sign_up_with_merchant_id(bad_name, &blocked()),
        Err(UserErrors::NameParsingError)
    ));
    let mut bad_password = signup_with_company("Acme-Inc");
    bad_password.password = "weak".to_string();
    assert!(matches!(
        NewUser::from_sign_up_with_merchant_id(bad_password, &blocked()),
        Err(UserErrors::PasswordParsingError)
    ));
    assert!(matches!(
        NewUser::from_sign_up_with_merchant_id(signup_with_company("Acme-Inc"), &blocked()),
        Err(UserErrors::CompanyNameParsingError)
    ));
    let long = "a".repeat(65);
    assert!(matches!(
        NewUser::from_sign_up_with_merchant_id(signup_with_company(&long), &blocked()),
        Err(UserErrors::MerchantIdParsingError)
    ));
}

#[test]
fn plain_signup_and_connect_account() {
    let user = NewUser::from_sign_up(
        SignUpRequest { email: "grace@example.com".to_string(), password: "Abcd1234!".to_string() },
        &blocked(),
    )
    .unwrap();
    assert_eq!(user.get_name(), "grace");
    assert!(user.get_new_merchant().get_merchant_id().get_string_repr().starts_with("merchant_"));
    let connected =
        NewUser::from_connect_account(ConnectAccountRequest { email: "linus@example.com".to_string() }, &blocked())
            .unwrap();
    assert!(connected.get_password().is_none());
    assert_eq!(connected.get_name(), "linus");
}

#[test]
fn internal_and_invited_users() {
    let internal = NewUser::from_internal_user(
        CreateInternalUserRequest {
            name: "Ops".to_string(),
            email: "ops@example.com".to_string(),
            password: "Abcd1234!".to_string(),
        },
        OrganizationId::new("org_internal".to_string()),
        &blocked(),
    )
    .unwrap();
    assert_eq!(internal.get_new_merchant().get_merchant_id().get_string_repr(), "juspay000");
    let token = UserFromToken {
        user_id: "inviter".to_string(),
        merchant_id: MerchantAccountId::new("merchant_42".to_string()),
        role_id: "org_admin".to_string(),
        org_id: OrganizationId::new("org_1".to_string()),
    };
    let invite = || InviteUserRequest {
        email: "new@example.com".to_string(),
        name: "New Person".to_string(),
        role_id: "viewer".to_string(),
    };
    let invited = NewUser::from_invite(invite(), &token, "Tmp1234!x".to_string(), false, &blocked()).unwrap();
    assert!(invited.get_password().is_none());
    assert_eq!(invited.get_new_merchant().get_merchant_id().get_string_repr(), "merchant_42");
    let with_temp = NewUser::from_invite(invite(), &token, "Tmp1234!x".to_string(), true, &blocked()).unwrap();
    assert_eq!(with_temp.get_password().unwrap(), "Tmp1234!x");
    assert!(matches!(
        NewUser::from_invite(invite(), &token, "short".to_string(), false, &blocked()),
        Err(UserErrors::PasswordParsingError)
    ));
}

#[test]
fn merchant_id_policy_depends_on_runtime() {
    let token = UserFromToken {
        user_id: "owner".to_string(),
        merchant_id: MerchantAccountId::new("m0".to_string()),
        role_id: "org_admin".to_string(),
        org_id: OrganizationId::new("org_7".to_string()),
    };
    let request = UserMerchantCreate { company_name: "Second Shop".to_string() };
    let prod = NewUserMerchant::from_merchant_create(&request, &token, true).unwrap();
    assert_eq!(prod.get_merchant_id().get_string_repr(), "second_shop");
    assert_eq!(prod.get_new_organization().get_organization_id().get_string_repr(), "org_7");
    let staging = NewUserMerchant::from_merchant_create(&request, &token, false).unwrap();
    assert!(staging.get_merchant_id().get_string_repr().starts_with("merchant_"));
    let bad = UserMerchantCreate { company_name: "Bad-Shop".to_string() };
    assert!(matches!(
        NewUserMerchant::from_merchant_create(&bad, &token, true),
        Err(UserErrors::MerchantIdParsingError)
    ));
    assert!(matches!(
        NewUserMerchant::from_merchant_create(&bad, &token, false),
        Err(UserErrors::CompanyNameParsingError)
    ));
    let owner = UserFromStorage(stored_user("owner"));
    let user = NewUser::from_merchant_create(&owner, &request, &token, true, &blocked()).unwrap();
    assert_eq!(user.get_user_id(), "owner");
    assert!(user.get_password().is_none());
}

#[test]
fn timestamp_merchant_ids() {
    assert_eq!(MerchantAccountId::new_from_unix_timestamp(1_700_000_000).get_string_repr(), "merchant_1700000000");
    assert_eq!(MerchantAccountId::new_from_unix_timestamp(-5).get_string_repr(), "merchant_-5");
    let org = OrganizationId::generate().get_string_repr();
    assert_eq!(org.len(), 24);
    assert!(org.starts_with("org_"));
}

#[test]
fn organization_insert_outcomes() {
    let org = Organization { org_id: OrganizationId::new("org_1".to_string()), org_name: None };
    assert!(NewUserOrganization::insert_org_in_db(Ok(org)).is_ok());
    assert!(matches!(
        NewUserOrganization::insert_org_in_db(Err(StoreError::UniqueViolation)),
        Err(UserErrors::DuplicateOrganizationId)
    ));
    assert!(matches!(
        NewUserOrganization::insert_org_in_db(Err(StoreError::Other)),
        Err(UserErrors::InternalServerError)
    ));
    assert!(matches!(
        NewUserOrganization::from_company_name("  ".to_string()),
        Err(UserErrors::CompanyNameParsingError)
    ));
}

#[test]
fn merchant_account_requests_by_version() {
    let user = NewUser::from_sign_up_with_merchant_id(signup_with_company("Acme"), &blocked()).unwrap();
    match user.get_new_merchant().create_merchant_account_request(PlatformVersion::V1) {
        MerchantAccountCreate::V1 { merchant_id, merchant_name, .. } => {
            assert_eq!(merchant_id.get_string_repr(), "acme");
            assert_eq!(merchant_name.as_deref(), Some("Acme"));
        }
        other => panic!("unexpected {:?}", other),
    }
    let plain = NewUser::from_connect_account(ConnectAccountRequest { email: "p@example.com".to_string() }, &blocked())
        .unwrap();
    match plain.get_new_merchant().create_merchant_account_request(PlatformVersion::V2) {
        MerchantAccountCreate::V2 { merchant_name, .. } => assert_eq!(merchant_name, "merchant"),
        other => panic!("unexpected {:?}", other),
    }
    match user.get_new_merchant().check_if_already_exists_in_db(true) {
        Err(UserErrors::MerchantAccountCreationError(message)) => {
            assert_eq!(message, "Merchant with acme already exists")
        }
        other => panic!("unexpected {:?}", other),
    }
    assert!(user.get_new_merchant().check_if_already_exists_in_db(false).is_ok());
}

fn run_to_user_insert(flow: &mut SignupFlow) {
    assert!(matches!(flow.next(SignupEvent::UserLookup { found: false }), SignupAction::FindMerchant { .. }));
    assert!(matches!(
        flow.next(SignupEvent::MerchantLookup { found: false }),
        SignupAction::CreateMerchant(_)
    ));
    match flow.next(SignupEvent::MerchantCreated { created: true }) {
        SignupAction::HashPassword { password } => assert_eq!(password, "Abcd1234!"),
        other => panic!("unexpected {:?}", other),
    }
    match flow.next(SignupEvent::PasswordHashed(Ok("hashed".to_string()))) {
        SignupAction::InsertUser(row) => {
            assert_eq!(row.password.as_deref(), Some("hashed"));
            assert!(!row.is_verified);
            assert_eq!(row.totp_status, TotpStatus::NotSet);
            assert_eq!(row.last_password_modified_at, Some(row.created_at));
        }
        other => panic!("unexpected {:?}", other),
    }
}

#[test]
fn signup_flow_creates_user() {
    let user = NewUser::from_sign_up_with_merchant_id(signup_with_company("Acme"), &blocked()).unwrap();
    let (mut flow, first) = SignupFlow::start(user, PlatformVersion::V1);
    assert!(matches!(first, SignupAction::FindUserByEmail { ref email } if email == "ada@example.com"));
    run_to_user_insert(&mut flow);
    let mut row = stored_user("new-user");
    row.email = "ada@example.com".to_string();
    match flow.next(SignupEvent::UserInserted(Ok(row))) {
        SignupAction::Finish(Ok(created)) => assert_eq!(created.get_user_id(), "new-user"),
        other => panic!("unexpected {:?}", other),
    }
}

#[test]
fn duplicate_user_after_merchant_creation_is_compensated() {
    let user = NewUser::from_sign_up_with_merchant_id(signup_with_company("Acme"), &blocked()).unwrap();
    let (mut flow, _) = SignupFlow::start(user, PlatformVersion::V1);
    run_to_user_insert(&mut flow);
    match flow.next(SignupEvent::UserInserted(Err(StoreError::UniqueViolation))) {
        SignupAction::DeleteMerchant { merchant_id } => assert_eq!(merchant_id.get_string_repr(), "acme"),
        other => panic!("unexpected {:?}", other),
    }
    assert!(matches!(
        flow.next(SignupEvent::MerchantDeleted { deleted: false }),
        SignupAction::Finish(Err(UserErrors::UserExists))
    ));
}

#[test]
fn other_user_insert_failure_is_compensated_as_internal() {
    let user = NewUser::from_sign_up_with_merchant_id(signup_with_company("Acme"), &blocked()).unwrap();
    let (mut flow, _) = SignupFlow::start(user, PlatformVersion::V2);
    run_to_user_insert(&mut flow);
    assert!(matches!(
        flow.next(SignupEvent::UserInserted(Err(StoreError::Other))),
        SignupAction::DeleteMerchant { .. }
    ));
    assert!(matches!(
        flow.next(SignupEvent::MerchantDeleted { deleted: true }),
        SignupAction::Finish(Err(UserErrors::InternalServerError))
    ));
}

#[test]
fn signup_stops_early() {
    let user = NewUser::from_sign_up_with_merchant_id(signup_with_company("Acme"), &blocked()).unwrap();
    let (mut flow, _) = SignupFlow::start(user.clone(), PlatformVersion::V1);
    assert!(matches!(
        flow.next(SignupEvent::UserLookup { found: true }),
        SignupAction::Finish(Err(UserErrors::UserExists))
    ));
    let (mut flow, _) = SignupFlow::start(user.clone(), PlatformVersion::V1);
    flow.next(SignupEvent::UserLookup { found: false });
    assert!(matches!(
        flow.next(SignupEvent::MerchantLookup { found: true }),
        SignupAction::Finish(Err(UserErrors::MerchantAccountCreationError(_)))
    ));
    let (mut flow, _) = SignupFlow::start(user.clone(), PlatformVersion::V1);
    flow.next(SignupEvent::UserLookup { found: false });
    flow.next(SignupEvent::MerchantLookup { found: false });
    assert!(matches!(
        flow.next(SignupEvent::MerchantCreated { created: false }),
        SignupAction::Finish(Err(UserErrors::InternalServerError))
    ));
    let (mut flow, _) = SignupFlow::start(user, PlatformVersion::V1);
    flow.next(SignupEvent::UserLookup { found: false });
    flow.next(SignupEvent::MerchantLookup { found: false });
    flow.next(SignupEvent::MerchantCreated { created: true });
    assert!(matches!(
        flow.next(SignupEvent::PasswordHashed(Err(UserErrors::InternalServerError))),
        SignupAction::DeleteMerchant { .. }
    ));
}

#[test]
fn new_user_role_attachment() {
    let user = NewUser::from_sign_up_with_merchant_id(signup_with_company("Acme"), &blocked()).unwrap();
    let id = user.get_user_id();
    let role = user.clone().get_no_level_user_role("org_admin".to_string(), UserStatus::Active);
    assert_eq!(role.user_id, id);
    assert_eq!(role.created_by, id);
    assert_eq!(role.created_at, role.last_modified);
    match user.clone().insert_org_level_user_role_in_db("org_admin".to_string(), UserStatus::Active, None) {
        InsertUserRolePayload::V1AndV2(v1, v2) => {
            assert_eq!(v1.version, UserRoleVersion::V1);
            assert_eq!(v2.version, UserRoleVersion::V2);
            assert_eq!(v1.merchant_id.unwrap().get_string_repr(), "acme");
            assert_eq!(v1.status, UserStatus::Active);
            assert_eq!(v1.created_by, id);
            assert_eq!(v2.last_modified_by, id);
            assert_eq!(v1.created_at, v2.created_at);
            assert_eq!(v2.merchant_id, None);
            assert_eq!(v2.entity_id, v2.org_id.as_ref().map(|o| o.get_string_repr()));
        }
        other => panic!("unexpected {:?}", other),
    }
    assert!(matches!(
        user.clone().insert_org_level_user_role_in_db("r".to_string(), UserStatus::InvitationSent, Some(UserRoleVersion::V1)),
        InsertUserRolePayload::OnlyV1(_)
    ));
    assert!(matches!(
        user.insert_org_level_user_role_in_db("r".to_string(), UserStatus::Active, Some(UserRoleVersion::V2)),
        InsertUserRolePayload::OnlyV2(_)
    ));
}
