//! Creating a new user with their merchant as one logical unit. The merchant
//! account and the user row live in two stores that cannot commit together: when
//! the user row fails after the merchant was created, the flow asks to delete
//! that merchant again, best effort, and still reports the user's failure.
use crate::dates::current_date_time;
use crate::errors::{StoreError, UserErrors};
use crate::ids::MerchantAccountId;
use crate::signup::{MerchantAccountCreate, NewUser, PlatformVersion, UserNew};
use crate::user::{StoredUser, TotpStatus, UserFromStorage};
use vstd::prelude::*;

verus! {

/// What the signup flow asks its driver to do.
#[derive(Debug)]
pub enum SignupAction {
    /// Look a user up by email.
    FindUserByEmail { email: String },
    /// Look up the key store of the merchant to be created.
    FindMerchant { merchant_id: MerchantAccountId },
    /// Create the merchant account.
    CreateMerchant(MerchantAccountCreate),
    /// Hash the user's password.
    HashPassword { password: String },
    /// Insert the user row.
    InsertUser(UserNew),
    /// Delete the merchant account created earlier; its outcome does not matter.
    DeleteMerchant { merchant_id: MerchantAccountId },
    /// The flow is over, with this result.
    Finish(Result<UserFromStorage, UserErrors>),
}

/// What the driver reports after an action.
#[derive(Debug)]
pub enum SignupEvent {
    UserLookup { found: bool },
    MerchantLookup { found: bool },
    MerchantCreated { created: bool },
    PasswordHashed(Result<String, UserErrors>),
    UserInserted(Result<StoredUser, StoreError>),
    MerchantDeleted { deleted: bool },
}

/// Where a signup flow stands.
#[derive(Debug)]
pub enum SignupStep {
    AwaitUserLookup,
    AwaitMerchantLookup,
    AwaitMerchantCreation,
    AwaitPasswordHash,
    AwaitUserInsert,
    /// The merchant is being deleted; the flow then fails with `error`.
    AwaitMerchantDeletion { error: UserErrors },
    Finished,
}

/// Create a user and their merchant, compensating for a user row that fails.
#[derive(Debug)]
pub struct SignupFlow {
    user: NewUser,
    version: PlatformVersion,
    step: SignupStep,
}

/// The error that a failed user insert leaves the flow with, where it failed: a
/// refused duplicate means the user exists, anything else is internal.
pub open spec fn user_insert_failure(inserted: Result<StoredUser, StoreError>) -> Option<UserErrors> {
    match inserted {
        Ok(_) => None,
        Err(StoreError::UniqueViolation) => Some(UserErrors::UserExists),
        Err(_) => Some(UserErrors::InternalServerError),
    }
}

/// The row that stores `user`: their identifiers, the given password hash, not
/// verified, no TOTP, no preferred merchant, created now; the password change
/// time is set only with a password.
pub open spec fn is_new_user_row(row: UserNew, user: NewUser, hashed_password: Option<String>) -> bool {
    &&& row.user_id@ == user.user_id()
    &&& row.name@ == user.name()
    &&& row.email@ == user.email()
    &&& row.password == hashed_password
    &&& !row.is_verified
    &&& row.created_at.wf()
    &&& row.last_modified_at == row.created_at
    &&& row.preferred_merchant_id is None
    &&& row.totp_status == TotpStatus::NotSet
    &&& row.totp_secret is None
    &&& row.totp_recovery_codes is None
    &&& row.last_password_modified_at == if user.password() is Some {
        Some(row.created_at)
    } else {
        None
    }
}

/// How the flow ends once the compensating delete is done: with the error that
/// caused it, whatever the delete gave.
pub open spec fn after_compensation(error: UserErrors, deleted: bool) -> Result<
    UserFromStorage,
    UserErrors,
> {
    Err(error)
}

impl SignupFlow {
    pub closed spec fn user(&self) -> NewUser {
        self.user
    }

    pub closed spec fn version(&self) -> PlatformVersion {
        self.version
    }

    pub closed spec fn step(&self) -> SignupStep {
        self.step
    }

    /// The merchant the flow creates.
    pub open spec fn merchant_id(&self) -> Seq<char> {
        self.user().merchant().merchant_id()
    }

    /// Starts creating `user` and their merchant; the first action checks that
    /// no user holds the email yet.
    pub fn start(user: NewUser, version: PlatformVersion) -> (r: (Self, SignupAction))
        ensures
            r.0.user() == user,
            r.0.version() == version,
            r.0.step() is AwaitUserLookup,
            r.1 matches SignupAction::FindUserByEmail { email } && email@ == user.email(),
    {
        let email = user.get_email();
        (SignupFlow { user, version, step: SignupStep::AwaitUserLookup }, SignupAction::FindUserByEmail {
            email,
        })
    }

    /// The next action, given what the last one gave. An event that does not
    /// answer the last action ends the flow with an internal error.
    pub fn next(&mut self, event: SignupEvent) -> (r: SignupAction)
        ensures
            final(self).user() == old(self).user(),
            final(self).version() == old(self).version(),
            match (old(self).step(), event) {
                (SignupStep::AwaitUserLookup, SignupEvent::UserLookup { found }) => if found {
                    r == SignupAction::Finish(Err(UserErrors::UserExists)) && (final(self).step() is Finished)
                } else {
                    (r matches SignupAction::FindMerchant { merchant_id } && merchant_id@ == old(self).merchant_id())
                        && (final(self).step() is AwaitMerchantLookup)
                },
                (SignupStep::AwaitMerchantLookup, SignupEvent::MerchantLookup { found }) => if found {
                    (r matches SignupAction::Finish(Err(UserErrors::MerchantAccountCreationError(_))))
                        && (final(self).step() is Finished)
                } else {
                    (r matches SignupAction::CreateMerchant(request) && match request {
                        MerchantAccountCreate::V1 { merchant_id, organization_id, .. } => old(self).version()
                            == PlatformVersion::V1 && merchant_id@ == old(self).merchant_id()
                            && organization_id@ == old(self).user().merchant().organization().org_id(),
                        MerchantAccountCreate::V2 { organization_id, .. } => old(self).version()
                            == PlatformVersion::V2 && organization_id@
                            == old(self).user().merchant().organization().org_id(),
                    }) && (final(self).step() is AwaitMerchantCreation)
                },
                (SignupStep::AwaitMerchantCreation, SignupEvent::MerchantCreated { created }) => if !created {
                    r == SignupAction::Finish(Err(UserErrors::InternalServerError)) && (final(self).step() is Finished)
                } else {
                    match old(self).user().password() {
                        Some(p) => (r matches SignupAction::HashPassword { password } && password@ == p)
                            && (final(self).step() is AwaitPasswordHash),
                        None => (r matches SignupAction::InsertUser(row) && is_new_user_row(row, old(self).user(), None))
                            && (final(self).step() is AwaitUserInsert),
                    }
                },
                (SignupStep::AwaitPasswordHash, SignupEvent::PasswordHashed(hashed)) => match hashed {
                    Ok(hash) => (r matches SignupAction::InsertUser(row) && is_new_user_row(row, old(self).user(), Some(hash)))
                        && (final(self).step() is AwaitUserInsert),
                    Err(e) => (r matches SignupAction::DeleteMerchant { merchant_id } && merchant_id@
                        == old(self).merchant_id()) && final(self).step() == (SignupStep::AwaitMerchantDeletion { error: e }),
                },
                (SignupStep::AwaitUserInsert, SignupEvent::UserInserted(inserted)) => match user_insert_failure(inserted) {
                    None => (r matches SignupAction::Finish(Ok(u)) && Ok::<StoredUser, StoreError>(u.0) == inserted)
                        && (final(self).step() is Finished),
                    Some(e) => (r matches SignupAction::DeleteMerchant { merchant_id } && merchant_id@
                        == old(self).merchant_id()) && final(self).step() == (SignupStep::AwaitMerchantDeletion { error: e }),
                },
                (SignupStep::AwaitMerchantDeletion { error }, SignupEvent::MerchantDeleted { deleted }) => r
                    == SignupAction::Finish(after_compensation(error, deleted)) && (final(self).step() is Finished),
                _ => r == SignupAction::Finish(Err(UserErrors::InternalServerError)) && (final(self).step() is Finished),
            },
    {
        let mut step = SignupStep::Finished;
        std::mem::swap(&mut self.step, &mut step);
        match (step, event) {
            (SignupStep::AwaitUserLookup, SignupEvent::UserLookup { found }) => {
                match self.user.check_if_already_exists_in_db(found) {
                    Err(e) => SignupAction::Finish(Err(e)),
                    Ok(()) => {
                        self.step = SignupStep::AwaitMerchantLookup;
                        SignupAction::FindMerchant {
                            merchant_id: self.user.get_new_merchant().get_merchant_id(),
                        }
                    },
                }
            },
            (SignupStep::AwaitMerchantLookup, SignupEvent::MerchantLookup { found }) => {
                match self.user.get_new_merchant().create_new_merchant_and_insert_in_db(found, self.version) {
                    Err(e) => SignupAction::Finish(Err(e)),
                    Ok(request) => {
                        self.step = SignupStep::AwaitMerchantCreation;
                        SignupAction::CreateMerchant(request)
                    },
                }
            },
            (SignupStep::AwaitMerchantCreation, SignupEvent::MerchantCreated { created }) => {
                if !created {
                    return SignupAction::Finish(Err(UserErrors::InternalServerError));
                }
                match self.user.get_password() {
                    Some(password) => {
                        self.step = SignupStep::AwaitPasswordHash;
                        SignupAction::HashPassword { password }
                    },
                    None => {
                        self.step = SignupStep::AwaitUserInsert;
                        SignupAction::InsertUser(self.user.to_user_new(None, current_date_time()))
                    },
                }
            },
            (SignupStep::AwaitPasswordHash, SignupEvent::PasswordHashed(hashed)) => match hashed {
                Ok(hash) => {
                    self.step = SignupStep::AwaitUserInsert;
                    SignupAction::InsertUser(self.user.to_user_new(Some(hash), current_date_time()))
                },
                Err(e) => {
                    self.step = SignupStep::AwaitMerchantDeletion { error: e };
                    SignupAction::DeleteMerchant { merchant_id: self.user.get_new_merchant().get_merchant_id() }
                },
            },
            (SignupStep::AwaitUserInsert, SignupEvent::UserInserted(inserted)) => {
                match NewUser::insert_user_in_db(inserted) {
                    Ok(user) => SignupAction::Finish(Ok(user)),
                    Err(error) => {
                        self.step = SignupStep::AwaitMerchantDeletion { error };
                        SignupAction::DeleteMerchant {
                            merchant_id: self.user.get_new_merchant().get_merchant_id(),
                        }
                    },
                }
            },
            (SignupStep::AwaitMerchantDeletion { error }, SignupEvent::MerchantDeleted { deleted: _ }) => {
                SignupAction::Finish(Err(error))
            },
            _ => SignupAction::Finish(Err(UserErrors::InternalServerError)),
        }
    }
}

impl NewUser {
    /// Starts creating this user together with their merchant.
    pub fn insert_user_and_merchant_in_db(self, version: PlatformVersion) -> (r: (SignupFlow, SignupAction))
        ensures
            r.0.user() == self,
            r.0.version() == version,
            r.0.step() is AwaitUserLookup,
            r.1 matches SignupAction::FindUserByEmail { email } && email@ == self.email(),
    {
        SignupFlow::start(self, version)
    }
}

/// Compensation: once the merchant is created, a user row refused as a
/// duplicate makes the flow ask to delete that merchant, and the flow then ends
/// with "user exists" whether or not the delete went through.
pub proof fn duplicate_user_after_merchant_compensates(deleted: bool)
    ensures
        user_insert_failure(Err(StoreError::UniqueViolation)) == Some(UserErrors::UserExists),
        after_compensation(UserErrors::UserExists, deleted) == Err::<UserFromStorage, UserErrors>(
            UserErrors::UserExists,
        ),
{
}

} // verus!
