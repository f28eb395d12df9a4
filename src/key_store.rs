//! The per-user key store lifecycle as step functions: the flow says what to do
//! next, its driver does it (store, random source, key manager, cipher) and
//! reports back what happened.
use crate::dates::{current_date_time, DateTime};
use crate::errors::{StoreError, UserErrors};
use base64::Engine;
use vstd::prelude::*;

verus! {

/// A user's symmetric key, encrypted under the master key, as the store holds it.
#[derive(Clone, Debug)]
pub struct UserKeyStore {
    pub user_id: String,
    pub key: Vec<u8>,
    pub created_at: DateTime,
}

/// The standard, padded base64 form of some bytes.
pub uninterp spec fn base64_of(b: Seq<u8>) -> Seq<char>;

/// Relies on `base64::engine::general_purpose::STANDARD.encode`: the padded
/// base64 form, four characters for each started group of three bytes.
#[verifier::external_body]
fn encode_base64(b: &[u8; 32]) -> (r: String)
    ensures
        r@ == base64_of(b@),
        r@.len() == 44,
{
    base64::engine::general_purpose::STANDARD.encode(b)
}

/// What the key store flow asks its driver to do.
#[derive(Debug)]
pub enum KeyStoreAction {
    /// Look the user's key store up.
    FetchKeyStore { user_id: String },
    /// Draw a fresh random 256-bit symmetric key.
    GenerateKey,
    /// Hand a copy of the key to the external key manager.
    TransferKey { user_id: String, encoded_key: String },
    /// Encrypt the key under the master key.
    EncryptKey { user_id: String, key: [u8; 32] },
    /// Insert the new key store row.
    InsertKeyStore(UserKeyStore),
    /// The flow is over, with this result.
    Finish(Result<UserKeyStore, UserErrors>),
}

/// What the driver reports after an action.
#[derive(Debug)]
pub enum KeyStoreEvent {
    Fetched(Result<UserKeyStore, StoreError>),
    /// The fresh key, or `None` where the random source failed.
    KeyGenerated(Option<[u8; 32]>),
    /// Whether the key manager took the key.
    KeyTransferred(bool),
    /// The encrypted key, or `None` where encryption failed.
    KeyEncrypted(Option<Vec<u8>>),
    Inserted(Result<UserKeyStore, StoreError>),
}

/// Where a key store flow stands.
#[derive(Debug)]
pub enum KeyStoreStep {
    AwaitFetch,
    AwaitKey,
    AwaitTransfer { key: [u8; 32] },
    AwaitEncryption,
    AwaitInsert,
    Finished,
}

/// Fetch the user's key store, or create it where the store has none.
#[derive(Debug)]
pub struct KeyStoreFlow {
    user_id: String,
    transfer_to_key_manager: bool,
    step: KeyStoreStep,
}

/// How a fetch of the key store ends the flow, where it does: a found row is the
/// result, a failure other than "not found" is an internal error, and "not
/// found" goes on to create one.
pub open spec fn fetch_outcome(fetched: Result<UserKeyStore, StoreError>) -> Option<
    Result<UserKeyStore, UserErrors>,
> {
    match fetched {
        Ok(ks) => Some(Ok(ks)),
        Err(StoreError::NotFound) => None,
        Err(_) => Some(Err(UserErrors::InternalServerError)),
    }
}

/// How the insert of a new key store ends the flow: the row the store took, or
/// an internal error, among them the loss of a race to a concurrent insert.
pub open spec fn insert_outcome(inserted: Result<UserKeyStore, StoreError>) -> Result<
    UserKeyStore,
    UserErrors,
> {
    match inserted {
        Ok(ks) => Ok(ks),
        Err(_) => Err(UserErrors::InternalServerError),
    }
}

impl KeyStoreFlow {
    pub closed spec fn user(&self) -> Seq<char> {
        self.user_id@
    }

    pub closed spec fn transfers(&self) -> bool {
        self.transfer_to_key_manager
    }

    pub closed spec fn step(&self) -> KeyStoreStep {
        self.step
    }

    /// A flow for `user_id`; the first action fetches its key store.
    pub fn start(user_id: String, transfer_to_key_manager: bool) -> (r: (Self, KeyStoreAction))
        ensures
            r.0.user() == user_id@,
            r.0.transfers() == transfer_to_key_manager,
            r.0.step() is AwaitFetch,
            r.1 matches KeyStoreAction::FetchKeyStore { user_id: u } && u@ == user_id@,
    {
        let action = KeyStoreAction::FetchKeyStore { user_id: user_id.clone() };
        (KeyStoreFlow { user_id, transfer_to_key_manager, step: KeyStoreStep::AwaitFetch }, action)
    }

    /// The next action, given what the last one gave. An event that does not
    /// answer the last action ends the flow with an internal error.
    pub fn next(&mut self, event: KeyStoreEvent) -> (r: KeyStoreAction)
        ensures
            final(self).user() == old(self).user(),
            final(self).transfers() == old(self).transfers(),
            match (old(self).step(), event) {
                (KeyStoreStep::AwaitFetch, KeyStoreEvent::Fetched(fetched)) => match fetch_outcome(
                    fetched,
                ) {
                    Some(done) => r == KeyStoreAction::Finish(done) && final(self).step() is Finished,
                    None => r is GenerateKey && final(self).step() is AwaitKey,
                },
                (KeyStoreStep::AwaitKey, KeyStoreEvent::KeyGenerated(None)) => r
                    == KeyStoreAction::Finish(Err(UserErrors::InternalServerError))
                    && final(self).step() is Finished,
                (KeyStoreStep::AwaitKey, KeyStoreEvent::KeyGenerated(Some(key))) => if old(self).transfers() {
                    &&& r matches KeyStoreAction::TransferKey { user_id, encoded_key } && user_id@
                        == old(self).user() && encoded_key@ == base64_of(key@)
                    &&& final(self).step() == (KeyStoreStep::AwaitTransfer { key })
                } else {
                    r matches KeyStoreAction::EncryptKey { user_id, key: k } && user_id@ == old(self).user() && k == key && final(self).step() is AwaitEncryption
                },
                (KeyStoreStep::AwaitTransfer { key }, KeyStoreEvent::KeyTransferred(ok)) => if ok {
                    r matches KeyStoreAction::EncryptKey { user_id, key: k } && user_id@ == old(self).user() && k == key && final(self).step() is AwaitEncryption
                } else {
                    r == KeyStoreAction::Finish(Err(UserErrors::InternalServerError)) && final(self).step() is Finished
                },
                (KeyStoreStep::AwaitEncryption, KeyStoreEvent::KeyEncrypted(None)) => r
                    == KeyStoreAction::Finish(Err(UserErrors::InternalServerError))
                    && final(self).step() is Finished,
                (KeyStoreStep::AwaitEncryption, KeyStoreEvent::KeyEncrypted(Some(encrypted))) => r
                    matches KeyStoreAction::InsertKeyStore(ks) && ks.user_id@ == old(self).user()
                    && ks.key == encrypted && ks.created_at.wf() && final(self).step() is AwaitInsert,
                (KeyStoreStep::AwaitInsert, KeyStoreEvent::Inserted(inserted)) => r
                    == KeyStoreAction::Finish(insert_outcome(inserted)) && final(self).step() is Finished,
                _ => r == KeyStoreAction::Finish(Err(UserErrors::InternalServerError)) && final(self).step() is Finished,
            },
    {
        let mut step = KeyStoreStep::Finished;
        std::mem::swap(&mut self.step, &mut step);
        match (step, event) {
            (KeyStoreStep::AwaitFetch, KeyStoreEvent::Fetched(fetched)) => match fetched {
                Ok(ks) => KeyStoreAction::Finish(Ok(ks)),
                Err(StoreError::NotFound) => {
                    self.step = KeyStoreStep::AwaitKey;
                    KeyStoreAction::GenerateKey
                },
                Err(_) => KeyStoreAction::Finish(Err(UserErrors::InternalServerError)),
            },
            (KeyStoreStep::AwaitKey, KeyStoreEvent::KeyGenerated(generated)) => match generated {
                None => KeyStoreAction::Finish(Err(UserErrors::InternalServerError)),
                Some(key) => {
                    if self.transfer_to_key_manager {
                        let encoded_key = encode_base64(&key);
                        self.step = KeyStoreStep::AwaitTransfer { key };
                        KeyStoreAction::TransferKey { user_id: self.user_id.clone(), encoded_key }
                    } else {
                        self.step = KeyStoreStep::AwaitEncryption;
                        KeyStoreAction::EncryptKey { user_id: self.user_id.clone(), key }
                    }
                },
            },
            (KeyStoreStep::AwaitTransfer { key }, KeyStoreEvent::KeyTransferred(ok)) => {
                if ok {
                    self.step = KeyStoreStep::AwaitEncryption;
                    KeyStoreAction::EncryptKey { user_id: self.user_id.clone(), key }
                } else {
                    KeyStoreAction::Finish(Err(UserErrors::InternalServerError))
                }
            },
            (KeyStoreStep::AwaitEncryption, KeyStoreEvent::KeyEncrypted(encrypted)) => match encrypted {
                None => KeyStoreAction::Finish(Err(UserErrors::InternalServerError)),
                Some(key) => {
                    self.step = KeyStoreStep::AwaitInsert;
                    KeyStoreAction::InsertKeyStore(
                        UserKeyStore {
                            user_id: self.user_id.clone(),
                            key,
                            created_at: current_date_time(),
                        },
                    )
                },
            },
            (KeyStoreStep::AwaitInsert, KeyStoreEvent::Inserted(inserted)) => match inserted {
                Ok(ks) => KeyStoreAction::Finish(Ok(ks)),
                Err(_) => KeyStoreAction::Finish(Err(UserErrors::InternalServerError)),
            },
            _ => KeyStoreAction::Finish(Err(UserErrors::InternalServerError)),
        }
    }
}

/// Two flows for the same new user race to insert a key store. The store's
/// uniqueness constraint lets at most one insert through, so at most one flow
/// ends with a key store it created; the other ends in an internal error and
/// never hands out a key of its own. (`KeyStoreFlow::next` ends a flow that
/// waits on its insert with exactly `insert_outcome` of the store's answer.)
pub proof fn racing_key_store_inserts_have_one_winner(
    first: Result<UserKeyStore, StoreError>,
    second: Result<UserKeyStore, StoreError>,
)
    requires
        !(first is Ok && second is Ok),
    ensures
        !(insert_outcome(first) is Ok && insert_outcome(second) is Ok),
        first is Err ==> insert_outcome(first) == Err::<UserKeyStore, UserErrors>(
            UserErrors::InternalServerError,
        ),
        second is Err ==> insert_outcome(second) == Err::<UserKeyStore, UserErrors>(
            UserErrors::InternalServerError,
        ),
{
}

/// What the TOTP secret flow asks its driver to do.
#[derive(Debug)]
pub enum TotpSecretAction {
    FetchKeyStore { user_id: String },
    /// Decrypt the stored secret with the key store's key.
    Decrypt { user_id: String, ciphertext: Vec<u8>, key: Vec<u8> },
    Finish(Result<Option<String>, UserErrors>),
}

/// What the driver reports after a TOTP secret action.
#[derive(Debug)]
pub enum TotpSecretEvent {
    Fetched(Result<UserKeyStore, StoreError>),
    /// The plaintext secret, or `None` where decryption failed.
    Decrypted(Option<String>),
}

/// Where a TOTP secret flow stands.
#[derive(Debug)]
pub enum TotpSecretStep {
    AwaitFetch { ciphertext: Vec<u8> },
    AwaitDecryption,
    Finished,
}

/// Read a user's TOTP secret: nothing where none is stored, else decrypt it
/// with the user's key.
#[derive(Debug)]
pub struct TotpSecretFlow {
    step: TotpSecretStep,
}

impl TotpSecretFlow {
    pub closed spec fn step(&self) -> TotpSecretStep {
        self.step
    }

    pub fn start(user_id: &String, totp_secret: Option<Vec<u8>>) -> (r: (Self, TotpSecretAction))
        ensures
            totp_secret is None ==> (r.1 == TotpSecretAction::Finish(Ok(None)) && (r.0.step() is Finished)),
            totp_secret matches Some(c) ==> (r.1 matches TotpSecretAction::FetchKeyStore { user_id: u }
                && u@ == user_id@ && r.0.step() == (TotpSecretStep::AwaitFetch { ciphertext: c })),
    {
        match totp_secret {
            None => (
                TotpSecretFlow { step: TotpSecretStep::Finished },
                TotpSecretAction::Finish(Ok(None)),
            ),
            Some(ciphertext) => (
                TotpSecretFlow { step: TotpSecretStep::AwaitFetch { ciphertext } },
                TotpSecretAction::FetchKeyStore { user_id: user_id.clone() },
            ),
        }
    }

    /// The next action. A failed fetch or decryption is an internal error, never
    /// an absent secret.
    pub fn next(&mut self, event: TotpSecretEvent) -> (r: TotpSecretAction)
        ensures
            match (old(self).step(), event) {
                (TotpSecretStep::AwaitFetch { ciphertext: c }, TotpSecretEvent::Fetched(Ok(ks))) => r
                    == TotpSecretAction::Decrypt { user_id: ks.user_id, ciphertext: c, key: ks.key }
                    && final(self).step() is AwaitDecryption,
                (TotpSecretStep::AwaitDecryption, TotpSecretEvent::Decrypted(Some(secret))) => r
                    == TotpSecretAction::Finish(Ok(Some(secret))) && final(self).step() is Finished,
                _ => r == TotpSecretAction::Finish(Err(UserErrors::InternalServerError)) && final(self).step() is Finished,
            },
    {
        let mut step = TotpSecretStep::Finished;
        std::mem::swap(&mut self.step, &mut step);
        match (step, event) {
            (TotpSecretStep::AwaitFetch { ciphertext }, TotpSecretEvent::Fetched(Ok(ks))) => {
                self.step = TotpSecretStep::AwaitDecryption;
                TotpSecretAction::Decrypt { user_id: ks.user_id, ciphertext, key: ks.key }
            },
            (TotpSecretStep::AwaitDecryption, TotpSecretEvent::Decrypted(Some(secret))) => {
                TotpSecretAction::Finish(Ok(Some(secret)))
            },
            _ => TotpSecretAction::Finish(Err(UserErrors::InternalServerError)),
        }
    }
}

} // verus!
