//! Recovery codes for two-factor login: shown to the user once, kept only hashed.
use crate::errors::UserErrors;
use crate::ids::random_alphanumeric;
use crate::text::ascii_alphanumeric_char;
use vstd::prelude::*;
use vstd::string::StringExecFns;

verus! {

/// How many recovery codes a user gets.
pub const RECOVERY_CODES_COUNT: usize = 8;

/// The length of a recovery code, the separator aside.
pub const RECOVERY_CODE_LENGTH: usize = 8;

/// A recovery code: two halves of random letters and digits joined by `-`.
pub open spec fn is_recovery_code(c: Seq<char>) -> bool {
    let half = (RECOVERY_CODE_LENGTH / 2) as int;
    &&& c.len() == 2 * half + 1
    &&& c[half] == '-'
    &&& forall|i: int| 0 <= i < c.len() && i != half ==> ascii_alphanumeric_char(#[trigger] c[i])
}

/// A set of recovery codes in plaintext.
#[derive(Debug)]
pub struct RecoveryCodes(pub Vec<String>);

impl RecoveryCodes {
    fn new_code() -> (r: String)
        ensures
            is_recovery_code(r@),
    {
        let code_part_1 = random_alphanumeric(RECOVERY_CODE_LENGTH / 2);
        let code_part_2 = random_alphanumeric(RECOVERY_CODE_LENGTH / 2);
        let code = code_part_1.concat("-").concat(code_part_2.as_str());
        proof {
            reveal_strlit("-");
            let half = (RECOVERY_CODE_LENGTH / 2) as int;
            assert(code@[half] == '-');
            assert forall|i: int| 0 <= i < code@.len() && i != half implies ascii_alphanumeric_char(
                #[trigger] code@[i],
            ) by {
                if i < half {
                    assert(code@[i] == code_part_1@[i]);
                } else {
                    assert(code@[i] == code_part_2@[i - half - 1]);
                }
            }
        }
        code
    }

    /// A fresh set of `RECOVERY_CODES_COUNT` random codes.
    pub fn generate_new() -> (r: Self)
        ensures
            r.0@.len() == RECOVERY_CODES_COUNT,
            forall|i: int| 0 <= i < r.0@.len() ==> is_recovery_code(#[trigger] r.0@[i]@),
    {
        let mut recovery_codes: Vec<String> = Vec::new();
        let mut n: usize = 0;
        while n < RECOVERY_CODES_COUNT
            invariant
                n <= RECOVERY_CODES_COUNT,
                recovery_codes@.len() == n,
                forall|i: int| 0 <= i < n ==> is_recovery_code(#[trigger] recovery_codes@[i]@),
            decreases RECOVERY_CODES_COUNT - n,
        {
            recovery_codes.push(Self::new_code());
            n += 1;
        }
        RecoveryCodes(recovery_codes)
    }

    /// Every code passed through `hash`, in order; the first failure of `hash`
    /// fails the whole.
    pub fn get_hashed<F>(&self, hash: F) -> (r: Result<Vec<String>, UserErrors>) where
        F: Fn(&String) -> Result<String, UserErrors>,

        requires
            forall|c: &String| hash.requires((c,)),
        ensures
            r matches Ok(hashes) ==> {
                &&& hashes@.len() == self.0@.len()
                &&& forall|i: int|
                    0 <= i < self.0@.len() ==> hash.ensures((&self.0@[i],), Ok(#[trigger] hashes@[i]))
            },
            r matches Err(e) ==> exists|i: int|
                0 <= i < self.0@.len() && hash.ensures((&self.0@[i],), Err(e)),
    {
        let mut hashes: Vec<String> = Vec::new();
        let mut i: usize = 0;
        while i < self.0.len()
            invariant
                i <= self.0@.len(),
                hashes@.len() == i,
                forall|c: &String| hash.requires((c,)),
                forall|j: int| 0 <= j < i ==> hash.ensures((&self.0@[j],), Ok(#[trigger] hashes@[j])),
            decreases self.0@.len() - i,
        {
            match hash(&self.0[i]) {
                Ok(h) => {
                    hashes.push(h);
                },
                Err(e) => {
                    assert(hash.ensures((&self.0@[i as int],), Err(e)));
                    return Err(e);
                },
            }
            i += 1;
        }
        Ok(hashes)
    }

    pub fn into_inner(self) -> (r: Vec<String>)
        ensures
            r == self.0,
    {
        self.0
    }
}

} // verus!
