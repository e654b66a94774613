use vstd::prelude::*;

use crate::error::DomainError;
use crate::models::User;

verus! {

/// Whether password_hash's `PasswordHash::new` accepts `phc` as a PHC string.
pub uninterp spec fn phc_well_formed(phc: Seq<char>) -> bool;

/// What `Argon2::verify_password` answers for `password` against the parsed
/// PHC string `phc`: `Some(true)` when it accepts, `Some(false)` when it
/// reports a mismatch, `None` for any other error (parameters it cannot use,
/// another algorithm, an output of the wrong size).
pub uninterp spec fn argon2_verdict(password: Seq<char>, phc: Seq<char>) -> Option<bool>;

/// Whether `c` is an ASCII decimal digit.
pub open spec fn is_digit(c: char) -> bool {
    '0' <= c && c <= '9'
}

/// The text names a parallelism cost of nine or more digits: `p=` followed by
/// nine digits. PHC decimals have no leading zeros, so this is a cost of at
/// least 10^8, far above Argon2's limit of 2^24 - 1.
pub open spec fn p_cost_oversized(phc: Seq<char>) -> bool {
    exists|i: int|
        0 <= i && i + 11 <= phc.len() && #[trigger] phc[i] == 'p' && phc[i + 1] == '=' && forall|
            k: int,
        |
            i + 2 <= k < i + 11 ==> is_digit(#[trigger] phc[k])
}

/// What checking `password` against the stored hash `phc` gives: `None` when
/// the hash is structurally corrupt, else whether the password matches.
pub open spec fn stored_verdict(password: Seq<char>, phc: Seq<char>) -> Option<bool> {
    if p_cost_oversized(phc) || !phc_well_formed(phc) {
        None
    } else {
        argon2_verdict(password, phc)
    }
}

/// The longest password, in characters, that is sure to hash: Argon2 takes
/// passwords of up to 2^32 - 1 bytes, and a character takes at most four.
pub const MAX_PASSWORD_CHARS: usize = 0x3FFF_FFFF;

#[verifier::external_type_specification]
#[verifier::external_body]
pub struct ExPasswordHashError(argon2::password_hash::Error);

/// Relies on password_hash's `SaltString::generate` over `rand`'s `OsRng` for
/// a fresh random salt, and on `Argon2::hash_password` with default
/// parameters, which fails only for a password over 2^32 - 1 bytes. The PHC
/// string it yields parses, carries the default parameters (`p=1`) and a B64
/// salt and output (which hold no `=`), and verifying the same password
/// against it succeeds: verification recomputes the hash with the salt and
/// parameters that the string carries and compares.
#[verifier::external_body]
fn argon2_hash(password: &str) -> (r: Result<String, argon2::password_hash::Error>)
    ensures
        password@.len() <= MAX_PASSWORD_CHARS ==> r is Ok,
        r matches Ok(h) ==> phc_well_formed(h@) && !p_cost_oversized(h@) && argon2_verdict(
            password@,
            h@,
        ) == Some(true),
{
    let salt = argon2::password_hash::SaltString::generate(&mut rand::rngs::OsRng);
    let hasher = argon2::Argon2::default();
    argon2::PasswordHasher::hash_password(&hasher, password.as_bytes(), &salt).map(|h| h.to_string())
}

/// Relies on password_hash's `PasswordHash::new`, which parses the PHC string,
/// and on `Argon2::verify_password`, which checks the password against it:
/// `Error::Password` is a mismatch, any other error is passed on. A
/// parallelism cost of 2^29 or more overflows inside `Params::new`, so such
/// texts are left out.
#[verifier::external_body]
fn argon2_verify(password: &str, phc: &str) -> (r: Result<bool, argon2::password_hash::Error>)
    requires
        !p_cost_oversized(phc@),
    ensures
        !phc_well_formed(phc@) ==> r is Err,
        phc_well_formed(phc@) ==> match argon2_verdict(password@, phc@) {
            Some(b) => r matches Ok(x) && x == b,
            None => r is Err,
        },
{
    let parsed = argon2::PasswordHash::new(phc)?;
    let verifier = argon2::Argon2::default();
    match argon2::PasswordVerifier::verify_password(&verifier, password.as_bytes(), &parsed) {
        Ok(()) => Ok(true),
        Err(argon2::password_hash::Error::Password) => Ok(false),
        Err(e) => Err(e),
    }
}

/// Whether the stored hash names an oversized parallelism cost.
pub fn has_oversized_p_cost(phc: &str) -> (r: bool)
    ensures
        r == p_cost_oversized(phc@),
{
    let n = phc.unicode_len();
    if n < 11 {
        return false;
    }
    let mut i: usize = 0;
    while i <= n - 11
        invariant
            n == phc@.len(),
            n >= 11,
            i <= n - 10,
            forall|j: int|
                0 <= j < i ==> !(#[trigger] phc@[j] == 'p' && phc@[j + 1] == '=' && forall|k: int|
                    j + 2 <= k < j + 11 ==> is_digit(#[trigger] phc@[k])),
        decreases n - i,
    {
        if phc.get_char(i) == 'p' && phc.get_char(i + 1) == '=' {
            let mut k: usize = i + 2;
            while k < i + 11 && is_digit_char(phc.get_char(k))
                invariant
                    n == phc@.len(),
                    i + 11 <= n,
                    i + 2 <= k <= i + 11,
                    forall|m: int| i + 2 <= m < k ==> is_digit(#[trigger] phc@[m]),
                decreases i + 11 - k,
            {
                k = k + 1;
            }
            if k == i + 11 {
                return true;
            }
        }
        i = i + 1;
    }
    assert forall|j: int| 0 <= j && j + 11 <= phc@.len() implies !(#[trigger] phc@[j] == 'p'
        && phc@[j + 1] == '=' && forall|k: int| j + 2 <= k < j + 11 ==> is_digit(#[trigger] phc@[k])) by {
        assert(j < i);
    }
    false
}

fn is_digit_char(c: char) -> (r: bool)
    ensures
        r == is_digit(c),
{
    '0' <= c && c <= '9'
}

/// A stored user as plain values.
pub struct UserRecord {
    pub id: i64,
    pub username: Seq<char>,
    pub password_hash: Seq<char>,
}

/// A row of the users table: the password only as its salted hash.
#[derive(Debug, Clone)]
pub struct StoredUser {
    pub id: i64,
    pub username: String,
    pub password_hash: String,
}

impl View for StoredUser {
    type V = UserRecord;

    open spec fn view(&self) -> UserRecord {
        UserRecord { id: self.id, username: self.username@, password_hash: self.password_hash@ }
    }
}

/// A user name may be stored when it is not empty; `InvalidData` otherwise.
pub fn validate_username(name: &str) -> (r: Result<(), DomainError>)
    ensures
        r is Ok <==> name@.len() > 0,
        r matches Err(e) ==> e is InvalidData,
{
    if name.unicode_len() == 0 {
        Err(DomainError::InvalidData(String::from_str("username must not be empty")))
    } else {
        Ok(())
    }
}

/// The salted Argon2 hash to store for `password`, as a PHC string that
/// verifies against the same password; `Storage` when hashing fails. Each call
/// draws a fresh salt.
pub fn hash_new_password(password: &str) -> (r: Result<String, DomainError>)
    ensures
        password@.len() <= MAX_PASSWORD_CHARS ==> r is Ok,
        r matches Ok(h) ==> stored_verdict(password@, h@) == Some(true),
        r matches Err(e) ==> e is Storage,
{
    match argon2_hash(password) {
        Ok(h) => Ok(h),
        Err(_) => Err(DomainError::Storage(String::from_str("password hashing failed"))),
    }
}

/// The answer to a login attempt: `verdict` is `None` when the stored hash
/// is malformed, else whether the password matched it. A missing user and a
/// wrong password give the same `Ok(None)`.
pub open spec fn login_answer(found: Option<(i64, Seq<char>)>, verdict: Option<bool>) -> Option<
    Option<(i64, Seq<char>)>,
> {
    match found {
        None => Some(None),
        Some(u) => match verdict {
            None => None,
            Some(true) => Some(Some(u)),
            Some(false) => Some(None),
        },
    }
}

/// The user view of an optional user.
pub open spec fn opt_user_view(u: Option<User>) -> Option<(i64, Seq<char>)> {
    match u {
        Some(u) => Some((u.id, u.username@)),
        None => None,
    }
}

/// Turns the lookup of a user and the check of the password into the result
/// of a login: `Ok(Some(user))` on a match, `Ok(None)` for a missing user or a
/// wrong password, `Storage` for a malformed stored hash.
pub fn login_outcome(found: Option<(i64, String)>, verdict: Option<bool>) -> (r: Result<
    Option<User>,
    DomainError,
>)
    ensures
        login_answer(
            match found {
                Some(u) => Some((u.0, u.1@)),
                None => None,
            },
            verdict,
        ) matches Some(a) ==> (r matches Ok(u) && opt_user_view(u) == a),
        login_answer(
            match found {
                Some(u) => Some((u.0, u.1@)),
                None => None,
            },
            verdict,
        ) is None ==> (r matches Err(e) && e is Storage),
{
    match found {
        None => Ok(None),
        Some((id, username)) => match verdict {
            None => Err(DomainError::Storage(String::from_str("invalid password hash"))),
            Some(true) => Ok(Some(User { id, username })),
            Some(false) => Ok(None),
        },
    }
}

/// The result of a login for a user row found by name (or none found),
/// checking `password` against its stored hash: a structurally corrupt hash is
/// a `Storage` error, distinct from no match.
pub fn check_credentials(found: Option<StoredUser>, password: &str) -> (r: Result<
    Option<User>,
    DomainError,
>)
    ensures
        found is None ==> (r matches Ok(u) && u is None),
        found matches Some(s) ==> match stored_verdict(password@, s.password_hash@) {
            None => r matches Err(e) && e is Storage,
            Some(true) => r matches Ok(u) && opt_user_view(u) == Some((s.id, s.username@)),
            Some(false) => r matches Ok(u) && u is None,
        },
{
    match found {
        None => login_outcome(None, None),
        Some(s) => {
            let verdict = if has_oversized_p_cost(s.password_hash.as_str()) {
                None
            } else {
                match argon2_verify(password, s.password_hash.as_str()) {
                    Ok(b) => Some(b),
                    Err(_) => None,
                }
            };
            login_outcome(Some((s.id, s.username)), verdict)
        },
    }
}

} // verus!
