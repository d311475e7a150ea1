//! Accounts: logging in with an email and password, creating the account
//! on first login, and the user id an email is given.
use vstd::prelude::*;
use std::collections::hash_map::DefaultHasher;
use std::hash::Hasher;
use vstd::std_specs::hash::DefaultHasherAdditionalSpecFns;
use crate::models::UserAccount;
use crate::text::{split_chars, split_on, string_of, chars_of};

verus! {

/// Declared so that bcrypt's error can pass through the library.
#[verifier::external_type_specification]
#[verifier::external_body]
pub struct ExBcryptError(bcrypt::BcryptError);

/// Why a login or an account creation failed.
#[derive(Debug, Clone, Copy, PartialEq, Eq)]
pub enum AccountError {
    /// The password does not match the stored hash.
    InvalidPassword,
    /// bcrypt refused to hash or to check the password.
    Hash,
}

/// What `bcrypt::verify(password, hash)` gives: whether the password matches
/// the hash, or `None` where the hash is malformed.
pub uninterp spec fn bcrypt_verify_result(password: Seq<char>, hash: Seq<char>) -> Option<bool>;

/// `bcrypt::verify`: checks a password against a stored bcrypt hash. The
/// answer is a function of the two texts alone; nothing more is claimed.
#[verifier::external_body]
fn bcrypt_verify(password: &str, hash: &str) -> (r: Result<bool, bcrypt::BcryptError>)
    ensures
        match r {
            Ok(b) => bcrypt_verify_result(password@, hash@) == Some(b),
            Err(_) => bcrypt_verify_result(password@, hash@) is None,
        },
{
    bcrypt::verify(password, hash)
}

/// `bcrypt::hash` at bcrypt's default cost. The salt is drawn from the
/// operating system's randomness, so the hash itself is not claimed; what is
/// claimed is what bcrypt documents for every salt: `verify` accepts the
/// password against the hash it made.
#[verifier::external_body]
fn bcrypt_hash(password: &str) -> (r: Result<String, bcrypt::BcryptError>)
    ensures
        r matches Ok(h) ==> bcrypt_verify_result(password@, h@) == Some(true),
{
    bcrypt::hash(password, bcrypt::DEFAULT_COST)
}

/// What `str::to_lowercase` gives: the Unicode lowercase mapping of each
/// character.
pub uninterp spec fn lowercase_of(s: Seq<char>) -> Seq<char>;

/// std's `str::to_lowercase`. Its result is a function of the text alone;
/// nothing more is claimed.
#[verifier::external_body]
fn to_lowercase(s: &str) -> (r: String)
    ensures
        r@ == lowercase_of(s@),
{
    s.to_lowercase()
}

/// The user id of an email: the std `DefaultHasher` hash of the lowercased
/// email (as `str` hashes: its bytes, then the byte `0xff`), brought into
/// the range 1 000 000 to 9 999 999.
pub open spec fn spec_user_id(email: Seq<char>) -> i64 {
    (1_000_000 + DefaultHasher::spec_finish(
        seq![vstd::utf8::encode_utf8(lowercase_of(email)), seq![0xffu8]],
    ) % 9_000_000) as i64
}

/// The user id that an account created for `email` gets; the same email in
/// any letter case gets the same id.
pub fn generate_user_id(email: &str) -> (id: i64)
    ensures
        id == spec_user_id(email@),
        1_000_000 <= id < 10_000_000,
{
    let lower = to_lowercase(email);
    let mut hasher = DefaultHasher::new();
    let ls = lower.as_str();
    let bytes = ls.as_bytes();
    assert(bytes@ == vstd::utf8::encode_utf8(lowercase_of(email@)));
    hasher.write(bytes);
    let tail: Vec<u8> = vec![0xffu8];
    assert(tail@ =~= seq![0xffu8]);
    hasher.write(tail.as_slice());
    assert(hasher@ =~= seq![vstd::utf8::encode_utf8(lowercase_of(email@)), seq![0xffu8]]);
    let h = hasher.finish();
    (1_000_000 + h % 9_000_000) as i64
}

/// Emails that differ only in letter case get the same user id.
pub proof fn lemma_user_id_ignores_case(a: Seq<char>, b: Seq<char>)
    requires
        lowercase_of(a) == lowercase_of(b),
    ensures
        spec_user_id(a) == spec_user_id(b),
{
}

/// The name an account starts with: the part of the email before the first
/// `@` (all of it where there is none).
pub open spec fn spec_username(email: Seq<char>) -> Seq<char> {
    split_on(email, '@')[0]
}

pub fn username_for(email: &str) -> (r: String)
    ensures
        r@ == spec_username(email@),
{
    let cs = chars_of(email);
    let parts = split_chars(cs.as_slice(), '@');
    proof {
        crate::text::lemma_split_on_nonempty(email@, '@');
    }
    assert(parts@[0]@ == split_on(email@, '@')[0]);
    string_of(parts[0].as_slice())
}

/// A freshly created account: named after its email, an adult with real
/// name checked, no VIP level, no tags.
pub open spec fn is_new_account(a: UserAccount, id: i64, email: Seq<char>) -> bool {
    &&& a.id == id
    &&& a.username@ == spec_username(email)
    &&& a.email@ == email
    &&& a.vip_level == 0
    &&& !a.first_join
    &&& !a.need_real_name
    &&& a.real_name_status
    &&& a.age == 18
    &&& a.is_adult
    &&& !a.need_activate
    &&& a.cipher_mark
    &&& a.account_tags@ == Seq::<char>::empty()
}

pub fn new_account(id: i64, email: &str) -> (a: UserAccount)
    ensures
        is_new_account(a, id, email@),
{
    UserAccount {
        id,
        username: username_for(email),
        email: email.to_owned(),
        vip_level: 0,
        first_join: false,
        need_real_name: false,
        real_name_status: true,
        age: 18,
        is_adult: true,
        need_activate: false,
        cipher_mark: true,
        account_tags: String::new(),
    }
}

/// Creates an account: its record and the bcrypt hash of its password to
/// store. Fails only where bcrypt fails.
pub fn create_user(id: i64, email: &str, password: &str) -> (r: Result<(UserAccount, String), AccountError>)
    ensures
        r matches Ok((a, _)) ==> is_new_account(a, id, email@),
        r matches Ok((_, h)) ==> bcrypt_verify_result(password@, h@) == Some(true),
        r matches Err(e) ==> e == AccountError::Hash,
{
    match bcrypt_hash(password) {
        Ok(h) => Ok((new_account(id, email), h)),
        Err(_) => Err(AccountError::Hash),
    }
}

/// Whether a password is that of an account: `false` where the account has
/// no stored hash, else bcrypt's answer; an error where bcrypt cannot read
/// the hash.
pub open spec fn spec_password_ok(stored_hash: Option<Seq<char>>, password: Seq<char>) -> Result<
    bool,
    AccountError,
> {
    match stored_hash {
        None => Ok(false),
        Some(h) => match bcrypt_verify_result(password, h) {
            Some(b) => Ok(b),
            None => Err(AccountError::Hash),
        },
    }
}

pub open spec fn hash_view(h: Option<&str>) -> Option<Seq<char>> {
    match h {
        Some(s) => Some(s@),
        None => None,
    }
}

pub fn verify_user_password(stored_hash: Option<&str>, password: &str) -> (r: Result<bool, AccountError>)
    ensures
        r == spec_password_ok(hash_view(stored_hash), password@),
{
    match stored_hash {
        None => Ok(false),
        Some(h) => match bcrypt_verify(password, h) {
            Ok(b) => Ok(b),
            Err(_) => Err(AccountError::Hash),
        },
    }
}

/// What a login comes to.
#[derive(Debug, Clone)]
pub enum LoginPlan {
    /// The account exists and the password matches: refresh its tokens.
    Existing(UserAccount),
    /// No account has this email: create one with this id.
    Create { user_id: i64 },
}

/// A login with `email` and `password`, given the account stored for the
/// email (if any) and its stored password hash: the existing account where
/// the password matches, `InvalidPassword` where it does not, a new account
/// where none exists.
pub fn handle_user_login(
    existing: Option<UserAccount>,
    stored_hash: Option<&str>,
    email: &str,
    password: &str,
) -> (r: Result<LoginPlan, AccountError>)
    ensures
        existing is None ==> (r matches Ok(LoginPlan::Create { user_id }) && user_id
            == spec_user_id(email@)),
        existing matches Some(u) ==> match spec_password_ok(hash_view(stored_hash), password@) {
            Ok(true) => (r matches Ok(LoginPlan::Existing(v)) && v == u),
            Ok(false) => r == Err::<LoginPlan, AccountError>(AccountError::InvalidPassword),
            Err(e) => r == Err::<LoginPlan, AccountError>(e),
        },
{
    match existing {
        Some(user) => match verify_user_password(stored_hash, password) {
            Ok(true) => Ok(LoginPlan::Existing(user)),
            Ok(false) => Err(AccountError::InvalidPassword),
            Err(e) => Err(e),
        },
        None => Ok(LoginPlan::Create { user_id: generate_user_id(email) }),
    }
}

} // verus!
