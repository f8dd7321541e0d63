use vstd::prelude::*;
use vstd::string::StringSliceAdditionalSpecFns;

use crate::models::{NewUser, User};
use crate::password::{argon2_phc, hash_password, is_salt_of_16_bytes, MAX_PASSWORD_BYTES};
use crate::reply::{is_reply, Reply, Status};
use crate::text::{i64_to_decimal, signed_decimal};
use crate::utils::{generate_uuid, is_uuid_text, is_v4, uuid_text};

verus! {

/// The storage quota of a new account: 1 GiB.
pub const DEFAULT_QUOTA: i64 = 1073741824;

/// The usage of a new account.
pub const DEFAULT_USED: i64 = 0;

/// The permissions of a new account.
pub const DEFAULT_PERMISSIONS: i64 = 0;

/// The public view of an account.
#[derive(Debug)]
pub struct UserResponse {
    pub id: i64,
    pub uuid: String,
    pub username: String,
    pub quota: i64,
    pub used: i64,
    pub permissions: i64,
}

impl UserResponse {
    /// The public view of `user`: everything but its password hash, API key
    /// and timestamps.
    pub fn from_user(user: &User) -> (r: UserResponse)
        ensures
            r.id == user.id,
            r.uuid@ == user.uuid@,
            r.username@ == user.username@,
            r.quota == user.quota,
            r.used == user.used,
            r.permissions == user.permissions,
    {
        UserResponse {
            id: user.id,
            uuid: user.uuid.clone(),
            username: user.username.clone(),
            quota: user.quota,
            used: user.used,
            permissions: user.permissions,
        }
    }
}

/// What a new account is answered with: its public view and its API key.
#[derive(Debug)]
pub struct RegisterResponse {
    pub id: i64,
    pub uuid: String,
    pub username: String,
    pub key: String,
    pub quota: i64,
    pub used: i64,
    pub permissions: i64,
}

impl RegisterResponse {
    /// The answer for the account `user` just created.
    pub fn from_user(user: &User) -> (r: RegisterResponse)
        ensures
            r.id == user.id,
            r.uuid@ == user.uuid@,
            r.username@ == user.username@,
            r.key@ == user.key@,
            r.quota == user.quota,
            r.used == user.used,
            r.permissions == user.permissions,
    {
        RegisterResponse {
            id: user.id,
            uuid: user.uuid.clone(),
            username: user.username.clone(),
            key: user.key.clone(),
            quota: user.quota,
            used: user.used,
            permissions: user.permissions,
        }
    }
}

/// The refusal of a request for an account id that is not on record.
pub fn user_not_found(id: i64, error: &str) -> (reply: Reply)
    ensures
        is_reply(
            reply,
            Status::NotFound,
            "User "@ + signed_decimal(id as int) + " not found, "@ + error@,
        ),
{
    let mut body = String::from_str("User ");
    body.append(i64_to_decimal(id).as_str());
    body.append(" not found, ");
    body.append(error);
    Reply { status: Status::NotFound, body }
}

/// The refusal of a registration whose username or password is empty.
pub fn empty_credentials() -> (reply: Reply)
    ensures
        is_reply(reply, Status::BadRequest, "Username and password must not be empty"@),
{
    Reply::new(Status::BadRequest, "Username and password must not be empty")
}

/// The check a registration passes before anything else: neither the
/// username nor the password may be empty.
pub fn validate_registration(username: &str, password: &str) -> (res: Result<(), Reply>)
    ensures
        res is Ok <==> (username@.len() > 0 && password@.len() > 0),
        res matches Err(r) ==> is_reply(
            r,
            Status::BadRequest,
            "Username and password must not be empty"@,
        ),
{
    if username.unicode_len() == 0 || password.unicode_len() == 0 {
        return Err(empty_credentials());
    }
    Ok(())
}

/// The password hash to record for a new account, made under a fresh random
/// 16-byte salt. An empty password is refused before hashing; otherwise
/// hashing fails only for a password over Argon2's length limit.
pub fn register_password(password: &str) -> (res: Result<String, Reply>)
    ensures
        res matches Ok(hash) ==> password@.len() > 0 && exists|salt: Seq<char>|
            is_salt_of_16_bytes(salt) && argon2_phc(password@, salt) == Some(hash@),
        if password@.len() == 0 {
            res matches Err(r) && is_reply(
                r,
                Status::BadRequest,
                "Username and password must not be empty"@,
            )
        } else {
            &&& password.spec_bytes().len() <= MAX_PASSWORD_BYTES ==> res is Ok
            &&& res matches Err(r) ==> is_reply(
                r,
                Status::InternalServerError,
                "Failed to hash password"@,
            )
        },
{
    if password.unicode_len() == 0 {
        return Err(empty_credentials());
    }
    match hash_password(password) {
        Ok(hash) => Ok(hash),
        Err(_) => Err(Reply::new(Status::InternalServerError, "Failed to hash password")),
    }
}

/// The account to create for `username` with the given password hash,
/// filed under `uuid` and authenticated by `key`; refused when the name is
/// empty, or else taken. New accounts start with the default quota, nothing
/// used and no permissions.
pub fn plan_registration_with(
    username: &str,
    password_hash: String,
    username_taken: bool,
    uuid: String,
    key: String,
) -> (res: Result<NewUser, Reply>)
    ensures
        if username@.len() == 0 {
            res matches Err(r) && is_reply(
                r,
                Status::BadRequest,
                "Username and password must not be empty"@,
            )
        } else if username_taken {
            res matches Err(r) && is_reply(r, Status::Conflict, "Username already exists"@)
        } else {
            res matches Ok(u) && u.uuid@ == uuid@ && u.username@ == username@ && u.password@
                == password_hash@ && u.key@ == key@ && u.quota == DEFAULT_QUOTA && u.used
                == DEFAULT_USED && u.permissions == DEFAULT_PERMISSIONS
        },
{
    if username.unicode_len() == 0 {
        return Err(empty_credentials());
    }
    if username_taken {
        return Err(Reply::new(Status::Conflict, "Username already exists"));
    }
    Ok(
        NewUser {
            uuid,
            username: String::from_str(username),
            password: password_hash,
            key,
            quota: DEFAULT_QUOTA,
            used: DEFAULT_USED,
            permissions: DEFAULT_PERMISSIONS,
        },
    )
}

/// The account to create for `username`, filed under a fresh random
/// (version 4) UUID and given another as its API key; refused when the name
/// is empty, or else taken.
pub fn plan_registration(username: &str, password_hash: String, username_taken: bool) -> (res:
    Result<NewUser, Reply>)
    ensures
        if username@.len() == 0 {
            res matches Err(r) && is_reply(
                r,
                Status::BadRequest,
                "Username and password must not be empty"@,
            )
        } else if username_taken {
            res matches Err(r) && is_reply(r, Status::Conflict, "Username already exists"@)
        } else {
            res matches Ok(u) && is_uuid_text(u.uuid@) && is_uuid_text(u.key@) && (exists|v: u128|
                is_v4(v) && u.uuid@ == uuid_text(v)) && (exists|v: u128|
                is_v4(v) && u.key@ == uuid_text(v)) && u.username@ == username@ && u.password@
                == password_hash@ && u.quota == DEFAULT_QUOTA && u.used == DEFAULT_USED
                && u.permissions == DEFAULT_PERMISSIONS
        },
{
    if username.unicode_len() == 0 {
        return Err(empty_credentials());
    }
    if username_taken {
        return Err(Reply::new(Status::Conflict, "Username already exists"));
    }
    let uuid = generate_uuid();
    let key = generate_uuid();
    plan_registration_with(username, password_hash, false, uuid, key)
}

/// The refusal when recording a new account fails.
pub fn user_creation_failed() -> (reply: Reply)
    ensures
        is_reply(reply, Status::InternalServerError, "Failed to create user"@),
{
    Reply::new(Status::InternalServerError, "Failed to create user")
}

} // verus!
