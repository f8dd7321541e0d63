use vstd::prelude::*;

verus! {

/// An account, as stored. Timestamps are kept as the text the database
/// reports; nothing here reads them.
#[derive(Debug)]
pub struct User {
    pub id: i64,
    pub uuid: String,
    pub username: String,
    /// The Argon2 PHC string of the account's password.
    pub password: String,
    /// The API key that authenticates the account's requests.
    pub key: String,
    /// How many bytes the account may keep stored.
    pub quota: i64,
    /// How many bytes the account keeps stored.
    pub used: i64,
    pub permissions: i64,
    pub created_at: String,
    pub updated_at: String,
}

/// An upload, as stored. `file_type` is the MIME type the uploader gave.
#[derive(Debug)]
pub struct File {
    pub id: i64,
    pub uuid: String,
    pub name: String,
    pub file_type: String,
    /// SHA3-512 of the uploaded bytes, as lowercase hexadecimal.
    pub hash: String,
    /// The length of the uploaded bytes.
    pub size: i64,
    pub user_id: i64,
    pub created_at: String,
}

/// The row to insert for a new upload.
#[derive(Debug)]
pub struct NewFile {
    pub uuid: String,
    pub name: String,
    pub file_type: String,
    pub hash: String,
    pub size: i64,
    pub user_id: i64,
}

/// The row to insert for a new account.
#[derive(Debug)]
pub struct NewUser {
    pub uuid: String,
    pub username: String,
    pub password: String,
    pub key: String,
    pub quota: i64,
    pub used: i64,
    pub permissions: i64,
}

} // verus!
