//! Lumen: a self-hosted upload service whose uploads are sealed with
//! AES-256-GCM-SIV under a key that only the uploader receives.
//!
//! This crate holds the service's logic: the cipher and its encodings, the
//! storage layout, and the decisions each request handler makes.

pub mod storage;
pub mod text;
pub mod encryption;
pub mod digest;
pub mod utils;
pub mod password;
pub mod models;
pub mod reply;
pub mod routes;
pub mod ledger;

pub use storage::Storage;
pub use encryption::{Cipher, CipherError};
pub use models::{File, NewFile, NewUser, User};
pub use reply::{Reply, Status};
pub use routes::gen::{ConfigRequest, SXConfig};
pub use utils::generate_uuid;
