use lumen::routes::file::{
    authorize_delete, confirm_delete, deleted, file_id, file_not_found, open_download,
    encryption_requested, prepare_upload, prepare_upload_with, purge_targets, purged,
};
use lumen::routes::gen::status_message;
use lumen::routes::user::{
    plan_registration, plan_registration_with, register_password, user_creation_failed,
    user_not_found, validate_registration, RegisterResponse, UserResponse, DEFAULT_PERMISSIONS, DEFAULT_QUOTA,
    DEFAULT_USED,
};
use lumen::routes::{require_api_key, require_user};
use lumen::{Cipher, File, SXConfig, Status, User};

fn user(id: i64, quota: i64, used: i64) -> User {
    User {
        id,
        uuid: "6f1c2a7e-0000-4000-8000-000000000001".to_string(),
        username: "alice".to_string(),
        password: "$argon2id$...".to_string(),
        key: "secret-key".to_string(),
        quota,
        used,
        permissions: 0,
        created_at: "2023-10-31 12:00:00".to_string(),
        updated_at: "2023-10-31 12:00:00".to_string(),
    }
}

fn record(uuid: &str, name: &str, file_type: &str, size: i64, user_id: i64) -> File {
    File {
        id: 1,
        uuid: uuid.to_string(),
        name: name.to_string(),
        file_type: file_type.to_string(),
        hash: String::new(),
        size,
        user_id,
        created_at: "2023-10-31 12:00:00".to_string(),
    }
}

fn some(s: &str) -> Option<String> {
    Some(s.to_string())
}

#[test]
fn missing_api_key_is_refused() {
    let reply = require_api_key(None).unwrap_err();
    assert_eq!(reply.status, Status::Unauthorized);
    assert_eq!(reply.body, "Invalid API key");
    assert_eq!(require_api_key(some("k")).unwrap(), "k");
}

#[test]
fn unknown_account_is_refused() {
    let reply = require_user(None).unwrap_err();
    assert_eq!(reply.status, Status::Unauthorized);
    assert_eq!(reply.body, "Invalid API key");
    assert_eq!(require_user(Some(user(4, 10, 0))).unwrap().id, 4);
}

#[test]
fn upload_without_account_is_refused() {
    let cipher = Cipher::default();
    let r = prepare_upload_with(None, b"x", some("a.png"), some("image/png"), true, "id".to_string(), &cipher);
    let reply = r.err().unwrap();
    assert_eq!(reply.status, Status::Unauthorized);
    assert_eq!(reply.body, "Invalid API key");
}

#[test]
fn upload_over_quota_is_refused() {
    let cipher = Cipher::default();
    let r = prepare_upload_with(Some(user(1, 10, 6)), b"12345", some("a"), some("text/plain"), true, "id".to_string(), &cipher);
    let reply = r.err().unwrap();
    assert_eq!(reply.status, Status::PayloadTooLarge);
    assert_eq!(reply.body, "Quota exceeded");
}

#[test]
fn upload_filling_the_quota_exactly_is_accepted() {
    let cipher = Cipher::default();
    let r = prepare_upload_with(Some(user(1, 10, 5)), b"12345", some("a"), some("text/plain"), true, "id".to_string(), &cipher);
    assert!(r.is_ok());
}

#[test]
fn upload_quota_check_does_not_overflow() {
    let cipher = Cipher::default();
    let r = prepare_upload_with(Some(user(1, i64::MAX, i64::MAX)), b"1", some("a"), some("text/plain"), true, "id".to_string(), &cipher);
    assert_eq!(r.err().unwrap().status, Status::PayloadTooLarge);
}

#[test]
fn upload_without_file_name_is_refused() {
    let cipher = Cipher::default();
    let r = prepare_upload_with(Some(user(1, 100, 0)), b"x", None, some("image/png"), true, "id".to_string(), &cipher);
    let reply = r.err().unwrap();
    assert_eq!(reply.status, Status::BadRequest);
    assert_eq!(reply.body, "Missing file name");
}

#[test]
fn upload_without_file_type_is_refused() {
    let cipher = Cipher::default();
    let r = prepare_upload_with(Some(user(1, 100, 0)), b"x", some("a.png"), None, true, "id".to_string(), &cipher);
    let reply = r.err().unwrap();
    assert_eq!(reply.status, Status::BadRequest);
    assert_eq!(reply.body, "Missing file type");
}

#[test]
fn accepted_upload_records_and_answers() {
    let cipher = Cipher::from_bytes(vec![7u8; 32], vec![9u8; 12]);
    let content = b"hello".to_vec();
    let p = prepare_upload_with(Some(user(3, 100, 0)), &content, some("hello.txt"), some("text/plain"), true, "file-1".to_string(), &cipher).ok().unwrap();
    assert_eq!(p.file.uuid, "file-1");
    assert_eq!(p.file.name, "hello.txt");
    assert_eq!(p.file.file_type, "text/plain");
    assert_eq!(p.file.size, 5);
    assert_eq!(p.file.user_id, 3);
    assert_eq!(p.file.hash, lumen::digest::file_hash(&content));
    assert_eq!(p.stored, cipher.encrypt(&content).unwrap());
    assert_eq!(p.response.id, "file-1");
    assert_eq!(p.response.ext, "plain");
    let (key, nonce) = cipher.to_base64();
    assert_eq!(p.response.key, key);
    assert_eq!(p.response.nonce, nonce);
}

#[test]
fn download_gives_back_the_upload() {
    let content = b"the uploaded bytes".to_vec();
    let p = prepare_upload(Some(user(3, 1000, 0)), &content, some("notes.txt"), some("text/plain"), true).ok().unwrap();
    let file = record(&p.file.uuid, &p.file.name, &p.file.file_type, p.file.size, 3);
    let d = open_download(&file, &p.response.key, &p.response.nonce, &p.stored).ok().unwrap();
    assert_eq!(d.body, content);
    assert_eq!(d.content_disposition, "filename=\"notes.txt\"");
    assert_eq!(d.content_length, "18");
    assert_eq!(d.content_type, "text/plain");
}

#[test]
fn download_link_names_the_stored_file() {
    let p = prepare_upload(Some(user(3, 1000, 0)), b"png bytes", some("a.png"), some("image/png"), true).ok().unwrap();
    let link = format!("{}.{}", p.response.id, p.response.ext);
    assert_eq!(p.response.ext, "png");
    assert_eq!(file_id(&link), p.file.uuid);
    assert_eq!(file_id(&p.response.id), p.file.uuid);
}

#[test]
fn download_with_another_key_is_refused() {
    let p = prepare_upload(Some(user(3, 1000, 0)), b"secret", some("s"), some("text/plain"), true).ok().unwrap();
    let file = record(&p.file.uuid, "s", "text/plain", 6, 3);
    let (key, nonce) = Cipher::default().to_base64();
    let reply = open_download(&file, &key, &nonce, &p.stored).err().unwrap();
    assert_eq!(reply.status, Status::Unauthorized);
    assert_eq!(reply.body, "Invalid decryption key or nonce");
    let reply = open_download(&file, "not base64!", &p.response.nonce, &p.stored).err().unwrap();
    assert_eq!(reply.body, "Invalid decryption key or nonce");
    let reply = open_download(&file, "AAAA", &p.response.nonce, &p.stored).err().unwrap();
    assert_eq!(reply.body, "Invalid decryption key or nonce");
}

#[test]
fn file_not_found_message() {
    let reply = file_not_found("abc", "no rows returned");
    assert_eq!(reply.status, Status::NotFound);
    assert_eq!(reply.body, "File abc not found, no rows returned");
}

#[test]
fn delete_needs_the_owner() {
    let file = record("f", "a", "text/plain", 3, 1);
    assert_eq!(authorize_delete(&file, None).err().unwrap().body, "Invalid API key");
    let other = authorize_delete(&file, Some(user(2, 10, 0))).err().unwrap();
    assert_eq!(other.status, Status::Unauthorized);
    assert_eq!(other.body, "Invalid API key");
    assert_eq!(authorize_delete(&file, Some(user(1, 10, 3))).ok().unwrap().id, 1);
}

#[test]
fn delete_needs_the_key_that_opens_the_file() {
    let owner = user(1, 100, 0);
    let p = prepare_upload(Some(user(1, 100, 0)), b"data", some("a"), some("text/plain"), true).ok().unwrap();
    let file = record(&p.file.uuid, "a", "text/plain", 4, 1);
    let (key, nonce) = Cipher::default().to_base64();
    let reply = confirm_delete(&file, &owner, &key, &nonce, &p.stored).err().unwrap();
    assert_eq!(reply.status, Status::Unauthorized);
    assert_eq!(reply.body, "Invalid decryption key or nonce");
    let plan = confirm_delete(&file, &owner, &p.response.key, &p.response.nonce, &p.stored).ok().unwrap();
    assert_eq!(plan.uuid, p.file.uuid);
    assert_eq!(plan.user_id, 1);
    assert_eq!(plan.refund, p.file.size);
    let done = deleted();
    assert_eq!(done.status, Status::Success);
    assert_eq!(done.body, "Deleted file");
}

#[test]
fn purge_removes_every_file_of_the_account() {
    let files = vec![record("a", "x", "t", 1, 1), record("b", "y", "t", 2, 1)];
    assert_eq!(purge_targets(&files), vec!["a".to_string(), "b".to_string()]);
    assert!(purge_targets(&Vec::new()).is_empty());
    let reply = purged();
    assert_eq!(reply.status, Status::Success);
    assert_eq!(reply.body, "Purged all files");
}

#[test]
fn index_greeting() {
    assert_eq!(
        status_message("0.1.0", 2, 13),
        "This server is running Lumen v0.1.0\nServing 2 users and 13 files"
    );
    assert_eq!(
        status_message("0.1.0", 0, 0),
        "This server is running Lumen v0.1.0\nServing 0 users and 0 files"
    );
}

#[test]
fn sharex_configuration() {
    let c = SXConfig::new("https://i.example.com", "key123");
    assert_eq!(c.request_url, "https://i.example.com/upload");
    assert_eq!(c.api_key, "key123");
    assert_eq!(c.file_name, "{filename}");
    assert_eq!(c.request_method, "POST");
    assert_eq!(c.body, "Binary");
    assert_eq!(c.url, "https://i.example.com/{json:id}.{json:ext}?key={json:key}&nonce={json:nonce}");
    assert_eq!(
        c.deletion_url,
        "https://i.example.com/{json:id}/delete?api_key=key123&key={json:key}&nonce={json:nonce}"
    );
}

#[test]
fn user_not_found_message() {
    let reply = user_not_found(42, "no rows returned");
    assert_eq!(reply.status, Status::NotFound);
    assert_eq!(reply.body, "User 42 not found, no rows returned");
    assert_eq!(user_not_found(-1, "e").body, "User -1 not found, e");
}

#[test]
fn public_views_of_an_account() {
    let u = user(9, 100, 40);
    let view = UserResponse::from_user(&u);
    assert_eq!((view.id, view.quota, view.used, view.permissions), (9, 100, 40, 0));
    assert_eq!(view.username, "alice");
    let answer = RegisterResponse::from_user(&u);
    assert_eq!(answer.key, "secret-key");
    assert_eq!(answer.uuid, u.uuid);
}

#[test]
fn registration_of_a_taken_name_is_refused() {
    let reply = plan_registration("alice", "hash".to_string(), true).err().unwrap();
    assert_eq!(reply.status, Status::Conflict);
    assert_eq!(reply.body, "Username already exists");
}

#[test]
fn registration_defaults() {
    let u = plan_registration_with("bob", "hash".to_string(), false, "u".to_string(), "k".to_string()).ok().unwrap();
    assert_eq!((u.uuid.as_str(), u.username.as_str(), u.password.as_str(), u.key.as_str()), ("u", "bob", "hash", "k"));
    assert_eq!((u.quota, u.used, u.permissions), (1073741824, 0, 0));
    assert_eq!((DEFAULT_QUOTA, DEFAULT_USED, DEFAULT_PERMISSIONS), (1073741824, 0, 0));
    let fresh = plan_registration("carol", "hash".to_string(), false).ok().unwrap();
    assert_eq!(fresh.uuid.len(), 36);
    assert_eq!(fresh.key.len(), 36);
    assert_ne!(fresh.uuid, fresh.key);
}

#[test]
fn registration_hashes_the_password() {
    let hash = register_password("hunter2").ok().unwrap();
    assert!(hash.starts_with("$argon2id$"));
    let failed = user_creation_failed();
    assert_eq!(failed.status, Status::InternalServerError);
    assert_eq!(failed.body, "Failed to create user");
}

#[test]
fn encryption_is_opt_out() {
    assert!(encryption_requested(None));
    assert!(encryption_requested(some("true")));
    assert!(!encryption_requested(some("false")));
}

#[test]
fn unencrypted_upload_is_kept_as_sent() {
    let cipher = Cipher::default();
    let content = b"plain bytes".to_vec();
    let p = prepare_upload_with(Some(user(3, 100, 0)), &content, some("p.txt"), some("text/plain"), false, "plain-1".to_string(), &cipher).ok().unwrap();
    assert_eq!(p.stored, content);
    assert_eq!(p.response.key, "");
    assert_eq!(p.response.nonce, "");
    assert_eq!(p.file.size, 11);
    let file = record(&p.file.uuid, "p.txt", "text/plain", p.file.size, 3);
    let d = open_download(&file, "", "", &p.stored).ok().unwrap();
    assert_eq!(d.body, content);
    let owner = user(3, 100, 11);
    assert!(confirm_delete(&file, &owner, "", "", &p.stored).is_ok());
}

#[test]
fn empty_key_does_not_open_a_sealed_file() {
    let p = prepare_upload(Some(user(3, 1000, 0)), b"sealed", some("s"), some("text/plain"), true).ok().unwrap();
    let file = record(&p.file.uuid, "s", "text/plain", p.file.size, 3);
    assert_eq!(open_download(&file, "", "", &p.stored).err().unwrap().body, "Invalid decryption key or nonce");
    assert!(confirm_delete(&file, &user(3, 1000, 6), "", "", &p.stored).is_err());
}

#[test]
fn upload_ids_are_version_four_and_hashes_are_long() {
    let p = prepare_upload(Some(user(3, 1000, 0)), b"x", some("x"), some("text/plain"), true).ok().unwrap();
    assert_eq!(p.file.uuid.chars().nth(14), Some('4'));
    assert_eq!(p.file.hash.len(), 128);
}

#[test]
fn registration_refuses_empty_credentials() {
    for (name, password) in [("", "pw"), ("bob", ""), ("", "")] {
        let reply = validate_registration(name, password).err().unwrap();
        assert_eq!(reply.status, Status::BadRequest);
        assert_eq!(reply.body, "Username and password must not be empty");
    }
    assert!(validate_registration("bob", "pw").is_ok());
    let reply = register_password("").err().unwrap();
    assert_eq!(reply.status, Status::BadRequest);
    let reply = plan_registration("", "hash".to_string(), false).err().unwrap();
    assert_eq!(reply.status, Status::BadRequest);
    let reply = plan_registration_with("", "hash".to_string(), true, "u".to_string(), "k".to_string()).err().unwrap();
    assert_eq!(reply.body, "Username and password must not be empty");
}
