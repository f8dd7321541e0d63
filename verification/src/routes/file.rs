use vstd::prelude::*;
use vstd::slice::slice_to_vec;

use crate::digest::{file_hash, sha3_512};
use crate::encryption::{
    aes_gcm_siv_open, aes_gcm_siv_seal, b64url_decode, b64url_encode, well_sized, Cipher,
    MAX_PLAINTEXT_LEN,
};
use crate::models::{File, NewFile, User};
use crate::reply::{invalid_api_key, is_reply, Reply, Status};
use crate::text::{
    after_last, hex_lower, i64_to_decimal, lemma_up_to_first_of_joined, prefix_before,
    signed_decimal, suffix_after, up_to_first,
};
use crate::utils::{generate_uuid, is_uuid_text, is_v4, lemma_uuid_text_shape, uuid_text};

verus! {

/// What an accepted upload is answered with: the file's id, the extension
/// its MIME type names, and the key and nonce that open it.
#[derive(Debug)]
pub struct UploadResponse {
    pub id: String,
    pub ext: String,
    pub key: String,
    pub nonce: String,
}

/// Everything an accepted upload leads to: the sealed bytes to store under
/// `file.uuid`, the row to record (whose `size` is also what the account is
/// charged), and the answer.
#[derive(Debug)]
pub struct PreparedUpload {
    pub stored: Vec<u8>,
    pub file: NewFile,
    pub response: UploadResponse,
}

/// An account's usage once an upload of `size` bytes is charged to it.
pub open spec fn usage_after_upload(used: int, size: int) -> int {
    used + size
}

/// An account's usage once a deleted file's `refund` is taken off it.
pub open spec fn usage_after_delete(used: int, refund: int) -> int {
    used - refund
}

/// Deleting a file takes off its account's usage exactly what uploading it
/// charged: an upload followed by the deletion of the same file leaves the
/// usage as it was.
pub proof fn lemma_delete_refunds_upload(used: int, size: int)
    ensures
        usage_after_delete(usage_after_upload(used, size), size) == used,
{
}

/// Storing `size` more bytes would take an account past its quota.
pub open spec fn exceeds_quota(used: int, quota: int, size: int) -> bool {
    used + size > quota
}

/// Whether an upload asks to be sealed: unless its `x-encrypted` header says
/// `false`, it is.
pub open spec fn wants_encryption(header: Option<String>) -> bool {
    match header {
        Some(v) => v@ != "false"@,
        None => true,
    }
}

/// Whether the upload whose `x-encrypted` header is `header` is to be sealed.
pub fn encryption_requested(header: Option<String>) -> (encrypted: bool)
    ensures
        encrypted == wants_encryption(header),
{
    match header {
        Some(v) => {
            let no = String::from_str("false");
            !(v == no)
        },
        None => true,
    }
}

/// Why an upload of `size` bytes is refused, checked in this order: no
/// account for the key, quota exceeded, no file name, no file type, more
/// than the cipher can seal (when it is to be sealed). `None` when it is
/// accepted.
pub open spec fn upload_refusal(
    user: Option<User>,
    size: int,
    file_name: Option<String>,
    file_type: Option<String>,
    encrypted: bool,
) -> Option<(Status, Seq<char>)> {
    match user {
        None => Some((Status::Unauthorized, "Invalid API key"@)),
        Some(u) => if exceeds_quota(u.used as int, u.quota as int, size) {
            Some((Status::PayloadTooLarge, "Quota exceeded"@))
        } else if file_name is None {
            Some((Status::BadRequest, "Missing file name"@))
        } else if file_type is None {
            Some((Status::BadRequest, "Missing file type"@))
        } else if encrypted && size > MAX_PLAINTEXT_LEN {
            Some((Status::InternalServerError, "Failed to encrypt file"@))
        } else {
            None
        },
    }
}

/// An upload that is accepted never takes its account past its quota.
pub proof fn lemma_accepted_upload_within_quota(
    user: User,
    size: int,
    file_name: Option<String>,
    file_type: Option<String>,
    encrypted: bool,
)
    requires
        upload_refusal(Some(user), size, file_name, file_type, encrypted) is None,
    ensures
        user.used + size <= user.quota,
        encrypted ==> size <= MAX_PLAINTEXT_LEN,
{
}

/// `stored` is `content` sealed under a key and nonce whose base64 texts
/// are `key_text` and `nonce_text`.
pub open spec fn seals_upload(
    key_text: Seq<char>,
    nonce_text: Seq<char>,
    stored: Seq<u8>,
    content: Seq<u8>,
) -> bool {
    &&& key_text.len() == 43
    &&& nonce_text.len() == 16
    &&& exists|k: Seq<u8>, n: Seq<u8>|
        #![trigger aes_gcm_siv_seal(k, n, content)]
        well_sized(k, n) && b64url_encode(k) == key_text && b64url_encode(n) == nonce_text
            && aes_gcm_siv_seal(k, n, content) == Some(stored)
}

/// `stored` is `content` kept as it was, recorded with its own length as
/// its size, and answered with an empty key and nonce.
pub open spec fn keeps_upload(
    key_text: Seq<char>,
    nonce_text: Seq<char>,
    stored: Seq<u8>,
    size: int,
    content: Seq<u8>,
) -> bool {
    key_text.len() == 0 && nonce_text.len() == 0 && stored == content && size == content.len()
}

/// An upload of `content` is stored as `stored` with recorded `size` and
/// answered with `key_text` and `nonce_text`: sealed, or (when it asked not
/// to be) kept as it was.
pub open spec fn stores_upload(
    key_text: Seq<char>,
    nonce_text: Seq<char>,
    stored: Seq<u8>,
    size: int,
    content: Seq<u8>,
) -> bool {
    seals_upload(key_text, nonce_text, stored, content) || keeps_upload(
        key_text,
        nonce_text,
        stored,
        size,
        content,
    )
}

/// `p` is the upload of `content` by `user`, named `file_name` with MIME type
/// `file_type`, filed under `uuid`, and sealed with `key` and `nonce` when
/// `encrypted`, else kept as it was.
pub open spec fn upload_prepared_as(
    p: PreparedUpload,
    user: User,
    content: Seq<u8>,
    file_name: Seq<char>,
    file_type: Seq<char>,
    encrypted: bool,
    uuid: Seq<char>,
    key: Seq<u8>,
    nonce: Seq<u8>,
) -> bool {
    &&& if encrypted {
        &&& aes_gcm_siv_seal(key, nonce, content) == Some(p.stored@)
        &&& p.response.key@ == b64url_encode(key)
        &&& p.response.nonce@ == b64url_encode(nonce)
    } else {
        &&& p.stored@ == content
        &&& p.response.key@.len() == 0
        &&& p.response.nonce@.len() == 0
    }
    &&& p.file.uuid@ == uuid
    &&& p.file.name@ == file_name
    &&& p.file.file_type@ == file_type
    &&& p.file.hash@ == hex_lower(sha3_512(content))
    &&& p.file.hash@.len() == 128
    &&& p.file.size == content.len()
    &&& usage_after_upload(user.used as int, p.file.size as int) <= user.quota
    &&& p.file.user_id == user.id
    &&& p.response.id@ == uuid
    &&& p.response.ext@ == after_last(file_type, '/')
}

/// An upload of `bytes` by `user` (the account the request's API key
/// belongs to, if any), with the given file name and MIME type, filed under
/// `uuid`, and sealed with `cipher` unless `encrypted` is false. The account
/// is charged `file.size`, and the charge keeps its usage within its quota.
pub fn prepare_upload_with(
    user: Option<User>,
    bytes: &[u8],
    file_name: Option<String>,
    file_type: Option<String>,
    encrypted: bool,
    uuid: String,
    cipher: &Cipher,
) -> (res: Result<PreparedUpload, Reply>)
    requires
        bytes@.len() <= isize::MAX,
    ensures
        match upload_refusal(user, bytes@.len() as int, file_name, file_type, encrypted) {
            Some((status, message)) => res matches Err(r) && is_reply(r, status, message),
            None => res matches Ok(p) && upload_prepared_as(
                p,
                user->0,
                bytes@,
                file_name->0@,
                file_type->0@,
                encrypted,
                uuid@,
                cipher@.0,
                cipher@.1,
            ),
        },
        res matches Ok(p) ==> stores_upload(
            p.response.key@,
            p.response.nonce@,
            p.stored@,
            p.file.size as int,
            bytes@,
        ),
        res matches Ok(p) ==> (encrypted ==> seals_upload(
            p.response.key@,
            p.response.nonce@,
            p.stored@,
            bytes@,
        )),
{
    let u = match user {
        None => return Err(invalid_api_key()),
        Some(u) => u,
    };
    if (u.used as i128) + (bytes.len() as i128) > (u.quota as i128) {
        return Err(Reply::new(Status::PayloadTooLarge, "Quota exceeded"));
    }
    let name = match file_name {
        None => return Err(Reply::new(Status::BadRequest, "Missing file name")),
        Some(name) => name,
    };
    let file_type = match file_type {
        None => return Err(Reply::new(Status::BadRequest, "Missing file type")),
        Some(t) => t,
    };
    let (stored, key, nonce) = if encrypted {
        let stored = match cipher.encrypt(bytes) {
            Ok(c) => c,
            Err(_) => return Err(Reply::new(Status::InternalServerError, "Failed to encrypt file")),
        };
        let (key, nonce) = cipher.to_base64();
        (stored, key, nonce)
    } else {
        (slice_to_vec(bytes), String::new(), String::new())
    };
    let ext = suffix_after(file_type.as_str(), '/');
    let hash = file_hash(bytes);
    let size = bytes.len() as i64;
    let id = uuid.clone();
    let file = NewFile { uuid, name, file_type, hash, size, user_id: u.id };
    let response = UploadResponse { id, ext, key, nonce };
    let prepared = PreparedUpload { stored, file, response };
    proof {
        assert(upload_prepared_as(
            prepared,
            u,
            bytes@,
            prepared.file.name@,
            prepared.file.file_type@,
            encrypted,
            prepared.file.uuid@,
            cipher@.0,
            cipher@.1,
        ));
    }
    Ok(prepared)
}

/// An upload of `bytes` by `user`, filed under a fresh random (version 4)
/// UUID, and sealed with a fresh random key and nonce unless `encrypted` is
/// false.
pub fn prepare_upload(
    user: Option<User>,
    bytes: &[u8],
    file_name: Option<String>,
    file_type: Option<String>,
    encrypted: bool,
) -> (res: Result<PreparedUpload, Reply>)
    requires
        bytes@.len() <= isize::MAX,
    ensures
        match upload_refusal(user, bytes@.len() as int, file_name, file_type, encrypted) {
            Some((status, message)) => res matches Err(r) && is_reply(r, status, message),
            None => res matches Ok(p) && exists|value: u128, key: Seq<u8>, nonce: Seq<u8>|
                is_v4(value) && well_sized(key, nonce) && #[trigger] upload_prepared_as(
                    p,
                    user->0,
                    bytes@,
                    file_name->0@,
                    file_type->0@,
                    encrypted,
                    uuid_text(value),
                    key,
                    nonce,
                ),
        },
        res matches Ok(p) ==> is_uuid_text(p.file.uuid@),
        res matches Ok(p) ==> stores_upload(
            p.response.key@,
            p.response.nonce@,
            p.stored@,
            p.file.size as int,
            bytes@,
        ),
        res matches Ok(p) ==> (encrypted ==> seals_upload(
            p.response.key@,
            p.response.nonce@,
            p.stored@,
            bytes@,
        )),
{
    let uuid = generate_uuid();
    let cipher = Cipher::default();
    let ghost value = choose|v: u128| is_v4(v) && uuid@ == uuid_text(v);
    let res = prepare_upload_with(user, bytes, file_name, file_type, encrypted, uuid, &cipher);
    proof {
        if upload_refusal(user, bytes@.len() as int, file_name, file_type, encrypted) is None {
            let p = res->Ok_0;
            assert(upload_prepared_as(
                p,
                user->0,
                bytes@,
                file_name->0@,
                file_type->0@,
                encrypted,
                uuid_text(value),
                cipher@.0,
                cipher@.1,
            ));
        }
    }
    res
}

/// The id a download or delete path names: the part before its first `.`,
/// so that `<id>.<ext>` and `<id>` name the same file.
pub fn file_id(path: &str) -> (id: String)
    ensures
        id@ == up_to_first(path@, '.'),
{
    prefix_before(path, '.')
}

/// The link an upload answers with, `<id>.<ext>`, names the file it filed:
/// a UUID's text holds no `.`.
pub proof fn lemma_upload_link_names_file(value: u128, ext: Seq<char>)
    ensures
        up_to_first(uuid_text(value) + seq!['.'] + ext, '.') == uuid_text(value),
{
    let id = uuid_text(value);
    lemma_uuid_text_shape(value);
    assert(!id.contains('.')) by {
        if id.contains('.') {
            let j = choose|j: int| 0 <= j < id.len() && id[j] == '.';
            assert(id[j] == '-' || ('0' <= id[j] && id[j] <= '9') || ('a' <= id[j] && id[j] <= 'f'));
        }
    }
    lemma_up_to_first_of_joined(id, '.', ext);
}

/// The refusal of a request for a file id that is not on record.
pub fn file_not_found(id: &str, error: &str) -> (reply: Reply)
    ensures
        is_reply(reply, Status::NotFound, "File "@ + id@ + " not found, "@ + error@),
{
    let mut body = String::from_str("File ");
    body.append(id);
    body.append(" not found, ");
    body.append(error);
    Reply { status: Status::NotFound, body }
}

/// The content that `stored` opens to under the key and nonce given as
/// base64 text; `None` when either text does not decode to a key or nonce of
/// the right length, or the bytes do not open under them.
pub open spec fn opened_content(key: Seq<char>, nonce: Seq<char>, stored: Seq<u8>) -> Option<
    Seq<u8>,
> {
    match (b64url_decode(key), b64url_decode(nonce)) {
        (Some(k), Some(n)) => if well_sized(k, n) {
            aes_gcm_siv_open(k, n, stored)
        } else {
            None
        },
        _ => None,
    }
}

/// What the stored bytes of a file with recorded `size` give with the key
/// and nonce a request brings: the bytes as they are when the key and nonce
/// are empty and the bytes have the recorded size (an upload kept as it
/// was), else what they open to.
pub open spec fn download_content(size: int, key: Seq<char>, nonce: Seq<char>, stored: Seq<u8>) -> Option<
    Seq<u8>,
> {
    if key.len() == 0 && nonce.len() == 0 && stored.len() == size {
        Some(stored)
    } else {
        opened_content(key, nonce, stored)
    }
}

/// Whether `key` and `nonce` are empty and `stored` has the recorded `size`.
fn is_kept_as_sent(size: i64, key: &str, nonce: &str, stored: &[u8]) -> (kept: bool)
    ensures
        kept == (key@.len() == 0 && nonce@.len() == 0 && stored@.len() == size),
{
    key.unicode_len() == 0 && nonce.unicode_len() == 0 && (stored.len() as i128) == (size as i128)
}

/// The refusal of a key and nonce that do not open a file.
pub fn invalid_decryption_key() -> (reply: Reply)
    ensures
        is_reply(reply, Status::Unauthorized, "Invalid decryption key or nonce"@),
{
    Reply::new(Status::Unauthorized, "Invalid decryption key or nonce")
}

/// What a download sends: the opened content and the headers that describe it.
#[derive(Debug)]
pub struct Download {
    pub body: Vec<u8>,
    pub content_disposition: String,
    pub content_length: String,
    pub content_type: String,
}

/// The download of `file`, whose stored bytes are `stored`, with the key and
/// nonce the request gives. The bytes an upload stored, with the key and
/// nonce it answered with, give back the uploaded content.
pub fn open_download(file: &File, key: &str, nonce: &str, stored: &[u8]) -> (res: Result<
    Download,
    Reply,
>)
    ensures
        match download_content(file.size as int, key@, nonce@, stored@) {
            Some(content) => res matches Ok(d) && d.body@ == content && d.content_disposition@ == "filename=\""@
                + file.name@ + "\""@ && d.content_length@ == signed_decimal(file.size as int)
                && d.content_type@ == file.file_type@,
            None => res matches Err(r) && is_reply(
                r,
                Status::Unauthorized,
                "Invalid decryption key or nonce"@,
            ),
        },
        forall|content: Seq<u8>|
            #[trigger] stores_upload(key@, nonce@, stored@, file.size as int, content) ==> (res matches Ok(
                d,
            ) && d.body@ == content),
{
    let body = if is_kept_as_sent(file.size, key, nonce, stored) {
        slice_to_vec(stored)
    } else {
        let cipher = match Cipher::try_from_base64(key, nonce) {
            Ok(c) => c,
            Err(_) => return Err(invalid_decryption_key()),
        };
        match cipher.decrypt(stored) {
            Ok(p) => p,
            Err(_) => return Err(invalid_decryption_key()),
        }
    };
    let mut content_disposition = String::from_str("filename=\"");
    content_disposition.append(file.name.as_str());
    content_disposition.append("\"");
    let content_length = i64_to_decimal(file.size);
    let content_type = file.file_type.clone();
    Ok(Download { body, content_disposition, content_length, content_type })
}

/// The account that may delete `file`: the one its API key belongs to, if
/// that account uploaded the file.
pub fn authorize_delete(file: &File, user: Option<User>) -> (res: Result<User, Reply>)
    ensures
        match user {
            Some(u) => if u.id == file.user_id {
                res matches Ok(v) && v == u
            } else {
                res matches Err(r) && is_reply(r, Status::Unauthorized, "Invalid API key"@)
            },
            None => res matches Err(r) && is_reply(r, Status::Unauthorized, "Invalid API key"@),
        },
{
    match user {
        None => Err(invalid_api_key()),
        Some(u) => if u.id != file.user_id {
            Err(invalid_api_key())
        } else {
            Ok(u)
        },
    }
}

/// What a confirmed deletion removes: the stored bytes and the row under
/// `uuid`, and `refund` bytes from account `user_id`'s usage
/// (`usage_after_delete`); the refund is the file's recorded size, which is
/// what its upload charged.
#[derive(Debug)]
pub struct DeletePlan {
    pub uuid: String,
    pub user_id: i64,
    pub refund: i64,
}

/// The deletion of `file` by its owner `user`, confirmed only by the key and
/// nonce a download of its stored bytes `stored` needs.
pub fn confirm_delete(file: &File, user: &User, key: &str, nonce: &str, stored: &[u8]) -> (res:
    Result<DeletePlan, Reply>)
    ensures
        match download_content(file.size as int, key@, nonce@, stored@) {
            Some(_) => res matches Ok(plan) && plan.uuid@ == file.uuid@ && plan.user_id == user.id
                && plan.refund == file.size,
            None => res matches Err(r) && is_reply(
                r,
                Status::Unauthorized,
                "Invalid decryption key or nonce"@,
            ),
        },
        forall|content: Seq<u8>|
            #[trigger] stores_upload(key@, nonce@, stored@, file.size as int, content) ==> res is Ok,
{
    if !is_kept_as_sent(file.size, key, nonce, stored) {
        let cipher = match Cipher::try_from_base64(key, nonce) {
            Ok(c) => c,
            Err(_) => return Err(invalid_decryption_key()),
        };
        if !cipher.verify(stored) {
            return Err(invalid_decryption_key());
        }
    }
    Ok(DeletePlan { uuid: file.uuid.clone(), user_id: user.id, refund: file.size })
}

/// The answer to a completed deletion.
pub fn deleted() -> (reply: Reply)
    ensures
        is_reply(reply, Status::Success, "Deleted file"@),
{
    Reply::new(Status::Success, "Deleted file")
}

/// The ids of the stored files a purge removes: those of all the files on
/// record for the account, in order.
pub fn purge_targets(files: &Vec<File>) -> (ids: Vec<String>)
    ensures
        ids@.len() == files@.len(),
        forall|i: int| 0 <= i < files@.len() ==> (#[trigger] ids@[i])@ == files@[i].uuid@,
{
    let mut ids: Vec<String> = Vec::new();
    let mut i: usize = 0;
    while i < files.len()
        invariant
            i <= files@.len(),
            ids@.len() == i,
            forall|j: int| 0 <= j < i ==> (#[trigger] ids@[j])@ == files@[j].uuid@,
        decreases files@.len() - i,
    {
        ids.push(files[i].uuid.clone());
        i = i + 1;
    }
    ids
}

/// The answer to a completed purge.
pub fn purged() -> (reply: Reply)
    ensures
        is_reply(reply, Status::Success, "Purged all files"@),
{
    Reply::new(Status::Success, "Purged all files")
}

} // verus!
