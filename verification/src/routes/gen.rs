use vstd::prelude::*;

use crate::text::{decimal, digits_value, lemma_decimal_reads_back, u64_to_decimal};

verus! {

/// The greeting the service's index answers with.
pub open spec fn status_text(version: Seq<char>, users: nat, files: nat) -> Seq<char> {
    "This server is running Lumen v"@ + version + "\nServing "@ + decimal(users) + " users and "@
        + decimal(files) + " files"@
}

/// The greeting for a server of the given version that keeps the given
/// numbers of accounts and files.
pub fn status_message(version: &str, users: u64, files: u64) -> (text: String)
    ensures
        text@ == status_text(version@, users as nat, files as nat),
{
    let mut text = String::from_str("This server is running Lumen v");
    text.append(version);
    text.append("\nServing ");
    text.append(u64_to_decimal(users).as_str());
    text.append(" users and ");
    text.append(u64_to_decimal(files).as_str());
    text.append(" files");
    text
}

/// The greeting names the version, then the number of accounts before
/// " users" and the number of files before " files": each count stands in
/// its own place and reads back as the number it gives.
pub proof fn lemma_status_text_counts(version: Seq<char>, users: nat, files: nat)
    ensures
        status_text(version, users, files) == "This server is running Lumen v"@ + version
            + "\nServing "@ + decimal(users) + " users and "@ + decimal(files) + " files"@,
        ({
            let text = status_text(version, users, files);
            let at_users: int = ("This server is running Lumen v"@ + version + "\nServing "@).len() as int;
            let at_files: int = at_users + decimal(users).len() + " users and "@.len();
            &&& digits_value(text.subrange(at_users, at_users + decimal(users).len())) == users
            &&& digits_value(text.subrange(at_files, at_files + decimal(files).len())) == files
        }),
{
    lemma_decimal_reads_back(users);
    lemma_decimal_reads_back(files);
    let head = "This server is running Lumen v"@ + version + "\nServing "@;
    let text = status_text(version, users, files);
    let at_users: int = head.len() as int;
    let at_files: int = at_users + decimal(users).len() + " users and "@.len();
    assert(text.subrange(at_users, at_users + decimal(users).len()) =~= decimal(users));
    assert(text.subrange(at_files, at_files + decimal(files).len()) =~= decimal(files));
}

/// The query of a request for an uploader configuration.
#[derive(Debug)]
pub struct ConfigRequest {
    pub api_key: String,
}

/// A ShareX custom-uploader configuration for this service: uploads go as
/// binary POST bodies to `request_url` with the account's API key and the
/// file's name in headers; the links it builds come from the upload answer's
/// JSON fields.
#[derive(Debug)]
pub struct SXConfig {
    pub version: String,
    pub name: String,
    pub destination_type: String,
    pub request_method: String,
    pub request_url: String,
    /// The value of the `x-api-key` header.
    pub api_key: String,
    /// The value of the `x-file-name` header.
    pub file_name: String,
    pub body: String,
    pub url: String,
    pub deletion_url: String,
}

impl SXConfig {
    /// The configuration for the service at `public_url`, uploading with
    /// `api_key`.
    pub fn new(public_url: &str, api_key: &str) -> (config: SXConfig)
        ensures
            config.version@ == "15.0.0"@,
            config.name@ == "Lumen"@,
            config.destination_type@ == "ImageUploader, TextUploader, FileUploader"@,
            config.request_method@ == "POST"@,
            config.request_url@ == public_url@ + "/upload"@,
            config.api_key@ == api_key@,
            config.file_name@ == "{filename}"@,
            config.body@ == "Binary"@,
            config.url@ == public_url@ + "/{json:id}.{json:ext}?key={json:key}&nonce={json:nonce}"@,
            config.deletion_url@ == public_url@ + "/{json:id}/delete?api_key="@ + api_key@
                + "&key={json:key}&nonce={json:nonce}"@,
    {
        let mut request_url = String::from_str(public_url);
        request_url.append("/upload");
        let mut url = String::from_str(public_url);
        url.append("/{json:id}.{json:ext}?key={json:key}&nonce={json:nonce}");
        let mut deletion_url = String::from_str(public_url);
        deletion_url.append("/{json:id}/delete?api_key=");
        deletion_url.append(api_key);
        deletion_url.append("&key={json:key}&nonce={json:nonce}");
        SXConfig {
            version: String::from_str("15.0.0"),
            name: String::from_str("Lumen"),
            destination_type: String::from_str("ImageUploader, TextUploader, FileUploader"),
            request_method: String::from_str("POST"),
            request_url,
            api_key: String::from_str(api_key),
            file_name: String::from_str("{filename}"),
            body: String::from_str("Binary"),
            url,
            deletion_url,
        }
    }
}

} // verus!
