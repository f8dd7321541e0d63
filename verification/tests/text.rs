use lumen::digest::file_hash;
use lumen::password::{hash_password, hash_password_with_salt, HashError};
use lumen::text::{i64_to_decimal, prefix_before, suffix_after, to_hex_lower, u64_to_decimal};
use lumen::utils::generate_uuid;
use lumen::Storage;

#[test]
fn decimal_text_of_unsigned_numbers() {
    assert_eq!(u64_to_decimal(0), "0");
    assert_eq!(u64_to_decimal(7), "7");
    assert_eq!(u64_to_decimal(407), "407");
    assert_eq!(u64_to_decimal(u64::MAX), "18446744073709551615");
}

#[test]
fn decimal_text_of_signed_numbers() {
    assert_eq!(i64_to_decimal(0), "0");
    assert_eq!(i64_to_decimal(-12), "-12");
    assert_eq!(i64_to_decimal(1073741824), "1073741824");
    assert_eq!(i64_to_decimal(i64::MIN), "-9223372036854775808");
    assert_eq!(i64_to_decimal(i64::MAX), "9223372036854775807");
}

#[test]
fn hex_text_is_lowercase_two_digits_per_byte() {
    assert_eq!(to_hex_lower(&[]), "");
    assert_eq!(to_hex_lower(&[0x00, 0x0f, 0xab, 0xff]), "000fabff");
}

#[test]
fn file_hash_is_sha3_512_hex() {
    assert_eq!(
        file_hash(b""),
        "a69f73cca23a9ac5c8b567dc185a756e97c982164fe25859e0d1dcc1475c80a615b2123af1f5f94c11e3e9402c3ac558f500199d95b6d3e301758586281dcd26"
    );
    assert_eq!(file_hash(b"abc").len(), 128);
    assert_ne!(file_hash(b"abc"), file_hash(b"abd"));
}

#[test]
fn prefix_before_first_separator() {
    assert_eq!(prefix_before("abc.png", '.'), "abc");
    assert_eq!(prefix_before("abc.tar.gz", '.'), "abc");
    assert_eq!(prefix_before("abc", '.'), "abc");
    assert_eq!(prefix_before(".png", '.'), "");
    assert_eq!(prefix_before("", '.'), "");
}

#[test]
fn suffix_after_last_separator() {
    assert_eq!(suffix_after("image/png", '/'), "png");
    assert_eq!(suffix_after("a/b/c", '/'), "c");
    assert_eq!(suffix_after("png", '/'), "png");
    assert_eq!(suffix_after("image/", '/'), "");
    assert_eq!(suffix_after("", '/'), "");
}

#[test]
fn generated_uuids_are_hyphenated_version_four() {
    let id = generate_uuid();
    assert_eq!(id.len(), 36);
    for (i, c) in id.chars().enumerate() {
        if i == 8 || i == 13 || i == 18 || i == 23 {
            assert_eq!(c, '-');
        } else {
            assert!(c.is_ascii_digit() || ('a'..='f').contains(&c));
        }
    }
    assert_eq!(id.chars().nth(14), Some('4'));
    assert!("89ab".contains(id.chars().nth(19).unwrap()));
    assert_ne!(generate_uuid(), id);
}

#[test]
fn password_hash_with_fixed_salt_is_deterministic() {
    let a = hash_password_with_salt("hunter2", "c2FsdHNhbHRzYWx0").unwrap();
    let b = hash_password_with_salt("hunter2", "c2FsdHNhbHRzYWx0").unwrap();
    assert_eq!(a, b);
    assert!(a.starts_with("$argon2id$v=19$m=19456,t=2,p=1$c2FsdHNhbHRzYWx0$"));
    assert_ne!(a, hash_password_with_salt("hunter3", "c2FsdHNhbHRzYWx0").unwrap());
}

#[test]
fn password_hash_refuses_a_bad_salt() {
    assert_eq!(hash_password_with_salt("hunter2", "!"), Err(HashError));
}

#[test]
fn password_hash_with_random_salt() {
    let a = hash_password("hunter2").unwrap();
    let b = hash_password("hunter2").unwrap();
    assert!(a.starts_with("$argon2id$"));
    assert_ne!(a, b);
}

#[test]
fn upload_paths() {
    let storage = Storage::new("data".to_string());
    assert_eq!(storage.get_path("abc"), "data/uploads/abc.lumen");
    let slashed = Storage::new("data/".to_string());
    assert_eq!(slashed.get_path("abc"), "data/uploads/abc.lumen");
    let empty = Storage::new(String::new());
    assert_eq!(empty.get_path("abc"), "uploads/abc.lumen");
}

#[test]
fn different_ids_have_different_paths() {
    let storage = Storage::new("/srv/lumen".to_string());
    assert_ne!(storage.get_path("a"), storage.get_path("b"));
    assert_ne!(storage.get_path("ab"), storage.get_path("a"));
}

#[test]
fn password_hash_with_a_sixteen_byte_salt_succeeds() {
    let salt = format!("{}Q", "A".repeat(21));
    let hash = hash_password_with_salt("", &salt).unwrap();
    assert!(hash.starts_with(&format!("$argon2id$v=19$m=19456,t=2,p=1${}$", salt)));
}

#[test]
fn registration_password_is_hashed_under_a_random_salt() {
    let a = lumen::routes::user::register_password("pw").ok().unwrap();
    assert!(a.starts_with("$argon2id$v=19$m=19456,t=2,p=1$"));
}
