use secure_notes::codec::{decode_vault_info, encode_vault_info, CodecError, VaultInfo};
use secure_notes::password::{generate_password_hash, verify_password};

#[test]
fn codec_round_trip() {
    let info = VaultInfo { name: String::from("work notes"), password: String::from("$argon2id$v=19$abc") };
    let bytes = encode_vault_info(&info);
    let back = decode_vault_info(&bytes).unwrap();
    assert_eq!(back.name, info.name);
    assert_eq!(back.password, info.password);
}

#[test]
fn codec_round_trip_empty_and_unicode() {
    let info = VaultInfo { name: String::new(), password: String::from("ünïcødé\n") };
    let back = decode_vault_info(&encode_vault_info(&info)).unwrap();
    assert_eq!(back.name, "");
    assert_eq!(back.password, "ünïcødé\n");
}

#[test]
fn encoding_is_a_binary_map() {
    let info = VaultInfo { name: String::from("ab"), password: String::from("cd") };
    let bytes = encode_vault_info(&info);
    assert_ne!(bytes, b"ab".to_vec());
    assert!(bytes.len() > 4);
}

#[test]
fn codec_rejects_garbage() {
    assert_eq!(decode_vault_info(b"").err(), Some(CodecError::CorruptInfoFile));
    assert_eq!(decode_vault_info(b"not a record at all").err(), Some(CodecError::CorruptInfoFile));
}

#[test]
fn hash_then_verify() {
    let hash = generate_password_hash("correct-horse").unwrap();
    assert_ne!(hash, "correct-horse");
    assert!(hash.starts_with("$argon2id$v=19$m=16384,t=8,p=1$"));
    assert!(verify_password("correct-horse", &hash));
}

#[test]
fn different_password_rejected() {
    let hash = generate_password_hash("correct-horse").unwrap();
    assert!(!verify_password("correct-horsf", &hash));
    assert!(!verify_password("", &hash));
}

#[test]
fn salts_differ_between_hashes() {
    let a = generate_password_hash("same").unwrap();
    let b = generate_password_hash("same").unwrap();
    assert_ne!(a, b);
}

#[test]
fn verify_rejects_unparsable_hash() {
    assert!(!verify_password("pw", "not a phc string"));
    assert!(!verify_password("pw", ""));
}

#[test]
fn decode_rejects_oversized_map() {
    let bytes = [0u8, 0, 1, 200, 0, 36, 1];
    assert_eq!(decode_vault_info(&bytes).err(), Some(CodecError::CorruptInfoFile));
}

#[test]
fn decode_rejects_truncated_and_damaged_records() {
    let info = VaultInfo { name: String::from("vault"), password: String::from("$argon2id$v=19$x") };
    let bytes = encode_vault_info(&info);
    for cut in 1..bytes.len() {
        let _ = decode_vault_info(&bytes[cut..]);
        let _ = decode_vault_info(&bytes[..bytes.len() - cut]);
    }
    for at in 0..bytes.len() {
        for v in [0u8, 1, 0x7f, 0xff] {
            let mut damaged = bytes.clone();
            damaged[at] = v;
            let _ = decode_vault_info(&damaged);
        }
    }
    assert!(secure_notes::codec::flex_map_readable_check(&bytes));
}

#[test]
fn salted_hash_is_a_function_of_password_and_salt() {
    let salt = [7u8; 16];
    let a = secure_notes::password::hash_password_with_salt("pw-one", &salt).unwrap();
    let b = secure_notes::password::hash_password_with_salt("pw-one", &salt).unwrap();
    assert_eq!(a, b);
    assert!(a.starts_with("$argon2id$v=19$m=16384,t=8,p=1$"));
    assert!(secure_notes::password::hash_password_with_salt("pw-one", &[1u8; 2]).is_none());
}

#[test]
fn verify_rejects_strings_without_dollar() {
    assert!(!verify_password("pw", "argon2id$v=19$m=16384,t=8,p=1$abc$def"));
}
