use rbackup::dao::Dao;
use rbackup::hexstr::{hex_decode, hex_encode};
use rbackup::ingest::{
    process_multipart_upload, DigestDataStreamInner, UploadError, UploadPart,
};
use rbackup::results::{UploadResult, UploadedData};
use rbackup::sha256::sha256_hex;

const HELLO_SHA256: &str = "2cf24dba5fb0a30e26e83b2ac5b9e29e1b161e5c1fa7425e73043362938b9824";

fn part(name: &str, data: &[u8]) -> UploadPart {
    UploadPart { name: String::from(name), data: data.to_vec() }
}

fn hello_parts() -> Vec<UploadPart> {
    vec![part("file", b"hello"), part("file-hash", HELLO_SHA256.as_bytes())]
}

#[test]
fn sha256_known_answer() {
    assert_eq!(sha256_hex(b"hello"), HELLO_SHA256);
    assert_eq!(
        sha256_hex(b""),
        "e3b0c44298fc1c149afbf4c8996fb92427ae41e4649b934ca495991b7852b855"
    );
}

#[test]
fn digest_agrees_with_an_independent_hash() {
    // the same bytes hashed directly with the underlying crates
    let expected = hex::encode(<sha2::Sha256 as sha2::Digest>::digest(b"hello"));
    assert_eq!(sha256_hex(b"hello"), expected);
}

#[test]
fn identity_hash_is_digest_of_account_device_name() {
    let uf = rbackup::to_uploaded_file("acc", "dev1", "notes.txt", 5, 0);
    let expected = hex::encode(<sha2::Sha256 as sha2::Digest>::digest(b"accdev1notes.txt"));
    assert_eq!(uf.identity_hash, expected);
}

#[test]
fn storage_name_mixes_name_and_instant() {
    let a = rbackup::to_storage_name("dev1", "n", 1, 2);
    let b = rbackup::to_storage_name("dev1", "n", 1, 3);
    assert_ne!(a, b);
    let mut bytes: Vec<u8> = Vec::new();
    bytes.extend_from_slice(b"dev1");
    bytes.extend_from_slice(b"n");
    bytes.extend_from_slice(&1u64.to_be_bytes());
    bytes.extend_from_slice(&2u32.to_be_bytes());
    let expected = hex::encode(<sha2::Sha256 as sha2::Digest>::digest(&bytes));
    assert_eq!(a, expected);
}

#[test]
fn big_endian_byte_renderings_are_exact() {
    assert_eq!(
        rbackup::encoding::transform_u64_to_bytes(0x0102030405060708),
        [1, 2, 3, 4, 5, 6, 7, 8]
    );
    assert_eq!(rbackup::encoding::transform_u32_to_bytes(0xdeadbeef), [0xde, 0xad, 0xbe, 0xef]);
}

#[test]
fn hex_encode_decode_round_trip() {
    assert_eq!(hex_encode(&[0xde, 0xad, 0x00, 0x0f]), "dead000f");
    assert_eq!(hex_decode("dead000f"), Some(vec![0xde, 0xad, 0x00, 0x0f]));
    assert_eq!(hex_decode("DEAD000F"), Some(vec![0xde, 0xad, 0x00, 0x0f]));
    assert_eq!(hex_decode("abc"), None);
    assert_eq!(hex_decode("zz"), None);
}

#[test]
fn chunked_digest_matches_whole_digest() {
    let mut inner = DigestDataStreamInner::new();
    inner.hash_update(b"he");
    inner.size_inc(2);
    inner.hash_update(b"llo");
    inner.size_inc(3);
    assert_eq!(inner.size, 5);
    match rbackup::ingest::finish_upload(inner, HELLO_SHA256) {
        UploadedData::Success(size, hash) => {
            assert_eq!(size, 5);
            assert_eq!(hash, HELLO_SHA256);
        }
        UploadedData::MismatchSha256 => panic!("correct digest must match"),
    }
}

#[test]
fn well_formed_upload_succeeds() {
    match process_multipart_upload(&hello_parts()) {
        Ok(UploadedData::Success(size, hash)) => {
            assert_eq!(size, 5);
            assert_eq!(hash, HELLO_SHA256);
        }
        _ => panic!("well-formed upload with the right digest must succeed"),
    }
}

#[test]
fn wrong_declared_digest_is_mismatch() {
    let parts = vec![part("file", b"hello"), part("file-hash", b"deadbeef")];
    match process_multipart_upload(&parts) {
        Ok(UploadedData::MismatchSha256) => {}
        _ => panic!("a wrong declared digest is a mismatch, not an error"),
    }
}

#[test]
fn upload_protocol_errors() {
    let none: Vec<UploadPart> = Vec::new();
    assert!(matches!(
        process_multipart_upload(&none),
        Err(UploadError::FilePartMissing)
    ));
    let misplaced = vec![part("file-hash", b"x"), part("file", b"hello")];
    assert!(matches!(
        process_multipart_upload(&misplaced),
        Err(UploadError::FilePartMisplaced)
    ));
    let only_file = vec![part("file", b"hello")];
    assert!(matches!(
        process_multipart_upload(&only_file),
        Err(UploadError::FileHashPartMissing)
    ));
    let wrong_second = vec![part("file", b"hello"), part("other", b"x")];
    assert!(matches!(
        process_multipart_upload(&wrong_second),
        Err(UploadError::FileHashPartMisplaced)
    ));
    let not_text = vec![part("file", b"hello"), part("file-hash", &[0xff, 0xfe])];
    assert!(matches!(
        process_multipart_upload(&not_text),
        Err(UploadError::FileHashNotText)
    ));
}

#[test]
fn mismatch_never_creates_catalog_rows() {
    let mut dao = Dao::new();
    let uploaded_file = rbackup::to_uploaded_file("acc", "dev1", "notes.txt", 5, 1000);
    let parts = vec![part("file", b"hello"), part("file-hash", b"0000")];
    let outcome = process_multipart_upload(&parts).expect("well-formed body");
    let storage_name = rbackup::to_storage_name("dev1", "notes.txt", 123, 456);
    match rbackup::save(&mut dao, &uploaded_file, outcome, storage_name) {
        UploadResult::MismatchSha256 => {}
        _ => panic!("a digest mismatch must be reported"),
    }
    assert!(dao.files.is_empty());
    assert!(dao.find_file(&uploaded_file.identity_hash).is_none());
}

#[test]
fn successful_uploads_append_ordered_versions() {
    let mut dao = Dao::new();
    let uploaded_file = rbackup::to_uploaded_file("acc", "dev1", "notes.txt", 5, 1000);
    let outcome1 = process_multipart_upload(&hello_parts()).expect("well-formed body");
    let sn1 = rbackup::to_storage_name("dev1", "notes.txt", 123, 1);
    let file1 = match rbackup::save(&mut dao, &uploaded_file, outcome1, sn1.clone()) {
        UploadResult::Success(f) => f,
        _ => panic!("matching digest must commit"),
    };
    assert_eq!(file1.versions.len(), 1);
    assert_eq!(file1.versions[0].version, 1);
    assert_eq!(file1.versions[0].size, 5);
    assert_eq!(file1.versions[0].hash, HELLO_SHA256);
    assert_eq!(file1.versions[0].storage_name, sn1);

    let outcome2 = process_multipart_upload(&hello_parts()).expect("well-formed body");
    let sn2 = rbackup::to_storage_name("dev1", "notes.txt", 123, 2);
    let file2 = match rbackup::save(&mut dao, &uploaded_file, outcome2, sn2.clone()) {
        UploadResult::Success(f) => f,
        _ => panic!("matching digest must commit"),
    };
    assert_ne!(sn1, sn2);
    assert_eq!(file2.id, file1.id);
    assert_eq!(file2.versions.len(), 2);
    assert!(file2.versions[0].version < file2.versions[1].version);
    assert_eq!(dao.files.len(), 1);
}
