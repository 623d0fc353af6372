use rbackup::dao::Dao;
use rbackup::encryptor::Encryptor;
use rbackup::ingest::{process_multipart_upload, UploadPart};
use rbackup::results::{
    ListFileResult, LoginResult, RegisterResult, RemoveFileResult, RemoveFileVersionResult,
    UploadResult,
};
use rbackup::sha256::sha256_hex;

fn upload(
    dao: &mut Dao,
    account_id: &str,
    device_id: &str,
    name: &str,
    content: &[u8],
    nanos: u32,
) -> rbackup::structs::File {
    let uploaded_file =
        rbackup::to_uploaded_file(account_id, device_id, name, content.len() as u64, 1000);
    let parts = vec![
        UploadPart { name: String::from("file"), data: content.to_vec() },
        UploadPart { name: String::from("file-hash"), data: sha256_hex(content).into_bytes() },
    ];
    let outcome = process_multipart_upload(&parts).expect("well-formed body");
    let storage_name = rbackup::to_storage_name(device_id, name, 1700000000, nanos);
    match rbackup::save(dao, &uploaded_file, outcome, storage_name) {
        UploadResult::Success(f) => f,
        _ => panic!("matching digest must commit"),
    }
}

#[test]
fn register_login_upload_download() {
    let enc = Encryptor::new(String::from("0123456789abcdef"));
    let mut dao = Dao::new();

    let account_id = match dao.register("alice", "pw1", 1700000000, 5) {
        RegisterResult::Created(id) => id,
        RegisterResult::Exists => panic!("fresh username must register"),
    };

    let token = match dao.login(&enc, "dev1", "alice", "pw1", 1700000001) {
        LoginResult::NewSession(t) => t,
        _ => panic!("first login must open a new session"),
    };

    let identity = dao.authenticate(&enc, &token).expect("issued token authenticates");
    assert_eq!(identity.account_id, account_id);
    assert_eq!(identity.id, "dev1");
    assert_eq!(identity.repo_pass, "pw1");

    let file = upload(&mut dao, &account_id, "dev1", "notes.txt", b"hello", 7);
    assert_eq!(file.versions.len(), 1);
    assert_eq!(file.versions[0].size, 5);

    let (hash, size, storage_name) =
        rbackup::load(&dao, file.versions[0].version).expect("stored version loads");
    assert_eq!(hash, sha256_hex(b"hello"));
    assert_eq!(size, 5);
    assert_eq!(storage_name, file.versions[0].storage_name);

    match rbackup::list_files(&dao, &account_id, "dev1") {
        ListFileResult::Success(files) => {
            assert_eq!(files.len(), 1);
            assert_eq!(files[0].original_name, "notes.txt");
        }
        ListFileResult::DeviceNotFound => panic!("device has a session"),
    }
}

#[test]
fn remove_file_returns_every_storage_name() {
    let enc = Encryptor::new(String::from("0123456789abcdef"));
    let mut dao = Dao::new();
    let account_id = match dao.register("alice", "pw1", 1700000000, 5) {
        RegisterResult::Created(id) => id,
        RegisterResult::Exists => panic!("fresh username must register"),
    };
    let _ = dao.login(&enc, "dev1", "alice", "pw1", 1700000001);

    let f1 = upload(&mut dao, &account_id, "dev1", "notes.txt", b"hello", 1);
    let f2 = upload(&mut dao, &account_id, "dev1", "notes.txt", b"hello world", 2);
    assert_eq!(f1.id, f2.id);
    assert_eq!(f2.versions.len(), 2);

    let names = rbackup::remove_file(&mut dao, "dev1", f2.id).expect("file exists");
    assert_eq!(names.len(), 2);
    assert_eq!(names[0], f2.versions[0].storage_name);
    assert_eq!(names[1], f2.versions[1].storage_name);
    assert!(dao.files.is_empty());
    assert!(rbackup::load(&dao, f2.versions[0].version).is_none());

    // removing again is "not found"
    assert!(rbackup::remove_file(&mut dao, "dev1", f2.id).is_none());

    // the blob outcomes fold into the reported result
    match rbackup::remove_file_outcome(Some(names.clone()), Vec::new()) {
        RemoveFileResult::Success => {}
        _ => panic!("all blobs deleted is success"),
    }
    match rbackup::remove_file_outcome(Some(names.clone()), vec![names[1].clone()]) {
        RemoveFileResult::PartialFailure(failed) => assert_eq!(failed, vec![names[1].clone()]),
        _ => panic!("a failed blob deletion must be reported"),
    }
    match rbackup::remove_file_outcome(None, Vec::new()) {
        RemoveFileResult::FileNotFound => {}
        _ => panic!("an absent file is not found"),
    }
}

#[test]
fn remove_file_version_removes_exactly_one() {
    let enc = Encryptor::new(String::from("0123456789abcdef"));
    let mut dao = Dao::new();
    let account_id = match dao.register("alice", "pw1", 1700000000, 5) {
        RegisterResult::Created(id) => id,
        RegisterResult::Exists => panic!("fresh username must register"),
    };
    let _ = dao.login(&enc, "dev1", "alice", "pw1", 1700000001);
    let _ = upload(&mut dao, &account_id, "dev1", "notes.txt", b"hello", 1);
    let _ = upload(&mut dao, &account_id, "dev1", "notes.txt", b"hello!", 2);

    let victim_id = dao.files[0].versions[0].version;
    let victim_name = dao.files[0].versions[0].storage_name.clone();
    let name = rbackup::remove_file_version(&mut dao, victim_id).expect("version exists");
    assert_eq!(name, victim_name);
    assert_eq!(dao.files[0].versions.len(), 1);
    assert!(rbackup::remove_file_version(&mut dao, victim_id).is_none());

    // the blob outcome folds into the reported result
    assert!(matches!(
        rbackup::remove_file_version_outcome(Some(name.clone()), true),
        Ok(RemoveFileVersionResult::Success)
    ));
    assert!(rbackup::remove_file_version_outcome(Some(name), false).is_err());
    assert!(matches!(
        rbackup::remove_file_version_outcome(None, true),
        Ok(RemoveFileVersionResult::FileNotFound)
    ));
}
