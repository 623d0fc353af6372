use rbackup::dao::Dao;
use rbackup::encryptor::Encryptor;
use rbackup::results::{ListDevicesResult, ListFileResult, LoginResult, RegisterResult};

fn enc() -> Encryptor {
    Encryptor::new(String::from("0123456789abcdef"))
}

#[test]
fn register_creates_account_with_derived_id() {
    let mut dao = Dao::new();
    match dao.register("alice", "pw1", 10, 20) {
        RegisterResult::Created(id) => {
            // a SHA-256 rendered in hex is 64 characters
            assert_eq!(id.len(), 64);
        }
        RegisterResult::Exists => panic!("fresh username must register"),
    }
    assert_eq!(dao.accounts.len(), 1);
    assert_eq!(dao.accounts[0].username, "alice");
}

#[test]
fn register_taken_username_is_exists() {
    let mut dao = Dao::new();
    let _ = dao.register("alice", "pw1", 10, 20);
    match dao.register("alice", "other-password", 11, 21) {
        RegisterResult::Exists => {}
        RegisterResult::Created(_) => panic!("taken username must not register"),
    }
    assert_eq!(dao.accounts.len(), 1);
}

#[test]
fn login_unknown_account_not_found() {
    let e = enc();
    let mut dao = Dao::new();
    let _ = dao.register("alice", "pw1", 10, 20);
    match dao.login(&e, "dev1", "bob", "pw1", 30) {
        LoginResult::AccountNotFound => {}
        _ => panic!("unknown username must not log in"),
    }
    match dao.login(&e, "dev1", "alice", "wrong", 30) {
        LoginResult::AccountNotFound => {}
        _ => panic!("wrong password must not log in"),
    }
    assert_eq!(dao.sessions.len(), 0);
}

#[test]
fn login_new_then_renewed_session() {
    let e = enc();
    let mut dao = Dao::new();
    let _ = dao.register("alice", "pw1", 10, 20);
    let t1 = match dao.login(&e, "dev1", "alice", "pw1", 30) {
        LoginResult::NewSession(t) => t,
        _ => panic!("first login must open a new session"),
    };
    assert_eq!(t1.len(), 36);
    let t2 = match dao.login(&e, "dev1", "alice", "pw1", 40) {
        LoginResult::RenewedSession(t) => t,
        _ => panic!("second login for the pair must renew"),
    };
    assert_ne!(t1, t2);
    assert_eq!(dao.sessions.len(), 1);
}

#[test]
fn only_most_recent_token_authenticates() {
    let e = enc();
    let mut dao = Dao::new();
    let _ = dao.register("alice", "pw1", 10, 20);
    let t1 = match dao.login(&e, "dev1", "alice", "pw1", 30) {
        LoginResult::NewSession(t) => t,
        _ => panic!("first login must open a new session"),
    };
    let t2 = match dao.login(&e, "dev1", "alice", "pw1", 40) {
        LoginResult::RenewedSession(t) => t,
        _ => panic!("second login for the pair must renew"),
    };
    assert!(dao.authenticate(&e, &t1).is_none());
    let ident = dao.authenticate(&e, &t2).expect("current token must authenticate");
    assert_eq!(ident.id, "dev1");
    assert_eq!(ident.repo_pass, "pw1");
}

#[test]
fn authenticate_unknown_or_tampered_token_is_none() {
    let e = enc();
    let mut dao = Dao::new();
    let _ = dao.register("alice", "pw1", 10, 20);
    let t = match dao.login(&e, "dev1", "alice", "pw1", 30) {
        LoginResult::NewSession(t) => t,
        _ => panic!("first login must open a new session"),
    };
    assert!(dao.authenticate(&e, "never-issued-token").is_none());
    // tamper with one character of the real token
    let mut tampered: Vec<char> = t.chars().collect();
    tampered[0] = if tampered[0] == 'x' { 'y' } else { 'x' };
    let tampered: String = tampered.into_iter().collect();
    assert!(dao.authenticate(&e, &tampered).is_none());
    // the cached negative answer stays negative
    assert!(dao.authenticate(&e, "never-issued-token").is_none());
    // and the real token still works, also when answered from the cache
    assert!(dao.authenticate(&e, &t).is_some());
    assert!(dao.authenticate(&e, &t).is_some());
}

#[test]
fn list_files_distinguishes_empty_from_unknown_device() {
    let e = enc();
    let mut dao = Dao::new();
    let _ = dao.register("alice", "pw1", 10, 20);
    let _ = dao.login(&e, "dev1", "alice", "pw1", 30);
    let account_id = dao.accounts[0].id.clone();
    match rbackup::list_files(&dao, &account_id, "dev1") {
        ListFileResult::Success(files) => assert!(files.is_empty()),
        ListFileResult::DeviceNotFound => panic!("a device with a session is known"),
    }
    match rbackup::list_files(&dao, &account_id, "dev2") {
        ListFileResult::DeviceNotFound => {}
        ListFileResult::Success(_) => panic!("a device with no session is unknown"),
    }
}

#[test]
fn list_devices_lists_each_session_device_once() {
    let e = enc();
    let mut dao = Dao::new();
    let _ = dao.register("alice", "pw1", 10, 20);
    let _ = dao.login(&e, "dev1", "alice", "pw1", 30);
    let _ = dao.login(&e, "dev2", "alice", "pw1", 31);
    let _ = dao.login(&e, "dev1", "alice", "pw1", 32);
    let account_id = dao.accounts[0].id.clone();
    let ListDevicesResult::Success(mut devices) = rbackup::list_devices(&dao, &account_id);
    devices.sort();
    assert_eq!(devices, vec![String::from("dev1"), String::from("dev2")]);
}
