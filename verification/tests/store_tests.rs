use keepass::{config::KdfConfig, Database, DatabaseKey};
use keepass_viewer::errors::OpenError;
use keepass_viewer::store::KeePassFile;

fn sample_database_bytes(password: &str) -> Vec<u8> {
    let mut db = Database::new();
    db.config.kdf_config = KdfConfig::Aes { rounds: 100 };
    {
        let mut root = db.root_mut();
        root.name = "Root".to_string();
        {
            let mut e = root.add_entry();
            e.set_unprotected("Title", "Login");
            e.set_unprotected("UserName", "alice");
            e.set_protected("Password", "wonderland");
        }
        {
            let mut work = root.add_group();
            work.name = "Work".to_string();
            let mut e = work.add_entry();
            e.set_unprotected("Title", "Email");
            e.set_unprotected("URL", "https://mail.example");
        }
    }
    let mut out = Vec::new();
    db.save(&mut out, DatabaseKey::new().with_password(password))
        .expect("saving the sample database should succeed");
    out
}

fn descriptor() -> KeePassFile {
    KeePassFile::new("/db/sample.kdbx".to_string(), "sample.kdbx".to_string())
}

#[test]
fn read_failure_surfaces_as_io() {
    let r = descriptor().get_entries(Err("no such file".to_string()), "pw");
    match r {
        Err(OpenError::Io(m)) => assert_eq!(m, "no such file"),
        other => panic!("expected an Io failure, got {:?}", other),
    }
}

#[test]
fn wrong_password_surfaces_as_invalid_credentials() {
    let bytes = sample_database_bytes("right horse battery");
    let r = descriptor().get_entries(Ok(bytes), "wrong horse battery");
    assert!(matches!(r, Err(OpenError::InvalidCredentials(_))));
}

#[test]
fn unparseable_bytes_surface_as_invalid_credentials() {
    let r = descriptor().get_entries(Ok(vec![0u8; 24]), "pw");
    assert!(matches!(r, Err(OpenError::InvalidCredentials(_))));
}

#[test]
fn failure_kinds_are_distinct() {
    let bytes = sample_database_bytes("demopass");
    let on_missing = descriptor().get_entries(Err("unreadable".to_string()), "demopass");
    let on_wrong_password = descriptor().get_entries(Ok(bytes), "not demopass");
    assert!(matches!(on_missing, Err(OpenError::Io(_))));
    assert!(matches!(
        on_wrong_password,
        Err(OpenError::InvalidCredentials(_))
    ));
}

#[test]
fn open_entries_end_to_end() {
    let bytes = sample_database_bytes("demopass");
    let records = descriptor()
        .get_entries(Ok(bytes), "demopass")
        .expect("the right password should open the database");
    assert_eq!(records.len(), 2);
    assert_eq!(records[0].title, "/Root/Login");
    assert_eq!(records[0].username.as_deref(), Some("alice"));
    assert_eq!(records[0].password.as_deref(), Some("wonderland"));
    assert_eq!(records[0].url, None);
    assert_eq!(records[0].notes, None);
    assert_eq!(records[1].title, "/Root/Work/Email");
    assert_eq!(records[1].url.as_deref(), Some("https://mail.example"));
}

#[test]
fn opening_twice_yields_equal_lists() {
    let bytes = sample_database_bytes("demopass");
    let r1 = descriptor()
        .get_entries(Ok(bytes.clone()), "demopass")
        .expect("first opening should succeed");
    let r2 = descriptor()
        .get_entries(Ok(bytes), "demopass")
        .expect("second opening should succeed");
    assert_eq!(r1, r2);
}

#[test]
fn empty_password_is_passed_through_to_the_decoder() {
    let bytes = sample_database_bytes("");
    let records = descriptor()
        .get_entries(Ok(bytes), "")
        .expect("an empty password is a valid password");
    assert_eq!(records.len(), 2);
}
