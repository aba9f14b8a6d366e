use televiu::config::Config;
use televiu::registry::{LookupError, RegisterError, Registry};
use televiu::session::{admit_controller, AdmitError};

#[test]
fn unknown_device_is_lookup_error() {
    let mut r: Registry<u32> = Registry::new();
    r.register_with("abc".to_string(), 1).unwrap();
    let id = "not-registered".to_string();
    assert!(!r.lookup(&id));
    assert_eq!(r.claim(&id), Err(LookupError::UnknownDevice));
}

#[test]
fn register_then_claim_returns_same_channel() {
    let mut r: Registry<u32> = Registry::new();
    let a = r.register(7).unwrap();
    let b = r.register(8).unwrap();
    assert_ne!(a, b);
    assert!(r.lookup(&a));
    assert!(r.lookup(&b));
    assert_eq!(r.claim(&b), Ok(8));
    assert_eq!(r.claim(&a), Ok(7));
}

#[test]
fn generated_identifier_is_hyphenated_uuid() {
    let mut r: Registry<u32> = Registry::new();
    let id = r.register(0).unwrap();
    assert_eq!(id.len(), 36);
    assert_eq!(id.matches('-').count(), 4);
    assert_eq!(id.chars().nth(14), Some('4'));
    assert!(matches!(id.chars().nth(19), Some('8' | '9' | 'a' | 'b')));
    for (i, c) in id.chars().enumerate() {
        if i == 8 || i == 13 || i == 18 || i == 23 {
            assert_eq!(c, '-');
        } else {
            assert!(c.is_ascii_digit() || ('a'..='f').contains(&c));
        }
    }
}

#[test]
fn second_claim_fails() {
    let mut r: Registry<u32> = Registry::new();
    r.register_with("dev".to_string(), 5).unwrap();
    let d = "dev".to_string();
    assert_eq!(r.claim(&d), Ok(5));
    assert_eq!(r.claim(&d), Err(LookupError::AlreadyClaimed));
    assert!(r.lookup(&d));
}

#[test]
fn duplicate_registration_refused() {
    let mut r: Registry<u32> = Registry::new();
    assert_eq!(r.register_with("dev".to_string(), 1), Ok(()));
    assert_eq!(r.register_with("dev".to_string(), 2), Err(RegisterError::DuplicateDevice));
    assert_eq!(r.claim(&"dev".to_string()), Ok(1));
}

#[test]
fn unregister_removes_device() {
    let mut r: Registry<u32> = Registry::new();
    r.register_with("a".to_string(), 1).unwrap();
    r.register_with("b".to_string(), 2).unwrap();
    r.register_with("c".to_string(), 3).unwrap();
    r.unregister(&"b".to_string());
    assert!(!r.lookup(&"b".to_string()));
    assert_eq!(r.claim(&"b".to_string()), Err(LookupError::UnknownDevice));
    assert_eq!(r.claim(&"a".to_string()), Ok(1));
    assert_eq!(r.claim(&"c".to_string()), Ok(3));
    r.unregister(&"b".to_string());
    r.unregister(&"a".to_string());
    assert!(!r.lookup(&"a".to_string()));
    assert!(r.lookup(&"c".to_string()));
}

#[test]
fn empty_registry_resolves_nothing() {
    let r: Registry<u32> = Registry::new();
    assert!(!r.lookup(&String::new()));
}

#[test]
fn config_address() {
    let c = Config { host: "localhost".to_string(), port: "9000".to_string() };
    assert_eq!(c.address(), "localhost:9000");
}

#[test]
fn controller_admission() {
    let mut r: Registry<u32> = Registry::new();
    r.register_with("dev".to_string(), 9).unwrap();
    let dev = "dev".to_string();
    let secret = "s".to_string();
    let unknown = "not-registered".to_string();
    assert_eq!(admit_controller(&mut r, None, Some(&secret)), Err(AdmitError::MissingDevice));
    assert_eq!(admit_controller(&mut r, Some(&dev), None), Err(AdmitError::MissingSecret));
    assert_eq!(
        admit_controller(&mut r, Some(&unknown), Some(&secret)),
        Err(AdmitError::Lookup(LookupError::UnknownDevice))
    );
    assert_eq!(admit_controller(&mut r, Some(&dev), Some(&secret)), Ok(9));
    assert_eq!(
        admit_controller(&mut r, Some(&dev), Some(&secret)),
        Err(AdmitError::Lookup(LookupError::AlreadyClaimed))
    );
}
