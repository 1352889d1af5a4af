use payaddr::config::{Config, ConfigError, Keys, Opt, Trulioo, DEFAULT_PORT};
use payaddr::secret_backend::SecretBackend;

fn opt() -> Opt {
    Opt {
        config: None,
        port: 9000,
        secretbackend: None,
        truliooapiurl: None,
        truliooapikeyname: None,
        truliooapikeyvalue: None,
        challenge_signing_key: None,
    }
}

fn base_config() -> Config {
    Config {
        keys: Keys { challenge_signing_key: "AAAA".to_string() },
        port: 8000,
        secret_backend: Some(SecretBackend::AwsKms),
        trulioo: Some(Trulioo {
            key_name: Some("name".to_string()),
            key_value: None,
            url: "https://old".to_string(),
        }),
    }
}

#[test]
fn backend_names() {
    assert_eq!(SecretBackend::AwsKms.name(), "awskms");
    assert_eq!(SecretBackend::AzureKeyVault.name(), "azurekeyvault");
    assert_eq!(SecretBackend::OsKeyRing.name(), "oskeyring");
}

#[test]
fn backend_parsing_ignores_case() {
    assert_eq!(SecretBackend::try_from("AwsKms"), Ok(SecretBackend::AwsKms));
    assert_eq!(SecretBackend::try_from("AZUREKEYVAULT"), Ok(SecretBackend::AzureKeyVault));
    assert_eq!(SecretBackend::try_from("oskeyring"), Ok(SecretBackend::OsKeyRing));
    assert_eq!("OsKeyRing".parse::<SecretBackend>(), Ok(SecretBackend::OsKeyRing));
    assert_eq!(SecretBackend::try_from("vault"), Err("Unknown value: vault".to_string()));
    assert_eq!(SecretBackend::try_from(""), Err("Unknown value: ".to_string()));
}

#[test]
fn keys_from_secret_and_back() {
    let keys = Keys::from_secret(&[0xfb, 0xff]);
    assert_eq!(keys.challenge_signing_key, "-_8");
    assert_eq!(keys.signing_secret(), Some(vec![0xfb, 0xff]));
    let bad = Keys { challenge_signing_key: "!!".to_string() };
    assert_eq!(bad.signing_secret(), None);
}

#[test]
fn generated_keys_hold_32_bytes() {
    let a = Keys::generate().unwrap();
    let b = Keys::generate().unwrap();
    assert_eq!(a.signing_secret().unwrap().len(), 32);
    assert_ne!(a.challenge_signing_key, b.challenge_signing_key);
}

#[test]
fn with_keys_uses_defaults() {
    let c = Config::with_keys(Keys::from_secret(&[1, 2, 3]));
    assert_eq!(c.port, DEFAULT_PORT);
    assert_eq!(c.port, 8000);
    assert!(c.secret_backend.is_none());
    assert!(c.trulioo.is_none());
}

#[test]
fn from_opt_without_service() {
    let c = Config::from_opt(&opt()).unwrap();
    assert_eq!(c.port, 9000);
    assert!(c.trulioo.is_none());
    assert_eq!(c.keys.signing_secret().unwrap().len(), 32);
}

#[test]
fn from_opt_prefers_key_name() {
    let mut o = opt();
    o.truliooapikeyname = Some("n".to_string());
    o.truliooapikeyvalue = Some("v".to_string());
    o.secretbackend = Some(SecretBackend::OsKeyRing);
    o.challenge_signing_key = Some("AQID".to_string());
    let c = Config::from_opt(&o).unwrap();
    let t = c.trulioo.unwrap();
    assert_eq!(t.key_name, Some("n".to_string()));
    assert_eq!(t.key_value, None);
    assert_eq!(t.url, "");
    assert_eq!(c.keys.challenge_signing_key, "AQID");
    assert_eq!(c.secret_backend, Some(SecretBackend::OsKeyRing));
}

#[test]
fn from_opt_with_key_value_only() {
    let mut o = opt();
    o.truliooapikeyvalue = Some("v".to_string());
    o.truliooapiurl = Some("https://api".to_string());
    let t = Config::from_opt(&o).unwrap().trulioo.unwrap();
    assert_eq!(t.key_name, None);
    assert_eq!(t.key_value, Some("v".to_string()));
    assert_eq!(t.url, "https://api");
}

#[test]
fn from_opt_refuses_bad_signing_key() {
    let mut o = opt();
    o.challenge_signing_key = Some("not base64!".to_string());
    assert_eq!(Config::from_opt(&o).unwrap_err(), ConfigError::BadSigningKey);
}

#[test]
fn copy_from_opt_overrides_given_fields() {
    let mut c = base_config();
    let mut o = opt();
    o.truliooapiurl = Some("https://new".to_string());
    o.truliooapikeyvalue = Some("v".to_string());
    o.challenge_signing_key = Some("AQID".to_string());
    assert_eq!(c.copy_from_opt(&o), Ok(()));
    let t = c.trulioo.as_ref().unwrap();
    assert_eq!(t.url, "https://new");
    assert_eq!(t.key_name, Some("name".to_string()));
    assert_eq!(t.key_value, Some("v".to_string()));
    assert_eq!(c.keys.challenge_signing_key, "AQID");
    assert_eq!(c.secret_backend, Some(SecretBackend::AwsKms));
    assert_eq!(c.port, 9000);
}

#[test]
fn copy_from_opt_creates_service_section() {
    let mut c = base_config();
    c.trulioo = None;
    let mut o = opt();
    o.truliooapikeyname = Some("n".to_string());
    o.secretbackend = Some(SecretBackend::AzureKeyVault);
    c.copy_from_opt(&o).unwrap();
    let t = c.trulioo.as_ref().unwrap();
    assert_eq!(t.key_name, Some("n".to_string()));
    assert_eq!(t.url, "");
    assert_eq!(c.secret_backend, Some(SecretBackend::AzureKeyVault));
    let mut d = base_config();
    d.trulioo = None;
    d.copy_from_opt(&opt()).unwrap();
    assert!(d.trulioo.is_none());
}

#[test]
fn copy_from_opt_refuses_bad_key_and_changes_nothing() {
    let mut c = base_config();
    let mut o = opt();
    o.challenge_signing_key = Some("***".to_string());
    o.truliooapiurl = Some("https://new".to_string());
    assert_eq!(c.copy_from_opt(&o), Err(ConfigError::BadSigningKey));
    assert_eq!(c.keys.challenge_signing_key, "AAAA");
    assert_eq!(c.port, 8000);
    assert_eq!(c.trulioo.as_ref().unwrap().url, "https://old");
}
