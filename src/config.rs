//! The server's configuration, and how command-line options change it.
use crate::primitives::{base64url_decoded, base64url_of, decode_base64url, encode_base64url, os_random_bytes, wipe};
use crate::secret_backend::SecretBackend;
use vstd::prelude::*;

verus! {

/// The port the server listens on unless told otherwise.
pub const DEFAULT_PORT: u16 = 8000;

/// Bytes of a freshly generated challenge signing secret.
pub const SIGNING_SECRET_LEN: usize = 32;

/// The secrets held in the configuration.
#[derive(Debug)]
pub struct Keys {
    /// The Base64-URL secret under which challenges are tagged.
    pub challenge_signing_key: String,
}

/// How to reach the identity-verification service.
#[derive(Debug)]
pub struct Trulioo {
    /// The name of the API key in the secret backend.
    pub key_name: Option<String>,
    /// The API key itself.
    pub key_value: Option<String>,
    /// The service's base URL.
    pub url: String,
}

/// The server's configuration.
#[derive(Debug)]
pub struct Config {
    pub keys: Keys,
    pub port: u16,
    pub secret_backend: Option<SecretBackend>,
    pub trulioo: Option<Trulioo>,
}

/// The command-line options that can change a configuration.
#[derive(Debug)]
pub struct Opt {
    /// The configuration file to read, if not the one in the home directory.
    pub config: Option<String>,
    pub port: u16,
    pub secretbackend: Option<SecretBackend>,
    pub truliooapiurl: Option<String>,
    pub truliooapikeyname: Option<String>,
    pub truliooapikeyvalue: Option<String>,
    /// A Base64-URL challenge signing secret.
    pub challenge_signing_key: Option<String>,
}

/// Why options could not be turned into a configuration.
#[derive(Clone, Copy, Debug, PartialEq, Eq, Structural)]
pub enum ConfigError {
    /// The challenge signing key given is not Base64-URL.
    BadSigningKey,
    /// No signing key was given and the operating system gave no random bytes
    /// to make one.
    NoRandomness,
}

/// The text of an optional string.
pub open spec fn opt_text(o: Option<String>) -> Option<Seq<char>> {
    match o {
        Some(s) => Some(s@),
        None => None,
    }
}

/// What a `Trulioo` section holds.
pub struct TruliooModel {
    pub key_name: Option<Seq<char>>,
    pub key_value: Option<Seq<char>>,
    pub url: Seq<char>,
}

impl View for Trulioo {
    type V = TruliooModel;

    open spec fn view(&self) -> TruliooModel {
        TruliooModel { key_name: opt_text(self.key_name), key_value: opt_text(self.key_value), url: self.url@ }
    }
}

/// The text of an optional `Trulioo` section.
pub open spec fn opt_trulioo(o: Option<Trulioo>) -> Option<TruliooModel> {
    match o {
        Some(t) => Some(t@),
        None => None,
    }
}

/// What a configuration holds.
pub struct ConfigModel {
    pub challenge_signing_key: Seq<char>,
    pub port: u16,
    pub secret_backend: Option<SecretBackend>,
    pub trulioo: Option<TruliooModel>,
}

impl View for Config {
    type V = ConfigModel;

    open spec fn view(&self) -> ConfigModel {
        ConfigModel {
            challenge_signing_key: self.keys.challenge_signing_key@,
            port: self.port,
            secret_backend: self.secret_backend,
            trulioo: opt_trulioo(self.trulioo),
        }
    }
}

/// Whether the options' signing key, if any, is Base64-URL.
pub open spec fn signing_key_accepted(opt: Opt) -> bool {
    opt.challenge_signing_key matches Some(k) ==> base64url_decoded(k@) is Some
}

/// The `Trulioo` section that the options make on their own: one exists when
/// an API key name or value is given (the name wins), with the URL given or
/// an empty one.
pub open spec fn trulioo_from_opt(opt: Opt) -> Option<TruliooModel> {
    let url = match opt.truliooapiurl {
        Some(u) => u@,
        None => Seq::empty(),
    };
    if opt.truliooapikeyname is Some {
        Some(TruliooModel { key_name: opt_text(opt.truliooapikeyname), key_value: None, url })
    } else if opt.truliooapikeyvalue is Some {
        Some(TruliooModel { key_name: None, key_value: opt_text(opt.truliooapikeyvalue), url })
    } else {
        None
    }
}

/// A `Trulioo` section with each field that the options give replaced.
pub open spec fn trulioo_updated(t: TruliooModel, opt: Opt) -> TruliooModel {
    TruliooModel {
        key_name: if opt.truliooapikeyname is Some {
            opt_text(opt.truliooapikeyname)
        } else {
            t.key_name
        },
        key_value: if opt.truliooapikeyvalue is Some {
            opt_text(opt.truliooapikeyvalue)
        } else {
            t.key_value
        },
        url: match opt.truliooapiurl {
            Some(u) => u@,
            None => t.url,
        },
    }
}

/// A configuration with what the options give laid over it.
pub open spec fn config_updated(c: ConfigModel, opt: Opt) -> ConfigModel {
    ConfigModel {
        challenge_signing_key: match opt.challenge_signing_key {
            Some(k) => k@,
            None => c.challenge_signing_key,
        },
        port: opt.port,
        secret_backend: if opt.secretbackend is Some {
            opt.secretbackend
        } else {
            c.secret_backend
        },
        trulioo: match c.trulioo {
            Some(t) => Some(trulioo_updated(t, opt)),
            None => trulioo_from_opt(opt),
        },
    }
}

fn copy_text(o: &Option<String>) -> (r: Option<String>)
    ensures
        opt_text(r) == opt_text(*o),
{
    match o {
        Some(s) => Some(s.clone()),
        None => None,
    }
}

fn trulioo_of_opt(opt: &Opt) -> (r: Option<Trulioo>)
    ensures
        opt_trulioo(r) == trulioo_from_opt(*opt),
{
    let url = match &opt.truliooapiurl {
        Some(u) => u.clone(),
        None => String::new(),
    };
    if opt.truliooapikeyname.is_some() {
        Some(Trulioo { key_name: copy_text(&opt.truliooapikeyname), key_value: None, url })
    } else if opt.truliooapikeyvalue.is_some() {
        Some(Trulioo { key_name: None, key_value: copy_text(&opt.truliooapikeyvalue), url })
    } else {
        None
    }
}

impl Keys {
    /// Keys that hold `secret`, Base64-URL encoded.
    pub fn from_secret(secret: &[u8]) -> (r: Keys)
        ensures
            r.challenge_signing_key@ == base64url_of(secret@),
    {
        Keys { challenge_signing_key: encode_base64url(secret) }
    }

    /// Keys with a fresh random signing secret; nothing when the operating
    /// system gives no random bytes. The raw secret is wiped from memory.
    pub fn generate() -> (r: Option<Keys>)
        ensures
            r matches Some(k) ==> exists|s: Seq<u8>|
                s.len() == SIGNING_SECRET_LEN && k.challenge_signing_key@ == #[trigger] base64url_of(s),
    {
        match os_random_bytes(SIGNING_SECRET_LEN) {
            Some(mut secret) => {
                let keys = Keys::from_secret(secret.as_slice());
                wipe(&mut secret);
                Some(keys)
            },
            None => None,
        }
    }

    /// The raw signing secret; nothing when the stored text is not Base64-URL.
    pub fn signing_secret(&self) -> (r: Option<Vec<u8>>)
        ensures
            r is None <==> base64url_decoded(self.challenge_signing_key@) is None,
            r matches Some(v) ==> base64url_decoded(self.challenge_signing_key@) == Some(v@),
    {
        decode_base64url(self.challenge_signing_key.as_str())
    }
}

impl Config {
    /// The default configuration around `keys`: the default port, no secret
    /// backend, no identity-verification service.
    pub fn with_keys(keys: Keys) -> (r: Config)
        ensures
            r.keys == keys,
            r.port == DEFAULT_PORT,
            r.secret_backend is None,
            r.trulioo is None,
    {
        Config { keys, port: DEFAULT_PORT, secret_backend: None, trulioo: None }
    }

    /// The configuration that the options make on their own. Without a
    /// signing key among them a fresh one is generated.
    pub fn from_opt(opt: &Opt) -> (r: Result<Config, ConfigError>)
        ensures
            !signing_key_accepted(*opt) ==> r == Err::<Config, ConfigError>(ConfigError::BadSigningKey),
            signing_key_accepted(*opt) && opt.challenge_signing_key is Some ==> r is Ok,
            opt.challenge_signing_key is None ==> (r is Ok || r == Err::<Config, ConfigError>(
                ConfigError::NoRandomness,
            )),
            r matches Ok(c) ==> {
                &&& c.port == opt.port
                &&& c.secret_backend == opt.secretbackend
                &&& opt_trulioo(c.trulioo) == trulioo_from_opt(*opt)
                &&& opt.challenge_signing_key matches Some(k) ==> c.keys.challenge_signing_key@ == k@
                &&& opt.challenge_signing_key is None ==> exists|s: Seq<u8>|
                    s.len() == SIGNING_SECRET_LEN && c.keys.challenge_signing_key@
                        == #[trigger] base64url_of(s)
            },
    {
        let keys = match &opt.challenge_signing_key {
            Some(k) => {
                if decode_base64url(k.as_str()).is_none() {
                    return Err(ConfigError::BadSigningKey);
                }
                Keys { challenge_signing_key: k.clone() }
            },
            None => match Keys::generate() {
                Some(k) => k,
                None => return Err(ConfigError::NoRandomness),
            },
        };
        Ok(
            Config {
                keys,
                port: opt.port,
                secret_backend: opt.secretbackend,
                trulioo: trulioo_of_opt(opt),
            },
        )
    }

    /// Lays what the options give over this configuration. A signing key that
    /// is not Base64-URL is refused, and the configuration is then left as it
    /// was.
    pub fn copy_from_opt(&mut self, opt: &Opt) -> (r: Result<(), ConfigError>)
        ensures
            r is Ok <==> signing_key_accepted(*opt),
            r is Err ==> r == Err::<(), ConfigError>(ConfigError::BadSigningKey) && final(self)@
                == old(self)@,
            r is Ok ==> final(self)@ == config_updated(old(self)@, *opt),
    {
        if let Some(k) = &opt.challenge_signing_key {
            if decode_base64url(k.as_str()).is_none() {
                return Err(ConfigError::BadSigningKey);
            }
            self.keys.challenge_signing_key = k.clone();
        }
        let trulioo = match &self.trulioo {
            Some(t) => Some(
                Trulioo {
                    key_name: if opt.truliooapikeyname.is_some() {
                        copy_text(&opt.truliooapikeyname)
                    } else {
                        copy_text(&t.key_name)
                    },
                    key_value: if opt.truliooapikeyvalue.is_some() {
                        copy_text(&opt.truliooapikeyvalue)
                    } else {
                        copy_text(&t.key_value)
                    },
                    url: match &opt.truliooapiurl {
                        Some(u) => u.clone(),
                        None => t.url.clone(),
                    },
                },
            ),
            None => trulioo_of_opt(opt),
        };
        self.trulioo = trulioo;
        if opt.secretbackend.is_some() {
            self.secret_backend = opt.secretbackend;
        }
        self.port = opt.port;
        Ok(())
    }
}

} // verus!
