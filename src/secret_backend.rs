//! Where the server keeps the secrets it does not hold in its configuration.
use crate::primitives::{lowercase_of, to_lowercase};
use vstd::prelude::*;

verus! {

/// A store of secrets that the server can read an API key from.
#[derive(Clone, Copy, Debug, PartialEq, Eq, Structural)]
pub enum SecretBackend {
    AwsKms,
    AzureKeyVault,
    OsKeyRing,
}

/// The name of a backend, as it is written in configuration.
pub open spec fn backend_name(b: SecretBackend) -> Seq<char> {
    match b {
        SecretBackend::AwsKms => seq!['a', 'w', 's', 'k', 'm', 's'],
        SecretBackend::AzureKeyVault => seq![
            'a', 'z', 'u', 'r', 'e', 'k', 'e', 'y', 'v', 'a', 'u', 'l', 't'
        ],
        SecretBackend::OsKeyRing => seq!['o', 's', 'k', 'e', 'y', 'r', 'i', 'n', 'g'],
    }
}

/// The backend whose name is `s`, if any.
pub open spec fn backend_named(s: Seq<char>) -> Option<SecretBackend> {
    if s == backend_name(SecretBackend::AwsKms) {
        Some(SecretBackend::AwsKms)
    } else if s == backend_name(SecretBackend::AzureKeyVault) {
        Some(SecretBackend::AzureKeyVault)
    } else if s == backend_name(SecretBackend::OsKeyRing) {
        Some(SecretBackend::OsKeyRing)
    } else {
        None
    }
}

impl SecretBackend {
    /// The backend's name in lower case, as configuration writes it.
    pub fn name(&self) -> (r: String)
        ensures
            r@ == backend_name(*self),
    {
        match self {
            SecretBackend::AwsKms => {
                proof {
                    reveal_strlit("awskms");
                }
                String::from_str("awskms")
            },
            SecretBackend::AzureKeyVault => {
                proof {
                    reveal_strlit("azurekeyvault");
                }
                String::from_str("azurekeyvault")
            },
            SecretBackend::OsKeyRing => {
                proof {
                    reveal_strlit("oskeyring");
                }
                String::from_str("oskeyring")
            },
        }
    }

    /// The backend named `s`, in any letter case; otherwise an error that
    /// quotes `s`.
    pub fn try_from(s: &str) -> (r: Result<SecretBackend, String>)
        ensures
            backend_named(lowercase_of(s@)) matches Some(b) ==> r == Ok::<SecretBackend, String>(b),
            backend_named(lowercase_of(s@)) is None ==> (r matches Err(e) && e@ == "Unknown value: "@
                + s@),
    {
        let lowered = to_lowercase(s);
        let aws = SecretBackend::AwsKms.name();
        if lowered == aws {
            return Ok(SecretBackend::AwsKms);
        }
        let azure = SecretBackend::AzureKeyVault.name();
        if lowered == azure {
            return Ok(SecretBackend::AzureKeyVault);
        }
        let keyring = SecretBackend::OsKeyRing.name();
        if lowered == keyring {
            return Ok(SecretBackend::OsKeyRing);
        }
        let mut message = String::from_str("Unknown value: ");
        message.append(s);
        Err(message)
    }
}

impl std::str::FromStr for SecretBackend {
    type Err = String;

    fn from_str(s: &str) -> Result<SecretBackend, String> {
        SecretBackend::try_from(s)
    }
}

} // verus!
