//! The request layout of the identity-verification service (Trulioo): where
//! each resource lives, and how configuration says where the API key is.
use crate::config::Config;
use vstd::prelude::*;

verus! {

/// The trial gateway of the service.
pub const TRIAL_BASE_URL: &'static str = "https://gateway.Trulioo.com/trial/configuration";

/// The production gateway of the service.
pub const BASE_URL: &'static str = "https://api.globaldatacompany.com/";

/// The header that carries the API key.
pub const API_KEY_HEADER: &'static str = "x-trulioo-api-key";

/// The service configuration that requests name, URL-encoded.
pub const CONFIGURATION_NAME: &'static str = "Identity%20Verification";

/// A client of the service: its base URL and API key.
#[derive(Debug)]
pub struct TruliooRequest {
    pub key: String,
    pub url: String,
}

/// A consent that the service asks for before checking a data source.
#[derive(Debug)]
pub struct Consent {
    pub name: String,
    pub text: Option<String>,
    pub url: Option<String>,
}

/// Where the API key for the service comes from.
#[derive(Debug)]
pub enum ApiKeySource {
    /// Read it under this name from the secret backend.
    SecretStore(String),
    /// Use this value.
    Given(String),
    /// Ask the operator.
    Ask,
}

/// `base`, then `path` under the configuration name, then `country`.
pub open spec fn configured_url(base: Seq<char>, path: Seq<char>, country: Seq<char>) -> Seq<char> {
    base + path + CONFIGURATION_NAME@ + "/"@ + country
}

impl TruliooRequest {
    fn with_configuration(&self, path: &str, country: &str) -> (r: String)
        ensures
            r@ == configured_url(self.url@, path@, country@),
    {
        let mut r = self.url.clone();
        r.append(path);
        r.append(CONFIGURATION_NAME);
        r.append("/");
        r.append(country);
        r
    }

    fn with_path(&self, path: &str) -> (r: String)
        ensures
            r@ == self.url@ + path@,
    {
        let mut r = self.url.clone();
        r.append(path);
        r
    }

    /// Where the list of supported country codes is.
    pub fn country_codes_url(&self) -> (r: String)
        ensures
            r@ == self.url@ + "/configuration/v1/countrycodes/"@ + CONFIGURATION_NAME@,
    {
        let mut r = self.with_path("/configuration/v1/countrycodes/");
        r.append(CONFIGURATION_NAME);
        r
    }

    /// Where the subdivisions of `country` are.
    pub fn country_subdivisions_url(&self, country: &str) -> (r: String)
        ensures
            r@ == self.url@ + "/configuration/v1/countrysubdivisions/"@ + country@,
    {
        let mut r = self.with_path("/configuration/v1/countrysubdivisions/");
        r.append(country);
        r
    }

    /// Where the fields for `country` are.
    pub fn fields_url(&self, country: &str) -> (r: String)
        ensures
            r@ == configured_url(self.url@, "/configuration/v1/fields/"@, country@),
    {
        self.with_configuration("/configuration/v1/fields/", country)
    }

    /// Where the recommended fields for `country` are.
    pub fn recommended_fields_url(&self, country: &str) -> (r: String)
        ensures
            r@ == configured_url(self.url@, "/configuration/v1/recommendedfields/"@, country@),
    {
        self.with_configuration("/configuration/v1/recommendedfields/", country)
    }

    /// Where the consent names for `country` are.
    pub fn consents_url(&self, country: &str) -> (r: String)
        ensures
            r@ == configured_url(self.url@, "/configuration/v1/consents/"@, country@),
    {
        self.with_configuration("/configuration/v1/consents/", country)
    }

    /// Where the detailed consents for `country` are.
    pub fn detailed_consents_url(&self, country: &str) -> (r: String)
        ensures
            r@ == configured_url(self.url@, "/configuration/v1/detailedConsents/"@, country@),
    {
        self.with_configuration("/configuration/v1/detailedConsents/", country)
    }

    /// Where the test entities for `country` are.
    pub fn test_entities_url(&self, country: &str) -> (r: String)
        ensures
            r@ == configured_url(self.url@, "/configuration/v1/testentities/"@, country@),
    {
        self.with_configuration("/configuration/v1/testentities/", country)
    }

    /// Where the document types of `country` are.
    pub fn document_types_url(&self, country: &str) -> (r: String)
        ensures
            r@ == self.url@ + "/configuration/v1/documentTypes/"@ + country@,
    {
        let mut r = self.with_path("/configuration/v1/documentTypes/");
        r.append(country);
        r
    }

    /// Where identities are verified.
    pub fn verify_url(&self) -> (r: String)
        ensures
            r@ == self.url@ + "/verifications/v1/verify"@,
    {
        self.with_path("/verifications/v1/verify")
    }
}

/// Consents that carry only their names, in the order given.
pub fn consents_from_names(names: &Vec<String>) -> (r: Vec<Consent>)
    ensures
        r@.len() == names@.len(),
        forall|i: int|
            0 <= i < r@.len() ==> {
                &&& (#[trigger] r@[i]).name@ == names@[i]@
                &&& r@[i].text is None
                &&& r@[i].url is None
            },
{
    let mut r: Vec<Consent> = Vec::new();
    let mut i: usize = 0;
    while i < names.len()
        invariant
            i <= names@.len(),
            r@.len() == i,
            forall|j: int|
                0 <= j < i ==> {
                    &&& (#[trigger] r@[j]).name@ == names@[j]@
                    &&& r@[j].text is None
                    &&& r@[j].url is None
                },
        decreases names@.len() - i,
    {
        r.push(Consent { name: names[i].clone(), text: None, url: None });
        i = i + 1;
    }
    r
}

impl Config {
    /// Where the service is and where its API key comes from: with a service
    /// section, its URL and its key name, else its key value, else ask; with
    /// none, ask for both (the URL is then absent).
    pub fn trulioo_endpoint(&self) -> (r: (Option<String>, ApiKeySource))
        ensures
            match self.trulioo {
                Some(t) => {
                    &&& r.0 matches Some(u) && u@ == t.url@
                    &&& match t.key_name {
                        Some(n) => r.1 matches ApiKeySource::SecretStore(m) && m@ == n@,
                        None => match t.key_value {
                            Some(v) => r.1 matches ApiKeySource::Given(w) && w@ == v@,
                            None => r.1 is Ask,
                        },
                    }
                },
                None => r.0 is None && r.1 is Ask,
            },
    {
        match &self.trulioo {
            Some(t) => {
                let source = match &t.key_name {
                    Some(n) => ApiKeySource::SecretStore(n.clone()),
                    None => match &t.key_value {
                        Some(v) => ApiKeySource::Given(v.clone()),
                        None => ApiKeySource::Ask,
                    },
                };
                (Some(t.url.clone()), source)
            },
            None => (None, ApiKeySource::Ask),
        }
    }
}

} // verus!
