use payaddr::challenge::{issue_challenge_at, VerificationResult};
use payaddr::config::{Config, Keys, Trulioo};
use payaddr::responses::{
    challenge_body, get_payment_address_challenge, receive_payment_address_challenge,
    verification_body, PaymentAddressChallengeResponse,
};
use payaddr::signing::sign_challenge;
use payaddr::trulioo::{consents_from_names, ApiKeySource, TruliooRequest, API_KEY_HEADER};

fn request() -> TruliooRequest {
    TruliooRequest { key: "k".to_string(), url: "https://api.example".to_string() }
}

#[test]
fn challenge_body_carries_the_token() {
    assert_eq!(challenge_body("abc"), r#"{ "status": "success", "result": "abc" }"#);
}

#[test]
fn verification_bodies() {
    assert_eq!(verification_body(VerificationResult::Valid(true)), r#"{ "status": "success", "result": true }"#);
    assert_eq!(verification_body(VerificationResult::Valid(false)), r#"{ "status": "success", "result": false }"#);
    assert_eq!(
        verification_body(VerificationResult::Expired),
        r#"{ "status": "error", "message": "Challenge has expired" }"#
    );
    assert_eq!(
        verification_body(VerificationResult::Malformed),
        r#"{ "status": "error", "message": "Invalid challenge" }"#
    );
}

#[test]
fn endpoints_issue_and_accept() {
    let secret = [9u8; 32];
    let body = get_payment_address_challenge(&secret);
    let prefix = r#"{ "status": "success", "result": ""#;
    assert!(body.starts_with(prefix));
    let token = body[prefix.len()..body.len() - 3].to_string();
    let signed = sign_challenge(&token, None).unwrap();
    let response = PaymentAddressChallengeResponse {
        address: signed.address,
        challenge: token,
        signature: signed.signature,
    };
    assert_eq!(
        receive_payment_address_challenge(&response, &secret),
        r#"{ "status": "success", "result": true }"#
    );
    assert_eq!(
        receive_payment_address_challenge(&response, &[8u8; 32]),
        r#"{ "status": "error", "message": "Invalid challenge" }"#
    );
}

#[test]
fn stale_challenge_gets_expired_body() {
    let token = issue_challenge_at(&[0u8; 32], 1_000, &[1u8; 32]);
    let signed = sign_challenge(&token, None).unwrap();
    let response = PaymentAddressChallengeResponse {
        address: signed.address,
        challenge: token,
        signature: signed.signature,
    };
    assert_eq!(
        receive_payment_address_challenge(&response, &[0u8; 32]),
        r#"{ "status": "error", "message": "Challenge has expired" }"#
    );
}

#[test]
fn service_urls() {
    let r = request();
    assert_eq!(r.country_codes_url(), "https://api.example/configuration/v1/countrycodes/Identity%20Verification");
    assert_eq!(r.country_subdivisions_url("DE"), "https://api.example/configuration/v1/countrysubdivisions/DE");
    assert_eq!(r.fields_url("DE"), "https://api.example/configuration/v1/fields/Identity%20Verification/DE");
    assert_eq!(
        r.recommended_fields_url("US"),
        "https://api.example/configuration/v1/recommendedfields/Identity%20Verification/US"
    );
    assert_eq!(r.consents_url("AU"), "https://api.example/configuration/v1/consents/Identity%20Verification/AU");
    assert_eq!(
        r.detailed_consents_url("AU"),
        "https://api.example/configuration/v1/detailedConsents/Identity%20Verification/AU"
    );
    assert_eq!(
        r.test_entities_url("NL"),
        "https://api.example/configuration/v1/testentities/Identity%20Verification/NL"
    );
    assert_eq!(r.document_types_url("GB"), "https://api.example/configuration/v1/documentTypes/GB");
    assert_eq!(r.verify_url(), "https://api.example/verifications/v1/verify");
    assert_eq!(API_KEY_HEADER, "x-trulioo-api-key");
}

#[test]
fn consents_keep_names_in_order() {
    let names = vec!["Birth Registry".to_string(), "Visa Verification".to_string()];
    let consents = consents_from_names(&names);
    assert_eq!(consents.len(), 2);
    assert_eq!(consents[0].name, "Birth Registry");
    assert_eq!(consents[1].name, "Visa Verification");
    assert!(consents.iter().all(|c| c.text.is_none() && c.url.is_none()));
    assert!(consents_from_names(&Vec::new()).is_empty());
}

#[test]
fn endpoint_key_sources() {
    let mut c = Config::with_keys(Keys::from_secret(&[1]));
    assert!(matches!(c.trulioo_endpoint(), (None, ApiKeySource::Ask)));
    c.trulioo = Some(Trulioo { key_name: Some("n".to_string()), key_value: Some("v".to_string()), url: "u".to_string() });
    match c.trulioo_endpoint() {
        (Some(u), ApiKeySource::SecretStore(n)) => {
            assert_eq!(u, "u");
            assert_eq!(n, "n");
        }
        other => panic!("{:?}", other),
    }
    c.trulioo = Some(Trulioo { key_name: None, key_value: Some("v".to_string()), url: "u".to_string() });
    assert!(matches!(c.trulioo_endpoint(), (Some(_), ApiKeySource::Given(v)) if v == "v"));
    c.trulioo = Some(Trulioo { key_name: None, key_value: None, url: "u".to_string() });
    assert!(matches!(c.trulioo_endpoint(), (Some(_), ApiKeySource::Ask)));
}
