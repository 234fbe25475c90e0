use router::auth::{
    parse_token, resolve, validate, validate_in_order, ApiKeyRecord, AuthClass, AuthStrategy,
    ClientSecretRecord, CredentialStore, KeyScope, ResourceRef, Scheme, TokenRecord,
};
use router::error::AuthError;
use router::flow::Flow;
use router::locking::ResourceType;
use router::request::{lookup, Method, Param, RawRequest};

fn store() -> CredentialStore {
    let mut s = CredentialStore::new();
    s.api_keys.push(ApiKeyRecord {
        key: "sk_live".to_string(),
        merchant_id: "M1".to_string(),
        scope: KeyScope::ReadWrite,
        expires_at: 1_000,
    });
    s.api_keys.push(ApiKeyRecord {
        key: "sk_read".to_string(),
        merchant_id: "M1".to_string(),
        scope: KeyScope::ReadOnly,
        expires_at: 1_000,
    });
    s.tokens.push(TokenRecord {
        claims: "hdr.m2".to_string(),
        signature: "sig2".to_string(),
        merchant_id: "M2".to_string(),
        expires_at: 500,
    });
    s.client_secrets.push(ClientSecretRecord {
        resource: ResourceRef::new(ResourceType::PaymentLink, "L1"),
        merchant_id: "M1".to_string(),
        secret: "cs_L1".to_string(),
        expires_at: 300,
    });
    s
}

fn request(headers: &[(&str, &str)]) -> RawRequest {
    let mut r = RawRequest::new(Method::Get);
    for (name, value) in headers {
        r.headers.push(Param::new(name, value));
    }
    r
}

#[test]
fn lookup_hands_out_the_first_value_of_a_name() {
    let r = request(&[("a", "1"), ("b", "2"), ("a", "3")]);
    assert_eq!(lookup(&r.headers, "a"), Some(&"1".to_string()));
    assert_eq!(lookup(&r.headers, "b"), Some(&"2".to_string()));
    assert_eq!(lookup(&r.headers, "c"), None);
    assert_eq!(lookup(&r.body, "a"), None);
}

#[test]
fn token_splits_at_its_last_dot() {
    assert_eq!(parse_token("hdr.m2.sig2"), Some(("hdr.m2".to_string(), "sig2".to_string())));
    assert_eq!(parse_token("a.b"), Some(("a".to_string(), "b".to_string())));
    assert_eq!(parse_token("é.ü"), Some(("é".to_string(), "ü".to_string())));
}

#[test]
fn token_without_both_parts_does_not_split() {
    assert_eq!(parse_token(""), None);
    assert_eq!(parse_token("nodot"), None);
    assert_eq!(parse_token(".sig"), None);
    assert_eq!(parse_token("claims."), None);
    assert_eq!(parse_token("."), None);
    assert_eq!(parse_token("a.b."), None);
}

#[test]
fn secret_key_resolves_to_its_merchant_and_scope() {
    let ctx = validate(
        Scheme::ApiKey,
        &store(),
        &request(&[("api-key", "sk_live")]),
        Flow::PaymentLinkList,
        10,
    )
    .unwrap();
    assert_eq!(ctx.merchant_id(), "M1");
    assert_eq!(ctx.scope(), Some(KeyScope::ReadWrite));
    assert_eq!(ctx.class(), AuthClass::SecretKey);
    assert_eq!(ctx.resource(), None);
}

#[test]
fn secret_key_failures_are_distinct() {
    let s = store();
    let flow = Flow::PaymentLinkList;
    assert_eq!(
        validate(Scheme::ApiKey, &s, &request(&[]), flow, 10).err(),
        Some(AuthError::MalformedCredential)
    );
    assert_eq!(
        validate(Scheme::ApiKey, &s, &request(&[("api-key", "")]), flow, 10).err(),
        Some(AuthError::MalformedCredential)
    );
    assert_eq!(
        validate(Scheme::ApiKey, &s, &request(&[("api-key", "sk_other")]), flow, 10).err(),
        Some(AuthError::UnknownKey)
    );
    assert_eq!(
        validate(Scheme::ApiKey, &s, &request(&[("api-key", "sk_live")]), flow, 1_000).err(),
        Some(AuthError::ExpiredCredential)
    );
    assert!(validate(Scheme::ApiKey, &s, &request(&[("api-key", "sk_live")]), flow, 999).is_ok());
}

#[test]
fn read_only_key_may_read_and_may_not_mutate() {
    let s = store();
    let r = request(&[("api-key", "sk_read")]);
    assert!(validate(Scheme::ApiKey, &s, &r, Flow::PaymentLinkRetrieve, 10).is_ok());
    assert!(validate(Scheme::ApiKey, &s, &r, Flow::PaymentLinkList, 10).is_ok());
    assert_eq!(
        validate(Scheme::ApiKey, &s, &r, Flow::PaymentLinkInitiate, 10).err(),
        Some(AuthError::InsufficientScope)
    );
}

#[test]
fn token_resolves_to_its_merchant() {
    let ctx = validate(
        Scheme::Jwt,
        &store(),
        &request(&[("authorization", "hdr.m2.sig2")]),
        Flow::PaymentLinkList,
        10,
    )
    .unwrap();
    assert_eq!(ctx.merchant_id(), "M2");
    assert_eq!(ctx.scope(), None);
    assert_eq!(ctx.class(), AuthClass::Jwt);
}

#[test]
fn token_failures_are_distinct() {
    let s = store();
    let flow = Flow::PaymentLinkList;
    let try_token = |token: &str, now: u64| {
        validate(Scheme::Jwt, &s, &request(&[("authorization", token)]), flow, now).err()
    };
    assert_eq!(
        validate(Scheme::Jwt, &s, &request(&[]), flow, 10).err(),
        Some(AuthError::MalformedCredential)
    );
    assert_eq!(try_token("nodot", 10), Some(AuthError::MalformedCredential));
    assert_eq!(try_token("hdr.m9.sig2", 10), Some(AuthError::UnknownKey));
    assert_eq!(try_token("hdr.m2.forged", 10), Some(AuthError::SignatureMismatch));
    assert_eq!(try_token("hdr.m2.sig2", 500), Some(AuthError::ExpiredCredential));
    assert_eq!(try_token("hdr.m2.forged", 500), Some(AuthError::SignatureMismatch));
    assert_eq!(try_token("hdr.m2.sig2", 499), None);
}

#[test]
fn single_scheme_failure_is_final() {
    let r = request(&[("api-key", "sk_other"), ("authorization", "hdr.m2.sig2")]);
    let got = resolve(
        &AuthStrategy::SingleScheme(Scheme::ApiKey),
        &store(),
        &r,
        Flow::PaymentLinkList,
        10,
    );
    assert_eq!(got.err(), Some(AuthError::UnknownKey));
}

#[test]
fn fallback_takes_the_first_scheme_that_succeeds() {
    let s = store();
    let both = request(&[("api-key", "sk_live"), ("authorization", "hdr.m2.sig2")]);
    let order = vec![Scheme::ApiKey, Scheme::Jwt];
    let ctx = validate_in_order(&order, &s, &both, Flow::PaymentLinkList, 10).unwrap();
    assert_eq!(ctx.merchant_id(), "M1");
    let reversed = vec![Scheme::Jwt, Scheme::ApiKey];
    let ctx = validate_in_order(&reversed, &s, &both, Flow::PaymentLinkList, 10).unwrap();
    assert_eq!(ctx.merchant_id(), "M2");
    let only_token = request(&[("authorization", "hdr.m2.sig2")]);
    let ctx = validate_in_order(&order, &s, &only_token, Flow::PaymentLinkList, 10).unwrap();
    assert_eq!(ctx.class(), AuthClass::Jwt);
}

#[test]
fn fallback_where_all_fail_reports_the_last_failure() {
    let s = store();
    let r = request(&[("api-key", "sk_other"), ("authorization", "hdr.m2.forged")]);
    let a_then_b = AuthStrategy::OrderedFallback(vec![Scheme::ApiKey, Scheme::Jwt]);
    assert_eq!(
        resolve(&a_then_b, &s, &r, Flow::PaymentLinkList, 10).err(),
        Some(AuthError::SignatureMismatch)
    );
    let b_then_a = AuthStrategy::OrderedFallback(vec![Scheme::Jwt, Scheme::ApiKey]);
    assert_eq!(
        resolve(&b_then_a, &s, &r, Flow::PaymentLinkList, 10).err(),
        Some(AuthError::UnknownKey)
    );
}

#[test]
fn fallback_with_no_scheme_counts_as_malformed() {
    let got = resolve(
        &AuthStrategy::OrderedFallback(vec![]),
        &store(),
        &request(&[("api-key", "sk_live")]),
        Flow::PaymentLinkList,
        10,
    );
    assert_eq!(got.err(), Some(AuthError::MalformedCredential));
}

#[test]
fn path_merchant_is_trusted_only_for_initiation() {
    let s = store();
    let strategy = AuthStrategy::ContextDerived { merchant_id: "M1".to_string() };
    let r = request(&[]);
    let ctx = resolve(&strategy, &s, &r, Flow::PaymentLinkInitiate, 10).unwrap();
    assert_eq!(ctx.merchant_id(), "M1");
    assert_eq!(ctx.class(), AuthClass::PathMerchantId);
    assert_eq!(ctx.scope(), None);
    assert_eq!(
        resolve(&strategy, &s, &r, Flow::PaymentLinkRetrieve, 10).err(),
        Some(AuthError::InsufficientScope)
    );
    assert_eq!(
        resolve(&strategy, &s, &r, Flow::PaymentLinkList, 10).err(),
        Some(AuthError::InsufficientScope)
    );
    let nameless = AuthStrategy::ContextDerived { merchant_id: String::new() };
    assert_eq!(
        resolve(&nameless, &s, &r, Flow::PaymentLinkInitiate, 10).err(),
        Some(AuthError::MalformedCredential)
    );
}

fn by_client_secret(secret: &str) -> AuthStrategy {
    AuthStrategy::ClientSecretCorrelation { client_secret: secret.to_string() }
}

#[test]
fn client_secret_gives_an_identity_confined_to_its_resource() {
    let ctx = resolve(
        &by_client_secret("cs_L1"),
        &store(),
        &request(&[]),
        Flow::PaymentLinkRetrieve,
        10,
    )
    .unwrap();
    assert_eq!(ctx.merchant_id(), "M1");
    assert_eq!(ctx.class(), AuthClass::ClientSecret);
    assert_eq!(ctx.resource(), Some(&ResourceRef::new(ResourceType::PaymentLink, "L1")));
    assert_eq!(ctx.authorize(ResourceType::PaymentLink, "L1"), Ok(()));
    assert_eq!(
        ctx.authorize(ResourceType::PaymentLink, "L2"),
        Err(AuthError::InsufficientScope)
    );
    assert_eq!(ctx.authorize(ResourceType::Payment, "L1"), Err(AuthError::InsufficientScope));
}

#[test]
fn client_secret_names_its_resource_itself() {
    let mut s = store();
    s.client_secrets.push(ClientSecretRecord {
        resource: ResourceRef::new(ResourceType::Payment, "pay_7"),
        merchant_id: "M2".to_string(),
        secret: "cs_pay_7".to_string(),
        expires_at: 300,
    });
    s.client_secrets.push(ClientSecretRecord {
        resource: ResourceRef::new(ResourceType::Refund, "R1"),
        merchant_id: "M3".to_string(),
        secret: "cs_L1".to_string(),
        expires_at: 300,
    });
    let flow = Flow::PaymentLinkRetrieve;
    let ctx = resolve(&by_client_secret("cs_pay_7"), &s, &request(&[]), flow, 10).unwrap();
    assert_eq!(ctx.merchant_id(), "M2");
    assert_eq!(ctx.resource(), Some(&ResourceRef::new(ResourceType::Payment, "pay_7")));
    assert_eq!(ctx.authorize(ResourceType::Payment, "pay_7"), Ok(()));
    assert_eq!(ctx.authorize(ResourceType::PaymentLink, "L1"), Err(AuthError::InsufficientScope));
    let first = resolve(&by_client_secret("cs_L1"), &s, &request(&[]), flow, 10).unwrap();
    assert_eq!(first.merchant_id(), "M1");
    assert_eq!(first.resource(), Some(&ResourceRef::new(ResourceType::PaymentLink, "L1")));
}

#[test]
fn client_secret_failures_are_distinct() {
    let s = store();
    let r = request(&[]);
    let flow = Flow::PaymentLinkRetrieve;
    assert_eq!(
        resolve(&by_client_secret(""), &s, &r, flow, 10).err(),
        Some(AuthError::MalformedCredential)
    );
    assert_eq!(
        resolve(&by_client_secret("cs_L2"), &s, &r, flow, 10).err(),
        Some(AuthError::UnknownKey)
    );
    assert_eq!(
        resolve(&by_client_secret("cs_l1"), &s, &r, flow, 10).err(),
        Some(AuthError::UnknownKey)
    );
    assert_eq!(
        resolve(&by_client_secret("cs_L1"), &s, &r, flow, 300).err(),
        Some(AuthError::ExpiredCredential)
    );
    assert!(resolve(&by_client_secret("cs_L1"), &s, &r, flow, 299).is_ok());
}

#[test]
fn unconfined_identity_is_authorized_for_any_resource() {
    let ctx = validate(
        Scheme::ApiKey,
        &store(),
        &request(&[("api-key", "sk_live")]),
        Flow::PaymentLinkList,
        10,
    )
    .unwrap();
    assert_eq!(ctx.authorize(ResourceType::PaymentLink, "L1"), Ok(()));
    assert_eq!(ctx.authorize(ResourceType::Dispute, "D7"), Ok(()));
}

#[test]
fn unreachable_credential_store_is_an_infrastructure_failure() {
    let mut s = store();
    s.reachable = false;
    let flow = Flow::PaymentLinkList;
    assert_eq!(
        validate(Scheme::ApiKey, &s, &request(&[("api-key", "sk_live")]), flow, 10).err(),
        Some(AuthError::StoreUnavailable)
    );
    assert_eq!(
        validate(Scheme::Jwt, &s, &request(&[("authorization", "hdr.m2.sig2")]), flow, 10).err(),
        Some(AuthError::StoreUnavailable)
    );
    assert_eq!(
        resolve(&by_client_secret("cs_L1"), &s, &request(&[]), flow, 10).err(),
        Some(AuthError::StoreUnavailable)
    );
    assert_eq!(
        validate(Scheme::ApiKey, &s, &request(&[]), flow, 10).err(),
        Some(AuthError::StoreUnavailable)
    );
    assert_eq!(
        resolve(&by_client_secret(""), &s, &request(&[]), flow, 10).err(),
        Some(AuthError::StoreUnavailable)
    );
    let key_only = request(&[("api-key", "sk_live")]);
    let in_order = AuthStrategy::OrderedFallback(vec![Scheme::ApiKey, Scheme::Jwt]);
    assert_eq!(
        resolve(&in_order, &s, &key_only, flow, 10).err(),
        Some(AuthError::StoreUnavailable)
    );
    let by_path = AuthStrategy::ContextDerived { merchant_id: "M1".to_string() };
    assert!(resolve(&by_path, &s, &request(&[]), Flow::PaymentLinkInitiate, 10).is_ok());
}

#[test]
fn flows_say_whether_they_mutate_and_whether_they_trust_the_path() {
    assert!(Flow::PaymentLinkInitiate.is_mutation());
    assert!(!Flow::PaymentLinkRetrieve.is_mutation());
    assert!(!Flow::PaymentLinkList.is_mutation());
    assert!(Flow::PaymentLinkInitiate.trusts_path());
    assert!(!Flow::PaymentLinkRetrieve.trusts_path());
    assert!(!Flow::PaymentLinkList.trusts_path());
}
