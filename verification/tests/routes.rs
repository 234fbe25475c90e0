use router::auth::{AuthStrategy, Scheme};
use router::flow::Flow;
use router::locking::{LockAction, ResourceType};
use router::payment_link::RetrievePaymentLinkRequest;
use router::routes::{initiate_strategy, list_strategy, lock_action, retrieve_strategy};

#[test]
fn only_the_initiation_declares_a_lock() {
    let id = "pay_1".to_string();
    assert_eq!(
        lock_action(Flow::PaymentLinkInitiate, &id),
        LockAction::Lock { resource_type: ResourceType::PaymentLink, resource_id: id.clone() }
    );
    assert_eq!(lock_action(Flow::PaymentLinkRetrieve, &id), LockAction::NotApplicable);
    assert_eq!(lock_action(Flow::PaymentLinkList, &id), LockAction::NotApplicable);
}

#[test]
fn retrieval_authenticates_by_client_secret_where_it_carries_one() {
    let with_secret = RetrievePaymentLinkRequest { client_secret: Some("cs_L1".to_string()) };
    assert_eq!(
        retrieve_strategy(&with_secret),
        AuthStrategy::ClientSecretCorrelation { client_secret: "cs_L1".to_string() }
    );
    let without = RetrievePaymentLinkRequest { client_secret: None };
    assert_eq!(retrieve_strategy(&without), AuthStrategy::SingleScheme(Scheme::ApiKey));
}

#[test]
fn initiation_authenticates_as_the_merchant_of_the_path() {
    assert_eq!(
        initiate_strategy(&"M1".to_string()),
        AuthStrategy::ContextDerived { merchant_id: "M1".to_string() }
    );
}

#[test]
fn listing_tries_the_secret_key_before_the_token() {
    assert_eq!(
        list_strategy(),
        AuthStrategy::OrderedFallback(vec![Scheme::ApiKey, Scheme::Jwt])
    );
}
