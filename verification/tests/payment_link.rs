use router::auth::{
    resolve, ApiKeyRecord, AuthContext, AuthStrategy, ClientSecretRecord, CredentialStore,
    KeyScope, ResourceRef, Scheme,
};
use router::error::BusinessError;
use router::flow::Flow;
use router::locking::ResourceType;
use router::payment_link::{
    LinkEvent, LinkState, LinkStore, PaymentLink, PaymentLinkListConstraints,
};
use router::request::{Method, Param, RawRequest};

fn credentials() -> CredentialStore {
    let mut s = CredentialStore::new();
    for (key, merchant) in [("sk_m1", "M1"), ("sk_m2", "M2")] {
        s.api_keys.push(ApiKeyRecord {
            key: key.to_string(),
            merchant_id: merchant.to_string(),
            scope: KeyScope::ReadWrite,
            expires_at: u64::MAX,
        });
    }
    s.client_secrets.push(ClientSecretRecord {
        resource: ResourceRef::new(ResourceType::PaymentLink, "L1"),
        merchant_id: "M1".to_string(),
        secret: "cs_L1".to_string(),
        expires_at: u64::MAX,
    });
    s
}

fn merchant(key: &str) -> AuthContext {
    let mut r = RawRequest::new(Method::Get);
    r.headers.push(Param::new("api-key", key));
    resolve(
        &AuthStrategy::SingleScheme(Scheme::ApiKey),
        &credentials(),
        &r,
        Flow::PaymentLinkInitiate,
        0,
    )
    .unwrap()
}

fn path_merchant(id: &str) -> AuthContext {
    resolve(
        &AuthStrategy::ContextDerived { merchant_id: id.to_string() },
        &credentials(),
        &RawRequest::new(Method::Get),
        Flow::PaymentLinkInitiate,
        0,
    )
    .unwrap()
}

fn confined_to_l1() -> AuthContext {
    resolve(
        &AuthStrategy::ClientSecretCorrelation { client_secret: "cs_L1".to_string() },
        &credentials(),
        &RawRequest::new(Method::Get),
        Flow::PaymentLinkRetrieve,
        0,
    )
    .unwrap()
}

fn in_state(mut link: PaymentLink, state: LinkState) -> PaymentLink {
    link.state = state;
    link
}

fn store() -> LinkStore {
    let mut s = LinkStore::new();
    assert!(s.mint(PaymentLink::new("L1", "M1", "pay_1", 10, 1_000)));
    assert!(s.mint(PaymentLink::new("L2", "M1", "pay_2", 20, 1_000)));
    assert!(s.mint(PaymentLink::new("L3", "M2", "pay_3", 30, 1_000)));
    assert!(s.mint(in_state(PaymentLink::new("L4", "M1", "pay_4", 40, 100), LinkState::Completed)));
    assert!(s.mint(PaymentLink::new("L5", "M1", "pay_5", 50, 60)));
    s
}

fn s(text: &str) -> String {
    text.to_string()
}

#[test]
fn lifecycle_moves_forward_only() {
    assert_eq!(LinkState::Created.apply(LinkEvent::Initiate), Ok(LinkState::Initiated));
    assert_eq!(LinkState::Initiated.apply(LinkEvent::Complete), Ok(LinkState::Completed));
    assert_eq!(LinkState::Created.apply(LinkEvent::Expire), Ok(LinkState::Expired));
    assert_eq!(LinkState::Initiated.apply(LinkEvent::Expire), Ok(LinkState::Expired));
    assert_eq!(
        LinkState::Created.apply(LinkEvent::Complete),
        Err(BusinessError::InvalidTransition)
    );
    assert_eq!(
        LinkState::Initiated.apply(LinkEvent::Initiate),
        Err(BusinessError::InvalidTransition)
    );
}

#[test]
fn terminal_states_refuse_every_event() {
    for state in [LinkState::Completed, LinkState::Expired] {
        assert!(state.is_terminal());
        for event in [LinkEvent::Initiate, LinkEvent::Complete, LinkEvent::Expire] {
            assert_eq!(state.apply(event), Err(BusinessError::InvalidTransition));
        }
    }
    assert!(!LinkState::Created.is_terminal());
    assert!(!LinkState::Initiated.is_terminal());
}

#[test]
fn link_past_its_time_reads_as_expired_unless_it_ended_otherwise() {
    let link = PaymentLink::new("L1", "M1", "pay_1", 10, 100);
    assert_eq!(link.state, LinkState::Created);
    assert_eq!(link.state_at(99), LinkState::Created);
    assert_eq!(link.state_at(100), LinkState::Expired);
    let initiated = in_state(link.clone(), LinkState::Initiated);
    assert_eq!(initiated.state_at(100), LinkState::Expired);
    let completed = in_state(link.clone(), LinkState::Completed);
    assert_eq!(completed.state_at(100), LinkState::Completed);
    assert_eq!(completed.state_at(u64::MAX), LinkState::Completed);
    let seen = link.seen_at(100);
    assert_eq!(seen, in_state(link, LinkState::Expired));
}

#[test]
fn mint_refuses_a_second_link_with_the_same_id() {
    let mut links = store();
    assert_eq!(links.len(), 5);
    assert!(!links.mint(PaymentLink::new("L1", "M9", "pay_9", 0, 1)));
    assert_eq!(links.len(), 5);
    assert_eq!(links.get("L1").unwrap().merchant_id, "M1");
    assert_eq!(links.get("L9"), None);
}

#[test]
fn retrieve_returns_the_link_as_seen_now() {
    let links = store();
    let got = links.retrieve(&merchant("sk_m1"), &s("L1"), 50);
    assert_eq!(got, Ok(PaymentLink::new("L1", "M1", "pay_1", 10, 1_000)));
    let late = links.retrieve(&merchant("sk_m1"), &s("L5"), 60).unwrap();
    assert_eq!(late.state, LinkState::Expired);
    assert_eq!(links.get("L5").unwrap().state, LinkState::Created);
}

#[test]
fn retrieve_hides_links_of_other_merchants_and_unknown_links() {
    let links = store();
    assert_eq!(
        links.retrieve(&merchant("sk_m1"), &s("L3"), 50),
        Err(BusinessError::NotFound)
    );
    assert_eq!(
        links.retrieve(&merchant("sk_m1"), &s("L9"), 50),
        Err(BusinessError::NotFound)
    );
    assert!(links.retrieve(&merchant("sk_m2"), &s("L3"), 50).is_ok());
}

#[test]
fn retrieve_of_a_completed_link_is_idempotent() {
    let links = store();
    let before = store();
    let auth = merchant("sk_m1");
    let first = links.retrieve(&auth, &s("L4"), 50);
    let second = links.retrieve(&auth, &s("L4"), 50);
    let much_later = links.retrieve(&auth, &s("L4"), 5_000);
    assert_eq!(first.as_ref().unwrap().state, LinkState::Completed);
    assert_eq!(first, second);
    assert_eq!(first, much_later);
    assert_eq!(links, before);
}

#[test]
fn identity_confined_to_one_link_is_refused_every_other() {
    let links = store();
    let auth = confined_to_l1();
    assert!(links.retrieve(&auth, &s("L1"), 50).is_ok());
    assert_eq!(links.retrieve(&auth, &s("L2"), 50), Err(BusinessError::ScopeViolation));
    assert_eq!(links.retrieve(&auth, &s("L3"), 50), Err(BusinessError::ScopeViolation));
    assert_eq!(links.retrieve(&auth, &s("L9"), 50), Err(BusinessError::ScopeViolation));
    let all = PaymentLinkListConstraints { created_gte: None, created_lte: None, limit: None };
    assert_eq!(links.list(&auth, &all, 50), Err(BusinessError::ScopeViolation));
}

#[test]
fn confined_identity_cannot_initiate_another_link() {
    let mut links = store();
    let before = store();
    let auth = confined_to_l1();
    assert_eq!(
        links.initiate(&auth, &s("M1"), &s("pay_2"), 50),
        Err(BusinessError::ScopeViolation)
    );
    assert_eq!(links, before);
    assert!(links.initiate(&auth, &s("M1"), &s("pay_1"), 50).is_ok());
}

#[test]
fn initiate_moves_a_created_link_to_initiated() {
    let mut links = store();
    let got = links.initiate(&path_merchant("M1"), &s("M1"), &s("pay_1"), 50);
    assert_eq!(
        got,
        Ok(in_state(PaymentLink::new("L1", "M1", "pay_1", 10, 1_000), LinkState::Initiated))
    );
    assert_eq!(links.get("L1").unwrap().state, LinkState::Initiated);
    assert_eq!(links.get("L2").unwrap().state, LinkState::Created);
    assert_eq!(links.len(), 5);
}

#[test]
fn initiate_is_valid_only_from_created() {
    let mut links = store();
    let auth = path_merchant("M1");
    assert!(links.initiate(&auth, &s("M1"), &s("pay_1"), 50).is_ok());
    let after_first = links.get("L1").cloned();
    assert_eq!(
        links.initiate(&auth, &s("M1"), &s("pay_1"), 51),
        Err(BusinessError::InvalidTransition)
    );
    assert_eq!(links.get("L1").cloned(), after_first);
    assert_eq!(
        links.initiate(&auth, &s("M1"), &s("pay_4"), 50),
        Err(BusinessError::InvalidTransition)
    );
    assert_eq!(
        links.initiate(&auth, &s("M1"), &s("pay_5"), 60),
        Err(BusinessError::InvalidTransition)
    );
    assert_eq!(links.get("L5").unwrap().state, LinkState::Created);
    assert!(links.initiate(&auth, &s("M1"), &s("pay_5"), 59).is_ok());
}

#[test]
fn initiate_refuses_foreign_and_unknown_payments() {
    let mut links = store();
    let before = store();
    let auth = path_merchant("M1");
    assert_eq!(
        links.initiate(&auth, &s("M2"), &s("pay_3"), 50),
        Err(BusinessError::ScopeViolation)
    );
    assert_eq!(links.initiate(&auth, &s("M1"), &s("pay_3"), 50), Err(BusinessError::NotFound));
    assert_eq!(links.initiate(&auth, &s("M1"), &s("pay_9"), 50), Err(BusinessError::NotFound));
    assert_eq!(links, before);
}

#[test]
fn advance_judges_by_the_state_as_seen_now() {
    let mut links = store();
    assert_eq!(links.advance("L9", LinkEvent::Initiate, 50), Err(BusinessError::NotFound));
    assert_eq!(links.advance("L1", LinkEvent::Initiate, 50), Ok(LinkState::Initiated));
    assert_eq!(links.advance("L1", LinkEvent::Complete, 60), Ok(LinkState::Completed));
    assert_eq!(
        links.advance("L1", LinkEvent::Expire, 70),
        Err(BusinessError::InvalidTransition)
    );
    assert_eq!(links.get("L1").unwrap().state, LinkState::Completed);
    assert_eq!(
        links.advance("L5", LinkEvent::Initiate, 60),
        Err(BusinessError::InvalidTransition)
    );
    assert_eq!(links.advance("L2", LinkEvent::Expire, 70), Ok(LinkState::Expired));
    assert_eq!(links.get("L2").unwrap().state, LinkState::Expired);
}

fn ids(row: &[PaymentLink]) -> Vec<&str> {
    row.iter().map(|l| l.link_id.as_str()).collect()
}

#[test]
fn list_shows_the_merchants_links_oldest_first() {
    let links = store();
    let all = PaymentLinkListConstraints { created_gte: None, created_lte: None, limit: None };
    let row = links.list(&merchant("sk_m1"), &all, 55).unwrap();
    assert_eq!(ids(&row), vec!["L1", "L2", "L4", "L5"]);
    let other = links.list(&merchant("sk_m2"), &all, 55).unwrap();
    assert_eq!(ids(&other), vec!["L3"]);
}

#[test]
fn list_shows_each_link_as_seen_now() {
    let links = store();
    let all = PaymentLinkListConstraints { created_gte: None, created_lte: None, limit: None };
    let row = links.list(&merchant("sk_m1"), &all, 100).unwrap();
    let states: Vec<LinkState> = row.iter().map(|l| l.state).collect();
    assert_eq!(
        states,
        vec![LinkState::Created, LinkState::Created, LinkState::Completed, LinkState::Expired]
    );
}

#[test]
fn list_honours_the_time_range_with_both_ends_included() {
    let links = store();
    let auth = merchant("sk_m1");
    let range =
        PaymentLinkListConstraints { created_gte: Some(20), created_lte: Some(40), limit: None };
    assert_eq!(ids(&links.list(&auth, &range, 55).unwrap()), vec!["L2", "L4"]);
    let from =
        PaymentLinkListConstraints { created_gte: Some(41), created_lte: None, limit: None };
    assert_eq!(ids(&links.list(&auth, &from, 55).unwrap()), vec!["L5"]);
    let to = PaymentLinkListConstraints { created_gte: None, created_lte: Some(10), limit: None };
    assert_eq!(ids(&links.list(&auth, &to, 55).unwrap()), vec!["L1"]);
    let none =
        PaymentLinkListConstraints { created_gte: Some(30), created_lte: Some(20), limit: None };
    assert_eq!(links.list(&auth, &none, 55), Ok(vec![]));
}

#[test]
fn list_stops_at_the_limit() {
    let links = store();
    let auth = merchant("sk_m1");
    let two = PaymentLinkListConstraints { created_gte: None, created_lte: None, limit: Some(2) };
    assert_eq!(ids(&links.list(&auth, &two, 55).unwrap()), vec!["L1", "L2"]);
    let zero = PaymentLinkListConstraints { created_gte: None, created_lte: None, limit: Some(0) };
    assert_eq!(links.list(&auth, &zero, 55), Ok(vec![]));
    let late =
        PaymentLinkListConstraints { created_gte: Some(15), created_lte: None, limit: Some(2) };
    assert_eq!(ids(&links.list(&auth, &late, 55).unwrap()), vec!["L2", "L4"]);
    let wide =
        PaymentLinkListConstraints { created_gte: None, created_lte: None, limit: Some(100) };
    assert_eq!(links.list(&auth, &wide, 55).unwrap().len(), 4);
}

#[test]
fn list_is_the_same_for_the_same_inputs() {
    let links = store();
    let auth = merchant("sk_m1");
    let c = PaymentLinkListConstraints { created_gte: Some(5), created_lte: None, limit: Some(3) };
    assert_eq!(links.list(&auth, &c, 55), links.list(&auth, &c, 55));
    assert_eq!(links, store());
}
