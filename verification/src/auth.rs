use vstd::prelude::*;
use vstd::string::StrSliceExecFns;
use crate::error::AuthError;
use crate::flow::Flow;
use crate::locking::ResourceType;
use crate::request::{lookup, value_of, RawRequest};

verus! {

/// How an identity was established.
#[derive(Clone, Copy, Debug, PartialEq, Eq, Structural)]
pub enum AuthClass {
    SecretKey,
    ClientSecret,
    Jwt,
    PathMerchantId,
}

/// What a key may do.
#[derive(Clone, Copy, Debug, PartialEq, Eq, Structural)]
pub enum KeyScope {
    ReadOnly,
    ReadWrite,
}

/// The mathematical value of a [`ResourceRef`].
pub struct ResourceRefView {
    pub resource_type: ResourceType,
    pub resource_id: Seq<char>,
}

/// Names one resource.
#[derive(Debug, PartialEq, Eq)]
pub struct ResourceRef {
    pub resource_type: ResourceType,
    pub resource_id: String,
}

impl View for ResourceRef {
    type V = ResourceRefView;

    open spec fn view(&self) -> ResourceRefView {
        ResourceRefView { resource_type: self.resource_type, resource_id: self.resource_id@ }
    }
}

impl Clone for ResourceRef {
    fn clone(&self) -> (r: Self)
        ensures
            r == *self,
    {
        ResourceRef { resource_type: self.resource_type, resource_id: self.resource_id.clone() }
    }
}

impl ResourceRef {
    /// The name of the resource of this type with this id.
    pub fn new(resource_type: ResourceType, resource_id: &str) -> (r: ResourceRef)
        ensures
            r@ == (ResourceRefView { resource_type, resource_id: resource_id@ }),
    {
        ResourceRef { resource_type, resource_id: resource_id.to_owned() }
    }
}

/// The mathematical value of an [`AuthContext`].
pub struct AuthContextView {
    pub merchant_id: Seq<char>,
    pub scope: Option<KeyScope>,
    pub class: AuthClass,
    /// The one resource the identity is confined to, if it is confined.
    pub resource: Option<ResourceRefView>,
}

impl AuthContextView {
    /// Whether the identity's key scope covers the operation.
    pub open spec fn permits(self, flow: Flow) -> bool {
        !(flow.mutates() && self.scope == Some(KeyScope::ReadOnly))
    }

    /// Whether the identity may touch the resource: a confined identity may
    /// touch the resource it was made for and no other.
    pub open spec fn authorize(self, resource: ResourceRefView) -> Result<(), AuthError> {
        match self.resource {
            Some(own) => if own == resource {
                Ok(())
            } else {
                Err(AuthError::InsufficientScope)
            },
            None => Ok(()),
        }
    }
}

/// The trusted identity of one request. It cannot be changed once made.
#[derive(Debug, PartialEq, Eq)]
pub struct AuthContext {
    merchant_id: String,
    scope: Option<KeyScope>,
    class: AuthClass,
    resource: Option<ResourceRef>,
}

impl View for AuthContext {
    type V = AuthContextView;

    closed spec fn view(&self) -> AuthContextView {
        AuthContextView {
            merchant_id: self.merchant_id@,
            scope: self.scope,
            class: self.class,
            resource: match self.resource {
                Some(r) => Some(r@),
                None => None,
            },
        }
    }
}

impl AuthContext {
    /// The merchant that the request acts for.
    pub fn merchant_id(&self) -> (r: &String)
        ensures
            r@ == self@.merchant_id,
    {
        &self.merchant_id
    }

    /// What the key allows, where the identity came from a key.
    pub fn scope(&self) -> (r: Option<KeyScope>)
        ensures
            r == self@.scope,
    {
        self.scope
    }

    /// How the identity was established.
    pub fn class(&self) -> (r: AuthClass)
        ensures
            r == self@.class,
    {
        self.class
    }

    /// The resource the identity is confined to, if it is confined.
    pub fn resource(&self) -> (r: Option<&ResourceRef>)
        ensures
            r.is_some() == self@.resource.is_some(),
            r matches Some(own) ==> self@.resource == Some(own@),
    {
        self.resource.as_ref()
    }

    /// Whether the identity may touch the named resource.
    pub fn authorize(&self, resource_type: ResourceType, resource_id: &str) -> (r: Result<
        (),
        AuthError,
    >)
        ensures
            r == self@.authorize(ResourceRefView { resource_type, resource_id: resource_id@ }),
    {
        match &self.resource {
            Some(own) => {
                let wanted: String = resource_id.to_owned();
                if own.resource_type == resource_type && own.resource_id == wanted {
                    Ok(())
                } else {
                    Err(AuthError::InsufficientScope)
                }
            },
            None => Ok(()),
        }
    }
}

/// A secret key as the key store knows it.
#[derive(Debug, PartialEq, Eq)]
pub struct ApiKeyRecord {
    pub key: String,
    pub merchant_id: String,
    pub scope: KeyScope,
    /// The first instant at which the key is no longer accepted.
    pub expires_at: u64,
}

/// A signed token as the token store knows it.
#[derive(Debug, PartialEq, Eq)]
pub struct TokenRecord {
    pub claims: String,
    pub signature: String,
    pub merchant_id: String,
    pub expires_at: u64,
}

/// A client secret minted for one resource. A secret is looked up by its
/// text; of two records with the same text the first counts.
#[derive(Debug, PartialEq, Eq)]
pub struct ClientSecretRecord {
    pub resource: ResourceRef,
    pub merchant_id: String,
    pub secret: String,
    /// The first instant at which the resource, and with it the secret, is
    /// no longer accepted.
    pub expires_at: u64,
}

/// What the credential stores hold at the time of a request.
#[derive(Debug, PartialEq, Eq)]
pub struct CredentialStore {
    pub api_keys: Vec<ApiKeyRecord>,
    pub tokens: Vec<TokenRecord>,
    pub client_secrets: Vec<ClientSecretRecord>,
    /// Whether the stores answer. While they do not, every scheme that
    /// looks a credential up fails for that reason, whatever the request
    /// presents.
    pub reachable: bool,
}

impl CredentialStore {
    /// Stores that answer and hold no credential.
    pub fn new() -> (r: CredentialStore)
        ensures
            r.api_keys@.len() == 0,
            r.tokens@.len() == 0,
            r.client_secrets@.len() == 0,
            r.reachable,
    {
        CredentialStore {
            api_keys: Vec::new(),
            tokens: Vec::new(),
            client_secrets: Vec::new(),
            reachable: true,
        }
    }
}

/// One way of presenting a credential.
#[derive(Clone, Copy, Debug, PartialEq, Eq, Structural)]
pub enum Scheme {
    /// A secret key in the `api-key` header.
    ApiKey,
    /// A signed token in the `authorization` header.
    Jwt,
}

/// How the identity of a request is to be established.
#[derive(Debug, PartialEq, Eq)]
pub enum AuthStrategy {
    /// One scheme is tried; its failure is final.
    SingleScheme(Scheme),
    /// The schemes are tried in order; the first success wins, and where
    /// all fail the failure of the last one is reported.
    OrderedFallback(Vec<Scheme>),
    /// The identity is the merchant named in the request path.
    ContextDerived { merchant_id: String },
    /// The request proves knowledge of a secret minted for one resource and
    /// gets an identity confined to that resource. Which resource that is
    /// the secret's own record says, not the request.
    ClientSecretCorrelation { client_secret: String },
}

/// The index of the first key record at or after `from` whose key is `key`.
pub open spec fn api_key_from(records: Seq<ApiKeyRecord>, key: Seq<char>, from: int) -> Option<int>
    decreases records.len() - from,
{
    if from < 0 || from >= records.len() {
        None
    } else if records[from].key@ == key {
        Some(from)
    } else {
        api_key_from(records, key, from + 1)
    }
}

/// The index of the first token record at or after `from` with these claims.
pub open spec fn token_from(records: Seq<TokenRecord>, claims: Seq<char>, from: int) -> Option<int>
    decreases records.len() - from,
{
    if from < 0 || from >= records.len() {
        None
    } else if records[from].claims@ == claims {
        Some(from)
    } else {
        token_from(records, claims, from + 1)
    }
}

/// The index of the first record at or after `from` that holds this client
/// secret.
pub open spec fn client_secret_from(
    records: Seq<ClientSecretRecord>,
    secret: Seq<char>,
    from: int,
) -> Option<int>
    decreases records.len() - from,
{
    if from < 0 || from >= records.len() {
        None
    } else if records[from].secret@ == secret {
        Some(from)
    } else {
        client_secret_from(records, secret, from + 1)
    }
}

/// The index of the last `.` among the first `upto` characters, or -1.
pub open spec fn last_dot(s: Seq<char>, upto: int) -> int
    decreases upto,
{
    if upto <= 0 {
        -1
    } else if s[upto - 1] == '.' {
        upto - 1
    } else {
        last_dot(s, upto - 1)
    }
}

/// The claims and the signature of a token: what stands before and after
/// its last `.`, where both are non-empty.
pub open spec fn split_token(s: Seq<char>) -> Option<(Seq<char>, Seq<char>)> {
    let dot = last_dot(s, s.len() as int);
    if 0 < dot < s.len() - 1 {
        Some((s.subrange(0, dot), s.subrange(dot + 1, s.len() as int)))
    } else {
        None
    }
}

/// What a secret key presented at `now` resolves to.
pub open spec fn check_api_key(store: CredentialStore, presented: Option<Seq<char>>, now: u64)
    -> Result<AuthContextView, AuthError> {
    match presented {
        _ if !store.reachable => Err(AuthError::StoreUnavailable),
        None => Err(AuthError::MalformedCredential),
        Some(key) => if key.len() == 0 {
            Err(AuthError::MalformedCredential)
        } else {
            match api_key_from(store.api_keys@, key, 0) {
                None => Err(AuthError::UnknownKey),
                Some(i) => if store.api_keys@[i].expires_at <= now {
                    Err(AuthError::ExpiredCredential)
                } else {
                    Ok(
                        AuthContextView {
                            merchant_id: store.api_keys@[i].merchant_id@,
                            scope: Some(store.api_keys@[i].scope),
                            class: AuthClass::SecretKey,
                            resource: None,
                        },
                    )
                },
            }
        },
    }
}

/// What a signed token presented at `now` resolves to.
pub open spec fn check_token(store: CredentialStore, presented: Option<Seq<char>>, now: u64)
    -> Result<AuthContextView, AuthError> {
    match presented {
        _ if !store.reachable => Err(AuthError::StoreUnavailable),
        None => Err(AuthError::MalformedCredential),
        Some(token) => match split_token(token) {
            None => Err(AuthError::MalformedCredential),
            Some((claims, signature)) => match token_from(store.tokens@, claims, 0) {
                None => Err(AuthError::UnknownKey),
                Some(i) => if store.tokens@[i].signature@ != signature {
                    Err(AuthError::SignatureMismatch)
                } else if store.tokens@[i].expires_at <= now {
                    Err(AuthError::ExpiredCredential)
                } else {
                    Ok(
                        AuthContextView {
                            merchant_id: store.tokens@[i].merchant_id@,
                            scope: None,
                            class: AuthClass::Jwt,
                            resource: None,
                        },
                    )
                },
            },
        },
    }
}

/// What a client secret presented at `now` resolves to: an identity of
/// the merchant and confined to the resource for which the secret was
/// minted.
pub open spec fn check_client_secret(store: CredentialStore, secret: Seq<char>, now: u64) -> Result<
    AuthContextView,
    AuthError,
> {
    if !store.reachable {
        Err(AuthError::StoreUnavailable)
    } else if secret.len() == 0 {
        Err(AuthError::MalformedCredential)
    } else {
        match client_secret_from(store.client_secrets@, secret, 0) {
            None => Err(AuthError::UnknownKey),
            Some(i) => if store.client_secrets@[i].expires_at <= now {
                Err(AuthError::ExpiredCredential)
            } else {
                Ok(
                    AuthContextView {
                        merchant_id: store.client_secrets@[i].merchant_id@,
                        scope: None,
                        class: AuthClass::ClientSecret,
                        resource: Some(store.client_secrets@[i].resource@),
                    },
                )
            },
        }
    }
}

/// What a merchant id taken from the path resolves to.
pub open spec fn check_path_merchant(merchant_id: Seq<char>, flow: Flow) -> Result<
    AuthContextView,
    AuthError,
> {
    if !flow.path_trusted() {
        Err(AuthError::InsufficientScope)
    } else if merchant_id.len() == 0 {
        Err(AuthError::MalformedCredential)
    } else {
        Ok(
            AuthContextView {
                merchant_id,
                scope: None,
                class: AuthClass::PathMerchantId,
                resource: None,
            },
        )
    }
}

/// An identity passes only where its key scope covers the operation.
pub open spec fn within_scope(found: Result<AuthContextView, AuthError>, flow: Flow) -> Result<
    AuthContextView,
    AuthError,
> {
    match found {
        Ok(ctx) => if ctx.permits(flow) {
            Ok(ctx)
        } else {
            Err(AuthError::InsufficientScope)
        },
        Err(e) => Err(e),
    }
}

/// What one scheme makes of the request.
pub open spec fn attempt(
    scheme: Scheme,
    store: CredentialStore,
    request: RawRequest,
    flow: Flow,
    now: u64,
) -> Result<AuthContextView, AuthError> {
    match scheme {
        Scheme::ApiKey => within_scope(
            check_api_key(store, value_of(request.headers@, "api-key"@), now),
            flow,
        ),
        Scheme::Jwt => within_scope(
            check_token(store, value_of(request.headers@, "authorization"@), now),
            flow,
        ),
    }
}

/// What the schemes from index `from` on make of the request: the first
/// success, else the failure of the last scheme. With no scheme to try the
/// credential counts as malformed.
pub open spec fn fallback_from(
    schemes: Seq<Scheme>,
    from: int,
    store: CredentialStore,
    request: RawRequest,
    flow: Flow,
    now: u64,
) -> Result<AuthContextView, AuthError>
    decreases schemes.len() - from,
{
    if from < 0 || from >= schemes.len() {
        Err(AuthError::MalformedCredential)
    } else {
        match attempt(schemes[from], store, request, flow, now) {
            Ok(ctx) => Ok(ctx),
            Err(e) => if from + 1 >= schemes.len() {
                Err(e)
            } else {
                fallback_from(schemes, from + 1, store, request, flow, now)
            },
        }
    }
}

/// What a strategy makes of the request.
pub open spec fn resolve_spec(
    strategy: AuthStrategy,
    store: CredentialStore,
    request: RawRequest,
    flow: Flow,
    now: u64,
) -> Result<AuthContextView, AuthError> {
    match strategy {
        AuthStrategy::SingleScheme(scheme) => attempt(scheme, store, request, flow, now),
        AuthStrategy::OrderedFallback(schemes) => fallback_from(
            schemes@,
            0,
            store,
            request,
            flow,
            now,
        ),
        AuthStrategy::ContextDerived { merchant_id } => check_path_merchant(merchant_id@, flow),
        AuthStrategy::ClientSecretCorrelation { client_secret } => check_client_secret(
            store,
            client_secret@,
            now,
        ),
    }
}

/// Whether a resolution's result is the one prescribed.
pub open spec fn identity_matches(
    got: Result<AuthContext, AuthError>,
    expected: Result<AuthContextView, AuthError>,
) -> bool {
    match got {
        Ok(ctx) => expected == Ok::<AuthContextView, AuthError>(ctx@),
        Err(e) => expected == Err::<AuthContextView, AuthError>(e),
    }
}

/// The text of an optional string.
pub open spec fn text_of(s: Option<&String>) -> Option<Seq<char>> {
    match s {
        Some(t) => Some(t@),
        None => None,
    }
}

fn find_api_key(records: &Vec<ApiKeyRecord>, key: &String) -> (r: Option<usize>)
    ensures
        r.is_some() == api_key_from(records@, key@, 0).is_some(),
        r matches Some(i) ==> api_key_from(records@, key@, 0) == Some(i as int) && i
            < records@.len(),
{
    let mut i: usize = 0;
    while i < records.len()
        invariant
            i <= records@.len(),
            api_key_from(records@, key@, 0) == api_key_from(records@, key@, i as int),
        decreases records@.len() - i,
    {
        if records[i].key == *key {
            return Some(i);
        }
        i = i + 1;
    }
    None
}

fn find_token(records: &Vec<TokenRecord>, claims: &String) -> (r: Option<usize>)
    ensures
        r.is_some() == token_from(records@, claims@, 0).is_some(),
        r matches Some(i) ==> token_from(records@, claims@, 0) == Some(i as int) && i
            < records@.len(),
{
    let mut i: usize = 0;
    while i < records.len()
        invariant
            i <= records@.len(),
            token_from(records@, claims@, 0) == token_from(records@, claims@, i as int),
        decreases records@.len() - i,
    {
        if records[i].claims == *claims {
            return Some(i);
        }
        i = i + 1;
    }
    None
}

fn find_client_secret(records: &Vec<ClientSecretRecord>, secret: &String) -> (r: Option<usize>)
    ensures
        r.is_some() == client_secret_from(records@, secret@, 0).is_some(),
        r matches Some(i) ==> client_secret_from(records@, secret@, 0) == Some(i as int) && i
            < records@.len(),
{
    let mut i: usize = 0;
    while i < records.len()
        invariant
            i <= records@.len(),
            client_secret_from(records@, secret@, 0) == client_secret_from(
                records@,
                secret@,
                i as int,
            ),
        decreases records@.len() - i,
    {
        if records[i].secret == *secret {
            return Some(i);
        }
        i = i + 1;
    }
    None
}

/// Splits a token at its last `.` into claims and signature.
pub fn parse_token(token: &str) -> (r: Option<(String, String)>)
    ensures
        r.is_some() == split_token(token@).is_some(),
        r matches Some((claims, signature)) ==> split_token(token@) == Some(
            (claims@, signature@),
        ),
{
    let len: usize = token.unicode_len();
    let mut i: usize = len;
    while i > 0
        invariant
            i <= len,
            len == token@.len(),
            last_dot(token@, len as int) == last_dot(token@, i as int),
        decreases i,
    {
        if token.get_char(i - 1) == '.' {
            if i - 1 > 0 && i < len {
                let claims = token.substring_char(0, i - 1);
                let signature = token.substring_char(i, len);
                return Some((claims.to_owned(), signature.to_owned()));
            } else {
                return None;
            }
        }
        i = i - 1;
    }
    None
}

fn validate_api_key(store: &CredentialStore, presented: Option<&String>, now: u64) -> (r: Result<
    AuthContext,
    AuthError,
>)
    ensures
        identity_matches(r, check_api_key(*store, text_of(presented), now)),
{
    if !store.reachable {
        return Err(AuthError::StoreUnavailable);
    }
    match presented {
        None => Err(AuthError::MalformedCredential),
        Some(key) => {
            if key.as_str().is_empty() {
                return Err(AuthError::MalformedCredential);
            }
            match find_api_key(&store.api_keys, key) {
                None => Err(AuthError::UnknownKey),
                Some(i) => {
                    let record = &store.api_keys[i];
                    if record.expires_at <= now {
                        Err(AuthError::ExpiredCredential)
                    } else {
                        Ok(
                            AuthContext {
                                merchant_id: record.merchant_id.clone(),
                                scope: Some(record.scope),
                                class: AuthClass::SecretKey,
                                resource: None,
                            },
                        )
                    }
                },
            }
        },
    }
}

fn validate_token(store: &CredentialStore, presented: Option<&String>, now: u64) -> (r: Result<
    AuthContext,
    AuthError,
>)
    ensures
        identity_matches(r, check_token(*store, text_of(presented), now)),
{
    if !store.reachable {
        return Err(AuthError::StoreUnavailable);
    }
    match presented {
        None => Err(AuthError::MalformedCredential),
        Some(token) => match parse_token(token.as_str()) {
            None => Err(AuthError::MalformedCredential),
            Some((claims, signature)) => {
                match find_token(&store.tokens, &claims) {
                    None => Err(AuthError::UnknownKey),
                    Some(i) => {
                        let record = &store.tokens[i];
                        if record.signature != signature {
                            Err(AuthError::SignatureMismatch)
                        } else if record.expires_at <= now {
                            Err(AuthError::ExpiredCredential)
                        } else {
                            Ok(
                                AuthContext {
                                    merchant_id: record.merchant_id.clone(),
                                    scope: None,
                                    class: AuthClass::Jwt,
                                    resource: None,
                                },
                            )
                        }
                    },
                }
            },
        },
    }
}

fn validate_client_secret(store: &CredentialStore, secret: &String, now: u64) -> (r: Result<
    AuthContext,
    AuthError,
>)
    ensures
        identity_matches(r, check_client_secret(*store, secret@, now)),
{
    if !store.reachable {
        return Err(AuthError::StoreUnavailable);
    }
    if secret.as_str().is_empty() {
        return Err(AuthError::MalformedCredential);
    }
    match find_client_secret(&store.client_secrets, secret) {
        None => Err(AuthError::UnknownKey),
        Some(i) => {
            let record = &store.client_secrets[i];
            if record.expires_at <= now {
                Err(AuthError::ExpiredCredential)
            } else {
                Ok(
                    AuthContext {
                        merchant_id: record.merchant_id.clone(),
                        scope: None,
                        class: AuthClass::ClientSecret,
                        resource: Some(record.resource.clone()),
                    },
                )
            }
        },
    }
}

fn validate_path_merchant(merchant_id: &String, flow: Flow) -> (r: Result<AuthContext, AuthError>)
    ensures
        identity_matches(r, check_path_merchant(merchant_id@, flow)),
{
    if !flow.trusts_path() {
        Err(AuthError::InsufficientScope)
    } else if merchant_id.as_str().is_empty() {
        Err(AuthError::MalformedCredential)
    } else {
        Ok(
            AuthContext {
                merchant_id: merchant_id.clone(),
                scope: None,
                class: AuthClass::PathMerchantId,
                resource: None,
            },
        )
    }
}

fn enforce_scope(found: Result<AuthContext, AuthError>, flow: Flow) -> (r: Result<
    AuthContext,
    AuthError,
>)
    ensures
        forall|expected: Result<AuthContextView, AuthError>|
            identity_matches(found, expected) ==> identity_matches(r, within_scope(expected, flow)),
{
    match found {
        Ok(ctx) => {
            let read_only = match ctx.scope {
                Some(KeyScope::ReadOnly) => true,
                _ => false,
            };
            if flow.is_mutation() && read_only {
                Err(AuthError::InsufficientScope)
            } else {
                Ok(ctx)
            }
        },
        Err(e) => Err(e),
    }
}

/// Tries one scheme on the request.
pub fn validate(
    scheme: Scheme,
    store: &CredentialStore,
    request: &RawRequest,
    flow: Flow,
    now: u64,
) -> (r: Result<AuthContext, AuthError>)
    ensures
        identity_matches(r, attempt(scheme, *store, *request, flow, now)),
{
    match scheme {
        Scheme::ApiKey => {
            let presented = lookup(&request.headers, "api-key");
            enforce_scope(validate_api_key(store, presented, now), flow)
        },
        Scheme::Jwt => {
            let presented = lookup(&request.headers, "authorization");
            enforce_scope(validate_token(store, presented, now), flow)
        },
    }
}

/// Tries the schemes in order and stops at the first that succeeds.
pub fn validate_in_order(
    schemes: &Vec<Scheme>,
    store: &CredentialStore,
    request: &RawRequest,
    flow: Flow,
    now: u64,
) -> (r: Result<AuthContext, AuthError>)
    ensures
        identity_matches(r, fallback_from(schemes@, 0, *store, *request, flow, now)),
{
    let mut last: Result<AuthContext, AuthError> = Err(AuthError::MalformedCredential);
    let mut i: usize = 0;
    while i < schemes.len()
        invariant
            i <= schemes@.len(),
            last is Err,
            i < schemes@.len() ==> fallback_from(schemes@, 0, *store, *request, flow, now)
                == fallback_from(schemes@, i as int, *store, *request, flow, now),
            i == schemes@.len() ==> identity_matches(
                last,
                fallback_from(schemes@, 0, *store, *request, flow, now),
            ),
        decreases schemes@.len() - i,
    {
        let found = validate(schemes[i], store, request, flow, now);
        if found.is_ok() {
            return found;
        }
        last = found;
        i = i + 1;
    }
    last
}

/// Resolves the credential material of a request into one trusted identity,
/// as the strategy prescribes.
pub fn resolve(
    strategy: &AuthStrategy,
    store: &CredentialStore,
    request: &RawRequest,
    flow: Flow,
    now: u64,
) -> (r: Result<AuthContext, AuthError>)
    ensures
        identity_matches(r, resolve_spec(*strategy, *store, *request, flow, now)),
{
    match strategy {
        AuthStrategy::SingleScheme(scheme) => validate(*scheme, store, request, flow, now),
        AuthStrategy::OrderedFallback(schemes) => validate_in_order(
            schemes,
            store,
            request,
            flow,
            now,
        ),
        AuthStrategy::ContextDerived { merchant_id } => validate_path_merchant(merchant_id, flow),
        AuthStrategy::ClientSecretCorrelation { client_secret } => validate_client_secret(
            store,
            client_secret,
            now,
        ),
    }
}

proof fn lemma_all_fail_from(
    schemes: Seq<Scheme>,
    from: int,
    store: CredentialStore,
    request: RawRequest,
    flow: Flow,
    now: u64,
)
    requires
        0 <= from < schemes.len(),
        forall|i: int|
            from <= i < schemes.len() ==> (#[trigger] attempt(
                schemes[i],
                store,
                request,
                flow,
                now,
            )) is Err,
    ensures
        fallback_from(schemes, from, store, request, flow, now) == attempt(
            schemes[schemes.len() - 1],
            store,
            request,
            flow,
            now,
        ),
    decreases schemes.len() - from,
{
    assert(attempt(schemes[from], store, request, flow, now) is Err);
    if from + 1 < schemes.len() {
        lemma_all_fail_from(schemes, from + 1, store, request, flow, now);
    }
}

proof fn lemma_first_success_from(
    schemes: Seq<Scheme>,
    from: int,
    winner: int,
    store: CredentialStore,
    request: RawRequest,
    flow: Flow,
    now: u64,
)
    requires
        0 <= from <= winner < schemes.len(),
        attempt(schemes[winner], store, request, flow, now) is Ok,
        forall|i: int|
            from <= i < winner ==> (#[trigger] attempt(schemes[i], store, request, flow, now))
                is Err,
    ensures
        fallback_from(schemes, from, store, request, flow, now) == attempt(
            schemes[winner],
            store,
            request,
            flow,
            now,
        ),
    decreases winner - from,
{
    if from < winner {
        assert(attempt(schemes[from], store, request, flow, now) is Err);
        lemma_first_success_from(schemes, from + 1, winner, store, request, flow, now);
    }
}

/// Where every scheme of an ordered fallback fails, the failure reported is
/// that of the scheme tried last, not that of the first.
pub proof fn law_fallback_reports_last_failure(
    schemes: Seq<Scheme>,
    store: CredentialStore,
    request: RawRequest,
    flow: Flow,
    now: u64,
)
    requires
        schemes.len() > 0,
        forall|i: int|
            0 <= i < schemes.len() ==> (#[trigger] attempt(schemes[i], store, request, flow, now))
                is Err,
    ensures
        fallback_from(schemes, 0, store, request, flow, now) == attempt(
            schemes[schemes.len() - 1],
            store,
            request,
            flow,
            now,
        ),
{
    lemma_all_fail_from(schemes, 0, store, request, flow, now);
}

/// An ordered fallback answers with the identity of the first scheme that
/// succeeds, whatever the schemes after it would have said.
pub proof fn law_fallback_first_success_wins(
    schemes: Seq<Scheme>,
    winner: int,
    store: CredentialStore,
    request: RawRequest,
    flow: Flow,
    now: u64,
)
    requires
        0 <= winner < schemes.len(),
        attempt(schemes[winner], store, request, flow, now) is Ok,
        forall|i: int|
            0 <= i < winner ==> (#[trigger] attempt(schemes[i], store, request, flow, now))
                is Err,
    ensures
        fallback_from(schemes, 0, store, request, flow, now) == attempt(
            schemes[winner],
            store,
            request,
            flow,
            now,
        ),
{
    lemma_first_success_from(schemes, 0, winner, store, request, flow, now);
}

/// An identity obtained by client secret is confined to one resource, the
/// one for which the secret was minted: it is authorized for that resource
/// and refused every other, whatever the request names.
pub proof fn law_client_secret_confines(
    store: CredentialStore,
    secret: Seq<char>,
    now: u64,
    other: ResourceRefView,
)
    requires
        check_client_secret(store, secret, now) is Ok,
    ensures
        ({
            let auth = check_client_secret(store, secret, now)->Ok_0;
            let minted = client_secret_from(store.client_secrets@, secret, 0);
            &&& minted is Some
            &&& auth.resource == Some(store.client_secrets@[minted->Some_0].resource@)
            &&& auth.authorize(auth.resource->Some_0) is Ok
            &&& other != auth.resource->Some_0 ==> auth.authorize(other) == Err::<(), AuthError>(
                AuthError::InsufficientScope,
            )
        }),
{
}

/// While the credential stores do not answer, no scheme and no client
/// secret resolves, and each fails for that reason and no other: a caller
/// is never told that its credentials are bad when the stores were never
/// asked.
pub proof fn law_silent_store_fails_every_lookup(
    store: CredentialStore,
    schemes: Seq<Scheme>,
    secret: Seq<char>,
    request: RawRequest,
    flow: Flow,
    now: u64,
)
    requires
        !store.reachable,
        schemes.len() > 0,
    ensures
        fallback_from(schemes, 0, store, request, flow, now) == Err::<AuthContextView, AuthError>(
            AuthError::StoreUnavailable,
        ),
        check_client_secret(store, secret, now) == Err::<AuthContextView, AuthError>(
            AuthError::StoreUnavailable,
        ),
{
    assert forall|i: int| 0 <= i < schemes.len() implies (#[trigger] attempt(
        schemes[i],
        store,
        request,
        flow,
        now,
    )) == Err::<AuthContextView, AuthError>(AuthError::StoreUnavailable) by {}
    lemma_all_fail_from(schemes, 0, store, request, flow, now);
}

/// An identity whose key is read-only is refused every operation that
/// changes state.
pub proof fn law_read_only_key_cannot_mutate(found: Result<AuthContextView, AuthError>, flow: Flow)
    requires
        flow.mutates(),
        found matches Ok(ctx) && ctx.scope == Some(KeyScope::ReadOnly),
    ensures
        within_scope(found, flow) == Err::<AuthContextView, AuthError>(
            AuthError::InsufficientScope,
        ),
{
}

} // verus!
