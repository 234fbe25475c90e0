use vstd::prelude::*;
use crate::auth::{AuthContext, AuthContextView, ResourceRefView};
use crate::error::BusinessError;
use crate::locking::ResourceType;

verus! {

/// Where a payment link stands in its life.
#[derive(Clone, Copy, Debug, PartialEq, Eq, Structural)]
pub enum LinkState {
    /// Minted, not yet acted on.
    Created,
    /// A payment was started against the link.
    Initiated,
    /// The payment went through. Nothing follows.
    Completed,
    /// The link ran out of time. Nothing follows.
    Expired,
}

/// What can happen to a payment link.
#[derive(Clone, Copy, Debug, PartialEq, Eq, Structural)]
pub enum LinkEvent {
    Initiate,
    Complete,
    Expire,
}

impl LinkState {
    /// Whether nothing can follow the state.
    pub open spec fn terminal(self) -> bool {
        self == LinkState::Completed || self == LinkState::Expired
    }

    /// The state that follows on an event, where the event is allowed.
    pub open spec fn step(self, event: LinkEvent) -> Result<LinkState, BusinessError> {
        match (self, event) {
            (LinkState::Created, LinkEvent::Initiate) => Ok(LinkState::Initiated),
            (LinkState::Initiated, LinkEvent::Complete) => Ok(LinkState::Completed),
            (LinkState::Created, LinkEvent::Expire) => Ok(LinkState::Expired),
            (LinkState::Initiated, LinkEvent::Expire) => Ok(LinkState::Expired),
            _ => Err(BusinessError::InvalidTransition),
        }
    }

    /// Whether nothing can follow the state.
    pub fn is_terminal(&self) -> (r: bool)
        ensures
            r == self.terminal(),
    {
        match self {
            LinkState::Completed => true,
            LinkState::Expired => true,
            _ => false,
        }
    }

    /// The state that follows on an event, or the refusal of the event.
    pub fn apply(&self, event: LinkEvent) -> (r: Result<LinkState, BusinessError>)
        ensures
            r == self.step(event),
    {
        match (*self, event) {
            (LinkState::Created, LinkEvent::Initiate) => Ok(LinkState::Initiated),
            (LinkState::Initiated, LinkEvent::Complete) => Ok(LinkState::Completed),
            (LinkState::Created, LinkEvent::Expire) => Ok(LinkState::Expired),
            (LinkState::Initiated, LinkEvent::Expire) => Ok(LinkState::Expired),
            _ => Err(BusinessError::InvalidTransition),
        }
    }
}

/// The mathematical value of a [`PaymentLink`].
pub struct PaymentLinkView {
    pub link_id: Seq<char>,
    pub merchant_id: Seq<char>,
    pub payment_id: Seq<char>,
    pub created_at: u64,
    pub expires_at: u64,
    pub state: LinkState,
}

impl PaymentLinkView {
    /// The state as a reader sees it at `now`: a link that is past its time
    /// and has not ended otherwise reads as expired.
    pub open spec fn state_at(self, now: u64) -> LinkState {
        if !self.state.terminal() && self.expires_at <= now {
            LinkState::Expired
        } else {
            self.state
        }
    }

    /// The link as a reader sees it at `now`.
    pub open spec fn seen_at(self, now: u64) -> PaymentLinkView {
        PaymentLinkView { state: self.state_at(now), ..self }
    }

    /// The link in another state.
    pub open spec fn in_state(self, state: LinkState) -> PaymentLinkView {
        PaymentLinkView { state, ..self }
    }

    /// The name under which identities are confined to this link.
    pub open spec fn resource(self) -> ResourceRefView {
        ResourceRefView { resource_type: ResourceType::PaymentLink, resource_id: self.link_id }
    }
}

/// A payment link of one merchant for one payment.
#[derive(Debug, PartialEq, Eq)]
pub struct PaymentLink {
    pub link_id: String,
    pub merchant_id: String,
    pub payment_id: String,
    pub created_at: u64,
    /// The first instant at which the link can no longer be acted on.
    pub expires_at: u64,
    pub state: LinkState,
}

impl View for PaymentLink {
    type V = PaymentLinkView;

    open spec fn view(&self) -> PaymentLinkView {
        PaymentLinkView {
            link_id: self.link_id@,
            merchant_id: self.merchant_id@,
            payment_id: self.payment_id@,
            created_at: self.created_at,
            expires_at: self.expires_at,
            state: self.state,
        }
    }
}

impl Clone for PaymentLink {
    fn clone(&self) -> (r: Self)
        ensures
            r == *self,
    {
        PaymentLink {
            link_id: self.link_id.clone(),
            merchant_id: self.merchant_id.clone(),
            payment_id: self.payment_id.clone(),
            created_at: self.created_at,
            expires_at: self.expires_at,
            state: self.state,
        }
    }
}

impl PaymentLink {
    /// A freshly minted link.
    pub fn new(
        link_id: &str,
        merchant_id: &str,
        payment_id: &str,
        created_at: u64,
        expires_at: u64,
    ) -> (r: PaymentLink)
        ensures
            r@ == (PaymentLinkView {
                link_id: link_id@,
                merchant_id: merchant_id@,
                payment_id: payment_id@,
                created_at,
                expires_at,
                state: LinkState::Created,
            }),
    {
        PaymentLink {
            link_id: link_id.to_owned(),
            merchant_id: merchant_id.to_owned(),
            payment_id: payment_id.to_owned(),
            created_at,
            expires_at,
            state: LinkState::Created,
        }
    }

    /// The state as a reader sees it at `now`.
    pub fn state_at(&self, now: u64) -> (r: LinkState)
        ensures
            r == self@.state_at(now),
    {
        if !self.state.is_terminal() && self.expires_at <= now {
            LinkState::Expired
        } else {
            self.state
        }
    }

    /// A copy of the link as a reader sees it at `now`.
    pub fn seen_at(&self, now: u64) -> (r: PaymentLink)
        ensures
            r@ == self@.seen_at(now),
    {
        PaymentLink {
            link_id: self.link_id.clone(),
            merchant_id: self.merchant_id.clone(),
            payment_id: self.payment_id.clone(),
            created_at: self.created_at,
            expires_at: self.expires_at,
            state: self.state_at(now),
        }
    }
}

/// What a retrieval carries besides the link's id.
#[derive(Debug, PartialEq, Eq)]
pub struct RetrievePaymentLinkRequest {
    pub client_secret: Option<String>,
}

/// Names the payment whose link is to be initiated.
#[derive(Debug, PartialEq, Eq)]
pub struct PaymentLinkInitiateRequest {
    pub merchant_id: String,
    pub payment_id: String,
}

/// Which links of the merchant a listing shows.
#[derive(Clone, Copy, Debug, PartialEq, Eq, Structural)]
pub struct PaymentLinkListConstraints {
    /// Only links created at or after this instant.
    pub created_gte: Option<u64>,
    /// Only links created at or before this instant.
    pub created_lte: Option<u64>,
    /// At most this many links.
    pub limit: Option<usize>,
}

impl PaymentLinkListConstraints {
    /// Whether the constraints let the merchant's listing show the link.
    pub open spec fn selects(self, link: PaymentLinkView, merchant_id: Seq<char>) -> bool {
        &&& link.merchant_id == merchant_id
        &&& self.created_gte matches Some(from) ==> from <= link.created_at
        &&& self.created_lte matches Some(to) ==> link.created_at <= to
    }

    /// Whether a listing that already shows `shown` links has room for more.
    pub open spec fn has_room(self, shown: nat) -> bool {
        self.limit matches Some(limit) ==> shown < limit
    }
}

/// The mathematical values of a row of links.
pub open spec fn views(links: Seq<PaymentLink>) -> Seq<PaymentLinkView> {
    links.map_values(|l: PaymentLink| l@)
}

/// The index of the first link at or after `from` with this id.
pub open spec fn link_from(links: Seq<PaymentLinkView>, link_id: Seq<char>, from: int) -> Option<
    int,
>
    decreases links.len() - from,
{
    if from < 0 || from >= links.len() {
        None
    } else if links[from].link_id == link_id {
        Some(from)
    } else {
        link_from(links, link_id, from + 1)
    }
}

/// The index of the first link at or after `from` of this merchant for this
/// payment.
pub open spec fn payment_from(
    links: Seq<PaymentLinkView>,
    merchant_id: Seq<char>,
    payment_id: Seq<char>,
    from: int,
) -> Option<int>
    decreases links.len() - from,
{
    if from < 0 || from >= links.len() {
        None
    } else if links[from].merchant_id == merchant_id && links[from].payment_id == payment_id {
        Some(from)
    } else {
        payment_from(links, merchant_id, payment_id, from + 1)
    }
}

/// No two links have the same id.
pub open spec fn distinct_ids(links: Seq<PaymentLinkView>) -> bool {
    forall|i: int, j: int|
        #![trigger links[i], links[j]]
        0 <= i < j < links.len() ==> links[i].link_id != links[j].link_id
}

/// What an identity is refused where it is confined to another resource.
pub open spec fn confined_away(auth: AuthContextView, resource: ResourceRefView) -> bool {
    auth.authorize(resource).is_err()
}

/// What a retrieval answers: the link as seen at `now`. A link of another
/// merchant reads as absent.
pub open spec fn retrieve_spec(
    links: Seq<PaymentLinkView>,
    auth: AuthContextView,
    link_id: Seq<char>,
    now: u64,
) -> Result<PaymentLinkView, BusinessError> {
    if confined_away(
        auth,
        ResourceRefView { resource_type: ResourceType::PaymentLink, resource_id: link_id },
    ) {
        Err(BusinessError::ScopeViolation)
    } else {
        match link_from(links, link_id, 0) {
            None => Err(BusinessError::NotFound),
            Some(i) => if links[i].merchant_id != auth.merchant_id {
                Err(BusinessError::NotFound)
            } else {
                Ok(links[i].seen_at(now))
            },
        }
    }
}

/// Which link an initiation acts on, or why on none.
pub open spec fn initiate_target(
    links: Seq<PaymentLinkView>,
    auth: AuthContextView,
    merchant_id: Seq<char>,
    payment_id: Seq<char>,
    now: u64,
) -> Result<int, BusinessError> {
    if auth.merchant_id != merchant_id {
        Err(BusinessError::ScopeViolation)
    } else {
        match payment_from(links, merchant_id, payment_id, 0) {
            None => Err(BusinessError::NotFound),
            Some(i) => if confined_away(auth, links[i].resource()) {
                Err(BusinessError::ScopeViolation)
            } else {
                match links[i].state_at(now).step(LinkEvent::Initiate) {
                    Err(e) => Err(e),
                    Ok(_) => Ok(i),
                }
            },
        }
    }
}

/// What an initiation answers: the link in its new state.
pub open spec fn initiate_spec(
    links: Seq<PaymentLinkView>,
    auth: AuthContextView,
    merchant_id: Seq<char>,
    payment_id: Seq<char>,
    now: u64,
) -> Result<PaymentLinkView, BusinessError> {
    match initiate_target(links, auth, merchant_id, payment_id, now) {
        Err(e) => Err(e),
        Ok(i) => Ok(links[i].in_state(LinkState::Initiated)),
    }
}

/// The links after an initiation: changed only where it succeeds, and then
/// only in the state of the one link.
pub open spec fn after_initiate(
    links: Seq<PaymentLinkView>,
    auth: AuthContextView,
    merchant_id: Seq<char>,
    payment_id: Seq<char>,
    now: u64,
) -> Seq<PaymentLinkView> {
    match initiate_target(links, auth, merchant_id, payment_id, now) {
        Err(_) => links,
        Ok(i) => links.update(i, links[i].in_state(LinkState::Initiated)),
    }
}

/// What a listing shows among the first `upto` links: those that the
/// constraints select, in the order in which they were minted, as seen at
/// `now`, up to the limit.
pub open spec fn listed(
    links: Seq<PaymentLinkView>,
    merchant_id: Seq<char>,
    constraints: PaymentLinkListConstraints,
    now: u64,
    upto: int,
) -> Seq<PaymentLinkView>
    decreases upto,
{
    if upto <= 0 {
        Seq::empty()
    } else {
        let shown = listed(links, merchant_id, constraints, now, upto - 1);
        if constraints.selects(links[upto - 1], merchant_id) && constraints.has_room(shown.len()) {
            shown.push(links[upto - 1].seen_at(now))
        } else {
            shown
        }
    }
}

/// What a listing answers. An identity confined to one resource may not
/// list.
pub open spec fn list_spec(
    links: Seq<PaymentLinkView>,
    auth: AuthContextView,
    constraints: PaymentLinkListConstraints,
    now: u64,
) -> Result<Seq<PaymentLinkView>, BusinessError> {
    if auth.resource.is_some() {
        Err(BusinessError::ScopeViolation)
    } else {
        Ok(listed(links, auth.merchant_id, constraints, now, links.len() as int))
    }
}

/// Whether an answer that carries a link is the one prescribed.
pub open spec fn link_matches(
    got: Result<PaymentLink, BusinessError>,
    expected: Result<PaymentLinkView, BusinessError>,
) -> bool {
    match got {
        Ok(link) => expected == Ok::<PaymentLinkView, BusinessError>(link@),
        Err(e) => expected == Err::<PaymentLinkView, BusinessError>(e),
    }
}

/// Whether an answer that carries a row of links is the one prescribed.
pub open spec fn links_match(
    got: Result<Vec<PaymentLink>, BusinessError>,
    expected: Result<Seq<PaymentLinkView>, BusinessError>,
) -> bool {
    match got {
        Ok(row) => expected == Ok::<Seq<PaymentLinkView>, BusinessError>(views(row@)),
        Err(e) => expected == Err::<Seq<PaymentLinkView>, BusinessError>(e),
    }
}

/// The payment links of all merchants, in the order in which they were
/// minted. A link is never removed, and no two links have the same id.
#[derive(Debug, PartialEq, Eq)]
pub struct LinkStore {
    links: Vec<PaymentLink>,
}

impl View for LinkStore {
    type V = Seq<PaymentLinkView>;

    closed spec fn view(&self) -> Seq<PaymentLinkView> {
        views(self.links@)
    }
}

impl LinkStore {
    #[verifier::type_invariant]
    closed spec fn inv(self) -> bool {
        distinct_ids(views(self.links@))
    }

    /// A store without links.
    pub fn new() -> (r: LinkStore)
        ensures
            r@ == Seq::<PaymentLinkView>::empty(),
    {
        LinkStore { links: Vec::new() }
    }

    /// How many links were minted.
    pub fn len(&self) -> (r: usize)
        ensures
            r == self@.len(),
    {
        self.links.len()
    }

    fn find_link(&self, link_id: &String) -> (r: Option<usize>)
        ensures
            r.is_some() == link_from(self@, link_id@, 0).is_some(),
            r matches Some(i) ==> link_from(self@, link_id@, 0) == Some(i as int) && i
                < self.links@.len(),
    {
        let mut i: usize = 0;
        while i < self.links.len()
            invariant
                i <= self.links@.len(),
                link_from(self@, link_id@, 0) == link_from(self@, link_id@, i as int),
            decreases self.links@.len() - i,
        {
            if self.links[i].link_id == *link_id {
                return Some(i);
            }
            i = i + 1;
        }
        None
    }

    fn find_payment(&self, merchant_id: &String, payment_id: &String) -> (r: Option<usize>)
        ensures
            r.is_some() == payment_from(self@, merchant_id@, payment_id@, 0).is_some(),
            r matches Some(i) ==> payment_from(self@, merchant_id@, payment_id@, 0) == Some(
                i as int,
            ) && i < self.links@.len(),
    {
        let mut i: usize = 0;
        while i < self.links.len()
            invariant
                i <= self.links@.len(),
                payment_from(self@, merchant_id@, payment_id@, 0) == payment_from(
                    self@,
                    merchant_id@,
                    payment_id@,
                    i as int,
                ),
            decreases self.links@.len() - i,
        {
            if self.links[i].merchant_id == *merchant_id && self.links[i].payment_id
                == *payment_id {
                return Some(i);
            }
            i = i + 1;
        }
        None
    }

    /// Puts the link at `index` into `state` and hands out a copy of it.
    /// The store is taken apart, changed and put together again, so that
    /// it is whole whenever it can be seen.
    fn put_in_state(&mut self, index: usize, state: LinkState) -> (r: PaymentLink)
        requires
            index < old(self)@.len(),
        ensures
            r@ == old(self)@[index as int].in_state(state),
            final(self)@ == old(self)@.update(index as int, r@),
    {
        proof {
            use_type_invariant(&*self);
        }
        let mut taken = LinkStore::new();
        core::mem::swap(self, &mut taken);
        let LinkStore { mut links } = taken;
        let mut link = links[index].clone();
        link.state = state;
        let changed = link.clone();
        links.set(index, link);
        assert(views(links@) =~= old(self)@.update(index as int, changed@));
        *self = LinkStore { links };
        changed
    }

    /// Adds a link at the end, unless one with its id is there already.
    pub fn mint(&mut self, link: PaymentLink) -> (r: bool)
        ensures
            distinct_ids(final(self)@),
            r == link_from(old(self)@, link@.link_id, 0).is_none(),
            final(self)@ == if r {
                old(self)@.push(link@)
            } else {
                old(self)@
            },
    {
        proof {
            use_type_invariant(&*self);
        }
        match self.find_link(&link.link_id) {
            Some(_) => false,
            None => {
                proof {
                    lemma_link_index(self@, link@.link_id, 0);
                }
                let ghost minted = link@;
                let mut taken = LinkStore::new();
                core::mem::swap(self, &mut taken);
                let LinkStore { mut links } = taken;
                links.push(link);
                assert(views(links@) =~= old(self)@.push(minted));
                *self = LinkStore { links };
                true
            },
        }
    }

    /// The link with this id as it is stored, whatever the time.
    pub fn get(&self, link_id: &str) -> (r: Option<&PaymentLink>)
        ensures
            r.is_some() == link_from(self@, link_id@, 0).is_some(),
            r matches Some(link) ==> link_from(self@, link_id@, 0) matches Some(i) && self@[i]
                == link@,
    {
        let wanted: String = link_id.to_owned();
        match self.find_link(&wanted) {
            Some(i) => Some(&self.links[i]),
            None => None,
        }
    }

    /// Moves the link with this id along on an event, judged by its state as
    /// seen at `now`.
    pub fn advance(&mut self, link_id: &str, event: LinkEvent, now: u64) -> (r: Result<
        LinkState,
        BusinessError,
    >)
        ensures
            distinct_ids(final(self)@),
            match link_from(old(self)@, link_id@, 0) {
                None => {
                    &&& r == Err::<LinkState, BusinessError>(BusinessError::NotFound)
                    &&& final(self)@ == old(self)@
                },
                Some(i) => {
                    &&& r == old(self)@[i].state_at(now).step(event)
                    &&& final(self)@ == (match r {
                        Ok(next) => old(self)@.update(i, old(self)@[i].in_state(next)),
                        Err(_) => old(self)@,
                    })
                },
            },
    {
        proof {
            use_type_invariant(&*self);
        }
        let wanted: String = link_id.to_owned();
        match self.find_link(&wanted) {
            None => Err(BusinessError::NotFound),
            Some(i) => {
                match self.links[i].state_at(now).apply(event) {
                    Err(e) => Err(e),
                    Ok(next) => {
                        let _ = self.put_in_state(i, next);
                        Ok(next)
                    },
                }
            },
        }
    }

    /// Reads one link on behalf of `auth`.
    pub fn retrieve(&self, auth: &AuthContext, link_id: &String, now: u64) -> (r: Result<
        PaymentLink,
        BusinessError,
    >)
        ensures
            link_matches(r, retrieve_spec(self@, auth@, link_id@, now)),
    {
        if auth.authorize(ResourceType::PaymentLink, link_id.as_str()).is_err() {
            return Err(BusinessError::ScopeViolation);
        }
        match self.find_link(link_id) {
            None => Err(BusinessError::NotFound),
            Some(i) => {
                if self.links[i].merchant_id != *auth.merchant_id() {
                    Err(BusinessError::NotFound)
                } else {
                    Ok(self.links[i].seen_at(now))
                }
            },
        }
    }

    /// Starts the payment flow against the merchant's link for a payment.
    /// Only a link that reads as `Created` at `now` can be initiated.
    pub fn initiate(
        &mut self,
        auth: &AuthContext,
        merchant_id: &String,
        payment_id: &String,
        now: u64,
    ) -> (r: Result<PaymentLink, BusinessError>)
        ensures
            distinct_ids(final(self)@),
            link_matches(r, initiate_spec(old(self)@, auth@, merchant_id@, payment_id@, now)),
            final(self)@ == after_initiate(old(self)@, auth@, merchant_id@, payment_id@, now),
    {
        proof {
            use_type_invariant(&*self);
        }
        if *auth.merchant_id() != *merchant_id {
            return Err(BusinessError::ScopeViolation);
        }
        match self.find_payment(merchant_id, payment_id) {
            None => Err(BusinessError::NotFound),
            Some(i) => {
                if auth.authorize(
                    ResourceType::PaymentLink,
                    self.links[i].link_id.as_str(),
                ).is_err() {
                    return Err(BusinessError::ScopeViolation);
                }
                match self.links[i].state_at(now).apply(LinkEvent::Initiate) {
                    Err(e) => Err(e),
                    Ok(next) => Ok(self.put_in_state(i, next)),
                }
            },
        }
    }

    /// Lists the links of the identity's merchant that the constraints
    /// select, oldest first.
    pub fn list(
        &self,
        auth: &AuthContext,
        constraints: &PaymentLinkListConstraints,
        now: u64,
    ) -> (r: Result<Vec<PaymentLink>, BusinessError>)
        ensures
            links_match(r, list_spec(self@, auth@, *constraints, now)),
    {
        if auth.resource().is_some() {
            return Err(BusinessError::ScopeViolation);
        }
        let mut shown: Vec<PaymentLink> = Vec::new();
        let mut i: usize = 0;
        while i < self.links.len()
            invariant
                i <= self.links@.len(),
                views(shown@) == listed(self@, auth@.merchant_id, *constraints, now, i as int),
            decreases self.links@.len() - i,
        {
            let link = &self.links[i];
            let from_ok = match constraints.created_gte {
                Some(from) => from <= link.created_at,
                None => true,
            };
            let to_ok = match constraints.created_lte {
                Some(to) => link.created_at <= to,
                None => true,
            };
            let room = match constraints.limit {
                Some(limit) => shown.len() < limit,
                None => true,
            };
            if link.merchant_id == *auth.merchant_id() && from_ok && to_ok && room {
                let ghost before = shown@;
                shown.push(link.seen_at(now));
                assert(views(shown@) =~= views(before).push(self@[i as int].seen_at(now)));
            }
            i = i + 1;
        }
        Ok(shown)
    }
}

/// Nothing follows a terminal state.
pub proof fn law_terminal_states_are_final(state: LinkState, event: LinkEvent)
    requires
        state.terminal(),
    ensures
        state.step(event) == Err::<LinkState, BusinessError>(BusinessError::InvalidTransition),
{
}

/// A link can be initiated from `Created` and from no other state.
pub proof fn law_initiate_only_from_created(state: LinkState)
    ensures
        state.step(LinkEvent::Initiate) is Ok <==> state == LinkState::Created,
{
}

/// Retrieval of a completed link answers the same whenever it is asked.
pub proof fn law_retrieve_completed_is_stable(
    links: Seq<PaymentLinkView>,
    auth: AuthContextView,
    link_id: Seq<char>,
    now: u64,
    later: u64,
)
    requires
        retrieve_spec(links, auth, link_id, now) matches Ok(link) && link.state
            == LinkState::Completed,
    ensures
        retrieve_spec(links, auth, link_id, later) == retrieve_spec(links, auth, link_id, now),
{
}

/// An identity confined to one resource is refused the retrieval of every
/// link but the one it is confined to.
pub proof fn law_confined_identity_reads_own_link_only(
    links: Seq<PaymentLinkView>,
    auth: AuthContextView,
    link_id: Seq<char>,
    now: u64,
)
    requires
        auth.resource matches Some(own) && own != (ResourceRefView {
            resource_type: ResourceType::PaymentLink,
            resource_id: link_id,
        }),
    ensures
        retrieve_spec(links, auth, link_id, now) == Err::<PaymentLinkView, BusinessError>(
            BusinessError::ScopeViolation,
        ),
{
}

/// An initiation that succeeds leaves the link `Initiated`, so that a
/// second initiation of the same payment is refused as an invalid
/// transition and a retrieval reads `Initiated` until the link runs out.
pub proof fn law_initiated_link_reads_initiated(
    links: Seq<PaymentLinkView>,
    auth: AuthContextView,
    merchant_id: Seq<char>,
    payment_id: Seq<char>,
    now: u64,
    later: u64,
)
    requires
        distinct_ids(links),
        initiate_spec(links, auth, merchant_id, payment_id, now) is Ok,
    ensures
        ({
            let after = after_initiate(links, auth, merchant_id, payment_id, now);
            let link = initiate_spec(links, auth, merchant_id, payment_id, now)->Ok_0;
            &&& link.state == LinkState::Initiated
            &&& initiate_spec(after, auth, merchant_id, payment_id, later) == Err::<
                PaymentLinkView,
                BusinessError,
            >(BusinessError::InvalidTransition)
            &&& later < link.expires_at ==> retrieve_spec(after, auth, link.link_id, later) == Ok::<
                PaymentLinkView,
                BusinessError,
            >(link)
        }),
{
    let i = initiate_target(links, auth, merchant_id, payment_id, now)->Ok_0;
    let after = after_initiate(links, auth, merchant_id, payment_id, now);
    lemma_payment_index(links, merchant_id, payment_id, 0);
    lemma_payment_unchanged(links, after, merchant_id, payment_id, 0);
    lemma_link_index(links, links[i].link_id, 0);
    lemma_link_unchanged(links, after, links[i].link_id, 0);
}

proof fn lemma_payment_index(
    links: Seq<PaymentLinkView>,
    merchant_id: Seq<char>,
    payment_id: Seq<char>,
    from: int,
)
    requires
        0 <= from,
    ensures
        payment_from(links, merchant_id, payment_id, from) matches Some(i) ==> from <= i
            < links.len() && links[i].merchant_id == merchant_id && links[i].payment_id
            == payment_id,
    decreases links.len() - from,
{
    if from < links.len() && !(links[from].merchant_id == merchant_id && links[from].payment_id
        == payment_id) {
        lemma_payment_index(links, merchant_id, payment_id, from + 1);
    }
}

proof fn lemma_link_index(links: Seq<PaymentLinkView>, link_id: Seq<char>, from: int)
    requires
        0 <= from,
    ensures
        link_from(links, link_id, from) matches Some(i) ==> from <= i < links.len()
            && links[i].link_id == link_id,
        link_from(links, link_id, from) is None ==> forall|i: int|
            from <= i < links.len() ==> (#[trigger] links[i]).link_id != link_id,
    decreases links.len() - from,
{
    if from < links.len() && links[from].link_id != link_id {
        lemma_link_index(links, link_id, from + 1);
    }
}

/// Two rows that agree on which merchant and payment each link is for name
/// the same link for a payment.
proof fn lemma_payment_unchanged(
    a: Seq<PaymentLinkView>,
    b: Seq<PaymentLinkView>,
    merchant_id: Seq<char>,
    payment_id: Seq<char>,
    from: int,
)
    requires
        0 <= from,
        a.len() == b.len(),
        forall|i: int|
            0 <= i < a.len() ==> (#[trigger] a[i]).merchant_id == b[i].merchant_id
                && a[i].payment_id == b[i].payment_id,
    ensures
        payment_from(a, merchant_id, payment_id, from) == payment_from(
            b,
            merchant_id,
            payment_id,
            from,
        ),
    decreases a.len() - from,
{
    if from < a.len() {
        assert(a[from].merchant_id == b[from].merchant_id);
        lemma_payment_unchanged(a, b, merchant_id, payment_id, from + 1);
    }
}

/// Two rows that agree on the id of each link name the same link for an id.
proof fn lemma_link_unchanged(
    a: Seq<PaymentLinkView>,
    b: Seq<PaymentLinkView>,
    link_id: Seq<char>,
    from: int,
)
    requires
        0 <= from,
        a.len() == b.len(),
        forall|i: int| 0 <= i < a.len() ==> (#[trigger] a[i]).link_id == b[i].link_id,
    ensures
        link_from(a, link_id, from) == link_from(b, link_id, from),
    decreases a.len() - from,
{
    if from < a.len() {
        assert(a[from].link_id == b[from].link_id);
        lemma_link_unchanged(a, b, link_id, from + 1);
    }
}

} // verus!
