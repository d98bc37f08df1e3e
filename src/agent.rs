use vstd::prelude::*;
use crate::model::{
    offer_well_formed, Connection, CredentialOffer, InboxMessage, IssuanceError, OfferMessage,
    Outbound, State,
};
use crate::roles::{
    holder_external, holder_later, issuer_external, Holder, HolderPhase, Issuer,
    IssuerConfig, IssuerPhase,
};
use crate::store::{role_rank, role_state, same_role, Role, SessionStore};

verus! {

/// Relies on uuid::Uuid::new_v4 and the hyphenated form its `Display` writes:
/// a random version-4 UUID as 36 characters.
#[verifier::external_body]
fn new_session_id() -> (r: String)
    ensures
        r@.len() == 36,
{
    uuid::Uuid::new_v4().to_string()
}

/// Whether some connection in `cs` has the id `id`.
pub open spec fn has_connection(cs: Seq<Connection>, id: Seq<char>) -> bool {
    exists|i: int| 0 <= i < cs.len() && #[trigger] cs[i].id@ == id
}

/// The most recently received credential offer of an inbox, if any.
pub open spec fn last_offer(inbox: Seq<InboxMessage>) -> Option<OfferMessage>
    decreases inbox.len(),
{
    if inbox.len() == 0 {
        None
    } else {
        match inbox.last() {
            InboxMessage::CredentialOffer(m) => Some(m),
            InboxMessage::Other => last_offer(inbox.drop_last()),
        }
    }
}

/// The outcome of a state query that needs no inbox.
#[derive(PartialEq, Eq, Structural, Clone, Copy, Debug)]
pub enum Lookup {
    /// A role object is stored for the session; this is its state.
    Known(State),
    /// No role object is stored: the default connection's inbox must be
    /// drained and handed to `adopt_offer_from_inbox`.
    ScanInbox,
}

/// How a session id resolves: the stored role object's state, else an inbox
/// scan on the default connection, else a missing default connection.
pub open spec fn lookup_state(
    sessions: Map<Seq<char>, Role>,
    default_connection: Option<Connection>,
    id: Seq<char>,
) -> Result<Lookup, IssuanceError> {
    if sessions.contains_key(id) {
        Ok(Lookup::Known(role_state(sessions[id])))
    } else if default_connection is Some {
        Ok(Lookup::ScanInbox)
    } else {
        Err(IssuanceError::Internal)
    }
}

/// No session is dropped, changes role or moves backward in its role's order.
pub open spec fn sessions_progress(before: Map<Seq<char>, Role>, after: Map<Seq<char>, Role>) -> bool {
    forall|k: Seq<char>| #[trigger]
        before.contains_key(k) ==> after.contains_key(k) && same_role(before[k], after[k])
            && role_rank(before[k]) <= role_rank(after[k])
}

pub open spec fn holds_holder(sessions: Map<Seq<char>, Role>, id: Seq<char>) -> bool {
    sessions.contains_key(id) && sessions[id] is Holder
}

/// An issuer ready to offer a credential: what to send, and where.
pub struct OfferPlan {
    session_id: String,
    connection_id: String,
    issuer: Issuer,
    message: OfferMessage,
}

impl OfferPlan {
    pub closed spec fn spec_session_id(&self) -> Seq<char> {
        self.session_id@
    }

    pub closed spec fn spec_connection_id(&self) -> Seq<char> {
        self.connection_id@
    }

    pub closed spec fn spec_issuer(&self) -> Issuer {
        self.issuer
    }

    pub closed spec fn spec_message(&self) -> OfferMessage {
        self.message
    }

    pub fn session_id(&self) -> (r: &String)
        ensures
            r@ == self.spec_session_id(),
    {
        &self.session_id
    }

    pub fn connection_id(&self) -> (r: &String)
        ensures
            r@ == self.spec_connection_id(),
    {
        &self.connection_id
    }

    pub fn message(&self) -> (r: &OfferMessage)
        ensures
            *r == self.spec_message(),
    {
        &self.message
    }
}

/// A holder's reply to an offer: what to send, and on which connection.
pub struct RequestPlan {
    session_id: String,
    connection: Connection,
    outbound: Outbound,
}

impl RequestPlan {
    pub closed spec fn spec_session_id(&self) -> Seq<char> {
        self.session_id@
    }

    pub closed spec fn spec_connection(&self) -> Connection {
        self.connection
    }

    pub closed spec fn spec_outbound(&self) -> Outbound {
        self.outbound
    }

    pub fn session_id(&self) -> (r: &String)
        ensures
            r@ == self.spec_session_id(),
    {
        &self.session_id
    }

    pub fn connection(&self) -> (r: &Connection)
        ensures
            *r == self.spec_connection(),
    {
        &self.connection
    }

    pub fn outbound(&self) -> (r: &Outbound)
        ensures
            *r == self.spec_outbound(),
    {
        &self.outbound
    }
}

/// What a delivered offer reports: its state and the session's thread id.
pub struct OfferReceipt {
    pub state: State,
    pub thread_id: String,
}

/// Drives issuance sessions: resolves session ids, builds and advances role
/// objects, and keeps them in its session store.
pub struct Agent {
    sessions: SessionStore,
    connections: Vec<Connection>,
    last_connection: Option<Connection>,
}

impl Agent {
    pub closed spec fn well_formed(&self) -> bool {
        self.sessions.well_formed()
    }

    pub closed spec fn sessions(&self) -> Map<Seq<char>, Role> {
        self.sessions@
    }

    pub closed spec fn connections(&self) -> Seq<Connection> {
        self.connections@
    }

    pub closed spec fn default_connection(&self) -> Option<Connection> {
        self.last_connection
    }

    pub fn new() -> (r: Agent)
        ensures
            r.well_formed(),
            r.sessions() == Map::<Seq<char>, Role>::empty(),
            r.connections() == Seq::<Connection>::empty(),
            r.default_connection() is None,
    {
        Agent { sessions: SessionStore::new(), connections: Vec::new(), last_connection: None }
    }

    /// Records an established connection; it becomes the default connection.
    pub fn add_connection(&mut self, connection: Connection)
        requires
            old(self).well_formed(),
        ensures
            final(self).well_formed(),
            final(self).sessions() == old(self).sessions(),
            final(self).connections() == old(self).connections().push(connection),
            final(self).default_connection() == Some(connection),
    {
        let copy = connection.copy();
        self.connections.push(connection);
        self.last_connection = Some(copy);
    }

    fn find_connection(&self, id: &String) -> (r: bool)
        ensures
            r == has_connection(self.connections(), id@),
    {
        let n = self.connections.len();
        for i in 0..n
            invariant
                n == self.connections@.len(),
                forall|j: int| 0 <= j < i ==> #[trigger] self.connections@[j].id@ != id@,
        {
            if self.connections[i].id == *id {
                return true;
            }
        }
        false
    }

    /// Plans the offer of `offer` under the session id `session_id`: the
    /// offer's connection must be known and the offer well formed.
    pub fn plan_credential_offer(&self, offer: &CredentialOffer, session_id: String) -> (r: Result<
        OfferPlan,
        IssuanceError,
    >)
        ensures
            !has_connection(self.connections(), offer@.connection_id) ==> r == Err::<
                OfferPlan,
                IssuanceError,
            >(IssuanceError::NotFound),
            has_connection(self.connections(), offer@.connection_id) && !offer_well_formed(offer@)
                ==> r == Err::<OfferPlan, IssuanceError>(IssuanceError::Configuration),
            has_connection(self.connections(), offer@.connection_id) && offer_well_formed(offer@)
                ==> r is Ok,
            r matches Ok(p) ==> {
                &&& p.spec_session_id() == session_id@
                &&& p.spec_connection_id() == offer@.connection_id
                &&& p.spec_issuer().spec_phase() == IssuerPhase::Initial
                &&& p.spec_issuer().spec_cred_def_id() == offer@.cred_def_id
                &&& p.spec_issuer().spec_preview() == offer@.preview
                &&& p.spec_issuer().spec_thread_id() == session_id@
                &&& p.spec_message().thread_id@ == session_id@
                &&& p.spec_message().offer@ == offer@
            },
    {
        if !self.find_connection(&offer.connection_id) {
            return Err(IssuanceError::NotFound);
        }
        let config = IssuerConfig {
            cred_def_id: offer.cred_def_id.clone(),
            rev_reg_id: None,
            tails_file: None,
        };
        let issuer = match Issuer::create(config, offer.credential_preview.copy(), session_id.clone()) {
            Ok(i) => i,
            Err(e) => {
                return Err(e);
            },
        };
        let message = issuer.offer_message(&offer.connection_id);
        assert(message.offer@ == offer@);
        Ok(OfferPlan { session_id, connection_id: offer.connection_id.clone(), issuer, message })
    }

    /// Plans the offer of `offer` under a freshly generated session id.
    pub fn prepare_credential_offer(&self, offer: &CredentialOffer) -> (r: Result<
        OfferPlan,
        IssuanceError,
    >)
        ensures
            !has_connection(self.connections(), offer@.connection_id) ==> r == Err::<
                OfferPlan,
                IssuanceError,
            >(IssuanceError::NotFound),
            has_connection(self.connections(), offer@.connection_id) && !offer_well_formed(offer@)
                ==> r == Err::<OfferPlan, IssuanceError>(IssuanceError::Configuration),
            has_connection(self.connections(), offer@.connection_id) && offer_well_formed(offer@)
                ==> r is Ok,
            r matches Ok(p) ==> {
                &&& p.spec_session_id().len() == 36
                &&& p.spec_connection_id() == offer@.connection_id
                &&& p.spec_issuer().spec_phase() == IssuerPhase::Initial
                &&& p.spec_issuer().spec_cred_def_id() == offer@.cred_def_id
                &&& p.spec_issuer().spec_preview() == offer@.preview
                &&& p.spec_issuer().spec_thread_id() == p.spec_session_id()
                &&& p.spec_message().thread_id@ == p.spec_session_id()
                &&& p.spec_message().offer@ == offer@
            },
    {
        let id = new_session_id();
        self.plan_credential_offer(offer, id)
    }

    /// Completes a planned offer once the send's outcome is known: a delivered
    /// offer is stored under its session id in the offer-sent state.
    pub fn send_credential_offer(&mut self, plan: OfferPlan, delivered: bool) -> (r: Result<
        OfferReceipt,
        IssuanceError,
    >)
        requires
            old(self).well_formed(),
        ensures
            final(self).well_formed(),
            final(self).connections() == old(self).connections(),
            final(self).default_connection() == old(self).default_connection(),
            sessions_progress(old(self).sessions(), final(self).sessions()),
            !delivered ==> r == Err::<OfferReceipt, IssuanceError>(IssuanceError::Transport)
                && final(self).sessions() == old(self).sessions(),
            delivered && old(self).sessions().contains_key(plan.spec_session_id()) ==> r == Err::<
                OfferReceipt,
                IssuanceError,
            >(IssuanceError::Internal) && final(self).sessions() == old(self).sessions(),
            delivered && !old(self).sessions().contains_key(plan.spec_session_id()) ==> {
                let issuer = plan.spec_issuer().spec_advanced(IssuerPhase::OfferSent);
                &&& final(self).sessions() == old(self).sessions().insert(
                    plan.spec_session_id(),
                    Role::Issuer(issuer),
                )
                &&& r matches Ok(receipt)
                &&& receipt.state == issuer_external(issuer.spec_phase())
                &&& receipt.thread_id@ == plan.spec_session_id()
            },
    {
        if !delivered {
            return Err(IssuanceError::Transport);
        }
        if self.sessions.get(&plan.session_id).is_some() {
            return Err(IssuanceError::Internal);
        }
        let OfferPlan { session_id, connection_id: _, issuer, message: _ } = plan;
        let mut issuer = issuer;
        issuer.advance(IssuerPhase::OfferSent);
        let state = issuer.current_state();
        let thread_id = session_id.clone();
        self.sessions.set(session_id, Role::Issuer(issuer));
        Ok(OfferReceipt { state, thread_id })
    }

    /// Plans a credential request for the holder stored under `id`, sent on
    /// the default connection.
    pub fn prepare_credential_request(&self, id: &String) -> (r: Result<RequestPlan, IssuanceError>)
        requires
            self.well_formed(),
        ensures
            !holds_holder(self.sessions(), id@) ==> r == Err::<RequestPlan, IssuanceError>(
                IssuanceError::NotFound,
            ),
            holds_holder(self.sessions(), id@) && self.default_connection() is None ==> r == Err::<
                RequestPlan,
                IssuanceError,
            >(IssuanceError::Internal),
            holds_holder(self.sessions(), id@) && self.default_connection() is Some ==> {
                let h = self.sessions()[id@]->Holder_0;
                let c = self.default_connection()->Some_0;
                &&& r matches Ok(p)
                &&& p.spec_session_id() == id@
                &&& p.spec_connection() == c
                &&& h.spec_offer().cred_def_id.len() == 0 ==> (p.spec_outbound() matches Outbound::ProblemReport {
                    thread_id,
                } && thread_id@ == h.spec_thread_id())
                &&& h.spec_offer().cred_def_id.len() > 0 ==> (p.spec_outbound() matches Outbound::Request(m)
                    && m.thread_id@ == h.spec_thread_id() && m.cred_def_id@ == h.spec_offer().cred_def_id
                    && m.requester_did@ == c.local_did@)
            },
    {
        let holder = match self.sessions.get(id) {
            Some(Role::Holder(h)) => h,
            _ => {
                return Err(IssuanceError::NotFound);
            },
        };
        let connection = match &self.last_connection {
            Some(c) => c,
            None => {
                return Err(IssuanceError::Internal);
            },
        };
        let outbound = holder.request_message(&connection.local_did);
        Ok(RequestPlan { session_id: id.clone(), connection: connection.copy(), outbound })
    }

    /// Completes a planned request once the send's outcome is known: a
    /// delivered request moves the stored holder to request-sent.
    pub fn send_credential_request(&mut self, plan: RequestPlan, delivered: bool) -> (r: Result<
        State,
        IssuanceError,
    >)
        requires
            old(self).well_formed(),
        ensures
            final(self).well_formed(),
            final(self).connections() == old(self).connections(),
            final(self).default_connection() == old(self).default_connection(),
            sessions_progress(old(self).sessions(), final(self).sessions()),
            !delivered ==> r == Err::<State, IssuanceError>(IssuanceError::Transport)
                && final(self).sessions() == old(self).sessions(),
            delivered && plan.spec_outbound() is ProblemReport ==> r == Err::<State, IssuanceError>(
                IssuanceError::Protocol,
            ) && final(self).sessions() == old(self).sessions(),
            delivered && plan.spec_outbound() is Request && !holds_holder(
                old(self).sessions(),
                plan.spec_session_id(),
            ) ==> r == Err::<State, IssuanceError>(IssuanceError::NotFound) && final(self).sessions()
                == old(self).sessions(),
            delivered && plan.spec_outbound() is Request && holds_holder(
                old(self).sessions(),
                plan.spec_session_id(),
            ) ==> {
                let id = plan.spec_session_id();
                let h = old(self).sessions()[id]->Holder_0;
                let g = final(self).sessions()[id]->Holder_0;
                &&& final(self).sessions() == old(self).sessions().insert(id, final(self).sessions()[id])
                &&& final(self).sessions()[id] is Holder
                &&& g.spec_phase() == holder_later(h.spec_phase(), HolderPhase::RequestSent)
                &&& g.spec_offer() == h.spec_offer()
                &&& g.spec_offer_thread() == h.spec_offer_thread()
                &&& g.spec_thread_id() == h.spec_thread_id()
                &&& r == Ok::<State, IssuanceError>(holder_external(g.spec_phase()))
            },
    {
        if !delivered {
            return Err(IssuanceError::Transport);
        }
        if let Outbound::ProblemReport { .. } = &plan.outbound {
            return Err(IssuanceError::Protocol);
        }
        let mut holder = match self.sessions.get(&plan.session_id) {
            Some(Role::Holder(h)) => h.copy(),
            _ => {
                return Err(IssuanceError::NotFound);
            },
        };
        holder.advance(HolderPhase::RequestSent);
        let state = holder.current_state();
        let ghost before = self.sessions();
        self.sessions.set(plan.session_id, Role::Holder(holder));
        assert forall|k: Seq<char>| #[trigger] before.contains_key(k) implies self.sessions().contains_key(k)
            && same_role(before[k], self.sessions()[k]) && role_rank(before[k]) <= role_rank(
            self.sessions()[k],
        ) by {}
        Ok(state)
    }

    /// Resolves the state of session `id` from the session store alone.
    pub fn get_issuer_state(&self, id: &String) -> (r: Result<Lookup, IssuanceError>)
        requires
            self.well_formed(),
        ensures
            r == lookup_state(self.sessions(), self.default_connection(), id@),
    {
        match self.sessions.get(id) {
            Some(role) => Ok(Lookup::Known(role.current_state())),
            None => {
                if self.last_connection.is_some() {
                    Ok(Lookup::ScanInbox)
                } else {
                    Err(IssuanceError::Internal)
                }
            },
        }
    }

    /// Materializes the holder of session `id` from the most recent credential
    /// offer of a drained inbox. A session that already has a role object is
    /// left as it is and its state reported; an inbox without an offer gives
    /// `NotFound`.
    pub fn adopt_offer_from_inbox(&mut self, id: String, inbox: Vec<InboxMessage>) -> (r: Result<
        State,
        IssuanceError,
    >)
        requires
            old(self).well_formed(),
        ensures
            final(self).well_formed(),
            final(self).connections() == old(self).connections(),
            final(self).default_connection() == old(self).default_connection(),
            sessions_progress(old(self).sessions(), final(self).sessions()),
            old(self).sessions().contains_key(id@) ==> r == Ok::<State, IssuanceError>(
                role_state(old(self).sessions()[id@]),
            ) && final(self).sessions() == old(self).sessions(),
            !old(self).sessions().contains_key(id@) && last_offer(inbox@) is None ==> r == Err::<
                State,
                IssuanceError,
            >(IssuanceError::NotFound) && final(self).sessions() == old(self).sessions(),
            !old(self).sessions().contains_key(id@) && last_offer(inbox@) is Some ==> {
                let m = last_offer(inbox@)->Some_0;
                let h = final(self).sessions()[id@]->Holder_0;
                &&& final(self).sessions() == old(self).sessions().insert(id@, final(self).sessions()[id@])
                &&& final(self).sessions()[id@] is Holder
                &&& h.spec_phase() == HolderPhase::OfferReceived
                &&& h.spec_offer() == m.offer@
                &&& h.spec_offer_thread() == m.thread_id@
                &&& h.spec_thread_id() == id@
                &&& r == Ok::<State, IssuanceError>(State::OfferReceived)
            },
    {
        if let Some(role) = self.sessions.get(&id) {
            return Ok(role.current_state());
        }
        let mut i: usize = inbox.len();
        assert(inbox@.subrange(0, i as int) =~= inbox@);
        while i > 0
            invariant
                self.well_formed(),
                self.sessions() == old(self).sessions(),
                self.connections() == old(self).connections(),
                self.default_connection() == old(self).default_connection(),
                !self.sessions().contains_key(id@),
                i <= inbox@.len(),
                last_offer(inbox@) == last_offer(inbox@.subrange(0, i as int)),
            decreases i,
        {
            let ghost prefix = inbox@.subrange(0, i as int);
            assert(prefix.drop_last() =~= inbox@.subrange(0, i - 1));
            assert(prefix.last() == inbox@[i - 1]);
            if let InboxMessage::CredentialOffer(m) = &inbox[i - 1] {
                assert(last_offer(prefix) == Some(*m));
                let holder = Holder::create(m.copy(), id.clone());
                self.sessions.set(id, Role::Holder(holder));
                return Ok(State::OfferReceived);
            }
            i = i - 1;
        }
        assert(inbox@.subrange(0, 0) =~= Seq::<InboxMessage>::empty());
        assert(last_offer(Seq::<InboxMessage>::empty()) is None);
        Err(IssuanceError::NotFound)
    }
}

} // verus!
