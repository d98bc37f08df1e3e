use vstd::prelude::*;
use crate::model::{
    preview_well_formed, CredentialOffer, CredentialPreview, IssuanceError, OfferMessage, OfferView,
    Outbound, PreviewView, RequestMessage, State,
};

verus! {

/// Issuer protocol states, in their fixed forward order.
#[derive(PartialEq, Eq, Structural, Clone, Copy, Debug)]
pub enum IssuerPhase {
    Initial,
    OfferSent,
    RequestReceived,
    CredentialSent,
}

/// Holder protocol states, in their fixed forward order.
#[derive(PartialEq, Eq, Structural, Clone, Copy, Debug)]
pub enum HolderPhase {
    OfferReceived,
    RequestSent,
    CredentialReceived,
}

pub open spec fn issuer_rank(p: IssuerPhase) -> nat {
    match p {
        IssuerPhase::Initial => 0,
        IssuerPhase::OfferSent => 1,
        IssuerPhase::RequestReceived => 2,
        IssuerPhase::CredentialSent => 3,
    }
}

pub open spec fn holder_rank(p: HolderPhase) -> nat {
    match p {
        HolderPhase::OfferReceived => 0,
        HolderPhase::RequestSent => 1,
        HolderPhase::CredentialReceived => 2,
    }
}

pub open spec fn issuer_external(p: IssuerPhase) -> State {
    match p {
        IssuerPhase::Initial => State::Initial,
        IssuerPhase::OfferSent => State::OfferSent,
        IssuerPhase::RequestReceived => State::RequestReceived,
        IssuerPhase::CredentialSent => State::CredentialSent,
    }
}

pub open spec fn holder_external(p: HolderPhase) -> State {
    match p {
        HolderPhase::OfferReceived => State::OfferReceived,
        HolderPhase::RequestSent => State::RequestSent,
        HolderPhase::CredentialReceived => State::CredentialReceived,
    }
}

/// The later of two issuer phases: a transition never moves backward.
pub open spec fn issuer_later(a: IssuerPhase, b: IssuerPhase) -> IssuerPhase {
    if issuer_rank(a) >= issuer_rank(b) { a } else { b }
}

pub open spec fn holder_later(a: HolderPhase, b: HolderPhase) -> HolderPhase {
    if holder_rank(a) >= holder_rank(b) { a } else { b }
}

/// The issuer side of one issuance exchange.
pub struct Issuer {
    pub(crate) cred_def_id: String,
    pub(crate) rev_reg_id: Option<String>,
    pub(crate) tails_file: Option<String>,
    pub(crate) preview: CredentialPreview,
    pub(crate) thread_id: String,
    pub(crate) phase: IssuerPhase,
}

/// The holder side of one issuance exchange.
pub struct Holder {
    pub(crate) offer: OfferMessage,
    pub(crate) thread_id: String,
    pub(crate) phase: HolderPhase,
}

/// What an issuer is built from.
pub struct IssuerConfig {
    pub cred_def_id: String,
    pub rev_reg_id: Option<String>,
    pub tails_file: Option<String>,
}

/// Checks a preview for empty or repeated attribute names.
pub fn preview_is_well_formed(p: &CredentialPreview) -> (r: bool)
    ensures
        r == preview_well_formed(p@),
{
    let n = p.attributes.len();
    let ghost v = p@.attributes;
    for i in 0..n
        invariant
            n == p.attributes@.len(),
            v == p@.attributes,
            forall|a: int| 0 <= a < i ==> #[trigger] v[a].0.len() > 0,
            forall|a: int, b: int| 0 <= a < b < n && a < i ==> #[trigger] v[a].0 != #[trigger] v[b].0,
    {
        if p.attributes[i].name.as_str().is_empty() {
            assert(v[i as int].0.len() == 0);
            return false;
        }
        for j in i + 1..n
            invariant
                n == p.attributes@.len(),
                v == p@.attributes,
                i < n,
                forall|a: int| 0 <= a <= i ==> #[trigger] v[a].0.len() > 0,
                forall|a: int, b: int| 0 <= a < b < n && a < i ==> #[trigger] v[a].0 != #[trigger] v[b].0,
                forall|b: int| i < b < j ==> v[i as int].0 != #[trigger] v[b].0,
        {
            if p.attributes[i].name == p.attributes[j].name {
                assert(v[i as int].0 == v[j as int].0);
                return false;
            }
        }
    }
    true
}

impl Issuer {
    pub closed spec fn spec_phase(&self) -> IssuerPhase {
        self.phase
    }

    pub closed spec fn spec_cred_def_id(&self) -> Seq<char> {
        self.cred_def_id@
    }

    pub closed spec fn spec_preview(&self) -> PreviewView {
        self.preview@
    }

    pub closed spec fn spec_thread_id(&self) -> Seq<char> {
        self.thread_id@
    }

    /// The same issuer, moved forward to `to` unless it already stands later.
    pub closed spec fn spec_advanced(&self, to: IssuerPhase) -> Issuer {
        Issuer { phase: issuer_later(self.phase, to), ..*self }
    }

    /// Moving forward keeps everything but the phase.
    pub proof fn lemma_advanced(&self, to: IssuerPhase)
        ensures
            self.spec_advanced(to).spec_phase() == issuer_later(self.spec_phase(), to),
            self.spec_advanced(to).spec_cred_def_id() == self.spec_cred_def_id(),
            self.spec_advanced(to).spec_preview() == self.spec_preview(),
            self.spec_advanced(to).spec_thread_id() == self.spec_thread_id(),
    {
    }

    /// Builds an issuer in its initial state, bound to a credential definition
    /// and a preview.
    pub fn create(config: IssuerConfig, preview: CredentialPreview, thread_id: String) -> (r: Result<Issuer, IssuanceError>)
        ensures
            r is Err <==> !(config.cred_def_id@.len() > 0 && preview_well_formed(preview@)),
            r is Err ==> r == Err::<Issuer, IssuanceError>(IssuanceError::Configuration),
            r matches Ok(i) ==> {
                &&& i.spec_phase() == IssuerPhase::Initial
                &&& i.spec_cred_def_id() == config.cred_def_id@
                &&& i.spec_preview() == preview@
                &&& i.spec_thread_id() == thread_id@
            },
    {
        if config.cred_def_id.as_str().is_empty() || !preview_is_well_formed(&preview) {
            return Err(IssuanceError::Configuration);
        }
        Ok(Issuer {
            cred_def_id: config.cred_def_id,
            rev_reg_id: config.rev_reg_id,
            tails_file: config.tails_file,
            preview,
            thread_id,
            phase: IssuerPhase::Initial,
        })
    }

    /// The offer message this issuer sends on the connection `connection_id`.
    pub fn offer_message(&self, connection_id: &String) -> (r: OfferMessage)
        ensures
            r.thread_id@ == self.spec_thread_id(),
            r.offer@.cred_def_id == self.spec_cred_def_id(),
            r.offer@.preview == self.spec_preview(),
            r.offer@.connection_id == connection_id@,
    {
        OfferMessage {
            thread_id: self.thread_id.clone(),
            offer: CredentialOffer {
                cred_def_id: self.cred_def_id.clone(),
                credential_preview: self.preview.copy(),
                connection_id: connection_id.clone(),
            },
        }
    }

    /// Moves the issuer forward to `to`; a phase it has passed is kept.
    pub fn advance(&mut self, to: IssuerPhase)
        ensures
            *final(self) == old(self).spec_advanced(to),
            final(self).spec_phase() == issuer_later(old(self).spec_phase(), to),
    {
        if issuer_rank_of(self.phase) < issuer_rank_of(to) {
            self.phase = to;
        }
    }

    pub fn current_state(&self) -> (r: State)
        ensures
            r == issuer_external(self.spec_phase()),
    {
        match self.phase {
            IssuerPhase::Initial => State::Initial,
            IssuerPhase::OfferSent => State::OfferSent,
            IssuerPhase::RequestReceived => State::RequestReceived,
            IssuerPhase::CredentialSent => State::CredentialSent,
        }
    }
}

fn issuer_rank_of(p: IssuerPhase) -> (r: u8)
    ensures
        r as nat == issuer_rank(p),
{
    match p {
        IssuerPhase::Initial => 0,
        IssuerPhase::OfferSent => 1,
        IssuerPhase::RequestReceived => 2,
        IssuerPhase::CredentialSent => 3,
    }
}

fn holder_rank_of(p: HolderPhase) -> (r: u8)
    ensures
        r as nat == holder_rank(p),
{
    match p {
        HolderPhase::OfferReceived => 0,
        HolderPhase::RequestSent => 1,
        HolderPhase::CredentialReceived => 2,
    }
}

impl Holder {
    pub closed spec fn spec_phase(&self) -> HolderPhase {
        self.phase
    }

    pub closed spec fn spec_offer(&self) -> OfferView {
        self.offer.offer@
    }

    pub closed spec fn spec_offer_thread(&self) -> Seq<char> {
        self.offer.thread_id@
    }

    pub closed spec fn spec_thread_id(&self) -> Seq<char> {
        self.thread_id@
    }

    pub closed spec fn spec_advanced(&self, to: HolderPhase) -> Holder {
        Holder { phase: holder_later(self.phase, to), ..*self }
    }

    pub fn copy(&self) -> (r: Holder)
        ensures
            r.spec_phase() == self.spec_phase(),
            r.spec_offer() == self.spec_offer(),
            r.spec_offer_thread() == self.spec_offer_thread(),
            r.spec_thread_id() == self.spec_thread_id(),
    {
        Holder { offer: self.offer.copy(), thread_id: self.thread_id.clone(), phase: self.phase }
    }

    /// Builds a holder for a received offer; it starts with the offer received.
    pub fn create(offer: OfferMessage, thread_id: String) -> (r: Holder)
        ensures
            r.spec_phase() == HolderPhase::OfferReceived,
            r.spec_offer() == offer.offer@,
            r.spec_offer_thread() == offer.thread_id@,
            r.spec_thread_id() == thread_id@,
    {
        Holder { offer, thread_id, phase: HolderPhase::OfferReceived }
    }

    /// What the holder sends to request the credential as `requester_did`: a
    /// request naming the offer's credential definition, or a problem report
    /// when the offer names none.
    pub fn request_message(&self, requester_did: &String) -> (r: Outbound)
        ensures
            self.spec_offer().cred_def_id.len() == 0 ==> (r matches Outbound::ProblemReport {
                thread_id,
            } && thread_id@ == self.spec_thread_id()),
            self.spec_offer().cred_def_id.len() > 0 ==> (r matches Outbound::Request(m) && m.thread_id@
                == self.spec_thread_id() && m.cred_def_id@ == self.spec_offer().cred_def_id
                && m.requester_did@ == requester_did@),
    {
        if self.offer.offer.cred_def_id.as_str().is_empty() {
            Outbound::ProblemReport { thread_id: self.thread_id.clone() }
        } else {
            Outbound::Request(
                RequestMessage {
                    thread_id: self.thread_id.clone(),
                    cred_def_id: self.offer.offer.cred_def_id.clone(),
                    requester_did: requester_did.clone(),
                },
            )
        }
    }

    /// Moves the holder forward to `to`; a phase it has passed is kept.
    pub fn advance(&mut self, to: HolderPhase)
        ensures
            *final(self) == old(self).spec_advanced(to),
            final(self).spec_phase() == holder_later(old(self).spec_phase(), to),
            final(self).spec_offer() == old(self).spec_offer(),
            final(self).spec_offer_thread() == old(self).spec_offer_thread(),
            final(self).spec_thread_id() == old(self).spec_thread_id(),
    {
        if holder_rank_of(self.phase) < holder_rank_of(to) {
            self.phase = to;
        }
    }

    pub fn current_state(&self) -> (r: State)
        ensures
            r == holder_external(self.spec_phase()),
    {
        match self.phase {
            HolderPhase::OfferReceived => State::OfferReceived,
            HolderPhase::RequestSent => State::RequestSent,
            HolderPhase::CredentialReceived => State::CredentialReceived,
        }
    }
}

} // verus!
