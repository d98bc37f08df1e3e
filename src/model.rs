use vstd::prelude::*;

verus! {

/// The externally reported vocabulary of session states, for both roles.
#[derive(PartialEq, Eq, Structural, Clone, Copy, Debug)]
pub enum State {
    Initial,
    OfferSent,
    RequestReceived,
    CredentialSent,
    OfferReceived,
    RequestSent,
    CredentialReceived,
    Unknown,
}

/// The name under which a state is reported to callers.
pub open spec fn state_name(s: State) -> Seq<char> {
    match s {
        State::Initial => "initial"@,
        State::OfferSent => "offer-sent"@,
        State::RequestReceived => "request-received"@,
        State::CredentialSent => "credential-sent"@,
        State::OfferReceived => "offer-received"@,
        State::RequestSent => "request-sent"@,
        State::CredentialReceived => "credential-received"@,
        State::Unknown => "unknown"@,
    }
}

impl State {
    pub fn as_str(&self) -> (r: &'static str)
        ensures
            r@ == state_name(*self),
    {
        match self {
            State::Initial => "initial",
            State::OfferSent => "offer-sent",
            State::RequestReceived => "request-received",
            State::CredentialSent => "credential-sent",
            State::OfferReceived => "offer-received",
            State::RequestSent => "request-sent",
            State::CredentialReceived => "credential-received",
            State::Unknown => "unknown",
        }
    }
}

/// The kinds of failure an issuance operation reports.
#[derive(PartialEq, Eq, Structural, Clone, Copy, Debug)]
pub enum IssuanceError {
    /// A referenced connection or session is absent.
    NotFound,
    /// Required ambient state is missing, e.g. no default connection.
    Internal,
    /// The credential-definition reference or the preview is malformed.
    Configuration,
    /// Sending or receiving through the connection failed.
    Transport,
    /// The peer was told of a protocol violation by a problem report.
    Protocol,
}

/// One attribute of a credential preview.
pub struct PreviewAttribute {
    pub name: String,
    pub value: String,
}

/// The attributes proposed by an issuer, tagged with a preview type.
pub struct CredentialPreview {
    pub msg_type: String,
    pub attributes: Vec<PreviewAttribute>,
}

/// What a caller asks an issuer to offer.
pub struct CredentialOffer {
    pub cred_def_id: String,
    pub credential_preview: CredentialPreview,
    pub connection_id: String,
}

pub struct PreviewView {
    pub msg_type: Seq<char>,
    pub attributes: Seq<(Seq<char>, Seq<char>)>,
}

pub struct OfferView {
    pub cred_def_id: Seq<char>,
    pub preview: PreviewView,
    pub connection_id: Seq<char>,
}

impl View for PreviewAttribute {
    type V = (Seq<char>, Seq<char>);

    open spec fn view(&self) -> (Seq<char>, Seq<char>) {
        (self.name@, self.value@)
    }
}

impl View for CredentialPreview {
    type V = PreviewView;

    open spec fn view(&self) -> PreviewView {
        PreviewView {
            msg_type: self.msg_type@,
            attributes: self.attributes@.map_values(|a: PreviewAttribute| a@),
        }
    }
}

impl View for CredentialOffer {
    type V = OfferView;

    open spec fn view(&self) -> OfferView {
        OfferView {
            cred_def_id: self.cred_def_id@,
            preview: self.credential_preview@,
            connection_id: self.connection_id@,
        }
    }
}

impl PreviewAttribute {
    pub fn copy(&self) -> (r: PreviewAttribute)
        ensures
            r@ == self@,
    {
        PreviewAttribute { name: self.name.clone(), value: self.value.clone() }
    }
}

impl CredentialPreview {
    pub fn copy(&self) -> (r: CredentialPreview)
        ensures
            r@ == self@,
    {
        let mut attributes: Vec<PreviewAttribute> = Vec::new();
        let n = self.attributes.len();
        for i in 0..n
            invariant
                n == self.attributes@.len(),
                attributes@.len() == i,
                forall|j: int| 0 <= j < i ==> #[trigger] attributes@[j]@ == self.attributes@[j]@,
        {
            attributes.push(self.attributes[i].copy());
        }
        let r = CredentialPreview { msg_type: self.msg_type.clone(), attributes };
        assert(r@.attributes =~= self@.attributes);
        r
    }
}

impl CredentialOffer {
    pub fn copy(&self) -> (r: CredentialOffer)
        ensures
            r@ == self@,
    {
        CredentialOffer {
            cred_def_id: self.cred_def_id.clone(),
            credential_preview: self.credential_preview.copy(),
            connection_id: self.connection_id.clone(),
        }
    }
}

/// A preview is well formed when every attribute has a non-empty name and
/// no two attributes share a name.
pub open spec fn preview_well_formed(p: PreviewView) -> bool {
    &&& forall|i: int| 0 <= i < p.attributes.len() ==> #[trigger] p.attributes[i].0.len() > 0
    &&& forall|i: int, j: int|
        0 <= i < j < p.attributes.len() ==> #[trigger] p.attributes[i].0 != #[trigger] p.attributes[j].0
}

/// An offer can back an issuer when it names a credential definition and its
/// preview is well formed.
pub open spec fn offer_well_formed(o: OfferView) -> bool {
    o.cred_def_id.len() > 0 && preview_well_formed(o.preview)
}

/// A previously established secure channel: its id and the identifier this
/// agent uses on it.
pub struct Connection {
    pub id: String,
    pub local_did: String,
}

impl Connection {
    pub fn copy(&self) -> (r: Connection)
        ensures
            r == *self,
    {
        Connection { id: self.id.clone(), local_did: self.local_did.clone() }
    }
}

/// The credential-offer message an issuer sends on a connection.
pub struct OfferMessage {
    pub thread_id: String,
    pub offer: CredentialOffer,
}

impl OfferMessage {
    pub fn copy(&self) -> (r: OfferMessage)
        ensures
            r.thread_id == self.thread_id,
            r.offer@ == self.offer@,
    {
        OfferMessage { thread_id: self.thread_id.clone(), offer: self.offer.copy() }
    }
}

/// A message found in a connection's inbox.
pub enum InboxMessage {
    CredentialOffer(OfferMessage),
    Other,
}

/// The credential request a holder sends in reply to an offer.
pub struct RequestMessage {
    pub thread_id: String,
    pub cred_def_id: String,
    pub requester_did: String,
}

/// What a holder sends on a connection when asked to request a credential.
pub enum Outbound {
    Request(RequestMessage),
    /// A problem report, sent when the offer does not name a credential
    /// definition.
    ProblemReport { thread_id: String },
}

} // verus!
