use vstd::prelude::*;
use crate::agent::{last_offer, lookup_state, sessions_progress, Lookup};
use crate::model::{Connection, InboxMessage, IssuanceError, OfferMessage, OfferView, State};
use crate::roles::{Holder, HolderPhase, Issuer, IssuerPhase};
use crate::store::{role_rank, role_state, same_role, Role};

verus! {

/// Whether a state belongs to the issuer's vocabulary.
pub open spec fn is_issuer_state(s: State) -> bool {
    s is Initial || s is OfferSent || s is RequestReceived || s is CredentialSent
}

/// Position of a state along its role's fixed order.
pub open spec fn state_order(s: State) -> nat {
    match s {
        State::Initial => 0,
        State::OfferSent => 1,
        State::RequestReceived => 2,
        State::CredentialSent => 3,
        State::OfferReceived => 0,
        State::RequestSent => 1,
        State::CredentialReceived => 2,
        State::Unknown => 0,
    }
}

/// An issuer stored after its offer was delivered is reported as offer-sent
/// by the next state query of its session.
pub proof fn lemma_offer_sent_reads_back(
    sessions: Map<Seq<char>, Role>,
    default_connection: Option<Connection>,
    id: Seq<char>,
    issuer: Issuer,
)
    requires
        issuer.spec_phase() == IssuerPhase::Initial,
    ensures
        lookup_state(
            sessions.insert(id, Role::Issuer(issuer.spec_advanced(IssuerPhase::OfferSent))),
            default_connection,
            id,
        ) == Ok::<Lookup, IssuanceError>(Lookup::Known(State::OfferSent)),
{
    issuer.lemma_advanced(IssuerPhase::OfferSent);
}

/// Progress of the session store composes over a sequence of operations.
pub proof fn lemma_progress_transitive(
    a: Map<Seq<char>, Role>,
    b: Map<Seq<char>, Role>,
    c: Map<Seq<char>, Role>,
)
    requires
        sessions_progress(a, b),
        sessions_progress(b, c),
    ensures
        sessions_progress(a, c),
{
    assert forall|k: Seq<char>| #[trigger] a.contains_key(k) implies c.contains_key(k) && same_role(
        a[k],
        c[k],
    ) && role_rank(a[k]) <= role_rank(c[k]) by {
        assert(b.contains_key(k));
    }
}

/// Once a session is stored, later state queries report a state of the same
/// role that is never earlier in that role's order.
pub proof fn lemma_reported_state_never_regresses(
    before: Map<Seq<char>, Role>,
    after: Map<Seq<char>, Role>,
    connection_before: Option<Connection>,
    connection_after: Option<Connection>,
    id: Seq<char>,
)
    requires
        sessions_progress(before, after),
        before.contains_key(id),
    ensures
        lookup_state(before, connection_before, id) matches Ok(Lookup::Known(s)) && lookup_state(
            after,
            connection_after,
            id,
        ) matches Ok(Lookup::Known(t)) && is_issuer_state(s) == is_issuer_state(t) && state_order(
            s,
        ) <= state_order(t),
{
    assert(after.contains_key(id));
    let r = before[id];
    let q = after[id];
    assert(same_role(r, q) && role_rank(r) <= role_rank(q));
    assert(state_order(role_state(r)) == role_rank(r));
    assert(state_order(role_state(q)) == role_rank(q));
}

/// A holder materialized from an inbox is reported as offer-received by the
/// next state query, which reads it back without an inbox scan.
pub proof fn lemma_adopted_reads_back(
    sessions: Map<Seq<char>, Role>,
    default_connection: Option<Connection>,
    id: Seq<char>,
    holder: Holder,
)
    requires
        holder.spec_phase() == HolderPhase::OfferReceived,
    ensures
        lookup_state(sessions.insert(id, Role::Holder(holder)), default_connection, id) == Ok::<
            Lookup,
            IssuanceError,
        >(Lookup::Known(State::OfferReceived)),
{
}

/// The offer chosen from an inbox is the most recently received one: an offer
/// followed only by other messages.
pub proof fn lemma_last_offer_is_latest(inbox: Seq<InboxMessage>, i: int, m: OfferMessage)
    requires
        0 <= i < inbox.len(),
        inbox[i] == InboxMessage::CredentialOffer(m),
        forall|j: int| i < j < inbox.len() ==> #[trigger] inbox[j] is Other,
    ensures
        last_offer(inbox) == Some(m),
    decreases inbox.len(),
{
    if i < inbox.len() - 1 {
        let rest = inbox.drop_last();
        assert(inbox.last() is Other);
        assert forall|j: int| i < j < rest.len() implies #[trigger] rest[j] is Other by {
            assert(rest[j] == inbox[j]);
        }
        lemma_last_offer_is_latest(rest, i, m);
    }
}

/// An offer message delivered last reaches the peer's holder with its content
/// unchanged: the definition reference, the preview and the connection id.
pub proof fn lemma_offer_content_reaches_holder(
    offer: OfferView,
    message: OfferMessage,
    earlier: Seq<InboxMessage>,
)
    requires
        message.offer@ == offer,
    ensures
        last_offer(earlier.push(InboxMessage::CredentialOffer(message))) matches Some(m) && m.offer@
            == offer,
{
    assert(earlier.push(InboxMessage::CredentialOffer(message)).last() == InboxMessage::CredentialOffer(
        message,
    ));
}

} // verus!
