//! The startup handshake pipeline: connect to the discovery service,
//! negotiate protocol compatibility, then register this instance — in that
//! order, each step short-circuiting the rest on failure. The pipeline
//! itself performs no network activity: the caller carries out the pending
//! action of each phase and feeds the outcome back as an event.

use vstd::prelude::*;

use crate::HandshakeError;
use crate::config::{endpoint_of_parts, url_host_port, EndpointAddress};
use crate::versions_compatible;
use crate::check_version;
use crate::config::endpoint_from_url;

verus! {

/// The role a service instance announces during registration.
/// This library always registers as the gateway.
#[derive(Clone, Copy, Debug, PartialEq, Eq, Structural)]
pub enum ServiceKind {
    Gateway,
}

/// The (role, address) pair announced to the discovery service. Created
/// once at startup from configuration; immutable thereafter.
pub struct ServiceDescriptor {
    pub kind: ServiceKind,
    pub address: EndpointAddress,
}

impl ServiceDescriptor {
    pub open spec fn wf(self) -> bool {
        self.address.wf()
    }
}

/// The registration payload: role tag, host and port of this instance.
pub struct RegisterRequest {
    pub kind: ServiceKind,
    pub address: String,
    pub port: u32,
}

/// Where the handshake stands. The pipeline is strictly linear: each phase
/// is left only by the outcome of its own pending action, and the two
/// terminal phases are never left at all.
#[derive(Clone, Copy, Debug, PartialEq, Eq, Structural)]
pub enum Phase {
    /// Nothing has happened yet; the connection is still to be opened.
    Start,
    /// The transport session is open; the version identifier is to be sent.
    Connected,
    /// The remote identifier matched; registration is to be submitted.
    Negotiated,
    /// The discovery service acknowledged the registration.
    Registered,
    /// A step failed; the whole handshake is abandoned.
    Failed(HandshakeError),
}

/// The outcome of the network action a phase was waiting for.
pub enum Event {
    /// The transport session to the discovery service was opened.
    ConnectSucceeded,
    /// The discovery address was unreachable or malformed.
    ConnectFailed,
    /// The discovery service answered the version call with its own
    /// identifier.
    VersionReply(String),
    /// The version call itself failed at the transport layer.
    VersionRpcFailed,
    /// The discovery service acknowledged the registration call.
    RegisterAcknowledged,
    /// The discovery service rejected or failed the registration call.
    RegisterFailed,
}

/// What the caller must do next in a given phase.
#[derive(Clone, Copy, Debug, PartialEq, Eq, Structural)]
pub enum Action {
    /// Open the transport session to the discovery service.
    Connect,
    /// Send the local version identifier and await the remote one.
    SendVersion,
    /// Submit the registration request.
    Register,
    /// The handshake is done; hand the client handle to the shared context.
    Complete,
    /// The handshake failed with the given error; abort startup.
    Abort(HandshakeError),
}

/// One transition of the pipeline: the phase reached when `ev` arrives in
/// phase `p` with local version identifier `local`. An event that does not
/// answer the phase's pending action leaves the phase unchanged; the
/// terminal phases absorb every event.
pub open spec fn step_spec(p: Phase, local: Seq<char>, ev: Event) -> Phase {
    match p {
        Phase::Start => match ev {
            Event::ConnectSucceeded => Phase::Connected,
            Event::ConnectFailed => Phase::Failed(HandshakeError::ConnectionError),
            _ => p,
        },
        Phase::Connected => match ev {
            Event::VersionReply(v) => if versions_compatible(local, v@) {
                Phase::Negotiated
            } else {
                Phase::Failed(HandshakeError::VersionMismatchError)
            },
            Event::VersionRpcFailed => Phase::Failed(HandshakeError::ConnectionError),
            _ => p,
        },
        Phase::Negotiated => match ev {
            Event::RegisterAcknowledged => Phase::Registered,
            Event::RegisterFailed => Phase::Failed(HandshakeError::RegistrationError),
            _ => p,
        },
        Phase::Registered => p,
        Phase::Failed(_) => p,
    }
}

/// The phase reached from `p` after the whole event sequence `evs`.
pub open spec fn run_spec(p: Phase, local: Seq<char>, evs: Seq<Event>) -> Phase
    decreases evs.len(),
{
    if evs.len() == 0 {
        p
    } else {
        run_spec(step_spec(p, local, evs[0]), local, evs.drop_first())
    }
}

/// The pending action of each phase.
pub open spec fn action_spec(p: Phase) -> Action {
    match p {
        Phase::Start => Action::Connect,
        Phase::Connected => Action::SendVersion,
        Phase::Negotiated => Action::Register,
        Phase::Registered => Action::Complete,
        Phase::Failed(e) => Action::Abort(e),
    }
}

/// A phase the pipeline never leaves: success or failure.
pub open spec fn is_terminal(p: Phase) -> bool {
    p == Phase::Registered || p matches Phase::Failed(_)
}

/// Negotiation succeeds — the pipeline moves from Connected to Negotiated —
/// exactly when the remote identifier equals the local one byte for byte;
/// any difference, however small, fails the handshake with a version
/// mismatch.
pub proof fn lemma_negotiation_exact(local: Seq<char>, reply: Event)
    requires
        reply matches Event::VersionReply(_),
    ensures
        reply matches Event::VersionReply(v) ==> {
            &&& (step_spec(Phase::Connected, local, reply) == Phase::Negotiated <==> v@ == local)
            &&& (v@ != local ==> step_spec(Phase::Connected, local, reply) == Phase::Failed(
                HandshakeError::VersionMismatchError,
            ))
        },
{
}

/// Failure is terminal: once the pipeline has failed, every later event —
/// and hence every later event sequence — leaves it in the same failure.
pub proof fn lemma_failure_is_terminal(e: HandshakeError, local: Seq<char>, evs: Seq<Event>)
    ensures
        run_spec(Phase::Failed(e), local, evs) == Phase::Failed(e),
    decreases evs.len(),
{
    if evs.len() > 0 {
        lemma_failure_is_terminal(e, local, evs.drop_first());
    }
}

/// Registration is never attempted after a failed negotiation: when the
/// version reply differs from the local identifier, every state the
/// pipeline passes through afterwards is the version-mismatch failure,
/// whose pending action is to abort — never to register.
pub proof fn lemma_mismatch_blocks_registration(local: Seq<char>, reply: Event, evs: Seq<Event>)
    requires
        reply matches Event::VersionReply(v) && v@ != local,
    ensures
        forall|i: int|
            0 <= i <= evs.len() ==> run_spec(
                step_spec(Phase::Connected, local, reply),
                local,
                #[trigger] evs.take(i),
            ) == Phase::Failed(HandshakeError::VersionMismatchError),
        forall|i: int|
            0 <= i <= evs.len() ==> action_spec(
                run_spec(step_spec(Phase::Connected, local, reply), local, #[trigger] evs.take(i)),
            ) != Action::Register,
{
    assert(step_spec(Phase::Connected, local, reply) == Phase::Failed(
        HandshakeError::VersionMismatchError,
    ));
    assert forall|i: int| 0 <= i <= evs.len() implies run_spec(
        step_spec(Phase::Connected, local, reply),
        local,
        #[trigger] evs.take(i),
    ) == Phase::Failed(HandshakeError::VersionMismatchError) by {
        lemma_failure_is_terminal(HandshakeError::VersionMismatchError, local, evs.take(i));
    }
}

/// Whether some event of the sequence is a version reply byte-identical to
/// the local identifier.
pub open spec fn has_matching_reply(local: Seq<char>, evs: Seq<Event>) -> bool
    decreases evs.len(),
{
    if evs.len() == 0 {
        false
    } else {
        (evs[0] matches Event::VersionReply(v) && v@ == local) || has_matching_reply(
            local,
            evs.drop_first(),
        )
    }
}

/// Only a successful negotiation lets the pipeline past the version gate:
/// every trace from the start that ends Negotiated or Registered contains a
/// version reply byte-identical to the local identifier. An incompatible
/// gateway therefore never reaches the phase whose pending action is to
/// register.
pub proof fn lemma_version_gate(local: Seq<char>, evs: Seq<Event>)
    requires
        run_spec(Phase::Start, local, evs) == Phase::Registered || run_spec(
            Phase::Start,
            local,
            evs,
        ) == Phase::Negotiated,
    ensures
        has_matching_reply(local, evs),
{
    lemma_version_gate_from(Phase::Start, local, evs);
}

/// The induction behind `lemma_version_gate`, stated for every phase from
/// which the pipeline has not yet negotiated.
proof fn lemma_version_gate_from(p: Phase, local: Seq<char>, evs: Seq<Event>)
    requires
        p == Phase::Start || p == Phase::Connected || p matches Phase::Failed(_),
        run_spec(p, local, evs) == Phase::Registered || run_spec(p, local, evs)
            == Phase::Negotiated,
    ensures
        has_matching_reply(local, evs),
    decreases evs.len(),
{
    match p {
        Phase::Failed(e) => {
            lemma_failure_is_terminal(e, local, evs);
        },
        _ => {
            let next = step_spec(p, local, evs[0]);
            if p == Phase::Connected && (evs[0] matches Event::VersionReply(v) && v@ == local) {
                // This event is the matching reply.
            } else {
                assert(next == Phase::Start || next == Phase::Connected
                    || next matches Phase::Failed(_));
                lemma_version_gate_from(next, local, evs.drop_first());
            }
        },
    }
}

/// A failed connection aborts the whole handshake: every state the pipeline
/// passes through afterwards is the connection failure, so it never reaches
/// Registered and a registered client handle is never produced.
pub proof fn lemma_connect_failure_blocks_handshake(local: Seq<char>, evs: Seq<Event>)
    ensures
        forall|i: int|
            0 <= i <= evs.len() ==> run_spec(
                step_spec(Phase::Start, local, Event::ConnectFailed),
                local,
                #[trigger] evs.take(i),
            ) == Phase::Failed(HandshakeError::ConnectionError),
        forall|i: int|
            0 <= i <= evs.len() ==> run_spec(
                step_spec(Phase::Start, local, Event::ConnectFailed),
                local,
                #[trigger] evs.take(i),
            ) != Phase::Registered,
{
    assert forall|i: int| 0 <= i <= evs.len() implies run_spec(
        step_spec(Phase::Start, local, Event::ConnectFailed),
        local,
        #[trigger] evs.take(i),
    ) == Phase::Failed(HandshakeError::ConnectionError) by {
        lemma_failure_is_terminal(HandshakeError::ConnectionError, local, evs.take(i));
    }
}

/// The happy path: a successful connection, a byte-identical version reply
/// and a registration acknowledgment, in that order, drive the pipeline
/// from Start to Registered.
pub proof fn lemma_successful_handshake(local: Seq<char>, reply: Event)
    requires
        reply matches Event::VersionReply(v) && v@ == local,
    ensures
        run_spec(
            Phase::Start,
            local,
            seq![Event::ConnectSucceeded, reply, Event::RegisterAcknowledged],
        ) == Phase::Registered,
{
    let evs = seq![Event::ConnectSucceeded, reply, Event::RegisterAcknowledged];
    let evs1 = evs.drop_first();
    let evs2 = evs1.drop_first();
    let evs3 = evs2.drop_first();
    assert(evs[0] == Event::ConnectSucceeded);
    assert(evs1 =~= seq![reply, Event::RegisterAcknowledged]);
    assert(evs2 =~= seq![Event::RegisterAcknowledged]);
    assert(evs3.len() == 0);
    assert(run_spec(Phase::Registered, local, evs3) == Phase::Registered);
    assert(run_spec(Phase::Negotiated, local, evs2) == Phase::Registered);
    assert(run_spec(Phase::Connected, local, evs1) == Phase::Registered);
}

/// The live client handle returned after successful registration. It can
/// only be produced by a handshake that reached the Registered phase, so
/// holding one witnesses a completed handshake.
pub struct RegisteredClient {
    descriptor: ServiceDescriptor,
}

impl RegisteredClient {
    /// The descriptor under which this instance was registered.
    pub closed spec fn descriptor(self) -> ServiceDescriptor {
        self.descriptor
    }

    pub open spec fn wf(self) -> bool {
        self.descriptor().wf()
    }

    /// Read access to the descriptor under which this instance was
    /// registered.
    pub fn descriptor_ref(&self) -> (d: &ServiceDescriptor)
        ensures
            *d == self.descriptor(),
    {
        &self.descriptor
    }
}

/// The handshake pipeline. Construction validates the configuration; the
/// caller then alternates between asking for the pending action, carrying
/// it out, and feeding the outcome back through `step`.
pub struct Handshake {
    phase: Phase,
    local_version: String,
    descriptor: ServiceDescriptor,
}

impl Handshake {
    /// Where the pipeline stands.
    pub closed spec fn phase(self) -> Phase {
        self.phase
    }

    /// The version identifier this instance negotiates with.
    pub closed spec fn local_version(self) -> Seq<char> {
        self.local_version@
    }

    /// The descriptor this instance announces during registration.
    pub closed spec fn descriptor(self) -> ServiceDescriptor {
        self.descriptor
    }

    pub open spec fn wf(self) -> bool {
        self.descriptor().wf()
    }

    /// Builds the pipeline from the local version identifier and the
    /// gateway's own externally reachable URL. The URL must carry a
    /// non-empty host and an explicit port; otherwise startup fails with a
    /// configuration error before any network call is made.
    pub fn new(local_version: String, gateway_url: &str) -> (r: Result<Handshake, HandshakeError>)
        ensures
            match r {
                Ok(h) => {
                    &&& endpoint_of_parts(url_host_port(gateway_url@)) == Some(
                        (h.descriptor().address.host@, h.descriptor().address.port),
                    )
                    &&& h.phase() == Phase::Start
                    &&& h.local_version() == local_version@
                    &&& h.descriptor().kind == ServiceKind::Gateway
                    &&& h.wf()
                },
                Err(e) => {
                    &&& endpoint_of_parts(url_host_port(gateway_url@)) is None
                    &&& e == HandshakeError::ConfigurationError
                },
            },
    {
        let address = match endpoint_from_url(gateway_url) {
            Ok(a) => a,
            Err(e) => {
                return Err(e);
            },
        };
        Ok(
            Handshake {
                phase: Phase::Start,
                local_version,
                descriptor: ServiceDescriptor { kind: ServiceKind::Gateway, address },
            },
        )
    }

    /// The action the caller must carry out next.
    pub fn next_action(&self) -> (a: Action)
        ensures
            a == action_spec(self.phase()),
    {
        match self.phase {
            Phase::Start => Action::Connect,
            Phase::Connected => Action::SendVersion,
            Phase::Negotiated => Action::Register,
            Phase::Registered => Action::Complete,
            Phase::Failed(e) => Action::Abort(e),
        }
    }

    /// Feeds the outcome of the pending action back into the pipeline.
    /// The phase advances exactly as `step_spec` says; the version
    /// identifier and the descriptor never change.
    pub fn step(&mut self, ev: Event)
        ensures
            final(self).phase() == step_spec(old(self).phase(), old(self).local_version(), ev),
            final(self).local_version() == old(self).local_version(),
            final(self).descriptor() == old(self).descriptor(),
    {
        let next: Phase = match (self.phase, ev) {
            (Phase::Start, Event::ConnectSucceeded) => Phase::Connected,
            (Phase::Start, Event::ConnectFailed) => Phase::Failed(HandshakeError::ConnectionError),
            (Phase::Connected, Event::VersionReply(v)) => {
                if check_version(&self.local_version, &v) {
                    Phase::Negotiated
                } else {
                    Phase::Failed(HandshakeError::VersionMismatchError)
                }
            },
            (Phase::Connected, Event::VersionRpcFailed) => Phase::Failed(
                HandshakeError::ConnectionError,
            ),
            (Phase::Negotiated, Event::RegisterAcknowledged) => Phase::Registered,
            (Phase::Negotiated, Event::RegisterFailed) => Phase::Failed(
                HandshakeError::RegistrationError,
            ),
            (p, _) => p,
        };
        self.phase = next;
    }

    /// The version identifier to send to the discovery service: available
    /// exactly while the pipeline waits for the version round trip.
    pub fn version_request(&self) -> (r: Option<String>)
        ensures
            self.phase() == Phase::Connected ==> (r matches Some(v) && v@ == self.local_version()),
            self.phase() != Phase::Connected ==> r is None,
    {
        match self.phase {
            Phase::Connected => Some(self.local_version.clone()),
            _ => None,
        }
    }

    /// The registration payload: available exactly after negotiation has
    /// succeeded, and never before — an incompatible gateway must never
    /// appear in the discovery service's routing table.
    pub fn register_request(&self) -> (r: Option<RegisterRequest>)
        ensures
            self.phase() == Phase::Negotiated ==> (r matches Some(q) && {
                &&& q.kind == self.descriptor().kind
                &&& q.address@ == self.descriptor().address.host@
                &&& q.port == self.descriptor().address.port as u32
            }),
            self.phase() != Phase::Negotiated ==> r is None,
    {
        match self.phase {
            Phase::Negotiated => Some(
                RegisterRequest {
                    kind: self.descriptor.kind,
                    address: self.descriptor.address.host.clone(),
                    port: self.descriptor.address.port as u32,
                },
            ),
            _ => None,
        }
    }

    /// Consumes a finished pipeline. A handshake that reached Registered
    /// yields the client handle under the announced descriptor; a failed
    /// one yields its error.
    pub fn complete(self) -> (r: Result<RegisteredClient, HandshakeError>)
        requires
            is_terminal(self.phase()),
        ensures
            self.phase() == Phase::Registered ==> (r matches Ok(c) && c.descriptor()
                == self.descriptor() && c.wf() == self.wf()),
            self.phase() matches Phase::Failed(e) ==> r == Err::<
                RegisteredClient,
                HandshakeError,
            >(e),
    {
        match self.phase {
            Phase::Registered => Ok(RegisteredClient { descriptor: self.descriptor }),
            Phase::Failed(e) => Err(e),
            // Excluded by the precondition: only terminal phases reach here.
            _ => Err(HandshakeError::ConnectionError),
        }
    }
}

} // verus!
