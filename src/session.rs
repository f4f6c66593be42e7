use vstd::prelude::*;
use crate::endpoint::{
    PartialEndpointId, agent_part, is_singleton, node_part, opt_str_view, same_text,
};

verus! {

/// Characters in the hyphenated text form of a UUID.
pub const UUID_TEXT_LEN: usize = 36;

/// Why a session stopped. The first four are configuration errors found
/// before any network traffic; the rest come from the transport or from the
/// local input and output streams.
#[derive(Debug, Clone)]
pub enum Failure {
    MissingNodeId,
    MissingAgentId,
    NonSingletonSource,
    NonSingletonListen,
    /// An explicit node id differs from the one the daemon advertises (held here).
    NodeMismatch(String),
    Connect,
    Handshake,
    Register,
    ReadInput,
    SendBundle,
    ReceiveBundle,
    WriteOutput,
}

/// The process exit status of each failure; `None` for the two missing-part
/// errors, which leave through the argument parser's own usage error.
pub open spec fn exit_code_of(f: Failure) -> Option<i32> {
    match f {
        Failure::MissingNodeId => None,
        Failure::MissingAgentId => None,
        Failure::NonSingletonSource => Some(1),
        Failure::NonSingletonListen => Some(1),
        Failure::NodeMismatch(_) => Some(2),
        Failure::Connect => Some(10),
        Failure::Handshake => Some(11),
        Failure::Register => Some(11),
        Failure::ReadInput => Some(13),
        Failure::SendBundle => Some(14),
        Failure::ReceiveBundle => Some(15),
        Failure::WriteOutput => Some(16),
    }
}

impl Failure {
    pub fn exit_code(&self) -> (r: Option<i32>)
        ensures
            r == exit_code_of(*self),
    {
        match self {
            Failure::MissingNodeId => None,
            Failure::MissingAgentId => None,
            Failure::NonSingletonSource => Some(1),
            Failure::NonSingletonListen => Some(1),
            Failure::NodeMismatch(_) => Some(2),
            Failure::Connect => Some(10),
            Failure::Handshake => Some(11),
            Failure::Register => Some(11),
            Failure::ReadInput => Some(13),
            Failure::SendBundle => Some(14),
            Failure::ReceiveBundle => Some(15),
            Failure::WriteOutput => Some(16),
        }
    }
}

pub open spec fn id_view(o: Option<&PartialEndpointId>) -> Option<Seq<char>> {
    match o {
        Some(e) => Some(e@),
        None => None,
    }
}

/// Outcome of checking a request before connecting. Sending needs a
/// destination with both a node and an agent, and a singleton source if one
/// is given; listening needs a singleton listening address if one is given.
pub open spec fn intent_outcome(
    listen: bool,
    endpoint: Option<Seq<char>>,
    source: Option<Seq<char>>,
) -> Result<(), Failure> {
    if !listen {
        if endpoint.is_none() || node_part(endpoint.unwrap()).is_none() {
            Err(Failure::MissingNodeId)
        } else if agent_part(endpoint.unwrap()).is_none() {
            Err(Failure::MissingAgentId)
        } else if source.is_some() && !is_singleton(source.unwrap()) {
            Err(Failure::NonSingletonSource)
        } else {
            Ok(())
        }
    } else if endpoint.is_some() && !is_singleton(endpoint.unwrap()) {
        Err(Failure::NonSingletonListen)
    } else {
        Ok(())
    }
}

/// Whether the address carries a node component other than `server`.
pub open spec fn node_conflicts(id: Option<Seq<char>>, server: Seq<char>) -> bool {
    id.is_some() && node_part(id.unwrap()).is_some() && node_part(id.unwrap()).unwrap() != server
}

/// Whether an explicit node id of the request differs from the daemon's: the
/// listening address when listening, and the source address in either mode.
/// A send destination names a remote node and is not compared.
pub open spec fn node_mismatch(
    listen: bool,
    endpoint: Option<Seq<char>>,
    source: Option<Seq<char>>,
    server: Seq<char>,
) -> bool {
    (listen && node_conflicts(endpoint, server)) || node_conflicts(source, server)
}

/// The address whose agent component names the local agent: the listening
/// address when listening, the source address when sending.
pub open spec fn local_address(
    listen: bool,
    endpoint: Option<Seq<char>>,
    source: Option<Seq<char>>,
) -> Option<Seq<char>> {
    if listen {
        endpoint
    } else {
        source
    }
}

/// The agent id that the request asks for, if any.
pub open spec fn requested_agent(
    listen: bool,
    endpoint: Option<Seq<char>>,
    source: Option<Seq<char>>,
) -> Option<Seq<char>> {
    match local_address(listen, endpoint, source) {
        Some(a) => agent_part(a),
        None => None,
    }
}

/// Checks a send or listen request before any connection is made.
pub fn validate_intent(
    listen: bool,
    endpoint: Option<&PartialEndpointId>,
    source: Option<&PartialEndpointId>,
) -> (r: Result<(), Failure>)
    ensures
        r == intent_outcome(listen, id_view(endpoint), id_view(source)),
{
    if !listen {
        match endpoint {
            None => Err(Failure::MissingNodeId),
            Some(e) => {
                if e.node_id().is_none() {
                    Err(Failure::MissingNodeId)
                } else if e.agent_id().is_none() {
                    Err(Failure::MissingAgentId)
                } else {
                    match source {
                        Some(s) => {
                            if !s.is_singleton_node() {
                                Err(Failure::NonSingletonSource)
                            } else {
                                Ok(())
                            }
                        },
                        None => Ok(()),
                    }
                }
            },
        }
    } else {
        match endpoint {
            Some(e) => {
                if !e.is_singleton_node() {
                    Err(Failure::NonSingletonListen)
                } else {
                    Ok(())
                }
            },
            None => Ok(()),
        }
    }
}

fn conflicts(id: Option<&PartialEndpointId>, server_node: &str) -> (r: bool)
    ensures
        r == node_conflicts(id_view(id), server_node@),
{
    match id {
        Some(e) => match e.node_id() {
            Some(n) => !same_text(n, server_node),
            None => false,
        },
        None => false,
    }
}

/// Compares the request's explicit node ids with the node id that the daemon
/// advertises; a mismatch names the daemon's node id.
pub fn cross_check_node(
    listen: bool,
    endpoint: Option<&PartialEndpointId>,
    source: Option<&PartialEndpointId>,
    server_node: &str,
) -> (r: Result<(), Failure>)
    ensures
        node_mismatch(listen, id_view(endpoint), id_view(source), server_node@) ==> (r matches Err(
            Failure::NodeMismatch(m),
        ) && m@ == server_node@),
        !node_mismatch(listen, id_view(endpoint), id_view(source), server_node@) ==> r is Ok,
{
    if (listen && conflicts(endpoint, server_node)) || conflicts(source, server_node) {
        Err(Failure::NodeMismatch(server_node.to_owned()))
    } else {
        Ok(())
    }
}

/// The agent id that the request names, if any.
pub fn requested_agent_id<'a>(
    listen: bool,
    endpoint: Option<&'a PartialEndpointId>,
    source: Option<&'a PartialEndpointId>,
) -> (r: Option<&'a str>)
    ensures
        opt_str_view(r) == requested_agent(listen, id_view(endpoint), id_view(source)),
{
    let local = if listen {
        endpoint
    } else {
        source
    };
    match local {
        Some(a) => a.agent_id(),
        None => None,
    }
}

/// Relies on uuid::Uuid::new_v4 and the `Display` impl of `Uuid`: a random
/// version-4 UUID, written in hyphenated lower-case form of 36 characters.
#[verifier::external_body]
fn fresh_agent_id() -> (r: String)
    ensures
        r@.len() == UUID_TEXT_LEN,
{
    uuid::Uuid::new_v4().to_string()
}

/// The agent id to register: the one the request names, or else a freshly
/// generated UUID.
pub fn derive_agent_id(
    listen: bool,
    endpoint: Option<&PartialEndpointId>,
    source: Option<&PartialEndpointId>,
) -> (r: String)
    ensures
        requested_agent(listen, id_view(endpoint), id_view(source)) matches Some(a) ==> r@ == a,
        requested_agent(listen, id_view(endpoint), id_view(source)) is None ==> r@.len()
            == UUID_TEXT_LEN,
        r@.len() > 0,
{
    match requested_agent_id(listen, endpoint, source) {
        Some(a) => a.to_owned(),
        None => fresh_agent_id(),
    }
}

/// Steps of one session, run once per process: each step moves forward, and a
/// failure at any step that is not final ends in `Aborted`.
#[derive(Debug, Clone, Copy, PartialEq, Eq, Structural)]
pub enum Phase {
    Idle,
    Validated,
    Connected,
    Handshaken,
    Registered,
    Active,
    Closed,
    Aborted,
}

/// Position of a phase in the order in which a session passes through them.
pub open spec fn rank(p: Phase) -> nat {
    match p {
        Phase::Idle => 0,
        Phase::Validated => 1,
        Phase::Connected => 2,
        Phase::Handshaken => 3,
        Phase::Registered => 4,
        Phase::Active => 5,
        Phase::Closed => 6,
        Phase::Aborted => 7,
    }
}

/// One exchange of a bundle with the node daemon: the request (mode,
/// positional address, source address) and the phase reached so far.
pub struct Session {
    listen: bool,
    endpoint: Option<PartialEndpointId>,
    source: Option<PartialEndpointId>,
    phase: Phase,
}

pub open spec fn owned_id_view(o: Option<PartialEndpointId>) -> Option<Seq<char>> {
    match o {
        Some(e) => Some(e@),
        None => None,
    }
}

impl Session {
    pub closed spec fn spec_phase(&self) -> Phase {
        self.phase
    }

    pub closed spec fn spec_listen(&self) -> bool {
        self.listen
    }

    pub closed spec fn spec_endpoint(&self) -> Option<Seq<char>> {
        owned_id_view(self.endpoint)
    }

    pub closed spec fn spec_source(&self) -> Option<Seq<char>> {
        owned_id_view(self.source)
    }

    /// Whether two sessions hold the same request.
    pub open spec fn same_request(&self, other: &Session) -> bool {
        self.spec_listen() == other.spec_listen() && self.spec_endpoint() == other.spec_endpoint()
            && self.spec_source() == other.spec_source()
    }

    /// A session for a request, in phase `Idle`. In send mode `endpoint` is the
    /// destination; in listen mode it is the optional listening address.
    pub fn new(
        listen: bool,
        endpoint: Option<PartialEndpointId>,
        source: Option<PartialEndpointId>,
    ) -> (r: Session)
        ensures
            r.spec_phase() == Phase::Idle,
            r.spec_listen() == listen,
            r.spec_endpoint() == owned_id_view(endpoint),
            r.spec_source() == owned_id_view(source),
    {
        Session { listen, endpoint, source, phase: Phase::Idle }
    }

    pub fn phase(&self) -> (r: Phase)
        ensures
            r == self.spec_phase(),
    {
        self.phase
    }

    pub fn is_listening(&self) -> (r: bool)
        ensures
            r == self.spec_listen(),
    {
        self.listen
    }

    /// The positional address: the destination when sending.
    pub fn endpoint(&self) -> (r: Option<&PartialEndpointId>)
        ensures
            id_view(r) == self.spec_endpoint(),
    {
        self.endpoint.as_ref()
    }

    fn step(&mut self, ok: bool, next: Phase)
        ensures
            final(self).phase == (if ok {
                next
            } else {
                Phase::Aborted
            }),
            final(self).listen == old(self).listen,
            final(self).endpoint == old(self).endpoint,
            final(self).source == old(self).source,
    {
        self.phase = if ok {
            next
        } else {
            Phase::Aborted
        };
    }

    /// Checks the request before anything touches the network.
    pub fn validate(&mut self) -> (r: Result<(), Failure>)
        requires
            old(self).spec_phase() == Phase::Idle,
        ensures
            r == intent_outcome(old(self).spec_listen(), old(self).spec_endpoint(), old(self).spec_source()),
            final(self).spec_phase() == (if r is Ok {
                Phase::Validated
            } else {
                Phase::Aborted
            }),
            final(self).same_request(old(self)),
            rank(final(self).spec_phase()) > rank(old(self).spec_phase()),
    {
        let r = validate_intent(self.listen, self.endpoint.as_ref(), self.source.as_ref());
        self.step(r.is_ok(), Phase::Validated);
        r
    }

    /// Records whether the connection to the daemon's socket was opened.
    pub fn connected(&mut self, ok: bool) -> (r: Result<(), Failure>)
        requires
            old(self).spec_phase() == Phase::Validated,
        ensures
            ok ==> r is Ok && final(self).spec_phase() == Phase::Connected,
            !ok ==> r == Err::<(), Failure>(Failure::Connect) && final(self).spec_phase()
                == Phase::Aborted,
            final(self).same_request(old(self)),
            rank(final(self).spec_phase()) > rank(old(self).spec_phase()),
    {
        self.step(ok, Phase::Connected);
        if ok {
            Ok(())
        } else {
            Err(Failure::Connect)
        }
    }

    /// Records the node id that the daemon advertised in its welcome (`None`
    /// when the handshake failed), and compares the request's explicit node ids
    /// with it.
    pub fn handshaken(&mut self, server_node: Option<&str>) -> (r: Result<(), Failure>)
        requires
            old(self).spec_phase() == Phase::Connected,
        ensures
            server_node is None ==> r == Err::<(), Failure>(Failure::Handshake),
            server_node matches Some(n) ==> (if node_mismatch(
                old(self).spec_listen(),
                old(self).spec_endpoint(),
                old(self).spec_source(),
                n@,
            ) {
                r matches Err(Failure::NodeMismatch(m)) && m@ == n@
            } else {
                r is Ok
            }),
            final(self).spec_phase() == (if r is Ok {
                Phase::Handshaken
            } else {
                Phase::Aborted
            }),
            final(self).same_request(old(self)),
            rank(final(self).spec_phase()) > rank(old(self).spec_phase()),
    {
        let r = match server_node {
            None => Err(Failure::Handshake),
            Some(n) => cross_check_node(self.listen, self.endpoint.as_ref(), self.source.as_ref(), n),
        };
        self.step(r.is_ok(), Phase::Handshaken);
        r
    }

    /// The agent id to register: the one the request names, else a fresh UUID.
    pub fn agent_id(&self) -> (r: String)
        requires
            self.spec_phase() == Phase::Handshaken,
        ensures
            requested_agent(self.spec_listen(), self.spec_endpoint(), self.spec_source()) matches Some(
                a,
            ) ==> r@ == a,
            requested_agent(self.spec_listen(), self.spec_endpoint(), self.spec_source()) is None
                ==> r@.len() == UUID_TEXT_LEN,
    {
        derive_agent_id(self.listen, self.endpoint.as_ref(), self.source.as_ref())
    }

    /// Records whether the agent id was registered with the daemon.
    pub fn registered(&mut self, ok: bool) -> (r: Result<(), Failure>)
        requires
            old(self).spec_phase() == Phase::Handshaken,
        ensures
            ok ==> r is Ok && final(self).spec_phase() == Phase::Registered,
            !ok ==> r == Err::<(), Failure>(Failure::Register) && final(self).spec_phase()
                == Phase::Aborted,
            final(self).same_request(old(self)),
            rank(final(self).spec_phase()) > rank(old(self).spec_phase()),
    {
        self.step(ok, Phase::Registered);
        if ok {
            Ok(())
        } else {
            Err(Failure::Register)
        }
    }

    /// Marks the start of the one send or receive of the session.
    pub fn start_exchange(&mut self)
        requires
            old(self).spec_phase() == Phase::Registered,
        ensures
            final(self).spec_phase() == Phase::Active,
            final(self).same_request(old(self)),
            rank(final(self).spec_phase()) > rank(old(self).spec_phase()),
    {
        self.step(true, Phase::Active);
    }

    /// Records how the exchange ended; the session is then over.
    pub fn finish_exchange(&mut self, failure: Option<Failure>) -> (r: Result<(), Failure>)
        requires
            old(self).spec_phase() == Phase::Active,
        ensures
            failure matches Some(f) ==> r == Err::<(), Failure>(f) && final(self).spec_phase()
                == Phase::Aborted,
            failure is None ==> r is Ok && final(self).spec_phase() == Phase::Closed,
            final(self).same_request(old(self)),
            rank(final(self).spec_phase()) > rank(old(self).spec_phase()),
    {
        self.step(failure.is_none(), Phase::Closed);
        match failure {
            Some(f) => Err(f),
            None => Ok(()),
        }
    }
}

} // verus!
