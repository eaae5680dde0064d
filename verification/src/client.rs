//! The "any client" layer: one closed sum type per client artefact
//! (state, consensus state, header, misbehaviour), with prisms between the
//! sum and each concrete client type. Conversion to the wrong concrete
//! type is a typed mismatch error, never a panic.

use vstd::prelude::*;

use crate::errors::RelayError;

verus! {

/// A context that owns an error type.
pub trait HasError {
    type Error;
}

/// A context that can turn a cause into its own error type.
pub trait InjectError<E>: HasError {
    spec fn spec_inject(e: E) -> Self::Error;

    fn inject_error(e: E) -> (r: Self::Error)
        ensures
            r == Self::spec_inject(e),
    ;
}

/// A prism from a sum type `S` onto one of its cases `A`: wrapping is
/// total, extraction partial.
pub trait Prism<S, A> {
    /// Whether `s` holds the `A` case.
    spec fn spec_matches(s: S) -> bool;

    /// The held value, meaningful when `spec_matches(s)`.
    spec fn spec_extract(s: S) -> A;

    /// `a` wrapped into the sum.
    spec fn spec_wrap(a: A) -> S;

    fn wrap_case(a: A) -> (s: S)
        ensures
            s == Self::spec_wrap(a),
            Self::spec_matches(s),
            Self::spec_extract(s) == a,
    ;

    fn case_of(s: S) -> (r: Option<A>)
        ensures
            r is Some <==> Self::spec_matches(s),
            r is Some ==> r->0 == Self::spec_extract(s),
    ;

    fn case_of_ref<'a>(s: &'a S) -> (r: Option<&'a A>)
        ensures
            r is Some <==> Self::spec_matches(*s),
            r is Some ==> *r->0 == Self::spec_extract(*s),
    ;
}

/// The concrete artefact types of one client implementation.
pub trait HasClientTypes {
    type ClientState;

    type ConsensusState;

    type ClientHeader;

    type Misbehavior;
}

/// The sum types a chain context uses to store any client's artefacts,
/// tagged by a client-type value.
pub trait HasAnyClientTypes {
    type ClientType;

    type AnyClientState;

    type AnyConsensusState;

    type AnyClientHeader;

    type AnyMisbehavior;
}

/// Names the client-type tag under which `Client` is stored.
pub trait HasClientTypeFor<Client>: HasAnyClientTypes {
    spec fn spec_client_type() -> Self::ClientType;

    fn client_type() -> (r: Self::ClientType)
        ensures
            r == Self::spec_client_type(),
    ;
}

/// The cause reported when a stored artefact is not of the asked-for
/// client type.
pub struct MismatchClientHeaderFormat<ClientType> {
    pub expected_client_type: ClientType,
}

/// The four conversions between a context's sum types and one concrete
/// client's types. Downcasting the wrong case fails with exactly the
/// context's injected mismatch error for this client's tag; upcasting
/// never fails.
pub trait HasClientPrisms<AnyClient, Client>: InjectError<
    MismatchClientHeaderFormat<AnyClient::ClientType>,
> where
    AnyClient: HasClientTypeFor<Client>,
    Client: HasClientTypes,
 {
    spec fn client_state_matches(s: AnyClient::AnyClientState) -> bool;

    spec fn client_state_of(s: AnyClient::AnyClientState) -> Client::ClientState;

    fn into_any_client_state(client_state: Client::ClientState) -> (r:
        AnyClient::AnyClientState)
        ensures
            Self::client_state_matches(r),
            Self::client_state_of(r) == client_state,
    ;

    fn try_from_any_client_state(client_state: AnyClient::AnyClientState) -> (r: Result<
        Client::ClientState,
        Self::Error,
    >)
        ensures
            r is Ok <==> Self::client_state_matches(client_state),
            r is Ok ==> r->Ok_0 == Self::client_state_of(client_state),
            r is Err ==> r->Err_0 == Self::spec_inject(
                MismatchClientHeaderFormat { expected_client_type: AnyClient::spec_client_type() },
            ),
    ;

    fn try_from_any_client_state_ref<'a>(client_state: &'a AnyClient::AnyClientState) -> (r:
        Result<&'a Client::ClientState, Self::Error>)
        ensures
            r is Ok <==> Self::client_state_matches(*client_state),
            r is Ok ==> *r->Ok_0 == Self::client_state_of(*client_state),
            r is Err ==> r->Err_0 == Self::spec_inject(
                MismatchClientHeaderFormat { expected_client_type: AnyClient::spec_client_type() },
            ),
    ;

    spec fn consensus_state_matches(s: AnyClient::AnyConsensusState) -> bool;

    spec fn consensus_state_of(s: AnyClient::AnyConsensusState) -> Client::ConsensusState;

    fn into_any_consensus_state(consensus_state: Client::ConsensusState) -> (r:
        AnyClient::AnyConsensusState)
        ensures
            Self::consensus_state_matches(r),
            Self::consensus_state_of(r) == consensus_state,
    ;

    fn try_from_any_consensus_state(consensus_state: AnyClient::AnyConsensusState) -> (r: Result<
        Client::ConsensusState,
        Self::Error,
    >)
        ensures
            r is Ok <==> Self::consensus_state_matches(consensus_state),
            r is Ok ==> r->Ok_0 == Self::consensus_state_of(consensus_state),
            r is Err ==> r->Err_0 == Self::spec_inject(
                MismatchClientHeaderFormat { expected_client_type: AnyClient::spec_client_type() },
            ),
    ;

    fn try_from_any_consensus_state_ref<'a>(consensus_state: &'a AnyClient::AnyConsensusState)
        -> (r: Result<&'a Client::ConsensusState, Self::Error>)
        ensures
            r is Ok <==> Self::consensus_state_matches(*consensus_state),
            r is Ok ==> *r->Ok_0 == Self::consensus_state_of(*consensus_state),
            r is Err ==> r->Err_0 == Self::spec_inject(
                MismatchClientHeaderFormat { expected_client_type: AnyClient::spec_client_type() },
            ),
    ;

    spec fn client_header_matches(s: AnyClient::AnyClientHeader) -> bool;

    spec fn client_header_of(s: AnyClient::AnyClientHeader) -> Client::ClientHeader;

    fn into_any_client_header(client_header: Client::ClientHeader) -> (r:
        AnyClient::AnyClientHeader)
        ensures
            Self::client_header_matches(r),
            Self::client_header_of(r) == client_header,
    ;

    fn try_from_any_client_header(client_header: AnyClient::AnyClientHeader) -> (r: Result<
        Client::ClientHeader,
        Self::Error,
    >)
        ensures
            r is Ok <==> Self::client_header_matches(client_header),
            r is Ok ==> r->Ok_0 == Self::client_header_of(client_header),
            r is Err ==> r->Err_0 == Self::spec_inject(
                MismatchClientHeaderFormat { expected_client_type: AnyClient::spec_client_type() },
            ),
    ;

    fn try_from_any_client_header_ref<'a>(client_header: &'a AnyClient::AnyClientHeader) -> (r:
        Result<&'a Client::ClientHeader, Self::Error>)
        ensures
            r is Ok <==> Self::client_header_matches(*client_header),
            r is Ok ==> *r->Ok_0 == Self::client_header_of(*client_header),
            r is Err ==> r->Err_0 == Self::spec_inject(
                MismatchClientHeaderFormat { expected_client_type: AnyClient::spec_client_type() },
            ),
    ;

    spec fn misbehavior_matches(s: AnyClient::AnyMisbehavior) -> bool;

    spec fn misbehavior_of(s: AnyClient::AnyMisbehavior) -> Client::Misbehavior;

    fn into_any_misbehavior(misbehavior: Client::Misbehavior) -> (r: AnyClient::AnyMisbehavior)
        ensures
            Self::misbehavior_matches(r),
            Self::misbehavior_of(r) == misbehavior,
    ;

    fn try_from_any_misbehavior(misbehavior: AnyClient::AnyMisbehavior) -> (r: Result<
        Client::Misbehavior,
        Self::Error,
    >)
        ensures
            r is Ok <==> Self::misbehavior_matches(misbehavior),
            r is Ok ==> r->Ok_0 == Self::misbehavior_of(misbehavior),
            r is Err ==> r->Err_0 == Self::spec_inject(
                MismatchClientHeaderFormat { expected_client_type: AnyClient::spec_client_type() },
            ),
    ;

    fn try_from_any_misbehavior_ref<'a>(misbehavior: &'a AnyClient::AnyMisbehavior) -> (r:
        Result<&'a Client::Misbehavior, Self::Error>)
        ensures
            r is Ok <==> Self::misbehavior_matches(*misbehavior),
            r is Ok ==> *r->Ok_0 == Self::misbehavior_of(*misbehavior),
            r is Err ==> r->Err_0 == Self::spec_inject(
                MismatchClientHeaderFormat { expected_client_type: AnyClient::spec_client_type() },
            ),
    ;
}

impl<Context, AnyClient, Client> HasClientPrisms<AnyClient, Client> for Context where
    AnyClient: HasClientTypeFor<Client>,
    Client: HasClientTypes,
    Context: InjectError<MismatchClientHeaderFormat<AnyClient::ClientType>>,
    Context: Prism<AnyClient::AnyClientState, Client::ClientState>,
    Context: Prism<AnyClient::AnyConsensusState, Client::ConsensusState>,
    Context: Prism<AnyClient::AnyClientHeader, Client::ClientHeader>,
    Context: Prism<AnyClient::AnyMisbehavior, Client::Misbehavior>,
 {
    open spec fn client_state_matches(s: AnyClient::AnyClientState) -> bool {
        <Context as Prism<AnyClient::AnyClientState, Client::ClientState>>::spec_matches(s)
    }

    open spec fn client_state_of(s: AnyClient::AnyClientState) -> Client::ClientState {
        <Context as Prism<AnyClient::AnyClientState, Client::ClientState>>::spec_extract(s)
    }

    fn into_any_client_state(client_state: Client::ClientState) -> (r:
        AnyClient::AnyClientState) {
        Context::wrap_case(client_state)
    }

    fn try_from_any_client_state(client_state: AnyClient::AnyClientState) -> (r: Result<
        Client::ClientState,
        Self::Error,
    >) {
        match Context::case_of(client_state) {
            Some(state) => Ok(state),
            None => Err(
                Context::inject_error(
                    MismatchClientHeaderFormat { expected_client_type: AnyClient::client_type() },
                ),
            ),
        }
    }

    fn try_from_any_client_state_ref<'a>(client_state: &'a AnyClient::AnyClientState) -> (r:
        Result<&'a Client::ClientState, Self::Error>) {
        match Context::case_of_ref(client_state) {
            Some(state) => Ok(state),
            None => Err(
                Context::inject_error(
                    MismatchClientHeaderFormat { expected_client_type: AnyClient::client_type() },
                ),
            ),
        }
    }

    open spec fn consensus_state_matches(s: AnyClient::AnyConsensusState) -> bool {
        <Context as Prism<AnyClient::AnyConsensusState, Client::ConsensusState>>::spec_matches(s)
    }

    open spec fn consensus_state_of(s: AnyClient::AnyConsensusState) -> Client::ConsensusState {
        <Context as Prism<AnyClient::AnyConsensusState, Client::ConsensusState>>::spec_extract(s)
    }

    fn into_any_consensus_state(consensus_state: Client::ConsensusState) -> (r:
        AnyClient::AnyConsensusState) {
        Context::wrap_case(consensus_state)
    }

    fn try_from_any_consensus_state(consensus_state: AnyClient::AnyConsensusState) -> (r: Result<
        Client::ConsensusState,
        Self::Error,
    >) {
        match Context::case_of(consensus_state) {
            Some(state) => Ok(state),
            None => Err(
                Context::inject_error(
                    MismatchClientHeaderFormat { expected_client_type: AnyClient::client_type() },
                ),
            ),
        }
    }

    fn try_from_any_consensus_state_ref<'a>(consensus_state: &'a AnyClient::AnyConsensusState)
        -> (r: Result<&'a Client::ConsensusState, Self::Error>) {
        match Context::case_of_ref(consensus_state) {
            Some(state) => Ok(state),
            None => Err(
                Context::inject_error(
                    MismatchClientHeaderFormat { expected_client_type: AnyClient::client_type() },
                ),
            ),
        }
    }

    open spec fn client_header_matches(s: AnyClient::AnyClientHeader) -> bool {
        <Context as Prism<AnyClient::AnyClientHeader, Client::ClientHeader>>::spec_matches(s)
    }

    open spec fn client_header_of(s: AnyClient::AnyClientHeader) -> Client::ClientHeader {
        <Context as Prism<AnyClient::AnyClientHeader, Client::ClientHeader>>::spec_extract(s)
    }

    fn into_any_client_header(client_header: Client::ClientHeader) -> (r:
        AnyClient::AnyClientHeader) {
        Context::wrap_case(client_header)
    }

    fn try_from_any_client_header(client_header: AnyClient::AnyClientHeader) -> (r: Result<
        Client::ClientHeader,
        Self::Error,
    >) {
        match Context::case_of(client_header) {
            Some(header) => Ok(header),
            None => Err(
                Context::inject_error(
                    MismatchClientHeaderFormat { expected_client_type: AnyClient::client_type() },
                ),
            ),
        }
    }

    fn try_from_any_client_header_ref<'a>(client_header: &'a AnyClient::AnyClientHeader) -> (r:
        Result<&'a Client::ClientHeader, Self::Error>) {
        match Context::case_of_ref(client_header) {
            Some(header) => Ok(header),
            None => Err(
                Context::inject_error(
                    MismatchClientHeaderFormat { expected_client_type: AnyClient::client_type() },
                ),
            ),
        }
    }

    open spec fn misbehavior_matches(s: AnyClient::AnyMisbehavior) -> bool {
        <Context as Prism<AnyClient::AnyMisbehavior, Client::Misbehavior>>::spec_matches(s)
    }

    open spec fn misbehavior_of(s: AnyClient::AnyMisbehavior) -> Client::Misbehavior {
        <Context as Prism<AnyClient::AnyMisbehavior, Client::Misbehavior>>::spec_extract(s)
    }

    fn into_any_misbehavior(misbehavior: Client::Misbehavior) -> (r:
        AnyClient::AnyMisbehavior) {
        Context::wrap_case(misbehavior)
    }

    fn try_from_any_misbehavior(misbehavior: AnyClient::AnyMisbehavior) -> (r: Result<
        Client::Misbehavior,
        Self::Error,
    >) {
        match Context::case_of(misbehavior) {
            Some(value) => Ok(value),
            None => Err(
                Context::inject_error(
                    MismatchClientHeaderFormat { expected_client_type: AnyClient::client_type() },
                ),
            ),
        }
    }

    fn try_from_any_misbehavior_ref<'a>(misbehavior: &'a AnyClient::AnyMisbehavior) -> (r:
        Result<&'a Client::Misbehavior, Self::Error>) {
        match Context::case_of_ref(misbehavior) {
            Some(value) => Ok(value),
            None => Err(
                Context::inject_error(
                    MismatchClientHeaderFormat { expected_client_type: AnyClient::client_type() },
                ),
            ),
        }
    }
}

/// Reads the client-type tag off a stored client state.
pub trait AnyClientMethods: HasAnyClientTypes {
    fn client_state_type(client_state: &Self::AnyClientState) -> (r: Self::ClientType);
}

/// A context that fully supports one concrete client: its prisms and its
/// client-type tag.
pub trait ContainsClient<Client>:
    HasAnyClientTypes + HasClientPrisms<Self, Client> + HasClientTypeFor<Client> where
    Client: HasClientTypes,
    Self: Sized,
 {
}

/// A context that owns one designated client handler among the clients
/// it contains: the handler's artefact types are the context's own.
pub trait HasClientHandler: HasClientTypes {
    type ClientHandler: HasClientTypes<
            ClientState = Self::ClientState,
            ConsensusState = Self::ConsensusState,
            ClientHeader = Self::ClientHeader,
            Misbehavior = Self::Misbehavior,
        >;
}

/// A handler for one kind of protocol message in a context.
pub trait MessageHandler<Context> where Context: HasIbcTypes + HasError {
    fn handle_message(context: &Context, message: &Context::Message) -> (r: Result<
        (),
        Context::Error,
    >);
}

/// The message type a context routes.
pub trait HasIbcTypes {
    type Message;
}

impl<Context, Client> ContainsClient<Client> for Context where
    Client: HasClientTypes,
    Context: HasAnyClientTypes + HasClientPrisms<Context, Client> + HasClientTypeFor<Client>,
 {
}

/// The client types this build of the engine supports.
#[derive(Clone, Copy, Debug, PartialEq, Eq, Structural)]
pub enum ClientKind {
    Tendermint,
    Simulated,
}

#[derive(Clone, Copy, Debug, PartialEq, Eq, Structural)]
pub struct TendermintClientState {
    pub latest_height: u64,
    pub frozen: bool,
}

#[derive(Clone, Copy, Debug, PartialEq, Eq, Structural)]
pub struct TendermintConsensusState {
    pub timestamp: u64,
}

#[derive(Clone, Copy, Debug, PartialEq, Eq, Structural)]
pub struct TendermintClientHeader {
    pub height: u64,
}

#[derive(Clone, Copy, Debug, PartialEq, Eq, Structural)]
pub struct TendermintMisbehavior {
    pub height: u64,
}

#[derive(Clone, Copy, Debug, PartialEq, Eq, Structural)]
pub struct SimulatedClientState {
    pub latest_height: u64,
}

#[derive(Clone, Copy, Debug, PartialEq, Eq, Structural)]
pub struct SimulatedConsensusState {
    pub timestamp: u64,
}

#[derive(Clone, Copy, Debug, PartialEq, Eq, Structural)]
pub struct SimulatedClientHeader {
    pub height: u64,
}

#[derive(Clone, Copy, Debug, PartialEq, Eq, Structural)]
pub struct SimulatedMisbehavior {
    pub height: u64,
}

/// Marker for the Tendermint client implementation.
pub struct TendermintClient;

impl HasClientTypes for TendermintClient {
    type ClientState = TendermintClientState;

    type ConsensusState = TendermintConsensusState;

    type ClientHeader = TendermintClientHeader;

    type Misbehavior = TendermintMisbehavior;
}

/// Marker for the simulated client implementation.
pub struct SimulatedClient;

impl HasClientTypes for SimulatedClient {
    type ClientState = SimulatedClientState;

    type ConsensusState = SimulatedConsensusState;

    type ClientHeader = SimulatedClientHeader;

    type Misbehavior = SimulatedMisbehavior;
}

#[derive(Clone, Copy, Debug, PartialEq, Eq, Structural)]
pub enum AnyClientState {
    Tendermint(TendermintClientState),
    Simulated(SimulatedClientState),
}

#[derive(Clone, Copy, Debug, PartialEq, Eq, Structural)]
pub enum AnyConsensusState {
    Tendermint(TendermintConsensusState),
    Simulated(SimulatedConsensusState),
}

#[derive(Clone, Copy, Debug, PartialEq, Eq, Structural)]
pub enum AnyClientHeader {
    Tendermint(TendermintClientHeader),
    Simulated(SimulatedClientHeader),
}

#[derive(Clone, Copy, Debug, PartialEq, Eq, Structural)]
pub enum AnyMisbehavior {
    Tendermint(TendermintMisbehavior),
    Simulated(SimulatedMisbehavior),
}

/// The closed registry of supported clients, serving as the any-client
/// context.
pub struct ClientRegistry;

impl HasError for ClientRegistry {
    type Error = RelayError;
}

impl InjectError<MismatchClientHeaderFormat<ClientKind>> for ClientRegistry {
    open spec fn spec_inject(e: MismatchClientHeaderFormat<ClientKind>) -> RelayError {
        RelayError::ClientTypeMismatch
    }

    fn inject_error(e: MismatchClientHeaderFormat<ClientKind>) -> (r: RelayError) {
        RelayError::ClientTypeMismatch
    }
}

impl HasAnyClientTypes for ClientRegistry {
    type ClientType = ClientKind;

    type AnyClientState = AnyClientState;

    type AnyConsensusState = AnyConsensusState;

    type AnyClientHeader = AnyClientHeader;

    type AnyMisbehavior = AnyMisbehavior;
}

impl HasClientTypeFor<TendermintClient> for ClientRegistry {
    open spec fn spec_client_type() -> ClientKind {
        ClientKind::Tendermint
    }

    fn client_type() -> (r: ClientKind) {
        ClientKind::Tendermint
    }
}

impl HasClientTypeFor<SimulatedClient> for ClientRegistry {
    open spec fn spec_client_type() -> ClientKind {
        ClientKind::Simulated
    }

    fn client_type() -> (r: ClientKind) {
        ClientKind::Simulated
    }
}

impl AnyClientMethods for ClientRegistry {
    fn client_state_type(client_state: &AnyClientState) -> (r: ClientKind) {
        match client_state {
            AnyClientState::Tendermint(_) => ClientKind::Tendermint,
            AnyClientState::Simulated(_) => ClientKind::Simulated,
        }
    }
}

impl Prism<AnyClientState, TendermintClientState> for ClientRegistry {
    open spec fn spec_matches(s: AnyClientState) -> bool {
        s is Tendermint
    }

    open spec fn spec_extract(s: AnyClientState) -> TendermintClientState {
        s->Tendermint_0
    }

    open spec fn spec_wrap(a: TendermintClientState) -> AnyClientState {
        AnyClientState::Tendermint(a)
    }

    fn wrap_case(a: TendermintClientState) -> (s: AnyClientState) {
        AnyClientState::Tendermint(a)
    }

    fn case_of(s: AnyClientState) -> (r: Option<TendermintClientState>) {
        match s {
            AnyClientState::Tendermint(state) => Some(state),
            _ => None,
        }
    }
    fn case_of_ref<'a>(s: &'a AnyClientState) -> (r: Option<&'a TendermintClientState>) {
        match s {
            AnyClientState::Tendermint(state) => Some(state),
            _ => None,
        }
    }
}

impl Prism<AnyConsensusState, TendermintConsensusState> for ClientRegistry {
    open spec fn spec_matches(s: AnyConsensusState) -> bool {
        s is Tendermint
    }

    open spec fn spec_extract(s: AnyConsensusState) -> TendermintConsensusState {
        s->Tendermint_0
    }

    open spec fn spec_wrap(a: TendermintConsensusState) -> AnyConsensusState {
        AnyConsensusState::Tendermint(a)
    }

    fn wrap_case(a: TendermintConsensusState) -> (s: AnyConsensusState) {
        AnyConsensusState::Tendermint(a)
    }

    fn case_of(s: AnyConsensusState) -> (r: Option<TendermintConsensusState>) {
        match s {
            AnyConsensusState::Tendermint(state) => Some(state),
            _ => None,
        }
    }
    fn case_of_ref<'a>(s: &'a AnyConsensusState) -> (r: Option<&'a TendermintConsensusState>) {
        match s {
            AnyConsensusState::Tendermint(state) => Some(state),
            _ => None,
        }
    }
}

impl Prism<AnyClientHeader, TendermintClientHeader> for ClientRegistry {
    open spec fn spec_matches(s: AnyClientHeader) -> bool {
        s is Tendermint
    }

    open spec fn spec_extract(s: AnyClientHeader) -> TendermintClientHeader {
        s->Tendermint_0
    }

    open spec fn spec_wrap(a: TendermintClientHeader) -> AnyClientHeader {
        AnyClientHeader::Tendermint(a)
    }

    fn wrap_case(a: TendermintClientHeader) -> (s: AnyClientHeader) {
        AnyClientHeader::Tendermint(a)
    }

    fn case_of(s: AnyClientHeader) -> (r: Option<TendermintClientHeader>) {
        match s {
            AnyClientHeader::Tendermint(header) => Some(header),
            _ => None,
        }
    }
    fn case_of_ref<'a>(s: &'a AnyClientHeader) -> (r: Option<&'a TendermintClientHeader>) {
        match s {
            AnyClientHeader::Tendermint(header) => Some(header),
            _ => None,
        }
    }
}

impl Prism<AnyMisbehavior, TendermintMisbehavior> for ClientRegistry {
    open spec fn spec_matches(s: AnyMisbehavior) -> bool {
        s is Tendermint
    }

    open spec fn spec_extract(s: AnyMisbehavior) -> TendermintMisbehavior {
        s->Tendermint_0
    }

    open spec fn spec_wrap(a: TendermintMisbehavior) -> AnyMisbehavior {
        AnyMisbehavior::Tendermint(a)
    }

    fn wrap_case(a: TendermintMisbehavior) -> (s: AnyMisbehavior) {
        AnyMisbehavior::Tendermint(a)
    }

    fn case_of(s: AnyMisbehavior) -> (r: Option<TendermintMisbehavior>) {
        match s {
            AnyMisbehavior::Tendermint(value) => Some(value),
            _ => None,
        }
    }
    fn case_of_ref<'a>(s: &'a AnyMisbehavior) -> (r: Option<&'a TendermintMisbehavior>) {
        match s {
            AnyMisbehavior::Tendermint(value) => Some(value),
            _ => None,
        }
    }
}

impl Prism<AnyClientState, SimulatedClientState> for ClientRegistry {
    open spec fn spec_matches(s: AnyClientState) -> bool {
        s is Simulated
    }

    open spec fn spec_extract(s: AnyClientState) -> SimulatedClientState {
        s->Simulated_0
    }

    open spec fn spec_wrap(a: SimulatedClientState) -> AnyClientState {
        AnyClientState::Simulated(a)
    }

    fn wrap_case(a: SimulatedClientState) -> (s: AnyClientState) {
        AnyClientState::Simulated(a)
    }

    fn case_of(s: AnyClientState) -> (r: Option<SimulatedClientState>) {
        match s {
            AnyClientState::Simulated(state) => Some(state),
            _ => None,
        }
    }
    fn case_of_ref<'a>(s: &'a AnyClientState) -> (r: Option<&'a SimulatedClientState>) {
        match s {
            AnyClientState::Simulated(state) => Some(state),
            _ => None,
        }
    }
}

impl Prism<AnyConsensusState, SimulatedConsensusState> for ClientRegistry {
    open spec fn spec_matches(s: AnyConsensusState) -> bool {
        s is Simulated
    }

    open spec fn spec_extract(s: AnyConsensusState) -> SimulatedConsensusState {
        s->Simulated_0
    }

    open spec fn spec_wrap(a: SimulatedConsensusState) -> AnyConsensusState {
        AnyConsensusState::Simulated(a)
    }

    fn wrap_case(a: SimulatedConsensusState) -> (s: AnyConsensusState) {
        AnyConsensusState::Simulated(a)
    }

    fn case_of(s: AnyConsensusState) -> (r: Option<SimulatedConsensusState>) {
        match s {
            AnyConsensusState::Simulated(state) => Some(state),
            _ => None,
        }
    }
    fn case_of_ref<'a>(s: &'a AnyConsensusState) -> (r: Option<&'a SimulatedConsensusState>) {
        match s {
            AnyConsensusState::Simulated(state) => Some(state),
            _ => None,
        }
    }
}

impl Prism<AnyClientHeader, SimulatedClientHeader> for ClientRegistry {
    open spec fn spec_matches(s: AnyClientHeader) -> bool {
        s is Simulated
    }

    open spec fn spec_extract(s: AnyClientHeader) -> SimulatedClientHeader {
        s->Simulated_0
    }

    open spec fn spec_wrap(a: SimulatedClientHeader) -> AnyClientHeader {
        AnyClientHeader::Simulated(a)
    }

    fn wrap_case(a: SimulatedClientHeader) -> (s: AnyClientHeader) {
        AnyClientHeader::Simulated(a)
    }

    fn case_of(s: AnyClientHeader) -> (r: Option<SimulatedClientHeader>) {
        match s {
            AnyClientHeader::Simulated(header) => Some(header),
            _ => None,
        }
    }
    fn case_of_ref<'a>(s: &'a AnyClientHeader) -> (r: Option<&'a SimulatedClientHeader>) {
        match s {
            AnyClientHeader::Simulated(header) => Some(header),
            _ => None,
        }
    }
}

impl Prism<AnyMisbehavior, SimulatedMisbehavior> for ClientRegistry {
    open spec fn spec_matches(s: AnyMisbehavior) -> bool {
        s is Simulated
    }

    open spec fn spec_extract(s: AnyMisbehavior) -> SimulatedMisbehavior {
        s->Simulated_0
    }

    open spec fn spec_wrap(a: SimulatedMisbehavior) -> AnyMisbehavior {
        AnyMisbehavior::Simulated(a)
    }

    fn wrap_case(a: SimulatedMisbehavior) -> (s: AnyMisbehavior) {
        AnyMisbehavior::Simulated(a)
    }

    fn case_of(s: AnyMisbehavior) -> (r: Option<SimulatedMisbehavior>) {
        match s {
            AnyMisbehavior::Simulated(value) => Some(value),
            _ => None,
        }
    }
    fn case_of_ref<'a>(s: &'a AnyMisbehavior) -> (r: Option<&'a SimulatedMisbehavior>) {
        match s {
            AnyMisbehavior::Simulated(value) => Some(value),
            _ => None,
        }
    }
}

/// The type surface one chain adapter offers the client layer; ledger
/// integrations implement this outside the engine.
pub trait OfaChainTypes {
    type Error;

    type Event;

    type Height;

    type Timestamp;

    type Duration;

    type Message;

    type MessageType;

    type Signer;

    type ClientId;

    type ConnectionId;

    type ChannelId;

    type Port;

    type MerkleProof;

    type ClientType;

    type AnyClientState;

    type AnyConsensusState;

    type AnyClientHeader;

    type AnyMisbehavior;
}

/// The operation surface one chain adapter offers the client layer:
/// host readings, message readings, client-state readings, the client
/// store, and the adapter's typed errors and events. Ledger integrations
/// implement this outside the engine; the engine only consumes it.
pub trait OfaChain: OfaChainTypes {
    fn host_height(&self) -> Self::Height;

    fn host_timestamp(&self) -> Self::Timestamp;

    fn add_duration(time: &Self::Timestamp, duration: &Self::Duration) -> Self::Timestamp;

    fn message_type(message: &Self::Message) -> &Self::MessageType;

    fn message_signer(message: &Self::Message) -> &Self::Signer;

    fn client_state_type(client_state: &Self::AnyClientState) -> Self::ClientType;

    fn client_state_is_frozen(client_state: &Self::AnyClientState) -> bool;

    fn client_state_trusting_period(client_state: &Self::AnyClientState) -> Self::Duration;

    fn client_state_latest_height(client_state: &Self::AnyClientState) -> Self::Height;

    fn consensus_state_timestamp(consensus_state: &Self::AnyConsensusState) -> Self::Timestamp;

    fn client_header_height(client_header: &Self::AnyClientHeader) -> Self::Height;

    fn get_client_type(&self, client_id: &Self::ClientId) -> Result<
        Self::ClientType,
        Self::Error,
    >;

    fn get_any_client_state(&self, client_id: &Self::ClientId) -> Result<
        Self::AnyClientState,
        Self::Error,
    >;

    fn get_latest_any_consensus_state(&self, client_id: &Self::ClientId) -> Result<
        Self::AnyConsensusState,
        Self::Error,
    >;

    fn get_any_consensus_state_at_height(
        &self,
        client_id: &Self::ClientId,
        height: &Self::Height,
    ) -> Result<Option<Self::AnyConsensusState>, Self::Error>;

    fn get_any_consensus_state_after_height(
        &self,
        client_id: &Self::ClientId,
        height: &Self::Height,
    ) -> Result<Option<Self::AnyConsensusState>, Self::Error>;

    fn get_any_consensus_state_before_height(
        &self,
        client_id: &Self::ClientId,
        height: &Self::Height,
    ) -> Result<Option<Self::AnyConsensusState>, Self::Error>;

    fn set_any_client_state(
        &self,
        client_id: &Self::ClientId,
        client_state: &Self::AnyClientState,
    ) -> Result<(), Self::Error>;

    fn set_any_consensus_state(
        &self,
        client_id: &Self::ClientId,
        consensus_state: &Self::AnyConsensusState,
    ) -> Result<(), Self::Error>;

    fn client_type_mismatch_error(expected_client_type: &Self::ClientType) -> Self::Error;

    fn unknown_message_error(message_type: &Self::MessageType) -> Self::Error;

    fn client_frozen_error(client_id: &Self::ClientId) -> Self::Error;

    fn client_expired_error(
        client_id: &Self::ClientId,
        current_time: &Self::Timestamp,
        latest_allowed_update_time: &Self::Timestamp,
    ) -> Self::Error;

    fn update_client_event(
        client_id: &Self::ClientId,
        client_type: &Self::ClientType,
        consensus_height: &Self::Height,
        header: &Self::AnyClientHeader,
    ) -> Self::Event;

    fn misbehavior_event(
        client_id: &Self::ClientId,
        client_type: &Self::ClientType,
        consensus_height: &Self::Height,
        header: &Self::AnyClientHeader,
    ) -> Self::Event;
}

} // verus!
