use relay_engine::client::{
    AnyClientMethods, AnyClientState, ClientKind, ClientRegistry, HasClientPrisms,
    HasClientTypeFor, SimulatedClient, SimulatedClientState, TendermintClient,
    TendermintClientState,
};
use relay_engine::errors::RelayError;

#[test]
fn client_state_round_trips_through_the_sum() {
    let state = TendermintClientState { latest_height: 10, frozen: false };
    let wrapped = <ClientRegistry as HasClientPrisms<ClientRegistry, TendermintClient>>::
        into_any_client_state(state);
    assert_eq!(wrapped, AnyClientState::Tendermint(state));
    let back = <ClientRegistry as HasClientPrisms<ClientRegistry, TendermintClient>>::
        try_from_any_client_state(wrapped)
        .expect("the stored case matches");
    assert_eq!(back, state);
}

#[test]
fn downcasting_the_wrong_client_kind_is_a_mismatch() {
    let state = AnyClientState::Simulated(SimulatedClientState { latest_height: 3 });
    let result = <ClientRegistry as HasClientPrisms<ClientRegistry, TendermintClient>>::
        try_from_any_client_state(state);
    assert_eq!(result, Err(RelayError::ClientTypeMismatch));
    let other = AnyClientState::Tendermint(TendermintClientState {
        latest_height: 4,
        frozen: false,
    });
    let result = <ClientRegistry as HasClientPrisms<ClientRegistry, SimulatedClient>>::
        try_from_any_client_state(other);
    assert_eq!(result, Err(RelayError::ClientTypeMismatch));
}

#[test]
fn client_state_type_reads_the_tag() {
    let tendermint = AnyClientState::Tendermint(TendermintClientState {
        latest_height: 1,
        frozen: false,
    });
    assert_eq!(ClientRegistry::client_state_type(&tendermint), ClientKind::Tendermint);
    let simulated = AnyClientState::Simulated(SimulatedClientState { latest_height: 1 });
    assert_eq!(ClientRegistry::client_state_type(&simulated), ClientKind::Simulated);
    assert_eq!(
        <ClientRegistry as HasClientTypeFor<TendermintClient>>::client_type(),
        ClientKind::Tendermint
    );
    assert_eq!(
        <ClientRegistry as HasClientTypeFor<SimulatedClient>>::client_type(),
        ClientKind::Simulated
    );
}
