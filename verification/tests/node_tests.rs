use relay_engine::connection::{bootstrap_connections_dynamic, ForeignClient};
use relay_engine::errors::RelayError;
use relay_engine::mock::{MockConnectionBootstrapper, MockNodeBootstrapper};
use relay_engine::node::{
    run_nary_node_test, FullNode, HasOverrides, NaryNodeTest, NodeConfigOverride, TestConfig,
    TestConfigOverride,
};

struct PlainOverrides;

impl NodeConfigOverride for PlainOverrides {
    fn modify_node_config(&self, node: FullNode) -> Result<FullNode, RelayError> {
        Ok(FullNode { relayer_wallet: node.relayer_wallet + 100, ..node })
    }
}

impl TestConfigOverride for PlainOverrides {
    fn modify_test_config(&self, config: TestConfig) -> TestConfig {
        config
    }
}

struct ThreeNodeTest {
    overrides: PlainOverrides,
}

impl NaryNodeTest for ThreeNodeTest {
    fn size(&self) -> usize {
        3
    }

    fn run(&self, _config: &TestConfig, nodes: Vec<FullNode>) -> Result<(), RelayError> {
        assert_eq!(nodes.len(), 3);
        for (i, node) in nodes.iter().enumerate() {
            assert_eq!(node.chain_id, i as u64);
            assert_eq!(node.relayer_wallet, i as u64 + 100);
        }
        Ok(())
    }
}

impl HasOverrides for ThreeNodeTest {
    type Overrides = PlainOverrides;

    fn get_overrides(&self) -> &PlainOverrides {
        &self.overrides
    }
}

#[test]
fn nary_node_test_bootstraps_each_node_with_overrides() {
    let test = ThreeNodeTest { overrides: PlainOverrides };
    let config = TestConfig { chain_store_key: 1, bootstrap_with_random_ids: false };
    let mut builder = MockNodeBootstrapper::new();
    run_nary_node_test(&test, &config, &mut builder).expect("the test body passes");
    assert_eq!(builder.spawned.len(), 3);
    for (i, (suffix, node)) in builder.spawned.iter().enumerate() {
        assert_eq!(*suffix, i as u64);
        assert_eq!(node.chain_id, i as u64);
    }
}

#[test]
fn nary_node_test_propagates_a_bootstrap_failure() {
    let test = ThreeNodeTest { overrides: PlainOverrides };
    let config = TestConfig { chain_store_key: 1, bootstrap_with_random_ids: false };
    let mut builder = MockNodeBootstrapper::new();
    builder.fail_bootstraps = true;
    let result = run_nary_node_test(&test, &config, &mut builder);
    assert_eq!(result, Err(RelayError::QueryError));
    assert!(builder.spawned.is_empty());
}

fn client_matrix(size: u64) -> Vec<Vec<ForeignClient>> {
    let mut matrix = Vec::new();
    for host in 0..size {
        let mut row = Vec::new();
        for counterparty in 0..size {
            row.push(ForeignClient {
                host_chain: host,
                tracked_chain: counterparty,
                client_id: host * 10 + counterparty,
            });
        }
        matrix.push(row);
    }
    matrix
}

#[test]
fn connection_mesh_handshakes_each_pair_once() {
    let clients = client_matrix(3);
    let mut connector = MockConnectionBootstrapper::new();
    let mesh = bootstrap_connections_dynamic(&clients, &mut connector)
        .expect("a square matrix bootstraps");
    // Six ordered pairs with i <= j over three chains.
    assert_eq!(connector.handshakes.len(), 6);
    assert_eq!(mesh.connections.len(), 3);
    for row in &mesh.connections {
        assert_eq!(row.len(), 3);
    }
    // The mirrored entry is the flipped connection, not a new handshake.
    let upper = mesh.connections[0][2];
    let lower = mesh.connections[2][0];
    assert_eq!(lower, upper.flip());
    // Each upper-triangle entry was handshaken from the right client pair.
    let (counter, own, connection) = connector.handshakes[2];
    assert_eq!(own, clients[0][2]);
    assert_eq!(counter, clients[2][0]);
    assert_eq!(connection, upper);
}

#[test]
fn non_square_client_matrix_is_refused() {
    let mut clients = client_matrix(3);
    clients[1].pop();
    let mut connector = MockConnectionBootstrapper::new();
    let result = bootstrap_connections_dynamic(&clients, &mut connector);
    assert!(matches!(result, Err(RelayError::DimensionMismatch)));
    assert!(connector.handshakes.is_empty());
}
