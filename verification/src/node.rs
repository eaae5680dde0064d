//! The n-ary node test runner: bootstrap a fixed number of chain nodes
//! through a builder capability, apply the test's configuration
//! overrides, and hand the nodes to the test body.

use vstd::prelude::*;

use crate::errors::RelayError;

verus! {

/// Settings a test run starts from.
#[derive(Clone, Copy, Debug, PartialEq, Eq, Structural)]
pub struct TestConfig {
    /// Token for the store directory the run works in.
    pub chain_store_key: u64,
    /// Whether bootstrapped chains get randomised identifiers.
    pub bootstrap_with_random_ids: bool,
}

/// One bootstrapped chain node, as the tests read it.
#[derive(Clone, Copy, Debug, PartialEq, Eq, Structural)]
pub struct FullNode {
    pub chain_id: u64,
    pub rpc_port: u64,
    pub relayer_wallet: u64,
}

/// Spawns one chain node; the host environment implements this. Every
/// spawned node is recorded, with its suffix, in the builder's log, so
/// the runner can state what was bootstrapped and in what order.
pub trait NodeBootstrapper {
    spec fn spawn_log(&self) -> Seq<(u64, FullNode)>;

    fn bootstrap_single_node(&mut self, suffix: u64) -> (r: Result<FullNode, RelayError>)
        ensures
            r matches Ok(node) ==> final(self).spawn_log() == old(self).spawn_log().push(
                (suffix, node),
            ),
            r is Err ==> final(self).spawn_log() == old(self).spawn_log(),
    ;
}

/// A test body over a fixed number of bootstrapped nodes, which the
/// runner hands it all at once.
pub trait NaryNodeTest {
    /// How many nodes the test runs over.
    fn size(&self) -> (r: usize);

    fn run(&self, config: &TestConfig, nodes: Vec<FullNode>) -> (r: Result<(), RelayError>);
}

/// Amendments a test makes to each node's configuration.
pub trait NodeConfigOverride {
    fn modify_node_config(&self, node: FullNode) -> (r: Result<FullNode, RelayError>);
}

/// Amendments a test makes to the run's configuration.
pub trait TestConfigOverride {
    fn modify_test_config(&self, config: TestConfig) -> (r: TestConfig);
}

/// Access to a test's override set.
pub trait HasOverrides {
    type Overrides;

    fn get_overrides(&self) -> &Self::Overrides;
}

/// A basic test: runs against a configuration and a node builder.
pub trait BasicTest<Builder> {
    fn run_test(&self, config: &TestConfig, builder: &mut Builder) -> (r: Result<
        (),
        RelayError,
    >);
}

/// Adapter running an n-ary node test as a basic test: it bootstraps the
/// test's nodes, one at a time, before the test body runs.
pub struct RunNaryNodeTest<'a, Test> {
    pub test: &'a Test,
}

impl<'a, Test: HasOverrides> HasOverrides for RunNaryNodeTest<'a, Test> {
    type Overrides = Test::Overrides;

    fn get_overrides(&self) -> &Self::Overrides {
        self.test.get_overrides()
    }
}

impl<'a, Test, Builder> BasicTest<Builder> for RunNaryNodeTest<'a, Test> where
    Test: NaryNodeTest + HasOverrides,
    Test::Overrides: NodeConfigOverride,
    Builder: NodeBootstrapper,
 {
    fn run_test(&self, config: &TestConfig, builder: &mut Builder) -> (r: Result<
        (),
        RelayError,
    >)
        ensures
            spawned_in_suffix_order(old(builder).spawn_log(), final(builder).spawn_log()),
    {
        let ghost base = builder.spawn_log();
        let count = self.test.size();
        let mut nodes: Vec<FullNode> = Vec::new();
        let mut i: usize = 0;
        while i < count
            invariant
                i <= count,
                nodes@.len() == i,
                base == old(builder).spawn_log(),
                builder.spawn_log().len() == base.len() + i,
                forall|k: int|
                    0 <= k < base.len() ==> #[trigger] builder.spawn_log()[k] == base[k],
                forall|k: int|
                    base.len() <= k < builder.spawn_log().len() ==> (#[trigger] builder.spawn_log()[
                        k
                    ]).0 == (k - base.len()) as u64,
            decreases count - i,
        {
            let bootstrapped = builder.bootstrap_single_node(i as u64)?;
            let node = self.test.get_overrides().modify_node_config(bootstrapped)?;
            nodes.push(node);
            i = i + 1;
        }
        self.test.run(config, nodes)
    }
}

/// Whether the builder's log grew only by nodes spawned under the
/// consecutive suffixes zero, one, two, and so on, in that order.
pub open spec fn spawned_in_suffix_order(
    before: Seq<(u64, FullNode)>,
    after: Seq<(u64, FullNode)>,
) -> bool {
    &&& after.len() >= before.len()
    &&& (forall|k: int| 0 <= k < before.len() ==> #[trigger] after[k] == before[k])
    &&& (forall|k: int|
        before.len() <= k < after.len() ==> (#[trigger] after[k]).0 == (k - before.len()) as u64)
}

/// Run a basic test against the given configuration and builder.
pub fn run_basic_test<Builder, T: BasicTest<Builder>>(
    test: &T,
    config: &TestConfig,
    builder: &mut Builder,
) -> (r: Result<(), RelayError>) {
    test.run_test(config, builder)
}

/// Run an n-ary node test: its nodes are bootstrapped through `builder`
/// under the suffixes zero upward, each amended by the test's overrides,
/// and handed to the test body together; a bootstrap or override failure
/// propagates before the body runs.
pub fn run_nary_node_test<Test, Builder>(
    test: &Test,
    config: &TestConfig,
    builder: &mut Builder,
) -> (r: Result<(), RelayError>) where
    Test: NaryNodeTest + HasOverrides,
    Test::Overrides: NodeConfigOverride + TestConfigOverride,
    Builder: NodeBootstrapper,

    ensures
        spawned_in_suffix_order(old(builder).spawn_log(), final(builder).spawn_log()),
{
    let adapter: RunNaryNodeTest<'_, Test> = RunNaryNodeTest { test };
    adapter.run_test(config, builder)
}



} // verus!
